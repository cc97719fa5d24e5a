//! Plans: what a command has the host do, in which order, and what becomes of each reply.
//!
//! A plan is a sequence of steps. A step hands the host one action and says how its reply is used:
//! it may be ignored, it may have to be a success, or a decision is made on it, whose plan is
//! then carried out before the rest.
use std::path::PathBuf;
use vstd::prelude::*;

use crate::commands::LiberateTier;
use crate::model::{
    fault, new_fault, AutoMode, BootPlan, CpuOc, Fault, GovernorConfig, PowerConfig, SweepOpts,
    VidRaise,
};
use crate::text::Line;

verus! {

/// How the rows of a subtractive CU sweep are printed while it runs.
#[derive(Debug, Clone, Copy, PartialEq, Eq)]
pub enum RowStyle {
    /// As rows of the health test.
    Kat,
    /// As rows that name the dropped WGP.
    Drop,
}

/// An action of the host that carries no text.
#[derive(Debug, Clone, Copy, PartialEq, Eq)]
pub enum Op {
    /// Whether the board is a BC-250. Answered by a flag.
    ApuPresent,
    /// Probe the booted kernel for the series. Answered by a report.
    PatchReport,
    /// The embedded series. Answered by the series.
    PatchSeries,
    /// The last report as one JSON object. Answered by text.
    ReportJson,
    /// Whether the module parameter arms the 40 CUs. Answered by a flag.
    CuArmed,
    /// Whether the modprobe file arms the 40 CUs. Answered by a flag.
    CuPersisted,
    /// The harvest map. Answered by the map, where the driver can be queried.
    CuMap,
    /// Write the modprobe file.
    ArmCu,
    /// Remove the modprobe file.
    DisarmCu,
    /// The live dispatch masks. Answered by masks.
    CurrentMasks,
    /// The shape of a routing. Answered by a shape.
    RouteShape([u32; 4]),
    /// The number of CUs of a routing. Answered by a number.
    CuCount([u32; 4]),
    /// Route all 40 CUs.
    RouteAll,
    /// Route the factory dispatch.
    RouteFactory,
    /// Route the masks; an empty shader array is refused.
    ApplyRoute([u32; 4]),
    /// Route the masks without the guard against empty shader arrays.
    ApplyRouteForced([u32; 4]),
    /// Flip one WGP of the live routing. Answered by the new masks.
    ToggleWgp { array: u32, wgp: u32, force_unsafe: bool },
    /// Save the live routing. Answered by its masks.
    SaveRoute,
    /// Apply the saved routing. Answered by its masks.
    ApplySavedRoute,
    /// Arm the boot re-apply of the routing.
    ArmRoute,
    /// Disarm the boot re-apply of the routing.
    DisarmRoute,
    /// Whether the boot re-apply of the routing is armed. Answered by a flag.
    RouteArmed,
    /// Whether the health test can run. Answered by a flag.
    KatAvailable,
    /// Health-test the full routing. Answered by a result.
    KatFull,
    /// Health-test the full routing less one WGP at a time. Answered by the results.
    KatLocalize(RowStyle),
    /// Bench a routing; an empty shader array is refused. Answered by a bench result.
    BenchRoute([u32; 4]),
    /// The throughput of the last bench divided by a number of CUs. Answered by text with one
    /// decimal.
    BenchPerCu(u32),
    /// Take the lock of the settings files, until the command ends.
    LockConfig,
    /// The persisted power settings, or the default ones. Answered by power settings.
    LoadPower,
    /// The default power settings. Answered by power settings.
    DefaultPower,
    SavePower(PowerConfig),
    /// The persisted governor tiers, or the default ones. Answered by governor tiers.
    LoadGovernor,
    SaveGovernor(GovernorConfig),
    /// Set the top clock, if it is in range. Answered by the new settings.
    SetTop { cfg: PowerConfig, mhz: u32 },
    /// Set the deep clock, if it is in range. Answered by the new settings.
    SetDeep { cfg: PowerConfig, mhz: u32 },
    /// Refuse governor tiers that are out of order.
    ValidateLadder(GovernorConfig),
    /// The effective top clock. Answered by a number.
    EffectiveTop(PowerConfig),
    /// The highest clock that the settings let the GPU reach. Answered by a number.
    FloorClock { cfg: PowerConfig, governor: GovernorConfig },
    /// The lowest safe voltage at a clock. Answered by a number.
    MinVddc(u32),
    /// Set the voltage at a clock through the overdrive. Answered by whether it was set.
    SetVddc { clk: u32, mv: u32 },
    /// Restore the stock voltage curve. Answered by whether it was restored.
    ResetVddc,
    /// Whether the persisted voltage is too low for a clock. Answered by the raise it needs.
    RequiredRaise { cfg: PowerConfig, mhz: u32 },
    /// Pin the clock and persist the pin. Answered by what came of it.
    ForceMode(u32),
    /// Release clock and voltage and clear the pin. Answered by the mode that resumes.
    UnforceMode,
    /// The name of an auto mode. Answered by text.
    ModeName(AutoMode),
    /// Force the GFX clock. Answered by the clock that was set.
    ForceClock(u32),
    /// Release the GFX clock.
    ReleaseClock,
    /// The telemetry node. Answered by its text, where it is there.
    TelemetryNode,
    /// The current clock as the driver reports it. Answered by a number, where there is one.
    CurrentSclk,
    StopGpuUnit,
    StartGpuUnit,
    /// Whether the GPU power unit is installed. Answered by a flag.
    GpuUnitInstalled,
    /// Whether a legacy GPU unit is still enabled. Answered by a flag.
    LegacyUnits,
    /// Have the GPU power unit enact the persisted mode.
    ApplyMode,
    /// Have a running auto mode read its settings again.
    ReloadIfAuto,
    Poke,
    /// Run the autosleep daemon.
    RunAutosleep { idle: u64, deep_force: bool },
    /// Run the governor.
    RunGovernor(GovernorConfig),
    /// The boot plan of the persisted power settings. Answered by a boot plan.
    LoadForBoot,
    /// The time since boot, where it can be read. Answered by an uptime.
    Uptime,
    /// Sleep for a number of nanoseconds.
    Sleep(u64),
    /// Open the overclock mailbox.
    OpenOc,
    /// The live CPU state. Answered by that state.
    CpuLive,
    /// The live GPU voltage. Answered by a number, where there is one.
    GpuVoltage,
    /// The persisted CPU point, or the default one. Answered by a point.
    LoadCpu,
    /// The default CPU point. Answered by a point.
    DefaultCpu,
    SaveCpu(CpuOc),
    ApplyCpu(CpuOc),
    /// Apply a point, staged by its direction from the previous one.
    ApplyCpuFrom { point: CpuOc, prev: CpuOc },
    /// The predicted Vid of a point at its boost clock. Answered by a number.
    PredictedVid(CpuOc),
    /// The curve scale that keeps a boost clock under a Vid cap. Answered by a signed number.
    SafeScale { boost: u32, vid_cap: u32 },
    ForceCpuVid(u32),
    ReleaseCpuVid,
    RestoreCpu,
    ClearSavedCpu,
    /// Whether a CPU point is persisted. Answered by a flag.
    CpuSaved,
    /// Arm the boot re-apply of the CPU point.
    ArmCpuOc,
    /// Disarm the boot re-apply of the CPU point.
    DisarmCpuOc,
    /// Whether the boot re-apply of the CPU point is armed. Answered by a flag.
    CpuOcArmed,
    /// Set the GPU temperature limit in hardware.
    SetGpuTemp(u32),
    /// Run a CPU stability sweep. Answered by its points and the highest stable one.
    DetectCpu(SweepOpts),
    /// Every profile. Answered by the profiles.
    AllProfiles,
    /// Validate the profile that was found last.
    ValidateProfile,
    /// Apply the CPU and GPU parts of the profile that was found last.
    ApplyProfile,
    /// Whether standard input is a terminal. Answered by a flag.
    StdinTty,
    FlushStdout,
    /// Read a line of standard input. Answered by its text, or by none at the end of input.
    ReadLine,
}

/// A kernel build as the command line asks for it.
#[derive(Debug, Clone, PartialEq, Eq)]
pub struct BuildRequest<S> {
    /// The PKGBUILD directory, where it is not the default one.
    pub pkgbuild: Option<PathBuf>,
    /// The remote target, if any.
    pub target: Option<S>,
    /// Whether to execute the plan or only to print it.
    pub run: bool,
}

/// An action of the host.
#[derive(Debug, Clone, PartialEq, Eq)]
pub enum Action<S> {
    /// Write text to standard output.
    Print(S),
    /// Write a line to standard output.
    Println(S),
    /// Write a line to standard error.
    Eprintln(S),
    /// Look a profile up. Answered by the profile, if there is one.
    FindProfile(S),
    /// Delete a custom profile.
    DeleteProfile(S),
    /// Refuse a name that no profile can have.
    CheckProfileName(S),
    /// Save a custom profile that holds a CPU point alone. Answered by the text of its path.
    SaveProfile { name: S, description: S, cpu: CpuOc },
    /// Note a change of the power mode in the log.
    LogTransition(S),
    /// Set the coarse performance level.
    SetPerformanceLevel(S),
    /// Build the series, with this CU write mode in place of the default one where it is given.
    Build { request: BuildRequest<S>, cc_mode: Option<u32> },
    Host(Op),
}

/// What was routed, for the message once it is persisted.
#[derive(Debug, Clone, Copy, PartialEq, Eq)]
pub enum Routed {
    All,
    Factory,
    Masks([u32; 4]),
    Toggled { array: u32, wgp: u32, masks: [u32; 4] },
}

/// A decision that carries no text.
#[derive(Debug, Clone, Copy, PartialEq, Eq)]
pub enum Spot {
    /// On a report.
    Patches,
    /// On a map.
    Cumap,
    /// On the profiles.
    ListProfiles,
    /// On a flag.
    CuArmed,
    /// On a flag.
    CuPersisted,
    /// On a map.
    CuStatusMap,
    /// On masks, or the failure to read them.
    LiveRoute,
    /// On the shape of the masks.
    LiveShape([u32; 4]),
    /// On a flag.
    RouteArmed,
    /// On a report.
    CuEnabled,
    /// On the success or failure to save the routing.
    RouteSaved(Routed),
    /// On the success or failure to arm its boot re-apply.
    RoutePersisted(Routed),
    /// On the shape of what was routed.
    RoutedShape(Routed, bool),
    /// On masks.
    Toggled { array: u32, wgp: u32 },
    /// On masks.
    BenchCurrent,
    /// On a shape.
    BenchShape([u32; 4]),
    /// On a bench result.
    BenchDone { masks: [u32; 4], cu: u32 },
    /// On masks.
    SavedRoute,
    /// On the success or failure to arm the boot re-apply.
    SavedRouteArmed([u32; 4]),
    /// On a number.
    SavedRouteCount { masks: [u32; 4], armed: bool },
    /// On masks.
    LoadedRoute,
    /// On a number.
    LoadedRouteCount([u32; 4]),
    /// On a flag.
    KatReady { localize: bool, probe: bool },
    /// On a test result.
    KatFull { localize: bool },
    /// On the results of a sweep.
    KatSwept,
    /// On power settings.
    GpuStatus,
    /// On text.
    StatusMode,
    /// On telemetry text, or the failure to read it.
    StatusClock,
    /// On a number that may be missing.
    StatusSclk,
    /// On what came of a pin.
    Forced(u32),
    /// On a mode.
    Unforced,
    /// On text.
    UnforcedMode,
    /// On power settings.
    PinConfig(u32),
    /// On the raise that a pin needs.
    PinRaise(u32),
    /// On a flag.
    PinVddc { target: u32, raise: VidRaise },
    /// On the clock that was set, or the failure to set it.
    PinForced,
    /// On power settings.
    VidPower(u32),
    /// On governor tiers.
    VidGovernor { mv: u32, cfg: PowerConfig },
    /// On a number.
    VidClock { mv: u32, cfg: PowerConfig },
    /// On a number.
    VidFloor { mv: u32, cfg: PowerConfig, clk: u32 },
    /// On a flag.
    VidSet { mv: u32, cfg: PowerConfig },
    /// On a flag.
    VidInstalled(u32),
    /// On a flag.
    VidReset,
    /// On power settings.
    VidCleared,
    /// On power settings.
    Wake { override_pin: bool },
    /// On power settings.
    DeepSleep { override_pin: bool },
    /// On power settings.
    TopPower(u32),
    /// On the power settings with the new top clock.
    TopSet(u32),
    /// On governor tiers.
    TopGovernor { mhz: u32, cfg: PowerConfig },
    /// On a number.
    TopClock { mhz: u32, cfg: PowerConfig, governor: GovernorConfig },
    /// On a number.
    TopFloor { mhz: u32, cfg: PowerConfig, governor: GovernorConfig, clk: u32 },
    /// On governor tiers.
    SetMid(u32),
    /// On governor tiers.
    SetIdle(u32),
    /// On power settings.
    DeepPower(u32),
    /// On the power settings with the new deep clock.
    DeepSet(u32),
    /// On governor tiers.
    DeepGovernor { mhz: u32, cfg: PowerConfig },
    /// On a CPU point.
    TempCap(u32),
    /// On the success or failure to open the mailbox.
    TempCapOc(u32),
    /// On power settings.
    SwitchMode(AutoMode),
    /// On governor tiers.
    StartGovernor,
    /// On telemetry text.
    Telemetry,
    /// On a boot plan.
    BootLoaded,
    /// On power settings.
    BootDefault(BootPlan),
    /// On an uptime.
    BootUptime { plan: BootPlan, cfg: PowerConfig },
    /// On governor tiers.
    BootVidGovernor { mv: u32, cfg: PowerConfig },
    /// On a number.
    BootVidClock(u32),
    /// On a flag.
    BootVidSet { mv: u32, clk: u32 },
    /// On a flag.
    BootLegacy { plan: BootPlan, cfg: PowerConfig },
    /// On a number.
    BootPinned,
    /// On a number.
    FailSafePinned,
    /// On the live CPU state.
    CpuStatus,
    /// On a number that may be missing.
    CpuGpuVid,
    /// On a flag.
    CpuBoot,
    /// On a CPU point.
    CpuTune {
        boost: Option<u32>,
        scale: Option<i32>,
        cpu_temp: Option<u32>,
        gpu_temp: Option<u32>,
    },
    /// On a number.
    CpuTuned(CpuOc),
    /// On the success or failure to arm the boot re-apply.
    CpuArmed,
    /// On a signed number.
    UndervoltScale(u32),
    /// On a CPU point.
    UndervoltBase { boost: u32, scale: i32 },
    /// On a number.
    UndervoltVid { boost: u32, scale: i32 },
    /// On a flag.
    CpuSaved,
    /// On a CPU point.
    CpuReapply,
    /// On a number.
    CpuReapplied(CpuOc),
    /// On a report.
    Doctor { json: bool, verify: bool },
    /// On text.
    DoctorJson { verify: bool, is_bc250: bool, fully_patched: bool },
    /// On a map.
    DoctorMap,
    /// On power settings.
    DoctorPower,
    /// On a flag.
    DoctorGpuUnit,
    /// On a flag.
    DoctorCpuUnit { gpu: bool },
    /// On a flag.
    DoctorRouteUnit { gpu: bool, cpu: bool },
    /// On text.
    DoctorMode,
}

/// A decision that is made on a reply.
#[derive(Debug, Clone, PartialEq, Eq)]
pub enum Point<S> {
    At(Spot),
    /// On the series.
    ShowPatch(S),
    /// On a profile that may be missing.
    ShowProfile(S),
    /// On a profile that may be missing.
    ApplyProfile { name: S, write: bool },
    /// On text.
    BenchPerCu { masks: [u32; 4], cu: u32, gflops: S, verdict: S },
    /// On power settings.
    Level { level: S, override_pin: bool },
    /// On the results of a CPU sweep.
    Detected(Option<S>),
    /// On a number.
    DetectedVid { point: CpuOc, save: Option<S> },
    /// On the text of a path.
    ProfileSaved(S),
    /// On a flag.
    LiberateBoard { request: BuildRequest<S>, tier: Option<LiberateTier> },
    /// On a report.
    LiberateReport { request: BuildRequest<S>, tier: Option<LiberateTier> },
    /// On a flag.
    TierTty(BuildRequest<S>),
    /// On a line of input that may be missing.
    TierLine(BuildRequest<S>),
}

/// What becomes of the reply to an action.
#[derive(Debug, Clone, PartialEq, Eq)]
pub enum Then<S> {
    /// Nothing: the plan goes on.
    Proceed,
    /// A failure ends the command with that failure.
    Require,
    /// A failure ends the command with that failure as the cause of this message.
    RequireAs(S),
    /// A failure ends the command; anything else is decided on.
    Ask(Point<S>),
    /// Success and failure are decided on.
    Judge(Point<S>),
}

/// How a command ends.
#[derive(Debug, Clone, PartialEq, Eq)]
pub enum Outcome<S> {
    Success,
    /// The process ends with this status.
    Exit(u8),
    Failed(Fault<S>),
}

/// One step of a plan.
#[derive(Debug, Clone, PartialEq, Eq)]
pub enum Instr<S> {
    /// Hand the host an action and use its reply.
    Do { action: Action<S>, then: Then<S> },
    /// End the command, whatever is left of the plan.
    End(Outcome<S>),
}

/// The steps of a plan.
pub type Plan = Seq<Instr<Seq<char>>>;

/// The text that may be there.
pub open spec fn maybe(s: Option<String>) -> Option<Seq<char>> {
    match s {
        Some(text) => Some(text@),
        None => None,
    }
}

impl View for BuildRequest<String> {
    type V = BuildRequest<Seq<char>>;

    open spec fn view(&self) -> BuildRequest<Seq<char>> {
        BuildRequest { pkgbuild: self.pkgbuild, target: maybe(self.target), run: self.run }
    }
}

impl View for Action<String> {
    type V = Action<Seq<char>>;

    open spec fn view(&self) -> Action<Seq<char>> {
        match *self {
            Action::Print(s) => Action::Print(s@),
            Action::Println(s) => Action::Println(s@),
            Action::Eprintln(s) => Action::Eprintln(s@),
            Action::FindProfile(s) => Action::FindProfile(s@),
            Action::DeleteProfile(s) => Action::DeleteProfile(s@),
            Action::CheckProfileName(s) => Action::CheckProfileName(s@),
            Action::SaveProfile { name, description, cpu } => Action::SaveProfile {
                name: name@,
                description: description@,
                cpu,
            },
            Action::LogTransition(s) => Action::LogTransition(s@),
            Action::SetPerformanceLevel(s) => Action::SetPerformanceLevel(s@),
            Action::Build { request, cc_mode } => Action::Build { request: request@, cc_mode },
            Action::Host(op) => Action::Host(op),
        }
    }
}

impl View for Point<String> {
    type V = Point<Seq<char>>;

    open spec fn view(&self) -> Point<Seq<char>> {
        match *self {
            Point::At(spot) => Point::At(spot),
            Point::ShowPatch(id) => Point::ShowPatch(id@),
            Point::ShowProfile(name) => Point::ShowProfile(name@),
            Point::ApplyProfile { name, write } => Point::ApplyProfile { name: name@, write },
            Point::BenchPerCu { masks, cu, gflops, verdict } => Point::BenchPerCu {
                masks,
                cu,
                gflops: gflops@,
                verdict: verdict@,
            },
            Point::Level { level, override_pin } => Point::Level { level: level@, override_pin },
            Point::Detected(save) => Point::Detected(maybe(save)),
            Point::DetectedVid { point, save } => Point::DetectedVid { point, save: maybe(save) },
            Point::ProfileSaved(name) => Point::ProfileSaved(name@),
            Point::LiberateBoard { request, tier } => Point::LiberateBoard {
                request: request@,
                tier,
            },
            Point::LiberateReport { request, tier } => Point::LiberateReport {
                request: request@,
                tier,
            },
            Point::TierTty(request) => Point::TierTty(request@),
            Point::TierLine(request) => Point::TierLine(request@),
        }
    }
}

impl View for Then<String> {
    type V = Then<Seq<char>>;

    open spec fn view(&self) -> Then<Seq<char>> {
        match *self {
            Then::Proceed => Then::Proceed,
            Then::Require => Then::Require,
            Then::RequireAs(context) => Then::RequireAs(context@),
            Then::Ask(point) => Then::Ask(point@),
            Then::Judge(point) => Then::Judge(point@),
        }
    }
}

impl View for Outcome<String> {
    type V = Outcome<Seq<char>>;

    open spec fn view(&self) -> Outcome<Seq<char>> {
        match *self {
            Outcome::Success => Outcome::Success,
            Outcome::Exit(status) => Outcome::Exit(status),
            Outcome::Failed(f) => Outcome::Failed(f@),
        }
    }
}

impl View for Instr<String> {
    type V = Instr<Seq<char>>;

    open spec fn view(&self) -> Instr<Seq<char>> {
        match *self {
            Instr::Do { action, then } => Instr::Do { action: action@, then: then@ },
            Instr::End(outcome) => Instr::End(outcome@),
        }
    }
}

/// A step that prints a line.
pub open spec fn say(text: Seq<char>) -> Instr<Seq<char>> {
    Instr::Do { action: Action::Println(text), then: Then::Proceed }
}

/// A step that prints text as it is.
pub open spec fn put(text: Seq<char>) -> Instr<Seq<char>> {
    Instr::Do { action: Action::Print(text), then: Then::Proceed }
}

/// A step that prints a line to standard error.
pub open spec fn warn(text: Seq<char>) -> Instr<Seq<char>> {
    Instr::Do { action: Action::Eprintln(text), then: Then::Proceed }
}

/// A step whose reply does not matter.
pub open spec fn go(op: Op) -> Instr<Seq<char>> {
    Instr::Do { action: Action::Host(op), then: Then::Proceed }
}

/// A step that has to succeed.
pub open spec fn must(op: Op) -> Instr<Seq<char>> {
    Instr::Do { action: Action::Host(op), then: Then::Require }
}

/// A step whose value is decided on.
pub open spec fn ask(op: Op, spot: Spot) -> Instr<Seq<char>> {
    Instr::Do { action: Action::Host(op), then: Then::Ask(Point::At(spot)) }
}

/// A step whose value or failure is decided on.
pub open spec fn judge(op: Op, spot: Spot) -> Instr<Seq<char>> {
    Instr::Do { action: Action::Host(op), then: Then::Judge(Point::At(spot)) }
}

/// A step of any kind.
pub open spec fn act(action: Action<Seq<char>>, then: Then<Seq<char>>) -> Instr<Seq<char>> {
    Instr::Do { action, then }
}

/// A step that ends the command.
pub open spec fn end(outcome: Outcome<Seq<char>>) -> Instr<Seq<char>> {
    Instr::End(outcome)
}

/// A step that ends the command with an error.
pub open spec fn fail(message: Seq<char>) -> Instr<Seq<char>> {
    Instr::End(Outcome::Failed(fault(message)))
}

/// Steps that print each of the lines behind a prefix.
pub open spec fn say_all(prefix: Seq<char>, lines: Seq<Seq<char>>) -> Plan {
    lines.map_values(|line: Seq<char>| say(prefix + line))
}

/// Steps that print each of the lines behind a prefix to standard error.
pub open spec fn warn_all(prefix: Seq<char>, lines: Seq<Seq<char>>) -> Plan {
    lines.map_values(|line: Seq<char>| warn(prefix + line))
}

/// A plan under construction.
pub struct Script {
    steps: Vec<Instr<String>>,
}

impl View for Script {
    type V = Plan;

    closed spec fn view(&self) -> Plan {
        self.steps@.map_values(|i: Instr<String>| i@)
    }
}

impl Script {
    /// The plan without steps.
    pub fn new() -> (s: Script)
        ensures
            s@ == Plan::empty(),
    {
        let s = Script { steps: Vec::new() };
        assert(s@ =~= Plan::empty());
        s
    }

    /// The steps of this plan.
    pub fn into_steps(self) -> (steps: Vec<Instr<String>>)
        ensures
            steps@.map_values(|i: Instr<String>| i@) == self@,
    {
        self.steps
    }

    /// This plan, then the step.
    pub fn step(self, instr: Instr<String>) -> (s: Script)
        ensures
            s@ == self@.push(instr@),
    {
        let mut steps: Vec<Instr<String>> = self.steps;
        steps.push(instr);
        let s = Script { steps };
        assert(s@ =~= self@.push(instr@));
        s
    }

    /// This plan, then the other.
    pub fn and(self, other: Script) -> (s: Script)
        ensures
            s@ == self@ + other@,
    {
        let mut steps: Vec<Instr<String>> = self.steps;
        let mut rest: Vec<Instr<String>> = other.steps;
        steps.append(&mut rest);
        let s = Script { steps };
        assert(s@ =~= self@ + other@);
        s
    }

    /// This plan, then a step of any kind.
    pub fn act(self, action: Action<String>, then: Then<String>) -> (s: Script)
        ensures
            s@ == self@.push(act(action@, then@)),
    {
        self.step(Instr::Do { action, then })
    }

    /// This plan, then a line.
    pub fn say(self, line: Line) -> (s: Script)
        ensures
            s@ == self@.push(say(line@)),
    {
        self.act(Action::Println(line.done()), Then::Proceed)
    }

    /// This plan, then a line of fixed text.
    pub fn tell(self, text: &str) -> (s: Script)
        ensures
            s@ == self@.push(say(text@)),
    {
        self.act(Action::Println(text.to_owned()), Then::Proceed)
    }

    /// This plan, then text as it is.
    pub fn put(self, text: &str) -> (s: Script)
        ensures
            s@ == self@.push(put(text@)),
    {
        self.act(Action::Print(text.to_owned()), Then::Proceed)
    }

    /// This plan, then a line to standard error.
    pub fn warn(self, line: Line) -> (s: Script)
        ensures
            s@ == self@.push(warn(line@)),
    {
        self.act(Action::Eprintln(line.done()), Then::Proceed)
    }

    /// This plan, then an action whose reply does not matter.
    pub fn go(self, op: Op) -> (s: Script)
        ensures
            s@ == self@.push(go(op)),
    {
        self.act(Action::Host(op), Then::Proceed)
    }

    /// This plan, then an action that has to succeed.
    pub fn must(self, op: Op) -> (s: Script)
        ensures
            s@ == self@.push(must(op)),
    {
        self.act(Action::Host(op), Then::Require)
    }

    /// This plan, then an action whose value is decided on.
    pub fn ask(self, op: Op, spot: Spot) -> (s: Script)
        ensures
            s@ == self@.push(ask(op, spot)),
    {
        self.act(Action::Host(op), Then::Ask(Point::At(spot)))
    }

    /// This plan, then an action whose value or failure is decided on.
    pub fn judge(self, op: Op, spot: Spot) -> (s: Script)
        ensures
            s@ == self@.push(judge(op, spot)),
    {
        self.act(Action::Host(op), Then::Judge(Point::At(spot)))
    }

    /// This plan, then the end of the command.
    pub fn end(self, outcome: Outcome<String>) -> (s: Script)
        ensures
            s@ == self@.push(end(outcome@)),
    {
        self.step(Instr::End(outcome))
    }

    /// This plan, then the end of the command with an error.
    pub fn fail(self, line: Line) -> (s: Script)
        ensures
            s@ == self@.push(fail(line@)),
    {
        self.end(Outcome::Failed(new_fault(line.done())))
    }

    /// This plan, then each of the lines behind a prefix.
    pub fn say_all(self, prefix: &str, lines: &Vec<String>) -> (s: Script)
        ensures
            s@ == self@ + say_all(prefix@, lines.deep_view()),
    {
        let ghost all = say_all(prefix@, lines.deep_view());
        let mut s: Script = self;
        let mut i: usize = 0;
        assert(s@ =~= self@ + all.take(0));
        while i < lines.len()
            invariant
                i <= lines.len(),
                all == say_all(prefix@, lines.deep_view()),
                s@ == self@ + all.take(i as int),
            decreases lines.len() - i,
        {
            s = s.say(Line::new(prefix).text(lines[i].as_str()));
            assert(all[i as int] == say(prefix@ + lines.deep_view()[i as int]));
            assert(self@ + all.take(i + 1) =~= (self@ + all.take(i as int)).push(all[i as int]));
            i = i + 1;
        }
        assert(all.take(i as int) =~= all);
        s
    }

    /// This plan, then each of the lines behind a prefix to standard error.
    pub fn warn_all(self, prefix: &str, lines: &Vec<String>) -> (s: Script)
        ensures
            s@ == self@ + warn_all(prefix@, lines.deep_view()),
    {
        let ghost all = warn_all(prefix@, lines.deep_view());
        let mut s: Script = self;
        let mut i: usize = 0;
        assert(s@ =~= self@ + all.take(0));
        while i < lines.len()
            invariant
                i <= lines.len(),
                all == warn_all(prefix@, lines.deep_view()),
                s@ == self@ + all.take(i as int),
            decreases lines.len() - i,
        {
            s = s.warn(Line::new(prefix).text(lines[i].as_str()));
            assert(all[i as int] == warn(prefix@ + lines.deep_view()[i as int]));
            assert(self@ + all.take(i + 1) =~= (self@ + all.take(i as int)).push(all[i as int]));
            i = i + 1;
        }
        assert(all.take(i as int) =~= all);
        s
    }
}

} // verus!
