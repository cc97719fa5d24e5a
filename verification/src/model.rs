//! The plain values that the commands read and write.
use vstd::prelude::*;

use crate::text::Line;

verus! {

/// An error: its own message, and the message followed by those of its causes.
#[derive(Debug, Clone, PartialEq, Eq)]
pub struct Fault<S> {
    pub message: S,
    pub chain: S,
}

impl View for Fault<String> {
    type V = Fault<Seq<char>>;

    open spec fn view(&self) -> Fault<Seq<char>> {
        Fault { message: self.message@, chain: self.chain@ }
    }
}

/// An error without a cause.
pub open spec fn fault(message: Seq<char>) -> Fault<Seq<char>> {
    Fault { message, chain: message }
}

/// An error without a cause.
pub fn new_fault(message: String) -> (f: Fault<String>)
    ensures
        f@ == fault(message@),
{
    Fault { chain: message.clone(), message }
}

/// `f` as the cause of another error.
pub fn fault_under(f: &Fault<String>, context: &str) -> (g: Fault<String>)
    ensures
        g@ == f@.under(context@),
{
    Fault {
        message: context.to_owned(),
        chain: Line::new(context).text(": ").text(f.chain.as_str()).done(),
    }
}

/// A copy of `f`.
pub fn copy_fault(f: &Fault<String>) -> (g: Fault<String>)
    ensures
        g@ == f@,
{
    Fault { message: f.message.clone(), chain: f.chain.clone() }
}

impl Fault<Seq<char>> {
    /// This error as the cause of another.
    pub open spec fn under(self, context: Seq<char>) -> Fault<Seq<char>> {
        Fault { message: context, chain: context + ": "@ + self.chain }
    }
}

/// The controller that owns the GPU clock while no manual pin is set.
#[derive(Debug, Clone, Copy, PartialEq, Eq)]
pub enum AutoMode {
    Governor,
    Autosleep,
    Released,
}

/// The persisted GPU power settings.
#[derive(Debug, Clone, Copy, PartialEq, Eq)]
pub struct PowerConfig {
    pub top_mhz: u32,
    pub deep_mhz: u32,
    /// The manual pin.
    pub force_mhz: Option<u32>,
    /// The persisted voltage override.
    pub force_vid_mv: Option<u32>,
    pub auto_mode: AutoMode,
}

/// The clock tiers of the governor.
#[derive(Debug, Clone, Copy, PartialEq, Eq)]
pub struct GovernorConfig {
    pub high_mhz: u32,
    pub mid_mhz: u32,
    pub idle_mhz: u32,
    pub deep_mhz: u32,
}

/// An operating point of the CPU, with the temperature limits.
#[derive(Debug, Clone, Copy, PartialEq, Eq)]
pub struct CpuOc {
    pub boost_mhz: u32,
    pub curve_scale: i32,
    pub cpu_temp_c: u32,
    pub gpu_temp_c: u32,
}

/// What the persisted power settings ask for at boot.
#[derive(Debug, Clone, Copy, PartialEq, Eq)]
pub enum BootPlan {
    /// Pin this clock.
    Manual(u32),
    /// The settings are there but do not parse: pin this safe clock and start nothing.
    FailSafePin(u32),
    /// Start the auto mode.
    Auto,
}

/// A voltage that is too low for a clock, and the floor to raise it to.
#[derive(Debug, Clone, Copy, PartialEq, Eq)]
pub struct VidRaise {
    pub old_mv: u32,
    pub floor_mv: u32,
}

/// What came of a persistent clock pin.
#[derive(Debug, Clone, Copy, PartialEq, Eq)]
pub struct ForceOutcome {
    pub set_mhz: u32,
    pub vid_raised: Option<VidRaise>,
    /// Whether the pin survives a reboot.
    pub held: bool,
}

/// The dispatch shape of a routing.
#[derive(Debug, Clone, PartialEq, Eq)]
pub struct RouteShape {
    pub cu: u32,
    pub per_array_wgp: [u32; 4],
    /// The number of shader arrays that are not empty.
    pub populated: u32,
    pub effective_cu: u32,
    pub warnings: Vec<String>,
}

/// The harvest map of the CUs.
#[derive(Debug, Clone, PartialEq, Eq)]
pub struct CuMap {
    pub active: u32,
    pub possible: u32,
    /// The map as text, line ends included.
    pub rendered: String,
}

/// The result of one known-answer test.
#[derive(Debug, Clone, PartialEq, Eq)]
pub struct KatReport {
    pub label: String,
    pub cu_count: u32,
    /// The elapsed milliseconds, rounded to an integer.
    pub millis: String,
    /// The throughput, rounded to an integer.
    pub gflops: String,
    pub mismatches: u64,
    pub hung: bool,
    pub ok: bool,
    pub verdict: String,
}

/// The result of a throughput bench.
#[derive(Debug, Clone, PartialEq, Eq)]
pub struct BenchRun {
    /// The throughput, rounded to an integer.
    pub gflops: String,
    pub mismatches: u64,
    pub hung: bool,
    pub ok: bool,
}

/// How sure it is that a patch is live.
#[derive(Debug, Clone, Copy, PartialEq, Eq)]
pub enum PatchState {
    Present,
    Inferred,
    Other,
}

/// The state of one patch of the series.
#[derive(Debug, Clone, PartialEq, Eq)]
pub struct PatchRow {
    pub id: String,
    pub title: String,
    pub glyph: String,
    pub state: PatchState,
}

/// What the booted kernel shows of the series.
#[derive(Debug, Clone, PartialEq, Eq)]
pub struct PatchReport {
    pub is_bc250: bool,
    /// The debugfs directory of the GPU driver.
    pub dbg_dir: Option<String>,
    pub rows: Vec<PatchRow>,
    pub fully_patched: bool,
    /// The number of patches that are absent.
    pub missing: usize,
    /// The number of patches in the series.
    pub count: usize,
}

/// One embedded patch.
#[derive(Debug, Clone, PartialEq, Eq)]
pub struct Patch {
    pub id: String,
    pub title: String,
    pub touches: String,
    pub body: String,
}

/// A tuning profile.
#[derive(Debug, Clone, PartialEq, Eq)]
pub struct ProfileEntry {
    pub name: String,
    pub description: String,
    /// What applying it would do.
    pub plan: Vec<String>,
    /// Whether it arms (or disarms) the 40 CUs.
    pub cu_40: Option<bool>,
}

/// The live CPU state.
#[derive(Debug, Clone, PartialEq, Eq)]
pub struct CpuLive {
    pub cur_vid_mv: Option<u32>,
    pub cores: Vec<u32>,
    pub pstates: Vec<u32>,
    pub cpu_temp_max: Option<u32>,
}

/// The bounds of a CPU stability sweep.
#[derive(Debug, Clone, Copy, PartialEq, Eq)]
pub struct SweepOpts {
    pub target_mhz: u32,
    pub vid_cap_mv: u32,
    pub temp_c: u32,
    pub step: u32,
    pub dwell_s: u64,
}

/// One point of a CPU stability sweep.
#[derive(Debug, Clone, PartialEq, Eq)]
pub struct SweepPoint {
    pub boost_mhz: u32,
    pub scale: i32,
    pub measured_vid_mv: Option<u32>,
    pub stable: bool,
    /// The highest temperature, rounded to an integer.
    pub max_temp: String,
    pub note: String,
}

/// The fixed names and limits of the machine.
#[derive(Debug, Clone, PartialEq, Eq)]
pub struct Site {
    /// The modprobe file that arms the 40 CUs.
    pub modprobe_conf: String,
    /// The unit that re-applies the routing at boot.
    pub route_unit: String,
    /// The file of the saved routing.
    pub route_profile: String,
    /// The file of the power settings.
    pub power_config: String,
    /// The unit that re-applies the CPU overclock at boot.
    pub cpu_oc_unit: String,
    pub sclk_min_mhz: u32,
    pub sclk_max_mhz: u32,
    pub temp_max_c: u32,
    pub vid_ceiling_mv: u32,
    pub boost_warn_mhz: u32,
}

/// What the host answers to an action.
#[derive(Debug, Clone, PartialEq, Eq)]
pub enum Reply {
    /// It was done.
    Done,
    /// It could not be done.
    Failed(Fault<String>),
    Flag(bool),
    Number(u32),
    MaybeNumber(Option<u32>),
    Signed(i32),
    Text(String),
    MaybeText(Option<String>),
    Masks([u32; 4]),
    Shape(RouteShape),
    Harvest(Option<CuMap>),
    Report(PatchReport),
    Series(Vec<Patch>),
    Profiles(Vec<ProfileEntry>),
    Profile(Option<ProfileEntry>),
    Kat(KatReport),
    Sweep(Vec<KatReport>),
    Bench(BenchRun),
    Power(PowerConfig),
    Governor(GovernorConfig),
    Mode(AutoMode),
    Raise(Option<VidRaise>),
    Forced(ForceOutcome),
    /// The boot plan, and the settings it was made from where they could be loaded.
    Boot(BootPlan, Option<PowerConfig>),
    /// Nanoseconds since boot.
    Uptime(Option<u64>),
    Point(CpuOc),
    Live(CpuLive),
    /// The points of a sweep, and the highest stable one.
    Detected(Vec<SweepPoint>, Option<CpuOc>),
}

} // verus!
