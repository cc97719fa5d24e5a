//! What the host may answer to an action, and that the commands make use of every such answer.
use vstd::prelude::*;

use crate::cli::opening;
use crate::commands::Cmd;
use crate::decide::{decision, spot_plan};
use crate::model::{Reply, Site};
use crate::plan::{Action, Instr, Op, Plan, Point, Spot, Then};

verus! {

/// The kinds of answers.
pub enum Kind {
    Done,
    Flag,
    Number,
    MaybeNumber,
    Signed,
    Text,
    MaybeText,
    Masks,
    Shape,
    Harvest,
    Report,
    Series,
    Profiles,
    Profile,
    Kat,
    Sweep,
    Bench,
    Power,
    Governor,
    Mode,
    Raise,
    Forced,
    Boot,
    Uptime,
    Point,
    Live,
    Detected,
}

/// Whether a reply is an answer of this kind.
pub open spec fn is_kind(kind: Kind, reply: Reply) -> bool {
    match kind {
        Kind::Done => reply is Done,
        Kind::Flag => reply is Flag,
        Kind::Number => reply is Number,
        Kind::MaybeNumber => reply is MaybeNumber,
        Kind::Signed => reply is Signed,
        Kind::Text => reply is Text,
        Kind::MaybeText => reply is MaybeText,
        Kind::Masks => reply is Masks,
        Kind::Shape => reply is Shape,
        Kind::Harvest => reply is Harvest,
        Kind::Report => reply is Report,
        Kind::Series => reply is Series,
        Kind::Profiles => reply is Profiles,
        Kind::Profile => reply is Profile,
        Kind::Kat => reply is Kat,
        Kind::Sweep => reply is Sweep,
        Kind::Bench => reply is Bench,
        Kind::Power => reply is Power,
        Kind::Governor => reply is Governor,
        Kind::Mode => reply is Mode,
        Kind::Raise => reply is Raise,
        Kind::Forced => reply is Forced,
        Kind::Boot => reply is Boot,
        Kind::Uptime => reply is Uptime,
        Kind::Point => reply is Point,
        Kind::Live => reply is Live,
        Kind::Detected => reply is Detected,
    }
}

/// The kind of the answer to an action without text.
pub open spec fn op_kind(op: Op) -> Kind {
    match op {
        Op::ArmCu => Kind::Done,
        Op::DisarmCu => Kind::Done,
        Op::RouteAll => Kind::Done,
        Op::RouteFactory => Kind::Done,
        Op::ApplyRoute(_) => Kind::Done,
        Op::ApplyRouteForced(_) => Kind::Done,
        Op::ArmRoute => Kind::Done,
        Op::DisarmRoute => Kind::Done,
        Op::LockConfig => Kind::Done,
        Op::SavePower(_) => Kind::Done,
        Op::SaveGovernor(_) => Kind::Done,
        Op::ValidateLadder(_) => Kind::Done,
        Op::ReleaseClock => Kind::Done,
        Op::StopGpuUnit => Kind::Done,
        Op::StartGpuUnit => Kind::Done,
        Op::ApplyMode => Kind::Done,
        Op::ReloadIfAuto => Kind::Done,
        Op::Poke => Kind::Done,
        Op::RunAutosleep { .. } => Kind::Done,
        Op::RunGovernor(_) => Kind::Done,
        Op::Sleep(_) => Kind::Done,
        Op::OpenOc => Kind::Done,
        Op::SaveCpu(_) => Kind::Done,
        Op::ApplyCpu(_) => Kind::Done,
        Op::ApplyCpuFrom { .. } => Kind::Done,
        Op::ForceCpuVid(_) => Kind::Done,
        Op::ReleaseCpuVid => Kind::Done,
        Op::RestoreCpu => Kind::Done,
        Op::ClearSavedCpu => Kind::Done,
        Op::ArmCpuOc => Kind::Done,
        Op::DisarmCpuOc => Kind::Done,
        Op::SetGpuTemp(_) => Kind::Done,
        Op::ValidateProfile => Kind::Done,
        Op::ApplyProfile => Kind::Done,
        Op::FlushStdout => Kind::Done,
        Op::ApuPresent => Kind::Flag,
        Op::CuArmed => Kind::Flag,
        Op::CuPersisted => Kind::Flag,
        Op::RouteArmed => Kind::Flag,
        Op::KatAvailable => Kind::Flag,
        Op::SetVddc { .. } => Kind::Flag,
        Op::ResetVddc => Kind::Flag,
        Op::GpuUnitInstalled => Kind::Flag,
        Op::LegacyUnits => Kind::Flag,
        Op::CpuSaved => Kind::Flag,
        Op::CpuOcArmed => Kind::Flag,
        Op::StdinTty => Kind::Flag,
        Op::CuCount(_) => Kind::Number,
        Op::EffectiveTop(_) => Kind::Number,
        Op::FloorClock { .. } => Kind::Number,
        Op::MinVddc(_) => Kind::Number,
        Op::ForceClock(_) => Kind::Number,
        Op::PredictedVid(_) => Kind::Number,
        Op::CurrentSclk => Kind::MaybeNumber,
        Op::GpuVoltage => Kind::MaybeNumber,
        Op::SafeScale { .. } => Kind::Signed,
        Op::ReportJson => Kind::Text,
        Op::BenchPerCu(_) => Kind::Text,
        Op::ModeName(_) => Kind::Text,
        Op::TelemetryNode => Kind::MaybeText,
        Op::ReadLine => Kind::MaybeText,
        Op::CurrentMasks => Kind::Masks,
        Op::ToggleWgp { .. } => Kind::Masks,
        Op::SaveRoute => Kind::Masks,
        Op::ApplySavedRoute => Kind::Masks,
        Op::RouteShape(_) => Kind::Shape,
        Op::CuMap => Kind::Harvest,
        Op::PatchReport => Kind::Report,
        Op::PatchSeries => Kind::Series,
        Op::AllProfiles => Kind::Profiles,
        Op::KatFull => Kind::Kat,
        Op::KatLocalize(_) => Kind::Sweep,
        Op::BenchRoute(_) => Kind::Bench,
        Op::LoadPower => Kind::Power,
        Op::DefaultPower => Kind::Power,
        Op::SetTop { .. } => Kind::Power,
        Op::SetDeep { .. } => Kind::Power,
        Op::LoadGovernor => Kind::Governor,
        Op::UnforceMode => Kind::Mode,
        Op::RequiredRaise { .. } => Kind::Raise,
        Op::ForceMode(_) => Kind::Forced,
        Op::LoadForBoot => Kind::Boot,
        Op::Uptime => Kind::Uptime,
        Op::LoadCpu => Kind::Point,
        Op::DefaultCpu => Kind::Point,
        Op::CpuLive => Kind::Live,
        Op::DetectCpu(_) => Kind::Detected,
    }
}

/// Whether an action without text can fail.
pub open spec fn op_can_fail(op: Op) -> bool {
    match op {
        Op::ReportJson => true,
        Op::ArmCu => true,
        Op::DisarmCu => true,
        Op::CurrentMasks => true,
        Op::RouteAll => true,
        Op::RouteFactory => true,
        Op::ApplyRoute(_) => true,
        Op::ApplyRouteForced(_) => true,
        Op::ToggleWgp { .. } => true,
        Op::SaveRoute => true,
        Op::ApplySavedRoute => true,
        Op::ArmRoute => true,
        Op::KatFull => true,
        Op::KatLocalize(_) => true,
        Op::BenchRoute(_) => true,
        Op::SavePower(_) => true,
        Op::SaveGovernor(_) => true,
        Op::SetTop { .. } => true,
        Op::SetDeep { .. } => true,
        Op::ValidateLadder(_) => true,
        Op::ForceMode(_) => true,
        Op::UnforceMode => true,
        Op::ForceClock(_) => true,
        Op::ReleaseClock => true,
        Op::TelemetryNode => true,
        Op::ApplyMode => true,
        Op::Poke => true,
        Op::RunAutosleep { .. } => true,
        Op::RunGovernor(_) => true,
        Op::OpenOc => true,
        Op::SaveCpu(_) => true,
        Op::ApplyCpu(_) => true,
        Op::ApplyCpuFrom { .. } => true,
        Op::ForceCpuVid(_) => true,
        Op::ReleaseCpuVid => true,
        Op::RestoreCpu => true,
        Op::ClearSavedCpu => true,
        Op::ArmCpuOc => true,
        Op::SetGpuTemp(_) => true,
        Op::DetectCpu(_) => true,
        Op::ValidateProfile => true,
        Op::ApplyProfile => true,
        Op::FlushStdout => true,
        Op::ReadLine => true,
        _ => false,
    }
}

/// The kind of the answer to an action.
pub open spec fn answer_kind(action: Action<Seq<char>>) -> Kind {
    match action {
        Action::FindProfile(_) => Kind::Profile,
        Action::SaveProfile { .. } => Kind::Text,
        Action::Host(op) => op_kind(op),
        _ => Kind::Done,
    }
}

/// Whether an action can fail.
pub open spec fn can_fail(action: Action<Seq<char>>) -> bool {
    match action {
        Action::DeleteProfile(_) => true,
        Action::CheckProfileName(_) => true,
        Action::SaveProfile { .. } => true,
        Action::SetPerformanceLevel(_) => true,
        Action::Build { .. } => true,
        Action::Host(op) => op_can_fail(op),
        _ => false,
    }
}

/// Whether the host may answer an action so.
pub open spec fn suits(action: Action<Seq<char>>, reply: Reply) -> bool {
    is_kind(answer_kind(action), reply) || (can_fail(action) && reply is Failed)
}

/// The kind of answer that a decision without text is made on.
pub open spec fn spot_wants(spot: Spot) -> Kind {
    match spot {
        Spot::RoutePersisted(..) => Kind::Done,
        Spot::SavedRouteArmed(..) => Kind::Done,
        Spot::TempCapOc(..) => Kind::Done,
        Spot::CpuArmed => Kind::Done,
        Spot::CuArmed => Kind::Flag,
        Spot::CuPersisted => Kind::Flag,
        Spot::RouteArmed => Kind::Flag,
        Spot::KatReady { .. } => Kind::Flag,
        Spot::PinVddc { .. } => Kind::Flag,
        Spot::VidSet { .. } => Kind::Flag,
        Spot::VidInstalled(..) => Kind::Flag,
        Spot::VidReset => Kind::Flag,
        Spot::BootVidSet { .. } => Kind::Flag,
        Spot::BootLegacy { .. } => Kind::Flag,
        Spot::CpuBoot => Kind::Flag,
        Spot::CpuSaved => Kind::Flag,
        Spot::DoctorGpuUnit => Kind::Flag,
        Spot::DoctorCpuUnit { .. } => Kind::Flag,
        Spot::DoctorRouteUnit { .. } => Kind::Flag,
        Spot::SavedRouteCount { .. } => Kind::Number,
        Spot::LoadedRouteCount(..) => Kind::Number,
        Spot::PinForced => Kind::Number,
        Spot::VidClock { .. } => Kind::Number,
        Spot::VidFloor { .. } => Kind::Number,
        Spot::TopClock { .. } => Kind::Number,
        Spot::TopFloor { .. } => Kind::Number,
        Spot::BootVidClock(..) => Kind::Number,
        Spot::BootPinned => Kind::Number,
        Spot::FailSafePinned => Kind::Number,
        Spot::CpuTuned(..) => Kind::Number,
        Spot::UndervoltVid { .. } => Kind::Number,
        Spot::CpuReapplied(..) => Kind::Number,
        Spot::StatusSclk => Kind::MaybeNumber,
        Spot::CpuGpuVid => Kind::MaybeNumber,
        Spot::UndervoltScale(..) => Kind::Signed,
        Spot::StatusMode => Kind::Text,
        Spot::UnforcedMode => Kind::Text,
        Spot::DoctorJson { .. } => Kind::Text,
        Spot::DoctorMode => Kind::Text,
        Spot::StatusClock => Kind::MaybeText,
        Spot::Telemetry => Kind::MaybeText,
        Spot::LiveRoute => Kind::Masks,
        Spot::RouteSaved(..) => Kind::Masks,
        Spot::Toggled { .. } => Kind::Masks,
        Spot::BenchCurrent => Kind::Masks,
        Spot::SavedRoute => Kind::Masks,
        Spot::LoadedRoute => Kind::Masks,
        Spot::LiveShape(..) => Kind::Shape,
        Spot::RoutedShape(..) => Kind::Shape,
        Spot::BenchShape(..) => Kind::Shape,
        Spot::Cumap => Kind::Harvest,
        Spot::CuStatusMap => Kind::Harvest,
        Spot::DoctorMap => Kind::Harvest,
        Spot::Patches => Kind::Report,
        Spot::CuEnabled => Kind::Report,
        Spot::Doctor { .. } => Kind::Report,
        Spot::ListProfiles => Kind::Profiles,
        Spot::KatFull { .. } => Kind::Kat,
        Spot::KatSwept => Kind::Sweep,
        Spot::BenchDone { .. } => Kind::Bench,
        Spot::GpuStatus => Kind::Power,
        Spot::PinConfig(..) => Kind::Power,
        Spot::VidPower(..) => Kind::Power,
        Spot::VidCleared => Kind::Power,
        Spot::Wake { .. } => Kind::Power,
        Spot::DeepSleep { .. } => Kind::Power,
        Spot::TopPower(..) => Kind::Power,
        Spot::TopSet(..) => Kind::Power,
        Spot::DeepPower(..) => Kind::Power,
        Spot::DeepSet(..) => Kind::Power,
        Spot::SwitchMode(..) => Kind::Power,
        Spot::BootDefault(..) => Kind::Power,
        Spot::DoctorPower => Kind::Power,
        Spot::VidGovernor { .. } => Kind::Governor,
        Spot::TopGovernor { .. } => Kind::Governor,
        Spot::SetMid(..) => Kind::Governor,
        Spot::SetIdle(..) => Kind::Governor,
        Spot::DeepGovernor { .. } => Kind::Governor,
        Spot::StartGovernor => Kind::Governor,
        Spot::BootVidGovernor { .. } => Kind::Governor,
        Spot::Unforced => Kind::Mode,
        Spot::PinRaise(..) => Kind::Raise,
        Spot::Forced(..) => Kind::Forced,
        Spot::BootLoaded => Kind::Boot,
        Spot::BootUptime { .. } => Kind::Uptime,
        Spot::TempCap(..) => Kind::Point,
        Spot::CpuTune { .. } => Kind::Point,
        Spot::UndervoltBase { .. } => Kind::Point,
        Spot::CpuReapply => Kind::Point,
        Spot::CpuStatus => Kind::Live,
    }
}

/// The kind of answer that a decision is made on.
pub open spec fn wants(point: Point<Seq<char>>) -> Kind {
    match point {
        Point::At(spot) => spot_wants(spot),
        Point::LiberateBoard { .. } => Kind::Flag,
        Point::TierTty(..) => Kind::Flag,
        Point::DetectedVid { .. } => Kind::Number,
        Point::BenchPerCu { .. } => Kind::Text,
        Point::ProfileSaved(..) => Kind::Text,
        Point::TierLine(..) => Kind::MaybeText,
        Point::LiberateReport { .. } => Kind::Report,
        Point::ShowPatch(..) => Kind::Series,
        Point::ShowProfile(..) => Kind::Profile,
        Point::ApplyProfile { .. } => Kind::Profile,
        Point::Level { .. } => Kind::Power,
        Point::Detected(..) => Kind::Detected,
    }
}

/// Whether a decision is made on a failure, too.
pub open spec fn judges(point: Point<Seq<char>>) -> bool {
    match point {
        Point::At(spot) => match spot {
            Spot::LiveRoute => true,
            Spot::RouteSaved(..) => true,
            Spot::RoutePersisted(..) => true,
            Spot::SavedRouteArmed(..) => true,
            Spot::StatusClock => true,
            Spot::PinForced => true,
            Spot::TempCapOc(..) => true,
            Spot::CpuArmed => true,
            _ => false,
        },
        _ => false,
    }
}

/// Whether a step can use every answer that its action may get.
pub open spec fn sound(step: Instr<Seq<char>>) -> bool {
    match step {
        Instr::End(_) => true,
        Instr::Do { action, then } => match then {
            Then::Ask(point) => wants(point) == answer_kind(action),
            Then::Judge(point) => wants(point) == answer_kind(action) && judges(point),
            _ => true,
        },
    }
}

/// Whether every step of a plan can use every answer that its action may get.
pub open spec fn all_sound(plan: Plan) -> bool {
    forall|i: int| 0 <= i < plan.len() ==> sound(#[trigger] plan[i])
}

/// A decision is made on just the answers of its kind, and on a failure where it judges.
pub proof fn lemma_decision_defined(site: Site, point: Point<Seq<char>>, reply: Reply)
    ensures
        decision(site, point, reply) is Some <==> is_kind(wants(point), reply) || (judges(point)
            && reply is Failed),
{
}

/// The opening plan of every command is sound.
pub proof fn lemma_opening_sound(site: Site, cmd: Cmd)
    ensures
        all_sound(opening(site, cmd)),
{
}

/// The decisions on the CUs.
pub open spec fn cu_spot(spot: Spot) -> bool {
    match spot {
        Spot::CuArmed => true,
        Spot::CuPersisted => true,
        Spot::CuStatusMap => true,
        Spot::LiveRoute => true,
        Spot::LiveShape(..) => true,
        Spot::RouteArmed => true,
        Spot::CuEnabled => true,
        Spot::RouteSaved(..) => true,
        Spot::RoutePersisted(..) => true,
        Spot::RoutedShape(..) => true,
        Spot::Toggled { .. } => true,
        Spot::BenchCurrent => true,
        Spot::BenchShape(..) => true,
        Spot::BenchDone { .. } => true,
        Spot::SavedRoute => true,
        Spot::SavedRouteArmed(..) => true,
        Spot::SavedRouteCount { .. } => true,
        Spot::LoadedRoute => true,
        Spot::LoadedRouteCount(..) => true,
        Spot::KatReady { .. } => true,
        Spot::KatFull { .. } => true,
        Spot::KatSwept => true,
        _ => false,
    }
}

/// The decisions on the GPU.
pub open spec fn gpu_spot(spot: Spot) -> bool {
    match spot {
        Spot::GpuStatus => true,
        Spot::StatusMode => true,
        Spot::StatusClock => true,
        Spot::StatusSclk => true,
        Spot::Forced(..) => true,
        Spot::Unforced => true,
        Spot::UnforcedMode => true,
        Spot::PinConfig(..) => true,
        Spot::PinRaise(..) => true,
        Spot::PinVddc { .. } => true,
        Spot::PinForced => true,
        Spot::VidPower(..) => true,
        Spot::VidGovernor { .. } => true,
        Spot::VidClock { .. } => true,
        Spot::VidFloor { .. } => true,
        Spot::VidSet { .. } => true,
        Spot::VidInstalled(..) => true,
        Spot::VidReset => true,
        Spot::VidCleared => true,
        Spot::Wake { .. } => true,
        Spot::DeepSleep { .. } => true,
        Spot::TopPower(..) => true,
        Spot::TopSet(..) => true,
        Spot::TopGovernor { .. } => true,
        Spot::TopClock { .. } => true,
        Spot::TopFloor { .. } => true,
        Spot::SetMid(..) => true,
        Spot::SetIdle(..) => true,
        Spot::DeepPower(..) => true,
        Spot::DeepSet(..) => true,
        Spot::DeepGovernor { .. } => true,
        Spot::TempCap(..) => true,
        Spot::TempCapOc(..) => true,
        Spot::SwitchMode(..) => true,
        Spot::StartGovernor => true,
        Spot::Telemetry => true,
        _ => false,
    }
}

/// The decisions on the boot.
pub open spec fn boot_spot(spot: Spot) -> bool {
    match spot {
        Spot::BootLoaded => true,
        Spot::BootDefault(..) => true,
        Spot::BootUptime { .. } => true,
        Spot::BootVidGovernor { .. } => true,
        Spot::BootVidClock(..) => true,
        Spot::BootVidSet { .. } => true,
        Spot::BootLegacy { .. } => true,
        Spot::BootPinned => true,
        Spot::FailSafePinned => true,
        _ => false,
    }
}

/// The decisions on the CPU.
pub open spec fn cpu_spot(spot: Spot) -> bool {
    match spot {
        Spot::CpuStatus => true,
        Spot::CpuGpuVid => true,
        Spot::CpuBoot => true,
        Spot::CpuTune { .. } => true,
        Spot::CpuTuned(..) => true,
        Spot::CpuArmed => true,
        Spot::UndervoltScale(..) => true,
        Spot::UndervoltBase { .. } => true,
        Spot::UndervoltVid { .. } => true,
        Spot::CpuSaved => true,
        Spot::CpuReapply => true,
        Spot::CpuReapplied(..) => true,
        _ => false,
    }
}

proof fn lemma_cu_sound(site: Site, spot: Spot, reply: Reply)
    requires
        cu_spot(spot),
        spot_plan(site, spot, reply) is Some,
    ensures
        all_sound(spot_plan(site, spot, reply)->0),
{
}

proof fn lemma_gpu_sound(site: Site, spot: Spot, reply: Reply)
    requires
        gpu_spot(spot),
        spot_plan(site, spot, reply) is Some,
    ensures
        all_sound(spot_plan(site, spot, reply)->0),
{
}

proof fn lemma_boot_sound(site: Site, spot: Spot, reply: Reply)
    requires
        boot_spot(spot),
        spot_plan(site, spot, reply) is Some,
    ensures
        all_sound(spot_plan(site, spot, reply)->0),
{
}

proof fn lemma_cpu_sound(site: Site, spot: Spot, reply: Reply)
    requires
        cpu_spot(spot),
        spot_plan(site, spot, reply) is Some,
    ensures
        all_sound(spot_plan(site, spot, reply)->0),
{
}

proof fn lemma_report_sound(site: Site, spot: Spot, reply: Reply)
    requires
        !cu_spot(spot),
        !gpu_spot(spot),
        !boot_spot(spot),
        !cpu_spot(spot),
        spot_plan(site, spot, reply) is Some,
    ensures
        all_sound(spot_plan(site, spot, reply)->0),
{
}

proof fn lemma_liberate_sound(site: Site, point: Point<Seq<char>>, reply: Reply)
    requires
        decision(site, point, reply) is Some,
        point is LiberateBoard || point is LiberateReport || point is TierTty || point is TierLine,
    ensures
        all_sound(decision(site, point, reply)->0),
{
}

proof fn lemma_named_sound(site: Site, point: Point<Seq<char>>, reply: Reply)
    requires
        decision(site, point, reply) is Some,
        !(point is At),
        !(point is LiberateBoard || point is LiberateReport || point is TierTty || point is
        TierLine),
    ensures
        all_sound(decision(site, point, reply)->0),
{
}

/// Every decision makes a sound plan.
pub proof fn lemma_decision_sound(site: Site, point: Point<Seq<char>>, reply: Reply)
    requires
        decision(site, point, reply) is Some,
    ensures
        all_sound(decision(site, point, reply)->0),
{
    match point {
        Point::At(spot) => {
            if cu_spot(spot) {
                lemma_cu_sound(site, spot, reply);
            } else if gpu_spot(spot) {
                lemma_gpu_sound(site, spot, reply);
            } else if boot_spot(spot) {
                lemma_boot_sound(site, spot, reply);
            } else if cpu_spot(spot) {
                lemma_cpu_sound(site, spot, reply);
            } else {
                lemma_report_sound(site, spot, reply);
            }
        },
        Point::LiberateBoard { .. }
        | Point::LiberateReport { .. }
        | Point::TierTty(_)
        | Point::TierLine(_) => {
            lemma_liberate_sound(site, point, reply);
        },
        _ => {
            lemma_named_sound(site, point, reply);
        },
    }
}

} // verus!
