//! Laws of the GPU commands.
use vstd::prelude::*;

use crate::cli::opening;
use crate::commands::{Cmd, GpuCmd};
use crate::decide::decision;
use crate::gpu::clamp_clock;
use crate::model::{PowerConfig, Reply, Site};
use crate::order::{lemma_rule, Rule};
use crate::plan::{Action, Op, Outcome, Point, Spot};
use crate::session::ended;
use crate::trace::{answered, course, done, proper, succeeded, witnessed, Course, Exchange};

verus! {

/// The course of a GPU command.
pub open spec fn gpu_course(site: Site, action: GpuCmd, replies: Seq<Reply>) -> Course {
    course(site, Cmd::Gpu { action }, replies)
}

/// Whether an action pins the clock.
spec fn forces(action: Action<Seq<char>>) -> bool {
    action matches Action::Host(op) && op is ForceClock
}

/// Whether an action sets the voltage.
spec fn sets_voltage(action: Action<Seq<char>>) -> bool {
    action matches Action::Host(op) && op is SetVddc
}

/// The decisions of a transient pin at a clock.
spec fn pin_point(site: Site, mhz: u32, point: Point<Seq<char>>) -> bool {
    point matches Point::At(spot) && match spot {
        Spot::PinConfig(m) => m == mhz,
        Spot::PinRaise(target) => target == clamp_clock(site, mhz),
        Spot::PinVddc { target, raise } => target == clamp_clock(site, mhz),
        Spot::PinForced => true,
        _ => false,
    }
}

/// Law: a transient pin never leaves the GPU power unit stopped by an error. Where it fails, the
/// unit has been started again.
pub proof fn law_failed_pin_restarts_the_unit(site: Site, mhz: u32, replies: Seq<Reply>)
    requires
        proper(gpu_course(site, GpuCmd::Pin { mhz }, replies).history),
        ended(gpu_course(site, GpuCmd::Pin { mhz }, replies).plan) matches Some(o) && !(o is
        Success),
    ensures
        done(
            gpu_course(site, GpuCmd::Pin { mhz }, replies).history,
            Action::Host(Op::StartGpuUnit),
        ),
{
    let rule = Rule {
        held_end: |o: Outcome<Seq<char>>| !(o is Success),
        key: |e: Exchange| e.action == Action::<Seq<char>>::Host(Op::StartGpuUnit),
        at: |action: Action<Seq<char>>, point: Point<Seq<char>>| pin_point(site, mhz, point),
        ..Rule::plain()
    };
    let cmd = Cmd::Gpu { action: GpuCmd::Pin { mhz } };
    assert(rule.ordered(opening(site, cmd)));
    assert(rule.closed(site));
    lemma_rule(site, cmd, replies, rule);
}

/// Law: a transient pin starts the GPU power unit only where the clock could not be forced or the
/// voltage could not be raised.
pub proof fn law_pin_starts_the_unit_only_on_failure(site: Site, mhz: u32, replies: Seq<Reply>)
    requires
        gpu_course(site, GpuCmd::Pin { mhz }, replies).did(Op::StartGpuUnit),
    ensures
        witnessed(
            gpu_course(site, GpuCmd::Pin { mhz }, replies).history,
            |e: Exchange| pin_failure(e),
        ),
{
    let rule = Rule {
        held: |action: Action<Seq<char>>| action == Action::<Seq<char>>::Host(Op::StartGpuUnit),
        key: |e: Exchange| pin_failure(e),
        at: |action: Action<Seq<char>>, point: Point<Seq<char>>|
            pin_point(site, mhz, point) && (point == Point::<Seq<char>>::At(Spot::PinForced)
                ==> forces(action)) && ((point matches Point::At(spot) && spot is PinVddc)
                ==> sets_voltage(action)),
        ..Rule::plain()
    };
    let cmd = Cmd::Gpu { action: GpuCmd::Pin { mhz } };
    assert(rule.ordered(opening(site, cmd)));
    assert(rule.closed(site));
    lemma_rule(site, cmd, replies, rule);
}

/// The failure of a transient pin.
pub open spec fn pin_failure(e: Exchange) -> bool {
    e.action matches Action::Host(op) && match op {
        Op::ForceClock(_) => e.reply is Failed,
        Op::SetVddc { .. } => e.reply == Reply::Flag(false),
        _ => false,
    }
}

/// Law: a transient pin stops the GPU power unit before it touches clock or voltage.
pub proof fn law_pin_stops_the_unit_first(site: Site, mhz: u32, replies: Seq<Reply>, op: Op)
    requires
        op is ForceClock || op is SetVddc,
        gpu_course(site, GpuCmd::Pin { mhz }, replies).did(op),
    ensures
        done(
            gpu_course(site, GpuCmd::Pin { mhz }, replies).history,
            Action::Host(Op::StopGpuUnit),
        ),
{
    let rule = Rule {
        held: |action: Action<Seq<char>>| action == Action::<Seq<char>>::Host(op),
        key: |e: Exchange| e.action == Action::<Seq<char>>::Host(Op::StopGpuUnit),
        ..Rule::plain()
    };
    let cmd = Cmd::Gpu { action: GpuCmd::Pin { mhz } };
    assert(rule.ordered(opening(site, cmd)));
    assert(rule.closed(site));
    lemma_rule(site, cmd, replies, rule);
}

/// Law: a transient pin sets the clock, and the voltage, only for the clock that was asked for,
/// brought into the range of the hardware.
pub proof fn law_pin_is_clamped(site: Site, mhz: u32, replies: Seq<Reply>, op: Op)
    requires
        gpu_course(site, GpuCmd::Pin { mhz }, replies).did(op),
        site.sclk_min_mhz <= site.sclk_max_mhz,
    ensures
        op matches Op::ForceClock(m) ==> m == clamp_clock(site, mhz),
        op matches Op::SetVddc { clk, mv } ==> clk == clamp_clock(site, mhz),
        site.sclk_min_mhz <= clamp_clock(site, mhz) <= site.sclk_max_mhz,
        site.sclk_min_mhz <= mhz <= site.sclk_max_mhz ==> clamp_clock(site, mhz) == mhz,
{
    let target = clamp_clock(site, mhz);
    let rule = Rule {
        held: |action: Action<Seq<char>>|
            action matches Action::Host(o) && ((o matches Op::ForceClock(m) && m != target) || (
            o matches Op::SetVddc { clk, mv } && clk != target)),
        at: |action: Action<Seq<char>>, point: Point<Seq<char>>| pin_point(site, mhz, point),
        ..Rule::plain()
    };
    let cmd = Cmd::Gpu { action: GpuCmd::Pin { mhz } };
    assert(rule.ordered(opening(site, cmd)));
    assert(rule.closed(site));
    lemma_rule(site, cmd, replies, rule);
    assert(course(site, cmd, replies).handed(Action::Host(op)));
}

/// Whether an exchange shows that the voltage is high enough for a clock: no raise is needed, or
/// the raise has been made.
pub open spec fn voltage_ready(e: Exchange, clk: u32) -> bool {
    e.action matches Action::Host(op) && match op {
        Op::RequiredRaise { cfg, mhz } => mhz == clk && e.reply == Reply::Raise(None),
        Op::SetVddc { clk: c, mv } => c == clk && e.reply == Reply::Flag(true),
        _ => false,
    }
}

/// Law: a transient pin forces a clock only where the voltage is high enough for it.
pub proof fn law_pin_raises_the_voltage_first(
    site: Site,
    mhz: u32,
    replies: Seq<Reply>,
    clk: u32,
)
    requires
        gpu_course(site, GpuCmd::Pin { mhz }, replies).did(Op::ForceClock(clk)),
    ensures
        witnessed(
            gpu_course(site, GpuCmd::Pin { mhz }, replies).history,
            |e: Exchange| voltage_ready(e, clk),
        ),
{
    let rule = Rule {
        held: |action: Action<Seq<char>>| action == Action::<Seq<char>>::Host(Op::ForceClock(clk)),
        key: |e: Exchange| voltage_ready(e, clk),
        at: |action: Action<Seq<char>>, point: Point<Seq<char>>|
            point matches Point::At(spot) && match spot {
                Spot::PinConfig(_) => true,
                Spot::PinRaise(t) => action matches Action::Host(
                    Op::RequiredRaise { cfg, mhz: m },
                ) && m == t,
                Spot::PinVddc { target, raise } => action matches Action::Host(
                    Op::SetVddc { clk: c, mv },
                ) && c == target,
                Spot::PinForced => true,
                _ => false,
            },
        ..Rule::plain()
    };
    let cmd = Cmd::Gpu { action: GpuCmd::Pin { mhz } };
    assert(rule.ordered(opening(site, cmd)));
    assert(rule.closed(site));
    lemma_rule(site, cmd, replies, rule);
}

/// Whether an exchange asks for a raise to this voltage at this clock.
pub open spec fn raise_asked(e: Exchange, clk: u32, mv: u32) -> bool {
    &&& e.action matches Action::Host(Op::RequiredRaise { cfg, mhz })
    &&& mhz == clk
    &&& e.reply matches Reply::Raise(Some(r))
    &&& r.floor_mv == mv
}

/// Law: a transient pin sets no voltage but the floor that the raise asks for.
pub proof fn law_pin_raises_to_the_floor(
    site: Site,
    mhz: u32,
    replies: Seq<Reply>,
    clk: u32,
    mv: u32,
)
    requires
        gpu_course(site, GpuCmd::Pin { mhz }, replies).did(Op::SetVddc { clk, mv }),
    ensures
        witnessed(
            gpu_course(site, GpuCmd::Pin { mhz }, replies).history,
            |e: Exchange| raise_asked(e, clk, mv),
        ),
{
    let rule = Rule {
        held: |action: Action<Seq<char>>|
            action == Action::<Seq<char>>::Host(Op::SetVddc { clk, mv }),
        key: |e: Exchange| raise_asked(e, clk, mv),
        at: |action: Action<Seq<char>>, point: Point<Seq<char>>|
            point matches Point::At(spot) && match spot {
                Spot::PinConfig(_) => true,
                Spot::PinRaise(t) => action matches Action::Host(
                    Op::RequiredRaise { cfg, mhz: m },
                ) && m == t,
                Spot::PinVddc { .. } => true,
                Spot::PinForced => true,
                _ => false,
            },
        ..Rule::plain()
    };
    let cmd = Cmd::Gpu { action: GpuCmd::Pin { mhz } };
    assert(rule.ordered(opening(site, cmd)));
    assert(rule.closed(site));
    lemma_rule(site, cmd, replies, rule);
}

/// Whether a command pushes the clock without an override of the persisted pin.
pub open spec fn yields_to_pin(cmd: GpuCmd) -> bool {
    match cmd {
        GpuCmd::Wake { override_pin } => !override_pin,
        GpuCmd::DeepSleep { override_pin } => !override_pin,
        GpuCmd::Level { level, override_pin } => !override_pin,
        _ => false,
    }
}

/// Whether an exchange shows that no manual pin is persisted.
pub open spec fn no_pin(e: Exchange) -> bool {
    &&& e.action == Action::<Seq<char>>::Host(Op::LoadPower)
    &&& e.reply matches Reply::Power(cfg)
    &&& cfg.force_mhz is None
}

/// Law: `wake`, `deep-sleep` and `level` leave a persisted manual pin alone, unless an override is
/// asked for.
pub proof fn law_persisted_pin_is_guarded(
    site: Site,
    cmd: GpuCmd,
    replies: Seq<Reply>,
    action: Action<Seq<char>>,
)
    requires
        yields_to_pin(cmd),
        action is SetPerformanceLevel || (action matches Action::Host(op) && op is ForceClock),
        gpu_course(site, cmd, replies).handed(action),
    ensures
        witnessed(
            gpu_course(site, cmd, replies).history,
            |e: Exchange| no_pin(e),
        ),
{
    let rule = Rule {
        held: |a: Action<Seq<char>>| a is SetPerformanceLevel || forces(a),
        key: |e: Exchange| no_pin(e),
        at: |a: Action<Seq<char>>, point: Point<Seq<char>>|
            a == Action::<Seq<char>>::Host(Op::LoadPower) && match point {
                Point::At(spot) => match spot {
                    Spot::Wake { override_pin } => !override_pin,
                    Spot::DeepSleep { override_pin } => !override_pin,
                    _ => false,
                },
                Point::Level { level, override_pin } => !override_pin,
                _ => false,
            },
        ..Rule::plain()
    };
    assert(rule.ordered(opening(site, Cmd::Gpu { action: cmd })));
    assert(rule.closed(site)) by {
        assert forall|a: Action<Seq<char>>, point: Point<Seq<char>>, reply: Reply|
            #![trigger (rule.at)(a, point), decision(site, point, reply)]
            (rule.at)(a, point) && decision(site, point, reply) is Some implies (rule.key)(
            Exchange { action: a, reply },
        ) || rule.decides(point, decision(site, point, reply)->0) by {
            let decided = decision(site, point, reply)->0;
            if !(rule.key)(Exchange { action: a, reply }) {
                assert(rule.opens(decided[0]));
            }
        }
    }
    lemma_rule(site, Cmd::Gpu { action: cmd }, replies, rule);
}

/// Whether an exchange gives a safe floor, at this clock, that this voltage does not go below.
pub open spec fn above_floor(e: Exchange, clk: u32, mv: u32) -> bool {
    &&& e.action == Action::<Seq<char>>::Host(Op::MinVddc(clk))
    &&& e.reply matches Reply::Number(floor)
    &&& floor <= mv
}

/// Law: `vid` sets no voltage below the safe floor of its clock.
pub proof fn law_vid_respects_the_floor(
    site: Site,
    mv: u32,
    replies: Seq<Reply>,
    clk: u32,
    set: u32,
)
    requires
        gpu_course(site, GpuCmd::Vid { mv }, replies).did(Op::SetVddc { clk, mv: set }),
    ensures
        set == mv,
        witnessed(
            gpu_course(site, GpuCmd::Vid { mv }, replies).history,
            |e: Exchange| above_floor(e, clk, mv),
        ),
{
    let rule = Rule {
        held: |action: Action<Seq<char>>|
            action matches Action::Host(Op::SetVddc { clk: c, mv: v }) && (c == clk || v != mv),
        key: |e: Exchange| above_floor(e, clk, mv),
        at: |action: Action<Seq<char>>, point: Point<Seq<char>>|
            point matches Point::At(spot) && match spot {
                Spot::VidPower(v) => v == mv,
                Spot::VidGovernor { mv: v, cfg } => v == mv,
                Spot::VidClock { mv: v, cfg } => v == mv,
                Spot::VidFloor { mv: v, cfg, clk: c } => v == mv && action == Action::<
                    Seq<char>,
                >::Host(Op::MinVddc(c)),
                Spot::VidSet { .. } => true,
                Spot::VidInstalled(_) => true,
                _ => false,
            },
        ..Rule::plain()
    };
    let exact = Rule {
        held: |action: Action<Seq<char>>|
            action matches Action::Host(Op::SetVddc { clk: c, mv: v }) && v != mv,
        at: |action: Action<Seq<char>>, point: Point<Seq<char>>|
            point matches Point::At(spot) && match spot {
                Spot::VidPower(v) => v == mv,
                Spot::VidGovernor { mv: v, cfg } => v == mv,
                Spot::VidClock { mv: v, cfg } => v == mv,
                Spot::VidFloor { mv: v, cfg, clk: c } => v == mv,
                Spot::VidSet { .. } => true,
                Spot::VidInstalled(_) => true,
                _ => false,
            },
        ..Rule::plain()
    };
    let cmd = Cmd::Gpu { action: GpuCmd::Vid { mv } };
    assert(rule.ordered(opening(site, cmd)));
    assert(rule.closed(site));
    lemma_rule(site, cmd, replies, rule);
    assert(exact.ordered(opening(site, cmd)));
    assert(exact.closed(site));
    lemma_rule(site, cmd, replies, exact);
    assert(course(site, cmd, replies).handed(Action::Host(Op::SetVddc { clk, mv: set })));
}

/// Whether an exchange sets this voltage.
pub open spec fn voltage_done(e: Exchange, mv: u32) -> bool {
    e.action matches Action::Host(Op::SetVddc { clk, mv: v }) && v == mv && e.reply == Reply::Flag(
        true,
    )
}

/// Whether an exchange loads power settings that become `saved` by this voltage alone.
pub open spec fn voltage_added(e: Exchange, saved: PowerConfig, mv: u32) -> bool {
    &&& e.action == Action::<Seq<char>>::Host(Op::LoadPower)
    &&& e.reply matches Reply::Power(cfg)
    &&& saved == (PowerConfig { force_vid_mv: Some(mv), ..cfg })
}

/// Law: `vid` persists a voltage only once it was set, and changes nothing else of the settings.
pub proof fn law_vid_persists_what_was_set(
    site: Site,
    mv: u32,
    replies: Seq<Reply>,
    saved: PowerConfig,
)
    requires
        gpu_course(site, GpuCmd::Vid { mv }, replies).did(Op::SavePower(saved)),
    ensures
        witnessed(
            gpu_course(site, GpuCmd::Vid { mv }, replies).history,
            |e: Exchange| voltage_done(e, mv),
        ),
        witnessed(
            gpu_course(site, GpuCmd::Vid { mv }, replies).history,
            |e: Exchange| voltage_added(e, saved, mv),
        ),
{
    let set = Rule {
        held: |action: Action<Seq<char>>|
            action matches Action::Host(op) && op is SavePower,
        key: |e: Exchange| voltage_done(e, mv),
        at: |action: Action<Seq<char>>, point: Point<Seq<char>>|
            point matches Point::At(spot) && match spot {
                Spot::VidPower(v) => v == mv,
                Spot::VidGovernor { mv: v, cfg } => v == mv,
                Spot::VidClock { mv: v, cfg } => v == mv,
                Spot::VidFloor { mv: v, cfg, clk } => v == mv,
                Spot::VidSet { mv: v, cfg } => action matches Action::Host(
                    Op::SetVddc { clk, mv: w },
                ) && w == mv,
                _ => false,
            },
        ..Rule::plain()
    };
    let only = Rule {
        held: |action: Action<Seq<char>>|
            action == Action::<Seq<char>>::Host(Op::SavePower(saved)),
        key: |e: Exchange| voltage_added(e, saved, mv),
        at: |action: Action<Seq<char>>, point: Point<Seq<char>>|
            point matches Point::At(spot) && match spot {
                Spot::VidPower(v) => v == mv && action == Action::<Seq<char>>::Host(Op::LoadPower),
                Spot::VidGovernor { mv: v, cfg } => v == mv && saved != (PowerConfig {
                    force_vid_mv: Some(mv),
                    ..cfg
                }),
                Spot::VidClock { mv: v, cfg } => v == mv && saved != (PowerConfig {
                    force_vid_mv: Some(mv),
                    ..cfg
                }),
                Spot::VidFloor { mv: v, cfg, clk } => v == mv && saved != (PowerConfig {
                    force_vid_mv: Some(mv),
                    ..cfg
                }),
                Spot::VidSet { mv: v, cfg } => v == mv && saved != (PowerConfig {
                    force_vid_mv: Some(mv),
                    ..cfg
                }),
                Spot::VidInstalled(_) => true,
                _ => false,
            },
        ..Rule::plain()
    };
    let cmd = Cmd::Gpu { action: GpuCmd::Vid { mv } };
    assert(set.ordered(opening(site, cmd)));
    assert(set.closed(site));
    lemma_rule(site, cmd, replies, set);
    assert(only.ordered(opening(site, cmd)));
    assert(only.closed(site));
    lemma_rule(site, cmd, replies, only);
}

/// Law: `unforce-vid` clears the persisted voltage only once the stock curve is restored, and
/// changes nothing else of the settings.
pub proof fn law_unforce_vid_clears_the_voltage_alone(
    site: Site,
    replies: Seq<Reply>,
    saved: PowerConfig,
)
    requires
        gpu_course(site, GpuCmd::UnforceVid, replies).did(Op::SavePower(saved)),
    ensures
        answered(
            gpu_course(site, GpuCmd::UnforceVid, replies).history,
            Action::Host(Op::ResetVddc),
            Reply::Flag(true),
        ),
        witnessed(
            gpu_course(site, GpuCmd::UnforceVid, replies).history,
            |e: Exchange| voltage_dropped(e, saved),
        ),
{
    let reset = Rule {
        held: |action: Action<Seq<char>>|
            action matches Action::Host(op) && op is SavePower,
        key: |e: Exchange|
            e.action == Action::<Seq<char>>::Host(Op::ResetVddc) && e.reply == Reply::Flag(true),
        at: |action: Action<Seq<char>>, point: Point<Seq<char>>|
            point == Point::<Seq<char>>::At(Spot::VidReset) && action == Action::<Seq<char>>::Host(
                Op::ResetVddc,
            ),
        ..Rule::plain()
    };
    let only = Rule {
        held: |action: Action<Seq<char>>|
            action == Action::<Seq<char>>::Host(Op::SavePower(saved)),
        key: |e: Exchange| voltage_dropped(e, saved),
        at: |action: Action<Seq<char>>, point: Point<Seq<char>>|
            point == Point::<Seq<char>>::At(Spot::VidReset) || (point == Point::<Seq<char>>::At(
                Spot::VidCleared,
            ) && action == Action::<Seq<char>>::Host(Op::LoadPower)),
        ..Rule::plain()
    };
    let cmd = Cmd::Gpu { action: GpuCmd::UnforceVid };
    assert(reset.ordered(opening(site, cmd)));
    assert(reset.closed(site));
    lemma_rule(site, cmd, replies, reset);
    assert(only.ordered(opening(site, cmd)));
    assert(only.closed(site));
    lemma_rule(site, cmd, replies, only);
}

/// Whether an exchange loads power settings that become `saved` without their voltage.
pub open spec fn voltage_dropped(e: Exchange, saved: PowerConfig) -> bool {
    &&& e.action == Action::<Seq<char>>::Host(Op::LoadPower)
    &&& e.reply matches Reply::Power(cfg)
    &&& saved == (PowerConfig { force_vid_mv: None, ..cfg })
}

/// Whether an action changes what is persisted.
pub open spec fn persists(action: Action<Seq<char>>) -> bool {
    match action {
        Action::DeleteProfile(_) => true,
        Action::SaveProfile { .. } => true,
        Action::Build { .. } => true,
        Action::Host(op) => match op {
            Op::ArmCu => true,
            Op::DisarmCu => true,
            Op::SaveRoute => true,
            Op::ArmRoute => true,
            Op::DisarmRoute => true,
            Op::SavePower(_) => true,
            Op::SaveGovernor(_) => true,
            Op::ForceMode(_) => true,
            Op::UnforceMode => true,
            Op::ApplyMode => true,
            Op::SaveCpu(_) => true,
            Op::ClearSavedCpu => true,
            Op::ArmCpuOc => true,
            Op::DisarmCpuOc => true,
            Op::ApplyProfile => true,
            _ => false,
        },
        _ => false,
    }
}

/// Whether a command acts on the live GPU alone.
pub open spec fn is_transient(cmd: GpuCmd) -> bool {
    cmd is Pin || cmd is Unpin || cmd is Wake || cmd is DeepSleep || cmd is Level || cmd is Poke
}

/// Law: the commands that act on the live GPU alone persist nothing.
pub proof fn law_transient_commands_persist_nothing(
    site: Site,
    cmd: GpuCmd,
    replies: Seq<Reply>,
    action: Action<Seq<char>>,
)
    requires
        is_transient(cmd),
        gpu_course(site, cmd, replies).handed(action),
    ensures
        !persists(action),
{
    let rule = Rule {
        held: |a: Action<Seq<char>>| persists(a),
        at: |a: Action<Seq<char>>, point: Point<Seq<char>>|
            match point {
                Point::At(spot) => spot is PinConfig || spot is PinRaise || spot is PinVddc
                    || spot is PinForced || spot is Wake || spot is DeepSleep,
                Point::Level { .. } => true,
                _ => false,
            },
        ..Rule::plain()
    };
    assert(rule.ordered(opening(site, Cmd::Gpu { action: cmd })));
    assert(rule.closed(site));
    lemma_rule(site, Cmd::Gpu { action: cmd }, replies, rule);
}

/// Law: `unpin` starts the GPU power unit only once the clock was released.
pub proof fn law_unpin_releases_the_clock_first(site: Site, replies: Seq<Reply>)
    requires
        gpu_course(site, GpuCmd::Unpin, replies).did(Op::StartGpuUnit),
    ensures
        succeeded(
            gpu_course(site, GpuCmd::Unpin, replies).history,
            Action::Host(Op::ReleaseClock),
        ),
{
    let rule = Rule {
        held: |a: Action<Seq<char>>| a == Action::<Seq<char>>::Host(Op::StartGpuUnit),
        key: |e: Exchange|
            e.action == Action::<Seq<char>>::Host(Op::ReleaseClock) && !(e.reply is Failed),
        ..Rule::plain()
    };
    let cmd = Cmd::Gpu { action: GpuCmd::Unpin };
    let plan = opening(site, cmd);
    assert(rule.opens(plan[0]));
    assert(rule.ordered(plan));
    assert(rule.closed(site));
    lemma_rule(site, cmd, replies, rule);
}

} // verus!
