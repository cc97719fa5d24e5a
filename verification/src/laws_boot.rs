//! Laws of the boot entry.
use vstd::prelude::*;

use crate::boot::{boot_legacy_plan, boot_loaded_plan, boot_uptime_plan, enact_plan, settle_plan};
use crate::cli::opening;
use crate::commands::{Cmd, GpuCmd};
use crate::decide::decision;
use crate::model::{AutoMode, BootPlan, PowerConfig, Reply, Site};
use crate::plan::{ask, Action, Instr, Op, Outcome, Plan, Point, Spot, Then};
use crate::protocol::suits;
use crate::session::{ended, pending, resumed};
use crate::trace::{
    answered, course, done, lemma_answered, lemma_course, lemma_done, lemma_succeeded, proper,
    succeeded, Exchange, History,
};

verus! {

/// Whether a command is the boot entry.
pub open spec fn is_boot(cmd: Cmd) -> bool {
    match cmd {
        Cmd::Gpu { action } => action == GpuCmd::ApplyBoot || action == GpuCmd::ApplySavedForce,
        _ => false,
    }
}

/// The boot plan that the host has given, once it has.
pub open spec fn booted(history: History) -> Option<BootPlan> {
    if history.len() == 0 {
        None
    } else {
        match history[0].reply {
            Reply::Boot(plan, loaded) => Some(plan),
            _ => None,
        }
    }
}

/// The power settings that a boot enacts: those that were loaded, or the default ones.
pub open spec fn boot_settings(history: History) -> Option<PowerConfig> {
    if history.len() == 0 {
        None
    } else {
        match history[0].reply {
            Reply::Boot(plan, Some(cfg)) => Some(cfg),
            _ => if history.len() == 1 {
                None
            } else {
                match history[1].reply {
                    Reply::Power(cfg) => Some(cfg),
                    _ => None,
                }
            },
        }
    }
}

/// Whether an action sets the GPU clock or hands it to a controller.
pub open spec fn sets_clock(op: Op) -> bool {
    match op {
        Op::ForceClock(_) => true,
        Op::ReleaseClock => true,
        Op::ForceMode(_) => true,
        Op::UnforceMode => true,
        Op::RunGovernor(_) => true,
        Op::RunAutosleep { .. } => true,
        Op::ApplyMode => true,
        Op::ApplyProfile => true,
        _ => false,
    }
}

spec fn clock_action(action: Action<Seq<char>>) -> bool {
    match action {
        Action::Host(op) => sets_clock(op),
        _ => false,
    }
}

/// Nothing has set the clock.
spec fn no_clock(history: History) -> bool {
    forall|i: int| 0 <= i < history.len() ==> !clock_action((#[trigger] history[i]).action)
}

/// Whether an action on the clock is what a boot owes to its plan and settings: the manual pin, or
/// the controller of the auto mode.
pub open spec fn owes(bp: BootPlan, cfg: PowerConfig, op: Op) -> bool {
    match bp {
        BootPlan::Manual(m) => op == Op::ForceClock(m),
        BootPlan::FailSafePin(m) => op == Op::ForceClock(m),
        BootPlan::Auto => match cfg.auto_mode {
            AutoMode::Governor => op is RunGovernor,
            AutoMode::Autosleep => op == (Op::RunAutosleep { idle: 30, deep_force: false }),
            AutoMode::Released => op == Op::ReleaseClock,
        },
    }
}

/// Nothing but what is owed has set the clock.
spec fn only_owed(bp: BootPlan, cfg: PowerConfig, history: History) -> bool {
    forall|i: int|
        0 <= i < history.len() && clock_action((#[trigger] history[i]).action) ==> owes(
            bp,
            cfg,
            history[i].action->Host_0,
        )
}

/// What is owed has been done; where the command did not fail, with success.
spec fn paid(bp: BootPlan, cfg: PowerConfig, plan: Plan, history: History) -> bool {
    exists|op: Op| #[trigger]
        owes(bp, cfg, op) && done(history, Action::Host(op)) && (succeeded(
            history,
            Action::Host(op),
        ) || ended(plan) matches Some(Outcome::Failed(_)))
}

/// The legacy units have not been asked about.
spec fn unasked(history: History) -> bool {
    !done(history, Action::Host(Op::LegacyUnits))
}

spec fn legacy(history: History) -> bool {
    answered(history, Action::Host(Op::LegacyUnits), Reply::Flag(true))
}

/// The persisted voltage has been set.
pub open spec fn voltage_set(history: History, mv: u32) -> bool {
    exists|clk: u32| #[trigger] done(history, Action::Host(Op::SetVddc { clk, mv }))
}

spec fn voltage_owed(cfg: PowerConfig, history: History) -> bool {
    cfg.force_vid_mv matches Some(mv) ==> voltage_set(history, mv)
}

/// A step that only writes text, or the end.
spec fn talks(step: Instr<Seq<char>>) -> bool {
    match step {
        Instr::End(_) => true,
        Instr::Do { action, then } => (action is Println || action is Eprintln) && then is Proceed,
    }
}

spec fn talk(plan: Plan) -> bool {
    forall|i: int| 0 <= i < plan.len() ==> talks(#[trigger] plan[i])
}

/// A step of the persisted voltage on its way to the hardware.
spec fn voltage_step(step: Instr<Seq<char>>, mv: u32) -> bool {
    match step {
        Instr::Do { action: Action::Host(op), then: Then::Ask(Point::At(spot)) } => match spot {
            Spot::BootVidGovernor { mv: v, cfg } => op == Op::LoadGovernor && v == mv,
            Spot::BootVidClock(v) => op is FloorClock && v == mv,
            Spot::BootVidSet { mv: v, clk } => op == Op::SetVddc { clk, mv } && v == mv,
            _ => false,
        },
        _ => false,
    }
}

/// A step that comes before the question of the legacy units.
spec fn early(step: Instr<Seq<char>>) -> bool {
    match step {
        Instr::Do { action, then } => match then {
            Then::Proceed => match action {
                Action::Println(_) => true,
                Action::Eprintln(_) => true,
                Action::Host(op) => op is Sleep,
                _ => false,
            },
            Then::Ask(_) => exists|mv: u32| voltage_step(step, mv),
            _ => false,
        },
        Instr::End(_) => false,
    }
}

/// A plan whose last step asks about the legacy units, with early steps alone before it.
spec fn approach(plan: Plan, bp: BootPlan, cfg: PowerConfig) -> bool {
    &&& plan.len() > 0
    &&& plan.last() == ask(Op::LegacyUnits, Spot::BootLegacy { plan: bp, cfg })
    &&& forall|i: int| 0 <= i < plan.len() - 1 ==> early(#[trigger] plan[i])
}

spec fn voltage_ahead(plan: Plan, mv: u32) -> bool {
    exists|i: int| 0 <= i < plan.len() - 1 && voltage_step(#[trigger] plan[i], mv)
}

/// The boot plan is known.
spec fn planned(bp: BootPlan, plan: Plan, history: History) -> bool {
    &&& no_clock(history)
    &&& unasked(history)
    &&& history.len() == 1
    &&& plan == boot_loaded_plan(bp, history[0].reply->Boot_1)
}

/// The settings are known.
spec fn configured(bp: BootPlan, plan: Plan, history: History) -> bool {
    let cfg = boot_settings(history)->0;
    &&& no_clock(history)
    &&& unasked(history)
    &&& boot_settings(history) is Some
    &&& plan == seq![ask(Op::Uptime, Spot::BootUptime { plan: bp, cfg })]
}

/// The question of the legacy units is still to come.
spec fn approaching(bp: BootPlan, plan: Plan, history: History) -> bool {
    let cfg = boot_settings(history)->0;
    &&& no_clock(history)
    &&& unasked(history)
    &&& boot_settings(history) is Some
    &&& approach(plan, bp, cfg)
    &&& cfg.force_vid_mv matches Some(mv) ==> voltage_set(history, mv) || voltage_ahead(plan, mv)
}

/// A failure that no host gives has ended the boot.
spec fn broken(plan: Plan, history: History) -> bool {
    &&& no_clock(history)
    &&& !legacy(history)
    &&& ended(plan) is Some
    &&& !proper(history)
}

/// A legacy unit is enabled.
spec fn yielded(plan: Plan, history: History) -> bool {
    &&& no_clock(history)
    &&& talk(plan)
    &&& boot_settings(history) is Some
    &&& legacy(history)
}

/// No legacy unit is enabled.
spec fn enacting(bp: BootPlan, plan: Plan, history: History) -> bool {
    let cfg = boot_settings(history)->0;
    &&& !legacy(history)
    &&& boot_settings(history) is Some
    &&& voltage_owed(cfg, history)
    &&& {
        ||| no_clock(history) && plan == boot_legacy_plan(bp, cfg, false)
        ||| no_clock(history) && governing(bp, cfg, plan)
        ||| only_owed(bp, cfg, history) && paid(bp, cfg, plan, history) && talk(plan)
    }
}

/// The governor is about to run.
spec fn governing(bp: BootPlan, cfg: PowerConfig, plan: Plan) -> bool {
    &&& plan.len() == 1
    &&& plan[0] matches Instr::Do { action: Action::Host(op), then: Then::Require } && op is
        RunGovernor && owes(bp, cfg, op)
}

/// Where a boot can be that is not a fail-safe pin.
spec fn boot_state(bp: BootPlan, plan: Plan, history: History) -> bool {
    ||| planned(bp, plan, history)
    ||| configured(bp, plan, history)
    ||| approaching(bp, plan, history)
    ||| broken(plan, history)
    ||| yielded(plan, history)
    ||| enacting(bp, plan, history)
}

/// A step on the way to the fail-safe pin.
spec fn safe_step(step: Instr<Seq<char>>) -> bool {
    step matches Instr::Do { action, then: Then::Proceed } && match action {
        Action::Eprintln(_) => true,
        Action::LogTransition(_) => true,
        Action::Host(op) => op is Sleep,
        _ => false,
    }
}

/// Where a boot with a fail-safe pin can be.
spec fn safe_state(m: u32, plan: Plan, history: History) -> bool {
    let bp = BootPlan::FailSafePin(m);
    ||| no_clock(history) && history.len() == 1 && plan == boot_loaded_plan(
        bp,
        history[0].reply->Boot_1,
    )
    ||| no_clock(history) && safe_asking(bp, plan)
    ||| no_clock(history) && safe_approach(m, plan)
    ||| no_clock(history) && ended(plan) is Some && !proper(history)
    ||| safe_pinned(m, plan, history)
}

/// The uptime is asked for.
spec fn safe_asking(bp: BootPlan, plan: Plan) -> bool {
    exists|cfg: PowerConfig|
        plan == seq![ask(Op::Uptime, #[trigger] uptime_spot(bp, cfg))]
}

spec fn uptime_spot(plan: BootPlan, cfg: PowerConfig) -> Spot {
    Spot::BootUptime { plan, cfg }
}

/// The fail-safe pin is the last step.
spec fn safe_approach(m: u32, plan: Plan) -> bool {
    &&& plan.len() > 0
    &&& plan.last() == ask(Op::ForceClock(m), Spot::FailSafePinned)
    &&& forall|i: int| 0 <= i < plan.len() - 1 ==> safe_step(#[trigger] plan[i])
}

/// The fail-safe clock has been forced, and nothing is left but text.
spec fn safe_pinned(m: u32, plan: Plan, history: History) -> bool {
    let pin = Action::<Seq<char>>::Host(Op::ForceClock(m));
    &&& forall|i: int|
        0 <= i < history.len() && clock_action((#[trigger] history[i]).action) ==> history[i].action
            == pin
    &&& done(history, pin)
    &&& talk(plan)
    &&& succeeded(history, pin) || (ended(plan) matches Some(Outcome::Failed(_)))
}

spec fn boot_inv(plan: Plan, history: History) -> bool {
    if history.len() == 0 {
        plan == seq![ask(Op::LoadForBoot, Spot::BootLoaded)]
    } else {
        match booted(history) {
            Some(bp) => match bp {
                BootPlan::FailSafePin(m) => unasked(history) && safe_state(m, plan, history),
                _ => boot_state(bp, plan, history),
            },
            None => no_clock(history) && unasked(history) && ended(plan) is Some && !proper(
                history,
            ),
        }
    }
}

/// One more exchange: what it answers, and that what was there stays.
proof fn lemma_push(history: History, e: Exchange)
    ensures
        unasked(history.push(e)) <==> unasked(history) && e.action != Action::<Seq<char>>::Host(
            Op::LegacyUnits,
        ),
        legacy(history.push(e)) <==> legacy(history) || (e.action == Action::<Seq<char>>::Host(
            Op::LegacyUnits,
        ) && e.reply == Reply::Flag(true)),
        unasked(history) ==> !legacy(history),
        proper(history.push(e)) ==> proper(history) && suits(e.action, e.reply),
        !suits(e.action, e.reply) ==> !proper(history.push(e)),
        forall|mv: u32| #[trigger] voltage_set(history, mv) ==> voltage_set(history.push(e), mv),
        e.action matches Action::Host(Op::SetVddc { clk, mv }) ==> voltage_set(
            history.push(e),
            mv,
        ),
{
    let next = history.push(e);
    lemma_done(history, e, Action::Host(Op::LegacyUnits));
    lemma_answered(history, e, Action::Host(Op::LegacyUnits), Reply::Flag(true));
    assert(next[history.len() as int] == e);
    if proper(next) {
        assert forall|i: int| 0 <= i < history.len() implies suits(
            (#[trigger] history[i]).action,
            history[i].reply,
        ) by {
            assert(next[i] == history[i]);
        }
    }
    if unasked(history) {
        lemma_unasked(history);
    }
    assert forall|mv: u32| #[trigger] voltage_set(history, mv) implies voltage_set(next, mv) by {
        let clk = choose|clk: u32| #[trigger]
            done(history, Action::Host(Op::SetVddc { clk, mv }));
        lemma_done(history, e, Action::Host(Op::SetVddc { clk, mv }));
    }
    if let Action::Host(Op::SetVddc { clk, mv }) = e.action {
        lemma_done(history, e, Action::Host(Op::SetVddc { clk, mv }));
    }
}

/// The settle window and what follows it end with the question of the legacy units.
proof fn lemma_approach(
    site: Site,
    bp: BootPlan,
    cfg: PowerConfig,
    uptime: Option<u64>,
)
    requires
        !(bp is FailSafePin),
    ensures
        approach(boot_uptime_plan(site, bp, cfg, uptime), bp, cfg),
        cfg.force_vid_mv matches Some(mv) ==> voltage_ahead(
            boot_uptime_plan(site, bp, cfg, uptime),
            mv,
        ),
{
    let settling = settle_plan(bp, uptime);
    let enacting = enact_plan(site, bp, cfg);
    let plan = boot_uptime_plan(site, bp, cfg, uptime);
    if let Some(mv) = cfg.force_vid_mv {
        assert(voltage_step(enacting[0], mv));
        assert(plan[settling.len() as int] == enacting[0]);
    }
    assert forall|i: int| 0 <= i < plan.len() - 1 implies early(#[trigger] plan[i]) by {
        if i >= settling.len() {
            assert(plan[i] == enacting[i - settling.len()]);
        } else {
            assert(plan[i] == settling[i]);
        }
    }
}

/// An early step leaves the approach an approach, or ends the command by a failure that no host
/// gives.
proof fn lemma_early_step(
    site: Site,
    bp: BootPlan,
    cfg: PowerConfig,
    plan: Plan,
    history: History,
    reply: Reply,
)
    requires
        approach(plan, bp, cfg),
        plan.len() > 1,
        resumed(site, plan, reply) is Some,
        cfg.force_vid_mv matches Some(mv) ==> voltage_set(history, mv) || voltage_ahead(plan, mv),
    ensures
        !clock_action(pending(plan)->0),
        pending(plan)->0 != Action::<Seq<char>>::Host(Op::LegacyUnits),
        ({
            let next = resumed(site, plan, reply)->0;
            let e = Exchange { action: pending(plan)->0, reply };
            ||| ended(next) is Some && !suits(e.action, e.reply)
            ||| approach(next, bp, cfg) && (cfg.force_vid_mv matches Some(mv) ==> voltage_set(
                history.push(e),
                mv,
            ) || voltage_ahead(next, mv))
        }),
{
    let next = resumed(site, plan, reply)->0;
    let rest = plan.drop_first();
    let e = Exchange { action: pending(plan)->0, reply };
    lemma_push(history, e);
    assert(early(plan[0]));
    assert(rest.last() == plan.last());
    assert forall|i: int| 0 <= i < rest.len() - 1 implies early(#[trigger] rest[i]) by {
        assert(rest[i] == plan[i + 1]);
    }
    assert(approach(rest, bp, cfg));
    match plan[0] {
        Instr::Do { action, then: Then::Ask(point) } => {
            let mv = choose|mv: u32| voltage_step(plan[0], mv);
            if !(reply is Failed) {
                let decided = decision(site, point, reply)->0;
                assert(next == decided + rest);
                assert(decided.len() == 1);
                assert(next[0] == decided[0]);
                assert(next.last() == rest.last());
                assert(voltage_step(decided[0], mv) || voltage_set(history.push(e), mv));
                assert(voltage_step(decided[0], mv) || talks(decided[0]));
                assert(early(decided[0]));
                assert forall|i: int| 0 <= i < next.len() - 1 implies early(
                    #[trigger] next[i],
                ) by {
                    if i > 0 {
                        assert(next[i] == rest[i - 1]);
                    }
                }
                if let Some(v) = cfg.force_vid_mv {
                    if !voltage_set(history.push(e), v) {
                        let i = choose|i: int|
                            0 <= i < plan.len() - 1 && voltage_step(#[trigger] plan[i], v);
                        if i > 0 {
                            assert(next[i] == plan[i]);
                            assert(voltage_step(next[i], v));
                        } else {
                            assert(v == mv);
                            assert(voltage_step(next[0], v));
                        }
                    }
                }
            }
        },
        _ => {
            assert(next == rest);
            if let Some(v) = cfg.force_vid_mv {
                if !voltage_set(history.push(e), v) {
                    let i = choose|i: int|
                        0 <= i < plan.len() - 1 && voltage_step(#[trigger] plan[i], v);
                    assert(rest[i - 1] == plan[i]);
                }
            }
        },
    }
}

/// A boot goes from one of its states to another.
proof fn lemma_boot_step(site: Site, plan: Plan, history: History, reply: Reply)
    requires
        boot_inv(plan, history),
        resumed(site, plan, reply) is Some,
    ensures
        boot_inv(
            resumed(site, plan, reply)->0,
            history.push(Exchange { action: pending(plan)->0, reply }),
        ),
{
    let next = resumed(site, plan, reply)->0;
    let e = Exchange { action: pending(plan)->0, reply };
    let after = history.push(e);
    lemma_push(history, e);
    let rest = plan.drop_first();
    if history.len() == 0 {
        assert(after[0] == e);
        if let Reply::Boot(bp, loaded) = reply {
            assert(next =~= boot_loaded_plan(bp, loaded));
        }
    } else {
        assert(after[0] == history[0]);
        if let Some(bp) = booted(history) {
            match bp {
                BootPlan::FailSafePin(m) => lemma_safe_state(site, m, plan, history, reply),
                _ => lemma_boot_state(site, bp, plan, history, reply),
            }
        }
    }
}

proof fn lemma_boot_state(site: Site, bp: BootPlan, plan: Plan, history: History, reply: Reply)
    requires
        history.len() > 0,
        booted(history) == Some(bp),
        !(bp is FailSafePin),
        boot_state(bp, plan, history),
        resumed(site, plan, reply) is Some,
    ensures
        boot_state(
            bp,
            resumed(site, plan, reply)->0,
            history.push(Exchange { action: pending(plan)->0, reply }),
        ),
{
    let next = resumed(site, plan, reply)->0;
    let e = Exchange { action: pending(plan)->0, reply };
    let after = history.push(e);
    lemma_push(history, e);
    let rest = plan.drop_first();
    assert(after[0] == history[0]);
    if history.len() > 1 {
        assert(after[1] == history[1]);
    } else {
        assert(after[1] == e);
    }
    let cfg = boot_settings(history)->0;
    if planned(bp, plan, history) {
        match history[0].reply->Boot_1 {
            Some(_) => {
                assert(configured(bp, plan, history));
                lemma_configured(site, bp, plan, history, reply);
            },
            None => {
                if let Reply::Power(default) = reply {
                    assert(next =~= seq![
                        ask(Op::Uptime, Spot::BootUptime { plan: bp, cfg: default }),
                    ]);
                    assert(configured(bp, next, after));
                } else {
                    assert(broken(next, after));
                }
            },
        }
    } else if configured(bp, plan, history) {
        lemma_configured(site, bp, plan, history, reply);
    } else if approaching(bp, plan, history) {
        if plan.len() > 1 {
            lemma_early_step(site, bp, cfg, plan, history, reply);
            assert(broken(next, after) || approaching(bp, next, after));
        } else {
            assert(plan[0] == plan.last());
            if let Reply::Flag(l) = reply {
                let decided = crate::boot::boot_legacy_plan(bp, cfg, l);
                assert(next =~= decided);
                if l {
                    assert(yielded(next, after));
                } else {
                    assert(enacting(bp, next, after));
                }
            } else {
                assert(broken(next, after));
            }
        }
    } else if yielded(plan, history) {
        assert(talks(plan[0]));
        assert(next == rest);
        assert(yielded(next, after));
    } else {
        assert(enacting(bp, plan, history));
        lemma_enacting(site, bp, plan, history, reply);
    }
}

proof fn lemma_enacting(site: Site, bp: BootPlan, plan: Plan, history: History, reply: Reply)
    requires
        history.len() > 0,
        booted(history) == Some(bp),
        !(bp is FailSafePin),
        enacting(bp, plan, history),
        resumed(site, plan, reply) is Some,
    ensures
        ({
            let next = resumed(site, plan, reply)->0;
            let after = history.push(Exchange { action: pending(plan)->0, reply });
            broken(next, after) || enacting(bp, next, after)
        }),
{
    let next = resumed(site, plan, reply)->0;
    let e = Exchange { action: pending(plan)->0, reply };
    let after = history.push(e);
    lemma_push(history, e);
    assert(after[0] == history[0]);
    if history.len() > 1 {
        assert(after[1] == history[1]);
    }
    let cfg = boot_settings(history)->0;
    if no_clock(history) && plan == boot_legacy_plan(bp, cfg, false) {
        if let Action::Host(op) = e.action {
            lemma_done(history, e, e.action);
            lemma_succeeded(history, e, e.action);
            if sets_clock(op) {
                assert(owes(bp, cfg, op));
                assert(forall|i: int| 0 <= i < next.len() ==> talks(#[trigger] next[i]));
            } else {
                assert(broken(next, after) || governing(bp, cfg, next));
            }
        }
    } else if no_clock(history) && governing(bp, cfg, plan) {
        lemma_done(history, e, e.action);
        lemma_succeeded(history, e, e.action);
        assert(owes(bp, cfg, e.action->Host_0));
        assert(talk(next));
    } else {
        assert(talks(plan[0]));
        let op = choose|op: Op| #[trigger]
            owes(bp, cfg, op) && done(history, Action::Host(op)) && (succeeded(
                history,
                Action::Host(op),
            ) || ended(plan) matches Some(Outcome::Failed(_)));
        lemma_done(history, e, Action::Host(op));
        lemma_succeeded(history, e, Action::Host(op));
        assert(next == plan.drop_first());
        assert(paid(bp, cfg, next, after));
    }
}

proof fn lemma_configured(site: Site, bp: BootPlan, plan: Plan, history: History, reply: Reply)
    requires
        history.len() > 0,
        booted(history) == Some(bp),
        !(bp is FailSafePin),
        configured(bp, plan, history),
        resumed(site, plan, reply) is Some,
    ensures
        ({
            let next = resumed(site, plan, reply)->0;
            let after = history.push(Exchange { action: pending(plan)->0, reply });
            broken(next, after) || approaching(bp, next, after)
        }),
{
    let next = resumed(site, plan, reply)->0;
    let e = Exchange { action: pending(plan)->0, reply };
    let after = history.push(e);
    lemma_push(history, e);
    assert(after[0] == history[0]);
    if history.len() > 1 {
        assert(after[1] == history[1]);
    }
    let cfg = boot_settings(history)->0;
    if let Reply::Uptime(up) = reply {
        assert(next =~= boot_uptime_plan(site, bp, cfg, up));
        lemma_approach(site, bp, cfg, up);
        assert(approaching(bp, next, after));
    } else {
        assert(broken(next, after));
    }
}

/// A boot with a fail-safe pin goes from one of its states to another.
proof fn lemma_safe_state(site: Site, m: u32, plan: Plan, history: History, reply: Reply)
    requires
        history.len() > 0,
        booted(history) == Some(BootPlan::FailSafePin(m)),
        unasked(history),
        safe_state(m, plan, history),
        resumed(site, plan, reply) is Some,
    ensures
        unasked(history.push(Exchange { action: pending(plan)->0, reply })),
        safe_state(
            m,
            resumed(site, plan, reply)->0,
            history.push(Exchange { action: pending(plan)->0, reply }),
        ),
{
    let bp = BootPlan::FailSafePin(m);
    let pin = Action::<Seq<char>>::Host(Op::ForceClock(m));
    let next = resumed(site, plan, reply)->0;
    let e = Exchange { action: pending(plan)->0, reply };
    let after = history.push(e);
    let rest = plan.drop_first();
    lemma_push(history, e);
    lemma_done(history, e, pin);
    lemma_succeeded(history, e, pin);
    if no_clock(history) && history.len() == 1 && plan == boot_loaded_plan(
        bp,
        history[0].reply->Boot_1,
    ) {
        match history[0].reply->Boot_1 {
            Some(cfg) => {
                assert(uptime_spot(bp, cfg) == Spot::BootUptime { plan: bp, cfg });
                lemma_safe_uptime(site, m, cfg, plan, reply);
            },
            None => {
                if let Reply::Power(cfg) = reply {
                    assert(uptime_spot(bp, cfg) == Spot::BootUptime { plan: bp, cfg });
                    assert(next =~= seq![ask(Op::Uptime, uptime_spot(bp, cfg))]);
                }
            },
        }
    } else if no_clock(history) && safe_asking(bp, plan) {
        let cfg = choose|cfg: PowerConfig|
            plan == seq![ask(Op::Uptime, #[trigger] uptime_spot(bp, cfg))];
        lemma_safe_uptime(site, m, cfg, plan, reply);
    } else if no_clock(history) && safe_approach(m, plan) {
        if plan.len() > 1 {
            assert(safe_step(plan[0]));
            assert(next == rest);
            assert(rest.last() == plan.last());
            assert forall|i: int| 0 <= i < rest.len() - 1 implies safe_step(#[trigger] rest[i]) by {
                assert(rest[i] == plan[i + 1]);
            }
            assert(safe_approach(m, next));
        } else {
            assert(plan[0] == plan.last());
            assert(next.len() == 1 && talks(next[0]));
            assert(safe_pinned(m, next, after));
        }
    } else {
        assert(safe_pinned(m, plan, history));
        assert(talks(plan[0]));
        assert(safe_pinned(m, next, after));
    }
}

/// Behind the uptime there is the way to the fail-safe pin.
proof fn lemma_safe_uptime(site: Site, m: u32, cfg: PowerConfig, plan: Plan, reply: Reply)
    requires
        plan == seq![ask(Op::Uptime, uptime_spot(BootPlan::FailSafePin(m), cfg))],
        resumed(site, plan, reply) is Some,
    ensures
        ({
            let next = resumed(site, plan, reply)->0;
            ||| safe_approach(m, next)
            ||| ended(next) is Some && !suits(pending(plan)->0, reply)
        }),
{
    let bp = BootPlan::FailSafePin(m);
    let next = resumed(site, plan, reply)->0;
    if let Reply::Uptime(up) = reply {
        let settling = settle_plan(bp, up);
        let enacting = enact_plan(site, bp, cfg);
        assert(next =~= settling + enacting);
        assert forall|i: int| 0 <= i < next.len() - 1 implies safe_step(#[trigger] next[i]) by {
            if i >= settling.len() {
                assert(next[i] == enacting[i - settling.len()]);
            } else {
                assert(next[i] == settling[i]);
            }
        }
    }
}

/// Every course of a boot is in one of its states.
proof fn lemma_boot_course(site: Site, cmd: Cmd, replies: Seq<Reply>)
    requires
        is_boot(cmd),
    ensures
        ({
            let c = course(site, cmd, replies);
            boot_inv(c.plan, c.history)
        }),
{
    let inv = |plan: Plan, history: History| boot_inv(plan, history);
    assert forall|plan: Plan, history: History, reply: Reply|
        #![trigger inv(plan, history), resumed(site, plan, reply)]
        inv(plan, history) && resumed(site, plan, reply) is Some implies inv(
        resumed(site, plan, reply)->0,
        history.push(Exchange { action: pending(plan)->0, reply }),
    ) by {
        lemma_boot_step(site, plan, history, reply);
    }
    lemma_course(site, opening(site, cmd), replies, inv);
    let c = course(site, cmd, replies);
    assert(inv(c.plan, c.history));
}

/// An action of the history, for what is said of all of them.
proof fn lemma_in_history(history: History, action: Action<Seq<char>>) -> (i: int)
    requires
        done(history, action),
    ensures
        0 <= i < history.len(),
        history[i].action == action,
{
    choose|i: int| 0 <= i < history.len() && (#[trigger] history[i]).action == action
}

/// Law: a boot sets the clock to nothing but what it owes to its plan. A manual pin wins over
/// every auto mode, and a fail-safe pin starts no auto controller.
pub proof fn law_boot_sets_only_what_is_owed(site: Site, cmd: Cmd, replies: Seq<Reply>, op: Op)
    requires
        is_boot(cmd),
        sets_clock(op),
        course(site, cmd, replies).did(op),
    ensures
        ({
            let history = course(site, cmd, replies).history;
            &&& booted(history) is Some
            &&& match booted(history)->0 {
                BootPlan::Manual(m) => op == Op::ForceClock(m),
                BootPlan::FailSafePin(m) => op == Op::ForceClock(m),
                BootPlan::Auto => boot_settings(history) matches Some(cfg) && owes(
                    BootPlan::Auto,
                    cfg,
                    op,
                ),
            }
        }),
{
    let c = course(site, cmd, replies);
    let action = Action::<Seq<char>>::Host(op);
    lemma_boot_course(site, cmd, replies);
    if done(c.history, action) {
        let i = lemma_in_history(c.history, action);
        assert(clock_action(c.history[i].action));
    }
    if pending(c.plan) == Some(action) {
        assert(!talks(c.plan[0]));
        assert(!safe_step(c.plan[0]));
        assert(!early(c.plan[0])) by {
            assert(forall|mv: u32| !voltage_step(c.plan[0], mv));
        }
    }
}

/// Law (heat safety): a manual pin comes back pinned. A boot that has ended has forced the pinned
/// clock, unless a legacy unit is enabled; and where it has ended in success, the clock was set.
pub proof fn law_manual_pin_comes_back(site: Site, cmd: Cmd, replies: Seq<Reply>, m: u32)
    requires
        is_boot(cmd),
        booted(course(site, cmd, replies).history) == Some(BootPlan::Manual(m)),
        proper(course(site, cmd, replies).history),
        ended(course(site, cmd, replies).plan) is Some,
        !answered(
            course(site, cmd, replies).history,
            Action::Host(Op::LegacyUnits),
            Reply::Flag(true),
        ),
    ensures
        ({
            let c = course(site, cmd, replies);
            &&& done(c.history, Action::Host(Op::ForceClock(m)))
            &&& ended(c.plan) == Some(Outcome::<Seq<char>>::Success) ==> succeeded(
                c.history,
                Action::Host(Op::ForceClock(m)),
            )
        }),
{
    lemma_boot_course(site, cmd, replies);
}

/// Law: settings that do not parse are answered by the fail-safe pin, whatever the legacy units.
pub proof fn law_fail_safe_pins(site: Site, cmd: Cmd, replies: Seq<Reply>, m: u32)
    requires
        is_boot(cmd),
        booted(course(site, cmd, replies).history) == Some(BootPlan::FailSafePin(m)),
        proper(course(site, cmd, replies).history),
        ended(course(site, cmd, replies).plan) is Some,
    ensures
        ({
            let c = course(site, cmd, replies);
            &&& done(c.history, Action::Host(Op::ForceClock(m)))
            &&& ended(c.plan) == Some(Outcome::<Seq<char>>::Success) ==> succeeded(
                c.history,
                Action::Host(Op::ForceClock(m)),
            )
        }),
{
    lemma_boot_course(site, cmd, replies);
}

/// Law: without a pin, a boot that has ended has enacted the persisted auto mode, unless a legacy
/// unit is enabled.
pub proof fn law_auto_mode_is_enacted(site: Site, cmd: Cmd, replies: Seq<Reply>)
    requires
        is_boot(cmd),
        booted(course(site, cmd, replies).history) == Some(BootPlan::Auto),
        proper(course(site, cmd, replies).history),
        ended(course(site, cmd, replies).plan) is Some,
        !answered(
            course(site, cmd, replies).history,
            Action::Host(Op::LegacyUnits),
            Reply::Flag(true),
        ),
    ensures
        ({
            let c = course(site, cmd, replies);
            &&& boot_settings(c.history) matches Some(cfg) && exists|op: Op| #[trigger]
                owes(BootPlan::Auto, cfg, op) && done(c.history, Action::Host(op)) && (ended(c.plan)
                    == Some(Outcome::<Seq<char>>::Success) ==> succeeded(
                    c.history,
                    Action::Host(op),
                ))
        }),
{
    lemma_boot_course(site, cmd, replies);
    let c = course(site, cmd, replies);
    let cfg = boot_settings(c.history)->0;
    assert(paid(BootPlan::Auto, cfg, c.plan, c.history));
}

/// Units that have not been asked about have not been found enabled.
proof fn lemma_unasked(history: History)
    requires
        unasked(history),
    ensures
        !legacy(history),
{
    if legacy(history) {
        let i = choose|i: int|
            0 <= i < history.len() && (#[trigger] history[i]).action == Action::<Seq<char>>::Host(
                Op::LegacyUnits,
            ) && history[i].reply == Reply::Flag(true);
        assert(done(history, Action::Host(Op::LegacyUnits)));
    }
}

/// Law: while a legacy unit is enabled, a boot leaves the clock to it.
pub proof fn law_legacy_units_keep_the_clock(site: Site, cmd: Cmd, replies: Seq<Reply>, op: Op)
    requires
        is_boot(cmd),
        answered(
            course(site, cmd, replies).history,
            Action::Host(Op::LegacyUnits),
            Reply::Flag(true),
        ),
        sets_clock(op),
    ensures
        !course(site, cmd, replies).did(op),
{
    let c = course(site, cmd, replies);
    let action = Action::<Seq<char>>::Host(op);
    lemma_boot_course(site, cmd, replies);
    if done(c.history, action) {
        let i = lemma_in_history(c.history, action);
        assert(clock_action(c.history[i].action));
    }
    if unasked(c.history) {
        lemma_unasked(c.history);
    }
    if pending(c.plan) == Some(action) {
        assert(!talks(c.plan[0]));
    }
}

/// Law: a persisted voltage is applied before the clock is set.
pub proof fn law_voltage_before_clock(
    site: Site,
    cmd: Cmd,
    replies: Seq<Reply>,
    cfg: PowerConfig,
    mv: u32,
    op: Op,
)
    requires
        is_boot(cmd),
        !(booted(course(site, cmd, replies).history) matches Some(BootPlan::FailSafePin(_))),
        boot_settings(course(site, cmd, replies).history) == Some(cfg),
        cfg.force_vid_mv == Some(mv),
        sets_clock(op),
        course(site, cmd, replies).did(op),
    ensures
        voltage_set(course(site, cmd, replies).history, mv),
{
    let c = course(site, cmd, replies);
    let action = Action::<Seq<char>>::Host(op);
    lemma_boot_course(site, cmd, replies);
    if done(c.history, action) {
        let i = lemma_in_history(c.history, action);
        assert(clock_action(c.history[i].action));
    }
    if pending(c.plan) == Some(action) {
        assert(!talks(c.plan[0]));
        assert(!early(c.plan[0])) by {
            assert(forall|v: u32| !voltage_step(c.plan[0], v));
        }
    }
}

} // verus!
