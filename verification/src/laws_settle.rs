//! The settle window of the boot entry.
use vstd::prelude::*;

use crate::boot::{boot_loaded_plan, enact_plan, settle, settle_plan, SECOND};
use crate::cli::opening;
use crate::commands::Cmd;
use crate::laws_boot::{booted, is_boot, sets_clock};
use crate::model::{BootPlan, PowerConfig, Reply, Site};
use crate::plan::{ask, go, Action, Instr, Op, Plan, Spot, Then};
use crate::session::{ended, pending, resumed};
use crate::trace::{
    answered, course, done, lemma_answered, lemma_course, lemma_done, Exchange, History,
};

verus! {

/// Whether an action sets the clock or the voltage of the GPU.
pub open spec fn touches_gpu(op: Op) -> bool {
    sets_clock(op) || op is SetVddc
}

/// What is left of the settle window at an uptime, in nanoseconds; all of it where the uptime is
/// unknown.
pub open spec fn remaining(bp: BootPlan, uptime: Option<u64>) -> int {
    let window = settle(bp) * SECOND;
    match uptime {
        Some(up) => if up >= window {
            0
        } else {
            window - up
        },
        None => window,
    }
}

/// Whether the settle window is over: the uptime was asked for, and what was left of the window
/// then has been slept.
pub open spec fn settled(bp: BootPlan, history: History) -> bool {
    exists|uptime: Option<u64>|
        #![trigger remaining(bp, uptime)]
        answered(history, Action::Host(Op::Uptime), Reply::Uptime(uptime)) && (remaining(bp, uptime)
            == 0 || done(history, Action::Host(Op::Sleep(remaining(bp, uptime) as u64))))
}

spec fn untouched(history: History) -> bool {
    forall|i: int|
        0 <= i < history.len() ==> !((#[trigger] history[i]).action matches Action::Host(op)
            && touches_gpu(op))
}

/// The uptime is about to be asked for.
spec fn asking(bp: BootPlan, plan: Plan) -> bool {
    &&& plan.len() == 1
    &&& plan[0] matches Instr::Do { action, then } && {
        ||| action == Action::<Seq<char>>::Host(Op::DefaultPower) && plan[0] == ask(
            Op::DefaultPower,
            Spot::BootDefault(bp),
        )
        ||| action == Action::<Seq<char>>::Host(Op::Uptime) && exists|cfg: PowerConfig|
            plan[0] == #[trigger] uptime_step(bp, cfg)
    }
}

spec fn uptime_step(plan: BootPlan, cfg: PowerConfig) -> Instr<Seq<char>> {
    ask(Op::Uptime, Spot::BootUptime { plan, cfg })
}

/// What is left of the window is about to be slept.
spec fn sleeping(bp: BootPlan, plan: Plan, history: History) -> bool {
    exists|uptime: Option<u64>|
        #![trigger remaining(bp, uptime)]
        {
            &&& answered(history, Action::Host(Op::Uptime), Reply::Uptime(uptime))
            &&& {
                let nap = go(Op::Sleep(remaining(bp, uptime) as u64));
                ||| plan.len() > 0 && plan[0] == nap
                ||| plan.len() > 1 && (plan[0] matches Instr::Do {
                    action: Action::Eprintln(_),
                    then: Then::Proceed,
                }) && plan[1] == nap
            }
        }
}

spec fn settle_inv(plan: Plan, history: History) -> bool {
    if history.len() == 0 {
        plan == seq![ask(Op::LoadForBoot, Spot::BootLoaded)]
    } else {
        match booted(history) {
            None => untouched(history) && ended(plan) is Some,
            Some(bp) => settled(bp, history) || (untouched(history) && (asking(bp, plan)
                || sleeping(bp, plan, history) || ended(plan) is Some)),
        }
    }
}

/// A window that is over stays over.
proof fn lemma_settled(bp: BootPlan, history: History, e: Exchange)
    requires
        settled(bp, history),
    ensures
        settled(bp, history.push(e)),
{
    let uptime = choose|uptime: Option<u64>|
        #![trigger remaining(bp, uptime)]
        answered(history, Action::Host(Op::Uptime), Reply::Uptime(uptime)) && (remaining(bp, uptime)
            == 0 || done(history, Action::Host(Op::Sleep(remaining(bp, uptime) as u64))));
    lemma_answered(history, e, Action::Host(Op::Uptime), Reply::Uptime(uptime));
    lemma_done(history, e, Action::Host(Op::Sleep(remaining(bp, uptime) as u64)));
}

proof fn lemma_settle_step(site: Site, plan: Plan, history: History, reply: Reply)
    requires
        settle_inv(plan, history),
        resumed(site, plan, reply) is Some,
    ensures
        settle_inv(
            resumed(site, plan, reply)->0,
            history.push(Exchange { action: pending(plan)->0, reply }),
        ),
{
    let next = resumed(site, plan, reply)->0;
    let e = Exchange { action: pending(plan)->0, reply };
    let after = history.push(e);
    if history.len() == 0 {
        assert(after[0] == e);
        if let Reply::Boot(bp, loaded) = reply {
            assert(next =~= boot_loaded_plan(bp, loaded));
            if let Some(cfg) = loaded {
                assert(next[0] == uptime_step(bp, cfg));
            }
            assert(asking(bp, next));
        }
    } else if let Some(bp) = booted(history) {
        assert(after[0] == history[0]);
        if settled(bp, history) {
            lemma_settled(bp, history, e);
        } else if asking(bp, plan) {
            lemma_asking(site, bp, plan, history, reply);
        } else {
            let uptime = choose|uptime: Option<u64>|
                #![trigger remaining(bp, uptime)]
                {
                    &&& answered(history, Action::Host(Op::Uptime), Reply::Uptime(uptime))
                    &&& {
                        let nap = go(Op::Sleep(remaining(bp, uptime) as u64));
                        ||| plan.len() > 0 && plan[0] == nap
                        ||| plan.len() > 1 && (plan[0] matches Instr::Do {
                            action: Action::Eprintln(_),
                            then: Then::Proceed,
                        }) && plan[1] == nap
                    }
                };
            lemma_answered(history, e, Action::Host(Op::Uptime), Reply::Uptime(uptime));
            lemma_done(history, e, Action::Host(Op::Sleep(remaining(bp, uptime) as u64)));
            if plan[0] == go(Op::Sleep(remaining(bp, uptime) as u64)) {
                assert(settled(bp, after));
            } else {
                assert(next[0] == plan[1]);
                assert(sleeping(bp, next, after));
            }
        }
    }
}

proof fn lemma_asking(site: Site, bp: BootPlan, plan: Plan, history: History, reply: Reply)
    requires
        untouched(history),
        asking(bp, plan),
        resumed(site, plan, reply) is Some,
    ensures
        ({
            let next = resumed(site, plan, reply)->0;
            let after = history.push(Exchange { action: pending(plan)->0, reply });
            settled(bp, after) || (untouched(after) && (asking(bp, next) || sleeping(
                bp,
                next,
                after,
            ) || ended(next) is Some))
        }),
{
    let next = resumed(site, plan, reply)->0;
    let e = Exchange { action: pending(plan)->0, reply };
    let after = history.push(e);
    if plan[0] == ask(Op::DefaultPower, Spot::BootDefault(bp)) {
        if let Reply::Power(cfg) = reply {
            assert(next[0] == uptime_step(bp, cfg));
        }
    } else {
        let cfg = choose|cfg: PowerConfig| plan[0] == #[trigger] uptime_step(bp, cfg);
        if let Reply::Uptime(uptime) = reply {
            lemma_answered(history, e, Action::Host(Op::Uptime), Reply::Uptime(uptime));
            assert(next =~= settle_plan(bp, uptime) + enact_plan(site, bp, cfg));
            if remaining(bp, uptime) == 0 {
                assert(settled(bp, after));
            } else {
                assert(next[0] == settle_plan(bp, uptime)[0]);
                assert(next[1] == settle_plan(bp, uptime)[1]);
                assert(sleeping(bp, next, after));
            }
        }
    }
}

/// Law: a boot leaves the GPU alone until the settle window of its plan is over. The window is
/// slept in full where the uptime cannot be read.
pub proof fn law_settle_window(site: Site, cmd: Cmd, replies: Seq<Reply>, op: Op)
    requires
        is_boot(cmd),
        touches_gpu(op),
        course(site, cmd, replies).did(op),
    ensures
        booted(course(site, cmd, replies).history) matches Some(bp) && settled(
            bp,
            course(site, cmd, replies).history,
        ),
{
    let inv = |plan: Plan, history: History| settle_inv(plan, history);
    assert forall|plan: Plan, history: History, reply: Reply|
        #![trigger inv(plan, history), resumed(site, plan, reply)]
        inv(plan, history) && resumed(site, plan, reply) is Some implies inv(
        resumed(site, plan, reply)->0,
        history.push(Exchange { action: pending(plan)->0, reply }),
    ) by {
        lemma_settle_step(site, plan, history, reply);
    }
    lemma_course(site, opening(site, cmd), replies, inv);
    let c = course(site, cmd, replies);
    assert(inv(c.plan, c.history));
}

/// Law: the window of a low pin, and of the fail-safe pin, is the short one; every other boot
/// waits for the long one.
pub proof fn law_window_of_plan(bp: BootPlan)
    ensures
        match bp {
            BootPlan::Manual(m) => remaining(bp, None) == if m <= 1000 {
                15_000_000_000int
            } else {
                120_000_000_000int
            },
            BootPlan::FailSafePin(_) => remaining(bp, None) == 15_000_000_000int,
            BootPlan::Auto => remaining(bp, None) == 120_000_000_000int,
        },
{
}

} // verus!
