//! Completion: a command that has run out of steps has carried all of them out, and all that was
//! decided on the way.
use vstd::prelude::*;

use crate::cli::opening;
use crate::commands::Cmd;
use crate::decide::decision;
use crate::model::{Reply, Site};
use crate::plan::{Action, Instr, Op, Plan, Then};
use crate::session::{pending, resumed};
use crate::trace::{answered, course, course_of, lemma_answered, Exchange, History};

verus! {

/// Whether an action was carried out, whatever came of it.
pub open spec fn tried(h: History, action: Action<Seq<char>>) -> bool {
    exists|reply: Reply| #[trigger] answered(h, action, reply)
}

/// Whether an action was carried out, and did not fail.
pub open spec fn managed(h: History, action: Action<Seq<char>>) -> bool {
    exists|reply: Reply| #[trigger] answered(h, action, reply) && !(reply is Failed)
}

/// Whether a step was carried out, with what was decided on it, down to a depth.
pub closed spec fn ran_step(site: Site, h: History, step: Instr<Seq<char>>, depth: nat) -> bool
    decreases depth, 0nat,
{
    match step {
        Instr::End(_) => false,
        Instr::Do { action, then } => match then {
            Then::Proceed => tried(h, action),
            Then::Require => managed(h, action),
            Then::RequireAs(_) => managed(h, action),
            Then::Ask(point) => depth > 0 && exists|reply: Reply| #[trigger]
                answered(h, action, reply) && !(reply is Failed) && decision(
                    site,
                    point,
                    reply,
                ) is Some && ran(site, h, decision(site, point, reply)->0, (depth - 1) as nat),
            Then::Judge(point) => depth > 0 && exists|reply: Reply| #[trigger]
                answered(h, action, reply) && decision(site, point, reply) is Some && ran(
                    site,
                    h,
                    decision(site, point, reply)->0,
                    (depth - 1) as nat,
                ),
        },
    }
}

/// Whether every step of a plan was carried out, down to a depth.
pub closed spec fn ran(site: Site, h: History, plan: Plan, depth: nat) -> bool
    decreases depth, 1nat,
{
    depth == 0 || forall|i: int|
        0 <= i < plan.len() ==> ran_step(site, h, #[trigger] plan[i], depth)
}

proof fn lemma_shallower_step(site: Site, h: History, step: Instr<Seq<char>>, depth: nat)
    requires
        depth > 1,
        ran_step(site, h, step, depth),
    ensures
        ran_step(site, h, step, (depth - 1) as nat),
    decreases depth, 0nat,
{
    if let Instr::Do { action, then } = step {
        match then {
            Then::Ask(point) => {
                let reply = choose|reply: Reply| #[trigger]
                    answered(h, action, reply) && !(reply is Failed) && decision(
                        site,
                        point,
                        reply,
                    ) is Some && ran(site, h, decision(site, point, reply)->0, (depth - 1) as nat);
                lemma_shallower(site, h, decision(site, point, reply)->0, (depth - 1) as nat);
                assert(answered(h, action, reply));
            },
            Then::Judge(point) => {
                let reply = choose|reply: Reply| #[trigger]
                    answered(h, action, reply) && decision(site, point, reply) is Some && ran(
                        site,
                        h,
                        decision(site, point, reply)->0,
                        (depth - 1) as nat,
                    );
                lemma_shallower(site, h, decision(site, point, reply)->0, (depth - 1) as nat);
                assert(answered(h, action, reply));
            },
            _ => {},
        }
    }
}

/// What was carried out to a depth was carried out to a lesser one.
pub proof fn lemma_shallower(site: Site, h: History, plan: Plan, depth: nat)
    requires
        depth > 0,
        ran(site, h, plan, depth),
    ensures
        ran(site, h, plan, (depth - 1) as nat),
    decreases depth, 1nat,
{
    if depth > 1 {
        assert forall|i: int| 0 <= i < plan.len() implies ran_step(
            site,
            h,
            #[trigger] plan[i],
            (depth - 1) as nat,
        ) by {
            lemma_shallower_step(site, h, plan[i], depth);
        }
    }
}

/// A plan was carried out where what a reply made of it was.
proof fn lemma_ran_back(site: Site, h: History, plan: Plan, reply: Reply, depth: nat)
    requires
        resumed(site, plan, reply) is Some,
        answered(h, pending(plan)->0, reply),
        ran(site, h, resumed(site, plan, reply)->0, depth),
    ensures
        ran(site, h, plan, depth),
{
    if depth > 0 {
        let next = resumed(site, plan, reply)->0;
        let rest = plan.drop_first();
        let action = plan[0]->action;
        let then = plan[0]->then;
        if reply is Failed && (then is Require || then is RequireAs || then is Ask) {
            assert(next.len() == 1);
            assert(ran_step(site, h, next[0], depth));
        } else {
            let n: int = match then {
                Then::Ask(point) | Then::Judge(point) => {
                    let decided = decision(site, point, reply)->0;
                    assert(next == decided + rest);
                    assert(ran(site, h, decided, depth)) by {
                        assert forall|i: int| 0 <= i < decided.len() implies ran_step(
                            site,
                            h,
                            #[trigger] decided[i],
                            depth,
                        ) by {
                            assert(next[i] == decided[i]);
                        }
                    }
                    lemma_shallower(site, h, decided, depth);
                    decided.len() as int
                },
                _ => {
                    assert(next == rest);
                    0
                },
            };
            assert(ran_step(site, h, plan[0], depth)) by {
                assert(answered(h, action, reply));
            }
            assert forall|i: int| 0 <= i < plan.len() implies ran_step(
                site,
                h,
                #[trigger] plan[i],
                depth,
            ) by {
                if i > 0 {
                    assert(plan[i] == rest[i - 1]);
                    assert(next[n + i - 1] == rest[i - 1]);
                }
            }
        }
    }
}

proof fn lemma_ran_all(
    site: Site,
    plan: Plan,
    replies: Seq<Reply>,
    h: History,
    depth: nat,
)
    requires
        ran(site, h, course_of(site, plan, replies).plan, depth),
        forall|action: Action<Seq<char>>, reply: Reply| #[trigger]
            answered(course_of(site, plan, replies).history, action, reply) ==> answered(
                h,
                action,
                reply,
            ),
    ensures
        ran(site, h, plan, depth),
    decreases replies.len(),
{
    if replies.len() > 0 {
        let before = course_of(site, plan, replies.drop_last());
        let after = course_of(site, plan, replies);
        if resumed(site, before.plan, replies.last()) is Some {
            let e = Exchange { action: pending(before.plan)->0, reply: replies.last() };
            assert(after.history[before.history.len() as int] == e);
            assert(answered(after.history, e.action, e.reply));
            lemma_ran_back(site, h, before.plan, replies.last(), depth);
            assert forall|action: Action<Seq<char>>, reply: Reply| #[trigger]
                answered(before.history, action, reply) implies answered(h, action, reply) by {
                lemma_answered(before.history, e, action, reply);
            }
        }
        lemma_ran_all(site, plan, replies.drop_last(), h, depth);
    }
}

/// A command that has run out of steps has carried out its opening plan, and all that was decided.
pub proof fn lemma_completed(site: Site, cmd: Cmd, replies: Seq<Reply>, depth: nat)
    requires
        course(site, cmd, replies).plan.len() == 0,
    ensures
        ran(site, course(site, cmd, replies).history, opening(site, cmd), depth),
{
    let c = course(site, cmd, replies);
    lemma_ran_all(site, opening(site, cmd), replies, c.history, depth);
}

/// The reply on which a step of a plan that was carried out was decided.
pub proof fn lemma_asked(site: Site, h: History, plan: Plan, i: int, depth: nat) -> (reply: Reply)
    requires
        depth > 0,
        ran(site, h, plan, depth),
        0 <= i < plan.len(),
        plan[i] is Do,
        plan[i]->then is Ask || plan[i]->then is Judge,
    ensures
        ({
            let point = match plan[i]->then {
                Then::Ask(p) => p,
                _ => plan[i]->then->Judge_0,
            };
            &&& answered(h, plan[i]->action, reply)
            &&& plan[i]->then is Ask ==> !(reply is Failed)
            &&& decision(site, point, reply) is Some
            &&& ran(site, h, decision(site, point, reply)->0, (depth - 1) as nat)
        }),
{
    let action = plan[i]->action;
    assert(ran_step(site, h, plan[i], depth));
    match plan[i]->then {
        Then::Ask(point) => choose|reply: Reply| #[trigger]
            answered(h, action, reply) && !(reply is Failed) && decision(site, point, reply) is Some
                && ran(site, h, decision(site, point, reply)->0, (depth - 1) as nat),
        _ => {
            let point = plan[i]->then->Judge_0;
            choose|reply: Reply| #[trigger]
                answered(h, action, reply) && decision(site, point, reply) is Some && ran(
                    site,
                    h,
                    decision(site, point, reply)->0,
                    (depth - 1) as nat,
                )
        },
    }
}

/// A step of a plan that was carried out was.
pub proof fn lemma_done_step(site: Site, h: History, plan: Plan, i: int, depth: nat)
    requires
        depth > 0,
        ran(site, h, plan, depth),
        0 <= i < plan.len(),
    ensures
        plan[i] is Do,
        tried(h, plan[i]->action),
        plan[i]->then is Require || plan[i]->then is RequireAs || plan[i]->then is Ask ==> managed(
            h,
            plan[i]->action,
        ),
{
    assert(ran_step(site, h, plan[i], depth));
}

/// Whether a line was printed.
pub open spec fn said(h: History, text: Seq<char>) -> bool {
    tried(h, Action::Println(text))
}

/// Whether a line was printed to standard error.
pub open spec fn warned(h: History, text: Seq<char>) -> bool {
    tried(h, Action::Eprintln(text))
}

/// Whether an action without text was carried out, whatever came of it.
#[verifier::inline]
pub open spec fn tried_op(h: History, op: Op) -> bool {
    tried(h, Action::Host(op))
}

/// Whether an action without text was carried out, and did not fail.
#[verifier::inline]
pub open spec fn managed_op(h: History, op: Op) -> bool {
    managed(h, Action::Host(op))
}

/// Every step of a plan that was carried out was.
pub proof fn lemma_all_steps(site: Site, h: History, plan: Plan, depth: nat)
    requires
        depth > 0,
        ran(site, h, plan, depth),
    ensures
        forall|i: int|
            #![trigger plan[i]]
            0 <= i < plan.len() ==> plan[i] is Do && tried(h, plan[i]->action) && (plan[i]->then is
            Require || plan[i]->then is RequireAs || plan[i]->then is Ask ==> managed(
                h,
                plan[i]->action,
            )),
{
    assert forall|i: int|
        #![trigger plan[i]]
        0 <= i < plan.len() implies plan[i] is Do && tried(h, plan[i]->action) && (plan[i]->then is
        Require || plan[i]->then is RequireAs || plan[i]->then is Ask ==> managed(
        h,
        plan[i]->action,
    )) by {
        lemma_done_step(site, h, plan, i, depth);
    }
}

} // verus!
