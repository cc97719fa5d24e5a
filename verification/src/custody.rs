//! Warrants: what the command line and the answers of the host entitle a command to do, and to end
//! with.
use vstd::prelude::*;

use crate::cli::opening;
use crate::commands::Cmd;
use crate::decide::decision;
use crate::model::{Fault, Reply, Site};
use crate::plan::{Action, Instr, Op, Outcome, Plan, Point, Then};
use crate::session::{ended, pending, resumed};
use crate::trace::{answered, course, course_of, done, lemma_answered, Exchange, History};

verus! {

/// Whether the host has answered an action without text with this reply.
#[verifier::inline]
pub open spec fn told(h: History, op: Op, reply: Reply) -> bool {
    answered(h, Action::Host(op), reply)
}

/// Whether a plan ends before this step.
pub open spec fn cut_off(plan: Plan, i: int) -> bool {
    exists|j: int| 0 <= j < i && (#[trigger] plan[j]) is End
}

/// The warrants of a command, over the exchanges that it has had.
pub struct Custody {
    /// The actions that it is entitled to.
    pub warrant: spec_fn(Action<Seq<char>>) -> bool,
    /// The decisions whose own values are vouched for, and the actions they are made on.
    pub ground: spec_fn(Action<Seq<char>>, Point<Seq<char>>) -> bool,
    /// The ends, other than that it runs out of steps, that it is entitled to.
    pub close: spec_fn(Outcome<Seq<char>>) -> bool,
}

impl Custody {
    /// Whether a step is warranted.
    pub open spec fn covers_step(self, h: History, step: Instr<Seq<char>>) -> bool {
        match step {
            Instr::End(outcome) => (self.close)(outcome),
            Instr::Do { action, then } => {
                &&& (self.warrant)(action)
                &&& match then {
                    Then::Proceed => true,
                    Then::Require => self.passes_error(h, action),
                    Then::RequireAs(context) => forall|f: Fault<String>| #[trigger]
                        answered(h, action, Reply::Failed(f)) ==> (self.close)(
                            Outcome::Failed(f@.under(context)),
                        ),
                    Then::Ask(point) => self.passes_error(h, action) && (self.ground)(
                        action,
                        point,
                    ),
                    Then::Judge(point) => (self.ground)(action, point),
                }
            },
        }
    }

    /// Whether every step of a plan is warranted, or behind its end.
    pub open spec fn covers(self, h: History, plan: Plan) -> bool {
        forall|i: int|
            0 <= i < plan.len() ==> self.covers_step(h, #[trigger] plan[i]) || cut_off(plan, i)
    }

    /// Whether the decisions make warranted plans of what the host has answered.
    pub open spec fn closed(self, site: Site, h: History) -> bool {
        forall|action: Action<Seq<char>>, point: Point<Seq<char>>, reply: Reply|
            #![trigger (self.ground)(action, point), decision(site, point, reply)]
            (self.ground)(action, point) && answered(h, action, reply) && decision(
                site,
                point,
                reply,
            ) is Some ==> self.covers(h, decision(site, point, reply)->0)
    }

    /// Whether the error of an action is an end that the command is entitled to.
    pub open spec fn passes_error(self, h: History, action: Action<Seq<char>>) -> bool {
        forall|f: Fault<String>| #[trigger]
            answered(h, action, Reply::Failed(f)) ==> (self.close)(Outcome::Failed(f@))
    }
}

/// The exchanges of a course are among those of every longer one.
proof fn lemma_longer(
    site: Site,
    plan: Plan,
    replies: Seq<Reply>,
    action: Action<Seq<char>>,
    reply: Reply,
)
    requires
        replies.len() > 0,
        answered(course_of(site, plan, replies.drop_last()).history, action, reply),
    ensures
        answered(course_of(site, plan, replies).history, action, reply),
{
    let c = course_of(site, plan, replies.drop_last());
    if resumed(site, c.plan, replies.last()) is Some {
        let e = Exchange { action: pending(c.plan)->0, reply: replies.last() };
        lemma_answered(c.history, e, action, reply);
    }
}

/// A step that is cut off in one of two plans is cut off in their sequence.
pub proof fn lemma_joined_cut(decided: Plan, rest: Plan, i: int)
    ensures
        0 <= i < decided.len() && cut_off(decided, i) ==> cut_off(decided + rest, i),
        decided.len() <= i <= decided.len() + rest.len() && cut_off(rest, i - decided.len())
            ==> cut_off(decided + rest, i),
{
    let plan = decided + rest;
    if 0 <= i < decided.len() && cut_off(decided, i) {
        let j = choose|j: int| 0 <= j < i && (#[trigger] decided[j]) is End;
        assert(plan[j] == decided[j]);
    }
    if decided.len() <= i && i - decided.len() <= rest.len() && cut_off(rest, i - decided.len()) {
        let j = choose|j: int| 0 <= j < i - decided.len() && (#[trigger] rest[j]) is End;
        assert(plan[j + decided.len()] == rest[j]);
    }
}

/// One reply keeps a plan warranted.
proof fn lemma_covered_step(site: Site, custody: Custody, h: History, plan: Plan, reply: Reply)
    requires
        custody.covers(h, plan),
        custody.closed(site, h),
        resumed(site, plan, reply) is Some,
        answered(h, pending(plan)->0, reply),
    ensures
        custody.covers(h, resumed(site, plan, reply)->0),
{
    let next = resumed(site, plan, reply)->0;
    let rest = plan.drop_first();
    assert(!cut_off(plan, 0));
    assert(custody.covers_step(h, plan[0]));
    assert(custody.covers(h, rest)) by {
        assert forall|i: int| 0 <= i < rest.len() implies custody.covers_step(
            h,
            #[trigger] rest[i],
        ) || cut_off(rest, i) by {
            assert(rest[i] == plan[i + 1]);
            if cut_off(plan, i + 1) {
                let j = choose|j: int| 0 <= j < i + 1 && (#[trigger] plan[j]) is End;
                assert(rest[j - 1] == plan[j]);
            }
        }
    }
    match plan[0] {
        Instr::End(_) => {},
        Instr::Do { action, then } => {
            match then {
                Then::Ask(point) | Then::Judge(point) => {
                    if !(then is Ask && reply is Failed) {
                        let decided = decision(site, point, reply)->0;
                        assert((custody.ground)(action, point));
                        assert(custody.covers(h, decided));
                        assert forall|i: int| 0 <= i < next.len() implies custody.covers_step(
                            h,
                            #[trigger] next[i],
                        ) || cut_off(next, i) by {
                            lemma_joined_cut(decided, rest, i);
                            if i < decided.len() {
                                assert(next[i] == decided[i]);
                            } else {
                                assert(next[i] == rest[i - decided.len()]);
                            }
                        }
                    }
                },
                _ => {},
            }
        },
    }
}

/// What is left of a plan stays warranted all along, and so is everything that was done.
proof fn lemma_covered(
    site: Site,
    plan: Plan,
    replies: Seq<Reply>,
    h: History,
    custody: Custody,
)
    requires
        custody.covers(h, plan),
        custody.closed(site, h),
        forall|action: Action<Seq<char>>, reply: Reply| #[trigger]
            answered(course_of(site, plan, replies).history, action, reply) ==> answered(
                h,
                action,
                reply,
            ),
    ensures
        custody.covers(h, course_of(site, plan, replies).plan),
        forall|i: int|
            0 <= i < course_of(site, plan, replies).history.len() ==> (custody.warrant)(
                (#[trigger] course_of(site, plan, replies).history[i]).action,
            ),
    decreases replies.len(),
{
    if replies.len() > 0 {
        let before = course_of(site, plan, replies.drop_last());
        let after = course_of(site, plan, replies);
        assert forall|action: Action<Seq<char>>, reply: Reply| #[trigger]
            answered(before.history, action, reply) implies answered(h, action, reply) by {
            lemma_longer(site, plan, replies, action, reply);
        }
        lemma_covered(site, plan, replies.drop_last(), h, custody);
        if resumed(site, before.plan, replies.last()) is Some {
            let e = Exchange { action: pending(before.plan)->0, reply: replies.last() };
            assert(after.history[before.history.len() as int] == e);
            assert(answered(after.history, e.action, e.reply));
            assert(!cut_off(before.plan, 0));
            assert(custody.covers_step(h, before.plan[0]));
            lemma_covered_step(site, custody, h, before.plan, replies.last());
        }
    }
}

/// A command does, and ends with, nothing but what is warranted.
pub proof fn lemma_custody(site: Site, cmd: Cmd, replies: Seq<Reply>, custody: Custody)
    requires
        custody.covers(course(site, cmd, replies).history, opening(site, cmd)),
        custody.closed(site, course(site, cmd, replies).history),
    ensures
        forall|action: Action<Seq<char>>| #[trigger]
            course(site, cmd, replies).handed(action) ==> (custody.warrant)(action),
        ended(course(site, cmd, replies).plan) matches Some(outcome) ==> course(
            site,
            cmd,
            replies,
        ).plan.len() == 0 || (custody.close)(outcome),
{
    let c = course(site, cmd, replies);
    lemma_covered(site, opening(site, cmd), replies, c.history, custody);
    if c.plan.len() > 0 {
        assert(!cut_off(c.plan, 0));
        assert(custody.covers_step(c.history, c.plan[0]));
    }
    assert forall|action: Action<Seq<char>>| #[trigger] c.handed(action) implies (custody.warrant)(
        action,
    ) by {
        if done(c.history, action) {
            let i = choose|i: int|
                0 <= i < c.history.len() && (#[trigger] c.history[i]).action == action;
        }
    }
}

} // verus!
