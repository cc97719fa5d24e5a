//! Rules of order: what a command does, or how it ends, only once something else has happened.
use vstd::prelude::*;

use crate::cli::opening;
use crate::commands::Cmd;
use crate::decide::decision;
use crate::model::{Fault, Reply, Site};
use crate::plan::{Action, Instr, Outcome, Plan, Point, Then};
use crate::protocol::{can_fail, suits};
use crate::session::{ended, pending, resumed};
use crate::trace::{course, done, lemma_course, proper, witnessed, Exchange, History};

verus! {

/// A rule of order. What is held back waits for a key.
pub struct Rule {
    /// The actions that wait for the key.
    pub held: spec_fn(Action<Seq<char>>) -> bool,
    /// The ends that wait for the key.
    pub held_end: spec_fn(Outcome<Seq<char>>) -> bool,
    /// The exchanges that are a key.
    pub key: spec_fn(Exchange) -> bool,
    /// The decisions that can be met without the key, and the actions they are made on.
    pub at: spec_fn(Action<Seq<char>>, Point<Seq<char>>) -> bool,
    /// Those of them that may be the last ones of a plan whose end waits for the key.
    pub last: spec_fn(Point<Seq<char>>) -> bool,
}

impl Rule {
    /// The rule that holds nothing back.
    pub open spec fn plain() -> Rule {
        Rule {
            held: |action: Action<Seq<char>>| false,
            held_end: |outcome: Outcome<Seq<char>>| false,
            key: |e: Exchange| false,
            at: |action: Action<Seq<char>>, point: Point<Seq<char>>| false,
            last: |point: Point<Seq<char>>| true,
        }
    }

    /// Whether a key is among the exchanges.
    pub open spec fn unlocked(self, history: History) -> bool {
        witnessed(history, self.key)
    }

    /// Whether an answer, other than a failure, is a key.
    pub open spec fn answer_opens(self, action: Action<Seq<char>>) -> bool {
        forall|reply: Reply|
            !(reply is Failed) ==> #[trigger] (self.key)(Exchange { action, reply })
    }

    /// Whether the plan goes on behind a step only with a key.
    pub open spec fn opens(self, step: Instr<Seq<char>>) -> bool {
        match step {
            Instr::End(_) => true,
            Instr::Do { action, then } => match then {
                Then::Require => self.answer_opens(action),
                Then::RequireAs(_) => self.answer_opens(action),
                Then::Ask(_) => self.answer_opens(action),
                _ => forall|reply: Reply| #[trigger] (self.key)(Exchange { action, reply }),
            },
        }
    }

    /// Whether the command may end with the failure of an action.
    pub open spec fn may_fail(self, action: Action<Seq<char>>) -> bool {
        can_fail(action) ==> !self.holds_failure()
    }

    /// Whether an error is among the ends that wait.
    pub open spec fn holds_failure(self) -> bool {
        exists|f: Fault<Seq<char>>| #[trigger] (self.held_end)(Outcome::Failed(f))
    }

    /// Whether a step may be met without the key.
    pub open spec fn free(self, step: Instr<Seq<char>>) -> bool {
        match step {
            Instr::End(outcome) => !(self.held_end)(outcome),
            Instr::Do { action, then } => {
                &&& !(self.held)(action)
                &&& match then {
                    Then::Proceed => true,
                    Then::Require => self.may_fail(action),
                    Then::RequireAs(_) => self.may_fail(action),
                    Then::Ask(point) => self.may_fail(action) && (self.at)(action, point),
                    Then::Judge(point) => (self.at)(action, point),
                }
            },
        }
    }

    /// Whether the end of a plan is in order by this step: the plan goes on behind it only with a
    /// key, or by a decision that may be the last one.
    pub open spec fn settles(self, step: Instr<Seq<char>>) -> bool {
        self.opens(step) || match step {
            Instr::End(_) => true,
            Instr::Do { action, then } => match then {
                Then::Ask(point) => (self.last)(point),
                Then::Judge(point) => (self.last)(point),
                _ => false,
            },
        }
    }

    /// Whether every step of a plan is free or behind one that opens.
    pub open spec fn ordered(self, plan: Plan) -> bool {
        forall|i: int| 0 <= i < plan.len() ==> self.free(#[trigger] plan[i]) || self.behind(plan, i)
    }

    /// Whether the end of a plan is in order.
    pub open spec fn settled(self, plan: Plan) -> bool {
        (self.held_end)(Outcome::Success) ==> exists|j: int|
            0 <= j < plan.len() && self.settles(#[trigger] plan[j])
    }

    /// Whether a step before this one opens.
    pub open spec fn behind(self, plan: Plan, i: int) -> bool {
        exists|j: int| 0 <= j < i && self.opens(#[trigger] plan[j])
    }

    /// Whether the decisions that can be met without the key make ordered plans of everything but
    /// the key.
    pub open spec fn closed(self, site: Site) -> bool {
        forall|action: Action<Seq<char>>, point: Point<Seq<char>>, reply: Reply|
            #![trigger (self.at)(action, point), decision(site, point, reply)]
            (self.at)(action, point) && decision(site, point, reply) is Some ==> (self.key)(
                Exchange { action, reply },
            ) || self.decides(point, decision(site, point, reply)->0)
    }

    /// Whether the plan of a decision is in order.
    pub open spec fn decides(self, point: Point<Seq<char>>, decided: Plan) -> bool {
        self.ordered(decided) && ((self.last)(point) ==> self.settled(decided))
    }

    /// Whether nothing that waits is among the exchanges.
    pub open spec fn clean(self, history: History) -> bool {
        forall|i: int| 0 <= i < history.len() ==> !(self.held)((#[trigger] history[i]).action)
    }

    /// Whether the rule is kept so far.
    pub open spec fn respected(self, plan: Plan, history: History) -> bool {
        ||| self.unlocked(history)
        ||| self.clean(history) && self.ordered(plan) && self.settled(plan)
        ||| self.holds_failure() && !proper(history)
    }
}

/// What is left of an ordered plan behind its first step is ordered, unless that step opens.
proof fn lemma_rest(rule: Rule, plan: Plan)
    requires
        rule.ordered(plan),
        rule.settled(plan),
        plan.len() > 0,
        !rule.opens(plan[0]),
    ensures
        rule.ordered(plan.drop_first()),
        !rule.settles(plan[0]) ==> rule.settled(plan.drop_first()),
{
    let rest = plan.drop_first();
    assert forall|i: int| 0 <= i < rest.len() implies rule.free(#[trigger] rest[i]) || rule.behind(
        rest,
        i,
    ) by {
        assert(rest[i] == plan[i + 1]);
        if rule.behind(plan, i + 1) {
            let j = choose|j: int| 0 <= j < i + 1 && rule.opens(#[trigger] plan[j]);
            assert(rest[j - 1] == plan[j]);
        }
    }
    if (rule.held_end)(Outcome::Success) && !rule.settles(plan[0]) {
        let j = choose|j: int| 0 <= j < plan.len() && rule.settles(#[trigger] plan[j]);
        assert(rest[j - 1] == plan[j]);
    }
}

/// A decision in front of an ordered rest is ordered.
proof fn lemma_joined(rule: Rule, decided: Plan, rest: Plan)
    requires
        rule.ordered(decided),
        rule.ordered(rest),
        rule.settled(decided) || rule.settled(rest),
    ensures
        rule.ordered(decided + rest),
        rule.settled(decided + rest),
{
    let plan = decided + rest;
    assert forall|i: int| 0 <= i < plan.len() implies rule.free(#[trigger] plan[i]) || rule.behind(
        plan,
        i,
    ) by {
        if i < decided.len() {
            assert(plan[i] == decided[i]);
            if rule.behind(decided, i) {
                let j = choose|j: int| 0 <= j < i && rule.opens(#[trigger] decided[j]);
                assert(plan[j] == decided[j]);
            }
        } else {
            let k = i - decided.len();
            assert(plan[i] == rest[k]);
            if rule.behind(rest, k) {
                let j = choose|j: int| 0 <= j < k && rule.opens(#[trigger] rest[j]);
                assert(plan[j + decided.len()] == rest[j]);
            }
        }
    }
    if (rule.held_end)(Outcome::Success) {
        if rule.settled(decided) {
            let j = choose|j: int| 0 <= j < decided.len() && rule.settles(#[trigger] decided[j]);
            assert(plan[j] == decided[j]);
        } else {
            let j = choose|j: int| 0 <= j < rest.len() && rule.settles(#[trigger] rest[j]);
            assert(plan[j + decided.len()] == rest[j]);
        }
    }
}

/// A key stays, and a new exchange may be one.
proof fn lemma_unlocked(rule: Rule, history: History, e: Exchange)
    ensures
        rule.unlocked(history) ==> rule.unlocked(history.push(e)),
        (rule.key)(e) ==> rule.unlocked(history.push(e)),
        !proper(history) ==> !proper(history.push(e)),
        !suits(e.action, e.reply) ==> !proper(history.push(e)),
{
    let next = history.push(e);
    if rule.unlocked(history) {
        let i = choose|i: int| 0 <= i < history.len() && (rule.key)(#[trigger] history[i]);
        assert(next[i] == history[i]);
    }
    assert(next[history.len() as int] == e);
    if !proper(history) {
        let i = choose|i: int|
            0 <= i < history.len() && !suits((#[trigger] history[i]).action, history[i].reply);
        assert(next[i] == history[i]);
    }
}

/// Every reply keeps the rule.
proof fn lemma_respected(site: Site, rule: Rule, plan: Plan, history: History, reply: Reply)
    requires
        rule.closed(site),
        rule.respected(plan, history),
        resumed(site, plan, reply) is Some,
    ensures
        rule.respected(
            resumed(site, plan, reply)->0,
            history.push(Exchange { action: pending(plan)->0, reply }),
        ),
{
    let next = resumed(site, plan, reply)->0;
    let e = Exchange { action: pending(plan)->0, reply };
    let after = history.push(e);
    let rest = plan.drop_first();
    lemma_unlocked(rule, history, e);
    if !rule.unlocked(after) && !(rule.holds_failure() && !proper(history)) {
        assert(rule.free(plan[0])) by {
            assert(!rule.behind(plan, 0));
        }
        assert(rule.clean(after));
        match plan[0] {
            Instr::End(_) => {},
            Instr::Do { action, then } => {
                if reply is Failed && (then is Require || then is RequireAs || then is Ask) {
                    if can_fail(action) {
                        assert(next.len() == 1);
                        assert(rule.free(next[0]));
                        assert(rule.settles(next[0]));
                    } else {
                        assert(!suits(action, reply));
                        if !rule.holds_failure() {
                            assert(next.len() == 1);
                            assert(rule.free(next[0]));
                            assert(rule.settles(next[0]));
                        }
                    }
                } else {
                    assert(!rule.opens(plan[0]));
                    lemma_rest(rule, plan);
                    match then {
                        Then::Ask(point) | Then::Judge(point) => {
                            assert((rule.at)(action, point));
                            lemma_joined(rule, decision(site, point, reply)->0, rest);
                        },
                        _ => {
                            assert(next == rest);
                        },
                    }
                }
            },
        }
    }
}

/// A rule that the opening of a command and its decisions keep holds all along.
pub proof fn lemma_rule(site: Site, cmd: Cmd, replies: Seq<Reply>, rule: Rule)
    requires
        rule.closed(site),
        rule.ordered(opening(site, cmd)),
        rule.settled(opening(site, cmd)),
    ensures
        ({
            let c = course(site, cmd, replies);
            ||| rule.unlocked(c.history)
            ||| rule.holds_failure() && !proper(c.history)
            ||| {
                &&& forall|action: Action<Seq<char>>| #[trigger]
                    c.handed(action) ==> !(rule.held)(action)
                &&& ended(c.plan) matches Some(outcome) ==> !(rule.held_end)(outcome)
            }
        }),
{
    let inv = |plan: Plan, history: History| rule.respected(plan, history);
    assert forall|plan: Plan, history: History, reply: Reply|
        #![trigger inv(plan, history), resumed(site, plan, reply)]
        inv(plan, history) && resumed(site, plan, reply) is Some implies inv(
        resumed(site, plan, reply)->0,
        history.push(Exchange { action: pending(plan)->0, reply }),
    ) by {
        lemma_respected(site, rule, plan, history, reply);
    }
    lemma_course(site, opening(site, cmd), replies, inv);
    let c = course(site, cmd, replies);
    assert(inv(c.plan, c.history));
    if !rule.unlocked(c.history) && !(rule.holds_failure() && !proper(c.history)) {
        if c.plan.len() > 0 {
            assert(!rule.behind(c.plan, 0));
            assert(rule.free(c.plan[0]));
        }
        assert forall|action: Action<Seq<char>>| #[trigger] c.handed(action) implies !(rule.held)(
            action,
        ) by {
            if done(c.history, action) {
                let i = choose|i: int|
                    0 <= i < c.history.len() && (#[trigger] c.history[i]).action == action;
            }
        }
    }
}

} // verus!
