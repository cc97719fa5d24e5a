//! Courses of commands: what is handed to a host that gives any replies whatever.
use vstd::prelude::*;

use crate::cli::opening;
use crate::commands::Cmd;
use crate::decide::decision;
use crate::model::{Reply, Site};
use crate::plan::{Action, Instr, Op, Plan, Then};
use crate::protocol::{
    all_sound, lemma_decision_defined, lemma_decision_sound, lemma_opening_sound, sound, suits,
};
use crate::session::{pending, resumed};

verus! {

/// An action that was handed to the host, and the reply that the command used.
pub struct Exchange {
    pub action: Action<Seq<char>>,
    pub reply: Reply,
}

/// The exchanges of a command, oldest first.
pub type History = Seq<Exchange>;

/// How far a command has come: what is left of its plan, and what has happened.
pub struct Course {
    pub plan: Plan,
    pub history: History,
}

/// The course of a plan over the replies of the host. A reply of no use to the command changes
/// nothing.
pub open spec fn course_of(site: Site, plan: Plan, replies: Seq<Reply>) -> Course
    decreases replies.len(),
{
    if replies.len() == 0 {
        Course { plan, history: Seq::empty() }
    } else {
        let c = course_of(site, plan, replies.drop_last());
        match resumed(site, c.plan, replies.last()) {
            Some(next) => Course {
                plan: next,
                history: c.history.push(
                    Exchange { action: pending(c.plan)->0, reply: replies.last() },
                ),
            },
            None => c,
        }
    }
}

/// The course of a command over the replies of the host.
pub open spec fn course(site: Site, cmd: Cmd, replies: Seq<Reply>) -> Course {
    course_of(site, opening(site, cmd), replies)
}

/// Whether every reply is one that the host may give to its action.
pub open spec fn proper(history: History) -> bool {
    forall|i: int| 0 <= i < history.len() ==> suits(
        (#[trigger] history[i]).action,
        history[i].reply,
    )
}

/// Whether an action has been answered.
pub open spec fn done(history: History, action: Action<Seq<char>>) -> bool {
    exists|i: int| 0 <= i < history.len() && (#[trigger] history[i]).action == action
}

/// Whether an action has been answered with this reply.
pub open spec fn answered(history: History, action: Action<Seq<char>>, reply: Reply) -> bool {
    exists|i: int|
        0 <= i < history.len() && (#[trigger] history[i]).action == action && history[i].reply
            == reply
}

/// Whether an action has been answered, and not with a failure.
pub open spec fn succeeded(history: History, action: Action<Seq<char>>) -> bool {
    exists|i: int|
        0 <= i < history.len() && (#[trigger] history[i]).action == action && !(history[i].reply is
        Failed)
}

/// Whether an exchange of this sort is among those of a command.
pub open spec fn witnessed(history: History, sort: spec_fn(Exchange) -> bool) -> bool {
    exists|i: int| 0 <= i < history.len() && sort(#[trigger] history[i])
}

/// One more exchange answers its own action and no other.
pub proof fn lemma_done(history: History, e: Exchange, action: Action<Seq<char>>)
    ensures
        done(history.push(e), action) <==> done(history, action) || e.action == action,
{
    let next = history.push(e);
    if done(history, action) {
        let i = choose|i: int|
            0 <= i < history.len() && (#[trigger] history[i]).action == action;
        assert(next[i].action == action);
    }
    if e.action == action {
        assert(next[history.len() as int].action == action);
    }
    if done(next, action) {
        let i = choose|i: int| 0 <= i < next.len() && (#[trigger] next[i]).action == action;
        if i < history.len() {
            assert(history[i].action == action);
        }
    }
}

/// One more exchange answers its own action with its own reply.
pub proof fn lemma_answered(
    history: History,
    e: Exchange,
    action: Action<Seq<char>>,
    reply: Reply,
)
    ensures
        answered(history.push(e), action, reply) <==> answered(history, action, reply) || (e.action
            == action && e.reply == reply),
{
    let next = history.push(e);
    if answered(history, action, reply) {
        let i = choose|i: int|
            0 <= i < history.len() && (#[trigger] history[i]).action == action && history[i].reply
                == reply;
        assert(next[i].action == action && next[i].reply == reply);
    }
    if e.action == action && e.reply == reply {
        let i = history.len() as int;
        assert(next[i].action == action && next[i].reply == reply);
    }
    if answered(next, action, reply) {
        let i = choose|i: int|
            0 <= i < next.len() && (#[trigger] next[i]).action == action && next[i].reply == reply;
        if i < history.len() {
            assert(history[i].action == action && history[i].reply == reply);
        }
    }
}

/// One more exchange makes an action succeed where it is that action and no failure.
pub proof fn lemma_succeeded(history: History, e: Exchange, action: Action<Seq<char>>)
    ensures
        succeeded(history.push(e), action) <==> succeeded(history, action) || (e.action == action
            && !(e.reply is Failed)),
{
    let next = history.push(e);
    if succeeded(history, action) {
        let i = choose|i: int|
            0 <= i < history.len() && (#[trigger] history[i]).action == action
                && !(history[i].reply is Failed);
        assert(next[i].action == action && !(next[i].reply is Failed));
    }
    if e.action == action && !(e.reply is Failed) {
        let i = history.len() as int;
        assert(next[i].action == action && !(next[i].reply is Failed));
    }
    if succeeded(next, action) {
        let i = choose|i: int|
            0 <= i < next.len() && (#[trigger] next[i]).action == action && !(next[i].reply is
            Failed);
        if i < history.len() {
            assert(history[i].action == action && !(history[i].reply is Failed));
        }
    }
}

impl Course {
    /// Whether an action has been handed to the host.
    pub open spec fn handed(self, action: Action<Seq<char>>) -> bool {
        done(self.history, action) || pending(self.plan) == Some(action)
    }

    /// Whether an action without text has been handed to the host.
    pub open spec fn did(self, op: Op) -> bool {
        self.handed(Action::Host(op))
    }
}

/// What a course keeps: true at its start, and kept by every reply that the command uses.
pub open spec fn kept(site: Site, inv: spec_fn(Plan, History) -> bool) -> bool {
    forall|plan: Plan, history: History, reply: Reply|
        #![trigger inv(plan, history), resumed(site, plan, reply)]
        inv(plan, history) && resumed(site, plan, reply) is Some ==> inv(
            resumed(site, plan, reply)->0,
            history.push(Exchange { action: pending(plan)->0, reply }),
        )
}

/// What holds at the start of a course and is kept by every reply holds all along.
pub proof fn lemma_course(
    site: Site,
    plan: Plan,
    replies: Seq<Reply>,
    inv: spec_fn(Plan, History) -> bool,
)
    requires
        inv(plan, Seq::empty()),
        kept(site, inv),
    ensures
        inv(course_of(site, plan, replies).plan, course_of(site, plan, replies).history),
    decreases replies.len(),
{
    if replies.len() > 0 {
        lemma_course(site, plan, replies.drop_last(), inv);
        let c = course_of(site, plan, replies.drop_last());
        assert(inv(c.plan, c.history));
        let next = resumed(site, c.plan, replies.last());
    }
}

/// A plan that has ended stays as it is, whatever the host says.
pub proof fn lemma_ended(site: Site, plan: Plan, replies: Seq<Reply>)
    requires
        pending(plan) is None,
    ensures
        course_of(site, plan, replies) == (Course { plan, history: Seq::empty() }),
    decreases replies.len(),
{
    if replies.len() > 0 {
        lemma_ended(site, plan, replies.drop_last());
    }
}

/// The plan of a command stays sound.
proof fn lemma_resumed_sound(site: Site, plan: Plan, reply: Reply)
    requires
        all_sound(plan),
        resumed(site, plan, reply) is Some,
    ensures
        all_sound(resumed(site, plan, reply)->0),
{
    match plan[0] {
        Instr::Do { action, then } => {
            match then {
                Then::Ask(point) | Then::Judge(point) => {
                    if decision(site, point, reply) is Some {
                        lemma_decision_sound(site, point, reply);
                    }
                },
                _ => {},
            }
        },
        Instr::End(_) => {},
    }
}

/// Law: at every time, a command makes use of every answer that the host may give to the action
/// that it was handed. No command gets stuck.
pub proof fn law_every_answer_is_used(site: Site, cmd: Cmd, replies: Seq<Reply>, reply: Reply)
    ensures
        ({
            let c = course(site, cmd, replies);
            pending(c.plan) matches Some(action) ==> suits(action, reply) ==> resumed(
                site,
                c.plan,
                reply,
            ) is Some
        }),
{
    let inv = |plan: Plan, history: History| all_sound(plan);
    lemma_opening_sound(site, cmd);
    assert forall|plan: Plan, history: History, reply: Reply|
        #![trigger inv(plan, history), resumed(site, plan, reply)]
        inv(plan, history) && resumed(site, plan, reply) is Some implies inv(
        resumed(site, plan, reply)->0,
        history.push(Exchange { action: pending(plan)->0, reply }),
    ) by {
        lemma_resumed_sound(site, plan, reply);
    }
    lemma_course(site, opening(site, cmd), replies, inv);
    let c = course(site, cmd, replies);
    assert(all_sound(c.plan));
    if pending(c.plan) is Some {
        assert(sound(c.plan[0]));
        match c.plan[0] {
            Instr::Do { action, then } => {
                match then {
                    Then::Ask(point) | Then::Judge(point) => {
                        lemma_decision_defined(site, point, reply);
                    },
                    _ => {},
                }
            },
            Instr::End(_) => {},
        }
    }
}

} // verus!
