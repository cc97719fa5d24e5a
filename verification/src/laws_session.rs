//! Laws of plans and sessions, whatever the command.
use vstd::prelude::*;

use crate::decide::decision;
use crate::model::{Fault, Reply, Site};
use crate::plan::{Action, BuildRequest, Instr, Outcome, Plan, Then};
use crate::session::{ended, pending, resumed};

verus! {

/// Law: a plan either has an action for the host or has ended, never both. A plan without steps has
/// ended in success; an end ends it whatever is left.
pub proof fn law_pending_or_ended(plan: Plan)
    ensures
        pending(plan) is Some <==> ended(plan) is None,
        plan.len() == 0 ==> ended(plan) == Some(Outcome::<Seq<char>>::Success),
        plan.len() > 0 ==> match plan[0] {
            Instr::Do { action, then } => pending(plan) == Some(action),
            Instr::End(outcome) => ended(plan) == Some(outcome),
        },
{
}

/// Law: a command that has ended takes no more replies.
pub proof fn law_ended_takes_no_reply(site: Site, plan: Plan, reply: Reply)
    requires
        ended(plan) is Some,
    ensures
        resumed(site, plan, reply) is None,
{
}

/// Law: where an action that has to succeed fails, the command ends with that very error, and
/// nothing of the rest is done. A context becomes the message, with the error as its cause.
pub proof fn law_failure_ends(site: Site, plan: Plan, f: Fault<String>)
    requires
        plan.len() > 0,
        plan[0] is Do,
        !(plan[0]->then is Proceed || plan[0]->then is Judge),
    ensures
        resumed(site, plan, Reply::Failed(f)) matches Some(next) && {
            &&& pending(next) is None
            &&& ended(next) matches Some(Outcome::Failed(g)) && match plan[0]->then {
                Then::RequireAs(context) => g.message == context && g.chain == context + ": "@
                    + f.chain@,
                _ => g.message == f.message@ && g.chain == f.chain@,
            }
        },
{
}

/// Law: where an answer does not matter, or an action that has to succeed does, the plan goes on
/// with its next step.
pub proof fn law_plan_goes_on(site: Site, plan: Plan, reply: Reply)
    requires
        plan.len() > 0,
        plan[0] is Do,
        plan[0]->then is Proceed || ((plan[0]->then is Require || plan[0]->then is RequireAs) && !(
        reply is Failed)),
    ensures
        resumed(site, plan, reply) == Some(plan.skip(1)),
{
    assert(plan.skip(1) =~= plan.drop_first());
}

/// Law: what is decided on an answer is carried out first, then the rest of the plan, in order.
pub proof fn law_decided_comes_first(site: Site, plan: Plan, reply: Reply, decided: Plan)
    requires
        plan.len() > 0,
        plan[0] is Do,
        match plan[0]->then {
            Then::Ask(point) => !(reply is Failed) && decision(site, point, reply) == Some(decided),
            Then::Judge(point) => decision(site, point, reply) == Some(decided),
            _ => false,
        },
    ensures
        resumed(site, plan, reply) matches Some(next) && {
            &&& next.len() == decided.len() + plan.len() - 1
            &&& forall|i: int| 0 <= i < decided.len() ==> #[trigger] next[i] == decided[i]
            &&& forall|i: int|
                1 <= i < plan.len() ==> next[i - 1 + decided.len()] == #[trigger] plan[i]
        },
{
    let next = resumed(site, plan, reply)->0;
    assert(next =~= decided + plan.drop_first());
    assert forall|i: int| 1 <= i < plan.len() implies next[i - 1 + decided.len()]
        == #[trigger] plan[i] by {
        assert(plan.drop_first()[i - 1] == plan[i]);
    }
}

/// Law: an action of the host is seen by the contracts as what it is, with its own text and values.
pub proof fn law_actions_are_seen_as_they_are(action: Action<String>)
    ensures
        match action {
            Action::Print(s) => action@ == Action::Print(s@),
            Action::Println(s) => action@ == Action::Println(s@),
            Action::Eprintln(s) => action@ == Action::Eprintln(s@),
            Action::FindProfile(s) => action@ == Action::FindProfile(s@),
            Action::DeleteProfile(s) => action@ == Action::DeleteProfile(s@),
            Action::CheckProfileName(s) => action@ == Action::CheckProfileName(s@),
            Action::SaveProfile { name, description, cpu } => action@ == (Action::SaveProfile {
                name: name@,
                description: description@,
                cpu,
            }),
            Action::LogTransition(s) => action@ == Action::LogTransition(s@),
            Action::SetPerformanceLevel(s) => action@ == Action::SetPerformanceLevel(s@),
            Action::Build { request, cc_mode } => action@ == (Action::Build {
                request: BuildRequest {
                    pkgbuild: request.pkgbuild,
                    target: match request.target {
                        Some(t) => Some(t@),
                        None => None,
                    },
                    run: request.run,
                },
                cc_mode,
            }),
            Action::Host(op) => action@ == Action::<Seq<char>>::Host(op),
        },
{
}

/// Law: an outcome is seen by the contracts as what it is.
pub proof fn law_outcomes_are_seen_as_they_are(outcome: Outcome<String>)
    ensures
        match outcome {
            Outcome::Success => outcome@ == Outcome::<Seq<char>>::Success,
            Outcome::Exit(status) => outcome@ == Outcome::<Seq<char>>::Exit(status),
            Outcome::Failed(f) => outcome@ matches Outcome::Failed(g) && g.message == f.message@
                && g.chain == f.chain@,
        },
{
}

} // verus!
