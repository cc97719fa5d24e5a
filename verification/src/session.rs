//! Sessions: a command in progress, from one reply of the host to the next.
use vstd::prelude::*;

use crate::decide::{decide, decision};
use crate::model::{copy_fault, fault_under, Fault, Reply, Site};
use crate::plan::{end, Action, Instr, Outcome, Plan, Script, Then};

verus! {

/// The action that a plan hands the host next; none where the command has ended.
pub open spec fn pending(plan: Plan) -> Option<Action<Seq<char>>> {
    if plan.len() == 0 {
        None
    } else {
        match plan[0] {
            Instr::Do { action, then } => Some(action),
            Instr::End(_) => None,
        }
    }
}

/// How a command has ended; none where it has not. A plan without steps is a success.
pub open spec fn ended(plan: Plan) -> Option<Outcome<Seq<char>>> {
    if plan.len() == 0 {
        Some(Outcome::Success)
    } else {
        match plan[0] {
            Instr::Do { action, then } => None,
            Instr::End(outcome) => Some(outcome),
        }
    }
}

/// The plan of a command that has failed.
pub open spec fn failed(f: Fault<Seq<char>>) -> Plan {
    seq![end(Outcome::Failed(f))]
}

/// What is left of a plan once the reply to its pending action is there; none where the command
/// has ended or the reply is of no use to it.
pub open spec fn resumed(site: Site, plan: Plan, reply: Reply) -> Option<Plan> {
    if plan.len() == 0 {
        None
    } else {
        match plan[0] {
            Instr::End(_) => None,
            Instr::Do { action, then } => match then {
                Then::Proceed => Some(plan.drop_first()),
                Then::Require => match reply {
                    Reply::Failed(f) => Some(failed(f@)),
                    _ => Some(plan.drop_first()),
                },
                Then::RequireAs(context) => match reply {
                    Reply::Failed(f) => Some(failed(f@.under(context))),
                    _ => Some(plan.drop_first()),
                },
                Then::Ask(point) => match reply {
                    Reply::Failed(f) => Some(failed(f@)),
                    _ => match decision(site, point, reply) {
                        Some(decided) => Some(decided + plan.drop_first()),
                        None => None,
                    },
                },
                Then::Judge(point) => match decision(site, point, reply) {
                    Some(decided) => Some(decided + plan.drop_first()),
                    None => None,
                },
            },
        }
    }
}

/// A command in progress.
pub struct Session {
    /// What is left of the plan.
    steps: Vec<Instr<String>>,
}

impl View for Session {
    type V = Plan;

    closed spec fn view(&self) -> Plan {
        self.steps@.map_values(|i: Instr<String>| i@)
    }
}

impl Session {
    /// A session at the start of a plan.
    pub fn new(script: Script) -> (s: Session)
        ensures
            s@ == script@,
    {
        let steps: Vec<Instr<String>> = script.into_steps();
        Session { steps }
    }

    /// The action that the host is to perform next; none where the command has ended.
    pub fn action(&self) -> (a: Option<&Action<String>>)
        ensures
            match a {
                Some(action) => pending(self@) == Some(action@),
                None => pending(self@) is None,
            },
    {
        if self.steps.len() == 0 {
            return None;
        }
        assert(self@[0] == self.steps@[0]@);
        match &self.steps[0] {
            Instr::Do { action, then: _ } => Some(action),
            Instr::End(_) => None,
        }
    }

    /// How the command has ended; none where it has not.
    pub fn outcome(&self) -> (o: Option<Outcome<String>>)
        ensures
            match o {
                Some(outcome) => ended(self@) == Some(outcome@),
                None => ended(self@) is None,
            },
    {
        if self.steps.len() == 0 {
            return Some(Outcome::Success);
        }
        assert(self@[0] == self.steps@[0]@);
        match &self.steps[0] {
            Instr::Do { action: _, then: _ } => None,
            Instr::End(outcome) => Some(
                match outcome {
                    Outcome::Success => Outcome::Success,
                    Outcome::Exit(status) => Outcome::Exit(*status),
                    Outcome::Failed(f) => Outcome::Failed(copy_fault(f)),
                },
            ),
        }
    }

    /// Goes on with the reply to the pending action. A reply that is of no use to the command is
    /// not accepted and changes nothing.
    pub fn resume(&mut self, site: &Site, reply: &Reply) -> (accepted: bool)
        ensures
            match resumed(*site, old(self)@, *reply) {
                Some(plan) => accepted && final(self)@ == plan,
                None => !accepted && final(self)@ == old(self)@,
            },
    {
        if self.steps.len() == 0 {
            return false;
        }
        let ghost before = self@;
        let first: Instr<String> = self.steps.remove(0);
        let ghost rest = self@;
        assert(before[0] == first@);
        assert(before.drop_first() =~= rest);
        assert(rest.insert(0, first@) =~= before);
        match first {
            Instr::End(outcome) => {
                self.steps.insert(0, Instr::End(outcome));
                assert(self@ =~= rest.insert(0, first@));
                false
            },
            Instr::Do { action, then } => match then {
                Then::Proceed => true,
                Then::Require => {
                    if let Reply::Failed(f) = reply {
                        self.fail(copy_fault(f));
                    }
                    true
                },
                Then::RequireAs(context) => {
                    if let Reply::Failed(f) = reply {
                        self.fail(fault_under(f, context.as_str()));
                    }
                    true
                },
                Then::Ask(point) => {
                    if let Reply::Failed(f) = reply {
                        self.fail(copy_fault(f));
                        return true;
                    }
                    match decide(site, point, reply) {
                        Ok(script) => {
                            self.precede(script);
                            true
                        },
                        Err(back) => {
                            self.steps.insert(0, Instr::Do { action, then: Then::Ask(back) });
                            assert(self@ =~= rest.insert(0, first@));
                            false
                        },
                    }
                },
                Then::Judge(point) => match decide(site, point, reply) {
                    Ok(script) => {
                        self.precede(script);
                        true
                    },
                    Err(back) => {
                        self.steps.insert(0, Instr::Do { action, then: Then::Judge(back) });
                        assert(self@ =~= rest.insert(0, first@));
                        false
                    },
                },
            },
        }
    }

    fn fail(&mut self, f: Fault<String>)
        ensures
            final(self)@ == failed(f@),
    {
        let mut steps: Vec<Instr<String>> = Vec::new();
        steps.push(Instr::End(Outcome::Failed(f)));
        self.steps = steps;
        assert(self@ =~= failed(f@));
    }

    fn precede(&mut self, script: Script)
        ensures
            final(self)@ == script@ + old(self)@,
    {
        let mut steps: Vec<Instr<String>> = script.into_steps();
        let ghost decided = steps@;
        steps.append(&mut self.steps);
        self.steps = steps;
        assert(self@ =~= script@ + old(self)@);
    }
}

} // verus!
