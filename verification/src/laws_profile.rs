//! Laws of the profile commands.
use vstd::prelude::*;

use crate::cli::opening;
use crate::commands::{Cmd, ProfileCmd};
use crate::decide::decision;
use crate::model::{Reply, Site};
use crate::order::{lemma_rule, Rule};
use crate::plan::{go, must, Action, Instr, Op, Outcome, Point};
use crate::session::ended;
use crate::trace::{course, succeeded, witnessed, Course, Exchange};

verus! {

/// The course of a command that applies a profile.
pub open spec fn apply_course(
    site: Site,
    name: String,
    write: bool,
    replies: Seq<Reply>,
) -> Course {
    course(site, Cmd::Profile { action: ProfileCmd::Apply { name, write } }, replies)
}

/// The decision on the profile that was looked up.
spec fn apply_point(point: Point<Seq<char>>, name: Seq<char>, write: bool) -> bool {
    point == (Point::ApplyProfile { name, write })
}

/// Law: a dry run looks a profile up, prints, and does nothing else.
pub proof fn law_dry_run_only_prints(
    site: Site,
    name: String,
    replies: Seq<Reply>,
    action: Action<Seq<char>>,
)
    requires
        apply_course(site, name, false, replies).handed(action),
    ensures
        action is Println || action == Action::FindProfile(name@),
{
    let rule = Rule {
        held: |a: Action<Seq<char>>| !(a is Println || a == Action::FindProfile(name@)),
        at: |a: Action<Seq<char>>, point: Point<Seq<char>>| apply_point(point, name@, false),
        ..Rule::plain()
    };
    let cmd = Cmd::Profile { action: ProfileCmd::Apply { name, write: false } };
    assert(rule.ordered(opening(site, cmd)));
    assert(rule.closed(site));
    lemma_rule(site, cmd, replies, rule);
}

/// Law: a profile is applied only once it was validated as a whole.
pub proof fn law_profile_is_validated_first(
    site: Site,
    name: String,
    write: bool,
    replies: Seq<Reply>,
)
    requires
        apply_course(site, name, write, replies).did(Op::ApplyProfile),
    ensures
        write,
        succeeded(
            apply_course(site, name, write, replies).history,
            Action::Host(Op::ValidateProfile),
        ),
{
    if !write {
        law_dry_run_only_prints(site, name, replies, Action::Host(Op::ApplyProfile));
    }
    let rule = Rule {
        held: |a: Action<Seq<char>>| a == Action::<Seq<char>>::Host(Op::ApplyProfile),
        key: |e: Exchange|
            e.action == Action::<Seq<char>>::Host(Op::ValidateProfile) && !(e.reply is Failed),
        at: |a: Action<Seq<char>>, point: Point<Seq<char>>| apply_point(point, name@, write),
        ..Rule::plain()
    };
    let cmd = Cmd::Profile { action: ProfileCmd::Apply { name, write } };
    assert(rule.ordered(opening(site, cmd)));
    lemma_behind(site, name@, write, rule, Op::ValidateProfile);
    lemma_rule(site, cmd, replies, rule);
}

/// A rule whose key is one of the required steps of a profile, and which holds back only what
/// stands behind that step.
proof fn lemma_behind(site: Site, name: Seq<char>, write: bool, rule: Rule, op: Op)
    requires
        op == Op::ValidateProfile || op == Op::ApplyProfile,
        forall|e: Exchange| #[trigger]
            (rule.key)(e) <==> e.action == Action::<Seq<char>>::Host(op) && !(e.reply is Failed),
        forall|a: Action<Seq<char>>, point: Point<Seq<char>>| #[trigger]
            (rule.at)(a, point) ==> apply_point(point, name, write),
        forall|o: Outcome<Seq<char>>| !(#[trigger] (rule.held_end)(o)),
        forall|a: Action<Seq<char>>| #[trigger]
            (rule.held)(a) ==> (a == Action::<Seq<char>>::Host(Op::ApplyProfile) && op
                == Op::ValidateProfile) || a == Action::<Seq<char>>::Host(Op::ArmCu) || a
                == Action::<Seq<char>>::Host(Op::DisarmCu),
    ensures
        rule.closed(site),
{
    assert forall|action: Action<Seq<char>>, point: Point<Seq<char>>, reply: Reply|
        #![trigger (rule.at)(action, point), decision(site, point, reply)]
        (rule.at)(action, point) && decision(site, point, reply) is Some implies (rule.key)(
        Exchange { action, reply },
    ) || rule.decides(point, decision(site, point, reply)->0) by {
        let decided = decision(site, point, reply)->0;
        if let Reply::Profile(Some(p)) = reply {
            let shown: int = 1 + p.plan@.len() as int;
            if write {
                let i: int = if op == Op::ValidateProfile {
                    shown
                } else {
                    shown + 2
                };
                assert(decided[i] == must(op));
                assert(rule.opens(decided[i]));
                assert forall|k: int| 0 <= k < decided.len() implies rule.free(
                    #[trigger] decided[k],
                ) || rule.behind(decided, k) by {
                    if k < shown {
                        assert(decided[k] matches Instr::Do { action: a, then } && a is
                            Println && then is Proceed);
                    } else if k == shown {
                        assert(decided[k] == must(Op::ValidateProfile));
                    } else if k == shown + 1 {
                        assert(decided[k] == go(Op::OpenOc));
                    } else if k == shown + 2 {
                        assert(decided[k] == must(Op::ApplyProfile));
                    }
                }
            }
        }
    }
}

/// Law: the 40 CUs are armed or disarmed last, once the profile was applied.
pub proof fn law_cus_are_armed_last(
    site: Site,
    name: String,
    write: bool,
    replies: Seq<Reply>,
    op: Op,
)
    requires
        op is ArmCu || op is DisarmCu,
        apply_course(site, name, write, replies).did(op),
    ensures
        succeeded(
            apply_course(site, name, write, replies).history,
            Action::Host(Op::ApplyProfile),
        ),
{
    let rule = Rule {
        held: |a: Action<Seq<char>>| a == Action::<Seq<char>>::Host(op),
        key: |e: Exchange|
            e.action == Action::<Seq<char>>::Host(Op::ApplyProfile) && !(e.reply is Failed),
        at: |a: Action<Seq<char>>, point: Point<Seq<char>>| apply_point(point, name@, write),
        ..Rule::plain()
    };
    let cmd = Cmd::Profile { action: ProfileCmd::Apply { name, write } };
    assert(rule.ordered(opening(site, cmd)));
    lemma_behind(site, name@, write, rule, Op::ApplyProfile);
    lemma_rule(site, cmd, replies, rule);
}

/// Whether an exchange finds a profile that asks for the CUs to be armed, or disarmed.
pub open spec fn profile_arms(e: Exchange, armed: bool) -> bool {
    &&& e.action is FindProfile
    &&& e.reply matches Reply::Profile(Some(p))
    &&& p.cu_40 == Some(armed)
}

/// Law: the 40 CUs are armed, or disarmed, only where the profile says so.
pub proof fn law_cus_are_armed_by_the_profile(
    site: Site,
    name: String,
    write: bool,
    replies: Seq<Reply>,
    armed: bool,
)
    requires
        apply_course(site, name, write, replies).did(
            if armed {
                Op::ArmCu
            } else {
                Op::DisarmCu
            },
        ),
    ensures
        witnessed(
            apply_course(site, name, write, replies).history,
            |e: Exchange| profile_arms(e, armed),
        ),
{
    let op = if armed {
        Op::ArmCu
    } else {
        Op::DisarmCu
    };
    let rule = Rule {
        held: |a: Action<Seq<char>>| a == Action::<Seq<char>>::Host(op),
        key: |e: Exchange| profile_arms(e, armed),
        at: |a: Action<Seq<char>>, point: Point<Seq<char>>|
            apply_point(point, name@, write) && a is FindProfile,
        ..Rule::plain()
    };
    let cmd = Cmd::Profile { action: ProfileCmd::Apply { name, write } };
    assert(rule.ordered(opening(site, cmd)));
    assert(rule.closed(site));
    lemma_rule(site, cmd, replies, rule);
}

/// Law: a profile whose application ends in success was applied.
pub proof fn law_apply_success(site: Site, name: String, replies: Seq<Reply>)
    requires
        ended(apply_course(site, name, true, replies).plan) == Some(
            Outcome::<Seq<char>>::Success,
        ),
    ensures
        succeeded(
            apply_course(site, name, true, replies).history,
            Action::Host(Op::ApplyProfile),
        ),
{
    let rule = Rule {
        held_end: |o: Outcome<Seq<char>>| o is Success,
        key: |e: Exchange|
            e.action == Action::<Seq<char>>::Host(Op::ApplyProfile) && !(e.reply is Failed),
        at: |a: Action<Seq<char>>, point: Point<Seq<char>>| apply_point(point, name@, true),
        ..Rule::plain()
    };
    let cmd = Cmd::Profile { action: ProfileCmd::Apply { name, write: true } };
    assert(rule.settles(opening(site, cmd)[0]));
    assert(rule.ordered(opening(site, cmd)));
    assert forall|action: Action<Seq<char>>, point: Point<Seq<char>>, reply: Reply|
        #![trigger (rule.at)(action, point), decision(site, point, reply)]
        (rule.at)(action, point) && decision(site, point, reply) is Some implies (rule.key)(
        Exchange { action, reply },
    ) || rule.decides(point, decision(site, point, reply)->0) by {
        let decided = decision(site, point, reply)->0;
        if let Reply::Profile(Some(p)) = reply {
            let i = 3 + p.plan@.len() as int;
            assert(decided[i] == must(Op::ApplyProfile));
            assert(rule.settles(decided[i]));
        } else {
            assert(rule.settles(decided[0]));
        }
    }
    lemma_rule(site, cmd, replies, rule);
}

} // verus!
