//! Laws of the CPU commands.
use vstd::prelude::*;

use crate::cli::opening;
use crate::commands::{Cmd, CpuCmd};
use crate::cpu::overridden;
use crate::decide::decision;
use crate::model::{CpuOc, Reply, Site};
use crate::order::{lemma_rule, Rule};
use crate::plan::{Action, Op, Outcome, Point, Spot};
use crate::session::{ended, resumed};
use crate::trace::{course, succeeded, witnessed, Course, Exchange};

verus! {

/// The course of a CPU command.
pub open spec fn cpu_course(site: Site, action: CpuCmd, replies: Seq<Reply>) -> Course {
    course(site, Cmd::Cpu { action }, replies)
}

/// Law: a CPU command does nothing unless the overclock mailbox was opened.
pub proof fn law_cpu_needs_the_mailbox(
    site: Site,
    cmd: CpuCmd,
    replies: Seq<Reply>,
    action: Action<Seq<char>>,
)
    requires
        cpu_course(site, cmd, replies).handed(action),
        action != Action::<Seq<char>>::Host(Op::OpenOc),
    ensures
        succeeded(cpu_course(site, cmd, replies).history, Action::Host(Op::OpenOc)),
{
    let mailbox = Action::<Seq<char>>::Host(Op::OpenOc);
    let rule = Rule {
        held: |a: Action<Seq<char>>| a != mailbox,
        key: |e: Exchange| e.action == mailbox && !(e.reply is Failed),
        ..Rule::plain()
    };
    let plan = opening(site, Cmd::Cpu { action: cmd });
    assert(rule.opens(plan[0]));
    assert(rule.ordered(plan));
    assert(rule.closed(site));
    lemma_rule(site, Cmd::Cpu { action: cmd }, replies, rule);
}

/// Law: a CPU command whose mailbox cannot be opened fails, with that failure as the cause.
pub proof fn law_cpu_mailbox_failure(
    site: Site,
    cmd: CpuCmd,
    f: crate::model::Fault<String>,
)
    ensures
        ({
            let c = cpu_course(site, cmd, seq![Reply::Failed(f)]);
            ended(c.plan) == Some(
                Outcome::Failed(
                    f@.under("queue-3 OC mailbox not reachable (need root + a BC-250)"@),
                ),
            )
        }),
{
    let replies = seq![Reply::Failed(f)];
    let plan = opening(site, Cmd::Cpu { action: cmd });
    reveal_with_fuel(crate::trace::course_of, 2);
    assert(replies.drop_last() =~= Seq::<Reply>::empty());
    assert(resumed(site, plan, Reply::Failed(f)) is Some);
}

/// Whether an exchange loads a CPU point that becomes `point` by the values that were given alone.
pub open spec fn tune_taken(
    e: Exchange,
    boost: Option<u32>,
    scale: Option<i32>,
    cpu_temp: Option<u32>,
    gpu_temp: Option<u32>,
    point: CpuOc,
) -> bool {
    &&& e.action == Action::<Seq<char>>::Host(Op::LoadCpu)
    &&& e.reply matches Reply::Point(prev)
    &&& point == overridden(prev, boost, scale, cpu_temp, gpu_temp)
}

/// Law: what is not given keeps its value: the point that is persisted differs from the one that
/// was loaded in nothing but the values that were given.
pub proof fn law_tune_keeps_the_rest(
    site: Site,
    boost: Option<u32>,
    scale: Option<i32>,
    cpu_temp: Option<u32>,
    gpu_temp: Option<u32>,
    replies: Seq<Reply>,
    point: CpuOc,
)
    requires
        cpu_course(site, CpuCmd::Tune { boost, scale, cpu_temp, gpu_temp }, replies).did(
            Op::SaveCpu(point),
        ),
    ensures
        witnessed(
            cpu_course(site, CpuCmd::Tune { boost, scale, cpu_temp, gpu_temp }, replies).history,
            |e: Exchange| tune_taken(e, boost, scale, cpu_temp, gpu_temp, point),
        ),
{
    let rule = Rule {
        held: |a: Action<Seq<char>>| a == Action::<Seq<char>>::Host(Op::SaveCpu(point)),
        key: |e: Exchange| tune_taken(e, boost, scale, cpu_temp, gpu_temp, point),
        at: |a: Action<Seq<char>>, p: Point<Seq<char>>|
            p matches Point::At(spot) && match spot {
                Spot::CpuTune { boost: b, scale: s, cpu_temp: c, gpu_temp: g } => b == boost && s
                    == scale && c == cpu_temp && g == gpu_temp && a == Action::<Seq<char>>::Host(
                    Op::LoadCpu,
                ),
                Spot::CpuTuned(q) => q != point,
                Spot::CpuArmed => true,
                _ => false,
            },
        ..Rule::plain()
    };
    let cmd = Cmd::Cpu { action: CpuCmd::Tune { boost, scale, cpu_temp, gpu_temp } };
    assert(rule.ordered(opening(site, cmd)));
    assert(rule.closed(site));
    lemma_rule(site, cmd, replies, rule);
}

/// Whether an exchange applies a point, staged from the previous one.
pub open spec fn tune_applied(e: Exchange, point: CpuOc) -> bool {
    (e.action matches Action::Host(Op::ApplyCpuFrom { point: p, prev }) && p == point) && !(
    e.reply is Failed)
}

/// Law: a CPU point is persisted only once it was applied.
pub proof fn law_tune_applies_before_it_saves(
    site: Site,
    boost: Option<u32>,
    scale: Option<i32>,
    cpu_temp: Option<u32>,
    gpu_temp: Option<u32>,
    replies: Seq<Reply>,
    point: CpuOc,
)
    requires
        cpu_course(site, CpuCmd::Tune { boost, scale, cpu_temp, gpu_temp }, replies).did(
            Op::SaveCpu(point),
        ),
    ensures
        witnessed(
            cpu_course(site, CpuCmd::Tune { boost, scale, cpu_temp, gpu_temp }, replies).history,
            |e: Exchange| tune_applied(e, point),
        ),
{
    let rule = Rule {
        held: |a: Action<Seq<char>>| a == Action::<Seq<char>>::Host(Op::SaveCpu(point)),
        key: |e: Exchange| tune_applied(e, point),
        at: |a: Action<Seq<char>>, p: Point<Seq<char>>|
            p matches Point::At(spot) && match spot {
                Spot::CpuTune { .. } => true,
                Spot::CpuTuned(q) => q != point,
                Spot::CpuArmed => true,
                _ => false,
            },
        ..Rule::plain()
    };
    let cmd = Cmd::Cpu { action: CpuCmd::Tune { boost, scale, cpu_temp, gpu_temp } };
    assert(rule.ordered(opening(site, cmd)));
    assert(rule.closed(site));
    lemma_rule(site, cmd, replies, rule);
}

/// Law: the boot re-apply of a CPU point is armed only once a point was persisted.
pub proof fn law_tune_saves_before_it_arms(
    site: Site,
    boost: Option<u32>,
    scale: Option<i32>,
    cpu_temp: Option<u32>,
    gpu_temp: Option<u32>,
    replies: Seq<Reply>,
)
    requires
        cpu_course(site, CpuCmd::Tune { boost, scale, cpu_temp, gpu_temp }, replies).did(
            Op::ArmCpuOc,
        ),
    ensures
        witnessed(
            cpu_course(site, CpuCmd::Tune { boost, scale, cpu_temp, gpu_temp }, replies).history,
            |e: Exchange| cpu_persisted(e),
        ),
{
    let rule = Rule {
        held: |a: Action<Seq<char>>| a == Action::<Seq<char>>::Host(Op::ArmCpuOc),
        key: |e: Exchange| cpu_persisted(e),
        at: |a: Action<Seq<char>>, p: Point<Seq<char>>|
            p matches Point::At(spot) && (spot is CpuTune || spot is CpuTuned),
        ..Rule::plain()
    };
    let cmd = Cmd::Cpu { action: CpuCmd::Tune { boost, scale, cpu_temp, gpu_temp } };
    assert(rule.ordered(opening(site, cmd)));
    assert(rule.closed(site)) by {
        assert forall|action: Action<Seq<char>>, point: Point<Seq<char>>, reply: Reply|
            #![trigger (rule.at)(action, point), decision(site, point, reply)]
            (rule.at)(action, point) && decision(site, point, reply) is Some implies (rule.key)(
            Exchange { action, reply },
        ) || rule.decides(point, decision(site, point, reply)->0) by {
            let decided = decision(site, point, reply)->0;
            if point matches Point::At(spot) && spot is CpuTuned {
                assert(rule.opens(decided[decided.len() - 2]));
            }
        }
    }
    lemma_rule(site, cmd, replies, rule);
}

/// Whether an exchange persists a CPU point.
pub open spec fn cpu_persisted(e: Exchange) -> bool {
    (e.action matches Action::Host(op) && op is SaveCpu) && !(e.reply is Failed)
}

/// Law: an undervolt whose cap is above the ceiling changes nothing.
pub proof fn law_undervolt_cap_is_bounded(
    site: Site,
    boost: u32,
    vid_cap: u32,
    replies: Seq<Reply>,
    action: Action<Seq<char>>,
)
    requires
        vid_cap > site.vid_ceiling_mv,
        cpu_course(site, CpuCmd::Undervolt { boost, vid_cap }, replies).handed(action),
    ensures
        action == Action::<Seq<char>>::Host(Op::OpenOc),
{
    let rule = Rule {
        held: |a: Action<Seq<char>>| a != Action::<Seq<char>>::Host(Op::OpenOc),
        ..Rule::plain()
    };
    let cmd = Cmd::Cpu { action: CpuCmd::Undervolt { boost, vid_cap } };
    assert(rule.ordered(opening(site, cmd)));
    assert(rule.closed(site));
    lemma_rule(site, cmd, replies, rule);
}

/// Law: a name that no profile can have is refused before the sweep, which takes minutes of
/// stress, is begun.
pub proof fn law_detect_checks_the_name_first(
    site: Site,
    target: u32,
    vid_cap: u32,
    temp: u32,
    step: u32,
    dwell: u64,
    name: String,
    replies: Seq<Reply>,
    op: Op,
)
    requires
        op is DetectCpu,
        cpu_course(
            site,
            CpuCmd::Detect { target, vid_cap, temp, step, dwell, save: Some(name) },
            replies,
        ).did(op),
    ensures
        succeeded(
            cpu_course(
                site,
                CpuCmd::Detect { target, vid_cap, temp, step, dwell, save: Some(name) },
                replies,
            ).history,
            Action::CheckProfileName(name@),
        ),
{
    let rule = Rule {
        held: |a: Action<Seq<char>>| a == Action::<Seq<char>>::Host(op),
        key: |e: Exchange| e.action == Action::CheckProfileName(name@) && !(e.reply is Failed),
        ..Rule::plain()
    };
    let cmd = Cmd::Cpu {
        action: CpuCmd::Detect { target, vid_cap, temp, step, dwell, save: Some(name) },
    };
    let plan = opening(site, cmd);
    assert(rule.opens(plan[1]));
    assert(rule.ordered(plan));
    assert(rule.closed(site));
    lemma_rule(site, cmd, replies, rule);
}

/// Whether an exchange is a sweep with this highest stable point.
pub open spec fn swept(e: Exchange, point: CpuOc) -> bool {
    &&& e.action matches Action::Host(op)
    &&& op is DetectCpu
    &&& e.reply matches Reply::Detected(points, best)
    &&& best == Some(point)
}

/// Law: a profile is saved only with the highest stable point of the sweep, and only where that is
/// asked for, under the name that was given.
pub proof fn law_detect_saves_the_best_point(
    site: Site,
    target: u32,
    vid_cap: u32,
    temp: u32,
    step: u32,
    dwell: u64,
    save: Option<String>,
    replies: Seq<Reply>,
    name: Seq<char>,
    description: Seq<char>,
    cpu: CpuOc,
)
    requires
        cpu_course(
            site,
            CpuCmd::Detect { target, vid_cap, temp, step, dwell, save },
            replies,
        ).handed(Action::SaveProfile { name, description, cpu }),
    ensures
        crate::plan::maybe(save) == Some(name),
        witnessed(
            cpu_course(
                site,
                CpuCmd::Detect { target, vid_cap, temp, step, dwell, save },
                replies,
            ).history,
            |e: Exchange| swept(e, cpu),
        ),
{
    let asked = crate::plan::maybe(save);
    let named = Rule {
        held: |a: Action<Seq<char>>|
            a matches Action::SaveProfile { name: n, description: d, cpu: c } && asked != Some(n),
        at: |a: Action<Seq<char>>, p: Point<Seq<char>>|
            match p {
                Point::Detected(s) => s == asked,
                Point::DetectedVid { point, save: s } => s == asked,
                Point::ProfileSaved(_) => true,
                _ => false,
            },
        ..Rule::plain()
    };
    let best = Rule {
        held: |a: Action<Seq<char>>|
            a matches Action::SaveProfile { name: n, description: d, cpu: c } && c == cpu,
        key: |e: Exchange| swept(e, cpu),
        at: |a: Action<Seq<char>>, p: Point<Seq<char>>|
            match p {
                Point::Detected(_) => a matches Action::Host(op) && op is DetectCpu,
                Point::DetectedVid { point, save: s } => point != cpu,
                Point::ProfileSaved(_) => true,
                _ => false,
            },
        ..Rule::plain()
    };
    let cmd = Cmd::Cpu { action: CpuCmd::Detect { target, vid_cap, temp, step, dwell, save } };
    assert(named.ordered(opening(site, cmd)));
    assert(named.closed(site));
    lemma_rule(site, cmd, replies, named);
    assert(best.ordered(opening(site, cmd)));
    assert(best.closed(site));
    lemma_rule(site, cmd, replies, best);
}

/// Law: a re-apply applies the persisted point, and without one applies nothing.
pub proof fn law_reapply_applies_the_saved_point(
    site: Site,
    replies: Seq<Reply>,
    point: CpuOc,
)
    requires
        cpu_course(site, CpuCmd::ApplySaved, replies).did(Op::ApplyCpu(point)),
    ensures
        witnessed(
            cpu_course(site, CpuCmd::ApplySaved, replies).history,
            |e: Exchange|
                e.action == Action::<Seq<char>>::Host(Op::CpuSaved) && e.reply == Reply::Flag(true),
        ),
        witnessed(
            cpu_course(site, CpuCmd::ApplySaved, replies).history,
            |e: Exchange|
                e.action == Action::<Seq<char>>::Host(Op::LoadCpu) && e.reply == Reply::Point(
                    point,
                ),
        ),
{
    let there = Rule {
        held: |a: Action<Seq<char>>| a matches Action::Host(op) && op is ApplyCpu,
        key: |e: Exchange|
            e.action == Action::<Seq<char>>::Host(Op::CpuSaved) && e.reply == Reply::Flag(true),
        at: |a: Action<Seq<char>>, p: Point<Seq<char>>|
            p == Point::<Seq<char>>::At(Spot::CpuSaved) && a == Action::<Seq<char>>::Host(
                Op::CpuSaved,
            ),
        ..Rule::plain()
    };
    let loaded = Rule {
        held: |a: Action<Seq<char>>| a == Action::<Seq<char>>::Host(Op::ApplyCpu(point)),
        key: |e: Exchange|
            e.action == Action::<Seq<char>>::Host(Op::LoadCpu) && e.reply == Reply::Point(point),
        at: |a: Action<Seq<char>>, p: Point<Seq<char>>|
            p matches Point::At(spot) && match spot {
                Spot::CpuSaved => true,
                Spot::CpuReapply => a == Action::<Seq<char>>::Host(Op::LoadCpu),
                Spot::CpuReapplied(_) => true,
                _ => false,
            },
        ..Rule::plain()
    };
    let cmd = Cmd::Cpu { action: CpuCmd::ApplySaved };
    assert(there.ordered(opening(site, cmd)));
    assert(there.closed(site));
    lemma_rule(site, cmd, replies, there);
    assert(loaded.ordered(opening(site, cmd)));
    assert(loaded.closed(site));
    lemma_rule(site, cmd, replies, loaded);
}

/// Law: a restore forgets the persisted point, and disarms its boot re-apply, only once the firmware
/// defaults are back.
pub proof fn law_restore_comes_before_it_forgets(site: Site, replies: Seq<Reply>, op: Op)
    requires
        op == Op::ClearSavedCpu || op == Op::DisarmCpuOc,
        cpu_course(site, CpuCmd::Restore, replies).did(op),
    ensures
        succeeded(
            cpu_course(site, CpuCmd::Restore, replies).history,
            Action::Host(Op::RestoreCpu),
        ),
{
    let rule = Rule {
        held: |a: Action<Seq<char>>| a == Action::<Seq<char>>::Host(op),
        key: |e: Exchange|
            e.action == Action::<Seq<char>>::Host(Op::RestoreCpu) && !(e.reply is Failed),
        ..Rule::plain()
    };
    let cmd = Cmd::Cpu { action: CpuCmd::Restore };
    let plan = opening(site, cmd);
    assert(rule.opens(plan[1]));
    assert(rule.ordered(plan));
    assert(rule.closed(site));
    lemma_rule(site, cmd, replies, rule);
}

} // verus!
