//! Laws of the kernel builds.
use std::path::PathBuf;
use vstd::prelude::*;

use crate::cli::opening;
use crate::commands::{Cmd, LiberateTier};
use crate::decide::decision;
use crate::liberate::chosen_tier;
use crate::model::{Reply, Site};
use crate::order::{lemma_rule, Rule};
use crate::plan::{maybe, Action, BuildRequest, Op, Outcome, Point};
use crate::scan::trim;
use crate::session::ended;
use crate::trace::{answered, course, witnessed, Course, Exchange};

verus! {

/// The course of a guided liberation.
pub open spec fn liberate_course(
    site: Site,
    pkgbuild: Option<PathBuf>,
    target: Option<String>,
    tier: Option<LiberateTier>,
    run: bool,
    replies: Seq<Reply>,
) -> Course {
    course(site, Cmd::Liberate { pkgbuild, target, tier, run }, replies)
}

/// The decisions of a liberation with this tier.
spec fn liberate_point(
    point: Point<Seq<char>>,
    request: BuildRequest<Seq<char>>,
    tier: Option<LiberateTier>,
) -> bool {
    match point {
        Point::LiberateBoard { request: r, tier: t } => r == request && t == tier,
        Point::LiberateReport { request: r, tier: t } => r == request && t == tier,
        Point::TierTty(r) => r == request && tier is None,
        Point::TierLine(r) => r == request && tier is None,
        _ => false,
    }
}

/// Law: a guided liberation builds only on a BC-250.
pub proof fn law_only_a_bc250_is_liberated(
    site: Site,
    pkgbuild: Option<PathBuf>,
    target: Option<String>,
    tier: Option<LiberateTier>,
    run: bool,
    replies: Seq<Reply>,
    build: Action<Seq<char>>,
)
    requires
        build is Build,
        liberate_course(site, pkgbuild, target, tier, run, replies).handed(build),
    ensures
        answered(
            liberate_course(site, pkgbuild, target, tier, run, replies).history,
            Action::Host(Op::ApuPresent),
            Reply::Flag(true),
        ),
{
    let rule = Rule {
        held: |a: Action<Seq<char>>| a is Build,
        key: |e: Exchange|
            e.action == Action::<Seq<char>>::Host(Op::ApuPresent) && e.reply == Reply::Flag(true),
        at: |a: Action<Seq<char>>, point: Point<Seq<char>>|
            point is LiberateBoard && a == Action::<Seq<char>>::Host(Op::ApuPresent),
        ..Rule::plain()
    };
    let cmd = Cmd::Liberate { pkgbuild, target, tier, run };
    assert(rule.ordered(opening(site, cmd)));
    assert(rule.closed(site));
    lemma_rule(site, cmd, replies, rule);
}

/// Whether an exchange shows that some of the series is not live.
pub open spec fn series_incomplete(e: Exchange) -> bool {
    &&& e.action == Action::<Seq<char>>::Host(Op::PatchReport)
    &&& e.reply matches Reply::Report(rep)
    &&& !rep.fully_patched
}

/// Law: a kernel with the full series live is not built again.
pub proof fn law_full_series_is_not_rebuilt(
    site: Site,
    pkgbuild: Option<PathBuf>,
    target: Option<String>,
    tier: Option<LiberateTier>,
    run: bool,
    replies: Seq<Reply>,
    build: Action<Seq<char>>,
)
    requires
        build is Build,
        liberate_course(site, pkgbuild, target, tier, run, replies).handed(build),
    ensures
        witnessed(
            liberate_course(site, pkgbuild, target, tier, run, replies).history,
            |e: Exchange| series_incomplete(e),
        ),
{
    let rule = Rule {
        held: |a: Action<Seq<char>>| a is Build,
        key: |e: Exchange| series_incomplete(e),
        at: |a: Action<Seq<char>>, point: Point<Seq<char>>|
            point is LiberateBoard || (point is LiberateReport && a == Action::<Seq<char>>::Host(
                Op::PatchReport,
            )),
        ..Rule::plain()
    };
    let cmd = Cmd::Liberate { pkgbuild, target, tier, run };
    assert(rule.ordered(opening(site, cmd)));
    assert(rule.closed(site));
    lemma_rule(site, cmd, replies, rule);
}

/// The CU write mode of a tier with a kernel.
pub open spec fn tier_mode(tier: LiberateTier) -> Option<u32> {
    match tier {
        LiberateTier::Full => Some(3),
        LiberateTier::TuningOnly => Some(0),
        LiberateTier::InspectOnly => None,
    }
}

/// Law: a tier on the command line is the one that is built, with the build as it was asked for;
/// inspect-only builds nothing.
pub proof fn law_given_tier_is_built(
    site: Site,
    pkgbuild: Option<PathBuf>,
    target: Option<String>,
    tier: LiberateTier,
    run: bool,
    replies: Seq<Reply>,
    request: BuildRequest<Seq<char>>,
    cc_mode: Option<u32>,
)
    requires
        liberate_course(site, pkgbuild, target, Some(tier), run, replies).handed(
            Action::Build { request, cc_mode },
        ),
    ensures
        !(tier is InspectOnly),
        request == (BuildRequest { pkgbuild, target: maybe(target), run }),
        cc_mode == tier_mode(tier),
{
    let asked = BuildRequest { pkgbuild, target: maybe(target), run };
    let rule = Rule {
        held: |a: Action<Seq<char>>|
            a matches Action::Build { request: r, cc_mode: m } && !(r == asked && m == tier_mode(
                tier,
            ) && !(tier is InspectOnly)),
        at: |a: Action<Seq<char>>, point: Point<Seq<char>>|
            liberate_point(point, asked, Some(tier)),
        ..Rule::plain()
    };
    let cmd = Cmd::Liberate { pkgbuild, target, tier: Some(tier), run };
    assert(rule.ordered(opening(site, cmd)));
    assert(rule.closed(site));
    lemma_rule(site, cmd, replies, rule);
}

/// Whether an exchange reads a line that names a tier with this CU write mode.
pub open spec fn tier_typed(e: Exchange, cc_mode: Option<u32>) -> bool {
    &&& e.action == Action::<Seq<char>>::Host(Op::ReadLine)
    &&& e.reply matches Reply::MaybeText(Some(line))
    &&& chosen_tier(trim(line@)) matches Some(tier)
    &&& !(tier is InspectOnly)
    &&& cc_mode == tier_mode(tier)
}

/// Law: a tier that was chosen at the prompt is built as the command line asked for it.
pub proof fn law_chosen_build_is_as_asked(
    site: Site,
    pkgbuild: Option<PathBuf>,
    target: Option<String>,
    run: bool,
    replies: Seq<Reply>,
    request: BuildRequest<Seq<char>>,
    cc_mode: Option<u32>,
)
    requires
        liberate_course(site, pkgbuild, target, None, run, replies).handed(
            Action::Build { request, cc_mode },
        ),
    ensures
        request == (BuildRequest { pkgbuild, target: maybe(target), run }),
{
    let asked = BuildRequest { pkgbuild, target: maybe(target), run };
    let none = Option::<LiberateTier>::None;
    let cmd = Cmd::Liberate { pkgbuild, target, tier: None, run };
    let rule = Rule {
        held: |a: Action<Seq<char>>|
            a matches Action::Build { request: r, cc_mode: m } && r != asked,
        at: |a: Action<Seq<char>>, point: Point<Seq<char>>| liberate_point(point, asked, none),
        ..Rule::plain()
    };
    assert(rule.ordered(opening(site, cmd)));
    assert(rule.closed(site));
    lemma_rule(site, cmd, replies, rule);
}

/// Law: without a tier on the command line, nothing is built unless standard input is a terminal.
pub proof fn law_prompt_needs_a_terminal(
    site: Site,
    pkgbuild: Option<PathBuf>,
    target: Option<String>,
    run: bool,
    replies: Seq<Reply>,
    request: BuildRequest<Seq<char>>,
    cc_mode: Option<u32>,
)
    requires
        liberate_course(site, pkgbuild, target, None, run, replies).handed(
            Action::Build { request, cc_mode },
        ),
    ensures
        answered(
            liberate_course(site, pkgbuild, target, None, run, replies).history,
            Action::Host(Op::StdinTty),
            Reply::Flag(true),
        ),
{
    let asked = BuildRequest { pkgbuild, target: maybe(target), run };
    let none = Option::<LiberateTier>::None;
    let cmd = Cmd::Liberate { pkgbuild, target, tier: None, run };
    let rule = Rule {
        held: |a: Action<Seq<char>>| a is Build,
        key: |e: Exchange|
            e.action == Action::<Seq<char>>::Host(Op::StdinTty) && e.reply == Reply::Flag(true),
        at: |a: Action<Seq<char>>, point: Point<Seq<char>>|
            liberate_point(point, asked, none) && !(point is TierLine) && (point is TierTty ==> a
                == Action::<Seq<char>>::Host(Op::StdinTty)),
        ..Rule::plain()
    };
    assert(rule.ordered(opening(site, cmd)));
    assert(rule.closed(site));
    lemma_rule(site, cmd, replies, rule);
}

/// Law: without a tier on the command line, nothing is built but the tier that was typed. An empty
/// line and the end of input decline.
pub proof fn law_typed_tier_is_built(
    site: Site,
    pkgbuild: Option<PathBuf>,
    target: Option<String>,
    run: bool,
    replies: Seq<Reply>,
    request: BuildRequest<Seq<char>>,
    cc_mode: Option<u32>,
)
    requires
        liberate_course(site, pkgbuild, target, None, run, replies).handed(
            Action::Build { request, cc_mode },
        ),
    ensures
        witnessed(
            liberate_course(site, pkgbuild, target, None, run, replies).history,
            |e: Exchange| tier_typed(e, cc_mode),
        ),
{
    let asked = BuildRequest { pkgbuild, target: maybe(target), run };
    let none = Option::<LiberateTier>::None;
    let cmd = Cmd::Liberate { pkgbuild, target, tier: None, run };
    let rule = Rule {
        held: |a: Action<Seq<char>>|
            a matches Action::Build { request: r, cc_mode: m } && m == cc_mode,
        key: |e: Exchange| tier_typed(e, cc_mode),
        at: |a: Action<Seq<char>>, point: Point<Seq<char>>|
            liberate_point(point, asked, none) && (point is TierLine ==> a == Action::<
                Seq<char>,
            >::Host(Op::ReadLine)),
        ..Rule::plain()
    };
    assert(rule.ordered(opening(site, cmd)));
    assert(rule.closed(site));
    lemma_rule(site, cmd, replies, rule);
}

/// Law: an answer that is empty but for white space names no tier with a kernel.
pub proof fn law_blank_answer_declines(line: Seq<char>)
    requires
        trim(line) == Seq::<char>::empty(),
    ensures
        chosen_tier(trim(line)) == Some(LiberateTier::InspectOnly),
{
    reveal_strlit("");
    reveal_strlit("1");
    reveal_strlit("full");
    reveal_strlit("2");
    reveal_strlit("tuning-only");
    reveal_strlit("tuning");
    assert(""@ =~= Seq::<char>::empty());
}

/// Whether an exchange builds the kernel, or shows that the full series is live already.
pub open spec fn kernel_there(e: Exchange) -> bool {
    ||| e.action is Build && !(e.reply is Failed)
    ||| e.action == Action::<Seq<char>>::Host(Op::PatchReport) && (e.reply matches Reply::Report(
        rep,
    ) && rep.fully_patched)
}

/// Law: a liberation with a tier that has a kernel succeeds only where the kernel was built, or
/// the full series is live already.
pub proof fn law_liberation_success(
    site: Site,
    pkgbuild: Option<PathBuf>,
    target: Option<String>,
    tier: LiberateTier,
    run: bool,
    replies: Seq<Reply>,
)
    requires
        !(tier is InspectOnly),
        ended(liberate_course(site, pkgbuild, target, Some(tier), run, replies).plan) == Some(
            Outcome::<Seq<char>>::Success,
        ),
    ensures
        witnessed(
            liberate_course(site, pkgbuild, target, Some(tier), run, replies).history,
            |e: Exchange| kernel_there(e),
        ),
{
    let asked = BuildRequest { pkgbuild, target: maybe(target), run };
    let rule = Rule {
        held_end: |o: Outcome<Seq<char>>| o is Success,
        key: |e: Exchange| kernel_there(e),
        at: |a: Action<Seq<char>>, point: Point<Seq<char>>|
            liberate_point(point, asked, Some(tier)) && (point is LiberateReport ==> a == Action::<
                Seq<char>,
            >::Host(Op::PatchReport)),
        ..Rule::plain()
    };
    let cmd = Cmd::Liberate { pkgbuild, target, tier: Some(tier), run };
    assert(rule.settles(opening(site, cmd)[0]));
    assert(rule.ordered(opening(site, cmd)));
    assert forall|a: Action<Seq<char>>, point: Point<Seq<char>>, reply: Reply|
        #![trigger (rule.at)(a, point), decision(site, point, reply)]
        (rule.at)(a, point) && decision(site, point, reply) is Some implies (rule.key)(
        Exchange { action: a, reply },
    ) || rule.decides(point, decision(site, point, reply)->0) by {
        let decided = decision(site, point, reply)->0;
        if !(rule.key)(Exchange { action: a, reply }) {
            if point is LiberateBoard {
                assert(rule.settles(decided[0]));
            } else {
                let i: int = if tier is Full {
                    0
                } else {
                    1
                };
                assert(rule.opens(decided[i]));
            }
        }
    }
    lemma_rule(site, cmd, replies, rule);
}

/// Whether an exchange declines at the prompt: standard input is no terminal, the input is at its
/// end, or the line that was typed asks for no kernel.
pub open spec fn declines(e: Exchange) -> bool {
    ||| e.action == Action::<Seq<char>>::Host(Op::StdinTty) && e.reply == Reply::Flag(false)
    ||| e.action == Action::<Seq<char>>::Host(Op::ReadLine) && e.reply == Reply::MaybeText(None)
    ||| e.action == Action::<Seq<char>>::Host(Op::ReadLine) && (e.reply matches Reply::MaybeText(
        Some(line),
    ) && (trim(line@) == ""@ || trim(line@) == "3"@ || trim(line@) == "inspect-only"@ || trim(line@)
        == "inspect"@))
}

/// Law: a liberation at the prompt succeeds only where the kernel was built, the full series is
/// live already, or the prompt was declined. A tier with a kernel that was typed is built.
pub proof fn law_prompted_liberation_success(
    site: Site,
    pkgbuild: Option<PathBuf>,
    target: Option<String>,
    run: bool,
    replies: Seq<Reply>,
)
    requires
        ended(liberate_course(site, pkgbuild, target, None, run, replies).plan) == Some(
            Outcome::<Seq<char>>::Success,
        ),
    ensures
        witnessed(
            liberate_course(site, pkgbuild, target, None, run, replies).history,
            |e: Exchange| kernel_there(e) || declines(e),
        ),
{
    let asked = BuildRequest { pkgbuild, target: maybe(target), run };
    let none = Option::<LiberateTier>::None;
    let rule = Rule {
        held_end: |o: Outcome<Seq<char>>| o is Success,
        key: |e: Exchange| kernel_there(e) || declines(e),
        at: |a: Action<Seq<char>>, point: Point<Seq<char>>|
            liberate_point(point, asked, none) && match point {
                Point::LiberateReport { .. } => a == Action::<Seq<char>>::Host(Op::PatchReport),
                Point::TierTty(_) => a == Action::<Seq<char>>::Host(Op::StdinTty),
                Point::TierLine(_) => a == Action::<Seq<char>>::Host(Op::ReadLine),
                _ => true,
            },
        ..Rule::plain()
    };
    let cmd = Cmd::Liberate { pkgbuild, target, tier: None, run };
    assert(rule.settles(opening(site, cmd)[0]));
    assert(rule.ordered(opening(site, cmd)));
    assert forall|a: Action<Seq<char>>, point: Point<Seq<char>>, reply: Reply|
        #![trigger (rule.at)(a, point), decision(site, point, reply)]
        (rule.at)(a, point) && decision(site, point, reply) is Some implies (rule.key)(
        Exchange { action: a, reply },
    ) || rule.decides(point, decision(site, point, reply)->0) by {
        let decided = decision(site, point, reply)->0;
        if !(rule.key)(Exchange { action: a, reply }) {
            match point {
                Point::LiberateBoard { .. } => {
                    assert(rule.settles(decided[0]));
                },
                Point::LiberateReport { .. } => {
                    assert(rule.settles(decided[6]));
                },
                Point::TierTty(_) => {
                    assert(rule.settles(decided[2]));
                },
                _ => {
                    if decided[0] is Do && decided[0]->action is Println {
                        assert(rule.opens(decided[1]));
                    } else {
                        assert(rule.settles(decided[0]));
                    }
                },
            }
        }
    }
    lemma_rule(site, cmd, replies, rule);
}

} // verus!
