//! Kernel builds: the guided liberation and its tier choice.
use vstd::prelude::*;

use crate::commands::LiberateTier;
use crate::model::PatchReport;
use crate::patches::{print_series, series_plan};
use crate::plan::{
    act, end, fail, must, put, say, Action, BuildRequest, Op, Outcome, Plan, Point, Script, Then,
};
use crate::scan::{trim, trimmed};
use crate::text::Line;

verus! {

/// A build with the default CU write mode.
pub open spec fn build_plan(request: BuildRequest<Seq<char>>) -> Plan {
    seq![act(Action::Build { request, cc_mode: None }, Then::Require)]
}

/// Opens a build.
pub fn cmd_build(request: BuildRequest<String>) -> (s: Script)
    ensures
        s@ == build_plan(request@),
{
    Script::new().act(Action::Build { request, cc_mode: None }, Then::Require)
}

/// A liberation first asks for the board.
pub open spec fn liberate_plan(
    request: BuildRequest<Seq<char>>,
    tier: Option<LiberateTier>,
) -> Plan {
    seq![act(Action::Host(Op::ApuPresent), Then::Ask(Point::LiberateBoard { request, tier }))]
}

/// Opens a liberation.
pub fn cmd_liberate(request: BuildRequest<String>, tier: Option<LiberateTier>) -> (s: Script)
    ensures
        s@ == liberate_plan(request@, tier),
{
    Script::new().act(
        Action::Host(Op::ApuPresent),
        Then::Ask(Point::LiberateBoard { request, tier }),
    )
}

/// No build is offered on another board.
pub open spec fn board_plan(
    request: BuildRequest<Seq<char>>,
    tier: Option<LiberateTier>,
    present: bool,
) -> Plan {
    if present {
        seq![act(Action::Host(Op::PatchReport), Then::Ask(Point::LiberateReport { request, tier }))]
    } else {
        seq![fail("not a BC-250 (PCI 1002:13fe not found) — nothing to liberate"@)]
    }
}

/// Goes on with a liberation once the board is known.
pub fn board(
    request: BuildRequest<String>,
    tier: Option<LiberateTier>,
    present: bool,
) -> (s: Script)
    ensures
        s@ == board_plan(request@, tier, present),
{
    if present {
        Script::new().act(
            Action::Host(Op::PatchReport),
            Then::Ask(Point::LiberateReport { request, tier }),
        )
    } else {
        Script::new().fail(
            Line::new("not a BC-250 (PCI 1002:13fe not found) — nothing to liberate"),
        )
    }
}

/// The choice of tiers, and the question whether somebody is there to choose.
pub open spec fn prompt_plan(request: BuildRequest<Seq<char>>) -> Plan {
    seq![
        say("liberation tiers:"@),
        say("  1) full          patched kernel + route all 40 CUs (bc250_cc_write_mode=3)"@),
        say("  2) tuning-only   patched kernel, CU routing OFF (bc250_cc_write_mode=0):"@),
        say("                   telemetry + GPU clock + CPU OC without the 40-CU route"@),
        say("                   (ROCm OpenCL is unstable at 40 CU on gfx1013)"@),
        say("  3) inspect-only  report patch state, change nothing  [default]"@),
        act(Action::Host(Op::StdinTty), Then::Ask(Point::TierTty(request))),
    ]
}

/// Asks which tier to apply.
pub fn prompt_tier(request: BuildRequest<String>) -> (s: Script)
    ensures
        s@ == prompt_plan(request@),
{
    Script::new().tell("liberation tiers:").tell(
        "  1) full          patched kernel + route all 40 CUs (bc250_cc_write_mode=3)",
    ).tell("  2) tuning-only   patched kernel, CU routing OFF (bc250_cc_write_mode=0):").tell(
        "                   telemetry + GPU clock + CPU OC without the 40-CU route",
    ).tell("                   (ROCm OpenCL is unstable at 40 CU on gfx1013)").tell(
        "  3) inspect-only  report patch state, change nothing  [default]",
    ).act(Action::Host(Op::StdinTty), Then::Ask(Point::TierTty(request)))
}

/// What a tier does before the decline path, which is what is left of the plan: a tier with a
/// kernel builds it and ends the command.
pub open spec fn tier_plan(request: BuildRequest<Seq<char>>, tier: LiberateTier) -> Plan {
    match tier {
        LiberateTier::InspectOnly => Plan::empty(),
        LiberateTier::Full => seq![
            act(Action::Build { request, cc_mode: Some(3) }, Then::Require),
            end(Outcome::Success),
        ],
        LiberateTier::TuningOnly => seq![
            say(
                "tuning-only: same patched kernel, bc250_cc_write_mode=0 (40-CU routing stays off; `arieltune apu cu enable` arms it later)"@,
            ),
            act(Action::Build { request, cc_mode: Some(0) }, Then::Require),
            end(Outcome::Success),
        ],
    }
}

/// Enacts a tier.
pub fn enact_tier(request: BuildRequest<String>, tier: LiberateTier) -> (s: Script)
    ensures
        s@ == tier_plan(request@, tier),
{
    match tier {
        LiberateTier::InspectOnly => Script::new(),
        LiberateTier::Full => Script::new().act(
            Action::Build { request, cc_mode: Some(3) },
            Then::Require,
        ).end(Outcome::Success),
        LiberateTier::TuningOnly => Script::new().tell(
            "tuning-only: same patched kernel, bc250_cc_write_mode=0 (40-CU routing stays off; `arieltune apu cu enable` arms it later)",
        ).act(Action::Build { request, cc_mode: Some(0) }, Then::Require).end(Outcome::Success),
    }
}

/// The decline path: the patch state, and nothing changed.
pub open spec fn decline_plan(rep: PatchReport) -> Plan {
    seq![say("inspect-only — no kernel changes."@)] + series_plan(rep) + seq![
        say("\nre-run `arieltune apu liberate` (or `arieltune apu build`) when ready."@),
    ]
}

fn decline(rep: &PatchReport) -> (s: Script)
    ensures
        s@ == decline_plan(*rep),
{
    Script::new().tell("inspect-only — no kernel changes.").and(print_series(rep)).and(
        Script::new().tell("\nre-run `arieltune apu liberate` (or `arieltune apu build`) when ready."),
    )
}

/// A full series leaves nothing to do; else the tier that was given or chosen is enacted, and
/// declining is what is left.
pub open spec fn liberate_report_plan(
    request: BuildRequest<Seq<char>>,
    tier: Option<LiberateTier>,
    rep: PatchReport,
) -> Plan {
    if rep.fully_patched {
        seq![say("liberation series already live — nothing to do."@)] + series_plan(rep)
    } else {
        let choice = match tier {
            Some(t) => tier_plan(request, t),
            None => prompt_plan(request),
        };
        choice + decline_plan(rep)
    }
}

/// Goes on with a liberation once the report is there.
pub fn liberate_report(
    request: BuildRequest<String>,
    tier: Option<LiberateTier>,
    rep: &PatchReport,
) -> (s: Script)
    ensures
        s@ == liberate_report_plan(request@, tier, *rep),
{
    if rep.fully_patched {
        return Script::new().tell("liberation series already live — nothing to do.").and(
            print_series(rep),
        );
    }
    let choice: Script = match tier {
        Some(t) => enact_tier(request, t),
        None => prompt_tier(request),
    };
    choice.and(decline(rep))
}

/// Without a terminal the choice is to decline.
pub open spec fn tty_plan(request: BuildRequest<Seq<char>>, tty: bool) -> Plan {
    if tty {
        seq![
            put("choose [1/2/3, default 3]: "@),
            must(Op::FlushStdout),
            act(Action::Host(Op::ReadLine), Then::Ask(Point::TierLine(request))),
        ]
    } else {
        seq![say("stdin is not a tty — taking the default (inspect-only)"@)] + tier_plan(
            request,
            LiberateTier::InspectOnly,
        )
    }
}

/// Goes on with the choice once it is known whether there is a terminal.
pub fn tier_tty(request: BuildRequest<String>, tty: bool) -> (s: Script)
    ensures
        s@ == tty_plan(request@, tty),
{
    if tty {
        Script::new().put("choose [1/2/3, default 3]: ").must(Op::FlushStdout).act(
            Action::Host(Op::ReadLine),
            Then::Ask(Point::TierLine(request)),
        )
    } else {
        Script::new().tell("stdin is not a tty — taking the default (inspect-only)").and(
            enact_tier(request, LiberateTier::InspectOnly),
        )
    }
}

/// The tier that an answer without white space around it names, if it names one.
pub open spec fn chosen_tier(answer: Seq<char>) -> Option<LiberateTier> {
    if answer == "1"@ || answer == "full"@ {
        Some(LiberateTier::Full)
    } else if answer == "2"@ || answer == "tuning-only"@ || answer == "tuning"@ {
        Some(LiberateTier::TuningOnly)
    } else if answer == ""@ || answer == "3"@ || answer == "inspect-only"@ || answer
        == "inspect"@ {
        Some(LiberateTier::InspectOnly)
    } else {
        None
    }
}

/// The tier that an answer without white space around it names, if it names one.
pub fn choose_tier(answer: &String) -> (tier: Option<LiberateTier>)
    ensures
        tier == chosen_tier(answer@),
{
    if *answer == "1".to_owned() || *answer == "full".to_owned() {
        Some(LiberateTier::Full)
    } else if *answer == "2".to_owned() || *answer == "tuning-only".to_owned() || *answer
        == "tuning".to_owned() {
        Some(LiberateTier::TuningOnly)
    } else if *answer == "".to_owned() || *answer == "3".to_owned() || *answer
        == "inspect-only".to_owned() || *answer == "inspect".to_owned() {
        Some(LiberateTier::InspectOnly)
    } else {
        None
    }
}

/// The end of input declines; an answer that names no tier is refused.
pub open spec fn line_plan(request: BuildRequest<Seq<char>>, line: Option<Seq<char>>) -> Plan {
    match line {
        None => seq![say(""@)] + tier_plan(request, LiberateTier::InspectOnly),
        Some(text) => match chosen_tier(trim(text)) {
            Some(tier) => tier_plan(request, tier),
            None => seq![fail("unrecognized choice '"@ + trim(text) + "' — nothing done"@)],
        },
    }
}

/// Goes on with the choice once a line was read.
pub fn tier_line(request: BuildRequest<String>, line: &Option<String>) -> (s: Script)
    ensures
        s@ == line_plan(request@, line.deep_view()),
{
    match line {
        None => Script::new().tell("").and(enact_tier(request, LiberateTier::InspectOnly)),
        Some(text) => {
            let answer: String = trimmed(text.as_str());
            match choose_tier(&answer) {
                Some(tier) => enact_tier(request, tier),
                None => Script::new().fail(
                    Line::new("unrecognized choice '").text(answer.as_str()).text(
                        "' — nothing done",
                    ),
                ),
            }
        },
    }
}

} // verus!
