//! Laws of the commands that only report, and of the preflight.
use vstd::prelude::*;

use crate::cli::opening;
use crate::commands::{Cmd, LiberateTier, ProfileCmd};
use crate::decide::decision;
use crate::model::{PatchReport, Reply, Site};
use crate::order::{lemma_rule, Rule};
use crate::patches::doctor_plan;
use crate::plan::{Action, Instr, Op, Outcome, Plan, Point, Spot, Then};
use crate::protocol::suits;
use crate::session::{ended, pending, resumed};
use crate::trace::{course, lemma_course, proper, witnessed, Exchange, History};

verus! {

/// Whether an action without text changes nothing on the machine.
pub open spec fn only_reads(op: Op) -> bool {
    match op {
        Op::ApuPresent => true,
        Op::PatchReport => true,
        Op::PatchSeries => true,
        Op::ReportJson => true,
        Op::CuArmed => true,
        Op::CuPersisted => true,
        Op::CuMap => true,
        Op::CurrentMasks => true,
        Op::RouteShape(_) => true,
        Op::RouteArmed => true,
        Op::LoadPower => true,
        Op::ModeName(_) => true,
        Op::TelemetryNode => true,
        Op::CurrentSclk => true,
        Op::GpuUnitInstalled => true,
        Op::OpenOc => true,
        Op::CpuLive => true,
        Op::GpuVoltage => true,
        Op::CpuOcArmed => true,
        Op::AllProfiles => true,
        _ => false,
    }
}

/// Whether an action changes nothing on the machine but what is on the screen.
pub open spec fn harmless(action: Action<Seq<char>>) -> bool {
    match action {
        Action::Print(_) => true,
        Action::Println(_) => true,
        Action::Eprintln(_) => true,
        Action::FindProfile(_) => true,
        Action::Host(op) => only_reads(op),
        _ => false,
    }
}

/// Whether a command only reports.
pub open spec fn reports(cmd: Cmd) -> bool {
    match cmd {
        Cmd::Patches { .. } => true,
        Cmd::Cumap => true,
        Cmd::Cu { action } => action is Status,
        Cmd::Gpu { action } => action is Status || action is Telemetry,
        Cmd::Cpu { action } => action is Status,
        Cmd::Liberate { pkgbuild, target, tier, run } => tier == Some(LiberateTier::InspectOnly),
        Cmd::Profile { action } => match action {
            ProfileCmd::List => true,
            ProfileCmd::Show { name } => true,
            ProfileCmd::Apply { name, write } => !write,
            ProfileCmd::Delete { name } => false,
        },
        Cmd::Doctor { .. } => true,
        Cmd::Build { .. } => false,
    }
}

/// The decisions of the commands that only report, on the patches, the profiles and the CUs.
spec fn listing_spot(spot: Spot) -> bool {
    match spot {
        Spot::Patches => true,
        Spot::Cumap => true,
        Spot::ListProfiles => true,
        Spot::CuArmed => true,
        Spot::CuPersisted => true,
        Spot::CuStatusMap => true,
        Spot::LiveRoute => true,
        Spot::LiveShape(_) => true,
        Spot::RouteArmed => true,
        _ => false,
    }
}

/// The decisions of the commands that only report, on the live state.
spec fn status_spot(spot: Spot) -> bool {
    match spot {
        Spot::GpuStatus => true,
        Spot::StatusMode => true,
        Spot::StatusClock => true,
        Spot::StatusSclk => true,
        Spot::Telemetry => true,
        Spot::CpuStatus => true,
        Spot::CpuGpuVid => true,
        Spot::CpuBoot => true,
        _ => false,
    }
}

/// The decisions of the preflight.
spec fn doctor_spot(spot: Spot) -> bool {
    match spot {
        Spot::Doctor { .. } => true,
        Spot::DoctorJson { .. } => true,
        Spot::DoctorMap => true,
        Spot::DoctorPower => true,
        Spot::DoctorGpuUnit => true,
        Spot::DoctorCpuUnit { .. } => true,
        Spot::DoctorRouteUnit { .. } => true,
        Spot::DoctorMode => true,
        _ => false,
    }
}

/// The decisions of the commands that only report, by name.
spec fn named_point(point: Point<Seq<char>>) -> bool {
    match point {
        Point::ShowPatch(_) => true,
        Point::ShowProfile(_) => true,
        Point::ApplyProfile { name, write } => !write,
        Point::LiberateBoard { request, tier } => tier == Some(LiberateTier::InspectOnly),
        Point::LiberateReport { request, tier } => tier == Some(LiberateTier::InspectOnly),
        _ => false,
    }
}

spec fn report_point(point: Point<Seq<char>>) -> bool {
    match point {
        Point::At(spot) => listing_spot(spot) || status_spot(spot) || doctor_spot(spot),
        _ => named_point(point),
    }
}

spec fn report_rule() -> Rule {
    Rule {
        held: |a: Action<Seq<char>>| !harmless(a),
        at: |a: Action<Seq<char>>, point: Point<Seq<char>>| report_point(point),
        ..Rule::plain()
    }
}

proof fn lemma_listing(site: Site, spot: Spot, reply: Reply)
    requires
        listing_spot(spot),
        decision(site, Point::At(spot), reply) is Some,
    ensures
        report_rule().ordered(decision(site, Point::At(spot), reply)->0),
{
}

proof fn lemma_status(site: Site, spot: Spot, reply: Reply)
    requires
        status_spot(spot),
        decision(site, Point::At(spot), reply) is Some,
    ensures
        report_rule().ordered(decision(site, Point::At(spot), reply)->0),
{
}

proof fn lemma_doctor(site: Site, spot: Spot, reply: Reply)
    requires
        doctor_spot(spot),
        decision(site, Point::At(spot), reply) is Some,
    ensures
        report_rule().ordered(decision(site, Point::At(spot), reply)->0),
{
}

proof fn lemma_named(site: Site, point: Point<Seq<char>>, reply: Reply)
    requires
        named_point(point),
        decision(site, point, reply) is Some,
    ensures
        report_rule().ordered(decision(site, point, reply)->0),
{
}

/// Law: the commands that only report change nothing on the machine.
pub proof fn law_reports_change_nothing(
    site: Site,
    cmd: Cmd,
    replies: Seq<Reply>,
    action: Action<Seq<char>>,
)
    requires
        reports(cmd),
        course(site, cmd, replies).handed(action),
    ensures
        harmless(action),
{
    let rule = report_rule();
    assert(rule.ordered(opening(site, cmd)));
    assert forall|a: Action<Seq<char>>, point: Point<Seq<char>>, reply: Reply|
        #![trigger (rule.at)(a, point), decision(site, point, reply)]
        (rule.at)(a, point) && decision(site, point, reply) is Some implies (rule.key)(
        Exchange { action: a, reply },
    ) || rule.decides(point, decision(site, point, reply)->0) by {
        match point {
            Point::At(spot) => {
                if listing_spot(spot) {
                    lemma_listing(site, spot, reply);
                } else if status_spot(spot) {
                    lemma_status(site, spot, reply);
                } else {
                    lemma_doctor(site, spot, reply);
                }
            },
            _ => {
                lemma_named(site, point, reply);
            },
        }
    }
    lemma_rule(site, cmd, replies, rule);
}

/// Whether an action writes to the terminal.
pub open spec fn writes(action: Action<Seq<char>>) -> bool {
    action is Print || action is Println || action is Eprintln
}

/// Whether an exchange gives the report as this text.
pub open spec fn json_given(e: Exchange, text: Seq<char>) -> bool {
    &&& e.action == Action::<Seq<char>>::Host(Op::ReportJson)
    &&& e.reply matches Reply::Text(json)
    &&& json@ == text
}

/// Law: a preflight for a machine writes the JSON object and nothing else.
pub proof fn law_json_is_all_that_is_written(
    site: Site,
    verify: bool,
    replies: Seq<Reply>,
    action: Action<Seq<char>>,
)
    requires
        writes(action),
        course(site, Cmd::Doctor { json: true, verify }, replies).handed(action),
    ensures
        action matches Action::Println(text) && witnessed(
            course(site, Cmd::Doctor { json: true, verify }, replies).history,
            |e: Exchange| json_given(e, text),
        ),
{
    let cmd = Cmd::Doctor { json: true, verify };
    let line = Rule {
        held: |a: Action<Seq<char>>| a is Print || a is Eprintln,
        at: |a: Action<Seq<char>>, point: Point<Seq<char>>|
            point matches Point::At(spot) && match spot {
                Spot::Doctor { json, verify: v } => json,
                Spot::DoctorJson { .. } => true,
                _ => false,
            },
        ..Rule::plain()
    };
    assert(line.ordered(opening(site, cmd)));
    assert(line.closed(site));
    lemma_rule(site, cmd, replies, line);
    if let Action::Println(text) = action {
        let given = Rule {
            held: |a: Action<Seq<char>>| a == Action::Println(text),
            key: |e: Exchange| json_given(e, text),
            at: |a: Action<Seq<char>>, point: Point<Seq<char>>|
                point matches Point::At(spot) && match spot {
                    Spot::Doctor { json, verify: v } => json,
                    Spot::DoctorJson { .. } => a == Action::<Seq<char>>::Host(Op::ReportJson),
                    _ => false,
                },
            ..Rule::plain()
        };
        assert(given.ordered(opening(site, cmd)));
        assert(given.closed(site));
        lemma_rule(site, cmd, replies, given);
    }
}

/// Where a preflight for a machine can be: the report, the JSON object, its line, and the verdict.
spec fn json_state(verify: bool, plan: Plan, history: History) -> bool {
    ||| history.len() == 0 && plan == doctor_plan(true, verify)
    ||| history.len() == 1 && !writes(history[0].action) && (pending(plan) is None
        || asks_for_json(plan))
    ||| history.len() == 2 && !writes(history[0].action) && !writes(history[1].action) && (pending(
        plan,
    ) is None && !(history[1].reply is Text) || writes_last(plan))
    ||| history.len() == 3 && !writes(history[0].action) && !writes(history[1].action) && writes(
        history[2].action,
    ) && pending(plan) is None
}

/// The JSON object is asked for.
spec fn asks_for_json(plan: Plan) -> bool {
    &&& plan.len() == 1
    &&& plan[0] matches Instr::Do {
        action: Action::Host(Op::ReportJson),
        then: Then::Ask(Point::At(spot)),
    }
    &&& spot is DoctorJson
}

/// A line is all that is left before the end.
spec fn writes_last(plan: Plan) -> bool {
    &&& plan.len() > 0
    &&& plan[0] matches Instr::Do { action, then: Then::Proceed }
    &&& writes(action)
    &&& pending(plan.drop_first()) is None
}

proof fn lemma_json_step(site: Site, verify: bool, plan: Plan, history: History, reply: Reply)
    requires
        json_state(verify, plan, history),
        resumed(site, plan, reply) is Some,
    ensures
        json_state(
            verify,
            resumed(site, plan, reply)->0,
            history.push(Exchange { action: pending(plan)->0, reply }),
        ),
{
    let next = resumed(site, plan, reply)->0;
    if history.len() == 0 {
        assert(pending(next) is None || asks_for_json(next));
    } else if history.len() == 1 {
        if let Reply::Text(json) = reply {
            let decided = decision(site, plan[0]->then->Ask_0, reply)->0;
            assert(next == decided + plan.drop_first());
            assert(next =~= decided);
            assert(writes_last(next));
        }
    }
}

/// Law: a preflight for a machine writes exactly one line: no two, and one wherever the JSON object
/// could be made and the command has ended.
pub proof fn law_json_is_written_once(site: Site, verify: bool, replies: Seq<Reply>)
    ensures
        ({
            let c = course(site, Cmd::Doctor { json: true, verify }, replies);
            &&& forall|i: int, j: int|
                0 <= i < c.history.len() && 0 <= j < c.history.len() && writes(
                    (#[trigger] c.history[i]).action,
                ) && writes((#[trigger] c.history[j]).action) ==> i == j
            &&& pending(c.plan) is None && c.history.len() > 1 && c.history[1].reply is Text
                ==> witnessed(c.history, |e: Exchange| writes(e.action))
        }),
{
    let cmd = Cmd::Doctor { json: true, verify };
    let inv = |plan: Plan, history: History| json_state(verify, plan, history);
    assert forall|plan: Plan, history: History, reply: Reply|
        #![trigger inv(plan, history), resumed(site, plan, reply)]
        inv(plan, history) && resumed(site, plan, reply) is Some implies inv(
        resumed(site, plan, reply)->0,
        history.push(Exchange { action: pending(plan)->0, reply }),
    ) by {
        lemma_json_step(site, verify, plan, history, reply);
    }
    lemma_course(site, opening(site, cmd), replies, inv);
    let c = course(site, cmd, replies);
    assert(inv(c.plan, c.history));
    if pending(c.plan) is None && c.history.len() > 1 && c.history[1].reply is Text {
        assert(writes(c.history[2].action));
    }
}

/// Whether an exchange reports a BC-250 with the full series live.
pub open spec fn liberated(e: Exchange) -> bool {
    &&& e.action == Action::<Seq<char>>::Host(Op::PatchReport)
    &&& e.reply matches Reply::Report(rep)
    &&& rep.is_bc250
    &&& rep.fully_patched
}

/// Law: a preflight that verifies succeeds only on a BC-250 with the full series live.
pub proof fn law_verify_needs_the_full_series(site: Site, json: bool, replies: Seq<Reply>)
    requires
        ended(course(site, Cmd::Doctor { json, verify: true }, replies).plan) == Some(
            Outcome::<Seq<char>>::Success,
        ),
    ensures
        witnessed(
            course(site, Cmd::Doctor { json, verify: true }, replies).history,
            |e: Exchange| liberated(e),
        ),
{
    let cmd = Cmd::Doctor { json, verify: true };
    let rule = Rule {
        held_end: |o: Outcome<Seq<char>>| o is Success,
        key: |e: Exchange| liberated(e),
        at: |a: Action<Seq<char>>, point: Point<Seq<char>>|
            point matches Point::At(spot) && match spot {
                Spot::Doctor { json: j, verify } => verify && a == Action::<Seq<char>>::Host(
                    Op::PatchReport,
                ),
                Spot::DoctorJson { verify, is_bc250, fully_patched } => verify && !(is_bc250
                    && fully_patched),
                Spot::DoctorMap => true,
                Spot::DoctorPower => true,
                Spot::DoctorGpuUnit => true,
                Spot::DoctorCpuUnit { .. } => true,
                Spot::DoctorRouteUnit { .. } => true,
                Spot::DoctorMode => true,
                _ => false,
            },
        last: |point: Point<Seq<char>>|
            point matches Point::At(spot) && (spot is Doctor || spot is DoctorJson),
        ..Rule::plain()
    };
    assert(rule.settles(opening(site, cmd)[0]));
    assert(rule.ordered(opening(site, cmd)));
    assert forall|a: Action<Seq<char>>, point: Point<Seq<char>>, reply: Reply|
        #![trigger (rule.at)(a, point), decision(site, point, reply)]
        (rule.at)(a, point) && decision(site, point, reply) is Some implies (rule.key)(
        Exchange { action: a, reply },
    ) || rule.decides(point, decision(site, point, reply)->0) by {
        let decided = decision(site, point, reply)->0;
        if !(rule.key)(Exchange { action: a, reply }) && (rule.last)(point) {
            assert(rule.settles(decided[decided.len() - 1]));
        }
    }
    lemma_rule(site, cmd, replies, rule);
}

/// Whether an exchange reports another board, or a series that is not live in full.
pub open spec fn unliberated(e: Exchange) -> bool {
    &&& e.action == Action::<Seq<char>>::Host(Op::PatchReport)
    &&& e.reply matches Reply::Report(rep)
    &&& !(rep.is_bc250 && rep.fully_patched)
}

/// Law: a preflight fails only where it verifies and the report is not of a BC-250 with the full
/// series live, or where the JSON object cannot be made.
pub proof fn law_verify_passes_the_full_series(
    site: Site,
    json: bool,
    verify: bool,
    replies: Seq<Reply>,
)
    requires
        proper(course(site, Cmd::Doctor { json, verify }, replies).history),
        ended(course(site, Cmd::Doctor { json, verify }, replies).plan) matches Some(o) && !(o is
        Success),
    ensures
        witnessed(
            course(site, Cmd::Doctor { json, verify }, replies).history,
            |e: Exchange|
                (verify && unliberated(e)) || (json && e.action == Action::<Seq<char>>::Host(
                    Op::ReportJson,
                ) && e.reply is Failed),
        ),
{
    let cmd = Cmd::Doctor { json, verify };
    if json {
        lemma_json_failure(site, verify, replies);
    } else {
        let rule = Rule {
            held_end: |o: Outcome<Seq<char>>| !(o is Success),
            key: |e: Exchange| verify && unliberated(e),
            at: |a: Action<Seq<char>>, point: Point<Seq<char>>|
                point matches Point::At(spot) && doctor_spot(spot) && match spot {
                    Spot::Doctor { json: j, verify: v } => !j && v == verify && a == Action::<
                        Seq<char>,
                    >::Host(Op::PatchReport),
                    Spot::DoctorJson { .. } => false,
                    _ => true,
                },
            ..Rule::plain()
        };
        assert(rule.ordered(opening(site, cmd)));
        assert(rule.closed(site));
        lemma_rule(site, cmd, replies, rule);
    }
}

/// What a preflight for a machine that has failed has met.
spec fn json_failed(verify: bool, history: History) -> bool {
    witnessed(
        history,
        |e: Exchange|
            (verify && unliberated(e)) || (e.action == Action::<Seq<char>>::Host(Op::ReportJson)
                && e.reply is Failed),
    )
}

/// Where a preflight for a machine can be, for its failures.
spec fn failing_state(verify: bool, plan: Plan, history: History) -> bool {
    ||| !proper(history)
    ||| json_failed(verify, history)
    ||| history.len() == 0 && plan == doctor_plan(true, verify)
    ||| asks_for_json(plan) && (plan[0]->then->Ask_0 matches Point::At(
        Spot::DoctorJson { verify: v, is_bc250, fully_patched },
    ) && !(v && !(is_bc250 && fully_patched)))
    ||| writes_last(plan) && plan.len() == 1
    ||| plan.len() == 0
}

proof fn lemma_failing_step(site: Site, verify: bool, plan: Plan, history: History, reply: Reply)
    requires
        failing_state(verify, plan, history),
        resumed(site, plan, reply) is Some,
    ensures
        failing_state(
            verify,
            resumed(site, plan, reply)->0,
            history.push(Exchange { action: pending(plan)->0, reply }),
        ),
{
    let next = resumed(site, plan, reply)->0;
    let e = Exchange { action: pending(plan)->0, reply };
    let after = history.push(e);
    assert(after[history.len() as int] == e);
    if !proper(history) {
        let i = choose|i: int|
            0 <= i < history.len() && !suits((#[trigger] history[i]).action, history[i].reply);
        assert(after[i] == history[i]);
    } else if json_failed(verify, history) {
        let i = choose|i: int|
            0 <= i < history.len() && ((verify && unliberated(#[trigger] history[i])) || (
            history[i].action == Action::<Seq<char>>::Host(Op::ReportJson) && history[i].reply is
            Failed));
        assert(after[i] == history[i]);
    } else if history.len() == 0 && plan == doctor_plan(true, verify) {
        if let Reply::Report(rep) = reply {
            assert(next.len() == 1);
        } else {
            assert(!suits(e.action, e.reply));
        }
    } else if asks_for_json(plan) {
        if let Reply::Text(json) = reply {
            let decided = decision(site, plan[0]->then->Ask_0, reply)->0;
            assert(next =~= decided);
            assert(next.len() == 1);
        }
    } else {
        assert(next =~= plan.drop_first());
    }
}

proof fn lemma_json_failure(site: Site, verify: bool, replies: Seq<Reply>)
    requires
        proper(course(site, Cmd::Doctor { json: true, verify }, replies).history),
        ended(course(site, Cmd::Doctor { json: true, verify }, replies).plan) matches Some(o)
            && !(o is Success),
    ensures
        json_failed(verify, course(site, Cmd::Doctor { json: true, verify }, replies).history),
{
    let cmd = Cmd::Doctor { json: true, verify };
    let inv = |plan: Plan, history: History| failing_state(verify, plan, history);
    assert forall|plan: Plan, history: History, reply: Reply|
        #![trigger inv(plan, history), resumed(site, plan, reply)]
        inv(plan, history) && resumed(site, plan, reply) is Some implies inv(
        resumed(site, plan, reply)->0,
        history.push(Exchange { action: pending(plan)->0, reply }),
    ) by {
        lemma_failing_step(site, verify, plan, history, reply);
    }
    lemma_course(site, opening(site, cmd), replies, inv);
    let c = course(site, cmd, replies);
    assert(inv(c.plan, c.history));
}

/// Law: a preflight that does not verify, and writes no JSON, cannot fail.
pub proof fn law_preflight_cannot_fail(site: Site, replies: Seq<Reply>)
    requires
        proper(course(site, Cmd::Doctor { json: false, verify: false }, replies).history),
    ensures
        ended(course(site, Cmd::Doctor { json: false, verify: false }, replies).plan) matches Some(
            outcome,
        ) ==> outcome is Success,
{
    let cmd = Cmd::Doctor { json: false, verify: false };
    let rule = Rule {
        held_end: |o: Outcome<Seq<char>>| !(o is Success),
        at: |a: Action<Seq<char>>, point: Point<Seq<char>>|
            point matches Point::At(spot) && doctor_spot(spot) && match spot {
                Spot::Doctor { json, verify } => !json && !verify,
                Spot::DoctorJson { .. } => false,
                _ => true,
            },
        ..Rule::plain()
    };
    assert(rule.ordered(opening(site, cmd)));
    assert(rule.closed(site));
    lemma_rule(site, cmd, replies, rule);
}

} // verus!
