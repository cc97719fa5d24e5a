use std::path::PathBuf;

use arieltune::cli::run;
use arieltune::commands::{Cmd, LiberateTier};
use arieltune::liberate::choose_tier;
use arieltune::model::{Fault, PatchReport, PatchRow, PatchState, Reply, Site};
use arieltune::plan::{Action, BuildRequest, Op, Outcome};

type Steps = Vec<(Action<String>, Reply)>;

fn site() -> Site {
    Site {
        modprobe_conf: "/etc/modprobe.d/bc250.conf".to_string(),
        route_unit: "arieltune-route.service".to_string(),
        route_profile: "/var/lib/aputune/route.json".to_string(),
        power_config: "/var/lib/aputune/power.json".to_string(),
        cpu_oc_unit: "arieltune-cpu-oc.service".to_string(),
        sclk_min_mhz: 350,
        sclk_max_mhz: 2230,
        temp_max_c: 100,
        vid_ceiling_mv: 1325,
        boost_warn_mhz: 3850,
    }
}

fn say(text: &str) -> (Action<String>, Reply) {
    (Action::Println(text.to_string()), Reply::Done)
}

fn host(op: Op, reply: Reply) -> (Action<String>, Reply) {
    (Action::Host(op), reply)
}

fn fault(message: &str) -> Fault<String> {
    Fault { message: message.to_string(), chain: message.to_string() }
}

/// Runs a command against a host that expects these actions, in this order, and no others.
fn drive(cmd: Cmd, steps: Steps) -> Outcome<String> {
    let site = site();
    let mut session = run(&site, cmd);
    for (action, reply) in steps {
        assert_eq!(session.action(), Some(&action));
        assert!(session.resume(&site, &reply));
    }
    assert_eq!(session.action(), None);
    session.outcome().unwrap()
}

fn rows() -> Vec<PatchRow> {
    [("1", PatchState::Present), ("12", PatchState::Inferred), ("13", PatchState::Other)]
        .into_iter()
        .map(|(id, state)| PatchRow {
            id: id.to_string(),
            title: "title".to_string(),
            glyph: "*".to_string(),
            state,
        })
        .collect()
}

fn report(fully_patched: bool) -> PatchReport {
    PatchReport {
        is_bc250: true,
        dbg_dir: None,
        rows: rows(),
        fully_patched,
        missing: 1,
        count: 13,
    }
}

fn series() -> Steps {
    vec![
        say("  liberation series: 2/13 live"),
        say("  * 1     title"),
        say("  * 12    title"),
        say("  * 13    title"),
    ]
}

fn decline() -> Steps {
    let mut steps = vec![say("inspect-only — no kernel changes.")];
    steps.extend(series());
    steps.push(say("\nre-run `arieltune apu liberate` (or `arieltune apu build`) when ready."));
    steps
}

fn request() -> BuildRequest<String> {
    BuildRequest {
        pkgbuild: Some(PathBuf::from("/src/linux-cachyos")),
        target: Some("root@bc250".to_string()),
        run: true,
    }
}

fn liberate(tier: Option<LiberateTier>) -> Cmd {
    let r = request();
    Cmd::Liberate { pkgbuild: r.pkgbuild, target: r.target, tier, run: r.run }
}

fn gates(fully_patched: bool) -> Steps {
    vec![
        host(Op::ApuPresent, Reply::Flag(true)),
        host(Op::PatchReport, Reply::Report(report(fully_patched))),
    ]
}

fn prompt() -> Steps {
    vec![
        say("liberation tiers:"),
        say("  1) full          patched kernel + route all 40 CUs (bc250_cc_write_mode=3)"),
        say("  2) tuning-only   patched kernel, CU routing OFF (bc250_cc_write_mode=0):"),
        say("                   telemetry + GPU clock + CPU OC without the 40-CU route"),
        say("                   (ROCm OpenCL is unstable at 40 CU on gfx1013)"),
        say("  3) inspect-only  report patch state, change nothing  [default]"),
    ]
}

fn asked(line: Option<&str>) -> Steps {
    let mut steps = gates(false);
    steps.extend(prompt());
    steps.push(host(Op::StdinTty, Reply::Flag(true)));
    steps.push((Action::Print("choose [1/2/3, default 3]: ".to_string()), Reply::Done));
    steps.push(host(Op::FlushStdout, Reply::Done));
    steps.push(host(Op::ReadLine, Reply::MaybeText(line.map(|s| s.to_string()))));
    steps
}

#[test]
fn build_takes_the_default_mode() {
    let r = request();
    let cmd = Cmd::Build { pkgbuild: r.pkgbuild, target: r.target, run: r.run };
    assert_eq!(
        drive(
            cmd,
            vec![(Action::Build { request: request(), cc_mode: None }, Reply::Done)]
        ),
        Outcome::Success
    );
    let cmd = Cmd::Build { pkgbuild: None, target: None, run: false };
    let preview = BuildRequest { pkgbuild: None, target: None, run: false };
    assert_eq!(
        drive(
            cmd,
            vec![(
                Action::Build { request: preview, cc_mode: None },
                Reply::Failed(fault("no PKGBUILD")),
            )]
        ),
        Outcome::Failed(fault("no PKGBUILD"))
    );
}

#[test]
fn other_boards_are_refused() {
    assert_eq!(
        drive(
            liberate(Some(LiberateTier::Full)),
            vec![host(Op::ApuPresent, Reply::Flag(false))]
        ),
        Outcome::Failed(fault("not a BC-250 (PCI 1002:13fe not found) — nothing to liberate"))
    );
}

#[test]
fn full_series_is_left_alone() {
    let mut steps = gates(true);
    steps.push(say("liberation series already live — nothing to do."));
    steps.extend(series());
    assert_eq!(drive(liberate(Some(LiberateTier::Full)), steps), Outcome::Success);
}

#[test]
fn full_tier_builds_with_routing() {
    let mut steps = gates(false);
    steps.push((Action::Build { request: request(), cc_mode: Some(3) }, Reply::Done));
    assert_eq!(drive(liberate(Some(LiberateTier::Full)), steps), Outcome::Success);
}

#[test]
fn tuning_tier_builds_without_routing() {
    let mut steps = gates(false);
    steps.push(say(
        "tuning-only: same patched kernel, bc250_cc_write_mode=0 (40-CU routing stays off; `arieltune apu cu enable` arms it later)",
    ));
    steps.push((
        Action::Build { request: request(), cc_mode: Some(0) },
        Reply::Failed(fault("make failed")),
    ));
    assert_eq!(
        drive(liberate(Some(LiberateTier::TuningOnly)), steps),
        Outcome::Failed(fault("make failed"))
    );
}

#[test]
fn inspect_tier_builds_nothing() {
    let mut steps = gates(false);
    steps.extend(decline());
    assert_eq!(drive(liberate(Some(LiberateTier::InspectOnly)), steps), Outcome::Success);
}

#[test]
fn without_a_terminal_the_choice_is_to_decline() {
    let mut steps = gates(false);
    steps.extend(prompt());
    steps.push(host(Op::StdinTty, Reply::Flag(false)));
    steps.push(say("stdin is not a tty — taking the default (inspect-only)"));
    steps.extend(decline());
    assert_eq!(drive(liberate(None), steps), Outcome::Success);
}

#[test]
fn end_of_input_declines() {
    let mut steps = asked(None);
    steps.push(say(""));
    steps.extend(decline());
    assert_eq!(drive(liberate(None), steps), Outcome::Success);
}

#[test]
fn blank_line_declines() {
    for line in ["\n", "  \t\r\n", "\u{a0}\n", "3\n", " inspect \n", "inspect-only"] {
        let mut steps = asked(Some(line));
        steps.extend(decline());
        assert_eq!(drive(liberate(None), steps), Outcome::Success);
    }
}

#[test]
fn typed_tier_is_built() {
    for (line, mode) in [("1\n", 3), ("  full\n", 3)] {
        let mut steps = asked(Some(line));
        steps.push((Action::Build { request: request(), cc_mode: Some(mode) }, Reply::Done));
        assert_eq!(drive(liberate(None), steps), Outcome::Success);
    }
    for line in ["2\n", "tuning\n", "tuning-only \n"] {
        let mut steps = asked(Some(line));
        steps.push(say(
            "tuning-only: same patched kernel, bc250_cc_write_mode=0 (40-CU routing stays off; `arieltune apu cu enable` arms it later)",
        ));
        steps.push((Action::Build { request: request(), cc_mode: Some(0) }, Reply::Done));
        assert_eq!(drive(liberate(None), steps), Outcome::Success);
    }
}

#[test]
fn unknown_choice_does_nothing() {
    assert_eq!(
        drive(liberate(None), asked(Some(" FULL now \n"))),
        Outcome::Failed(fault("unrecognized choice 'FULL now' — nothing done"))
    );
}

#[test]
fn choices_are_exact() {
    assert_eq!(choose_tier(&"full".to_string()), Some(LiberateTier::Full));
    assert_eq!(choose_tier(&"2".to_string()), Some(LiberateTier::TuningOnly));
    assert_eq!(choose_tier(&"".to_string()), Some(LiberateTier::InspectOnly));
    assert_eq!(choose_tier(&"Full".to_string()), None);
    assert_eq!(choose_tier(&"1 ".to_string()), None);
}
