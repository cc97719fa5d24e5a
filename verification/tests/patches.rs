use arieltune::cli::run;
use arieltune::commands::Cmd;
use arieltune::model::{
    AutoMode, CuMap, Fault, Patch, PatchReport, PatchRow, PatchState, PowerConfig, Reply, Site,
};
use arieltune::plan::{Action, Op, Outcome};

type Steps = Vec<(Action<String>, Reply)>;

fn site() -> Site {
    Site {
        modprobe_conf: "/etc/modprobe.d/bc250.conf".to_string(),
        route_unit: "arieltune-route.service".to_string(),
        route_profile: "/var/lib/aputune/route.json".to_string(),
        power_config: "/var/lib/aputune/power.json".to_string(),
        cpu_oc_unit: "arieltune-cpu-oc.service".to_string(),
        sclk_min_mhz: 350,
        sclk_max_mhz: 2230,
        temp_max_c: 100,
        vid_ceiling_mv: 1325,
        boost_warn_mhz: 3850,
    }
}

fn say(text: &str) -> (Action<String>, Reply) {
    (Action::Println(text.to_string()), Reply::Done)
}

fn host(op: Op, reply: Reply) -> (Action<String>, Reply) {
    (Action::Host(op), reply)
}

fn fault(message: &str) -> Fault<String> {
    Fault { message: message.to_string(), chain: message.to_string() }
}

/// Runs a command against a host that expects these actions, in this order, and no others.
fn drive(cmd: Cmd, steps: Steps) -> Outcome<String> {
    let site = site();
    let mut session = run(&site, cmd);
    for (action, reply) in steps {
        assert_eq!(session.action(), Some(&action));
        assert!(session.resume(&site, &reply));
    }
    assert_eq!(session.action(), None);
    session.outcome().unwrap()
}

fn row(id: &str, state: PatchState) -> PatchRow {
    PatchRow { id: id.to_string(), title: "title".to_string(), glyph: "*".to_string(), state }
}

fn report(is_bc250: bool, fully_patched: bool, dbg_dir: Option<&str>) -> PatchReport {
    PatchReport {
        is_bc250,
        dbg_dir: dbg_dir.map(|s| s.to_string()),
        rows: vec![row("1", PatchState::Present), row("02-long", PatchState::Other)],
        fully_patched,
        missing: if fully_patched { 0 } else { 1 },
        count: 2,
    }
}

fn power(force_mhz: Option<u32>) -> PowerConfig {
    PowerConfig {
        top_mhz: 2000,
        deep_mhz: 350,
        force_mhz,
        force_vid_mv: None,
        auto_mode: AutoMode::Released,
    }
}

#[test]
fn one_patch_is_shown() {
    let patch = |id: &str, body: &str| Patch {
        id: id.to_string(),
        title: "cc write".to_string(),
        touches: "gfx_v10_0.c".to_string(),
        body: body.to_string(),
    };
    let series = vec![patch("11", "x"), patch("12", "diff\n"), patch("12", "y")];
    let out = drive(
        Cmd::Patches { show: Some("12".to_string()) },
        vec![
            host(Op::PatchSeries, Reply::Series(series.clone())),
            say("# 12 — cc write\n# touches: gfx_v10_0.c\n"),
            (Action::Print("diff\n".to_string()), Reply::Done),
        ],
    );
    assert_eq!(out, Outcome::Success);
    let out = drive(
        Cmd::Patches { show: Some("1".to_string()) },
        vec![
            host(Op::PatchSeries, Reply::Series(series)),
            say("no such patch: 1"),
        ],
    );
    assert_eq!(out, Outcome::Success);
}

#[test]
fn patch_report_of_a_stock_kernel() {
    let out = drive(
        Cmd::Patches { show: None },
        vec![
            host(Op::PatchReport, Reply::Report(report(false, false, None))),
            say("BC-250: NO    series: 2 patches    NOT fully patched"),
            say("note: amdgpu debugfs not found (mount debugfs / run as root for full detection)"),
            say(""),
            say("* 1     title"),
            say("* 02-long title"),
            say(
                "\n1 patch(es) absent — run `arieltune apu build` to build the series into the system.",
            ),
        ],
    );
    assert_eq!(out, Outcome::Success);
}

#[test]
fn patch_report_of_a_full_kernel() {
    let out = drive(
        Cmd::Patches { show: None },
        vec![
            host(Op::PatchReport, Reply::Report(report(true, true, Some("/dbg")))),
            say("BC-250: yes    series: 2 patches    FULLY PATCHED"),
            say(""),
            say("* 1     title"),
            say("* 02-long title"),
        ],
    );
    assert_eq!(out, Outcome::Success);
}

#[test]
fn harvest_map_or_none() {
    let map = CuMap { active: 40, possible: 40, rendered: "SE0\nSE1\n".to_string() };
    assert_eq!(
        drive(
            Cmd::Cumap,
            vec![
                host(Op::CuMap, Reply::Harvest(Some(map))),
                (Action::Print("SE0\nSE1\n".to_string()), Reply::Done),
            ]
        ),
        Outcome::Success
    );
    assert_eq!(
        drive(
            Cmd::Cumap,
            vec![
                host(Op::CuMap, Reply::Harvest(None)),
                say("could not query amdgpu CU map (need a working amdgpu + render node)"),
            ]
        ),
        Outcome::Success
    );
}

#[test]
fn json_preflight_prints_one_line() {
    let steps = |rep: PatchReport| {
        vec![
            host(Op::PatchReport, Reply::Report(rep)),
            host(Op::ReportJson, Reply::Text("{\"ok\":1}".to_string())),
            say("{\"ok\":1}"),
        ]
    };
    assert_eq!(
        drive(Cmd::Doctor { json: true, verify: false }, steps(report(false, false, None))),
        Outcome::Success
    );
    assert_eq!(
        drive(Cmd::Doctor { json: true, verify: true }, steps(report(true, true, None))),
        Outcome::Success
    );
    assert_eq!(
        drive(Cmd::Doctor { json: true, verify: true }, steps(report(true, false, None))),
        Outcome::Failed(fault("doctor --verify failed: is_bc250=true fully_patched=false"))
    );
    assert_eq!(
        drive(
            Cmd::Doctor { json: true, verify: false },
            vec![
                host(Op::PatchReport, Reply::Report(report(true, true, None))),
                host(Op::ReportJson, Reply::Failed(fault("no json"))),
            ]
        ),
        Outcome::Failed(fault("no json"))
    );
}

fn preflight(rep: PatchReport, verify: bool, pin: Option<u32>, units: [bool; 3]) -> Outcome<String> {
    let word = |on: bool, yes: &'static str, no: &'static str| if on { yes } else { no };
    let mut steps = vec![
        host(Op::PatchReport, Reply::Report(rep.clone())),
        say("arieltune apu doctor"),
        say(&format!("  BC-250 (PCI 1002:13fe): {}", word(rep.is_bc250, "yes", "no"))),
        say(&format!(
            "  amdgpu debugfs: {}",
            rep.dbg_dir.clone().unwrap_or("not found".to_string())
        )),
        say("  liberation series: 1/2 live"),
        host(Op::CuMap, Reply::Harvest(None)),
        say("  CUs active: unknown (amdgpu not queryable)"),
        host(Op::LoadPower, Reply::Power(power(pin))),
        host(Op::GpuUnitInstalled, Reply::Flag(units[0])),
        host(Op::CpuOcArmed, Reply::Flag(units[1])),
        host(Op::RouteArmed, Reply::Flag(units[2])),
        say(&format!(
            "  boot units: gpu {}  cpu-oc {}  route {}",
            word(units[0], "installed", "absent"),
            word(units[1], "armed", "off"),
            word(units[2], "armed", "off")
        )),
    ];
    match pin {
        Some(m) => steps.push(say(&format!("  GPU mode: manual pin {m} MHz (wins at boot)"))),
        None => {
            steps.push(host(
                Op::ModeName(AutoMode::Released),
                Reply::Text("released".to_string()),
            ));
            steps.push(say("  GPU mode: auto (released)"));
        }
    }
    if !rep.fully_patched {
        steps.push(say(
            "\n  -> not fully liberated. `arieltune apu patches` for detail, `arieltune apu build` to apply.",
        ));
    }
    drive(Cmd::Doctor { json: false, verify }, steps)
}

#[test]
fn preflight_without_verify_succeeds() {
    assert_eq!(
        preflight(report(false, false, None), false, Some(350), [true, false, true]),
        Outcome::Success
    );
    assert_eq!(
        preflight(report(true, true, Some("/dbg")), false, None, [false, true, false]),
        Outcome::Success
    );
}

#[test]
fn preflight_verifies() {
    let units = [true, true, true];
    assert_eq!(preflight(report(true, true, None), true, None, units), Outcome::Success);
    assert_eq!(
        preflight(report(false, true, None), true, None, units),
        Outcome::Failed(fault("doctor --verify failed: is_bc250=false fully_patched=true"))
    );
    assert_eq!(
        preflight(report(true, false, None), true, None, units),
        Outcome::Failed(fault("doctor --verify failed: is_bc250=true fully_patched=false"))
    );
}

#[test]
fn preflight_counts_the_cus() {
    let map = CuMap { active: 38, possible: 40, rendered: "".to_string() };
    let site = site();
    let mut session = run(&site, Cmd::Doctor { json: false, verify: false });
    assert!(session.resume(&site, &Reply::Report(report(true, true, None))));
    for _ in 0..4 {
        assert!(session.resume(&site, &Reply::Done));
    }
    assert_eq!(session.action(), Some(&Action::Host(Op::CuMap)));
    assert!(session.resume(&site, &Reply::Harvest(Some(map))));
    assert_eq!(
        session.action(),
        Some(&Action::Println("  CUs active: 38/40".to_string()))
    );
}
