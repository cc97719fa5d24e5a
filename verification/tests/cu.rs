use arieltune::cli::run;
use arieltune::commands::{Cmd, CuCmd};
use arieltune::cu::{drop_row, kat_row, parse_masks, persist_tag, yn};
use arieltune::model::{
    BenchRun, CuMap, Fault, KatReport, PatchReport, PatchRow, PatchState, Reply, RouteShape, Site,
};
use arieltune::plan::{Action, Op, Outcome, RowStyle};

type Steps = Vec<(Action<String>, Reply)>;

fn site() -> Site {
    Site {
        modprobe_conf: "/etc/modprobe.d/bc250.conf".to_string(),
        route_unit: "arieltune-route.service".to_string(),
        route_profile: "/var/lib/aputune/route.json".to_string(),
        power_config: "/var/lib/aputune/power.json".to_string(),
        cpu_oc_unit: "arieltune-cpu-oc.service".to_string(),
        sclk_min_mhz: 350,
        sclk_max_mhz: 2230,
        temp_max_c: 100,
        vid_ceiling_mv: 1325,
        boost_warn_mhz: 3850,
    }
}

fn say(text: &str) -> (Action<String>, Reply) {
    (Action::Println(text.to_string()), Reply::Done)
}

fn host(op: Op, reply: Reply) -> (Action<String>, Reply) {
    (Action::Host(op), reply)
}

fn fault(message: &str) -> Fault<String> {
    Fault { message: message.to_string(), chain: message.to_string() }
}

/// Runs a command against a host that expects these actions, in this order, and no others.
fn drive(cmd: Cmd, steps: Steps) -> Outcome<String> {
    let site = site();
    let mut session = run(&site, cmd);
    for (action, reply) in steps {
        assert_eq!(session.action(), Some(&action));
        assert!(session.resume(&site, &reply));
    }
    assert_eq!(session.action(), None);
    session.outcome().unwrap()
}

fn warn(text: &str) -> (Action<String>, Reply) {
    (Action::Eprintln(text.to_string()), Reply::Done)
}

fn cu(action: CuCmd) -> Cmd {
    Cmd::Cu { action }
}

fn v(a: &[&str]) -> Vec<String> {
    a.iter().map(|s| s.to_string()).collect()
}

fn shape(cu: u32, warnings: &[&str]) -> RouteShape {
    RouteShape {
        cu,
        per_array_wgp: [5, 5, 4, 5],
        populated: 4,
        effective_cu: 36,
        warnings: v(warnings),
    }
}

fn kat(label: &str, ok: bool) -> KatReport {
    KatReport {
        label: label.to_string(),
        cu_count: 40,
        millis: "123".to_string(),
        gflops: "6543".to_string(),
        mismatches: if ok { 0 } else { 17 },
        hung: false,
        ok,
        verdict: if ok { "OK" } else { "FAULT" }.to_string(),
    }
}

fn report(rows: Vec<PatchRow>) -> PatchReport {
    PatchReport {
        is_bc250: true,
        dbg_dir: None,
        rows,
        fully_patched: false,
        missing: 1,
        count: 12,
    }
}

fn row(id: &str, state: PatchState) -> PatchRow {
    PatchRow { id: id.to_string(), title: "t".to_string(), glyph: "+".to_string(), state }
}

#[test]
fn yes_and_no() {
    assert_eq!(yn(true), "yes");
    assert_eq!(yn(false), "no");
    assert_eq!(persist_tag(true), " — persisted (survives reboot)");
    assert_eq!(persist_tag(false), " (live only — could not persist)");
}

#[test]
fn masks_are_parsed() {
    assert_eq!(parse_masks(&v(&["1f", "0x1F", "0", "0x0x10"])), Ok([0x1f, 0x1f, 0, 0x10]));
    assert_eq!(parse_masks(&v(&["ff", "FFFFFFFF", "20", "+1"])), Ok([0x1f, 0x1f, 0, 1]));
}

#[test]
fn bad_masks_are_named() {
    let need = fault("need 4 masks (SE0.SH0 SE0.SH1 SE1.SH0 SE1.SH1)");
    assert_eq!(parse_masks(&v(&[])), Err(need.clone()));
    assert_eq!(parse_masks(&v(&["1", "1", "1"])), Err(need.clone()));
    assert_eq!(parse_masks(&v(&["1", "1", "1", "1", "1"])), Err(need));
    assert_eq!(parse_masks(&v(&["1", "1g", "z", "1"])), Err(fault("bad hex mask: 1g")));
    assert_eq!(parse_masks(&v(&["1", "1", "1", ""])), Err(fault("bad hex mask: ")));
    assert_eq!(parse_masks(&v(&["0x", "1", "1", "1"])), Err(fault("bad hex mask: 0x")));
    assert_eq!(parse_masks(&v(&["-1", "1", "1", "1"])), Err(fault("bad hex mask: -1")));
    assert_eq!(
        parse_masks(&v(&["100000000", "1", "1", "1"])),
        Err(fault("bad hex mask: 100000000"))
    );
    assert_eq!(parse_masks(&v(&[" 1", "1", "1", "1"])), Err(fault("bad hex mask:  1")));
}

#[test]
fn cu_status_with_a_live_route() {
    let m = [0x1f, 0x1f, 0xf, 0x1f];
    let out = drive(
        cu(CuCmd::Status),
        vec![
            say("40-CU liberation:"),
            host(Op::CuArmed, Reply::Flag(true)),
            say("  module param armed: yes"),
            host(Op::CuPersisted, Reply::Flag(false)),
            say("  modprobe.d persisted: no"),
            host(
                Op::CuMap,
                Reply::Harvest(Some(CuMap {
                    active: 38,
                    possible: 40,
                    rendered: "map\n".to_string(),
                })),
            ),
            (Action::Print("map\n".to_string()), Reply::Done),
            say("live routing (SPI dispatch):"),
            host(Op::CurrentMasks, Reply::Masks(m)),
            host(Op::RouteShape(m), Reply::Shape(shape(38, &["uneven", "slow"]))),
            say("  masks: [1f 1f 0f 1f]  ([5, 5, 4, 5] WGP/array)"),
            say("  routed: 38/40 CU (4 arrays, 36 effective)"),
            say("  ! uneven"),
            say("  ! slow"),
            host(Op::RouteArmed, Reply::Flag(true)),
            say("  boot route re-apply: armed (arieltune-route.service)"),
        ],
    );
    assert_eq!(out, Outcome::Success);
}

#[test]
fn cu_status_without_anything() {
    let out = drive(
        cu(CuCmd::Status),
        vec![
            say("40-CU liberation:"),
            host(Op::CuArmed, Reply::Flag(false)),
            say("  module param armed: no"),
            host(Op::CuPersisted, Reply::Flag(true)),
            say("  modprobe.d persisted: yes"),
            host(Op::CuMap, Reply::Harvest(None)),
            say("  harvest map: unavailable (amdgpu not queryable)"),
            say("live routing (SPI dispatch):"),
            host(
                Op::CurrentMasks,
                Reply::Failed(Fault {
                    message: "no umr".to_string(),
                    chain: "no umr: not found".to_string(),
                }),
            ),
            say("  unavailable (no umr)"),
            host(Op::RouteArmed, Reply::Flag(false)),
            say("  boot route re-apply: not armed"),
        ],
    );
    assert_eq!(out, Outcome::Success);
}

#[test]
fn enable_warns_without_the_patch() {
    let steps = |rows: Vec<PatchRow>| {
        vec![
            host(Op::ArmCu, Reply::Done),
            say("persisted: /etc/modprobe.d/bc250.conf"),
            say("now run `mkinitcpio -P` (or your initramfs tool) and reboot."),
            host(Op::PatchReport, Reply::Report(report(rows))),
        ]
    };
    assert_eq!(
        drive(cu(CuCmd::Enable), steps(vec![row("11", PatchState::Other), row("12", PatchState::Present)])),
        Outcome::Success
    );
    for rows in [
        vec![],
        vec![row("12", PatchState::Inferred)],
        vec![row("12", PatchState::Other), row("11", PatchState::Present)],
    ] {
        let mut with_warning = steps(rows);
        with_warning.push(say(
            "WARNING: the 40-CU kernel patch (12) is not detected live — enable will be a no-op until the patched kernel is built in (`arieltune apu build`).",
        ));
        assert_eq!(drive(cu(CuCmd::Enable), with_warning), Outcome::Success);
    }
    assert_eq!(
        drive(
            cu(CuCmd::Enable),
            vec![host(Op::ArmCu, Reply::Failed(fault("permission denied")))]
        ),
        Outcome::Failed(fault("permission denied"))
    );
}

#[test]
fn disable_removes_the_file() {
    let out = drive(
        cu(CuCmd::Disable),
        vec![
            host(Op::DisarmCu, Reply::Done),
            say("removed: /etc/modprobe.d/bc250.conf (reverts to 24 CU next boot)"),
        ],
    );
    assert_eq!(out, Outcome::Success);
}

#[test]
fn route_all_is_persisted() {
    let out = drive(
        cu(CuCmd::RouteAll),
        vec![
            host(Op::RouteAll, Reply::Done),
            host(Op::SaveRoute, Reply::Masks([0x1f; 4])),
            host(Op::ArmRoute, Reply::Done),
            say("routed all 40 CUs — persisted (survives reboot)"),
        ],
    );
    assert_eq!(out, Outcome::Success);
}

#[test]
fn route_that_cannot_be_saved_is_not_armed() {
    let out = drive(
        cu(CuCmd::RouteFactory),
        vec![
            host(Op::RouteFactory, Reply::Done),
            host(Op::SaveRoute, Reply::Failed(fault("no space"))),
            say("routed factory dispatch (24 CU) (live only — could not persist)"),
        ],
    );
    assert_eq!(out, Outcome::Success);
    let out = drive(
        cu(CuCmd::RouteFactory),
        vec![
            host(Op::RouteFactory, Reply::Done),
            host(Op::SaveRoute, Reply::Masks([7; 4])),
            host(Op::ArmRoute, Reply::Failed(fault("no systemd"))),
            say("routed factory dispatch (24 CU) (live only — could not persist)"),
        ],
    );
    assert_eq!(out, Outcome::Success);
}

#[test]
fn route_applies_the_masks() {
    let m = [0x1f, 0x1f, 0xf, 0x1];
    let out = drive(
        cu(CuCmd::Route { masks: v(&["1f", "1f", "0f", "1"]), force_unsafe: false }),
        vec![
            host(Op::ApplyRoute(m), Reply::Done),
            host(Op::SaveRoute, Reply::Masks(m)),
            host(Op::ArmRoute, Reply::Done),
            host(Op::RouteShape(m), Reply::Shape(shape(30, &["thin"]))),
            say("routed 30 CUs: [1f, 1f, 0f, 01] — persisted (survives reboot)"),
            warn("WARNING: thin"),
        ],
    );
    assert_eq!(out, Outcome::Success);
}

#[test]
fn empty_array_needs_the_override() {
    let m = [0x1f, 0, 0x1f, 0x1f];
    let out = drive(
        cu(CuCmd::Route { masks: v(&["1f", "0", "1f", "1f"]), force_unsafe: false }),
        vec![host(Op::ApplyRoute(m), Reply::Failed(fault("empty shader array")))],
    );
    assert_eq!(out, Outcome::Failed(fault("empty shader array")));
    let out = drive(
        cu(CuCmd::Route { masks: v(&["1f", "0", "1f", "1f"]), force_unsafe: true }),
        vec![
            warn("WARNING: --force-unsafe — empty-shader-array wedge guard bypassed"),
            host(Op::ApplyRouteForced(m), Reply::Done),
            host(Op::SaveRoute, Reply::Masks(m)),
            host(Op::ArmRoute, Reply::Done),
            host(Op::RouteShape(m), Reply::Shape(shape(30, &[]))),
            say("routed 30 CUs: [1f, 00, 1f, 1f] — persisted (survives reboot)"),
        ],
    );
    assert_eq!(out, Outcome::Success);
}

#[test]
fn bad_route_masks_do_nothing() {
    assert_eq!(
        drive(cu(CuCmd::Route { masks: v(&["1f"]), force_unsafe: true }), vec![]),
        Outcome::Failed(fault("need 4 masks (SE0.SH0 SE0.SH1 SE1.SH0 SE1.SH1)"))
    );
    assert_eq!(
        drive(cu(CuCmd::Bench { masks: v(&["x", "1", "1", "1"]) }), vec![]),
        Outcome::Failed(fault("bad hex mask: x"))
    );
}

#[test]
fn toggle_names_the_wgp() {
    let m = [0x1f, 0x1f, 0x1f, 0xf];
    let out = drive(
        cu(CuCmd::Toggle { array: 3, wgp: 4, force_unsafe: true }),
        vec![
            warn("WARNING: --force-unsafe — empty-shader-array wedge guard bypassed"),
            host(Op::ToggleWgp { array: 3, wgp: 4, force_unsafe: true }, Reply::Masks(m)),
            host(Op::SaveRoute, Reply::Masks(m)),
            host(Op::ArmRoute, Reply::Done),
            host(Op::RouteShape(m), Reply::Shape(shape(38, &["uneven"]))),
            say("toggled SE1.SH1 W4 -> 38 CU routed — persisted (survives reboot)"),
            warn("WARNING: uneven"),
        ],
    );
    assert_eq!(out, Outcome::Success);
}

#[test]
fn toggle_out_of_bounds_does_nothing() {
    assert_eq!(
        drive(cu(CuCmd::Toggle { array: 4, wgp: 9, force_unsafe: true }), vec![]),
        Outcome::Failed(fault("array must be 0..3 (SE0.SH0/SE0.SH1/SE1.SH0/SE1.SH1)"))
    );
    assert_eq!(
        drive(cu(CuCmd::Toggle { array: 0, wgp: 5, force_unsafe: false }), vec![]),
        Outcome::Failed(fault("wgp must be 0..4"))
    );
}

#[test]
fn bench_of_given_masks() {
    let m = [0x1f; 4];
    let out = drive(
        cu(CuCmd::Bench { masks: v(&["1f", "1f", "1f", "1f"]) }),
        vec![
            host(Op::RouteShape(m), Reply::Shape(shape(40, &["hot"]))),
            warn("WARNING: hot"),
            host(
                Op::BenchRoute(m),
                Reply::Bench(BenchRun {
                    gflops: "7000".to_string(),
                    mismatches: 0,
                    hung: false,
                    ok: true,
                }),
            ),
            host(Op::BenchPerCu(40), Reply::Text("175.0".to_string())),
            say("bench [1f 1f 1f 1f]: 40 CU routed  —  7000 GFLOPS  (175.0 /CU)  (correct)"),
        ],
    );
    assert_eq!(out, Outcome::Success);
}

#[test]
fn bench_of_the_current_route() {
    let m = [0; 4];
    let bench = |hung: bool, verdict: &str| {
        drive(
            cu(CuCmd::Bench { masks: vec![] }),
            vec![
                host(Op::CurrentMasks, Reply::Masks(m)),
                host(Op::RouteShape(m), Reply::Shape(shape(0, &[]))),
                host(
                    Op::BenchRoute(m),
                    Reply::Bench(BenchRun {
                        gflops: "0".to_string(),
                        mismatches: 18446744073709551615,
                        hung,
                        ok: false,
                    }),
                ),
                say(&format!(
                    "bench [00 00 00 00]: 0 CU routed  —  0 GFLOPS  (0.0 /CU)  ({verdict})"
                )),
            ],
        )
    };
    assert_eq!(bench(true, "HUNG"), Outcome::Success);
    assert_eq!(bench(false, "18446744073709551615 mismatches"), Outcome::Success);
}

#[test]
fn route_save_load_and_forget() {
    let m = [0x1f, 0xf, 0x7, 0x1];
    let save = |reply: Reply, tail: &str| {
        drive(
            cu(CuCmd::RouteSave),
            vec![
                host(Op::SaveRoute, Reply::Masks(m)),
                host(Op::ArmRoute, reply),
                host(Op::CuCount(m), Reply::Number(26)),
                say(&format!(
                    "saved service routing: [1f, f, 7, 1] (26 CU) -> /var/lib/aputune/route.json{tail}"
                )),
            ],
        )
    };
    assert_eq!(save(Reply::Done, " (boot re-apply armed)"), Outcome::Success);
    assert_eq!(
        save(Reply::Failed(fault("no systemd")), " (boot re-apply NOT armed)"),
        Outcome::Success
    );
    let out = drive(
        cu(CuCmd::RouteLoad),
        vec![
            host(Op::ApplySavedRoute, Reply::Masks(m)),
            host(Op::CuCount(m), Reply::Number(26)),
            say("applied service routing: [1f, f, 7, 1] (26 CU)"),
        ],
    );
    assert_eq!(out, Outcome::Success);
    let out = drive(
        cu(CuCmd::RouteForget),
        vec![
            host(Op::DisarmRoute, Reply::Done),
            say(
                "boot route re-apply disarmed (unit removed); /var/lib/aputune/route.json kept — `cu route-save` re-arms",
            ),
        ],
    );
    assert_eq!(out, Outcome::Success);
}

#[test]
fn rows_of_the_health_test() {
    assert_eq!(
        kat_row(&kat("full-40", true)),
        "  full-40         40 CU      123 ms      6543 GFLOPS          0  OK"
    );
    assert_eq!(
        drop_row(&kat("--SE0.SH0.W1", true)),
        "  drop SE0.SH0.W1           6543 GFLOPS          0 mismatch  <- fault clears (suspect)"
    );
    assert_eq!(
        drop_row(&kat("-SE0.SH0.W2", false)),
        "  drop SE0.SH0.W2           6543 GFLOPS         17 mismatch  still faulty"
    );
    let mut hung = kat("-SE0.SH0.W3", true);
    hung.hung = true;
    assert_eq!(
        drop_row(&hung),
        "  drop SE0.SH0.W3           6543 GFLOPS          0 mismatch  HUNG"
    );
}

#[test]
fn healthy_cus() {
    let out = drive(
        cu(CuCmd::Test { localize: true, probe: false }),
        vec![
            host(Op::KatAvailable, Reply::Flag(true)),
            say("CU health-test — known-answer Vulkan compute (KAT)\n"),
            host(Op::KatFull, Reply::Kat(kat("full-40", true))),
            say("  full-40         40 CU      123 ms      6543 GFLOPS          0  OK"),
            say("\nall 40 CUs healthy."),
        ],
    );
    assert_eq!(out, Outcome::Success);
}

#[test]
fn faulty_cu_ends_with_status_one() {
    let head = || {
        vec![
            host(Op::KatAvailable, Reply::Flag(true)),
            say("CU health-test — known-answer Vulkan compute (KAT)\n"),
            host(Op::KatFull, Reply::Kat(kat("full-40", false))),
            say("  full-40         40 CU      123 ms      6543 GFLOPS         17  FAULT"),
            say("\na CU is faulty (17 mismatches)."),
        ]
    };
    let mut steps = head();
    steps.push(say("re-run with --localize to pinpoint the bad WGP."));
    assert_eq!(
        drive(cu(CuCmd::Test { localize: false, probe: false }), steps),
        Outcome::Exit(1)
    );
    let mut steps = head();
    steps.push(say("\nlocalizing — routing full-40 minus one WGP at a time:"));
    steps.push(host(
        Op::KatLocalize(RowStyle::Drop),
        Reply::Sweep(vec![kat("-A", true), kat("-B", false), kat("--C", true)]),
    ));
    steps.push(say(""));
    steps.push(say("bad WGP: A, C"));
    steps.push(say("route around it: edit the routing in the TUI, then `cu route-save`"));
    assert_eq!(
        drive(cu(CuCmd::Test { localize: true, probe: false }), steps),
        Outcome::Exit(1)
    );
    let mut steps = head();
    steps.push(say("\nlocalizing — routing full-40 minus one WGP at a time:"));
    steps.push(host(Op::KatLocalize(RowStyle::Drop), Reply::Sweep(vec![kat("-B", false)])));
    steps.push(say(""));
    steps.push(say("could not isolate a single WGP (multiple bad, or intermittent)"));
    assert_eq!(
        drive(cu(CuCmd::Test { localize: true, probe: false }), steps),
        Outcome::Exit(1)
    );
}

#[test]
fn probe_and_unavailable_test() {
    let out = drive(
        cu(CuCmd::Test { localize: false, probe: true }),
        vec![
            host(Op::KatAvailable, Reply::Flag(true)),
            say("PROBE: subtractive sweep (full-40 minus one WGP) — safety check\n"),
            host(Op::KatLocalize(RowStyle::Kat), Reply::Sweep(vec![kat("-A", false)])),
        ],
    );
    assert_eq!(out, Outcome::Success);
    let out = drive(
        cu(CuCmd::Test { localize: false, probe: true }),
        vec![host(Op::KatAvailable, Reply::Flag(false))],
    );
    assert_eq!(
        out,
        Outcome::Failed(fault(
            "health-test needs umr (routing) and a Vulkan ICD (RADV). install: pacman -S umr vulkan-radeon vulkan-icd-loader"
        ))
    );
}
