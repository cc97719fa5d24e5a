use arieltune::cli::run;
use arieltune::commands::{Cmd, CpuCmd};
use arieltune::model::{CpuLive, CpuOc, Fault, Reply, Site, SweepOpts, SweepPoint};
use arieltune::plan::{Action, Op, Outcome};

type Steps = Vec<(Action<String>, Reply)>;

fn site() -> Site {
    Site {
        modprobe_conf: "/etc/modprobe.d/bc250.conf".to_string(),
        route_unit: "arieltune-route.service".to_string(),
        route_profile: "/var/lib/aputune/route.json".to_string(),
        power_config: "/var/lib/aputune/power.json".to_string(),
        cpu_oc_unit: "arieltune-cpu-oc.service".to_string(),
        sclk_min_mhz: 350,
        sclk_max_mhz: 2230,
        temp_max_c: 100,
        vid_ceiling_mv: 1325,
        boost_warn_mhz: 3850,
    }
}

fn say(text: &str) -> (Action<String>, Reply) {
    (Action::Println(text.to_string()), Reply::Done)
}

fn host(op: Op, reply: Reply) -> (Action<String>, Reply) {
    (Action::Host(op), reply)
}

fn fault(message: &str) -> Fault<String> {
    Fault { message: message.to_string(), chain: message.to_string() }
}

/// Runs a command against a host that expects these actions, in this order, and no others.
fn drive(cmd: Cmd, steps: Steps) -> Outcome<String> {
    let site = site();
    let mut session = run(&site, cmd);
    for (action, reply) in steps {
        assert_eq!(session.action(), Some(&action));
        assert!(session.resume(&site, &reply));
    }
    assert_eq!(session.action(), None);
    session.outcome().unwrap()
}

fn cpu(action: CpuCmd) -> Cmd {
    Cmd::Cpu { action }
}

fn open() -> (Action<String>, Reply) {
    host(Op::OpenOc, Reply::Done)
}

fn point() -> CpuOc {
    CpuOc { boost_mhz: 3500, curve_scale: -20, cpu_temp_c: 95, gpu_temp_c: 90 }
}

#[test]
fn unreachable_mailbox_ends_every_command() {
    for action in [CpuCmd::Status, CpuCmd::Restore, CpuCmd::Vid { mv: 1000 }] {
        let out = drive(
            cpu(action),
            vec![host(Op::OpenOc, Reply::Failed(fault("no /dev/mem")))],
        );
        assert_eq!(
            out,
            Outcome::Failed(Fault {
                message: "queue-3 OC mailbox not reachable (need root + a BC-250)".to_string(),
                chain: "queue-3 OC mailbox not reachable (need root + a BC-250): no /dev/mem"
                    .to_string(),
            })
        );
    }
}

#[test]
fn cpu_status_in_full() {
    let live = CpuLive {
        cur_vid_mv: Some(1100),
        cores: vec![3500, 3400],
        pstates: vec![3500, 2800, 1600],
        cpu_temp_max: Some(95),
    };
    let out = drive(
        cpu(CpuCmd::Status),
        vec![
            open(),
            host(Op::CpuLive, Reply::Live(live)),
            say("CPU (live, via SMU queue 3):"),
            say("  current Vid:    1100 mV"),
            host(Op::GpuVoltage, Reply::MaybeNumber(Some(900))),
            say("  GPU Vid:        900 mV"),
            say("  core freq MHz:  3500  3400"),
            say("  P-state MHz:    3500  2800  1600"),
            say("  CPU temp limit: 95 C"),
            host(Op::CpuOcArmed, Reply::Flag(true)),
            say("  boot re-apply:  armed (arieltune-cpu-oc.service)"),
        ],
    );
    assert_eq!(out, Outcome::Success);
}

#[test]
fn cpu_status_of_an_unknown_cpu() {
    let live = CpuLive {
        cur_vid_mv: None,
        cores: vec![],
        pstates: vec![],
        cpu_temp_max: None,
    };
    let out = drive(
        cpu(CpuCmd::Status),
        vec![
            open(),
            host(Op::CpuLive, Reply::Live(live)),
            say("CPU (live, via SMU queue 3):"),
            say("  current Vid:    ?"),
            host(Op::GpuVoltage, Reply::MaybeNumber(None)),
            say("  GPU Vid:        ?"),
            say("  CPU temp limit: ?"),
            host(Op::CpuOcArmed, Reply::Flag(false)),
            say("  boot re-apply:  not armed"),
        ],
    );
    assert_eq!(out, Outcome::Success);
}

#[test]
fn tune_keeps_what_is_not_given() {
    let new = CpuOc { boost_mhz: 3900, ..point() };
    let out = drive(
        cpu(CpuCmd::Tune { boost: Some(3900), scale: None, cpu_temp: None, gpu_temp: None }),
        vec![
            open(),
            host(Op::LoadCpu, Reply::Point(point())),
            host(Op::ApplyCpuFrom { point: new, prev: point() }, Reply::Done),
            host(Op::PredictedVid(new), Reply::Number(1210)),
            say("applied: boost 3900 MHz, curve scale -20 (~1210 mV @ boost), temp 95/90 C"),
            say("note: 3900 MHz is aggressive — stress-test thoroughly."),
            host(Op::SaveCpu(new), Reply::Done),
            host(Op::ArmCpuOc, Reply::Done),
            say("persisted — re-applied on every boot"),
        ],
    );
    assert_eq!(out, Outcome::Success);
}

#[test]
fn tune_of_every_value() {
    let new = CpuOc { boost_mhz: 3850, curve_scale: 0, cpu_temp_c: 80, gpu_temp_c: 70 };
    let out = drive(
        cpu(CpuCmd::Tune {
            boost: Some(3850),
            scale: Some(0),
            cpu_temp: Some(80),
            gpu_temp: Some(70),
        }),
        vec![
            open(),
            host(Op::LoadCpu, Reply::Point(point())),
            host(Op::ApplyCpuFrom { point: new, prev: point() }, Reply::Done),
            host(Op::PredictedVid(new), Reply::Number(1300)),
            say("applied: boost 3850 MHz, curve scale 0 (~1300 mV @ boost), temp 80/70 C"),
            host(Op::SaveCpu(new), Reply::Done),
            host(Op::ArmCpuOc, Reply::Failed(fault("no systemd"))),
            say("(live only — could not install boot service: no systemd)"),
        ],
    );
    assert_eq!(out, Outcome::Success);
}

#[test]
fn refused_point_is_not_persisted() {
    let new = CpuOc { curve_scale: 10, ..point() };
    let out = drive(
        cpu(CpuCmd::Tune { boost: None, scale: Some(10), cpu_temp: None, gpu_temp: None }),
        vec![
            open(),
            host(Op::LoadCpu, Reply::Point(point())),
            host(
                Op::ApplyCpuFrom { point: new, prev: point() },
                Reply::Failed(fault("scale out of range")),
            ),
        ],
    );
    assert_eq!(out, Outcome::Failed(fault("scale out of range")));
}

#[test]
fn undervolt_under_the_ceiling() {
    let base = CpuOc { boost_mhz: 3200, curve_scale: 0, cpu_temp_c: 90, gpu_temp_c: 85 };
    let new = CpuOc { boost_mhz: 3600, curve_scale: -31, ..base };
    let out = drive(
        cpu(CpuCmd::Undervolt { boost: 3600, vid_cap: 1325 }),
        vec![
            open(),
            host(Op::SafeScale { boost: 3600, vid_cap: 1325 }, Reply::Signed(-31)),
            host(Op::DefaultCpu, Reply::Point(base)),
            host(Op::ApplyCpu(new), Reply::Done),
            host(Op::PredictedVid(new), Reply::Number(1111)),
            say("undervolt: boost 3600 MHz, curve scale -31 (~1111 mV predicted @ boost)"),
        ],
    );
    assert_eq!(out, Outcome::Success);
}

#[test]
fn undervolt_above_the_ceiling_is_refused() {
    assert_eq!(
        drive(cpu(CpuCmd::Undervolt { boost: 3600, vid_cap: 1326 }), vec![open()]),
        Outcome::Failed(fault("vid cap 1326 exceeds 1325 mV ceiling"))
    );
}

#[test]
fn forced_vid_and_its_release() {
    assert_eq!(
        drive(
            cpu(CpuCmd::Vid { mv: 1000 }),
            vec![
                open(),
                host(Op::ForceCpuVid(1000), Reply::Done),
                say("forced CPU Vid 1000 mV (capped at 1325 mV)"),
            ]
        ),
        Outcome::Success
    );
    assert_eq!(
        drive(
            cpu(CpuCmd::VidAuto),
            vec![
                open(),
                host(Op::ReleaseCpuVid, Reply::Done),
                say("released CPU Vid to the SMU curve"),
            ]
        ),
        Outcome::Success
    );
}

#[test]
fn restore_drops_the_saved_point() {
    assert_eq!(
        drive(
            cpu(CpuCmd::Restore),
            vec![
                open(),
                host(Op::RestoreCpu, Reply::Done),
                host(Op::ClearSavedCpu, Reply::Failed(fault("not there"))),
                host(Op::DisarmCpuOc, Reply::Done),
                say("CPU restored to firmware defaults (saved OC + boot service removed)"),
            ]
        ),
        Outcome::Success
    );
}

#[test]
fn saved_point_is_applied_again() {
    assert_eq!(
        drive(
            cpu(CpuCmd::ApplySaved),
            vec![
                open(),
                host(Op::CpuSaved, Reply::Flag(true)),
                host(Op::LoadCpu, Reply::Point(point())),
                host(Op::ApplyCpu(point()), Reply::Done),
                host(Op::PredictedVid(point()), Reply::Number(1150)),
                say(
                    "re-applied saved CPU OC: boost 3500 MHz, scale -20 (~1150 mV), temp 95/90 C",
                ),
            ]
        ),
        Outcome::Success
    );
    assert_eq!(
        drive(
            cpu(CpuCmd::ApplySaved),
            vec![
                open(),
                host(Op::CpuSaved, Reply::Flag(false)),
                say("no saved CPU OC — nothing to apply"),
            ]
        ),
        Outcome::Success
    );
}

fn detect(save: Option<&str>) -> Cmd {
    cpu(CpuCmd::Detect {
        target: 4100,
        vid_cap: 1275,
        temp: 90,
        step: 100,
        dwell: 8,
        save: save.map(|s| s.to_string()),
    })
}

fn climb() -> (Action<String>, Reply) {
    say(
        "CPU auto-detect: climb to 4100 MHz, undervolt to <= 1275 mV, 8s/point, temp 90C  (Ctrl-C aborts + restores stock)\n",
    )
}

fn opts() -> SweepOpts {
    SweepOpts { target_mhz: 4100, vid_cap_mv: 1275, temp_c: 90, step: 100, dwell_s: 8 }
}

#[test]
fn detect_prints_the_table_and_saves() {
    let points = vec![
        SweepPoint {
            boost_mhz: 3500,
            scale: -5,
            measured_vid_mv: Some(1180),
            stable: true,
            max_temp: "71".to_string(),
            note: "".to_string(),
        },
        SweepPoint {
            boost_mhz: 10600,
            scale: -50,
            measured_vid_mv: None,
            stable: false,
            max_temp: "100".to_string(),
            note: "torture error".to_string(),
        },
    ];
    let out = drive(
        detect(Some("mine")),
        vec![
            open(),
            (Action::CheckProfileName("mine".to_string()), Reply::Done),
            climb(),
            host(Op::DetectCpu(opts()), Reply::Detected(points, Some(point()))),
            say("   boost   scale       Vid  result    maxT  note"),
            say("  3500MHz      -5    1180 mV  stable     71C  "),
            say(" 10600MHz     -50      -1 mV  FAIL      100C  torture error"),
            host(Op::PredictedVid(point()), Reply::Number(1150)),
            say("\nhighest stable: boost 3500 MHz @ curve scale -20 (~1150 mV)"),
            (
                Action::SaveProfile {
                    name: "mine".to_string(),
                    description: "cpu-detect: boost 3500 MHz, curve scale -20 (stability-swept)"
                        .to_string(),
                    cpu: point(),
                },
                Reply::Text("/var/lib/aputune/profiles/mine.json".to_string()),
            ),
            say("saved profile 'mine' -> /var/lib/aputune/profiles/mine.json"),
        ],
    );
    assert_eq!(out, Outcome::Success);
}

#[test]
fn detect_checks_the_name_before_the_sweep() {
    assert_eq!(
        drive(
            detect(Some("../x")),
            vec![
                open(),
                (
                    Action::CheckProfileName("../x".to_string()),
                    Reply::Failed(fault("bad name")),
                ),
            ]
        ),
        Outcome::Failed(fault("bad name"))
    );
}

#[test]
fn detect_without_a_stable_point() {
    assert_eq!(
        drive(
            detect(None),
            vec![
                open(),
                climb(),
                host(Op::DetectCpu(opts()), Reply::Detected(vec![], None)),
                say("   boost   scale       Vid  result    maxT  note"),
                say("\nno stable point found in range"),
            ]
        ),
        Outcome::Success
    );
}

#[test]
fn detect_saves_nothing_unless_asked() {
    assert_eq!(
        drive(
            detect(None),
            vec![
                open(),
                climb(),
                host(Op::DetectCpu(opts()), Reply::Detected(vec![], Some(point()))),
                say("   boost   scale       Vid  result    maxT  note"),
                host(Op::PredictedVid(point()), Reply::Number(1150)),
                say("\nhighest stable: boost 3500 MHz @ curve scale -20 (~1150 mV)"),
            ]
        ),
        Outcome::Success
    );
}
