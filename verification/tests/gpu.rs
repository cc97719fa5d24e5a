use arieltune::cli::run;
use arieltune::commands::{Cmd, GpuCmd};
use arieltune::model::{
    AutoMode, CpuOc, Fault, ForceOutcome, GovernorConfig, PowerConfig, Reply, Site, VidRaise,
};
use arieltune::plan::{Action, Op, Outcome};

type Steps = Vec<(Action<String>, Reply)>;

fn site() -> Site {
    Site {
        modprobe_conf: "/etc/modprobe.d/bc250.conf".to_string(),
        route_unit: "arieltune-route.service".to_string(),
        route_profile: "/var/lib/aputune/route.json".to_string(),
        power_config: "/var/lib/aputune/power.json".to_string(),
        cpu_oc_unit: "arieltune-cpu-oc.service".to_string(),
        sclk_min_mhz: 350,
        sclk_max_mhz: 2230,
        temp_max_c: 100,
        vid_ceiling_mv: 1325,
        boost_warn_mhz: 3850,
    }
}

fn say(text: &str) -> (Action<String>, Reply) {
    (Action::Println(text.to_string()), Reply::Done)
}

fn host(op: Op, reply: Reply) -> (Action<String>, Reply) {
    (Action::Host(op), reply)
}

fn fault(message: &str) -> Fault<String> {
    Fault { message: message.to_string(), chain: message.to_string() }
}

/// Runs a command against a host that expects these actions, in this order, and no others.
fn drive(cmd: Cmd, steps: Steps) -> Outcome<String> {
    let site = site();
    let mut session = run(&site, cmd);
    for (action, reply) in steps {
        assert_eq!(session.action(), Some(&action));
        assert!(session.resume(&site, &reply));
    }
    assert_eq!(session.action(), None);
    session.outcome().unwrap()
}

fn warn(text: &str) -> (Action<String>, Reply) {
    (Action::Eprintln(text.to_string()), Reply::Done)
}

fn gpu(action: GpuCmd) -> Cmd {
    Cmd::Gpu { action }
}

fn power(force_mhz: Option<u32>, force_vid_mv: Option<u32>) -> PowerConfig {
    PowerConfig {
        top_mhz: 2000,
        deep_mhz: 350,
        force_mhz,
        force_vid_mv,
        auto_mode: AutoMode::Governor,
    }
}

fn tiers() -> GovernorConfig {
    GovernorConfig { high_mhz: 2000, mid_mhz: 1500, idle_mhz: 1000, deep_mhz: 350 }
}

#[test]
fn status_prefers_the_telemetry_node() {
    let out = drive(
        gpu(GpuCmd::Status),
        vec![
            host(Op::LoadPower, Reply::Power(power(Some(350), Some(900)))),
            say("GPU power (app-driven):"),
            say("  top (active):     2000 MHz"),
            say("  deep (idle):      350 MHz"),
            say("  manual pin:       350 MHz (force_mhz ARMED — wins at boot)"),
            host(Op::ModeName(AutoMode::Governor), Reply::Text("governor".to_string())),
            say("  auto mode:        governor"),
            say("  forced GPU Vid:   900 mV (persisted)"),
            host(
                Op::TelemetryNode,
                Reply::MaybeText(Some("Vddc: 900 mV\nGfxClk:\nGfxClk:  1500 MHz\n".to_string())),
            ),
            say("  current GfxClk:    1500 MHz"),
        ],
    );
    assert_eq!(out, Outcome::Success);
}

#[test]
fn status_falls_back_to_the_driver() {
    let head = |telemetry: Reply, sclk: Option<u32>, last: &str| {
        drive(
            gpu(GpuCmd::Status),
            vec![
                host(Op::LoadPower, Reply::Power(power(None, None))),
                say("GPU power (app-driven):"),
                say("  top (active):     2000 MHz"),
                say("  deep (idle):      350 MHz"),
                say("  manual pin:       none"),
                host(Op::ModeName(AutoMode::Governor), Reply::Text("governor".to_string())),
                say("  auto mode:        governor"),
                say("  forced GPU Vid:   none (SMU-managed)"),
                host(Op::TelemetryNode, telemetry),
                host(Op::CurrentSclk, Reply::MaybeNumber(sclk)),
                say(last),
            ],
        )
    };
    assert_eq!(
        head(Reply::Failed(fault("no smu")), Some(1000), "  current GfxClk:    1000 MHz"),
        Outcome::Success
    );
    assert_eq!(
        head(Reply::MaybeText(None), None, "  current GfxClk:    unknown"),
        Outcome::Success
    );
    assert_eq!(
        head(
            Reply::MaybeText(Some("no clock here".to_string())),
            Some(0),
            "  current GfxClk:    0 MHz"
        ),
        Outcome::Success
    );
}

#[test]
fn force_reports_raise_clamp_and_hold() {
    let out = drive(
        gpu(GpuCmd::Force { mhz: 9000 }),
        vec![
            host(
                Op::ForceMode(9000),
                Reply::Forced(ForceOutcome {
                    set_mhz: 2230,
                    vid_raised: Some(VidRaise { old_mv: 887, floor_mv: 1050 }),
                    held: false,
                }),
            ),
            say("note: raised GPU undervolt 887 -> 1050 mV (safe floor for 2230 MHz)"),
            say(
                "GFX clock forced to 2230 MHz (clamped from 9000); LIVE-ONLY — will NOT survive a reboot",
            ),
            warn(
                "WARNING: could not install the boot re-apply service — this pin is REBOOT-UNSAFE. Re-run as root, or the clock reverts to auto on reboot.",
            ),
        ],
    );
    assert_eq!(out, Outcome::Success);
    let out = drive(
        gpu(GpuCmd::Force { mhz: 1500 }),
        vec![
            host(
                Op::ForceMode(1500),
                Reply::Forced(ForceOutcome { set_mhz: 1500, vid_raised: None, held: true }),
            ),
            say("GFX clock forced to 1500 MHz; manual mode — sticks across reboots"),
        ],
    );
    assert_eq!(out, Outcome::Success);
}

#[test]
fn unforce_names_the_mode_that_resumes() {
    let out = drive(
        gpu(GpuCmd::Unforce),
        vec![
            host(Op::UnforceMode, Reply::Mode(AutoMode::Autosleep)),
            host(Op::ModeName(AutoMode::Autosleep), Reply::Text("autosleep".to_string())),
            say("GFX clock + voltage released — auto mode (autosleep) resumed"),
        ],
    );
    assert_eq!(out, Outcome::Success);
}

#[test]
fn pin_is_clamped_and_raises_the_voltage_first() {
    let cfg = power(None, Some(887));
    let out = drive(
        gpu(GpuCmd::Pin { mhz: 3000 }),
        vec![
            host(Op::StopGpuUnit, Reply::Done),
            host(Op::LoadPower, Reply::Power(cfg)),
            host(
                Op::RequiredRaise { cfg, mhz: 2230 },
                Reply::Raise(Some(VidRaise { old_mv: 887, floor_mv: 1050 })),
            ),
            host(Op::SetVddc { clk: 2230, mv: 1050 }, Reply::Flag(true)),
            say("note: raised GPU voltage 887 -> 1050 mV for the pin (transient)"),
            host(Op::ForceClock(2230), Reply::Number(2230)),
            say("pinned 2230 MHz (transient — GPU power unit stopped; run `gpu unpin` after)"),
        ],
    );
    assert_eq!(out, Outcome::Success);
}

#[test]
fn failed_pin_starts_the_unit_again() {
    let cfg = power(None, None);
    let out = drive(
        gpu(GpuCmd::Pin { mhz: 10 }),
        vec![
            host(Op::StopGpuUnit, Reply::Done),
            host(Op::LoadPower, Reply::Power(cfg)),
            host(Op::RequiredRaise { cfg, mhz: 350 }, Reply::Raise(None)),
            host(Op::ForceClock(350), Reply::Failed(fault("no mailbox"))),
            host(Op::StartGpuUnit, Reply::Done),
        ],
    );
    assert_eq!(
        out,
        Outcome::Failed(Fault {
            message: "pin failed (GPU power unit restarted)".to_string(),
            chain: "pin failed (GPU power unit restarted): no mailbox".to_string(),
        })
    );
}

#[test]
fn pin_is_refused_on_a_starved_rail() {
    let cfg = power(None, Some(800));
    let out = drive(
        gpu(GpuCmd::Pin { mhz: 2000 }),
        vec![
            host(Op::StopGpuUnit, Reply::Done),
            host(Op::LoadPower, Reply::Power(cfg)),
            host(
                Op::RequiredRaise { cfg, mhz: 2000 },
                Reply::Raise(Some(VidRaise { old_mv: 800, floor_mv: 1000 })),
            ),
            host(Op::SetVddc { clk: 2000, mv: 1000 }, Reply::Flag(false)),
            host(Op::StartGpuUnit, Reply::Done),
        ],
    );
    assert_eq!(
        out,
        Outcome::Failed(Fault {
            message: "pin failed (GPU power unit restarted)".to_string(),
            chain: "pin failed (GPU power unit restarted): cannot raise GPU undervolt 800 -> 1000 mV for 2000 MHz (overdrive write failed) — refusing to pin onto a starved rail".to_string(),
        })
    );
}

#[test]
fn unpin_releases_and_restarts() {
    let out = drive(
        gpu(GpuCmd::Unpin),
        vec![
            host(Op::ReleaseClock, Reply::Done),
            host(Op::StartGpuUnit, Reply::Done),
            say("unpinned — GPU power unit restarted (persisted mode resumes)"),
        ],
    );
    assert_eq!(out, Outcome::Success);
    let out = drive(
        gpu(GpuCmd::Unpin),
        vec![host(Op::ReleaseClock, Reply::Failed(fault("no smu")))],
    );
    assert_eq!(out, Outcome::Failed(fault("no smu")));
}

#[test]
fn vid_below_the_floor_is_refused() {
    let cfg = power(None, None);
    let out = drive(
        gpu(GpuCmd::Vid { mv: 800 }),
        vec![
            host(Op::LockConfig, Reply::Done),
            host(Op::LoadPower, Reply::Power(cfg)),
            host(Op::LoadGovernor, Reply::Governor(tiers())),
            host(Op::FloorClock { cfg, governor: tiers() }, Reply::Number(2000)),
            host(Op::MinVddc(2000), Reply::Number(950)),
        ],
    );
    assert_eq!(
        out,
        Outcome::Failed(fault(
            "800 mV is below the safe floor 950 mV for 2000 MHz — that undervolt would crash the GPU. Raise the voltage, or lower the clock first (set-top)."
        ))
    );
}

#[test]
fn vid_at_the_floor_is_set_and_persisted() {
    let cfg = power(Some(1500), None);
    let steps = |installed: bool, last: &str| {
        vec![
            host(Op::LockConfig, Reply::Done),
            host(Op::LoadPower, Reply::Power(cfg)),
            host(Op::LoadGovernor, Reply::Governor(tiers())),
            host(Op::FloorClock { cfg, governor: tiers() }, Reply::Number(2000)),
            host(Op::MinVddc(2000), Reply::Number(950)),
            host(Op::SetVddc { clk: 2000, mv: 950 }, Reply::Flag(true)),
            host(
                Op::SavePower(PowerConfig { force_vid_mv: Some(950), ..cfg }),
                Reply::Done,
            ),
            host(Op::GpuUnitInstalled, Reply::Flag(installed)),
            say(last),
        ]
    };
    assert_eq!(
        drive(
            gpu(GpuCmd::Vid { mv: 950 }),
            steps(
                true,
                "GPU voltage set to 950 mV at the high clock — persisted, re-applied at boot"
            )
        ),
        Outcome::Success
    );
    assert_eq!(
        drive(
            gpu(GpuCmd::Vid { mv: 950 }),
            steps(
                false,
                "GPU voltage set to 950 mV at the high clock (live now; run a gpu mode command to install the boot unit)"
            )
        ),
        Outcome::Success
    );
}

#[test]
fn vid_that_cannot_be_set_is_not_persisted() {
    let cfg = power(None, None);
    let out = drive(
        gpu(GpuCmd::Vid { mv: 1300 }),
        vec![
            host(Op::LockConfig, Reply::Done),
            host(Op::LoadPower, Reply::Power(cfg)),
            host(Op::LoadGovernor, Reply::Governor(tiers())),
            host(Op::FloorClock { cfg, governor: tiers() }, Reply::Number(2000)),
            host(Op::MinVddc(2000), Reply::Number(950)),
            host(Op::SetVddc { clk: 2000, mv: 1300 }, Reply::Flag(false)),
        ],
    );
    assert_eq!(
        out,
        Outcome::Failed(fault(
            "voltage set failed — overdrive off (amdgpu.ppfeaturemask) or need root, or 1300 mV is outside the OD_RANGE VDDC"
        ))
    );
}

#[test]
fn unforce_vid_clears_the_voltage() {
    let cfg = power(Some(1500), Some(900));
    let out = drive(
        gpu(GpuCmd::UnforceVid),
        vec![
            host(Op::ResetVddc, Reply::Flag(true)),
            host(Op::LockConfig, Reply::Done),
            host(Op::LoadPower, Reply::Power(cfg)),
            host(Op::SavePower(PowerConfig { force_vid_mv: None, ..cfg }), Reply::Done),
            say("GPU voltage released — stock SMU-managed curve restored"),
        ],
    );
    assert_eq!(out, Outcome::Success);
    let out = drive(
        gpu(GpuCmd::UnforceVid),
        vec![host(Op::ResetVddc, Reply::Flag(false))],
    );
    assert_eq!(
        out,
        Outcome::Failed(fault("voltage reset failed — overdrive off or need root"))
    );
}

#[test]
fn wake_is_refused_while_a_pin_is_persisted() {
    let out = drive(
        gpu(GpuCmd::Wake { override_pin: false }),
        vec![host(Op::LoadPower, Reply::Power(power(Some(350), None)))],
    );
    assert_eq!(
        out,
        Outcome::Failed(fault(
            "a manual clock pin is persisted at 350 MHz (possibly a heat-safety pin) — `wake` would silently override it. Release it first (`gpu unforce`) or pass --override-pin."
        ))
    );
}

#[test]
fn deep_sleep_overrides_a_pin_where_asked() {
    let out = drive(
        gpu(GpuCmd::DeepSleep { override_pin: true }),
        vec![
            host(Op::LoadPower, Reply::Power(power(Some(1000), None))),
            warn(
                "WARNING: overriding the persisted 1000 MHz manual pin with `deep-sleep` (--override-pin) — the pin re-asserts on the next unit restart/boot",
            ),
            host(Op::ForceClock(350), Reply::Number(350)),
            say("deep-sleep at 350 MHz"),
        ],
    );
    assert_eq!(out, Outcome::Success);
}

#[test]
fn wake_without_a_pin() {
    let out = drive(
        gpu(GpuCmd::Wake { override_pin: false }),
        vec![
            host(Op::LoadPower, Reply::Power(power(None, None))),
            host(Op::ForceClock(2000), Reply::Number(2000)),
            say("woke to 2000 MHz"),
        ],
    );
    assert_eq!(out, Outcome::Success);
}

#[test]
fn level_is_set_as_given() {
    let out = drive(
        gpu(GpuCmd::Level { level: "profile_standard".to_string(), override_pin: false }),
        vec![
            host(Op::LoadPower, Reply::Power(power(None, None))),
            (
                Action::SetPerformanceLevel("profile_standard".to_string()),
                Reply::Done,
            ),
            say("performance level set: profile_standard"),
        ],
    );
    assert_eq!(out, Outcome::Success);
    let out = drive(
        gpu(GpuCmd::Level { level: "low".to_string(), override_pin: false }),
        vec![host(Op::LoadPower, Reply::Power(power(Some(1500), None)))],
    );
    assert_eq!(
        out,
        Outcome::Failed(fault(
            "a manual clock pin is persisted at 1500 MHz (possibly a heat-safety pin) — `level` would silently override it. Release it first (`gpu unforce`) or pass --override-pin."
        ))
    );
}

#[test]
fn set_top_raises_a_stale_undervolt() {
    let cfg = power(Some(1500), Some(887));
    let with_top = PowerConfig { top_mhz: 2230, ..cfg };
    let governor = GovernorConfig { high_mhz: 2230, ..tiers() };
    let out = drive(
        gpu(GpuCmd::SetTop { mhz: 2230 }),
        vec![
            host(Op::LockConfig, Reply::Done),
            host(Op::LoadPower, Reply::Power(cfg)),
            host(Op::SetTop { cfg, mhz: 2230 }, Reply::Power(with_top)),
            host(Op::LoadGovernor, Reply::Governor(tiers())),
            host(Op::ValidateLadder(governor), Reply::Done),
            host(Op::EffectiveTop(with_top), Reply::Number(2230)),
            host(Op::MinVddc(2230), Reply::Number(1050)),
            host(Op::SetVddc { clk: 2230, mv: 1050 }, Reply::Flag(false)),
            say("note: raised GPU undervolt 887 -> 1050 mV (safe floor for 2230 MHz)"),
            host(
                Op::SavePower(PowerConfig { force_vid_mv: Some(1050), ..with_top }),
                Reply::Done,
            ),
            host(Op::SaveGovernor(governor), Reply::Done),
            host(Op::ReloadIfAuto, Reply::Done),
            say("top/high setpoint = 2230 MHz (persisted)"),
        ],
    );
    assert_eq!(out, Outcome::Success);
}

#[test]
fn set_top_takes_the_floor_of_the_highest_clock() {
    let cfg = power(Some(2100), Some(1100));
    let with_top = PowerConfig { top_mhz: 1200, ..cfg };
    let governor = GovernorConfig { high_mhz: 1200, ..tiers() };
    let out = drive(
        gpu(GpuCmd::SetTop { mhz: 1200 }),
        vec![
            host(Op::LockConfig, Reply::Done),
            host(Op::LoadPower, Reply::Power(cfg)),
            host(Op::SetTop { cfg, mhz: 1200 }, Reply::Power(with_top)),
            host(Op::LoadGovernor, Reply::Governor(tiers())),
            host(Op::ValidateLadder(governor), Reply::Done),
            host(Op::EffectiveTop(with_top), Reply::Number(1300)),
            host(Op::MinVddc(2100), Reply::Number(1000)),
            host(Op::SavePower(with_top), Reply::Done),
            host(Op::SaveGovernor(governor), Reply::Done),
            host(Op::ReloadIfAuto, Reply::Done),
            say("top/high setpoint = 1200 MHz (persisted)"),
        ],
    );
    assert_eq!(out, Outcome::Success);
}

#[test]
fn inverted_ladder_is_not_saved() {
    let governor = GovernorConfig { mid_mhz: 2500, ..tiers() };
    let out = drive(
        gpu(GpuCmd::SetMid { mhz: 2500 }),
        vec![
            host(Op::LoadGovernor, Reply::Governor(tiers())),
            host(Op::ValidateLadder(governor), Reply::Failed(fault("ladder out of order"))),
        ],
    );
    assert_eq!(out, Outcome::Failed(fault("ladder out of order")));
}

#[test]
fn mid_and_idle_tiers_are_saved() {
    let mid = GovernorConfig { mid_mhz: 1600, ..tiers() };
    let out = drive(
        gpu(GpuCmd::SetMid { mhz: 1600 }),
        vec![
            host(Op::LoadGovernor, Reply::Governor(tiers())),
            host(Op::ValidateLadder(mid), Reply::Done),
            host(Op::SaveGovernor(mid), Reply::Done),
            host(Op::ReloadIfAuto, Reply::Done),
            say("mid setpoint = 1600 MHz (persisted)"),
        ],
    );
    assert_eq!(out, Outcome::Success);
    let idle = GovernorConfig { idle_mhz: 900, ..tiers() };
    let out = drive(
        gpu(GpuCmd::SetIdle { mhz: 900 }),
        vec![
            host(Op::LoadGovernor, Reply::Governor(tiers())),
            host(Op::ValidateLadder(idle), Reply::Done),
            host(Op::SaveGovernor(idle), Reply::Done),
            host(Op::ReloadIfAuto, Reply::Done),
            say("idle setpoint = 900 MHz (persisted)"),
        ],
    );
    assert_eq!(out, Outcome::Success);
}

#[test]
fn deep_tier_is_saved_in_both_settings() {
    let cfg = power(None, None);
    let with_deep = PowerConfig { deep_mhz: 500, ..cfg };
    let governor = GovernorConfig { deep_mhz: 500, ..tiers() };
    let out = drive(
        gpu(GpuCmd::SetDeep { mhz: 500 }),
        vec![
            host(Op::LockConfig, Reply::Done),
            host(Op::LoadPower, Reply::Power(cfg)),
            host(Op::SetDeep { cfg, mhz: 500 }, Reply::Power(with_deep)),
            host(Op::LoadGovernor, Reply::Governor(tiers())),
            host(Op::ValidateLadder(governor), Reply::Done),
            host(Op::SavePower(with_deep), Reply::Done),
            host(Op::SaveGovernor(governor), Reply::Done),
            host(Op::ReloadIfAuto, Reply::Done),
            say("deep setpoint = 500 MHz (persisted)"),
        ],
    );
    assert_eq!(out, Outcome::Success);
    let out = drive(
        gpu(GpuCmd::SetDeep { mhz: 1 }),
        vec![
            host(Op::LockConfig, Reply::Done),
            host(Op::LoadPower, Reply::Power(cfg)),
            host(Op::SetDeep { cfg, mhz: 1 }, Reply::Failed(fault("out of range"))),
        ],
    );
    assert_eq!(out, Outcome::Failed(fault("out of range")));
}

#[test]
fn temp_cap_changes_the_cap_alone() {
    let point = CpuOc { boost_mhz: 3500, curve_scale: -20, cpu_temp_c: 90, gpu_temp_c: 90 };
    let head = |c: u32| {
        vec![
            host(Op::LoadCpu, Reply::Point(point)),
            host(Op::SaveCpu(CpuOc { gpu_temp_c: c, ..point }), Reply::Done),
        ]
    };
    let tail = |c: u32| {
        vec![
            host(Op::ArmCpuOc, Reply::Failed(fault("no systemd"))),
            host(Op::ReloadIfAuto, Reply::Done),
            say(&format!("gpu temp cap = {c} C (persisted; governor demotes to hold it)")),
        ]
    };
    let mut steps = head(60);
    steps.push(host(Op::OpenOc, Reply::Done));
    steps.push(host(Op::SetGpuTemp(60), Reply::Done));
    steps.extend(tail(60));
    assert_eq!(drive(gpu(GpuCmd::TempCap { c: 60 }), steps), Outcome::Success);
    let mut steps = head(100);
    steps.push(host(Op::OpenOc, Reply::Failed(fault("no root"))));
    steps.extend(tail(100));
    assert_eq!(drive(gpu(GpuCmd::TempCap { c: 100 }), steps), Outcome::Success);
}

#[test]
fn temp_cap_out_of_range_does_nothing() {
    for c in [0, 59, 101, u32::MAX] {
        assert_eq!(
            drive(gpu(GpuCmd::TempCap { c }), vec![]),
            Outcome::Failed(fault(&format!("gpu temp cap {c} C outside 60-100 C")))
        );
    }
}

#[test]
fn mode_switches_drop_the_pin() {
    let cfg = power(Some(350), Some(900));
    let switch = |mode: AutoMode, log: &str, line: &str| {
        vec![
            host(Op::LockConfig, Reply::Done),
            host(Op::LoadPower, Reply::Power(cfg)),
            host(
                Op::SavePower(PowerConfig { force_mhz: None, auto_mode: mode, ..cfg }),
                Reply::Done,
            ),
            (Action::LogTransition(log.to_string()), Reply::Done),
            host(Op::ApplyMode, Reply::Done),
            say(line),
        ]
    };
    let mut on = vec![host(Op::ReleaseClock, Reply::Failed(fault("no smu")))];
    on.extend(switch(
        AutoMode::Governor,
        "governor-on",
        "auto governor: ON (persists across reboot)",
    ));
    assert_eq!(drive(gpu(GpuCmd::GovernorOn), on), Outcome::Success);
    let mut off = vec![host(Op::ReleaseClock, Reply::Done)];
    off.extend(switch(
        AutoMode::Released,
        "governor-off -> released",
        "auto governor: OFF — released (native DPM)",
    ));
    assert_eq!(drive(gpu(GpuCmd::GovernorOff), off), Outcome::Success);
    assert_eq!(
        drive(
            gpu(GpuCmd::AutosleepOn),
            switch(
                AutoMode::Autosleep,
                "autosleep-on",
                "autosleep: ON (poke-driven; persists across reboot)"
            )
        ),
        Outcome::Success
    );
}

#[test]
fn mode_that_cannot_be_saved_is_not_enacted() {
    let cfg = power(None, None);
    let out = drive(
        gpu(GpuCmd::AutosleepOn),
        vec![
            host(Op::LockConfig, Reply::Done),
            host(Op::LoadPower, Reply::Power(cfg)),
            host(
                Op::SavePower(PowerConfig { auto_mode: AutoMode::Autosleep, ..cfg }),
                Reply::Failed(fault("read-only file system")),
            ),
        ],
    );
    assert_eq!(out, Outcome::Failed(fault("read-only file system")));
}

#[test]
fn daemons_and_poke() {
    assert_eq!(
        drive(gpu(GpuCmd::Poke), vec![host(Op::Poke, Reply::Done)]),
        Outcome::Success
    );
    assert_eq!(
        drive(
            gpu(GpuCmd::Autosleep { idle: 45, deep_force: true }),
            vec![host(Op::RunAutosleep { idle: 45, deep_force: true }, Reply::Done)]
        ),
        Outcome::Success
    );
    assert_eq!(
        drive(
            gpu(GpuCmd::Governor),
            vec![
                host(Op::LoadGovernor, Reply::Governor(tiers())),
                host(Op::RunGovernor(tiers()), Reply::Done),
            ]
        ),
        Outcome::Success
    );
}

#[test]
fn telemetry_is_printed_as_it_is() {
    let out = drive(
        gpu(GpuCmd::Telemetry),
        vec![
            host(Op::TelemetryNode, Reply::MaybeText(Some("a\nb\n".to_string()))),
            (Action::Print("a\nb\n".to_string()), Reply::Done),
        ],
    );
    assert_eq!(out, Outcome::Success);
    let out = drive(
        gpu(GpuCmd::Telemetry),
        vec![
            host(Op::TelemetryNode, Reply::MaybeText(None)),
            say("telemetry node not present (patch 11)"),
        ],
    );
    assert_eq!(out, Outcome::Success);
}
