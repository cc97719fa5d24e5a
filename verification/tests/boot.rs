use arieltune::boot::{settle_secs, LOW_PIN_MHZ, SETTLE_MANUAL_LOW_S, SETTLE_S};
use arieltune::cli::run;
use arieltune::commands::{Cmd, GpuCmd};
use arieltune::model::{
    AutoMode, BootPlan, Fault, GovernorConfig, PowerConfig, Reply, Site,
};
use arieltune::plan::{Action, Op, Outcome};

type Steps = Vec<(Action<String>, Reply)>;

fn site() -> Site {
    Site {
        modprobe_conf: "/etc/modprobe.d/bc250.conf".to_string(),
        route_unit: "arieltune-route.service".to_string(),
        route_profile: "/var/lib/aputune/route.json".to_string(),
        power_config: "/var/lib/aputune/power.json".to_string(),
        cpu_oc_unit: "arieltune-cpu-oc.service".to_string(),
        sclk_min_mhz: 350,
        sclk_max_mhz: 2230,
        temp_max_c: 100,
        vid_ceiling_mv: 1325,
        boost_warn_mhz: 3850,
    }
}

fn say(text: &str) -> (Action<String>, Reply) {
    (Action::Println(text.to_string()), Reply::Done)
}

fn host(op: Op, reply: Reply) -> (Action<String>, Reply) {
    (Action::Host(op), reply)
}

fn fault(message: &str) -> Fault<String> {
    Fault { message: message.to_string(), chain: message.to_string() }
}

/// Runs a command against a host that expects these actions, in this order, and no others.
fn drive(cmd: Cmd, steps: Steps) -> Outcome<String> {
    let site = site();
    let mut session = run(&site, cmd);
    for (action, reply) in steps {
        assert_eq!(session.action(), Some(&action));
        assert!(session.resume(&site, &reply));
    }
    assert_eq!(session.action(), None);
    session.outcome().unwrap()
}

fn warn(text: &str) -> (Action<String>, Reply) {
    (Action::Eprintln(text.to_string()), Reply::Done)
}

fn power(force_mhz: Option<u32>, force_vid_mv: Option<u32>, auto_mode: AutoMode) -> PowerConfig {
    PowerConfig { top_mhz: 2000, deep_mhz: 350, force_mhz, force_vid_mv, auto_mode }
}

fn tiers() -> GovernorConfig {
    GovernorConfig { high_mhz: 2000, mid_mhz: 1500, idle_mhz: 1000, deep_mhz: 350 }
}

fn boot() -> Cmd {
    Cmd::Gpu { action: GpuCmd::ApplyBoot }
}

#[test]
fn settle_windows() {
    assert_eq!(SETTLE_S, 120);
    assert_eq!(SETTLE_MANUAL_LOW_S, 15);
    assert_eq!(LOW_PIN_MHZ, 1000);
    assert_eq!(settle_secs(&BootPlan::Manual(350)), 15);
    assert_eq!(settle_secs(&BootPlan::Manual(1000)), 15);
    assert_eq!(settle_secs(&BootPlan::Manual(1001)), 120);
    assert_eq!(settle_secs(&BootPlan::FailSafePin(2000)), 15);
    assert_eq!(settle_secs(&BootPlan::Auto), 120);
}

#[test]
fn heat_pin_comes_back_after_the_short_window() {
    let cfg = power(Some(350), None, AutoMode::Governor);
    let out = drive(
        boot(),
        vec![
            host(Op::LoadForBoot, Reply::Boot(BootPlan::Manual(350), Some(cfg))),
            host(Op::Uptime, Reply::Uptime(Some(4_250_000_000))),
            warn("arieltune apu apply-boot: boot-settle — waiting 11s (uptime 4s)"),
            host(Op::Sleep(10_750_000_000), Reply::Done),
            host(Op::LegacyUnits, Reply::Flag(false)),
            host(Op::ForceClock(350), Reply::Number(350)),
            say("manual mode: GFX clock pinned at 350 MHz (power.json force_mhz)"),
        ],
    );
    assert_eq!(out, Outcome::Success);
}

#[test]
fn boot_alias_does_the_same() {
    let cfg = power(Some(350), None, AutoMode::Governor);
    let out = drive(
        Cmd::Gpu { action: GpuCmd::ApplySavedForce },
        vec![
            host(Op::LoadForBoot, Reply::Boot(BootPlan::Manual(350), Some(cfg))),
            host(Op::Uptime, Reply::Uptime(Some(15_000_000_000))),
            host(Op::LegacyUnits, Reply::Flag(false)),
            host(Op::ForceClock(350), Reply::Number(350)),
            say("manual mode: GFX clock pinned at 350 MHz (power.json force_mhz)"),
        ],
    );
    assert_eq!(out, Outcome::Success);
}

#[test]
fn failed_pin_fails_the_boot() {
    let cfg = power(Some(350), None, AutoMode::Governor);
    let out = drive(
        boot(),
        vec![
            host(Op::LoadForBoot, Reply::Boot(BootPlan::Manual(350), Some(cfg))),
            host(Op::Uptime, Reply::Uptime(Some(u64::MAX))),
            host(Op::LegacyUnits, Reply::Flag(false)),
            host(Op::ForceClock(350), Reply::Failed(fault("smu busy"))),
        ],
    );
    assert_eq!(out, Outcome::Failed(fault("smu busy")));
}

#[test]
fn unreadable_uptime_sleeps_the_full_window() {
    let cfg = power(None, None, AutoMode::Released);
    let out = drive(
        boot(),
        vec![
            host(Op::LoadForBoot, Reply::Boot(BootPlan::Auto, Some(cfg))),
            host(Op::Uptime, Reply::Uptime(None)),
            warn(
                "arieltune apu apply-boot: /proc/uptime unreadable — sleeping the full 120s settle (fail-closed)",
            ),
            host(Op::Sleep(120_000_000_000), Reply::Done),
            host(Op::LegacyUnits, Reply::Flag(false)),
            host(Op::ReleaseClock, Reply::Done),
            say("released: GFX clock left to native DPM (BAPM)"),
        ],
    );
    assert_eq!(out, Outcome::Success);
}

#[test]
fn waiting_time_is_rounded_to_even() {
    let cfg = power(None, None, AutoMode::Autosleep);
    let out = drive(
        boot(),
        vec![
            host(Op::LoadForBoot, Reply::Boot(BootPlan::Auto, Some(cfg))),
            host(Op::Uptime, Reply::Uptime(Some(2_500_000_000))),
            warn("arieltune apu apply-boot: boot-settle — waiting 118s (uptime 2s)"),
            host(Op::Sleep(117_500_000_000), Reply::Done),
            host(Op::LegacyUnits, Reply::Flag(false)),
            host(Op::RunAutosleep { idle: 30, deep_force: false }, Reply::Done),
        ],
    );
    assert_eq!(out, Outcome::Success);
}

#[test]
fn corrupt_settings_pin_the_safe_clock() {
    let out = drive(
        boot(),
        vec![
            host(Op::LoadForBoot, Reply::Boot(BootPlan::FailSafePin(350), None)),
            host(
                Op::DefaultPower,
                Reply::Power(power(None, Some(900), AutoMode::Governor)),
            ),
            host(Op::Uptime, Reply::Uptime(Some(60_000_000_000))),
            warn(
                "arieltune apu apply-boot: power.json is CORRUPT — fail-safe: pinning 350 MHz, no auto controller (repair or delete /var/lib/aputune/power.json and re-set the mode)",
            ),
            (
                Action::LogTransition(
                    "apply-boot: corrupt power.json -> fail-safe pin 350".to_string(),
                ),
                Reply::Done,
            ),
            host(Op::ForceClock(350), Reply::Number(350)),
            say("fail-safe: GFX clock pinned at 350 MHz"),
        ],
    );
    assert_eq!(out, Outcome::Success);
}

#[test]
fn persisted_voltage_comes_before_the_governor() {
    let cfg = power(None, Some(887), AutoMode::Governor);
    let out = drive(
        boot(),
        vec![
            host(Op::LoadForBoot, Reply::Boot(BootPlan::Auto, Some(cfg))),
            host(Op::Uptime, Reply::Uptime(Some(120_000_000_000))),
            host(Op::LoadGovernor, Reply::Governor(tiers())),
            host(Op::FloorClock { cfg, governor: tiers() }, Reply::Number(2000)),
            host(Op::SetVddc { clk: 2000, mv: 887 }, Reply::Flag(true)),
            say("re-applied GPU voltage 887 mV at 2000 MHz (overdrive)"),
            host(Op::LegacyUnits, Reply::Flag(false)),
            host(Op::LoadGovernor, Reply::Governor(tiers())),
            host(Op::RunGovernor(tiers()), Reply::Done),
        ],
    );
    assert_eq!(out, Outcome::Success);
}

#[test]
fn voltage_failure_does_not_stop_the_pin() {
    let cfg = power(Some(1500), Some(887), AutoMode::Governor);
    let out = drive(
        boot(),
        vec![
            host(Op::LoadForBoot, Reply::Boot(BootPlan::Manual(1500), Some(cfg))),
            host(Op::Uptime, Reply::Uptime(Some(500_000_000_000))),
            host(Op::LoadGovernor, Reply::Governor(tiers())),
            host(Op::FloorClock { cfg, governor: tiers() }, Reply::Number(2000)),
            host(Op::SetVddc { clk: 2000, mv: 887 }, Reply::Flag(false)),
            warn("GPU voltage re-apply failed (overdrive off?)"),
            host(Op::LegacyUnits, Reply::Flag(false)),
            host(Op::ForceClock(1500), Reply::Number(1500)),
            say("manual mode: GFX clock pinned at 1500 MHz (power.json force_mhz)"),
        ],
    );
    assert_eq!(out, Outcome::Success);
}

#[test]
fn legacy_units_keep_the_clock() {
    let cfg = power(Some(350), None, AutoMode::Governor);
    let out = drive(
        boot(),
        vec![
            host(Op::LoadForBoot, Reply::Boot(BootPlan::Manual(350), Some(cfg))),
            host(Op::Uptime, Reply::Uptime(Some(500_000_000_000))),
            host(Op::LegacyUnits, Reply::Flag(true)),
            say(
                "legacy GPU unit(s) still enabled — skipping manual clock re-apply (un-migrated host)",
            ),
        ],
    );
    assert_eq!(out, Outcome::Success);
    let out = drive(
        boot(),
        vec![
            host(
                Op::LoadForBoot,
                Reply::Boot(BootPlan::Auto, Some(power(None, None, AutoMode::Governor))),
            ),
            host(Op::Uptime, Reply::Uptime(Some(500_000_000_000))),
            host(Op::LegacyUnits, Reply::Flag(true)),
            say(
                "legacy GPU unit(s) still enabled — leaving auto mode to them (un-migrated host; a gpu mode command migrates)",
            ),
        ],
    );
    assert_eq!(out, Outcome::Success);
}
