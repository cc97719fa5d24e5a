//! The boot entry of the GPU power unit.
use vstd::prelude::*;

use crate::model::{AutoMode, BootPlan, PowerConfig, Site};
use crate::plan::{act, ask, go, must, say, warn, Action, Op, Plan, Script, Spot, Then};
use crate::text::{dec, Line};

verus! {

/// The seconds of uptime before which an auto mode or a high pin leaves the GPU alone.
pub const SETTLE_S: u64 = 120;

/// The seconds of uptime before which a low pin leaves the GPU alone.
pub const SETTLE_MANUAL_LOW_S: u64 = 15;

/// The highest clock of a low pin.
pub const LOW_PIN_MHZ: u32 = 1000;

/// Nanoseconds in a second.
pub const SECOND: u64 = 1_000_000_000;

/// Opens the boot entry.
pub fn gpu_apply_boot() -> (s: Script)
    ensures
        s@ == seq![ask(Op::LoadForBoot, Spot::BootLoaded)],
{
    Script::new().ask(Op::LoadForBoot, Spot::BootLoaded)
}

/// The uptime in seconds before which the GPU is left alone.
pub open spec fn settle(plan: BootPlan) -> u64 {
    match plan {
        BootPlan::Manual(m) => if m <= LOW_PIN_MHZ {
            SETTLE_MANUAL_LOW_S
        } else {
            SETTLE_S
        },
        BootPlan::FailSafePin(_) => SETTLE_MANUAL_LOW_S,
        BootPlan::Auto => SETTLE_S,
    }
}

/// The uptime in seconds before which the GPU is left alone.
pub fn settle_secs(plan: &BootPlan) -> (secs: u64)
    ensures
        secs == settle(*plan),
{
    match plan {
        BootPlan::Manual(m) => if *m <= LOW_PIN_MHZ {
            SETTLE_MANUAL_LOW_S
        } else {
            SETTLE_S
        },
        BootPlan::FailSafePin(_) => SETTLE_MANUAL_LOW_S,
        BootPlan::Auto => SETTLE_S,
    }
}

/// The settings that could be loaded are enacted; else the default ones.
pub open spec fn boot_loaded_plan(plan: BootPlan, loaded: Option<PowerConfig>) -> Plan {
    match loaded {
        Some(cfg) => seq![ask(Op::Uptime, Spot::BootUptime { plan, cfg })],
        None => seq![ask(Op::DefaultPower, Spot::BootDefault(plan))],
    }
}

/// Goes on with the boot once the plan is known.
pub fn boot_loaded(plan: &BootPlan, loaded: &Option<PowerConfig>) -> (s: Script)
    ensures
        s@ == boot_loaded_plan(*plan, *loaded),
{
    match loaded {
        Some(cfg) => Script::new().ask(Op::Uptime, Spot::BootUptime { plan: *plan, cfg: *cfg }),
        None => Script::new().ask(Op::DefaultPower, Spot::BootDefault(*plan)),
    }
}

/// Whole seconds: the nearest number, and the even one of two that are as near.
pub open spec fn rounded(ns: nat) -> nat {
    let q = ns / SECOND as nat;
    let r = ns % SECOND as nat;
    if 2 * r > SECOND || (2 * r == SECOND && q % 2 == 1) {
        q + 1
    } else {
        q
    }
}

fn rounded_secs(ns: u64) -> (secs: u64)
    ensures
        secs == rounded(ns as nat),
{
    let q: u64 = ns / SECOND;
    let r: u64 = ns % SECOND;
    if 2 * r > SECOND || (2 * r == SECOND && q % 2 == 1) {
        q + 1
    } else {
        q
    }
}

/// What is left of the settle window is slept; all of it where the uptime cannot be read.
pub open spec fn settle_plan(plan: BootPlan, uptime: Option<u64>) -> Plan {
    let window = settle(plan) * SECOND;
    match uptime {
        Some(up) => if up >= window {
            Plan::empty()
        } else {
            seq![
                warn(
                    "arieltune apu apply-boot: boot-settle — waiting "@ + dec(
                        rounded((window - up) as nat),
                    ) + "s (uptime "@ + dec(rounded(up as nat)) + "s)"@,
                ),
                go(Op::Sleep((window - up) as u64)),
            ]
        },
        None => seq![
            warn(
                "arieltune apu apply-boot: /proc/uptime unreadable — sleeping the full "@ + dec(
                    settle(plan) as nat,
                ) + "s settle (fail-closed)"@,
            ),
            go(Op::Sleep(window as u64)),
        ],
    }
}

fn settle_wait(plan: &BootPlan, uptime: &Option<u64>) -> (s: Script)
    ensures
        s@ == settle_plan(*plan, *uptime),
{
    let secs: u64 = settle_secs(plan);
    let window: u64 = secs * SECOND;
    match uptime {
        Some(up) => if *up >= window {
            Script::new()
        } else {
            let wait: u64 = window - *up;
            Script::new().warn(
                Line::new("arieltune apu apply-boot: boot-settle — waiting ").long(
                    rounded_secs(wait),
                ).text("s (uptime ").long(rounded_secs(*up)).text("s)"),
            ).go(Op::Sleep(wait))
        },
        None => Script::new().warn(
            Line::new(
                "arieltune apu apply-boot: /proc/uptime unreadable — sleeping the full ",
            ).long(secs).text("s settle (fail-closed)"),
        ).go(Op::Sleep(window)),
    }
}

/// What follows the settle window. A fail-safe pin is all there is; else the persisted voltage
/// comes before anything that sets the clock.
pub open spec fn enact_plan(site: Site, plan: BootPlan, cfg: PowerConfig) -> Plan {
    match plan {
        BootPlan::FailSafePin(m) => seq![
            warn(
                "arieltune apu apply-boot: power.json is CORRUPT — fail-safe: pinning "@ + dec(
                    m as nat,
                ) + " MHz, no auto controller (repair or delete "@ + site.power_config@
                    + " and re-set the mode)"@,
            ),
            act(
                Action::LogTransition(
                    "apply-boot: corrupt power.json -> fail-safe pin "@ + dec(m as nat),
                ),
                Then::Proceed,
            ),
            ask(Op::ForceClock(m), Spot::FailSafePinned),
        ],
        _ => match cfg.force_vid_mv {
            Some(mv) => seq![
                ask(Op::LoadGovernor, Spot::BootVidGovernor { mv, cfg }),
                ask(Op::LegacyUnits, Spot::BootLegacy { plan, cfg }),
            ],
            None => seq![ask(Op::LegacyUnits, Spot::BootLegacy { plan, cfg })],
        },
    }
}

fn enact(site: &Site, plan: &BootPlan, cfg: &PowerConfig) -> (s: Script)
    ensures
        s@ == enact_plan(*site, *plan, *cfg),
{
    if let BootPlan::FailSafePin(m) = plan {
        return Script::new().warn(
            Line::new("arieltune apu apply-boot: power.json is CORRUPT — fail-safe: pinning ").num(
                *m,
            ).text(" MHz, no auto controller (repair or delete ").text(
                site.power_config.as_str(),
            ).text(" and re-set the mode)"),
        ).act(
            Action::LogTransition(
                Line::new("apply-boot: corrupt power.json -> fail-safe pin ").num(*m).done(),
            ),
            Then::Proceed,
        ).ask(Op::ForceClock(*m), Spot::FailSafePinned);
    }
    match cfg.force_vid_mv {
        Some(mv) => Script::new().ask(
            Op::LoadGovernor,
            Spot::BootVidGovernor { mv, cfg: *cfg },
        ).ask(Op::LegacyUnits, Spot::BootLegacy { plan: *plan, cfg: *cfg }),
        None => Script::new().ask(Op::LegacyUnits, Spot::BootLegacy { plan: *plan, cfg: *cfg }),
    }
}

/// The settle window, then what the plan asks for.
pub open spec fn boot_uptime_plan(
    site: Site,
    plan: BootPlan,
    cfg: PowerConfig,
    uptime: Option<u64>,
) -> Plan {
    settle_plan(plan, uptime) + enact_plan(site, plan, cfg)
}

/// Goes on with the boot once the uptime is known.
pub fn boot_uptime(
    site: &Site,
    plan: &BootPlan,
    cfg: &PowerConfig,
    uptime: &Option<u64>,
) -> (s: Script)
    ensures
        s@ == boot_uptime_plan(*site, *plan, *cfg, *uptime),
{
    settle_wait(plan, uptime).and(enact(site, plan, cfg))
}

/// What is said of the persisted voltage at boot; a failure to set it stops nothing.
pub open spec fn boot_vid_set_plan(mv: u32, clk: u32, set: bool) -> Plan {
    if set {
        seq![
            say(
                "re-applied GPU voltage "@ + dec(mv as nat) + " mV at "@ + dec(clk as nat)
                    + " MHz (overdrive)"@,
            ),
        ]
    } else {
        seq![warn("GPU voltage re-apply failed (overdrive off?)"@)]
    }
}

/// Reports the persisted voltage at boot.
pub fn boot_vid_set(mv: u32, clk: u32, set: bool) -> (s: Script)
    ensures
        s@ == boot_vid_set_plan(mv, clk, set),
{
    if set {
        Script::new().say(
            Line::new("re-applied GPU voltage ").num(mv).text(" mV at ").num(clk).text(
                " MHz (overdrive)",
            ),
        )
    } else {
        Script::new().warn(Line::new("GPU voltage re-apply failed (overdrive off?)"))
    }
}

/// A manual pin wins over the auto mode; neither is enacted while a legacy unit is enabled.
pub open spec fn boot_legacy_plan(plan: BootPlan, cfg: PowerConfig, legacy: bool) -> Plan {
    match plan {
        BootPlan::Manual(m) => if legacy {
            seq![
                say(
                    "legacy GPU unit(s) still enabled — skipping manual clock re-apply (un-migrated host)"@,
                ),
            ]
        } else {
            seq![ask(Op::ForceClock(m), Spot::BootPinned)]
        },
        _ => if legacy {
            seq![
                say(
                    "legacy GPU unit(s) still enabled — leaving auto mode to them (un-migrated host; a gpu mode command migrates)"@,
                ),
            ]
        } else {
            match cfg.auto_mode {
                AutoMode::Governor => seq![ask(Op::LoadGovernor, Spot::StartGovernor)],
                AutoMode::Autosleep => seq![
                    must(Op::RunAutosleep { idle: 30, deep_force: false }),
                ],
                AutoMode::Released => seq![
                    must(Op::ReleaseClock),
                    say("released: GFX clock left to native DPM (BAPM)"@),
                ],
            }
        },
    }
}

/// Goes on with the boot once it is known whether a legacy unit is enabled.
pub fn boot_legacy(plan: &BootPlan, cfg: &PowerConfig, legacy: bool) -> (s: Script)
    ensures
        s@ == boot_legacy_plan(*plan, *cfg, legacy),
{
    if let BootPlan::Manual(m) = plan {
        if legacy {
            return Script::new().tell(
                "legacy GPU unit(s) still enabled — skipping manual clock re-apply (un-migrated host)",
            );
        }
        return Script::new().ask(Op::ForceClock(*m), Spot::BootPinned);
    }
    if legacy {
        return Script::new().tell(
            "legacy GPU unit(s) still enabled — leaving auto mode to them (un-migrated host; a gpu mode command migrates)",
        );
    }
    match cfg.auto_mode {
        AutoMode::Governor => Script::new().ask(Op::LoadGovernor, Spot::StartGovernor),
        AutoMode::Autosleep => Script::new().must(
            Op::RunAutosleep { idle: 30, deep_force: false },
        ),
        AutoMode::Released => Script::new().must(Op::ReleaseClock).tell(
            "released: GFX clock left to native DPM (BAPM)",
        ),
    }
}

} // verus!
