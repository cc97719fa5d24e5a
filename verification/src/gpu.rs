//! GPU clock, voltage and power-mode commands.
use vstd::prelude::*;

use crate::commands::GpuCmd;
use crate::model::{
    fault_under, AutoMode, CpuOc, Fault, ForceOutcome, GovernorConfig, PowerConfig, Site, VidRaise,
};
use crate::plan::{
    act, ask, end, fail, go, judge, must, put, say, warn, Action, Op, Outcome, Plan, Point, Script,
    Spot, Then,
};
use crate::scan::{labelled, labelled_word};
use crate::text::{dec, Line};

verus! {

/// The opening plan of a GPU command.
pub open spec fn gpu_plan(site: Site, cmd: GpuCmd) -> Plan {
    match cmd {
        GpuCmd::Status => seq![ask(Op::LoadPower, Spot::GpuStatus)],
        GpuCmd::Force { mhz } => seq![ask(Op::ForceMode(mhz), Spot::Forced(mhz))],
        GpuCmd::Unforce => seq![ask(Op::UnforceMode, Spot::Unforced)],
        GpuCmd::Pin { mhz } => seq![go(Op::StopGpuUnit), ask(Op::LoadPower, Spot::PinConfig(mhz))],
        GpuCmd::Unpin => seq![
            must(Op::ReleaseClock),
            go(Op::StartGpuUnit),
            say("unpinned — GPU power unit restarted (persisted mode resumes)"@),
        ],
        GpuCmd::ApplyBoot => seq![ask(Op::LoadForBoot, Spot::BootLoaded)],
        GpuCmd::ApplySavedForce => seq![ask(Op::LoadForBoot, Spot::BootLoaded)],
        GpuCmd::Vid { mv } => seq![go(Op::LockConfig), ask(Op::LoadPower, Spot::VidPower(mv))],
        GpuCmd::UnforceVid => seq![ask(Op::ResetVddc, Spot::VidReset)],
        GpuCmd::Wake { override_pin } => seq![ask(Op::LoadPower, Spot::Wake { override_pin })],
        GpuCmd::DeepSleep { override_pin } => seq![
            ask(Op::LoadPower, Spot::DeepSleep { override_pin }),
        ],
        GpuCmd::SetTop { mhz } => seq![go(Op::LockConfig), ask(Op::LoadPower, Spot::TopPower(mhz))],
        GpuCmd::SetMid { mhz } => seq![ask(Op::LoadGovernor, Spot::SetMid(mhz))],
        GpuCmd::SetIdle { mhz } => seq![ask(Op::LoadGovernor, Spot::SetIdle(mhz))],
        GpuCmd::SetDeep { mhz } => seq![
            go(Op::LockConfig),
            ask(Op::LoadPower, Spot::DeepPower(mhz)),
        ],
        GpuCmd::TempCap { c } => if 60 <= c <= site.temp_max_c {
            seq![ask(Op::LoadCpu, Spot::TempCap(c))]
        } else {
            seq![
                fail(
                    "gpu temp cap "@ + dec(c as nat) + " C outside 60-"@ + dec(
                        site.temp_max_c as nat,
                    ) + " C"@,
                ),
            ]
        },
        GpuCmd::GovernorOn => seq![
            go(Op::ReleaseClock),
            go(Op::LockConfig),
            ask(Op::LoadPower, Spot::SwitchMode(AutoMode::Governor)),
        ],
        GpuCmd::GovernorOff => seq![
            go(Op::ReleaseClock),
            go(Op::LockConfig),
            ask(Op::LoadPower, Spot::SwitchMode(AutoMode::Released)),
        ],
        GpuCmd::AutosleepOn => seq![
            go(Op::LockConfig),
            ask(Op::LoadPower, Spot::SwitchMode(AutoMode::Autosleep)),
        ],
        GpuCmd::Poke => seq![must(Op::Poke)],
        GpuCmd::Autosleep { idle, deep_force } => seq![must(Op::RunAutosleep { idle, deep_force })],
        GpuCmd::Governor => seq![ask(Op::LoadGovernor, Spot::StartGovernor)],
        GpuCmd::Level { level, override_pin } => seq![
            act(
                Action::Host(Op::LoadPower),
                Then::Ask(Point::Level { level: level@, override_pin }),
            ),
        ],
        GpuCmd::Telemetry => seq![ask(Op::TelemetryNode, Spot::Telemetry)],
    }
}

/// Opens a GPU command.
pub fn cmd_gpu(site: &Site, action: GpuCmd) -> (s: Script)
    ensures
        s@ == gpu_plan(*site, action),
{
    match action {
        GpuCmd::Status => Script::new().ask(Op::LoadPower, Spot::GpuStatus),
        GpuCmd::Force { mhz } => Script::new().ask(Op::ForceMode(mhz), Spot::Forced(mhz)),
        GpuCmd::Unforce => Script::new().ask(Op::UnforceMode, Spot::Unforced),
        GpuCmd::Pin { mhz } => Script::new().go(Op::StopGpuUnit).ask(
            Op::LoadPower,
            Spot::PinConfig(mhz),
        ),
        GpuCmd::Unpin => Script::new().must(Op::ReleaseClock).go(Op::StartGpuUnit).tell(
            "unpinned — GPU power unit restarted (persisted mode resumes)",
        ),
        GpuCmd::ApplyBoot => crate::boot::gpu_apply_boot(),
        GpuCmd::ApplySavedForce => crate::boot::gpu_apply_boot(),
        GpuCmd::Vid { mv } => Script::new().go(Op::LockConfig).ask(
            Op::LoadPower,
            Spot::VidPower(mv),
        ),
        GpuCmd::UnforceVid => Script::new().ask(Op::ResetVddc, Spot::VidReset),
        GpuCmd::Wake { override_pin } => Script::new().ask(
            Op::LoadPower,
            Spot::Wake { override_pin },
        ),
        GpuCmd::DeepSleep { override_pin } => Script::new().ask(
            Op::LoadPower,
            Spot::DeepSleep { override_pin },
        ),
        GpuCmd::SetTop { mhz } => Script::new().go(Op::LockConfig).ask(
            Op::LoadPower,
            Spot::TopPower(mhz),
        ),
        GpuCmd::SetMid { mhz } => Script::new().ask(Op::LoadGovernor, Spot::SetMid(mhz)),
        GpuCmd::SetIdle { mhz } => Script::new().ask(Op::LoadGovernor, Spot::SetIdle(mhz)),
        GpuCmd::SetDeep { mhz } => Script::new().go(Op::LockConfig).ask(
            Op::LoadPower,
            Spot::DeepPower(mhz),
        ),
        GpuCmd::TempCap { c } => if 60 <= c && c <= site.temp_max_c {
            Script::new().ask(Op::LoadCpu, Spot::TempCap(c))
        } else {
            Script::new().fail(
                Line::new("gpu temp cap ").num(c).text(" C outside 60-").num(site.temp_max_c).text(
                    " C",
                ),
            )
        },
        GpuCmd::GovernorOn => Script::new().go(Op::ReleaseClock).go(Op::LockConfig).ask(
            Op::LoadPower,
            Spot::SwitchMode(AutoMode::Governor),
        ),
        GpuCmd::GovernorOff => Script::new().go(Op::ReleaseClock).go(Op::LockConfig).ask(
            Op::LoadPower,
            Spot::SwitchMode(AutoMode::Released),
        ),
        GpuCmd::AutosleepOn => Script::new().go(Op::LockConfig).ask(
            Op::LoadPower,
            Spot::SwitchMode(AutoMode::Autosleep),
        ),
        GpuCmd::Poke => Script::new().must(Op::Poke),
        GpuCmd::Autosleep { idle, deep_force } => Script::new().must(
            Op::RunAutosleep { idle, deep_force },
        ),
        GpuCmd::Governor => Script::new().ask(Op::LoadGovernor, Spot::StartGovernor),
        GpuCmd::Level { level, override_pin } => Script::new().act(
            Action::Host(Op::LoadPower),
            Then::Ask(Point::Level { level, override_pin }),
        ),
        GpuCmd::Telemetry => Script::new().ask(Op::TelemetryNode, Spot::Telemetry),
    }
}

/// The power state: the setpoints, the manual pin, the auto mode, the voltage override and the
/// current clock.
pub open spec fn status_plan(cfg: PowerConfig) -> Plan {
    seq![
        say("GPU power (app-driven):"@),
        say("  top (active):     "@ + dec(cfg.top_mhz as nat) + " MHz"@),
        say("  deep (idle):      "@ + dec(cfg.deep_mhz as nat) + " MHz"@),
        match cfg.force_mhz {
            Some(m) => say(
                "  manual pin:       "@ + dec(m as nat) + " MHz (force_mhz ARMED — wins at boot)"@,
            ),
            None => say("  manual pin:       none"@),
        },
        ask(Op::ModeName(cfg.auto_mode), Spot::StatusMode),
        match cfg.force_vid_mv {
            Some(v) => say("  forced GPU Vid:   "@ + dec(v as nat) + " mV (persisted)"@),
            None => say("  forced GPU Vid:   none (SMU-managed)"@),
        },
        judge(Op::TelemetryNode, Spot::StatusClock),
    ]
}

/// Shows the power state.
pub fn status(cfg: &PowerConfig) -> (s: Script)
    ensures
        s@ == status_plan(*cfg),
{
    let s: Script = Script::new().tell("GPU power (app-driven):").say(
        Line::new("  top (active):     ").num(cfg.top_mhz).text(" MHz"),
    ).say(Line::new("  deep (idle):      ").num(cfg.deep_mhz).text(" MHz"));
    let s: Script = match cfg.force_mhz {
        Some(m) => s.say(
            Line::new("  manual pin:       ").num(m).text(" MHz (force_mhz ARMED — wins at boot)"),
        ),
        None => s.tell("  manual pin:       none"),
    };
    let s: Script = s.ask(Op::ModeName(cfg.auto_mode), Spot::StatusMode);
    let s: Script = match cfg.force_vid_mv {
        Some(v) => s.say(Line::new("  forced GPU Vid:   ").num(v).text(" mV (persisted)")),
        None => s.tell("  forced GPU Vid:   none (SMU-managed)"),
    };
    s.judge(Op::TelemetryNode, Spot::StatusClock)
}

/// The clock that the telemetry text gives, if it gives one.
pub open spec fn telemetry_clock(node: Option<Seq<char>>) -> Option<Seq<char>> {
    match node {
        Some(text) => labelled_word(text, "GfxClk:"@, 0),
        None => None,
    }
}

/// The current clock by the telemetry node, where it has one; else the driver is asked.
pub open spec fn status_clock_plan(node: Option<Seq<char>>) -> Plan {
    match telemetry_clock(node) {
        Some(clock) => seq![say("  current GfxClk:    "@ + clock + " MHz"@)],
        None => seq![ask(Op::CurrentSclk, Spot::StatusSclk)],
    }
}

/// Shows the current clock by the telemetry node.
pub fn status_clock(node: &Option<String>) -> (s: Script)
    ensures
        s@ == status_clock_plan(node.deep_view()),
{
    let clock: Option<String> = match node {
        Some(text) => labelled(text.as_str(), "GfxClk:"),
        None => None,
    };
    match clock {
        Some(c) => Script::new().say(
            Line::new("  current GfxClk:    ").text(c.as_str()).text(" MHz"),
        ),
        None => Script::new().ask(Op::CurrentSclk, Spot::StatusSclk),
    }
}

/// The current clock as the driver reports it.
pub open spec fn status_sclk_plan(mhz: Option<u32>) -> Plan {
    match mhz {
        Some(m) => seq![say("  current GfxClk:    "@ + dec(m as nat) + " MHz"@)],
        None => seq![say("  current GfxClk:    unknown"@)],
    }
}

/// Shows the current clock as the driver reports it.
pub fn status_sclk(mhz: Option<u32>) -> (s: Script)
    ensures
        s@ == status_sclk_plan(mhz),
{
    match mhz {
        Some(m) => Script::new().say(Line::new("  current GfxClk:    ").num(m).text(" MHz")),
        None => Script::new().tell("  current GfxClk:    unknown"),
    }
}

/// What is said of a persistent pin: a raised voltage, the clock that was set, and whether it
/// survives a reboot.
pub open spec fn forced_plan(mhz: u32, out: ForceOutcome) -> Plan {
    let raised = match out.vid_raised {
        Some(r) => seq![
            say(
                "note: raised GPU undervolt "@ + dec(r.old_mv as nat) + " -> "@ + dec(
                    r.floor_mv as nat,
                ) + " mV (safe floor for "@ + dec(out.set_mhz as nat) + " MHz)"@,
            ),
        ],
        None => Plan::empty(),
    };
    let note = if out.held {
        "manual mode — sticks across reboots"@
    } else {
        "LIVE-ONLY — will NOT survive a reboot"@
    };
    let set = if out.set_mhz != mhz {
        say(
            "GFX clock forced to "@ + dec(out.set_mhz as nat) + " MHz (clamped from "@ + dec(
                mhz as nat,
            ) + "); "@ + note,
        )
    } else {
        say("GFX clock forced to "@ + dec(out.set_mhz as nat) + " MHz; "@ + note)
    };
    if out.held {
        raised.push(set)
    } else {
        raised.push(set).push(
            warn(
                "WARNING: could not install the boot re-apply service — this pin is REBOOT-UNSAFE. Re-run as root, or the clock reverts to auto on reboot."@,
            ),
        )
    }
}

/// Reports a persistent pin.
pub fn forced(mhz: u32, out: &ForceOutcome) -> (s: Script)
    ensures
        s@ == forced_plan(mhz, *out),
{
    let s: Script = match out.vid_raised {
        Some(r) => Script::new().say(
            Line::new("note: raised GPU undervolt ").num(r.old_mv).text(" -> ").num(
                r.floor_mv,
            ).text(" mV (safe floor for ").num(out.set_mhz).text(" MHz)"),
        ),
        None => Script::new(),
    };
    let note: &str = if out.held {
        "manual mode — sticks across reboots"
    } else {
        "LIVE-ONLY — will NOT survive a reboot"
    };
    let s: Script = if out.set_mhz != mhz {
        s.say(
            Line::new("GFX clock forced to ").num(out.set_mhz).text(" MHz (clamped from ").num(
                mhz,
            ).text("); ").text(note),
        )
    } else {
        s.say(Line::new("GFX clock forced to ").num(out.set_mhz).text(" MHz; ").text(note))
    };
    if out.held {
        s
    } else {
        s.warn(
            Line::new(
                "WARNING: could not install the boot re-apply service — this pin is REBOOT-UNSAFE. Re-run as root, or the clock reverts to auto on reboot.",
            ),
        )
    }
}

/// The nearest clock within the range of the hardware.
pub open spec fn clamp_clock(site: Site, mhz: u32) -> u32 {
    if mhz < site.sclk_min_mhz {
        site.sclk_min_mhz
    } else if mhz > site.sclk_max_mhz {
        site.sclk_max_mhz
    } else {
        mhz
    }
}

/// A transient pin first asks whether the persisted voltage has to be raised for the clock.
pub open spec fn pin_config_plan(site: Site, mhz: u32, cfg: PowerConfig) -> Plan {
    let target = clamp_clock(site, mhz);
    seq![ask(Op::RequiredRaise { cfg, mhz: target }, Spot::PinRaise(target))]
}

/// Goes on with a transient pin once the settings are loaded.
pub fn pin_config(site: &Site, mhz: u32, cfg: &PowerConfig) -> (s: Script)
    ensures
        s@ == pin_config_plan(*site, mhz, *cfg),
{
    let target: u32 = if mhz < site.sclk_min_mhz {
        site.sclk_min_mhz
    } else if mhz > site.sclk_max_mhz {
        site.sclk_max_mhz
    } else {
        mhz
    };
    Script::new().ask(Op::RequiredRaise { cfg: *cfg, mhz: target }, Spot::PinRaise(target))
}

/// A voltage that is too low is raised before the clock is forced.
pub open spec fn pin_raise_plan(target: u32, raise: Option<VidRaise>) -> Plan {
    match raise {
        Some(r) => seq![
            ask(
                Op::SetVddc { clk: target, mv: r.floor_mv },
                Spot::PinVddc { target, raise: r },
            ),
        ],
        None => seq![judge(Op::ForceClock(target), Spot::PinForced)],
    }
}

/// Goes on with a transient pin once the raise it needs is known.
pub fn pin_raise(target: u32, raise: &Option<VidRaise>) -> (s: Script)
    ensures
        s@ == pin_raise_plan(target, *raise),
{
    match raise {
        Some(r) => Script::new().ask(
            Op::SetVddc { clk: target, mv: r.floor_mv },
            Spot::PinVddc { target, raise: *r },
        ),
        None => Script::new().judge(Op::ForceClock(target), Spot::PinForced),
    }
}

/// A pin that failed starts the GPU power unit again before it reports the failure.
pub open spec fn pin_failed_plan(f: Fault<Seq<char>>) -> Plan {
    seq![
        go(Op::StartGpuUnit),
        end(Outcome::Failed(f.under("pin failed (GPU power unit restarted)"@))),
    ]
}

fn pin_failed(f: &Fault<String>) -> (s: Script)
    ensures
        s@ == pin_failed_plan(f@),
{
    Script::new().go(Op::StartGpuUnit).end(
        Outcome::Failed(fault_under(f, "pin failed (GPU power unit restarted)")),
    )
}

/// The clock is forced only where the voltage was raised.
pub open spec fn pin_vddc_plan(target: u32, raise: VidRaise, set: bool) -> Plan {
    if set {
        seq![
            say(
                "note: raised GPU voltage "@ + dec(raise.old_mv as nat) + " -> "@ + dec(
                    raise.floor_mv as nat,
                ) + " mV for the pin (transient)"@,
            ),
            judge(Op::ForceClock(target), Spot::PinForced),
        ]
    } else {
        pin_failed_plan(
            crate::model::fault(
                "cannot raise GPU undervolt "@ + dec(raise.old_mv as nat) + " -> "@ + dec(
                    raise.floor_mv as nat,
                ) + " mV for "@ + dec(target as nat)
                    + " MHz (overdrive write failed) — refusing to pin onto a starved rail"@,
            ),
        )
    }
}

/// Goes on with a transient pin once the voltage was raised or could not be.
pub fn pin_vddc(target: u32, raise: &VidRaise, set: bool) -> (s: Script)
    ensures
        s@ == pin_vddc_plan(target, *raise, set),
{
    if set {
        Script::new().say(
            Line::new("note: raised GPU voltage ").num(raise.old_mv).text(" -> ").num(
                raise.floor_mv,
            ).text(" mV for the pin (transient)"),
        ).judge(Op::ForceClock(target), Spot::PinForced)
    } else {
        let f: Fault<String> = crate::model::new_fault(
            Line::new("cannot raise GPU undervolt ").num(raise.old_mv).text(" -> ").num(
                raise.floor_mv,
            ).text(" mV for ").num(target).text(
                " MHz (overdrive write failed) — refusing to pin onto a starved rail",
            ).done(),
        );
        pin_failed(&f)
    }
}

/// What is said of a transient pin that holds.
pub open spec fn pinned_plan(set: u32) -> Plan {
    seq![
        say(
            "pinned "@ + dec(set as nat)
                + " MHz (transient — GPU power unit stopped; run `gpu unpin` after)"@,
        ),
    ]
}

/// Reports a transient pin that holds.
pub fn pinned(set: u32) -> (s: Script)
    ensures
        s@ == pinned_plan(set),
{
    Script::new().say(
        Line::new("pinned ").num(set).text(
            " MHz (transient — GPU power unit stopped; run `gpu unpin` after)",
        ),
    )
}

/// Ends a transient pin whose clock could not be forced.
pub fn pin_refused(f: &Fault<String>) -> (s: Script)
    ensures
        s@ == pin_failed_plan(f@),
{
    pin_failed(f)
}

/// A voltage below the floor is refused; another one is set.
pub open spec fn vid_floor_plan(mv: u32, cfg: PowerConfig, clk: u32, floor: u32) -> Plan {
    if mv < floor {
        seq![
            fail(
                dec(mv as nat) + " mV is below the safe floor "@ + dec(floor as nat) + " mV for "@
                    + dec(clk as nat)
                    + " MHz — that undervolt would crash the GPU. Raise the voltage, or lower the clock first (set-top)."@,
            ),
        ]
    } else {
        seq![ask(Op::SetVddc { clk, mv }, Spot::VidSet { mv, cfg })]
    }
}

/// Goes on with a voltage once its floor is known.
pub fn vid_floor(mv: u32, cfg: &PowerConfig, clk: u32, floor: u32) -> (s: Script)
    ensures
        s@ == vid_floor_plan(mv, *cfg, clk, floor),
{
    if mv < floor {
        Script::new().fail(
            Line::number(mv).text(" mV is below the safe floor ").num(floor).text(" mV for ").num(
                clk,
            ).text(
                " MHz — that undervolt would crash the GPU. Raise the voltage, or lower the clock first (set-top).",
            ),
        )
    } else {
        Script::new().ask(Op::SetVddc { clk, mv }, Spot::VidSet { mv, cfg: *cfg })
    }
}

/// A voltage that was set is persisted.
pub open spec fn vid_set_plan(mv: u32, cfg: PowerConfig, set: bool) -> Plan {
    if set {
        seq![
            must(Op::SavePower(PowerConfig { force_vid_mv: Some(mv), ..cfg })),
            ask(Op::GpuUnitInstalled, Spot::VidInstalled(mv)),
        ]
    } else {
        seq![
            fail(
                "voltage set failed — overdrive off (amdgpu.ppfeaturemask) or need root, or "@
                    + dec(mv as nat) + " mV is outside the OD_RANGE VDDC"@,
            ),
        ]
    }
}

/// Goes on with a voltage once it was set or could not be.
pub fn vid_set(mv: u32, cfg: &PowerConfig, set: bool) -> (s: Script)
    ensures
        s@ == vid_set_plan(mv, *cfg, set),
{
    if set {
        Script::new().must(Op::SavePower(PowerConfig { force_vid_mv: Some(mv), ..*cfg })).ask(
            Op::GpuUnitInstalled,
            Spot::VidInstalled(mv),
        )
    } else {
        Script::new().fail(
            Line::new(
                "voltage set failed — overdrive off (amdgpu.ppfeaturemask) or need root, or ",
            ).num(mv).text(" mV is outside the OD_RANGE VDDC"),
        )
    }
}

/// What is said of a voltage that holds.
pub open spec fn vid_installed_plan(mv: u32, installed: bool) -> Plan {
    seq![
        say(
            "GPU voltage set to "@ + dec(mv as nat) + " mV at the high clock"@ + if installed {
                " — persisted, re-applied at boot"@
            } else {
                " (live now; run a gpu mode command to install the boot unit)"@
            },
        ),
    ]
}

/// Reports a voltage that holds.
pub fn vid_installed(mv: u32, installed: bool) -> (s: Script)
    ensures
        s@ == vid_installed_plan(mv, installed),
{
    Script::new().say(
        Line::new("GPU voltage set to ").num(mv).text(" mV at the high clock").text(
            if installed {
                " — persisted, re-applied at boot"
            } else {
                " (live now; run a gpu mode command to install the boot unit)"
            },
        ),
    )
}

/// The persisted voltage is cleared only where the stock curve was restored.
pub open spec fn vid_reset_plan(reset: bool) -> Plan {
    if reset {
        seq![go(Op::LockConfig), ask(Op::LoadPower, Spot::VidCleared)]
    } else {
        seq![fail("voltage reset failed — overdrive off or need root"@)]
    }
}

/// Goes on with a voltage reset.
pub fn vid_reset(reset: bool) -> (s: Script)
    ensures
        s@ == vid_reset_plan(reset),
{
    if reset {
        Script::new().go(Op::LockConfig).ask(Op::LoadPower, Spot::VidCleared)
    } else {
        Script::new().fail(Line::new("voltage reset failed — overdrive off or need root"))
    }
}

/// The settings are saved without a voltage.
pub open spec fn vid_cleared_plan(cfg: PowerConfig) -> Plan {
    seq![
        must(Op::SavePower(PowerConfig { force_vid_mv: None, ..cfg })),
        say("GPU voltage released — stock SMU-managed curve restored"@),
    ]
}

/// Clears the persisted voltage.
pub fn vid_cleared(cfg: &PowerConfig) -> (s: Script)
    ensures
        s@ == vid_cleared_plan(*cfg),
{
    Script::new().must(Op::SavePower(PowerConfig { force_vid_mv: None, ..*cfg })).tell(
        "GPU voltage released — stock SMU-managed curve restored",
    )
}

/// While a manual pin is persisted, `what` is refused, or warned of where it overrides the pin.
pub open spec fn guard_plan(cfg: PowerConfig, override_pin: bool, what: Seq<char>) -> Plan {
    match cfg.force_mhz {
        Some(m) => if override_pin {
            seq![
                warn(
                    "WARNING: overriding the persisted "@ + dec(m as nat) + " MHz manual pin with `"@
                        + what
                        + "` (--override-pin) — the pin re-asserts on the next unit restart/boot"@,
                ),
            ]
        } else {
            seq![
                fail(
                    "a manual clock pin is persisted at "@ + dec(m as nat)
                        + " MHz (possibly a heat-safety pin) — `"@ + what
                        + "` would silently override it. Release it first (`gpu unforce`) or pass --override-pin."@,
                ),
            ]
        },
        None => Plan::empty(),
    }
}

/// Refuses to override a persisted manual pin by `what` unless that is asked for.
pub fn guard_manual_pin(cfg: &PowerConfig, override_pin: bool, what: &str) -> (s: Script)
    ensures
        s@ == guard_plan(*cfg, override_pin, what@),
{
    match cfg.force_mhz {
        Some(m) => if override_pin {
            Script::new().warn(
                Line::new("WARNING: overriding the persisted ").num(m).text(
                    " MHz manual pin with `",
                ).text(what).text(
                    "` (--override-pin) — the pin re-asserts on the next unit restart/boot",
                ),
            )
        } else {
            Script::new().fail(
                Line::new("a manual clock pin is persisted at ").num(m).text(
                    " MHz (possibly a heat-safety pin) — `",
                ).text(what).text(
                    "` would silently override it. Release it first (`gpu unforce`) or pass --override-pin.",
                ),
            )
        },
        None => Script::new(),
    }
}

/// The top clock is forced, where the guard lets it be.
pub open spec fn wake_plan(cfg: PowerConfig, override_pin: bool) -> Plan {
    guard_plan(cfg, override_pin, "wake"@) + seq![
        must(Op::ForceClock(cfg.top_mhz)),
        say("woke to "@ + dec(cfg.top_mhz as nat) + " MHz"@),
    ]
}

/// Forces the top clock.
pub fn wake(cfg: &PowerConfig, override_pin: bool) -> (s: Script)
    ensures
        s@ == wake_plan(*cfg, override_pin),
{
    guard_manual_pin(cfg, override_pin, "wake").and(
        Script::new().must(Op::ForceClock(cfg.top_mhz)).say(
            Line::new("woke to ").num(cfg.top_mhz).text(" MHz"),
        ),
    )
}

/// The deep clock is forced, where the guard lets it be.
pub open spec fn deep_sleep_plan(cfg: PowerConfig, override_pin: bool) -> Plan {
    guard_plan(cfg, override_pin, "deep-sleep"@) + seq![
        must(Op::ForceClock(cfg.deep_mhz)),
        say("deep-sleep at "@ + dec(cfg.deep_mhz as nat) + " MHz"@),
    ]
}

/// Forces the deep clock.
pub fn deep_sleep(cfg: &PowerConfig, override_pin: bool) -> (s: Script)
    ensures
        s@ == deep_sleep_plan(*cfg, override_pin),
{
    guard_manual_pin(cfg, override_pin, "deep-sleep").and(
        Script::new().must(Op::ForceClock(cfg.deep_mhz)).say(
            Line::new("deep-sleep at ").num(cfg.deep_mhz).text(" MHz"),
        ),
    )
}

/// The performance level is set, where the guard lets it be.
pub open spec fn level_plan(cfg: PowerConfig, level: Seq<char>, override_pin: bool) -> Plan {
    guard_plan(cfg, override_pin, "level"@) + seq![
        act(Action::SetPerformanceLevel(level), Then::Require),
        say("performance level set: "@ + level),
    ]
}

/// Sets the performance level.
pub fn set_level(cfg: &PowerConfig, level: &String, override_pin: bool) -> (s: Script)
    ensures
        s@ == level_plan(*cfg, level@, override_pin),
{
    guard_manual_pin(cfg, override_pin, "level").and(
        Script::new().act(Action::SetPerformanceLevel(level.clone()), Then::Require).say(
            Line::new("performance level set: ").text(level.as_str()),
        ),
    )
}

/// The greater of two numbers.
pub open spec fn greater(a: u32, b: u32) -> u32 {
    if a < b {
        b
    } else {
        a
    }
}

fn max_of(a: u32, b: u32) -> (m: u32)
    ensures
        m == greater(a, b),
{
    if a < b {
        b
    } else {
        a
    }
}

/// The new top clock becomes the high tier of the governor, if the tiers stay in order.
pub open spec fn top_governor_plan(mhz: u32, cfg: PowerConfig, g: GovernorConfig) -> Plan {
    let governor = GovernorConfig { high_mhz: mhz, ..g };
    seq![
        must(Op::ValidateLadder(governor)),
        ask(Op::EffectiveTop(cfg), Spot::TopClock { mhz, cfg, governor }),
    ]
}

/// Goes on with a new top clock once the governor tiers are loaded.
pub fn top_governor(mhz: u32, cfg: &PowerConfig, g: &GovernorConfig) -> (s: Script)
    ensures
        s@ == top_governor_plan(mhz, *cfg, *g),
{
    let governor: GovernorConfig = GovernorConfig { high_mhz: mhz, ..*g };
    Script::new().must(Op::ValidateLadder(governor)).ask(
        Op::EffectiveTop(*cfg),
        Spot::TopClock { mhz, cfg: *cfg, governor },
    )
}

/// The highest clock that the GPU can reach: the top, the high tier or the manual pin.
pub open spec fn reachable_clock(top: u32, cfg: PowerConfig, g: GovernorConfig) -> u32 {
    greater(
        greater(top, g.high_mhz),
        match cfg.force_mhz {
            Some(m) => m,
            None => 0,
        },
    )
}

/// The voltage floor is that of the highest clock that the GPU can reach.
pub open spec fn top_clock_plan(
    mhz: u32,
    cfg: PowerConfig,
    governor: GovernorConfig,
    top: u32,
) -> Plan {
    let clk = reachable_clock(top, cfg, governor);
    seq![ask(Op::MinVddc(clk), Spot::TopFloor { mhz, cfg, governor, clk })]
}

/// Goes on with a new top clock once the effective one is known.
pub fn top_clock(mhz: u32, cfg: &PowerConfig, governor: &GovernorConfig, top: u32) -> (s: Script)
    ensures
        s@ == top_clock_plan(mhz, *cfg, *governor, top),
{
    let clk: u32 = max_of(
        max_of(top, governor.high_mhz),
        match cfg.force_mhz {
            Some(m) => m,
            None => 0,
        },
    );
    Script::new().ask(
        Op::MinVddc(clk),
        Spot::TopFloor { mhz, cfg: *cfg, governor: *governor, clk },
    )
}

/// The settings with a persisted voltage raised to the floor where it is below.
pub open spec fn raised(cfg: PowerConfig, floor: u32) -> PowerConfig {
    match cfg.force_vid_mv {
        Some(v) => if v < floor {
            PowerConfig { force_vid_mv: Some(floor), ..cfg }
        } else {
            cfg
        },
        None => cfg,
    }
}

/// The voltage is raised where it has to be, then both settings are saved.
pub open spec fn top_floor_plan(
    mhz: u32,
    cfg: PowerConfig,
    governor: GovernorConfig,
    clk: u32,
    floor: u32,
) -> Plan {
    let raise = match cfg.force_vid_mv {
        Some(v) => if v < floor {
            seq![
                go(Op::SetVddc { clk, mv: floor }),
                say(
                    "note: raised GPU undervolt "@ + dec(v as nat) + " -> "@ + dec(floor as nat)
                        + " mV (safe floor for "@ + dec(clk as nat) + " MHz)"@,
                ),
            ]
        } else {
            Plan::empty()
        },
        None => Plan::empty(),
    };
    raise.push(must(Op::SavePower(raised(cfg, floor)))).push(
        must(Op::SaveGovernor(governor)),
    ).push(go(Op::ReloadIfAuto)).push(
        say("top/high setpoint = "@ + dec(mhz as nat) + " MHz (persisted)"@),
    )
}

/// Goes on with a new top clock once its voltage floor is known.
pub fn top_floor(
    mhz: u32,
    cfg: &PowerConfig,
    governor: &GovernorConfig,
    clk: u32,
    floor: u32,
) -> (s: Script)
    ensures
        s@ == top_floor_plan(mhz, *cfg, *governor, clk, floor),
{
    let mut saved: PowerConfig = *cfg;
    let mut s: Script = Script::new();
    if let Some(v) = cfg.force_vid_mv {
        if v < floor {
            saved = PowerConfig { force_vid_mv: Some(floor), ..*cfg };
            s = s.go(Op::SetVddc { clk, mv: floor }).say(
                Line::new("note: raised GPU undervolt ").num(v).text(" -> ").num(floor).text(
                    " mV (safe floor for ",
                ).num(clk).text(" MHz)"),
            );
        }
    }
    s.must(Op::SavePower(saved)).must(Op::SaveGovernor(*governor)).go(Op::ReloadIfAuto).say(
        Line::new("top/high setpoint = ").num(mhz).text(" MHz (persisted)"),
    )
}

/// Governor tiers are saved only where they are in order, then a running auto mode reads them.
pub open spec fn save_tiers_plan(g: GovernorConfig, tier: Seq<char>, mhz: u32) -> Plan {
    seq![
        must(Op::ValidateLadder(g)),
        must(Op::SaveGovernor(g)),
        go(Op::ReloadIfAuto),
        say(tier + " setpoint = "@ + dec(mhz as nat) + " MHz (persisted)"@),
    ]
}

fn save_tiers(g: GovernorConfig, tier: &str, mhz: u32) -> (s: Script)
    ensures
        s@ == save_tiers_plan(g, tier@, mhz),
{
    Script::new().must(Op::ValidateLadder(g)).must(Op::SaveGovernor(g)).go(Op::ReloadIfAuto).say(
        Line::new(tier).text(" setpoint = ").num(mhz).text(" MHz (persisted)"),
    )
}

/// Sets the mid tier.
pub fn set_mid(mhz: u32, g: &GovernorConfig) -> (s: Script)
    ensures
        s@ == save_tiers_plan(GovernorConfig { mid_mhz: mhz, ..*g }, "mid"@, mhz),
{
    save_tiers(GovernorConfig { mid_mhz: mhz, ..*g }, "mid", mhz)
}

/// Sets the idle tier.
pub fn set_idle(mhz: u32, g: &GovernorConfig) -> (s: Script)
    ensures
        s@ == save_tiers_plan(GovernorConfig { idle_mhz: mhz, ..*g }, "idle"@, mhz),
{
    save_tiers(GovernorConfig { idle_mhz: mhz, ..*g }, "idle", mhz)
}

/// The new deep clock becomes the deep tier of the governor; both settings are saved only where
/// the tiers are in order.
pub open spec fn deep_governor_plan(mhz: u32, cfg: PowerConfig, g: GovernorConfig) -> Plan {
    let governor = GovernorConfig { deep_mhz: mhz, ..g };
    seq![
        must(Op::ValidateLadder(governor)),
        must(Op::SavePower(cfg)),
        must(Op::SaveGovernor(governor)),
        go(Op::ReloadIfAuto),
        say("deep setpoint = "@ + dec(mhz as nat) + " MHz (persisted)"@),
    ]
}

/// Sets the deep tier.
pub fn deep_governor(mhz: u32, cfg: &PowerConfig, g: &GovernorConfig) -> (s: Script)
    ensures
        s@ == deep_governor_plan(mhz, *cfg, *g),
{
    let governor: GovernorConfig = GovernorConfig { deep_mhz: mhz, ..*g };
    Script::new().must(Op::ValidateLadder(governor)).must(Op::SavePower(*cfg)).must(
        Op::SaveGovernor(governor),
    ).go(Op::ReloadIfAuto).say(Line::new("deep setpoint = ").num(mhz).text(" MHz (persisted)"))
}

/// The cap is saved, with everything else of the CPU point as it was, and set in hardware where
/// the mailbox opens.
pub open spec fn temp_cap_plan(c: u32, point: CpuOc) -> Plan {
    seq![
        must(Op::SaveCpu(CpuOc { gpu_temp_c: c, ..point })),
        judge(Op::OpenOc, Spot::TempCapOc(c)),
        go(Op::ArmCpuOc),
        go(Op::ReloadIfAuto),
        say(
            "gpu temp cap = "@ + dec(c as nat) + " C (persisted; governor demotes to hold it)"@,
        ),
    ]
}

/// Sets the GPU temperature cap.
pub fn temp_cap(c: u32, point: &CpuOc) -> (s: Script)
    ensures
        s@ == temp_cap_plan(c, *point),
{
    Script::new().must(Op::SaveCpu(CpuOc { gpu_temp_c: c, ..*point })).judge(
        Op::OpenOc,
        Spot::TempCapOc(c),
    ).go(Op::ArmCpuOc).go(Op::ReloadIfAuto).say(
        Line::new("gpu temp cap = ").num(c).text(
            " C (persisted; governor demotes to hold it)",
        ),
    )
}

/// The hardware limit is set only where the mailbox opened.
pub open spec fn temp_cap_oc_plan(c: u32, opened: bool) -> Plan {
    if opened {
        seq![must(Op::SetGpuTemp(c))]
    } else {
        Plan::empty()
    }
}

/// Sets the hardware limit, where the mailbox opened.
pub fn temp_cap_oc(c: u32, opened: bool) -> (s: Script)
    ensures
        s@ == temp_cap_oc_plan(c, opened),
{
    if opened {
        Script::new().must(Op::SetGpuTemp(c))
    } else {
        Script::new()
    }
}

/// The log entry of a switch to an auto mode.
pub open spec fn switch_log(mode: AutoMode) -> Seq<char> {
    match mode {
        AutoMode::Governor => "governor-on"@,
        AutoMode::Released => "governor-off -> released"@,
        AutoMode::Autosleep => "autosleep-on"@,
    }
}

/// What is said of a switch to an auto mode.
pub open spec fn switch_line(mode: AutoMode) -> Seq<char> {
    match mode {
        AutoMode::Governor => "auto governor: ON (persists across reboot)"@,
        AutoMode::Released => "auto governor: OFF — released (native DPM)"@,
        AutoMode::Autosleep => "autosleep: ON (poke-driven; persists across reboot)"@,
    }
}

/// The mode is saved without a manual pin, then enacted.
pub open spec fn switch_plan(mode: AutoMode, cfg: PowerConfig) -> Plan {
    seq![
        must(Op::SavePower(PowerConfig { force_mhz: None, auto_mode: mode, ..cfg })),
        act(Action::LogTransition(switch_log(mode)), Then::Proceed),
        must(Op::ApplyMode),
        say(switch_line(mode)),
    ]
}

/// Switches to an auto mode.
pub fn switch_mode(mode: AutoMode, cfg: &PowerConfig) -> (s: Script)
    ensures
        s@ == switch_plan(mode, *cfg),
{
    let log: &str = match mode {
        AutoMode::Governor => "governor-on",
        AutoMode::Released => "governor-off -> released",
        AutoMode::Autosleep => "autosleep-on",
    };
    let line: &str = match mode {
        AutoMode::Governor => "auto governor: ON (persists across reboot)",
        AutoMode::Released => "auto governor: OFF — released (native DPM)",
        AutoMode::Autosleep => "autosleep: ON (poke-driven; persists across reboot)",
    };
    Script::new().must(
        Op::SavePower(PowerConfig { force_mhz: None, auto_mode: mode, ..*cfg }),
    ).act(Action::LogTransition(log.to_owned()), Then::Proceed).must(Op::ApplyMode).tell(line)
}

/// The telemetry node as it is, or that it is missing.
pub open spec fn telemetry_plan(node: Option<Seq<char>>) -> Plan {
    match node {
        Some(text) => seq![put(text)],
        None => seq![say("telemetry node not present (patch 11)"@)],
    }
}

/// Shows the telemetry node.
pub fn telemetry(node: &Option<String>) -> (s: Script)
    ensures
        s@ == telemetry_plan(node.deep_view()),
{
    match node {
        Some(text) => Script::new().put(text.as_str()),
        None => Script::new().tell("telemetry node not present (patch 11)"),
    }
}

} // verus!
