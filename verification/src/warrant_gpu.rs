//! What a GPU command is entitled to do, to say and to end with.
use vstd::prelude::*;

use crate::cli::opening;
use crate::commands::{Cmd, GpuCmd};
use crate::custody::{cut_off, lemma_custody, told, Custody};
use crate::decide::decision;
use crate::model::{
    fault, AutoMode, CpuOc, Fault, ForceOutcome, GovernorConfig, PowerConfig, Reply, Site, VidRaise,
};
use crate::plan::{Action, Op, Outcome, Point, Spot};
use crate::scan::labelled_word;
use crate::session::ended;
use crate::text::dec;
use crate::trace::{answered, course, History};
use crate::warrant_boot::{boot_ground, boot_may, boot_spot, lemma_boot_decision};

verus! {

/// Whether some persisted power settings have this auto mode.
pub open spec fn mode_loaded(h: History, mode: AutoMode) -> bool {
    exists|cfg: PowerConfig| #[trigger]
        told(h, Op::LoadPower, Reply::Power(cfg)) && cfg.auto_mode == mode
}

/// Whether a line tells something of the power settings.
pub open spec fn tells_power(cfg: PowerConfig, text: Seq<char>) -> bool {
    ||| text == "  top (active):     "@ + dec(cfg.top_mhz as nat) + " MHz"@
    ||| text == "  deep (idle):      "@ + dec(cfg.deep_mhz as nat) + " MHz"@
    ||| text == match cfg.force_mhz {
        Some(m) => "  manual pin:       "@ + dec(m as nat)
            + " MHz (force_mhz ARMED — wins at boot)"@,
        None => "  manual pin:       none"@,
    }
    ||| text == match cfg.force_vid_mv {
        Some(v) => "  forced GPU Vid:   "@ + dec(v as nat) + " mV (persisted)"@,
        None => "  forced GPU Vid:   none (SMU-managed)"@,
    }
}

/// The clock that the telemetry node shows, if any.
pub open spec fn node_clock(reply: Reply) -> Option<Seq<char>> {
    match reply {
        Reply::MaybeText(Some(node)) => labelled_word(node@, "GfxClk:"@, 0),
        _ => None,
    }
}

/// Whether the telemetry node was looked at and shows no clock.
pub open spec fn node_silent(h: History) -> bool {
    exists|reply: Reply| #[trigger]
        told(h, Op::TelemetryNode, reply) && node_clock(reply) is None
}

/// Whether a line tells the clock of the telemetry node.
pub open spec fn tells_node_clock(h: History, text: Seq<char>) -> bool {
    exists|reply: Reply| #[trigger]
        told(h, Op::TelemetryNode, reply) && (node_clock(reply) matches Some(clock) && text
            == "  current GfxClk:    "@ + clock + " MHz"@)
}

/// Whether a line tells the clock that the driver reports.
pub open spec fn tells_driver_clock(h: History, text: Seq<char>) -> bool {
    exists|mhz: Option<u32>| #[trigger]
        told(h, Op::CurrentSclk, Reply::MaybeNumber(mhz)) && text == match mhz {
            Some(m) => "  current GfxClk:    "@ + dec(m as nat) + " MHz"@,
            None => "  current GfxClk:    unknown"@,
        }
}

/// Whether a line tells the name of an auto mode.
pub open spec fn tells_mode(h: History, mode: AutoMode, head: Seq<char>, tail: Seq<char>, text: Seq<
    char,
>) -> bool {
    exists|name: String| #[trigger]
        told(h, Op::ModeName(mode), Reply::Text(name)) && text == head + name@ + tail
}

/// Whether a line tells the name of the persisted auto mode.
pub open spec fn tells_loaded_mode(h: History, text: Seq<char>) -> bool {
    exists|mode: AutoMode, name: String| #[trigger]
        told(h, Op::ModeName(mode), Reply::Text(name)) && mode_loaded(h, mode) && text
            == "  auto mode:        "@ + name@
}

/// Whether a line tells something of the power settings that were loaded.
pub open spec fn tells_loaded_power(h: History, text: Seq<char>) -> bool {
    exists|cfg: PowerConfig| #[trigger]
        told(h, Op::LoadPower, Reply::Power(cfg)) && tells_power(cfg, text)
}

/// The lines of the GPU state.
pub open spec fn gpu_status_line(h: History, text: Seq<char>) -> bool {
    ||| text == "GPU power (app-driven):"@
    ||| tells_loaded_power(h, text)
    ||| tells_loaded_mode(h, text)
    ||| tells_node_clock(h, text)
    ||| node_silent(h) && tells_driver_clock(h, text)
}

/// Whether a line tells what came of a pin of this clock.
pub open spec fn tells_forced(mhz: u32, out: ForceOutcome, text: Seq<char>) -> bool {
    ||| out.vid_raised matches Some(r) && text == "note: raised GPU undervolt "@ + dec(
        r.old_mv as nat,
    ) + " -> "@ + dec(r.floor_mv as nat) + " mV (safe floor for "@ + dec(out.set_mhz as nat)
        + " MHz)"@
    ||| text == "GFX clock forced to "@ + dec(out.set_mhz as nat) + (if out.set_mhz != mhz {
        " MHz (clamped from "@ + dec(mhz as nat) + "); "@
    } else {
        " MHz; "@
    }) + (if out.held {
        "manual mode — sticks across reboots"@
    } else {
        "LIVE-ONLY — will NOT survive a reboot"@
    })
}

/// Whether a pin of this clock came out so that this line tells it.
pub open spec fn forced_line(h: History, mhz: u32, text: Seq<char>) -> bool {
    exists|out: ForceOutcome| #[trigger]
        told(h, Op::ForceMode(mhz), Reply::Forced(out)) && tells_forced(mhz, out, text)
}

/// Whether a pin of this clock does not survive a reboot.
pub open spec fn pin_unsafe(h: History, mhz: u32) -> bool {
    exists|out: ForceOutcome| #[trigger]
        told(h, Op::ForceMode(mhz), Reply::Forced(out)) && !out.held
}

/// Whether a clock is the one that was asked for, or the nearer bound of the hardware where that is
/// out of range.
pub open spec fn nearest_clock(site: Site, asked: u32, clk: u32) -> bool {
    if asked < site.sclk_min_mhz {
        clk == site.sclk_min_mhz
    } else if asked > site.sclk_max_mhz {
        clk == site.sclk_max_mhz
    } else {
        clk == asked
    }
}

/// Whether a raise was found to be needed, by the loaded settings, for a pin at this clock.
pub open spec fn raise_needed(h: History, clk: u32, r: VidRaise) -> bool {
    exists|cfg: PowerConfig| #[trigger]
        told(h, Op::RequiredRaise { cfg, mhz: clk }, Reply::Raise(Some(r))) && told(
            h,
            Op::LoadPower,
            Reply::Power(cfg),
        )
}

/// Whether no raise was found to be needed, by the loaded settings, for a pin at this clock.
pub open spec fn raise_not_needed(h: History, clk: u32) -> bool {
    exists|cfg: PowerConfig| #[trigger]
        told(h, Op::RequiredRaise { cfg, mhz: clk }, Reply::Raise(None)) && told(
            h,
            Op::LoadPower,
            Reply::Power(cfg),
        )
}

/// Whether a voltage is the floor of a raise that was found to be needed at this clock.
pub open spec fn raise_asked_to(h: History, clk: u32, mv: u32) -> bool {
    exists|r: VidRaise| #[trigger] raise_needed(h, clk, r) && r.floor_mv == mv
}

/// Whether a needed raise at this clock was answered so.
pub open spec fn raise_answered(h: History, clk: u32, r: VidRaise, set: bool) -> bool {
    raise_needed(h, clk, r) && told(h, Op::SetVddc { clk, mv: r.floor_mv }, Reply::Flag(set))
}

/// Whether a needed raise at this clock was made.
pub open spec fn raise_made(h: History, clk: u32) -> bool {
    exists|r: VidRaise| #[trigger] raise_answered(h, clk, r, true)
}

/// Whether a needed raise at this clock could not be made.
pub open spec fn raise_refused(h: History, clk: u32) -> bool {
    exists|r: VidRaise| #[trigger] raise_answered(h, clk, r, false)
}

/// Whether the clock could not be forced.
pub open spec fn force_refused(h: History, clk: u32) -> bool {
    exists|f: Fault<String>| #[trigger] told(h, Op::ForceClock(clk), Reply::Failed(f))
}

/// Whether a line tells of a raise that was made for a pin at this clock.
pub open spec fn tells_raise(h: History, clk: u32, text: Seq<char>) -> bool {
    exists|r: VidRaise| #[trigger]
        raise_answered(h, clk, r, true) && text == "note: raised GPU voltage "@ + dec(
            r.old_mv as nat,
        ) + " -> "@ + dec(r.floor_mv as nat) + " mV for the pin (transient)"@
}

/// Whether a line tells the clock that was set for a pin at this clock.
pub open spec fn tells_pinned(h: History, clk: u32, text: Seq<char>) -> bool {
    exists|set: u32| #[trigger]
        told(h, Op::ForceClock(clk), Reply::Number(set)) && text == "pinned "@ + dec(set as nat)
            + " MHz (transient — GPU power unit stopped; run `gpu unpin` after)"@
}

/// What a transient pin at this clock is entitled to.
pub open spec fn pin_may(h: History, clk: u32, action: Action<Seq<char>>) -> bool {
    match action {
        Action::Host(op) => match op {
            Op::StopGpuUnit => true,
            Op::LoadPower => true,
            Op::RequiredRaise { cfg, mhz } => mhz == clk && told(
                h,
                Op::LoadPower,
                Reply::Power(cfg),
            ),
            Op::SetVddc { clk: c, mv } => c == clk && raise_asked_to(h, clk, mv),
            Op::ForceClock(c) => c == clk && (raise_not_needed(h, clk) || raise_made(h, clk)),
            Op::StartGpuUnit => raise_refused(h, clk) || force_refused(h, clk),
            _ => false,
        },
        Action::Println(text) => tells_raise(h, clk, text) || tells_pinned(h, clk, text),
        _ => false,
    }
}

/// Whether a transient pin is entitled to end so, since the voltage could not be raised.
pub open spec fn starved(h: History, clk: u32, outcome: Outcome<Seq<char>>) -> bool {
    exists|r: VidRaise| #[trigger]
        raise_answered(h, clk, r, false) && outcome == Outcome::Failed(
            fault(
                "cannot raise GPU undervolt "@ + dec(r.old_mv as nat) + " -> "@ + dec(
                    r.floor_mv as nat,
                ) + " mV for "@ + dec(clk as nat)
                    + " MHz (overdrive write failed) — refusing to pin onto a starved rail"@,
            ).under("pin failed (GPU power unit restarted)"@),
        )
}

/// Whether a transient pin is entitled to end so, since the clock could not be forced.
pub open spec fn unforced(h: History, clk: u32, outcome: Outcome<Seq<char>>) -> bool {
    exists|f: Fault<String>| #[trigger]
        told(h, Op::ForceClock(clk), Reply::Failed(f)) && outcome == Outcome::Failed(
            f@.under("pin failed (GPU power unit restarted)"@),
        )
}

/// Whether a transient pin at this clock is entitled to end so.
pub open spec fn pin_may_end(h: History, clk: u32, outcome: Outcome<Seq<char>>) -> bool {
    starved(h, clk, outcome) || unforced(h, clk, outcome)
}

/// What a transient pin is entitled to, for the clock that was asked for.
pub open spec fn pin_warrants(
    site: Site,
    h: History,
    mhz: u32,
    action: Action<Seq<char>>,
) -> bool {
    exists|clk: u32| #[trigger] nearest_clock(site, mhz, clk) && pin_may(h, clk, action)
}

/// Whether a transient pin is entitled to end so, for the clock that was asked for.
pub open spec fn pin_closes(
    site: Site,
    h: History,
    mhz: u32,
    outcome: Outcome<Seq<char>>,
) -> bool {
    exists|clk: u32| #[trigger] nearest_clock(site, mhz, clk) && pin_may_end(h, clk, outcome)
}

/// Whether the host answered a clock as the highest that the loaded settings and tiers let the GPU
/// reach.
pub open spec fn floor_clock(h: History, clk: u32) -> bool {
    exists|cfg: PowerConfig, governor: GovernorConfig| #[trigger]
        told(h, Op::FloorClock { cfg, governor }, Reply::Number(clk)) && told(
            h,
            Op::LoadPower,
            Reply::Power(cfg),
        ) && told(h, Op::LoadGovernor, Reply::Governor(governor))
}

/// Whether the host answered a safe floor at a clock that a voltage does not go below.
pub open spec fn floor_respected(h: History, clk: u32, mv: u32) -> bool {
    exists|floor: u32| #[trigger] told(h, Op::MinVddc(clk), Reply::Number(floor)) && floor <= mv
}

/// Whether a voltage was set at the highest reachable clock.
pub open spec fn vid_set_at(h: History, mv: u32, clk: u32) -> bool {
    told(h, Op::SetVddc { clk, mv }, Reply::Flag(true)) && floor_clock(h, clk)
}

/// Whether a voltage was set at some highest reachable clock.
pub open spec fn vid_set(h: History, mv: u32) -> bool {
    exists|clk: u32| #[trigger] vid_set_at(h, mv, clk)
}

/// Whether power settings are those that were loaded, with this voltage and nothing else changed.
pub open spec fn voltage_changed(h: History, vid: Option<u32>, saved: PowerConfig) -> bool {
    exists|cfg: PowerConfig| #[trigger]
        told(h, Op::LoadPower, Reply::Power(cfg)) && saved.force_vid_mv == vid && saved.top_mhz
            == cfg.top_mhz && saved.deep_mhz == cfg.deep_mhz && saved.force_mhz == cfg.force_mhz
            && saved.auto_mode == cfg.auto_mode
}

/// What a voltage override is entitled to. Its clock is the highest reachable one, and the floor is
/// that of the same clock.
pub open spec fn vid_may(h: History, mv: u32, action: Action<Seq<char>>) -> bool {
    match action {
        Action::Host(op) => match op {
            Op::LockConfig => true,
            Op::LoadPower => true,
            Op::LoadGovernor => true,
            Op::FloorClock { cfg, governor } => told(h, Op::LoadPower, Reply::Power(cfg)) && told(
                h,
                Op::LoadGovernor,
                Reply::Governor(governor),
            ),
            Op::MinVddc(clk) => floor_clock(h, clk),
            Op::SetVddc { clk, mv: v } => v == mv && floor_clock(h, clk) && floor_respected(
                h,
                clk,
                mv,
            ),
            Op::SavePower(saved) => vid_set(h, mv) && voltage_changed(h, Some(mv), saved),
            Op::GpuUnitInstalled => vid_set(h, mv),
            _ => false,
        },
        Action::Println(text) => {
            ||| told(h, Op::GpuUnitInstalled, Reply::Flag(true)) && text == "GPU voltage set to "@
                + dec(mv as nat) + " mV at the high clock"@ + " — persisted, re-applied at boot"@
            ||| told(h, Op::GpuUnitInstalled, Reply::Flag(false)) && text == "GPU voltage set to "@
                + dec(mv as nat) + " mV at the high clock"@
                + " (live now; run a gpu mode command to install the boot unit)"@
        },
        _ => false,
    }
}

/// Whether a voltage override is entitled to be refused for the floor of its clock.
pub open spec fn vid_below_floor(h: History, mv: u32, outcome: Outcome<Seq<char>>) -> bool {
    exists|clk: u32, floor: u32| #[trigger]
        told(h, Op::MinVddc(clk), Reply::Number(floor)) && floor_clock(h, clk) && mv < floor
            && outcome == Outcome::Failed(
            fault(
                dec(mv as nat) + " mV is below the safe floor "@ + dec(floor as nat) + " mV for "@
                    + dec(clk as nat)
                    + " MHz — that undervolt would crash the GPU. Raise the voltage, or lower the clock first (set-top)."@,
            ),
        )
}

/// Whether a voltage override was refused by the hardware.
pub open spec fn vid_unset(h: History, mv: u32) -> bool {
    exists|clk: u32| #[trigger]
        told(h, Op::SetVddc { clk, mv }, Reply::Flag(false)) && floor_clock(h, clk)
}

/// Whether the loaded settings let a command push the clock: no pin is persisted, or an override of
/// it is asked for.
pub open spec fn unguarded(cfg: PowerConfig, override_pin: bool) -> bool {
    cfg.force_mhz is None || override_pin
}

/// Whether a clock is the top one, or the deep one, of loaded settings that let it be forced.
pub open spec fn pushed_clock(h: History, override_pin: bool, deep: bool, mhz: u32) -> bool {
    exists|cfg: PowerConfig| #[trigger]
        told(h, Op::LoadPower, Reply::Power(cfg)) && unguarded(cfg, override_pin) && mhz == if deep {
            cfg.deep_mhz
        } else {
            cfg.top_mhz
        }
}

/// Whether a line tells a clock that was pushed.
pub open spec fn tells_pushed(
    h: History,
    override_pin: bool,
    deep: bool,
    head: Seq<char>,
    text: Seq<char>,
) -> bool {
    exists|mhz: u32| #[trigger]
        pushed_clock(h, override_pin, deep, mhz) && text == head + dec(mhz as nat) + " MHz"@
}

/// Whether the loaded settings let the performance level be set.
pub open spec fn level_free(h: History, override_pin: bool) -> bool {
    exists|cfg: PowerConfig| #[trigger]
        told(h, Op::LoadPower, Reply::Power(cfg)) && unguarded(cfg, override_pin)
}

/// Whether a line warns that a persisted pin is overridden.
pub open spec fn warns_of_pin(
    h: History,
    override_pin: bool,
    what: Seq<char>,
    text: Seq<char>,
) -> bool {
    override_pin && exists|cfg: PowerConfig| #[trigger]
        told(h, Op::LoadPower, Reply::Power(cfg)) && (cfg.force_mhz matches Some(m) && text
            == "WARNING: overriding the persisted "@ + dec(m as nat) + " MHz manual pin with `"@
            + what + "` (--override-pin) — the pin re-asserts on the next unit restart/boot"@)
}

/// Whether a command is entitled to be refused for a persisted pin.
pub open spec fn pin_guards(
    h: History,
    override_pin: bool,
    what: Seq<char>,
    outcome: Outcome<Seq<char>>,
) -> bool {
    !override_pin && exists|cfg: PowerConfig| #[trigger]
        told(h, Op::LoadPower, Reply::Power(cfg)) && (cfg.force_mhz matches Some(m) && outcome
            == Outcome::Failed(
            fault(
                "a manual clock pin is persisted at "@ + dec(m as nat)
                    + " MHz (possibly a heat-safety pin) — `"@ + what
                    + "` would silently override it. Release it first (`gpu unforce`) or pass --override-pin."@,
            ),
        ))
}

/// Whether the host answered these settings as the loaded ones with this top clock.
pub open spec fn top_settings(h: History, mhz: u32, cfg: PowerConfig) -> bool {
    exists|before: PowerConfig| #[trigger]
        told(h, Op::SetTop { cfg: before, mhz }, Reply::Power(cfg)) && told(
            h,
            Op::LoadPower,
            Reply::Power(before),
        )
}

/// Whether a clock is the highest of a top clock, a tier and a pin.
pub open spec fn is_highest(clk: u32, top: u32, high: u32, pin: Option<u32>) -> bool {
    &&& top <= clk
    &&& high <= clk
    &&& pin matches Some(m) ==> m <= clk
    &&& clk == top || clk == high || pin == Some(clk)
}

/// Whether a clock is the highest that the GPU can reach with this new top clock.
pub open spec fn top_reach(h: History, mhz: u32, cfg: PowerConfig, clk: u32) -> bool {
    exists|top: u32| #[trigger]
        told(h, Op::EffectiveTop(cfg), Reply::Number(top)) && is_highest(
            clk,
            top,
            mhz,
            cfg.force_mhz,
        )
}

/// Whether the host answered this floor for the highest clock that the GPU can reach with this new
/// top clock.
pub open spec fn top_floor(h: History, mhz: u32, cfg: PowerConfig, clk: u32, floor: u32) -> bool {
    top_settings(h, mhz, cfg) && top_reach(h, mhz, cfg, clk) && told(
        h,
        Op::MinVddc(clk),
        Reply::Number(floor),
    )
}

/// Whether a clock is the highest one for some settings with this new top clock.
pub open spec fn top_reached(h: History, mhz: u32, clk: u32) -> bool {
    exists|cfg: PowerConfig| #[trigger] top_settings(h, mhz, cfg) && top_reach(h, mhz, cfg, clk)
}

/// Whether the persisted voltage has to be raised to this floor at this clock.
pub open spec fn top_raise(h: History, mhz: u32, clk: u32, floor: u32) -> bool {
    exists|cfg: PowerConfig| #[trigger]
        top_floor(h, mhz, cfg, clk, floor) && (cfg.force_vid_mv matches Some(v) && v < floor)
}

/// Whether settings are those with the new top clock, the persisted voltage no lower than the floor
/// and otherwise as it was.
pub open spec fn top_saved(h: History, mhz: u32, saved: PowerConfig) -> bool {
    exists|cfg: PowerConfig, clk: u32, floor: u32| #[trigger]
        top_floor(h, mhz, cfg, clk, floor) && saved.top_mhz == cfg.top_mhz && saved.deep_mhz
            == cfg.deep_mhz && saved.force_mhz == cfg.force_mhz && saved.auto_mode == cfg.auto_mode
            && match cfg.force_vid_mv {
            None => saved.force_vid_mv is None,
            Some(v) => saved.force_vid_mv == Some(
                if v < floor {
                    floor
                } else {
                    v
                },
            ),
        }
}

/// Whether a line tells of the voltage that was raised for the new top clock.
pub open spec fn tells_top_raise(h: History, mhz: u32, text: Seq<char>) -> bool {
    exists|cfg: PowerConfig, clk: u32, floor: u32| #[trigger]
        top_floor(h, mhz, cfg, clk, floor) && (cfg.force_vid_mv matches Some(v) && v < floor && text
            == "note: raised GPU undervolt "@ + dec(v as nat) + " -> "@ + dec(floor as nat)
            + " mV (safe floor for "@ + dec(clk as nat) + " MHz)"@)
}

/// The tiers of the governor, one at a time.
pub enum Tier {
    High,
    Mid,
    Idle,
    Deep,
}

/// Whether governor tiers are those before, with one of them at this clock.
pub open spec fn tier_changed(
    before: GovernorConfig,
    tier: Tier,
    mhz: u32,
    after: GovernorConfig,
) -> bool {
    &&& after.high_mhz == if tier is High {
        mhz
    } else {
        before.high_mhz
    }
    &&& after.mid_mhz == if tier is Mid {
        mhz
    } else {
        before.mid_mhz
    }
    &&& after.idle_mhz == if tier is Idle {
        mhz
    } else {
        before.idle_mhz
    }
    &&& after.deep_mhz == if tier is Deep {
        mhz
    } else {
        before.deep_mhz
    }
}

/// Whether governor tiers are those that were loaded, with one of them at this clock.
pub open spec fn tiers_with(h: History, tier: Tier, mhz: u32, after: GovernorConfig) -> bool {
    exists|before: GovernorConfig| #[trigger]
        told(h, Op::LoadGovernor, Reply::Governor(before)) && tier_changed(before, tier, mhz, after)
}

/// What a command that sets one tier of the governor is entitled to.
pub open spec fn tier_may(
    h: History,
    tier: Tier,
    mhz: u32,
    head: Seq<char>,
    action: Action<Seq<char>>,
) -> bool {
    match action {
        Action::Host(op) => match op {
            Op::LoadGovernor => true,
            Op::ValidateLadder(g) => tiers_with(h, tier, mhz, g),
            Op::SaveGovernor(g) => tiers_with(h, tier, mhz, g),
            Op::ReloadIfAuto => true,
            _ => false,
        },
        Action::Println(text) => text == head + dec(mhz as nat) + " MHz (persisted)"@,
        _ => false,
    }
}

/// What a command that sets the top clock is entitled to.
pub open spec fn top_may(h: History, mhz: u32, action: Action<Seq<char>>) -> bool {
    tier_may(h, Tier::High, mhz, "top/high setpoint = "@, action) || match action {
        Action::Host(op) => match op {
            Op::LockConfig => true,
            Op::LoadPower => true,
            Op::SetTop { cfg, mhz: m } => m == mhz && told(h, Op::LoadPower, Reply::Power(cfg)),
            Op::EffectiveTop(cfg) => top_settings(h, mhz, cfg),
            Op::MinVddc(clk) => top_reached(h, mhz, clk),
            Op::SetVddc { clk, mv } => top_raise(h, mhz, clk, mv),
            Op::SavePower(saved) => top_saved(h, mhz, saved),
            _ => false,
        },
        Action::Println(text) => tells_top_raise(h, mhz, text),
        _ => false,
    }
}

/// Whether the host answered these settings as the loaded ones with this deep clock.
pub open spec fn deep_settings(h: History, mhz: u32, cfg: PowerConfig) -> bool {
    exists|before: PowerConfig| #[trigger]
        told(h, Op::SetDeep { cfg: before, mhz }, Reply::Power(cfg)) && told(
            h,
            Op::LoadPower,
            Reply::Power(before),
        )
}

/// What a command that sets the deep clock is entitled to.
pub open spec fn deep_may(h: History, mhz: u32, action: Action<Seq<char>>) -> bool {
    tier_may(h, Tier::Deep, mhz, "deep setpoint = "@, action) || match action {
        Action::Host(op) => match op {
            Op::LockConfig => true,
            Op::LoadPower => true,
            Op::SetDeep { cfg, mhz: m } => m == mhz && told(h, Op::LoadPower, Reply::Power(cfg)),
            Op::SavePower(saved) => deep_settings(h, mhz, saved),
            _ => false,
        },
        _ => false,
    }
}

/// Whether a CPU point is the persisted one with this GPU temperature limit alone changed.
pub open spec fn capped(h: History, c: u32, saved: CpuOc) -> bool {
    exists|before: CpuOc| #[trigger]
        told(h, Op::LoadCpu, Reply::Point(before)) && saved.gpu_temp_c == c && saved.boost_mhz
            == before.boost_mhz && saved.curve_scale == before.curve_scale && saved.cpu_temp_c
            == before.cpu_temp_c
}

/// What a command that sets the temperature cap is entitled to.
pub open spec fn cap_may(site: Site, h: History, c: u32, action: Action<Seq<char>>) -> bool {
    60 <= c <= site.temp_max_c && match action {
        Action::Host(op) => match op {
            Op::LoadCpu => true,
            Op::SaveCpu(saved) => capped(h, c, saved),
            Op::OpenOc => true,
            Op::SetGpuTemp(t) => t == c && told(h, Op::OpenOc, Reply::Done),
            Op::ArmCpuOc => true,
            Op::ReloadIfAuto => true,
            _ => false,
        },
        Action::Println(text) => text == "gpu temp cap = "@ + dec(c as nat)
            + " C (persisted; governor demotes to hold it)"@,
        _ => false,
    }
}

/// Whether settings are those that were loaded with this auto mode and without a pin.
pub open spec fn mode_switched(h: History, mode: AutoMode, saved: PowerConfig) -> bool {
    exists|cfg: PowerConfig| #[trigger]
        told(h, Op::LoadPower, Reply::Power(cfg)) && saved.auto_mode == mode && saved.force_mhz is
        None && saved.top_mhz == cfg.top_mhz && saved.deep_mhz == cfg.deep_mhz
            && saved.force_vid_mv == cfg.force_vid_mv
}

/// What a command that makes an auto mode persistent is entitled to.
pub open spec fn switch_may(
    h: History,
    mode: AutoMode,
    log: Seq<char>,
    line: Seq<char>,
    action: Action<Seq<char>>,
) -> bool {
    match action {
        Action::Host(op) => match op {
            Op::ReleaseClock => !(mode is Autosleep),
            Op::LockConfig => true,
            Op::LoadPower => true,
            Op::SavePower(saved) => mode_switched(h, mode, saved),
            Op::ApplyMode => true,
            _ => false,
        },
        Action::LogTransition(text) => text == log,
        Action::Println(text) => text == line,
        _ => false,
    }
}

/// Whether text is what the telemetry node holds.
pub open spec fn node_text(h: History, text: Seq<char>) -> bool {
    exists|node: String| #[trigger]
        told(h, Op::TelemetryNode, Reply::MaybeText(Some(node))) && text == node@
}

/// Whether a line tells of the mode that resumes once a pin is gone.
pub open spec fn tells_resumed(h: History, text: Seq<char>) -> bool {
    exists|mode: AutoMode| #[trigger]
        told(h, Op::UnforceMode, Reply::Mode(mode)) && tells_mode(
            h,
            mode,
            "GFX clock + voltage released — auto mode ("@,
            ") resumed"@,
            text,
        )
}

/// What a GPU command is entitled to hand to the host, by its command line and by what the host has
/// answered so far.
pub open spec fn gpu_may(
    site: Site,
    cmd: GpuCmd,
    h: History,
    action: Action<Seq<char>>,
) -> bool {
    match cmd {
        GpuCmd::Status => match action {
            Action::Host(op) => match op {
                Op::LoadPower => true,
                Op::ModeName(mode) => mode_loaded(h, mode),
                Op::TelemetryNode => true,
                Op::CurrentSclk => node_silent(h),
                _ => false,
            },
            Action::Println(text) => gpu_status_line(h, text),
            _ => false,
        },
        GpuCmd::Force { mhz } => match action {
            Action::Host(op) => op == Op::ForceMode(mhz),
            Action::Println(text) => forced_line(h, mhz, text),
            Action::Eprintln(text) => pin_unsafe(h, mhz) && text
                == "WARNING: could not install the boot re-apply service — this pin is REBOOT-UNSAFE. Re-run as root, or the clock reverts to auto on reboot."@,
            _ => false,
        },
        GpuCmd::Unforce => match action {
            Action::Host(op) => match op {
                Op::UnforceMode => true,
                Op::ModeName(mode) => told(h, Op::UnforceMode, Reply::Mode(mode)),
                _ => false,
            },
            Action::Println(text) => tells_resumed(h, text),
            _ => false,
        },
        GpuCmd::Pin { mhz } => pin_warrants(site, h, mhz, action),
        GpuCmd::Unpin => match action {
            Action::Host(op) => op == Op::ReleaseClock || op == Op::StartGpuUnit,
            Action::Println(text) => text
                == "unpinned — GPU power unit restarted (persisted mode resumes)"@,
            _ => false,
        },
        GpuCmd::ApplyBoot => boot_may(site, h, action),
        GpuCmd::ApplySavedForce => boot_may(site, h, action),
        GpuCmd::Vid { mv } => vid_may(h, mv, action),
        GpuCmd::UnforceVid => match action {
            Action::Host(op) => match op {
                Op::ResetVddc => true,
                Op::LockConfig => told(h, Op::ResetVddc, Reply::Flag(true)),
                Op::LoadPower => told(h, Op::ResetVddc, Reply::Flag(true)),
                Op::SavePower(saved) => told(h, Op::ResetVddc, Reply::Flag(true))
                    && voltage_changed(h, None, saved),
                _ => false,
            },
            Action::Println(text) => told(h, Op::ResetVddc, Reply::Flag(true)) && text
                == "GPU voltage released — stock SMU-managed curve restored"@,
            _ => false,
        },
        GpuCmd::Wake { override_pin } => match action {
            Action::Host(op) => match op {
                Op::LoadPower => true,
                Op::ForceClock(m) => pushed_clock(h, override_pin, false, m),
                _ => false,
            },
            Action::Println(text) => tells_pushed(h, override_pin, false, "woke to "@, text),
            Action::Eprintln(text) => warns_of_pin(h, override_pin, "wake"@, text),
            _ => false,
        },
        GpuCmd::DeepSleep { override_pin } => match action {
            Action::Host(op) => match op {
                Op::LoadPower => true,
                Op::ForceClock(m) => pushed_clock(h, override_pin, true, m),
                _ => false,
            },
            Action::Println(text) => tells_pushed(h, override_pin, true, "deep-sleep at "@, text),
            Action::Eprintln(text) => warns_of_pin(h, override_pin, "deep-sleep"@, text),
            _ => false,
        },
        GpuCmd::Level { level, override_pin } => match action {
            Action::Host(op) => op == Op::LoadPower,
            Action::SetPerformanceLevel(l) => l == level@ && level_free(h, override_pin),
            Action::Println(text) => level_free(h, override_pin) && text
                == "performance level set: "@ + level@,
            Action::Eprintln(text) => warns_of_pin(h, override_pin, "level"@, text),
            _ => false,
        },
        GpuCmd::SetTop { mhz } => top_may(h, mhz, action),
        GpuCmd::SetMid { mhz } => tier_may(h, Tier::Mid, mhz, "mid"@ + " setpoint = "@, action),
        GpuCmd::SetIdle { mhz } => tier_may(h, Tier::Idle, mhz, "idle"@ + " setpoint = "@, action),
        GpuCmd::SetDeep { mhz } => deep_may(h, mhz, action),
        GpuCmd::TempCap { c } => cap_may(site, h, c, action),
        GpuCmd::GovernorOn => switch_may(
            h,
            AutoMode::Governor,
            "governor-on"@,
            "auto governor: ON (persists across reboot)"@,
            action,
        ),
        GpuCmd::GovernorOff => switch_may(
            h,
            AutoMode::Released,
            "governor-off -> released"@,
            "auto governor: OFF — released (native DPM)"@,
            action,
        ),
        GpuCmd::AutosleepOn => switch_may(
            h,
            AutoMode::Autosleep,
            "autosleep-on"@,
            "autosleep: ON (poke-driven; persists across reboot)"@,
            action,
        ),
        GpuCmd::Poke => action == Action::<Seq<char>>::Host(Op::Poke),
        GpuCmd::Autosleep { idle, deep_force } => action matches Action::Host(
            Op::RunAutosleep { idle: i, deep_force: d },
        ) && i == idle && d == deep_force,
        GpuCmd::Governor => match action {
            Action::Host(op) => match op {
                Op::LoadGovernor => true,
                Op::RunGovernor(g) => told(h, Op::LoadGovernor, Reply::Governor(g)),
                _ => false,
            },
            _ => false,
        },
        GpuCmd::Telemetry => match action {
            Action::Host(op) => op == Op::TelemetryNode,
            Action::Print(text) => node_text(h, text),
            Action::Println(text) => told(h, Op::TelemetryNode, Reply::MaybeText(None)) && text
                == "telemetry node not present (patch 11)"@,
            _ => false,
        },
    }
}

/// Whether a GPU command goes on where an action fails.
pub open spec fn gpu_tolerates(cmd: GpuCmd, op: Op) -> bool {
    match cmd {
        GpuCmd::Status => op == Op::TelemetryNode,
        GpuCmd::Pin { .. } => op is StopGpuUnit || op is StartGpuUnit || op is ForceClock,
        GpuCmd::Unpin => op == Op::StartGpuUnit,
        GpuCmd::SetTop { .. } => op is SetVddc || op == Op::ReloadIfAuto,
        GpuCmd::SetMid { .. } => op == Op::ReloadIfAuto,
        GpuCmd::SetIdle { .. } => op == Op::ReloadIfAuto,
        GpuCmd::SetDeep { .. } => op == Op::ReloadIfAuto,
        GpuCmd::TempCap { .. } => op == Op::OpenOc || op == Op::ArmCpuOc || op == Op::ReloadIfAuto,
        GpuCmd::GovernorOn => op == Op::ReleaseClock,
        GpuCmd::GovernorOff => op == Op::ReleaseClock,
        _ => false,
    }
}

/// Whether an error is that of an action that a GPU command needs.
pub open spec fn gpu_needed_failed(h: History, cmd: GpuCmd, outcome: Outcome<Seq<char>>) -> bool {
    exists|action: Action<Seq<char>>, f: Fault<String>| #[trigger]
        answered(h, action, Reply::Failed(f)) && !(action matches Action::Host(op)
            && gpu_tolerates(cmd, op)) && outcome == Outcome::Failed(
            Fault { message: f.message@, chain: f.chain@ },
        )
}

/// The ends, other than success, that a GPU command is entitled to.
pub open spec fn gpu_may_end(
    site: Site,
    cmd: GpuCmd,
    h: History,
    outcome: Outcome<Seq<char>>,
) -> bool {
    gpu_needed_failed(h, cmd, outcome) || match cmd {
        GpuCmd::Pin { mhz } => pin_closes(site, h, mhz, outcome),
        GpuCmd::Vid { mv } => vid_below_floor(h, mv, outcome) || (vid_unset(h, mv) && outcome
            == Outcome::Failed(
            fault(
                "voltage set failed — overdrive off (amdgpu.ppfeaturemask) or need root, or "@
                    + dec(mv as nat) + " mV is outside the OD_RANGE VDDC"@,
            ),
        )),
        GpuCmd::UnforceVid => told(h, Op::ResetVddc, Reply::Flag(false)) && outcome
            == Outcome::Failed(fault("voltage reset failed — overdrive off or need root"@)),
        GpuCmd::Wake { override_pin } => pin_guards(h, override_pin, "wake"@, outcome),
        GpuCmd::DeepSleep { override_pin } => pin_guards(h, override_pin, "deep-sleep"@, outcome),
        GpuCmd::Level { level, override_pin } => pin_guards(h, override_pin, "level"@, outcome),
        GpuCmd::TempCap { c } => !(60 <= c <= site.temp_max_c) && outcome == Outcome::Failed(
            fault(
                "gpu temp cap "@ + dec(c as nat) + " C outside 60-"@ + dec(site.temp_max_c as nat)
                    + " C"@,
            ),
        ),
        _ => false,
    }
}

/// The decisions of a GPU command whose values are vouched for.
spec fn gpu_ground(
    site: Site,
    cmd: GpuCmd,
    h: History,
    action: Action<Seq<char>>,
    point: Point<Seq<char>>,
) -> bool {
    action matches Action::Host(op) && match point {
        Point::Level { level: l, override_pin: o } => cmd matches GpuCmd::Level {
            level,
            override_pin,
        } && l == level@ && o == override_pin && op == Op::LoadPower,
        Point::At(spot) => match spot {
            Spot::GpuStatus => cmd is Status && op == Op::LoadPower,
            Spot::StatusMode => cmd is Status && (op matches Op::ModeName(mode) && mode_loaded(
                h,
                mode,
            )),
            Spot::StatusClock => cmd is Status && op == Op::TelemetryNode,
            Spot::StatusSclk => cmd is Status && op == Op::CurrentSclk && node_silent(h),
            Spot::Forced(m) => cmd == (GpuCmd::Force { mhz: m }) && op == Op::ForceMode(m),
            Spot::Unforced => cmd is Unforce && op == Op::UnforceMode,
            Spot::UnforcedMode => cmd is Unforce && (op matches Op::ModeName(mode) && told(
                h,
                Op::UnforceMode,
                Reply::Mode(mode),
            )),
            Spot::PinConfig(m) => cmd == (GpuCmd::Pin { mhz: m }) && op == Op::LoadPower,
            Spot::PinRaise(t) => cmd matches GpuCmd::Pin { mhz } && nearest_clock(site, mhz, t) && (
            op matches Op::RequiredRaise { cfg, mhz: m } && m == t && told(
                h,
                Op::LoadPower,
                Reply::Power(cfg),
            )),
            Spot::PinVddc { target: t, raise } => cmd matches GpuCmd::Pin { mhz } && nearest_clock(
                site,
                mhz,
                t,
            ) && op == (Op::SetVddc { clk: t, mv: raise.floor_mv }) && raise_needed(h, t, raise),
            Spot::PinForced => cmd matches GpuCmd::Pin { mhz } && (op matches Op::ForceClock(t)
                && nearest_clock(site, mhz, t)),
            Spot::VidPower(mv) => cmd == (GpuCmd::Vid { mv }) && op == Op::LoadPower,
            Spot::VidGovernor { mv, cfg } => cmd == (GpuCmd::Vid { mv }) && op == Op::LoadGovernor
                && told(h, Op::LoadPower, Reply::Power(cfg)),
            Spot::VidClock { mv, cfg } => cmd == (GpuCmd::Vid { mv }) && told(
                h,
                Op::LoadPower,
                Reply::Power(cfg),
            ) && vid_may(h, mv, action) && op is FloorClock,
            Spot::VidFloor { mv, cfg, clk } => cmd == (GpuCmd::Vid { mv }) && told(
                h,
                Op::LoadPower,
                Reply::Power(cfg),
            ) && op == Op::MinVddc(clk) && floor_clock(h, clk),
            Spot::VidSet { mv, cfg } => cmd == (GpuCmd::Vid { mv }) && told(
                h,
                Op::LoadPower,
                Reply::Power(cfg),
            ) && (op matches Op::SetVddc { clk, mv: v } && v == mv && floor_clock(h, clk)),
            Spot::VidInstalled(mv) => cmd == (GpuCmd::Vid { mv }) && op == Op::GpuUnitInstalled,
            Spot::VidReset => cmd is UnforceVid && op == Op::ResetVddc,
            Spot::VidCleared => cmd is UnforceVid && op == Op::LoadPower && told(
                h,
                Op::ResetVddc,
                Reply::Flag(true),
            ),
            Spot::Wake { override_pin } => cmd == (GpuCmd::Wake { override_pin }) && op
                == Op::LoadPower,
            Spot::DeepSleep { override_pin } => cmd == (GpuCmd::DeepSleep { override_pin }) && op
                == Op::LoadPower,
            Spot::TopPower(m) => cmd == (GpuCmd::SetTop { mhz: m }) && op == Op::LoadPower,
            Spot::TopSet(m) => cmd == (GpuCmd::SetTop { mhz: m }) && (op matches Op::SetTop {
                cfg,
                mhz,
            } && mhz == m && told(h, Op::LoadPower, Reply::Power(cfg))),
            Spot::TopGovernor { mhz, cfg } => cmd == (GpuCmd::SetTop { mhz }) && op
                == Op::LoadGovernor && top_settings(h, mhz, cfg),
            Spot::TopClock { mhz, cfg, governor } => cmd == (GpuCmd::SetTop { mhz }) && op
                == Op::EffectiveTop(cfg) && top_settings(h, mhz, cfg) && tiers_with(
                h,
                Tier::High,
                mhz,
                governor,
            ),
            Spot::TopFloor { mhz, cfg, governor, clk } => cmd == (GpuCmd::SetTop { mhz }) && op
                == Op::MinVddc(clk) && top_settings(h, mhz, cfg) && top_reach(h, mhz, cfg, clk)
                && tiers_with(h, Tier::High, mhz, governor),
            Spot::SetMid(m) => cmd == (GpuCmd::SetMid { mhz: m }) && op == Op::LoadGovernor,
            Spot::SetIdle(m) => cmd == (GpuCmd::SetIdle { mhz: m }) && op == Op::LoadGovernor,
            Spot::DeepPower(m) => cmd == (GpuCmd::SetDeep { mhz: m }) && op == Op::LoadPower,
            Spot::DeepSet(m) => cmd == (GpuCmd::SetDeep { mhz: m }) && (op matches Op::SetDeep {
                cfg,
                mhz,
            } && mhz == m && told(h, Op::LoadPower, Reply::Power(cfg))),
            Spot::DeepGovernor { mhz, cfg } => cmd == (GpuCmd::SetDeep { mhz }) && op
                == Op::LoadGovernor && deep_settings(h, mhz, cfg),
            Spot::TempCap(c) => cmd == (GpuCmd::TempCap { c }) && 60 <= c <= site.temp_max_c && op
                == Op::LoadCpu,
            Spot::TempCapOc(c) => cmd == (GpuCmd::TempCap { c }) && 60 <= c <= site.temp_max_c && op
                == Op::OpenOc,
            Spot::SwitchMode(mode) => op == Op::LoadPower && match cmd {
                GpuCmd::GovernorOn => mode is Governor,
                GpuCmd::GovernorOff => mode is Released,
                GpuCmd::AutosleepOn => mode is Autosleep,
                _ => false,
            },
            Spot::Telemetry => cmd is Telemetry && op == Op::TelemetryNode,
            Spot::StartGovernor => if cmd is Governor {
                op == Op::LoadGovernor
            } else {
                (cmd is ApplyBoot || cmd is ApplySavedForce) && boot_ground(h, action, spot)
            },
            _ => (cmd is ApplyBoot || cmd is ApplySavedForce) && boot_spot(spot) && boot_ground(
                h,
                action,
                spot,
            ),
        },
        _ => false,
    }
}

spec fn gpu_custody(site: Site, cmd: GpuCmd, h: History) -> Custody {
    Custody {
        warrant: |action: Action<Seq<char>>| gpu_may(site, cmd, h, action),
        ground: |action: Action<Seq<char>>, point: Point<Seq<char>>|
            gpu_ground(site, cmd, h, action, point),
        close: |outcome: Outcome<Seq<char>>| gpu_may_end(site, cmd, h, outcome),
    }
}

/// The error of an action that a GPU command needs is an end that it is entitled to.
proof fn lemma_gpu_error(site: Site, cmd: GpuCmd, h: History, action: Action<Seq<char>>)
    requires
        !(action matches Action::Host(op) && gpu_tolerates(cmd, op)),
    ensures
        gpu_custody(site, cmd, h).passes_error(h, action),
{
    let custody = gpu_custody(site, cmd, h);
    assert forall|f: Fault<String>| #[trigger] answered(h, action, Reply::Failed(f)) implies (
    custody.close)(Outcome::Failed(f@)) by {
        assert(gpu_needed_failed(h, cmd, Outcome::Failed(f@)));
    }
}

proof fn lemma_gpu_status_decision(
    site: Site,
    cmd: GpuCmd,
    h: History,
    action: Action<Seq<char>>,
    point: Point<Seq<char>>,
    reply: Reply,
)
    requires
        point matches Point::At(spot) && (spot is GpuStatus || spot is StatusMode || spot is StatusClock || spot is StatusSclk || spot is Telemetry),
        gpu_ground(site, cmd, h, action, point),
        answered(h, action, reply),
        decision(site, point, reply) is Some,
    ensures
        gpu_custody(site, cmd, h).covers(h, decision(site, point, reply)->0),
{
    let custody = gpu_custody(site, cmd, h);
    let decided = decision(site, point, reply)->0;
    let op = action->Host_0;
    assert(told(h, op, reply));
    match point->At_0 {
        Spot::GpuStatus => {
            let cfg = reply->Power_0;
            assert(told(h, Op::LoadPower, Reply::Power(cfg)));
            assert(mode_loaded(h, cfg.auto_mode));
            assert forall|text: Seq<char>| #[trigger] tells_power(cfg, text) implies
                tells_loaded_power(h, text) by {}
            assert(tells_power(cfg, decided[1]->action->Println_0));
            assert(tells_power(cfg, decided[2]->action->Println_0));
            assert(tells_power(cfg, decided[3]->action->Println_0));
            assert(tells_power(cfg, decided[5]->action->Println_0));
        },
        Spot::StatusMode => {
            let mode = op->ModeName_0;
            let name = reply->Text_0;
            assert(told(h, Op::ModeName(mode), Reply::Text(name)));
            assert(tells_loaded_mode(h, decided[0]->action->Println_0));
        },
        Spot::StatusClock => {
            assert(told(h, Op::TelemetryNode, reply));
            if node_clock(reply) is None {
                assert(node_silent(h));
            } else {
                assert(tells_node_clock(h, decided[0]->action->Println_0));
            }
        },
        Spot::StatusSclk => {
            let mhz = reply->MaybeNumber_0;
            assert(told(h, Op::CurrentSclk, Reply::MaybeNumber(mhz)));
            assert(tells_driver_clock(h, decided[0]->action->Println_0));
        },
        _ => {
            match reply->MaybeText_0 {
                Some(node) => {
                    assert(told(h, Op::TelemetryNode, Reply::MaybeText(Some(node))));
                    assert(node_text(h, node@));
                },
                None => {
                    assert(told(h, Op::TelemetryNode, Reply::MaybeText(None)));
                },
            }
        },
    }
    assert forall|i: int| 0 <= i < decided.len() implies custody.covers_step(
        h,
        #[trigger] decided[i],
    ) || cut_off(decided, i) by {
        if i > 0 && decided[0] is End {
            assert(cut_off(decided, i));
        } else if decided[i] is Do {
            let a = decided[i]->action;
            if !(a matches Action::Host(o) && gpu_tolerates(cmd, o)) {
                lemma_gpu_error(site, cmd, h, a);
            }
        }
    }
}

proof fn lemma_gpu_force_decision(
    site: Site,
    cmd: GpuCmd,
    h: History,
    action: Action<Seq<char>>,
    point: Point<Seq<char>>,
    reply: Reply,
)
    requires
        point matches Point::At(spot) && (spot is Forced || spot is Unforced || spot is UnforcedMode || spot is PinConfig || spot is PinRaise || spot is PinVddc || spot is PinForced),
        gpu_ground(site, cmd, h, action, point),
        answered(h, action, reply),
        decision(site, point, reply) is Some,
    ensures
        gpu_custody(site, cmd, h).covers(h, decision(site, point, reply)->0),
{
    let custody = gpu_custody(site, cmd, h);
    let decided = decision(site, point, reply)->0;
    let op = action->Host_0;
    assert(told(h, op, reply));
    match point->At_0 {
        Spot::Forced(mhz) => {
            let out = reply->Forced_0;
            assert(told(h, Op::ForceMode(mhz), Reply::Forced(out)));
            if !out.held {
                assert(pin_unsafe(h, mhz));
            }
            assert forall|text: Seq<char>| #[trigger] tells_forced(mhz, out, text) implies
                forced_line(h, mhz, text) by {}
            let n: int = if out.vid_raised is Some {
                1
            } else {
                0
            };
            let text = decided[n]->action->Println_0;
            let first = "GFX clock forced to "@ + dec(out.set_mhz as nat);
            let from = " MHz (clamped from "@ + dec(mhz as nat) + "); "@;
            assert(first + from =~= first + " MHz (clamped from "@ + dec(mhz as nat) + "); "@);
            assert(tells_forced(mhz, out, text));
            if n == 1 {
                assert(tells_forced(mhz, out, decided[0]->action->Println_0));
            }
        },
        Spot::Unforced => {
            let mode = reply->Mode_0;
            assert(told(h, Op::UnforceMode, Reply::Mode(mode)));
        },
        Spot::UnforcedMode => {
            let mode = op->ModeName_0;
            let name = reply->Text_0;
            assert(told(h, Op::ModeName(mode), Reply::Text(name)));
            assert(tells_mode(
                h,
                mode,
                "GFX clock + voltage released — auto mode ("@,
                ") resumed"@,
                decided[0]->action->Println_0,
            ));
            assert(tells_resumed(h, decided[0]->action->Println_0));
        },
        Spot::PinConfig(mhz) => {
            let cfg = reply->Power_0;
            assert(told(h, Op::LoadPower, Reply::Power(cfg)));
            let t = decided[0]->action->Host_0->RequiredRaise_mhz;
            assert(nearest_clock(site, mhz, t));
            assert(pin_may(h, t, decided[0]->action));
            assert(pin_warrants(site, h, mhz, decided[0]->action));
        },
        Spot::PinRaise(t) => {
            let mhz = cmd->Pin_mhz;
            let cfg = op->RequiredRaise_cfg;
            match reply->Raise_0 {
                Some(r) => {
                    assert(told(h, Op::RequiredRaise { cfg, mhz: t }, Reply::Raise(Some(r))));
                    assert(raise_needed(h, t, r));
                    assert(raise_asked_to(h, t, r.floor_mv));
                },
                None => {
                    assert(told(h, Op::RequiredRaise { cfg, mhz: t }, Reply::Raise(None)));
                    assert(raise_not_needed(h, t));
                },
            }
            assert(pin_may(h, t, decided[0]->action));
            assert(pin_warrants(site, h, mhz, decided[0]->action));
        },
        Spot::PinVddc { target: t, raise } => {
            let mhz = cmd->Pin_mhz;
            let set = reply->Flag_0;
            assert(told(h, Op::SetVddc { clk: t, mv: raise.floor_mv }, Reply::Flag(set)));
            assert(raise_answered(h, t, raise, set));
            if set {
                assert(raise_made(h, t));
                assert(tells_raise(h, t, decided[0]->action->Println_0));
                assert(pin_may(h, t, decided[0]->action));
                assert(pin_may(h, t, decided[1]->action));
            } else {
                assert(raise_refused(h, t));
                assert(pin_may(h, t, decided[0]->action));
                assert(starved(h, t, decided[1]->End_0));
                assert(pin_may_end(h, t, decided[1]->End_0));
                assert(pin_closes(site, h, mhz, decided[1]->End_0));
            }
            assert(pin_warrants(site, h, mhz, decided[0]->action));
        },
        _ => {
            let mhz = cmd->Pin_mhz;
            let t = op->ForceClock_0;
            match reply {
                Reply::Number(set) => {
                    assert(told(h, Op::ForceClock(t), Reply::Number(set)));
                    assert(tells_pinned(h, t, decided[0]->action->Println_0));
                },
                Reply::Failed(f) => {
                    assert(told(h, Op::ForceClock(t), Reply::Failed(f)));
                    assert(force_refused(h, t));
                    assert(unforced(h, t, decided[1]->End_0));
                    assert(pin_may_end(h, t, decided[1]->End_0));
                    assert(pin_closes(site, h, mhz, decided[1]->End_0));
                },
                _ => {},
            }
            assert(pin_may(h, t, decided[0]->action));
            assert(pin_warrants(site, h, mhz, decided[0]->action));
        },
    }
    assert forall|i: int| 0 <= i < decided.len() implies custody.covers_step(
        h,
        #[trigger] decided[i],
    ) || cut_off(decided, i) by {
        if i > 0 && decided[0] is End {
            assert(cut_off(decided, i));
        } else if decided[i] is Do {
            let a = decided[i]->action;
            if !(a matches Action::Host(o) && gpu_tolerates(cmd, o)) {
                lemma_gpu_error(site, cmd, h, a);
            }
        }
    }
}

proof fn lemma_gpu_vid_decision(
    site: Site,
    cmd: GpuCmd,
    h: History,
    action: Action<Seq<char>>,
    point: Point<Seq<char>>,
    reply: Reply,
)
    requires
        point matches Point::At(spot) && (spot is VidPower || spot is VidGovernor || spot is VidClock || spot is VidFloor || spot is VidSet || spot is VidInstalled || spot is VidReset || spot is VidCleared),
        gpu_ground(site, cmd, h, action, point),
        answered(h, action, reply),
        decision(site, point, reply) is Some,
    ensures
        gpu_custody(site, cmd, h).covers(h, decision(site, point, reply)->0),
{
    let custody = gpu_custody(site, cmd, h);
    let decided = decision(site, point, reply)->0;
    let op = action->Host_0;
    assert(told(h, op, reply));
    match point->At_0 {
        Spot::VidPower(mv) => {
            assert(told(h, Op::LoadPower, Reply::Power(reply->Power_0)));
        },
        Spot::VidGovernor { mv, cfg } => {
            assert(told(h, Op::LoadGovernor, Reply::Governor(reply->Governor_0)));
        },
        Spot::VidClock { mv, cfg } => {
            let clk = reply->Number_0;
            let c = op->FloorClock_cfg;
            let governor = op->FloorClock_governor;
            assert(told(h, Op::FloorClock { cfg: c, governor }, Reply::Number(clk)));
            assert(floor_clock(h, clk));
        },
        Spot::VidFloor { mv, cfg, clk } => {
            let floor = reply->Number_0;
            assert(told(h, Op::MinVddc(clk), Reply::Number(floor)));
            if mv < floor {
                assert(vid_below_floor(h, mv, decided[0]->End_0));
            } else {
                assert(floor_respected(h, clk, mv));
            }
        },
        Spot::VidSet { mv, cfg } => {
            let set = reply->Flag_0;
            let clk = op->SetVddc_clk;
            assert(told(h, Op::SetVddc { clk, mv }, Reply::Flag(set)));
            if set {
                assert(vid_set_at(h, mv, clk));
                assert(vid_set(h, mv));
                assert(voltage_changed(
                    h,
                    Some(mv),
                    decided[0]->action->Host_0->SavePower_0,
                ));
            } else {
                assert(vid_unset(h, mv));
            }
        },
        Spot::VidInstalled(mv) => {
            assert(told(h, Op::GpuUnitInstalled, Reply::Flag(reply->Flag_0)));
        },
        Spot::VidReset => {
            assert(told(h, Op::ResetVddc, Reply::Flag(reply->Flag_0)));
        },
        _ => {
            assert(told(h, Op::LoadPower, Reply::Power(reply->Power_0)));
            assert(voltage_changed(h, None, decided[0]->action->Host_0->SavePower_0));
        },
    }
    assert forall|i: int| 0 <= i < decided.len() implies custody.covers_step(
        h,
        #[trigger] decided[i],
    ) || cut_off(decided, i) by {
        if i > 0 && decided[0] is End {
            assert(cut_off(decided, i));
        } else if decided[i] is Do {
            let a = decided[i]->action;
            if !(a matches Action::Host(o) && gpu_tolerates(cmd, o)) {
                lemma_gpu_error(site, cmd, h, a);
            }
        }
    }
}

proof fn lemma_gpu_push_decision(
    site: Site,
    cmd: GpuCmd,
    h: History,
    action: Action<Seq<char>>,
    point: Point<Seq<char>>,
    reply: Reply,
)
    requires
        point is Level || (point matches Point::At(spot) && (spot is Wake || spot is DeepSleep)),
        gpu_ground(site, cmd, h, action, point),
        answered(h, action, reply),
        decision(site, point, reply) is Some,
    ensures
        gpu_custody(site, cmd, h).covers(h, decision(site, point, reply)->0),
{
    let custody = gpu_custody(site, cmd, h);
    let decided = decision(site, point, reply)->0;
    let op = action->Host_0;
    assert(told(h, op, reply));
    let cfg = reply->Power_0;
    assert(told(h, Op::LoadPower, Reply::Power(cfg)));
    match point {
        Point::Level { level, override_pin } => {
            if unguarded(cfg, override_pin) {
                assert(level_free(h, override_pin));
                if cfg.force_mhz is Some {
                    assert(warns_of_pin(
                        h,
                        override_pin,
                        "level"@,
                        decided[0]->action->Eprintln_0,
                    ));
                }
            } else {
                assert(pin_guards(h, override_pin, "level"@, decided[0]->End_0));
            }
        },
        Point::At(Spot::Wake { override_pin }) => {
            if unguarded(cfg, override_pin) {
                assert(pushed_clock(h, override_pin, false, cfg.top_mhz));
                if cfg.force_mhz is Some {
                    assert(warns_of_pin(
                        h,
                        override_pin,
                        "wake"@,
                        decided[0]->action->Eprintln_0,
                    ));
                }
            } else {
                assert(pin_guards(h, override_pin, "wake"@, decided[0]->End_0));
            }
        },
        Point::At(Spot::DeepSleep { override_pin }) => {
            if unguarded(cfg, override_pin) {
                assert(pushed_clock(h, override_pin, true, cfg.deep_mhz));
                if cfg.force_mhz is Some {
                    assert(warns_of_pin(
                        h,
                        override_pin,
                        "deep-sleep"@,
                        decided[0]->action->Eprintln_0,
                    ));
                }
            } else {
                assert(pin_guards(h, override_pin, "deep-sleep"@, decided[0]->End_0));
            }
        },
        _ => {},
    }
    assert forall|i: int| 0 <= i < decided.len() implies custody.covers_step(
        h,
        #[trigger] decided[i],
    ) || cut_off(decided, i) by {
        if i > 0 && decided[0] is End {
            assert(cut_off(decided, i));
        } else if decided[i] is Do {
            let a = decided[i]->action;
            if !(a matches Action::Host(o) && gpu_tolerates(cmd, o)) {
                lemma_gpu_error(site, cmd, h, a);
            }
        }
    }
}

proof fn lemma_gpu_top_decision(
    site: Site,
    cmd: GpuCmd,
    h: History,
    action: Action<Seq<char>>,
    point: Point<Seq<char>>,
    reply: Reply,
)
    requires
        point matches Point::At(spot) && (spot is TopPower || spot is TopSet || spot is TopGovernor || spot is TopClock || spot is TopFloor),
        gpu_ground(site, cmd, h, action, point),
        answered(h, action, reply),
        decision(site, point, reply) is Some,
    ensures
        gpu_custody(site, cmd, h).covers(h, decision(site, point, reply)->0),
{
    let custody = gpu_custody(site, cmd, h);
    let decided = decision(site, point, reply)->0;
    let op = action->Host_0;
    assert(told(h, op, reply));
    match point->At_0 {
        Spot::TopPower(mhz) => {
            assert(told(h, Op::LoadPower, Reply::Power(reply->Power_0)));
        },
        Spot::TopSet(mhz) => {
            let before = op->SetTop_cfg;
            let cfg = reply->Power_0;
            assert(told(h, Op::SetTop { cfg: before, mhz }, Reply::Power(cfg)));
            assert(top_settings(h, mhz, cfg));
        },
        Spot::TopGovernor { mhz, cfg } => {
            let before = reply->Governor_0;
            assert(told(h, Op::LoadGovernor, Reply::Governor(before)));
            let g = decided[0]->action->Host_0->ValidateLadder_0;
            assert(tier_changed(before, Tier::High, mhz, g));
            assert(tiers_with(h, Tier::High, mhz, g));
        },
        Spot::TopClock { mhz, cfg, governor } => {
            let top = reply->Number_0;
            assert(told(h, Op::EffectiveTop(cfg), Reply::Number(top)));
            let clk = decided[0]->action->Host_0->MinVddc_0;
            assert(governor.high_mhz == mhz);
            assert(is_highest(clk, top, mhz, cfg.force_mhz));
            assert(top_reach(h, mhz, cfg, clk));
            assert(top_reached(h, mhz, clk));
        },
        Spot::TopFloor { mhz, cfg, governor, clk } => {
            let floor = reply->Number_0;
            assert(told(h, Op::MinVddc(clk), Reply::Number(floor)));
            assert(top_floor(h, mhz, cfg, clk, floor));
            let n: int = if cfg.force_vid_mv matches Some(v) && v < floor {
                assert(top_raise(h, mhz, clk, floor));
                assert(tells_top_raise(h, mhz, decided[1]->action->Println_0));
                2
            } else {
                0
            };
            assert(top_saved(h, mhz, decided[n]->action->Host_0->SavePower_0));
        },
        _ => {},
    }
    assert forall|i: int| 0 <= i < decided.len() implies custody.covers_step(
        h,
        #[trigger] decided[i],
    ) || cut_off(decided, i) by {
        if i > 0 && decided[0] is End {
            assert(cut_off(decided, i));
        } else if decided[i] is Do {
            let a = decided[i]->action;
            if !(a matches Action::Host(o) && gpu_tolerates(cmd, o)) {
                lemma_gpu_error(site, cmd, h, a);
            }
        }
    }
}

proof fn lemma_gpu_tier_decision(
    site: Site,
    cmd: GpuCmd,
    h: History,
    action: Action<Seq<char>>,
    point: Point<Seq<char>>,
    reply: Reply,
)
    requires
        point matches Point::At(spot) && (spot is SetMid || spot is SetIdle || spot is DeepPower || spot is DeepSet || spot is DeepGovernor || spot is TempCap || spot is TempCapOc || spot is SwitchMode),
        gpu_ground(site, cmd, h, action, point),
        answered(h, action, reply),
        decision(site, point, reply) is Some,
    ensures
        gpu_custody(site, cmd, h).covers(h, decision(site, point, reply)->0),
{
    let custody = gpu_custody(site, cmd, h);
    let decided = decision(site, point, reply)->0;
    let op = action->Host_0;
    assert(told(h, op, reply));
    match point->At_0 {
        Spot::SetMid(mhz) => {
            let before = reply->Governor_0;
            assert(told(h, Op::LoadGovernor, Reply::Governor(before)));
            let g = decided[0]->action->Host_0->ValidateLadder_0;
            assert(tier_changed(before, Tier::Mid, mhz, g));
            assert(tiers_with(h, Tier::Mid, mhz, g));
        },
        Spot::SetIdle(mhz) => {
            let before = reply->Governor_0;
            assert(told(h, Op::LoadGovernor, Reply::Governor(before)));
            let g = decided[0]->action->Host_0->ValidateLadder_0;
            assert(tier_changed(before, Tier::Idle, mhz, g));
            assert(tiers_with(h, Tier::Idle, mhz, g));
        },
        Spot::DeepPower(mhz) => {
            assert(told(h, Op::LoadPower, Reply::Power(reply->Power_0)));
        },
        Spot::DeepSet(mhz) => {
            let before = op->SetDeep_cfg;
            let cfg = reply->Power_0;
            assert(told(h, Op::SetDeep { cfg: before, mhz }, Reply::Power(cfg)));
            assert(deep_settings(h, mhz, cfg));
        },
        Spot::DeepGovernor { mhz, cfg } => {
            let before = reply->Governor_0;
            assert(told(h, Op::LoadGovernor, Reply::Governor(before)));
            let g = decided[0]->action->Host_0->ValidateLadder_0;
            assert(tier_changed(before, Tier::Deep, mhz, g));
            assert(tiers_with(h, Tier::Deep, mhz, g));
        },
        Spot::TempCap(c) => {
            assert(told(h, Op::LoadCpu, Reply::Point(reply->Point_0)));
            assert(capped(h, c, decided[0]->action->Host_0->SaveCpu_0));
        },
        Spot::TempCapOc(c) => {},
        Spot::SwitchMode(mode) => {
            assert(told(h, Op::LoadPower, Reply::Power(reply->Power_0)));
            assert(mode_switched(h, mode, decided[0]->action->Host_0->SavePower_0));
        },
        _ => {},
    }
    assert forall|i: int| 0 <= i < decided.len() implies custody.covers_step(
        h,
        #[trigger] decided[i],
    ) || cut_off(decided, i) by {
        if i > 0 && decided[0] is End {
            assert(cut_off(decided, i));
        } else if decided[i] is Do {
            let a = decided[i]->action;
            if !(a matches Action::Host(o) && gpu_tolerates(cmd, o)) {
                lemma_gpu_error(site, cmd, h, a);
            }
        }
    }
}

/// The decisions of a GPU command make warranted plans.
proof fn lemma_gpu_decision(
    site: Site,
    cmd: GpuCmd,
    h: History,
    action: Action<Seq<char>>,
    point: Point<Seq<char>>,
    reply: Reply,
)
    requires
        gpu_ground(site, cmd, h, action, point),
        answered(h, action, reply),
        decision(site, point, reply) is Some,
    ensures
        gpu_custody(site, cmd, h).covers(h, decision(site, point, reply)->0),
{
    match point {
        Point::At(spot) => match spot {
            Spot::GpuStatus | Spot::StatusMode | Spot::StatusClock | Spot::StatusSclk
            | Spot::Telemetry => {
                lemma_gpu_status_decision(site, cmd, h, action, point, reply);
            },
            Spot::Forced(_) | Spot::Unforced | Spot::UnforcedMode | Spot::PinConfig(_)
            | Spot::PinRaise(_) | Spot::PinVddc { .. } | Spot::PinForced => {
                lemma_gpu_force_decision(site, cmd, h, action, point, reply);
            },
            Spot::VidPower(_) | Spot::VidGovernor { .. } | Spot::VidClock { .. }
            | Spot::VidFloor { .. } | Spot::VidSet { .. } | Spot::VidInstalled(_) | Spot::VidReset
            | Spot::VidCleared => {
                lemma_gpu_vid_decision(site, cmd, h, action, point, reply);
            },
            Spot::Wake { .. } | Spot::DeepSleep { .. } => {
                lemma_gpu_push_decision(site, cmd, h, action, point, reply);
            },
            Spot::TopPower(_) | Spot::TopSet(_) | Spot::TopGovernor { .. }
            | Spot::TopClock { .. } | Spot::TopFloor { .. } => {
                lemma_gpu_top_decision(site, cmd, h, action, point, reply);
            },
            Spot::SetMid(_) | Spot::SetIdle(_) | Spot::DeepPower(_) | Spot::DeepSet(_)
            | Spot::DeepGovernor { .. } | Spot::TempCap(_) | Spot::TempCapOc(_)
            | Spot::SwitchMode(_) => {
                lemma_gpu_tier_decision(site, cmd, h, action, point, reply);
            },
            _ => {
                let custody = gpu_custody(site, cmd, h);
                let decided = decision(site, point, reply)->0;
                if cmd is Governor {
                    assert(told(h, Op::LoadGovernor, Reply::Governor(reply->Governor_0)));
                    lemma_gpu_error(site, cmd, h, decided[0]->action);
                    assert(custody.covers_step(h, decided[0]));
                } else {
                    assert forall|a: Action<Seq<char>>| #[trigger] custody.passes_error(h, a) by {
                        lemma_gpu_error(site, cmd, h, a);
                    }
                    lemma_boot_decision(site, h, action, spot, reply, custody);
                }
            },
        },
        _ => {
            lemma_gpu_push_decision(site, cmd, h, action, point, reply);
        },
    }
}

proof fn lemma_gpu_warranted_opening(site: Site, cmd: GpuCmd, h: History)
    ensures
        gpu_custody(site, cmd, h).covers(h, opening(site, Cmd::Gpu { action: cmd })),
{
    let custody = gpu_custody(site, cmd, h);
    let plan = opening(site, Cmd::Gpu { action: cmd });
    if let GpuCmd::Pin { mhz } = cmd {
        let t = crate::gpu::clamp_clock(site, mhz);
        assert(nearest_clock(site, mhz, t));
        assert(pin_may(h, t, plan[0]->action));
        assert(pin_may(h, t, plan[1]->action));
        assert(pin_warrants(site, h, mhz, plan[0]->action));
        assert(pin_warrants(site, h, mhz, plan[1]->action));
    }
    assert forall|i: int| 0 <= i < plan.len() implies custody.covers_step(h, #[trigger] plan[i]) by {
        if plan[i] is Do {
            let a = plan[i]->action;
            if !(a matches Action::Host(o) && gpu_tolerates(cmd, o)) {
                lemma_gpu_error(site, cmd, h, a);
            }
        }
    }
}

/// Law: a GPU command does, says and ends with nothing but what its command line and the answers of
/// the host entitle it to. A voltage override is set at the clock that the host answered as the
/// highest reachable one for the loaded settings and tiers, and not below the floor of that clock.
pub proof fn law_gpu_warrants(site: Site, cmd: GpuCmd, replies: Seq<Reply>)
    ensures
        ({
            let c = course(site, Cmd::Gpu { action: cmd }, replies);
            &&& forall|action: Action<Seq<char>>| #[trigger]
                c.handed(action) ==> gpu_may(site, cmd, c.history, action)
            &&& ended(c.plan) == Some(Outcome::<Seq<char>>::Success) ==> c.plan.len() == 0
            &&& ended(c.plan) matches Some(outcome) ==> outcome is Success || gpu_may_end(
                site,
                cmd,
                c.history,
                outcome,
            )
        }),
{
    let h = course(site, Cmd::Gpu { action: cmd }, replies).history;
    let custody = gpu_custody(site, cmd, h);
    lemma_gpu_warranted_opening(site, cmd, h);
    assert forall|action: Action<Seq<char>>, point: Point<Seq<char>>, reply: Reply|
        #![trigger (custody.ground)(action, point), decision(site, point, reply)]
        (custody.ground)(action, point) && answered(h, action, reply) && decision(
            site,
            point,
            reply,
        ) is Some implies custody.covers(h, decision(site, point, reply)->0) by {
        lemma_gpu_decision(site, cmd, h, action, point, reply);
    }
    lemma_custody(site, Cmd::Gpu { action: cmd }, replies, custody);
}

/// Law: the clock at which `gpu vid` sets a voltage, and whose floor it respects, is the one that
/// the host answered as the highest reachable by the power settings and the governor tiers that
/// were loaded.
pub proof fn law_vid_is_set_at_the_highest_clock(
    site: Site,
    mv: u32,
    replies: Seq<Reply>,
    clk: u32,
    set: u32,
)
    requires
        course(site, Cmd::Gpu { action: GpuCmd::Vid { mv } }, replies).did(
            Op::SetVddc { clk, mv: set },
        ),
    ensures
        ({
            let h = course(site, Cmd::Gpu { action: GpuCmd::Vid { mv } }, replies).history;
            &&& set == mv
            &&& exists|cfg: PowerConfig, governor: GovernorConfig| #[trigger]
                told(h, Op::FloorClock { cfg, governor }, Reply::Number(clk)) && told(
                    h,
                    Op::LoadPower,
                    Reply::Power(cfg),
                ) && told(h, Op::LoadGovernor, Reply::Governor(governor))
            &&& exists|floor: u32| #[trigger]
                told(h, Op::MinVddc(clk), Reply::Number(floor)) && floor <= mv
        }),
{
    law_gpu_warrants(site, GpuCmd::Vid { mv }, replies);
    let c = course(site, Cmd::Gpu { action: GpuCmd::Vid { mv } }, replies);
    assert(c.handed(Action::Host(Op::SetVddc { clk, mv: set })));
}

/// Law: `gpu vid` is refused for a floor only where the voltage is below the one that the host
/// answered for the highest reachable clock.
pub proof fn law_vid_is_refused_below_the_floor_alone(
    site: Site,
    mv: u32,
    replies: Seq<Reply>,
)
    requires
        ({
            let c = course(site, Cmd::Gpu { action: GpuCmd::Vid { mv } }, replies);
            &&& ended(c.plan) is Some
            &&& !(ended(c.plan)->0 is Success)
            &&& !gpu_needed_failed(c.history, GpuCmd::Vid { mv }, ended(c.plan)->0)
            &&& !vid_unset(c.history, mv)
        }),
    ensures
        vid_below_floor(
            course(site, Cmd::Gpu { action: GpuCmd::Vid { mv } }, replies).history,
            mv,
            ended(course(site, Cmd::Gpu { action: GpuCmd::Vid { mv } }, replies).plan)->0,
        ),
{
    law_gpu_warrants(site, GpuCmd::Vid { mv }, replies);
}

} // verus!
