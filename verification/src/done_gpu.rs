//! What a GPU command that ends in success has done and said.
use vstd::prelude::*;

use crate::cli::opening;
use crate::commands::{Cmd, GpuCmd};
use crate::completion::{
    lemma_all_steps, lemma_asked, lemma_completed, managed, managed_op, ran, said, tried, tried_op,
    warned,
};
use crate::custody::told;
use crate::decide::decision;
use crate::model::{
    AutoMode, CpuOc, ForceOutcome, GovernorConfig, PowerConfig, Reply, Site, VidRaise,
};
use crate::plan::{Action, Op, Outcome, Plan};
use crate::session::ended;
use crate::text::dec;
use crate::trace::{course, History};
use crate::warrant_gpu::{
    capped, deep_settings, law_gpu_warrants, mode_switched, nearest_clock, node_clock, tells_forced,
    tells_power, tier_changed, top_floor, top_reach, top_settings, voltage_changed, Tier,
};

verus! {

/// All that is to be told of the power settings was.
pub open spec fn power_told(h: History, cfg: PowerConfig) -> bool {
    forall|text: Seq<char>| #[trigger] tells_power(cfg, text) ==> said(h, text)
}

/// The name of an auto mode was told.
pub open spec fn mode_told(h: History, mode: AutoMode, head: Seq<char>, tail: Seq<char>) -> bool {
    exists|name: String| #[trigger]
        told(h, Op::ModeName(mode), Reply::Text(name)) && said(h, head + name@ + tail)
}

/// The state of the power settings was told.
pub open spec fn status_done(h: History) -> bool {
    exists|cfg: PowerConfig| #[trigger]
        told(h, Op::LoadPower, Reply::Power(cfg)) && power_told(h, cfg) && (exists|name: String|
            #[trigger]
            told(h, Op::ModeName(cfg.auto_mode), Reply::Text(name)) && said(
                h,
                "  auto mode:        "@ + name@,
            ))
}

/// The clock was told, from the telemetry node or else from the driver.
pub open spec fn clock_told(h: History) -> bool {
    exists|reply: Reply| #[trigger]
        told(h, Op::TelemetryNode, reply) && match node_clock(reply) {
            Some(clock) => said(h, "  current GfxClk:    "@ + clock + " MHz"@),
            None => exists|mhz: Option<u32>| #[trigger]
                told(h, Op::CurrentSclk, Reply::MaybeNumber(mhz)) && said(
                    h,
                    match mhz {
                        Some(m) => "  current GfxClk:    "@ + dec(m as nat) + " MHz"@,
                        None => "  current GfxClk:    unknown"@,
                    },
                ),
        }
}

/// All that is to be told of a pin was.
pub open spec fn forced_told(h: History, mhz: u32, out: ForceOutcome) -> bool {
    &&& forall|text: Seq<char>| #[trigger] tells_forced(mhz, out, text) ==> said(h, text)
    &&& !out.held ==> warned(
        h,
        "WARNING: could not install the boot re-apply service — this pin is REBOOT-UNSAFE. Re-run as root, or the clock reverts to auto on reboot."@,
    )
}

/// The clock was pinned, and what came of it was told.
pub open spec fn force_done(h: History, mhz: u32) -> bool {
    exists|out: ForceOutcome| #[trigger]
        told(h, Op::ForceMode(mhz), Reply::Forced(out)) && forced_told(h, mhz, out)
}

/// The pin was released, and the mode that resumes was told.
pub open spec fn unforce_done(h: History) -> bool {
    exists|mode: AutoMode| #[trigger]
        told(h, Op::UnforceMode, Reply::Mode(mode)) && mode_told(
            h,
            mode,
            "GFX clock + voltage released — auto mode ("@,
            ") resumed"@,
        )
}

/// The voltage was found to be high enough for a clock, or raised and the raise told.
pub open spec fn pin_voltage_done(h: History, cfg: PowerConfig, clk: u32) -> bool {
    exists|raise: Option<VidRaise>| #[trigger]
        told(h, Op::RequiredRaise { cfg, mhz: clk }, Reply::Raise(raise)) && (raise matches Some(r)
            ==> told(h, Op::SetVddc { clk, mv: r.floor_mv }, Reply::Flag(true)) && said(
            h,
            "note: raised GPU voltage "@ + dec(r.old_mv as nat) + " -> "@ + dec(r.floor_mv as nat)
                + " mV for the pin (transient)"@,
        ))
}

/// The clock was set, and told.
pub open spec fn pin_clock_done(h: History, clk: u32) -> bool {
    exists|set: u32| #[trigger]
        told(h, Op::ForceClock(clk), Reply::Number(set)) && said(
            h,
            "pinned "@ + dec(set as nat)
                + " MHz (transient — GPU power unit stopped; run `gpu unpin` after)"@,
        )
}

/// The clock was pinned for a task: the unit stopped, the voltage looked after by the loaded
/// settings, the clock set.
pub open spec fn pin_done(site: Site, h: History, mhz: u32) -> bool {
    &&& tried_op(h, Op::StopGpuUnit)
    &&& exists|cfg: PowerConfig, clk: u32|
        #![trigger told(h, Op::LoadPower, Reply::Power(cfg)), nearest_clock(site, mhz, clk)]
        told(h, Op::LoadPower, Reply::Power(cfg)) && nearest_clock(site, mhz, clk)
            && pin_voltage_done(h, cfg, clk) && pin_clock_done(h, clk)
}

/// The voltage was set at the highest reachable clock, above the floor there, and persisted.
pub open spec fn vid_done(h: History, mv: u32) -> bool {
    &&& tried_op(h, Op::LockConfig)
    &&& exists|cfg: PowerConfig, governor: GovernorConfig, clk: u32|
        #![trigger told(h, Op::FloorClock { cfg, governor }, Reply::Number(clk))]
        told(h, Op::FloorClock { cfg, governor }, Reply::Number(clk)) && told(
            h,
            Op::LoadPower,
            Reply::Power(cfg),
        ) && told(h, Op::LoadGovernor, Reply::Governor(governor)) && tried_op(h, Op::MinVddc(clk))
            && told(h, Op::SetVddc { clk, mv }, Reply::Flag(true))
    &&& exists|saved: PowerConfig| #[trigger]
        voltage_changed(h, Some(mv), saved) && managed_op(h, Op::SavePower(saved))
    &&& exists|installed: bool| #[trigger]
        told(h, Op::GpuUnitInstalled, Reply::Flag(installed)) && said(
            h,
            "GPU voltage set to "@ + dec(mv as nat) + " mV at the high clock"@ + if installed {
                " — persisted, re-applied at boot"@
            } else {
                " (live now; run a gpu mode command to install the boot unit)"@
            },
        )
}

/// The stock curve was restored, and the voltage cleared from the settings.
pub open spec fn unforce_vid_done(h: History) -> bool {
    &&& told(h, Op::ResetVddc, Reply::Flag(true))
    &&& tried_op(h, Op::LockConfig)
    &&& exists|saved: PowerConfig| #[trigger]
        voltage_changed(h, None, saved) && managed_op(h, Op::SavePower(saved))
    &&& said(h, "GPU voltage released — stock SMU-managed curve restored"@)
}

/// The clock of the loaded settings was forced, and told; an overridden pin was warned of.
pub open spec fn push_done(
    h: History,
    deep: bool,
    what: Seq<char>,
    head: Seq<char>,
) -> bool {
    exists|cfg: PowerConfig| #[trigger]
        told(h, Op::LoadPower, Reply::Power(cfg)) && pin_warned(h, cfg, what) && {
            let mhz = if deep {
                cfg.deep_mhz
            } else {
                cfg.top_mhz
            };
            managed_op(h, Op::ForceClock(mhz)) && said(h, head + dec(mhz as nat) + " MHz"@)
        }
}

/// A persisted pin that was overridden was warned of.
pub open spec fn pin_warned(h: History, cfg: PowerConfig, what: Seq<char>) -> bool {
    cfg.force_mhz matches Some(m) ==> warned(
        h,
        "WARNING: overriding the persisted "@ + dec(m as nat) + " MHz manual pin with `"@ + what
            + "` (--override-pin) — the pin re-asserts on the next unit restart/boot"@,
    )
}

/// The performance level was set, and told.
pub open spec fn level_done(h: History, level: Seq<char>) -> bool {
    &&& exists|cfg: PowerConfig| #[trigger]
        told(h, Op::LoadPower, Reply::Power(cfg)) && pin_warned(h, cfg, "level"@)
    &&& managed(h, Action::SetPerformanceLevel(level))
    &&& said(h, "performance level set: "@ + level)
}

/// One tier was put into the loaded ones, found to be in order, saved, made live and told.
pub open spec fn tier_done(h: History, tier: Tier, mhz: u32, head: Seq<char>) -> bool {
    &&& exists|before: GovernorConfig, after: GovernorConfig|
        #![trigger told(h, Op::LoadGovernor, Reply::Governor(before)), tier_changed(before, tier, mhz, after)]
        told(h, Op::LoadGovernor, Reply::Governor(before)) && tier_changed(
            before,
            tier,
            mhz,
            after,
        ) && managed_op(h, Op::ValidateLadder(after)) && managed_op(h, Op::SaveGovernor(after))
    &&& tried_op(h, Op::ReloadIfAuto)
    &&& said(h, head + dec(mhz as nat) + " MHz (persisted)"@)
}

/// The settings with the new top clock were saved; a voltage below the floor of the highest
/// reachable clock was raised to it, live and in the settings, and that was told.
pub open spec fn top_power_done(h: History, mhz: u32) -> bool {
    exists|cfg: PowerConfig, clk: u32, floor: u32| #[trigger]
        top_floor(h, mhz, cfg, clk, floor) && match cfg.force_vid_mv {
            Some(v) => if v < floor {
                &&& tried_op(h, Op::SetVddc { clk, mv: floor })
                &&& said(
                    h,
                    "note: raised GPU undervolt "@ + dec(v as nat) + " -> "@ + dec(floor as nat)
                        + " mV (safe floor for "@ + dec(clk as nat) + " MHz)"@,
                )
                &&& managed_op(
                    h,
                    Op::SavePower(PowerConfig { force_vid_mv: Some(floor), ..cfg }),
                )
            } else {
                managed_op(h, Op::SavePower(cfg))
            },
            None => managed_op(h, Op::SavePower(cfg)),
        }
}

/// The settings with the new deep clock were saved.
pub open spec fn deep_power_done(h: History, mhz: u32) -> bool {
    exists|cfg: PowerConfig| #[trigger]
        deep_settings(h, mhz, cfg) && managed_op(h, Op::SavePower(cfg))
}

/// The cap was persisted, armed and made live, and set in hardware where the mailbox opened.
pub open spec fn cap_done(h: History, c: u32) -> bool {
    &&& exists|saved: CpuOc| #[trigger] capped(h, c, saved) && managed_op(h, Op::SaveCpu(saved))
    &&& exists|reply: Reply| #[trigger]
        told(h, Op::OpenOc, reply) && (reply is Failed || managed_op(h, Op::SetGpuTemp(c)))
    &&& tried_op(h, Op::ArmCpuOc)
    &&& tried_op(h, Op::ReloadIfAuto)
    &&& said(
        h,
        "gpu temp cap = "@ + dec(c as nat) + " C (persisted; governor demotes to hold it)"@,
    )
}

/// The auto mode was persisted, noted, enacted and told.
pub open spec fn switch_done(h: History, mode: AutoMode, log: Seq<char>, line: Seq<char>) -> bool {
    &&& !(mode is Autosleep) ==> tried_op(h, Op::ReleaseClock)
    &&& tried_op(h, Op::LockConfig)
    &&& exists|saved: PowerConfig| #[trigger]
        mode_switched(h, mode, saved) && managed_op(h, Op::SavePower(saved))
    &&& tried(h, Action::LogTransition(log))
    &&& managed_op(h, Op::ApplyMode)
    &&& said(h, line)
}

/// The governor was run with the tiers that were loaded.
pub open spec fn governor_done(h: History) -> bool {
    exists|g: GovernorConfig| #[trigger]
        told(h, Op::LoadGovernor, Reply::Governor(g)) && managed_op(h, Op::RunGovernor(g))
}

/// The telemetry node was printed, or that there is none.
pub open spec fn telemetry_done(h: History) -> bool {
    exists|node: Option<String>| #[trigger]
        told(h, Op::TelemetryNode, Reply::MaybeText(node)) && match node {
            Some(text) => tried(h, Action::Print(text@)),
            None => said(h, "telemetry node not present (patch 11)"@),
        }
}

/// What a GPU command that ends in success has done and said.
pub open spec fn gpu_done(site: Site, cmd: GpuCmd, h: History) -> bool {
    match cmd {
        GpuCmd::Status => status_done(h) && clock_told(h),
        GpuCmd::Force { mhz } => force_done(h, mhz),
        GpuCmd::Unforce => unforce_done(h),
        GpuCmd::Pin { mhz } => pin_done(site, h, mhz),
        GpuCmd::Unpin => managed_op(h, Op::ReleaseClock) && tried_op(h, Op::StartGpuUnit) && said(
            h,
            "unpinned — GPU power unit restarted (persisted mode resumes)"@,
        ),
        GpuCmd::Vid { mv } => vid_done(h, mv),
        GpuCmd::UnforceVid => unforce_vid_done(h),
        GpuCmd::Wake { override_pin } => push_done(h, false, "wake"@, "woke to "@),
        GpuCmd::DeepSleep { override_pin } => push_done(
            h,
            true,
            "deep-sleep"@,
            "deep-sleep at "@,
        ),
        GpuCmd::Level { level, override_pin } => level_done(h, level@),
        GpuCmd::SetTop { mhz } => tried_op(h, Op::LockConfig) && top_power_done(h, mhz)
            && tier_done(h, Tier::High, mhz, "top/high setpoint = "@),
        GpuCmd::SetMid { mhz } => tier_done(h, Tier::Mid, mhz, "mid"@ + " setpoint = "@),
        GpuCmd::SetIdle { mhz } => tier_done(h, Tier::Idle, mhz, "idle"@ + " setpoint = "@),
        GpuCmd::SetDeep { mhz } => tried_op(h, Op::LockConfig) && deep_power_done(h, mhz)
            && tier_done(h, Tier::Deep, mhz, "deep setpoint = "@),
        GpuCmd::TempCap { c } => cap_done(h, c),
        GpuCmd::GovernorOn => switch_done(
            h,
            AutoMode::Governor,
            "governor-on"@,
            "auto governor: ON (persists across reboot)"@,
        ),
        GpuCmd::GovernorOff => switch_done(
            h,
            AutoMode::Released,
            "governor-off -> released"@,
            "auto governor: OFF — released (native DPM)"@,
        ),
        GpuCmd::AutosleepOn => switch_done(
            h,
            AutoMode::Autosleep,
            "autosleep-on"@,
            "autosleep: ON (poke-driven; persists across reboot)"@,
        ),
        GpuCmd::Poke => managed_op(h, Op::Poke),
        GpuCmd::Autosleep { idle, deep_force } => managed_op(
            h,
            Op::RunAutosleep { idle, deep_force },
        ),
        GpuCmd::Governor => governor_done(h),
        GpuCmd::Telemetry => telemetry_done(h),
        _ => true,
    }
}

proof fn lemma_status_done(site: Site, h: History)
    requires
        ran(site, h, opening(site, Cmd::Gpu { action: GpuCmd::Status }), 5),
    ensures
        status_done(h),
        clock_told(h),
{
    let p0 = opening(site, Cmd::Gpu { action: GpuCmd::Status });
    let r0 = lemma_asked(site, h, p0, 0, 5);
    let cfg = r0->Power_0;
    assert(told(h, Op::LoadPower, Reply::Power(cfg)));
    let p1 = crate::gpu::status_plan(cfg);
    lemma_all_steps(site, h, p1, 4);
    assert(p1.len() == 7);
    assert(said(h, p1[1]->action->Println_0));
    assert(said(h, p1[2]->action->Println_0));
    assert(said(h, p1[3]->action->Println_0));
    assert(said(h, p1[5]->action->Println_0));
    assert(power_told(h, cfg));
    let r1 = lemma_asked(site, h, p1, 4, 4);
    let name = r1->Text_0;
    assert(told(h, Op::ModeName(cfg.auto_mode), Reply::Text(name)));
    let p2 = seq![crate::plan::say("  auto mode:        "@ + name@)];
    lemma_all_steps(site, h, p2, 3);
    assert(p2[0]->action == Action::Println("  auto mode:        "@ + name@));
    let r2 = lemma_asked(site, h, p1, 6, 4);
    assert(told(h, Op::TelemetryNode, r2));
    let node = match r2 {
        Reply::MaybeText(t) => crate::plan::maybe(t),
        _ => None,
    };
    let p3 = crate::gpu::status_clock_plan(node);
    assert(crate::gpu::telemetry_clock(node) == node_clock(r2));
    lemma_all_steps(site, h, p3, 3);
    assert(p3.len() == 1);
    if node_clock(r2) is None {
        let r3 = lemma_asked(site, h, p3, 0, 3);
        let mhz = r3->MaybeNumber_0;
        assert(told(h, Op::CurrentSclk, Reply::MaybeNumber(mhz)));
        let p4 = crate::gpu::status_sclk_plan(mhz);
        lemma_all_steps(site, h, p4, 2);
        assert(said(h, p4[0]->action->Println_0));
    } else {
        assert(said(h, p3[0]->action->Println_0));
    }
}

proof fn lemma_force_done(site: Site, h: History, mhz: u32)
    requires
        ran(site, h, opening(site, Cmd::Gpu { action: GpuCmd::Force { mhz } }), 5),
    ensures
        force_done(h, mhz),
{
    let p0 = opening(site, Cmd::Gpu { action: GpuCmd::Force { mhz } });
    let r0 = lemma_asked(site, h, p0, 0, 5);
    let out = r0->Forced_0;
    assert(told(h, Op::ForceMode(mhz), Reply::Forced(out)));
    let p1 = crate::gpu::forced_plan(mhz, out);
    lemma_all_steps(site, h, p1, 4);
    let n: int = if out.vid_raised is Some {
        1
    } else {
        0
    };
    assert(said(h, p1[n]->action->Println_0));
    if n == 1 {
        assert(said(h, p1[0]->action->Println_0));
    }
    let first = "GFX clock forced to "@ + dec(out.set_mhz as nat);
    let from = " MHz (clamped from "@ + dec(mhz as nat) + "); "@;
    assert(first + from =~= first + " MHz (clamped from "@ + dec(mhz as nat) + "); "@);
    if !out.held {
        assert(warned(h, p1[n + 1]->action->Eprintln_0));
    }
    assert(forced_told(h, mhz, out));
}

proof fn lemma_unforce_done(site: Site, h: History)
    requires
        ran(site, h, opening(site, Cmd::Gpu { action: GpuCmd::Unforce }), 5),
    ensures
        unforce_done(h),
{
    let p0 = opening(site, Cmd::Gpu { action: GpuCmd::Unforce });
    let r0 = lemma_asked(site, h, p0, 0, 5);
    let mode = r0->Mode_0;
    assert(told(h, Op::UnforceMode, Reply::Mode(mode)));
    let p1 = decision(site, p0[0]->then->Ask_0, r0)->0;
    let r1 = lemma_asked(site, h, p1, 0, 4);
    let name = r1->Text_0;
    assert(told(h, Op::ModeName(mode), Reply::Text(name)));
    let p2 = decision(site, p1[0]->then->Ask_0, r1)->0;
    lemma_all_steps(site, h, p2, 3);
    assert(said(h, p2[0]->action->Println_0));
    assert(mode_told(
        h,
        mode,
        "GFX clock + voltage released — auto mode ("@,
        ") resumed"@,
    ));
}

/// The clock of a pin was set where the decision on its force was carried out.
proof fn lemma_pin_clock(site: Site, h: History, plan: Plan, i: int, clk: u32)
    requires
        0 <= i < plan.len(),
        plan[i] == crate::plan::judge(Op::ForceClock(clk), crate::plan::Spot::PinForced),
        ran(site, h, plan, 4),
    ensures
        pin_clock_done(h, clk),
{
    let r = lemma_asked(site, h, plan, i, 4);
    let p = decision(site, plan[i]->then->Judge_0, r)->0;
    lemma_all_steps(site, h, p, 3);
    match r {
        Reply::Number(set) => {
            assert(told(h, Op::ForceClock(clk), Reply::Number(set)));
            assert(said(h, p[0]->action->Println_0));
        },
        _ => {
            assert(p[1] is End);
        },
    }
}

proof fn lemma_pin_done(site: Site, h: History, mhz: u32)
    requires
        ran(site, h, opening(site, Cmd::Gpu { action: GpuCmd::Pin { mhz } }), 7),
    ensures
        pin_done(site, h, mhz),
{
    let p0 = opening(site, Cmd::Gpu { action: GpuCmd::Pin { mhz } });
    lemma_all_steps(site, h, p0, 7);
    assert(p0[0]->action == Action::<Seq<char>>::Host(Op::StopGpuUnit));
    let r0 = lemma_asked(site, h, p0, 1, 7);
    let cfg = r0->Power_0;
    assert(told(h, Op::LoadPower, Reply::Power(cfg)));
    let p1 = decision(site, p0[1]->then->Ask_0, r0)->0;
    let clk = p1[0]->action->Host_0->RequiredRaise_mhz;
    assert(nearest_clock(site, mhz, clk));
    let r1 = lemma_asked(site, h, p1, 0, 6);
    let raise = r1->Raise_0;
    assert(told(h, Op::RequiredRaise { cfg, mhz: clk }, Reply::Raise(raise)));
    let p2 = decision(site, p1[0]->then->Ask_0, r1)->0;
    match raise {
        Some(r) => {
            let r2 = lemma_asked(site, h, p2, 0, 5);
            let p3 = decision(site, p2[0]->then->Ask_0, r2)->0;
            lemma_all_steps(site, h, p3, 4);
            if !r2->Flag_0 {
                assert(p3[1] is End);
            }
            assert(told(h, Op::SetVddc { clk, mv: r.floor_mv }, Reply::Flag(true)));
            assert(said(h, p3[0]->action->Println_0));
            lemma_pin_clock(site, h, p3, 1, clk);
        },
        None => {
            lemma_ran_deeper(site, h, p2);
            lemma_pin_clock(site, h, p2, 0, clk);
        },
    }
    assert(pin_voltage_done(h, cfg, clk));
}

/// What was carried out to a depth of five was carried out to one of four.
proof fn lemma_ran_deeper(site: Site, h: History, plan: Plan)
    requires
        ran(site, h, plan, 5),
    ensures
        ran(site, h, plan, 4),
{
    crate::completion::lemma_shallower(site, h, plan, 5);
}

proof fn lemma_vid_done(site: Site, h: History, mv: u32)
    requires
        ran(site, h, opening(site, Cmd::Gpu { action: GpuCmd::Vid { mv } }), 8),
    ensures
        vid_done(h, mv),
{
    let p0 = opening(site, Cmd::Gpu { action: GpuCmd::Vid { mv } });
    lemma_all_steps(site, h, p0, 8);
    assert(p0[0]->action == Action::<Seq<char>>::Host(Op::LockConfig));
    let r0 = lemma_asked(site, h, p0, 1, 8);
    let cfg = r0->Power_0;
    assert(told(h, Op::LoadPower, Reply::Power(cfg)));
    let p1 = decision(site, p0[1]->then->Ask_0, r0)->0;
    let r1 = lemma_asked(site, h, p1, 0, 7);
    let governor = r1->Governor_0;
    assert(told(h, Op::LoadGovernor, Reply::Governor(governor)));
    let p2 = decision(site, p1[0]->then->Ask_0, r1)->0;
    let r2 = lemma_asked(site, h, p2, 0, 6);
    let clk = r2->Number_0;
    assert(told(h, Op::FloorClock { cfg, governor }, Reply::Number(clk)));
    let p3 = decision(site, p2[0]->then->Ask_0, r2)->0;
    let r3 = lemma_asked(site, h, p3, 0, 5);
    assert(tried_op(h, Op::MinVddc(clk)));
    let p4 = decision(site, p3[0]->then->Ask_0, r3)->0;
    lemma_all_steps(site, h, p4, 4);
    if mv < r3->Number_0 {
        assert(p4[0] is End);
    }
    let r4 = lemma_asked(site, h, p4, 0, 4);
    let p5 = decision(site, p4[0]->then->Ask_0, r4)->0;
    lemma_all_steps(site, h, p5, 3);
    if !r4->Flag_0 {
        assert(p5[0] is End);
    }
    assert(told(h, Op::SetVddc { clk, mv }, Reply::Flag(true)));
    let saved = p5[0]->action->Host_0->SavePower_0;
    assert(voltage_changed(h, Some(mv), saved));
    let r5 = lemma_asked(site, h, p5, 1, 3);
    let installed = r5->Flag_0;
    assert(told(h, Op::GpuUnitInstalled, Reply::Flag(installed)));
    let p6 = decision(site, p5[1]->then->Ask_0, r5)->0;
    lemma_all_steps(site, h, p6, 2);
    assert(said(h, p6[0]->action->Println_0));
}

proof fn lemma_unforce_vid_done(site: Site, h: History)
    requires
        ran(site, h, opening(site, Cmd::Gpu { action: GpuCmd::UnforceVid }), 5),
    ensures
        unforce_vid_done(h),
{
    let p0 = opening(site, Cmd::Gpu { action: GpuCmd::UnforceVid });
    let r0 = lemma_asked(site, h, p0, 0, 5);
    let p1 = decision(site, p0[0]->then->Ask_0, r0)->0;
    lemma_all_steps(site, h, p1, 4);
    if !r0->Flag_0 {
        assert(p1[0] is End);
    }
    assert(told(h, Op::ResetVddc, Reply::Flag(true)));
    assert(p1[0]->action == Action::<Seq<char>>::Host(Op::LockConfig));
    let r1 = lemma_asked(site, h, p1, 1, 4);
    let cfg = r1->Power_0;
    assert(told(h, Op::LoadPower, Reply::Power(cfg)));
    let p2 = decision(site, p1[1]->then->Ask_0, r1)->0;
    lemma_all_steps(site, h, p2, 3);
    let saved = p2[0]->action->Host_0->SavePower_0;
    assert(voltage_changed(h, None, saved));
    assert(said(h, p2[1]->action->Println_0));
}

proof fn lemma_push_done(site: Site, h: History, cmd: GpuCmd)
    requires
        cmd is Wake || cmd is DeepSleep || cmd is Level,
        ran(site, h, opening(site, Cmd::Gpu { action: cmd }), 4),
    ensures
        gpu_done(site, cmd, h),
{
    let p0 = opening(site, Cmd::Gpu { action: cmd });
    let r0 = lemma_asked(site, h, p0, 0, 4);
    let cfg = r0->Power_0;
    assert(told(h, Op::LoadPower, Reply::Power(cfg)));
    let p1 = decision(site, p0[0]->then->Ask_0, r0)->0;
    lemma_all_steps(site, h, p1, 3);
    let n = p1.len() - 2;
    if cfg.force_mhz is Some {
        if p1[0] is Do {
            assert(warned(h, p1[0]->action->Eprintln_0));
        }
    }
    assert(p1[n] is Do);
    assert(p1[n + 1] is Do);
    assert(said(h, p1[n + 1]->action->Println_0));
    assert(managed(h, p1[n]->action));
}

proof fn lemma_top_done(site: Site, h: History, mhz: u32)
    requires
        ran(site, h, opening(site, Cmd::Gpu { action: GpuCmd::SetTop { mhz } }), 8),
    ensures
        gpu_done(site, GpuCmd::SetTop { mhz }, h),
{
    let p0 = opening(site, Cmd::Gpu { action: GpuCmd::SetTop { mhz } });
    lemma_all_steps(site, h, p0, 8);
    assert(p0[0]->action == Action::<Seq<char>>::Host(Op::LockConfig));
    let r0 = lemma_asked(site, h, p0, 1, 8);
    let before = r0->Power_0;
    assert(told(h, Op::LoadPower, Reply::Power(before)));
    let p1 = decision(site, p0[1]->then->Ask_0, r0)->0;
    let r1 = lemma_asked(site, h, p1, 0, 7);
    let cfg = r1->Power_0;
    assert(told(h, Op::SetTop { cfg: before, mhz }, Reply::Power(cfg)));
    assert(top_settings(h, mhz, cfg));
    let p2 = decision(site, p1[0]->then->Ask_0, r1)->0;
    let r2 = lemma_asked(site, h, p2, 0, 6);
    let g = r2->Governor_0;
    assert(told(h, Op::LoadGovernor, Reply::Governor(g)));
    let p3 = decision(site, p2[0]->then->Ask_0, r2)->0;
    lemma_all_steps(site, h, p3, 5);
    let after = p3[0]->action->Host_0->ValidateLadder_0;
    assert(tier_changed(g, Tier::High, mhz, after));
    let r3 = lemma_asked(site, h, p3, 1, 5);
    let top = r3->Number_0;
    assert(told(h, Op::EffectiveTop(cfg), Reply::Number(top)));
    let p4 = decision(site, p3[1]->then->Ask_0, r3)->0;
    let clk = p4[0]->action->Host_0->MinVddc_0;
    assert(top_reach(h, mhz, cfg, clk));
    let r4 = lemma_asked(site, h, p4, 0, 4);
    let floor = r4->Number_0;
    assert(told(h, Op::MinVddc(clk), Reply::Number(floor)));
    assert(top_floor(h, mhz, cfg, clk, floor));
    let p5 = decision(site, p4[0]->then->Ask_0, r4)->0;
    lemma_all_steps(site, h, p5, 3);
    let n = p5.len() - 4;
    assert(p5[n]->action is Host);
    assert(p5[n + 1]->action == Action::<Seq<char>>::Host(Op::SaveGovernor(after)));
    assert(p5[n + 2]->action == Action::<Seq<char>>::Host(Op::ReloadIfAuto));
    assert(said(h, p5[n + 3]->action->Println_0));
    if cfg.force_vid_mv matches Some(v) && v < floor {
        assert(p5[0]->action == Action::<Seq<char>>::Host(Op::SetVddc { clk, mv: floor }));
        assert(said(h, p5[1]->action->Println_0));
    }
    assert(top_power_done(h, mhz));
    assert(tier_done(h, Tier::High, mhz, "top/high setpoint = "@));
}

proof fn lemma_tier_done(site: Site, h: History, cmd: GpuCmd)
    requires
        cmd is SetMid || cmd is SetIdle,
        ran(site, h, opening(site, Cmd::Gpu { action: cmd }), 4),
    ensures
        gpu_done(site, cmd, h),
{
    let p0 = opening(site, Cmd::Gpu { action: cmd });
    let r0 = lemma_asked(site, h, p0, 0, 4);
    let g = r0->Governor_0;
    assert(told(h, Op::LoadGovernor, Reply::Governor(g)));
    let p1 = decision(site, p0[0]->then->Ask_0, r0)->0;
    lemma_all_steps(site, h, p1, 3);
    let after = p1[0]->action->Host_0->ValidateLadder_0;
    match cmd {
        GpuCmd::SetMid { mhz } => {
            assert(tier_changed(g, Tier::Mid, mhz, after));
        },
        GpuCmd::SetIdle { mhz } => {
            assert(tier_changed(g, Tier::Idle, mhz, after));
        },
        _ => {},
    }
    assert(p1[1]->action == Action::<Seq<char>>::Host(Op::SaveGovernor(after)));
    assert(p1[2]->action == Action::<Seq<char>>::Host(Op::ReloadIfAuto));
    assert(said(h, p1[3]->action->Println_0));
}

proof fn lemma_deep_done(site: Site, h: History, mhz: u32)
    requires
        ran(site, h, opening(site, Cmd::Gpu { action: GpuCmd::SetDeep { mhz } }), 6),
    ensures
        gpu_done(site, GpuCmd::SetDeep { mhz }, h),
{
    let p0 = opening(site, Cmd::Gpu { action: GpuCmd::SetDeep { mhz } });
    lemma_all_steps(site, h, p0, 6);
    assert(p0[0]->action == Action::<Seq<char>>::Host(Op::LockConfig));
    let r0 = lemma_asked(site, h, p0, 1, 6);
    let before = r0->Power_0;
    assert(told(h, Op::LoadPower, Reply::Power(before)));
    let p1 = decision(site, p0[1]->then->Ask_0, r0)->0;
    let r1 = lemma_asked(site, h, p1, 0, 5);
    let cfg = r1->Power_0;
    assert(told(h, Op::SetDeep { cfg: before, mhz }, Reply::Power(cfg)));
    assert(deep_settings(h, mhz, cfg));
    let p2 = decision(site, p1[0]->then->Ask_0, r1)->0;
    let r2 = lemma_asked(site, h, p2, 0, 4);
    let g = r2->Governor_0;
    assert(told(h, Op::LoadGovernor, Reply::Governor(g)));
    let p3 = decision(site, p2[0]->then->Ask_0, r2)->0;
    lemma_all_steps(site, h, p3, 3);
    let after = p3[0]->action->Host_0->ValidateLadder_0;
    assert(tier_changed(g, Tier::Deep, mhz, after));
    assert(p3[1]->action == Action::<Seq<char>>::Host(Op::SavePower(cfg)));
    assert(p3[2]->action == Action::<Seq<char>>::Host(Op::SaveGovernor(after)));
    assert(p3[3]->action == Action::<Seq<char>>::Host(Op::ReloadIfAuto));
    assert(said(h, p3[4]->action->Println_0));
}

proof fn lemma_cap_done(site: Site, h: History, c: u32)
    requires
        ran(site, h, opening(site, Cmd::Gpu { action: GpuCmd::TempCap { c } }), 5),
    ensures
        cap_done(h, c),
{
    let p0 = opening(site, Cmd::Gpu { action: GpuCmd::TempCap { c } });
    lemma_all_steps(site, h, p0, 5);
    if !(60 <= c <= site.temp_max_c) {
        assert(p0[0] is End);
    }
    let r0 = lemma_asked(site, h, p0, 0, 5);
    let before = r0->Point_0;
    assert(told(h, Op::LoadCpu, Reply::Point(before)));
    let p1 = decision(site, p0[0]->then->Ask_0, r0)->0;
    lemma_all_steps(site, h, p1, 4);
    let saved = p1[0]->action->Host_0->SaveCpu_0;
    assert(capped(h, c, saved));
    let r1 = lemma_asked(site, h, p1, 1, 4);
    assert(told(h, Op::OpenOc, r1));
    let p2 = decision(site, p1[1]->then->Judge_0, r1)->0;
    lemma_all_steps(site, h, p2, 3);
    if !(r1 is Failed) {
        assert(p2[0]->action == Action::<Seq<char>>::Host(Op::SetGpuTemp(c)));
    }
    assert(p1[2]->action == Action::<Seq<char>>::Host(Op::ArmCpuOc));
    assert(p1[3]->action == Action::<Seq<char>>::Host(Op::ReloadIfAuto));
    assert(said(h, p1[4]->action->Println_0));
}

proof fn lemma_switch_done(site: Site, h: History, cmd: GpuCmd)
    requires
        cmd is GovernorOn || cmd is GovernorOff || cmd is AutosleepOn,
        ran(site, h, opening(site, Cmd::Gpu { action: cmd }), 4),
    ensures
        gpu_done(site, cmd, h),
{
    let p0 = opening(site, Cmd::Gpu { action: cmd });
    lemma_all_steps(site, h, p0, 4);
    let n = p0.len() - 1;
    if n == 2 {
        assert(p0[0]->action == Action::<Seq<char>>::Host(Op::ReleaseClock));
    }
    assert(p0[n - 1]->action == Action::<Seq<char>>::Host(Op::LockConfig));
    let r0 = lemma_asked(site, h, p0, n, 4);
    let cfg = r0->Power_0;
    assert(told(h, Op::LoadPower, Reply::Power(cfg)));
    let p1 = decision(site, p0[n]->then->Ask_0, r0)->0;
    lemma_all_steps(site, h, p1, 3);
    let saved = p1[0]->action->Host_0->SavePower_0;
    assert(mode_switched(h, saved.auto_mode, saved));
    assert(p1[1]->action is LogTransition);
    assert(p1[2]->action == Action::<Seq<char>>::Host(Op::ApplyMode));
    assert(said(h, p1[3]->action->Println_0));
}

proof fn lemma_plain_done(site: Site, h: History, cmd: GpuCmd)
    requires
        cmd is Unpin || cmd is Poke || cmd is Autosleep || cmd is Governor || cmd is Telemetry,
        ran(site, h, opening(site, Cmd::Gpu { action: cmd }), 4),
    ensures
        gpu_done(site, cmd, h),
{
    let p0 = opening(site, Cmd::Gpu { action: cmd });
    lemma_all_steps(site, h, p0, 4);
    assert(managed(h, p0[0]->action));
    match cmd {
        GpuCmd::Unpin => {
            assert(p0[1]->action == Action::<Seq<char>>::Host(Op::StartGpuUnit));
            assert(said(h, p0[2]->action->Println_0));
        },
        GpuCmd::Governor => {
            let r0 = lemma_asked(site, h, p0, 0, 4);
            let g = r0->Governor_0;
            assert(told(h, Op::LoadGovernor, Reply::Governor(g)));
            let p1 = decision(site, p0[0]->then->Ask_0, r0)->0;
            lemma_all_steps(site, h, p1, 3);
            assert(p1[0]->action == Action::<Seq<char>>::Host(Op::RunGovernor(g)));
        },
        GpuCmd::Telemetry => {
            let r0 = lemma_asked(site, h, p0, 0, 4);
            let node = r0->MaybeText_0;
            assert(told(h, Op::TelemetryNode, Reply::MaybeText(node)));
            let p1 = decision(site, p0[0]->then->Ask_0, r0)->0;
            lemma_all_steps(site, h, p1, 3);
            assert(tried(h, p1[0]->action));
        },
        _ => {},
    }
}

/// Law: a GPU command that ends in success has done all that it is for, and told it.
pub proof fn law_gpu_done(site: Site, cmd: GpuCmd, replies: Seq<Reply>)
    requires
        ended(course(site, Cmd::Gpu { action: cmd }, replies).plan) == Some(
            Outcome::<Seq<char>>::Success,
        ),
    ensures
        gpu_done(site, cmd, course(site, Cmd::Gpu { action: cmd }, replies).history),
{
    let c = Cmd::Gpu { action: cmd };
    let h = course(site, c, replies).history;
    law_gpu_warrants(site, cmd, replies);
    lemma_completed(site, c, replies, 4);
    lemma_completed(site, c, replies, 5);
    lemma_completed(site, c, replies, 6);
    lemma_completed(site, c, replies, 7);
    lemma_completed(site, c, replies, 8);
    match cmd {
        GpuCmd::Status => {
            lemma_status_done(site, h);
        },
        GpuCmd::Force { mhz } => {
            lemma_force_done(site, h, mhz);
        },
        GpuCmd::Unforce => {
            lemma_unforce_done(site, h);
        },
        GpuCmd::Pin { mhz } => {
            lemma_pin_done(site, h, mhz);
        },
        GpuCmd::Vid { mv } => {
            lemma_vid_done(site, h, mv);
        },
        GpuCmd::UnforceVid => {
            lemma_unforce_vid_done(site, h);
        },
        GpuCmd::Wake { .. } | GpuCmd::DeepSleep { .. } | GpuCmd::Level { .. } => {
            lemma_push_done(site, h, cmd);
        },
        GpuCmd::SetTop { mhz } => {
            lemma_top_done(site, h, mhz);
        },
        GpuCmd::SetMid { .. } | GpuCmd::SetIdle { .. } => {
            lemma_tier_done(site, h, cmd);
        },
        GpuCmd::SetDeep { mhz } => {
            lemma_deep_done(site, h, mhz);
        },
        GpuCmd::TempCap { c } => {
            lemma_cap_done(site, h, c);
        },
        GpuCmd::GovernorOn | GpuCmd::GovernorOff | GpuCmd::AutosleepOn => {
            lemma_switch_done(site, h, cmd);
        },
        GpuCmd::ApplyBoot | GpuCmd::ApplySavedForce => {},
        _ => {
            lemma_plain_done(site, h, cmd);
        },
    }
}

} // verus!
