//! What a boot that ends in success has done and said.
use vstd::prelude::*;

use crate::cli::opening;
use crate::commands::{Cmd, GpuCmd};
use crate::completion::{
    lemma_all_steps, lemma_asked, lemma_completed, managed, managed_op, ran, said, tried, tried_op,
    warned,
};
use crate::custody::told;
use crate::decide::decision;
use crate::model::{AutoMode, BootPlan, GovernorConfig, PowerConfig, Reply, Site};
use crate::plan::{Action, Op, Outcome, Plan, Spot};
use crate::session::ended;
use crate::text::dec;
use crate::trace::{course, History};
use crate::warrant_boot::{boots, window_ns};
use crate::warrant_gpu::law_gpu_warrants;

verus! {

/// A boot has slept for what was left of its settle window.
pub open spec fn settled_down(h: History, plan: BootPlan) -> bool {
    exists|up: Option<u64>| #[trigger]
        told(h, Op::Uptime, Reply::Uptime(up)) && match up {
            Some(u) => u >= window_ns(plan) || tried_op(h, Op::Sleep((window_ns(plan) - u) as u64)),
            None => tried_op(h, Op::Sleep(window_ns(plan) as u64)),
        }
}

/// The persisted voltage was set at the highest clock that the settings let the GPU reach, and what
/// came of it was told.
pub open spec fn voltage_again(h: History, cfg: PowerConfig, mv: u32) -> bool {
    exists|governor: GovernorConfig, clk: u32| #[trigger]
        told(h, Op::FloorClock { cfg, governor }, Reply::Number(clk)) && told(
            h,
            Op::LoadGovernor,
            Reply::Governor(governor),
        ) && exists|set: bool| #[trigger]
            told(h, Op::SetVddc { clk, mv }, Reply::Flag(set)) && if set {
                said(
                    h,
                    "re-applied GPU voltage "@ + dec(mv as nat) + " mV at "@ + dec(clk as nat)
                        + " MHz (overdrive)"@,
                )
            } else {
                warned(h, "GPU voltage re-apply failed (overdrive off?)"@)
            }
}

/// A clock was forced, and what was set was told.
pub open spec fn clock_pinned(h: History, m: u32, head: Seq<char>, tail: Seq<char>) -> bool {
    exists|set: u32| #[trigger]
        told(h, Op::ForceClock(m), Reply::Number(set)) && said(h, head + dec(set as nat) + tail)
}

/// The mode of a boot was enacted, unless a legacy unit is enabled.
pub open spec fn mode_enacted(h: History, plan: BootPlan, cfg: PowerConfig) -> bool {
    exists|legacy: bool| #[trigger]
        told(h, Op::LegacyUnits, Reply::Flag(legacy)) && match plan {
            BootPlan::Manual(m) => if legacy {
                said(
                    h,
                    "legacy GPU unit(s) still enabled — skipping manual clock re-apply (un-migrated host)"@,
                )
            } else {
                clock_pinned(
                    h,
                    m,
                    "manual mode: GFX clock pinned at "@,
                    " MHz (power.json force_mhz)"@,
                )
            },
            _ => if legacy {
                said(
                    h,
                    "legacy GPU unit(s) still enabled — leaving auto mode to them (un-migrated host; a gpu mode command migrates)"@,
                )
            } else {
                match cfg.auto_mode {
                    AutoMode::Governor => exists|g: GovernorConfig| #[trigger]
                        told(h, Op::LoadGovernor, Reply::Governor(g)) && managed_op(
                            h,
                            Op::RunGovernor(g),
                        ),
                    AutoMode::Autosleep => managed_op(
                        h,
                        Op::RunAutosleep { idle: 30, deep_force: false },
                    ),
                    AutoMode::Released => managed_op(h, Op::ReleaseClock) && said(
                        h,
                        "released: GFX clock left to native DPM (BAPM)"@,
                    ),
                }
            },
        }
}

/// A boot by this plan and these settings was carried out.
pub open spec fn boot_enacted(site: Site, h: History, plan: BootPlan, cfg: PowerConfig) -> bool {
    match plan {
        BootPlan::FailSafePin(m) => {
            &&& warned(
                h,
                "arieltune apu apply-boot: power.json is CORRUPT — fail-safe: pinning "@ + dec(
                    m as nat,
                ) + " MHz, no auto controller (repair or delete "@ + site.power_config@
                    + " and re-set the mode)"@,
            )
            &&& tried(
                h,
                Action::LogTransition(
                    "apply-boot: corrupt power.json -> fail-safe pin "@ + dec(m as nat),
                ),
            )
            &&& clock_pinned(h, m, "fail-safe: GFX clock pinned at "@, " MHz"@)
        },
        _ => {
            &&& cfg.force_vid_mv matches Some(mv) ==> voltage_again(h, cfg, mv)
            &&& mode_enacted(h, plan, cfg)
        },
    }
}

/// A boot was carried out by the plan of the host, once its settle window was over.
pub open spec fn boot_done(site: Site, h: History) -> bool {
    exists|plan: BootPlan, cfg: PowerConfig| #[trigger]
        boots(h, plan, cfg) && settled_down(h, plan) && boot_enacted(site, h, plan, cfg)
}

proof fn lemma_pinned(site: Site, h: History, plan: Plan, i: int, m: u32, safe: bool, depth: nat)
    requires
        depth > 2,
        0 <= i < plan.len(),
        plan[i] == crate::plan::ask(
            Op::ForceClock(m),
            if safe {
                Spot::FailSafePinned
            } else {
                Spot::BootPinned
            },
        ),
        ran(site, h, plan, depth),
    ensures
        if safe {
            clock_pinned(h, m, "fail-safe: GFX clock pinned at "@, " MHz"@)
        } else {
            clock_pinned(
                h,
                m,
                "manual mode: GFX clock pinned at "@,
                " MHz (power.json force_mhz)"@,
            )
        },
{
    let r = lemma_asked(site, h, plan, i, depth);
    let set = r->Number_0;
    assert(told(h, Op::ForceClock(m), Reply::Number(set)));
    let p = decision(site, plan[i]->then->Ask_0, r)->0;
    lemma_all_steps(site, h, p, (depth - 1) as nat);
    assert(said(h, p[0]->action->Println_0));
}

proof fn lemma_mode_enacted(
    site: Site,
    h: History,
    plan: Plan,
    i: int,
    bp: BootPlan,
    cfg: PowerConfig,
)
    requires
        0 <= i < plan.len(),
        plan[i] == crate::plan::ask(Op::LegacyUnits, Spot::BootLegacy { plan: bp, cfg }),
        ran(site, h, plan, 6),
    ensures
        mode_enacted(h, bp, cfg),
{
    let r = lemma_asked(site, h, plan, i, 6);
    let legacy = r->Flag_0;
    assert(told(h, Op::LegacyUnits, Reply::Flag(legacy)));
    let p = crate::boot::boot_legacy_plan(bp, cfg, legacy);
    assert(decision(site, plan[i]->then->Ask_0, r) == Some(p));
    lemma_all_steps(site, h, p, 5);
    if legacy {
        assert(said(h, p[0]->action->Println_0));
    } else {
        match bp {
            BootPlan::Manual(m) => {
                lemma_pinned(site, h, p, 0, m, false, 5);
            },
            _ => {
                assert(managed(h, p[0]->action));
                match cfg.auto_mode {
                    AutoMode::Governor => {
                        let q = lemma_asked(site, h, p, 0, 5);
                        let g = q->Governor_0;
                        assert(told(h, Op::LoadGovernor, Reply::Governor(g)));
                        let p1 = decision(site, p[0]->then->Ask_0, q)->0;
                        lemma_all_steps(site, h, p1, 4);
                        assert(managed(h, p1[0]->action));
                    },
                    AutoMode::Released => {
                        assert(said(h, p[1]->action->Println_0));
                    },
                    _ => {},
                }
            },
        }
    }
}

proof fn lemma_voltage_again(
    site: Site,
    h: History,
    plan: Plan,
    i: int,
    cfg: PowerConfig,
    mv: u32,
)
    requires
        0 <= i < plan.len(),
        plan[i] == crate::plan::ask(Op::LoadGovernor, Spot::BootVidGovernor { mv, cfg }),
        ran(site, h, plan, 6),
    ensures
        voltage_again(h, cfg, mv),
{
    let r = lemma_asked(site, h, plan, i, 6);
    let governor = r->Governor_0;
    assert(told(h, Op::LoadGovernor, Reply::Governor(governor)));
    let p1 = decision(site, plan[i]->then->Ask_0, r)->0;
    let r1 = lemma_asked(site, h, p1, 0, 5);
    let clk = r1->Number_0;
    assert(told(h, Op::FloorClock { cfg, governor }, Reply::Number(clk)));
    let p2 = decision(site, p1[0]->then->Ask_0, r1)->0;
    let r2 = lemma_asked(site, h, p2, 0, 4);
    let set = r2->Flag_0;
    assert(told(h, Op::SetVddc { clk, mv }, Reply::Flag(set)));
    let p3 = decision(site, p2[0]->then->Ask_0, r2)->0;
    lemma_all_steps(site, h, p3, 3);
    if set {
        assert(said(h, p3[0]->action->Println_0));
    } else {
        assert(warned(h, p3[0]->action->Eprintln_0));
    }
}

proof fn lemma_boot_enacted(
    site: Site,
    h: History,
    plan: Plan,
    i: int,
    bp: BootPlan,
    cfg: PowerConfig,
)
    requires
        0 <= i < plan.len(),
        plan[i] == crate::plan::ask(Op::Uptime, Spot::BootUptime { plan: bp, cfg }),
        ran(site, h, plan, 7),
    ensures
        settled_down(h, bp),
        boot_enacted(site, h, bp, cfg),
{
    let r = lemma_asked(site, h, plan, i, 7);
    let up = r->Uptime_0;
    assert(told(h, Op::Uptime, Reply::Uptime(up)));
    let first = crate::boot::settle_plan(bp, up);
    let second = crate::boot::enact_plan(site, bp, cfg);
    let p = first + second;
    assert(decision(site, plan[i]->then->Ask_0, r) == Some(p));
    lemma_all_steps(site, h, p, 6);
    let n = first.len() as int;
    if n > 0 {
        assert(p[1] == first[1]);
        assert(tried(h, p[1]->action));
    }
    assert(settled_down(h, bp));
    match bp {
        BootPlan::FailSafePin(m) => {
            assert(p[n] == second[0]);
            assert(p[n + 1] == second[1]);
            assert(p[n + 2] == second[2]);
            assert(warned(h, p[n]->action->Eprintln_0));
            assert(tried(h, p[n + 1]->action));
            lemma_pinned(site, h, p, n + 2, m, true, 6);
        },
        _ => {
            match cfg.force_vid_mv {
                Some(mv) => {
                    assert(p[n] == second[0]);
                    assert(p[n + 1] == second[1]);
                    lemma_voltage_again(site, h, p, n, cfg, mv);
                    lemma_mode_enacted(site, h, p, n + 1, bp, cfg);
                },
                None => {
                    assert(p[n] == second[0]);
                    lemma_mode_enacted(site, h, p, n, bp, cfg);
                },
            }
        },
    }
}

/// Law: a boot that ends in success has waited for its settle window, set the persisted voltage
/// again, and enacted the pin or the mode that the host gave, and told it.
pub proof fn law_boot_done(site: Site, cmd: GpuCmd, replies: Seq<Reply>)
    requires
        cmd is ApplyBoot || cmd is ApplySavedForce,
        ended(course(site, Cmd::Gpu { action: cmd }, replies).plan) == Some(
            Outcome::<Seq<char>>::Success,
        ),
    ensures
        boot_done(site, course(site, Cmd::Gpu { action: cmd }, replies).history),
{
    let c = Cmd::Gpu { action: cmd };
    let h = course(site, c, replies).history;
    law_gpu_warrants(site, cmd, replies);
    lemma_completed(site, c, replies, 9);
    let p0 = opening(site, c);
    let r0 = lemma_asked(site, h, p0, 0, 9);
    let bp = r0->Boot_0;
    let p1 = decision(site, p0[0]->then->Ask_0, r0)->0;
    match r0->Boot_1 {
        Some(cfg) => {
            assert(boots(h, bp, cfg));
            crate::completion::lemma_shallower(site, h, p1, 8);
            lemma_boot_enacted(site, h, p1, 0, bp, cfg);
        },
        None => {
            assert(told(h, Op::LoadForBoot, Reply::Boot(bp, None)));
            let r1 = lemma_asked(site, h, p1, 0, 8);
            let cfg = r1->Power_0;
            assert(told(h, Op::DefaultPower, Reply::Power(cfg)));
            assert(boots(h, bp, cfg));
            let p2 = decision(site, p1[0]->then->Ask_0, r1)->0;
            lemma_boot_enacted(site, h, p2, 0, bp, cfg);
        },
    }
}

} // verus!
