//! What the boot entry of the GPU power unit is entitled to do and to say.
use vstd::prelude::*;

use crate::custody::{told, Custody};
use crate::decide::decision;
use crate::model::{AutoMode, BootPlan, GovernorConfig, PowerConfig, Reply, Site};
use crate::plan::{Action, Op, Point, Spot};
use crate::text::dec;
use crate::trace::{answered, History};

verus! {

/// Whether the host gave this boot plan, and these are its settings: those it was made from, or the
/// default ones.
pub open spec fn boots(h: History, plan: BootPlan, cfg: PowerConfig) -> bool {
    ||| told(h, Op::LoadForBoot, Reply::Boot(plan, Some(cfg)))
    ||| told(h, Op::LoadForBoot, Reply::Boot(plan, None)) && told(
        h,
        Op::DefaultPower,
        Reply::Power(cfg),
    )
}

/// Whether the host gave a boot plan without settings.
pub open spec fn boots_bare(h: History) -> bool {
    exists|plan: BootPlan| #[trigger] told(h, Op::LoadForBoot, Reply::Boot(plan, None))
}

/// Whether a boot plan of the host has settings.
pub open spec fn boots_some(h: History) -> bool {
    exists|plan: BootPlan, cfg: PowerConfig| #[trigger] boots(h, plan, cfg)
}

/// The nanoseconds of uptime before which a boot plan leaves the GPU alone: 15 seconds for a low
/// pin and for the fail-safe one, else 120 seconds.
pub open spec fn window_ns(plan: BootPlan) -> int {
    match plan {
        BootPlan::Manual(m) => if m <= 1000 {
            15_000_000_000
        } else {
            120_000_000_000
        },
        BootPlan::FailSafePin(_) => 15_000_000_000,
        BootPlan::Auto => 120_000_000_000,
    }
}

/// Whether a whole number of seconds is nearest to a number of nanoseconds, the even one of two
/// that are equally near.
pub open spec fn nearest_second(ns: int, s: int) -> bool {
    &&& 0 <= s
    &&& -500_000_000 <= ns - s * 1_000_000_000 <= 500_000_000
    &&& (ns - s * 1_000_000_000 == 500_000_000 || ns - s * 1_000_000_000 == -500_000_000) ==> s % 2
        == 0
}

/// Whether the boot has this much of the settle window of its plan left.
pub open spec fn window_left(h: History, plan: BootPlan, up: Option<u64>, left: int) -> bool {
    &&& told(h, Op::Uptime, Reply::Uptime(up))
    &&& exists|cfg: PowerConfig| #[trigger] boots(h, plan, cfg)
    &&& left == match up {
        Some(u) => window_ns(plan) - u,
        None => window_ns(plan),
    }
    &&& left > 0
}

/// Whether a boot sleeps for what is left of the settle window.
pub open spec fn sleeps(h: History, ns: u64) -> bool {
    exists|plan: BootPlan, up: Option<u64>| #[trigger] window_left(h, plan, up, ns as int)
}

/// Whether a line tells that the boot waits for the rest of the settle window.
pub open spec fn tells_wait(h: History, text: Seq<char>) -> bool {
    exists|plan: BootPlan, u: u64, left: int, a: nat, b: nat|
        #![trigger window_left(h, plan, Some(u), left), nearest_second(left, a as int), nearest_second(u as int, b as int)]
        window_left(h, plan, Some(u), left) && nearest_second(left, a as int) && nearest_second(
            u as int,
            b as int,
        ) && text == "arieltune apu apply-boot: boot-settle — waiting "@ + dec(a) + "s (uptime "@
            + dec(b) + "s)"@
}

/// Whether a line tells that the boot sleeps for the full window.
pub open spec fn tells_full_wait(h: History, text: Seq<char>) -> bool {
    exists|plan: BootPlan, left: int, s: nat|
        #![trigger window_left(h, plan, None, left), dec(s)]
        window_left(h, plan, None, left) && left == s * 1_000_000_000 && text
            == "arieltune apu apply-boot: /proc/uptime unreadable — sleeping the full "@ + dec(s)
            + "s settle (fail-closed)"@
}

/// Whether the settings do not parse and the host gave this safe clock.
pub open spec fn fails_safe(h: History, m: u32) -> bool {
    exists|cfg: PowerConfig| #[trigger] boots(h, BootPlan::FailSafePin(m), cfg)
}

/// Whether the host gave this manual pin.
pub open spec fn boots_pinned(h: History, m: u32) -> bool {
    exists|cfg: PowerConfig| #[trigger] boots(h, BootPlan::Manual(m), cfg)
}

/// Whether the host gave a manual pin.
pub open spec fn boots_any_pin(h: History) -> bool {
    exists|m: u32| #[trigger] boots_pinned(h, m)
}

/// Whether the host gave an auto boot in this mode.
pub open spec fn boots_auto(h: History, mode: AutoMode) -> bool {
    exists|cfg: PowerConfig| #[trigger]
        boots(h, BootPlan::Auto, cfg) && cfg.auto_mode == mode
}

/// Whether the host gave an auto boot.
pub open spec fn boots_any_auto(h: History) -> bool {
    exists|cfg: PowerConfig| #[trigger] boots(h, BootPlan::Auto, cfg)
}

/// Whether the settings of a boot that parsed hold this voltage.
pub open spec fn boot_voltage(h: History, plan: BootPlan, cfg: PowerConfig, mv: u32) -> bool {
    boots(h, plan, cfg) && !(plan is FailSafePin) && cfg.force_vid_mv == Some(mv)
}

/// Whether these settings, of some boot that parsed, hold this voltage.
pub open spec fn boot_holds(h: History, cfg: PowerConfig, mv: u32) -> bool {
    exists|plan: BootPlan| #[trigger] boot_voltage(h, plan, cfg, mv)
}

/// Whether the settings of a boot hold a voltage.
pub open spec fn boot_has_voltage(h: History, cfg: PowerConfig) -> bool {
    exists|mv: u32| #[trigger] boot_holds(h, cfg, mv)
}

/// Whether the settings of some boot hold a voltage.
pub open spec fn boot_any_voltage(h: History) -> bool {
    exists|cfg: PowerConfig| #[trigger] boot_has_voltage(h, cfg)
}

/// Whether a clock is the highest that the settings of the boot let the GPU reach, and a voltage is
/// the persisted one.
pub open spec fn boot_voltage_at(h: History, clk: u32, mv: u32) -> bool {
    exists|cfg: PowerConfig, governor: GovernorConfig| #[trigger]
        told(h, Op::FloorClock { cfg, governor }, Reply::Number(clk)) && boot_holds(h, cfg, mv) && told(h, Op::LoadGovernor, Reply::Governor(governor))
}

/// Whether a line tells of the voltage that was set again.
pub open spec fn tells_voltage(h: History, text: Seq<char>) -> bool {
    exists|clk: u32, mv: u32| #[trigger]
        told(h, Op::SetVddc { clk, mv }, Reply::Flag(true)) && boot_voltage_at(h, clk, mv) && text
            == "re-applied GPU voltage "@ + dec(mv as nat) + " mV at "@ + dec(clk as nat)
            + " MHz (overdrive)"@
}

/// Whether the voltage could not be set again.
pub open spec fn voltage_unset(h: History) -> bool {
    exists|clk: u32, mv: u32| #[trigger] told(h, Op::SetVddc { clk, mv }, Reply::Flag(false))
}

/// Whether a line tells the clock that a manual pin was set to.
pub open spec fn tells_manual(h: History, text: Seq<char>) -> bool {
    exists|m: u32, set: u32| #[trigger]
        told(h, Op::ForceClock(m), Reply::Number(set)) && boots_pinned(h, m) && text
            == "manual mode: GFX clock pinned at "@ + dec(set as nat)
            + " MHz (power.json force_mhz)"@
}

/// Whether a line tells the clock that the fail-safe pin was set to.
pub open spec fn tells_fail_safe(h: History, text: Seq<char>) -> bool {
    exists|m: u32, set: u32| #[trigger]
        told(h, Op::ForceClock(m), Reply::Number(set)) && fails_safe(h, m) && text
            == "fail-safe: GFX clock pinned at "@ + dec(set as nat) + " MHz"@
}

/// Whether a line warns that the settings do not parse.
pub open spec fn warns_corrupt(site: Site, h: History, text: Seq<char>) -> bool {
    exists|m: u32| #[trigger]
        fails_safe(h, m) && text
            == "arieltune apu apply-boot: power.json is CORRUPT — fail-safe: pinning "@ + dec(
            m as nat,
        ) + " MHz, no auto controller (repair or delete "@ + site.power_config@
            + " and re-set the mode)"@
}

/// Whether a note for the log tells that the settings do not parse.
pub open spec fn logs_corrupt(h: History, text: Seq<char>) -> bool {
    exists|m: u32| #[trigger]
        fails_safe(h, m) && text == "apply-boot: corrupt power.json -> fail-safe pin "@ + dec(
            m as nat,
        )
}

/// What a boot is entitled to hand to the host, by what the host has answered so far.
pub open spec fn boot_may(site: Site, h: History, action: Action<Seq<char>>) -> bool {
    let legacy = told(h, Op::LegacyUnits, Reply::Flag(true));
    let native = told(h, Op::LegacyUnits, Reply::Flag(false));
    match action {
        Action::Host(op) => match op {
            Op::LoadForBoot => true,
            Op::DefaultPower => boots_bare(h),
            Op::Uptime => boots_some(h),
            Op::Sleep(ns) => sleeps(h, ns),
            Op::LoadGovernor => boot_any_voltage(h) || (native && boots_auto(
                h,
                AutoMode::Governor,
            )),
            Op::FloorClock { cfg, governor } => boot_has_voltage(h, cfg) && told(
                h,
                Op::LoadGovernor,
                Reply::Governor(governor),
            ),
            Op::SetVddc { clk, mv } => boot_voltage_at(h, clk, mv),
            Op::LegacyUnits => true,
            Op::ForceClock(m) => fails_safe(h, m) || (native && boots_pinned(h, m)),
            Op::RunGovernor(g) => native && boots_auto(h, AutoMode::Governor) && told(
                h,
                Op::LoadGovernor,
                Reply::Governor(g),
            ),
            Op::RunAutosleep { idle, deep_force } => native && boots_auto(h, AutoMode::Autosleep)
                && idle == 30 && !deep_force,
            Op::ReleaseClock => native && boots_auto(h, AutoMode::Released),
            _ => false,
        },
        Action::LogTransition(text) => logs_corrupt(h, text),
        Action::Eprintln(text) => {
            ||| tells_wait(h, text)
            ||| tells_full_wait(h, text)
            ||| warns_corrupt(site, h, text)
            ||| voltage_unset(h) && text == "GPU voltage re-apply failed (overdrive off?)"@
        },
        Action::Println(text) => {
            ||| tells_voltage(h, text)
            ||| tells_manual(h, text)
            ||| tells_fail_safe(h, text)
            ||| legacy && boots_any_pin(h) && text
                == "legacy GPU unit(s) still enabled — skipping manual clock re-apply (un-migrated host)"@
            ||| legacy && boots_any_auto(h) && text
                == "legacy GPU unit(s) still enabled — leaving auto mode to them (un-migrated host; a gpu mode command migrates)"@
            ||| native && boots_auto(h, AutoMode::Released) && text
                == "released: GFX clock left to native DPM (BAPM)"@
        },
        _ => false,
    }
}

/// The decisions of a boot.
pub open spec fn boot_spot(spot: Spot) -> bool {
    match spot {
        Spot::BootLoaded => true,
        Spot::BootDefault(_) => true,
        Spot::BootUptime { .. } => true,
        Spot::BootVidGovernor { .. } => true,
        Spot::BootVidClock(_) => true,
        Spot::BootVidSet { .. } => true,
        Spot::BootLegacy { .. } => true,
        Spot::BootPinned => true,
        Spot::FailSafePinned => true,
        Spot::StartGovernor => true,
        _ => false,
    }
}

/// The decisions of a boot whose values are vouched for.
pub open spec fn boot_ground(h: History, action: Action<Seq<char>>, spot: Spot) -> bool {
    action matches Action::Host(op) && match spot {
        Spot::BootLoaded => op == Op::LoadForBoot,
        Spot::BootDefault(plan) => op == Op::DefaultPower && told(
            h,
            Op::LoadForBoot,
            Reply::Boot(plan, None),
        ),
        Spot::BootUptime { plan, cfg } => op == Op::Uptime && boots(h, plan, cfg),
        Spot::BootVidGovernor { mv, cfg } => op == Op::LoadGovernor && boot_holds(h, cfg, mv),
        Spot::BootVidClock(mv) => op matches Op::FloorClock { cfg, governor } && told(
            h,
            Op::LoadGovernor,
            Reply::Governor(governor),
        ) && boot_holds(h, cfg, mv),
        Spot::BootVidSet { mv, clk } => op == (Op::SetVddc { clk, mv }) && boot_voltage_at(
            h,
            clk,
            mv,
        ),
        Spot::BootLegacy { plan, cfg } => op == Op::LegacyUnits && boots(h, plan, cfg) && !(plan is
        FailSafePin),
        Spot::BootPinned => op matches Op::ForceClock(m) && boots_pinned(h, m),
        Spot::FailSafePinned => op matches Op::ForceClock(m) && fails_safe(h, m),
        Spot::StartGovernor => op == Op::LoadGovernor && told(
            h,
            Op::LegacyUnits,
            Reply::Flag(false),
        ) && boots_auto(h, AutoMode::Governor),
        _ => false,
    }
}

/// Seconds as the boot rounds them are the nearest ones.
proof fn lemma_rounded(ns: nat)
    ensures
        nearest_second(ns as int, crate::boot::rounded(ns) as int),
{
}

/// The waits of a boot are warranted.
proof fn lemma_settle_covered(
    h: History,
    plan: BootPlan,
    cfg: PowerConfig,
    up: Option<u64>,
    site: Site,
    custody: Custody,
)
    requires
        told(h, Op::Uptime, Reply::Uptime(up)),
        boots(h, plan, cfg),
        forall|action: Action<Seq<char>>| #[trigger]
            boot_may(site, h, action) ==> (custody.warrant)(action),
    ensures
        custody.covers(h, crate::boot::settle_plan(plan, up)),
{
    let window = window_ns(plan);
    let steps = crate::boot::settle_plan(plan, up);
    match up {
        Some(u) => {
            if u < window {
                let left = window - u;
                assert(window_left(h, plan, Some(u), left));
                assert(sleeps(h, left as u64));
                lemma_rounded(left as nat);
                lemma_rounded(u as nat);
                let text = steps[0]->action->Eprintln_0;
                assert(tells_wait(h, text)) by {
                    let a = crate::boot::rounded(left as nat);
                    let b = crate::boot::rounded(u as nat);
                    assert(nearest_second(left, a as int));
                    assert(nearest_second(u as int, b as int));
                }
                assert(boot_may(site, h, steps[0]->action));
                assert(boot_may(site, h, steps[1]->action));
            }
        },
        None => {
            assert(window_left(h, plan, None, window));
            assert(sleeps(h, window as u64));
            let text = steps[0]->action->Eprintln_0;
            assert(tells_full_wait(h, text)) by {
                let s = crate::boot::settle(plan) as nat;
                assert(window == s * 1_000_000_000);
            }
            assert(boot_may(site, h, steps[0]->action));
            assert(boot_may(site, h, steps[1]->action));
        },
    }
}

/// The decisions of a boot make warranted plans.
pub proof fn lemma_boot_decision(
    site: Site,
    h: History,
    action: Action<Seq<char>>,
    spot: Spot,
    reply: Reply,
    custody: Custody,
)
    requires
        boot_spot(spot),
        boot_ground(h, action, spot),
        answered(h, action, reply),
        decision(site, Point::At(spot), reply) is Some,
        forall|a: Action<Seq<char>>| #[trigger]
            boot_may(site, h, a) ==> (custody.warrant)(a),
        forall|a: Action<Seq<char>>, s: Spot|
            #![trigger (custody.ground)(a, Point::At(s))]
            boot_spot(s) && boot_ground(h, a, s) ==> (custody.ground)(a, Point::At(s)),
        forall|a: Action<Seq<char>>| #[trigger] custody.passes_error(h, a),
    ensures
        custody.covers(h, decision(site, Point::At(spot), reply)->0),
{
    let decided = decision(site, Point::At(spot), reply)->0;
    let op = action->Host_0;
    assert(told(h, op, reply));
    match spot {
        Spot::BootLoaded => {
            let plan = reply->Boot_0;
            match reply->Boot_1 {
                Some(cfg) => {
                    assert(boots(h, plan, cfg));
                    assert(boots_some(h));
                },
                None => {
                    assert(told(h, Op::LoadForBoot, Reply::Boot(plan, None)));
                    assert(boots_bare(h));
                },
            }
            assert(boot_may(site, h, decided[0]->action));
            assert(custody.passes_error(h, decided[0]->action));
            assert((custody.ground)(decided[0]->action, decided[0]->then->Ask_0));
            assert(custody.covers_step(h, decided[0]));
        },
        Spot::BootDefault(plan) => {
            let cfg = reply->Power_0;
            assert(told(h, Op::DefaultPower, Reply::Power(cfg)));
            assert(boots(h, plan, cfg));
            assert(boots_some(h));
            assert(boot_may(site, h, decided[0]->action));
            assert((custody.ground)(decided[0]->action, decided[0]->then->Ask_0));
            assert(custody.covers_step(h, decided[0]));
        },
        Spot::BootUptime { plan, cfg } => {
            let up = reply->Uptime_0;
            assert(told(h, Op::Uptime, Reply::Uptime(up)));
            lemma_settle_covered(h, plan, cfg, up, site, custody);
            let first = crate::boot::settle_plan(plan, up);
            let second = crate::boot::enact_plan(site, plan, cfg);
            assert(decided == first + second);
            assert(custody.covers(h, second)) by {
                if let BootPlan::FailSafePin(m) = plan {
                    assert(fails_safe(h, m));
                } else if let Some(mv) = cfg.force_vid_mv {
                    assert(boot_voltage(h, plan, cfg, mv));
                    assert(boot_holds(h, cfg, mv));
                    assert(boot_has_voltage(h, cfg));
                    assert(boot_any_voltage(h));
                }
                assert forall|i: int| 0 <= i < second.len() implies custody.covers_step(
                    h,
                    #[trigger] second[i],
                ) by {
                    let a = second[i]->action;
                    assert(boot_may(site, h, a));
                    assert(custody.passes_error(h, a));
                    if second[i]->then is Ask {
                        assert((custody.ground)(a, second[i]->then->Ask_0));
                    }
                }
            }
            assert forall|i: int| 0 <= i < decided.len() implies custody.covers_step(
                h,
                #[trigger] decided[i],
            ) by {
                if i < first.len() {
                    assert(decided[i] == first[i]);
                } else {
                    assert(decided[i] == second[i - first.len()]);
                }
            }
        },
        Spot::BootVidGovernor { mv, cfg } => {
            let governor = reply->Governor_0;
            assert(told(h, Op::LoadGovernor, Reply::Governor(governor)));
            assert(boot_has_voltage(h, cfg));
            assert(boot_may(site, h, decided[0]->action));
            assert((custody.ground)(decided[0]->action, decided[0]->then->Ask_0));
            assert(custody.passes_error(h, decided[0]->action));
            assert(custody.covers_step(h, decided[0]));
        },
        Spot::BootVidClock(mv) => {
            let clk = reply->Number_0;
            let cfg = op->FloorClock_cfg;
            let governor = op->FloorClock_governor;
            assert(told(h, Op::FloorClock { cfg, governor }, Reply::Number(clk)));
            assert(boot_voltage_at(h, clk, mv));
            assert(boot_may(site, h, decided[0]->action));
            assert((custody.ground)(decided[0]->action, decided[0]->then->Ask_0));
            assert(custody.passes_error(h, decided[0]->action));
            assert(custody.covers_step(h, decided[0]));
        },
        Spot::BootVidSet { mv, clk } => {
            let set = reply->Flag_0;
            assert(told(h, Op::SetVddc { clk, mv }, Reply::Flag(set)));
            if set {
                assert(tells_voltage(h, decided[0]->action->Println_0));
            } else {
                assert(voltage_unset(h));
            }
            assert(boot_may(site, h, decided[0]->action));
            assert(custody.covers_step(h, decided[0]));
        },
        Spot::BootLegacy { plan, cfg } => {
            let legacy = reply->Flag_0;
            assert(told(h, Op::LegacyUnits, Reply::Flag(legacy)));
            match plan {
                BootPlan::Manual(m) => {
                    assert(boots_pinned(h, m));
                    assert(boots_any_pin(h));
                },
                _ => {
                    assert(boots_any_auto(h));
                    assert(boots_auto(h, cfg.auto_mode));
                },
            }
            assert forall|i: int| 0 <= i < decided.len() implies custody.covers_step(
                h,
                #[trigger] decided[i],
            ) by {
                let a = decided[i]->action;
                assert(boot_may(site, h, a));
                assert(custody.passes_error(h, a));
                if decided[i]->then is Ask {
                    assert((custody.ground)(a, decided[i]->then->Ask_0));
                }
            }
        },
        Spot::BootPinned => {
            let set = reply->Number_0;
            let m = op->ForceClock_0;
            assert(told(h, Op::ForceClock(m), Reply::Number(set)));
            assert(tells_manual(h, decided[0]->action->Println_0));
            assert(boot_may(site, h, decided[0]->action));
            assert(custody.covers_step(h, decided[0]));
        },
        Spot::FailSafePinned => {
            let set = reply->Number_0;
            let m = op->ForceClock_0;
            assert(told(h, Op::ForceClock(m), Reply::Number(set)));
            assert(tells_fail_safe(h, decided[0]->action->Println_0));
            assert(boot_may(site, h, decided[0]->action));
            assert(custody.covers_step(h, decided[0]));
        },
        _ => {
            let g = reply->Governor_0;
            assert(told(h, Op::LoadGovernor, Reply::Governor(g)));
            assert(boot_may(site, h, decided[0]->action));
            assert(custody.passes_error(h, decided[0]->action));
            assert(custody.covers_step(h, decided[0]));
        },
    }
}

} // verus!
