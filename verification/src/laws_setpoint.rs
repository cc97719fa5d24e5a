//! Laws of the setpoints, the power modes and the temperature cap.
use vstd::prelude::*;

use crate::cli::opening;
use crate::commands::{Cmd, GpuCmd};
use crate::decide::decision;
use crate::gpu::raised;
use crate::laws_gpu::gpu_course;
use crate::model::{fault, AutoMode, CpuOc, GovernorConfig, PowerConfig, Reply, Site};
use crate::order::{lemma_rule, Rule};
use crate::plan::{Action, Op, Outcome, Point, Spot};
use crate::session::ended;
use crate::text::dec;
use crate::trace::{done, lemma_ended, succeeded, witnessed, Exchange, History};

verus! {

/// Whether a command sets a clock tier of the governor.
pub open spec fn sets_tier(cmd: GpuCmd) -> bool {
    cmd is SetTop || cmd is SetMid || cmd is SetIdle || cmd is SetDeep
}

/// The decisions of the commands that set a clock tier, up to those that hold the new tiers.
spec fn tier_spot(spot: Spot) -> bool {
    match spot {
        Spot::TopPower(_) => true,
        Spot::TopSet(_) => true,
        Spot::TopGovernor { .. } => true,
        Spot::SetMid(_) => true,
        Spot::SetIdle(_) => true,
        Spot::DeepPower(_) => true,
        Spot::DeepSet(_) => true,
        Spot::DeepGovernor { .. } => true,
        _ => false,
    }
}

/// Law: governor tiers are saved only once they were found to be in order. An inverted ladder is
/// never persisted.
pub proof fn law_tiers_are_saved_in_order(
    site: Site,
    cmd: GpuCmd,
    replies: Seq<Reply>,
    g: GovernorConfig,
)
    requires
        sets_tier(cmd),
        gpu_course(site, cmd, replies).did(Op::SaveGovernor(g)),
    ensures
        succeeded(
            gpu_course(site, cmd, replies).history,
            Action::Host(Op::ValidateLadder(g)),
        ),
{
    let rule = Rule {
        held: |action: Action<Seq<char>>| action == Action::<Seq<char>>::Host(Op::SaveGovernor(g)),
        key: |e: Exchange|
            e.action == Action::<Seq<char>>::Host(Op::ValidateLadder(g)) && !(e.reply is Failed),
        at: |action: Action<Seq<char>>, point: Point<Seq<char>>|
            point matches Point::At(spot) && match spot {
                Spot::TopClock { mhz, cfg, governor } => governor != g,
                Spot::TopFloor { mhz, cfg, governor, clk } => governor != g,
                _ => tier_spot(spot),
            },
        ..Rule::plain()
    };
    assert(rule.ordered(opening(site, Cmd::Gpu { action: cmd })));
    assert(rule.closed(site));
    lemma_rule(site, Cmd::Gpu { action: cmd }, replies, rule);
}

/// Law: no setpoint is saved, not even among the power settings, before the governor tiers were
/// found to be in order.
pub proof fn law_setpoints_wait_for_the_ladder(
    site: Site,
    cmd: GpuCmd,
    replies: Seq<Reply>,
    cfg: PowerConfig,
)
    requires
        sets_tier(cmd),
        gpu_course(site, cmd, replies).did(Op::SavePower(cfg)),
    ensures
        witnessed(gpu_course(site, cmd, replies).history, |e: Exchange| ladder_in_order(e)),
{
    let rule = Rule {
        held: |action: Action<Seq<char>>|
            action matches Action::Host(op) && op is SavePower,
        key: |e: Exchange| ladder_in_order(e),
        at: |action: Action<Seq<char>>, point: Point<Seq<char>>|
            point matches Point::At(spot) && tier_spot(spot),
        ..Rule::plain()
    };
    assert(rule.ordered(opening(site, Cmd::Gpu { action: cmd })));
    assert(rule.closed(site));
    lemma_rule(site, Cmd::Gpu { action: cmd }, replies, rule);
}

/// Whether an exchange finds governor tiers to be in order.
pub open spec fn ladder_in_order(e: Exchange) -> bool {
    (e.action matches Action::Host(op) && op is ValidateLadder) && !(e.reply is Failed)
}

/// The governor tiers with the one that a command sets.
pub open spec fn retiered(cmd: GpuCmd, g: GovernorConfig) -> GovernorConfig {
    match cmd {
        GpuCmd::SetTop { mhz } => GovernorConfig { high_mhz: mhz, ..g },
        GpuCmd::SetMid { mhz } => GovernorConfig { mid_mhz: mhz, ..g },
        GpuCmd::SetIdle { mhz } => GovernorConfig { idle_mhz: mhz, ..g },
        GpuCmd::SetDeep { mhz } => GovernorConfig { deep_mhz: mhz, ..g },
        _ => g,
    }
}

/// Whether an exchange loads governor tiers that become `g` by the command.
pub open spec fn tiers_loaded(e: Exchange, cmd: GpuCmd, g: GovernorConfig) -> bool {
    &&& e.action == Action::<Seq<char>>::Host(Op::LoadGovernor)
    &&& e.reply matches Reply::Governor(loaded)
    &&& g == retiered(cmd, loaded)
}

/// Law: a command that sets a clock tier of the governor changes that tier alone.
pub proof fn law_one_tier_changes(
    site: Site,
    cmd: GpuCmd,
    replies: Seq<Reply>,
    g: GovernorConfig,
)
    requires
        sets_tier(cmd),
        gpu_course(site, cmd, replies).did(Op::SaveGovernor(g)),
    ensures
        witnessed(gpu_course(site, cmd, replies).history, |e: Exchange| tiers_loaded(e, cmd, g)),
{
    let loads = Action::<Seq<char>>::Host(Op::LoadGovernor);
    let rule = Rule {
        held: |action: Action<Seq<char>>| action == Action::<Seq<char>>::Host(Op::SaveGovernor(g)),
        key: |e: Exchange| tiers_loaded(e, cmd, g),
        at: |action: Action<Seq<char>>, point: Point<Seq<char>>|
            point matches Point::At(spot) && match spot {
                Spot::TopPower(m) => cmd == (GpuCmd::SetTop { mhz: m }),
                Spot::TopSet(m) => cmd == (GpuCmd::SetTop { mhz: m }),
                Spot::TopGovernor { mhz: m, cfg } => cmd == (GpuCmd::SetTop { mhz: m }) && action
                    == loads,
                Spot::TopClock { mhz: m, cfg, governor } => governor != g,
                Spot::TopFloor { mhz: m, cfg, governor, clk } => governor != g,
                Spot::SetMid(m) => cmd == (GpuCmd::SetMid { mhz: m }) && action == loads,
                Spot::SetIdle(m) => cmd == (GpuCmd::SetIdle { mhz: m }) && action == loads,
                Spot::DeepPower(m) => cmd == (GpuCmd::SetDeep { mhz: m }),
                Spot::DeepSet(m) => cmd == (GpuCmd::SetDeep { mhz: m }),
                Spot::DeepGovernor { mhz: m, cfg } => cmd == (GpuCmd::SetDeep { mhz: m }) && action
                    == loads,
                _ => false,
            },
        ..Rule::plain()
    };
    assert(rule.ordered(opening(site, Cmd::Gpu { action: cmd })));
    assert(rule.closed(site));
    lemma_rule(site, Cmd::Gpu { action: cmd }, replies, rule);
}

/// Whether an exchange gives the safe floor of a clock that is no lower than the new top clock and
/// the manual pin, and these settings have no voltage below that floor.
pub open spec fn floor_kept(e: Exchange, mhz: u32, cfg: PowerConfig) -> bool {
    &&& e.action matches Action::Host(Op::MinVddc(clk))
    &&& clk >= mhz
    &&& cfg.force_mhz matches Some(m) ==> clk >= m
    &&& e.reply matches Reply::Number(floor)
    &&& cfg.force_vid_mv matches Some(v) ==> floor <= v
}

/// Law: a new top clock never lands on a persisted voltage below the safe floor of the highest
/// clock that the GPU can reach.
pub proof fn law_top_keeps_the_voltage_floor(
    site: Site,
    mhz: u32,
    replies: Seq<Reply>,
    cfg: PowerConfig,
)
    requires
        gpu_course(site, GpuCmd::SetTop { mhz }, replies).did(Op::SavePower(cfg)),
    ensures
        witnessed(
            gpu_course(site, GpuCmd::SetTop { mhz }, replies).history,
            |e: Exchange| floor_kept(e, mhz, cfg),
        ),
{
    let rule = Rule {
        held: |action: Action<Seq<char>>| action == Action::<Seq<char>>::Host(Op::SavePower(cfg)),
        key: |e: Exchange| floor_kept(e, mhz, cfg),
        at: |action: Action<Seq<char>>, point: Point<Seq<char>>|
            point matches Point::At(spot) && match spot {
                Spot::TopPower(m) => m == mhz,
                Spot::TopSet(m) => m == mhz,
                Spot::TopGovernor { mhz: m, cfg: c } => m == mhz,
                Spot::TopClock { mhz: m, cfg: c, governor } => governor.high_mhz == mhz,
                Spot::TopFloor { mhz: m, cfg: c, governor, clk } => action == Action::<
                    Seq<char>,
                >::Host(Op::MinVddc(clk)) && clk >= mhz && (c.force_mhz matches Some(p) ==> clk
                    >= p),
                _ => false,
            },
        ..Rule::plain()
    };
    let cmd = Cmd::Gpu { action: GpuCmd::SetTop { mhz } };
    assert(rule.ordered(opening(site, cmd)));
    assert(rule.closed(site));
    lemma_rule(site, cmd, replies, rule);
}

/// Whether an exchange gives the settings with the new top clock, and these differ from them in
/// nothing but a voltage that was raised.
pub open spec fn top_taken(e: Exchange, mhz: u32, cfg: PowerConfig) -> bool {
    &&& e.action matches Action::Host(Op::SetTop { cfg: before, mhz: m })
    &&& m == mhz
    &&& e.reply matches Reply::Power(with_top)
    &&& raised_only(with_top, cfg)
}

/// Whether settings differ in nothing but a voltage that was raised.
pub open spec fn raised_only(before: PowerConfig, after: PowerConfig) -> bool {
    &&& after == (PowerConfig { force_vid_mv: after.force_vid_mv, ..before })
    &&& match before.force_vid_mv {
        Some(old) => after.force_vid_mv matches Some(new) && old <= new,
        None => after.force_vid_mv is None,
    }
}

/// A raise to the floor changes nothing but the voltage.
proof fn lemma_raised_only(cfg: PowerConfig, floor: u32)
    ensures
        raised_only(cfg, raised(cfg, floor)),
{
}

/// Law: a new top clock lowers no persisted voltage, adds none, and changes nothing else of the
/// settings.
pub proof fn law_top_changes_nothing_else(
    site: Site,
    mhz: u32,
    replies: Seq<Reply>,
    cfg: PowerConfig,
)
    requires
        gpu_course(site, GpuCmd::SetTop { mhz }, replies).did(Op::SavePower(cfg)),
    ensures
        witnessed(
            gpu_course(site, GpuCmd::SetTop { mhz }, replies).history,
            |e: Exchange| top_taken(e, mhz, cfg),
        ),
{
    let rule = Rule {
        held: |action: Action<Seq<char>>| action == Action::<Seq<char>>::Host(Op::SavePower(cfg)),
        key: |e: Exchange| top_taken(e, mhz, cfg),
        at: |action: Action<Seq<char>>, point: Point<Seq<char>>|
            point matches Point::At(spot) && match spot {
                Spot::TopPower(m) => m == mhz,
                Spot::TopSet(m) => m == mhz && (action matches Action::Host(
                    Op::SetTop { cfg: before, mhz: n },
                ) && n == mhz),
                Spot::TopGovernor { mhz: m, cfg: c } => !raised_only(c, cfg),
                Spot::TopClock { mhz: m, cfg: c, governor } => !raised_only(c, cfg),
                Spot::TopFloor { mhz: m, cfg: c, governor, clk } => !raised_only(c, cfg),
                _ => false,
            },
        ..Rule::plain()
    };
    let cmd = Cmd::Gpu { action: GpuCmd::SetTop { mhz } };
    assert(rule.ordered(opening(site, cmd)));
    assert forall|a: Action<Seq<char>>, point: Point<Seq<char>>, reply: Reply|
        #![trigger (rule.at)(a, point), decision(site, point, reply)]
        (rule.at)(a, point) && decision(site, point, reply) is Some implies (rule.key)(
        Exchange { action: a, reply },
    ) || rule.decides(point, decision(site, point, reply)->0) by {
        if let Point::At(Spot::TopFloor { mhz: m, cfg: c, governor, clk }) = point {
            lemma_raised_only(c, reply->Number_0);
        }
    }
    lemma_rule(site, cmd, replies, rule);
}

/// Whether an exchange gives these settings as those with the new deep clock.
pub open spec fn deep_taken(e: Exchange, mhz: u32, cfg: PowerConfig) -> bool {
    &&& e.action matches Action::Host(Op::SetDeep { cfg: before, mhz: m })
    &&& m == mhz
    &&& e.reply == Reply::Power(cfg)
}

/// Law: a new deep clock changes nothing else of the settings.
pub proof fn law_deep_changes_nothing_else(
    site: Site,
    mhz: u32,
    replies: Seq<Reply>,
    cfg: PowerConfig,
)
    requires
        gpu_course(site, GpuCmd::SetDeep { mhz }, replies).did(Op::SavePower(cfg)),
    ensures
        witnessed(
            gpu_course(site, GpuCmd::SetDeep { mhz }, replies).history,
            |e: Exchange| deep_taken(e, mhz, cfg),
        ),
{
    let rule = Rule {
        held: |action: Action<Seq<char>>| action == Action::<Seq<char>>::Host(Op::SavePower(cfg)),
        key: |e: Exchange| deep_taken(e, mhz, cfg),
        at: |action: Action<Seq<char>>, point: Point<Seq<char>>|
            point matches Point::At(spot) && match spot {
                Spot::DeepPower(m) => m == mhz,
                Spot::DeepSet(m) => m == mhz && (action matches Action::Host(
                    Op::SetDeep { cfg: before, mhz: n },
                ) && n == mhz),
                Spot::DeepGovernor { mhz: m, cfg: c } => c != cfg,
                _ => false,
            },
        ..Rule::plain()
    };
    let cmd = Cmd::Gpu { action: GpuCmd::SetDeep { mhz } };
    assert(rule.ordered(opening(site, cmd)));
    assert(rule.closed(site));
    lemma_rule(site, cmd, replies, rule);
}

/// The auto mode that a command switches to.
pub open spec fn switched_mode(cmd: GpuCmd) -> Option<AutoMode> {
    match cmd {
        GpuCmd::GovernorOn => Some(AutoMode::Governor),
        GpuCmd::GovernorOff => Some(AutoMode::Released),
        GpuCmd::AutosleepOn => Some(AutoMode::Autosleep),
        _ => None,
    }
}

/// Whether an exchange loads settings that become `cfg` by the mode alone, without a manual pin.
pub open spec fn mode_taken(e: Exchange, mode: AutoMode, cfg: PowerConfig) -> bool {
    &&& e.action == Action::<Seq<char>>::Host(Op::LoadPower)
    &&& e.reply matches Reply::Power(loaded)
    &&& cfg == (PowerConfig { force_mhz: None, auto_mode: mode, ..loaded })
}

/// Law: a switch of the auto mode drops the manual pin, which would shadow the mode at the next
/// boot, and changes nothing else of the settings.
pub proof fn law_mode_switch_drops_the_pin(
    site: Site,
    cmd: GpuCmd,
    mode: AutoMode,
    replies: Seq<Reply>,
    cfg: PowerConfig,
)
    requires
        switched_mode(cmd) == Some(mode),
        gpu_course(site, cmd, replies).did(Op::SavePower(cfg)),
    ensures
        cfg.force_mhz is None,
        cfg.auto_mode == mode,
        witnessed(gpu_course(site, cmd, replies).history, |e: Exchange| mode_taken(e, mode, cfg)),
{
    let rule = Rule {
        held: |action: Action<Seq<char>>| action == Action::<Seq<char>>::Host(Op::SavePower(cfg)),
        key: |e: Exchange| mode_taken(e, mode, cfg),
        at: |action: Action<Seq<char>>, point: Point<Seq<char>>|
            point == Point::<Seq<char>>::At(Spot::SwitchMode(mode)) && action == Action::<
                Seq<char>,
            >::Host(Op::LoadPower),
        ..Rule::plain()
    };
    assert(rule.ordered(opening(site, Cmd::Gpu { action: cmd })));
    assert(rule.closed(site));
    lemma_rule(site, Cmd::Gpu { action: cmd }, replies, rule);
}

/// Whether an exchange saves settings with this mode and without a manual pin.
pub open spec fn mode_saved(e: Exchange, mode: AutoMode) -> bool {
    &&& e.action matches Action::Host(Op::SavePower(cfg))
    &&& cfg.force_mhz is None
    &&& cfg.auto_mode == mode
    &&& !(e.reply is Failed)
}

/// Law: a mode is enacted only once it is saved.
pub proof fn law_mode_is_enacted_once_saved(
    site: Site,
    cmd: GpuCmd,
    mode: AutoMode,
    replies: Seq<Reply>,
)
    requires
        switched_mode(cmd) == Some(mode),
        gpu_course(site, cmd, replies).did(Op::ApplyMode),
    ensures
        witnessed(gpu_course(site, cmd, replies).history, |e: Exchange| mode_saved(e, mode)),
{
    let rule = Rule {
        held: |action: Action<Seq<char>>| action == Action::<Seq<char>>::Host(Op::ApplyMode),
        key: |e: Exchange| mode_saved(e, mode),
        at: |action: Action<Seq<char>>, point: Point<Seq<char>>|
            point == Point::<Seq<char>>::At(Spot::SwitchMode(mode)),
        ..Rule::plain()
    };
    assert(rule.ordered(opening(site, Cmd::Gpu { action: cmd })));
    assert(rule.closed(site));
    lemma_rule(site, Cmd::Gpu { action: cmd }, replies, rule);
}

/// Law: a temperature cap out of range is refused before anything is done.
pub proof fn law_cap_out_of_range_does_nothing(site: Site, c: u32, replies: Seq<Reply>)
    requires
        !(60 <= c <= site.temp_max_c),
    ensures
        ({
            let course = gpu_course(site, GpuCmd::TempCap { c }, replies);
            &&& course.history == History::empty()
            &&& ended(course.plan) == Some(
                Outcome::Failed(
                    fault(
                        "gpu temp cap "@ + dec(c as nat) + " C outside 60-"@ + dec(
                            site.temp_max_c as nat,
                        ) + " C"@,
                    ),
                ),
            )
        }),
{
    lemma_ended(site, opening(site, Cmd::Gpu { action: GpuCmd::TempCap { c } }), replies);
}

/// Whether an exchange loads a CPU point that becomes `saved` by the GPU temperature cap alone.
pub open spec fn cap_taken(e: Exchange, c: u32, saved: CpuOc) -> bool {
    &&& e.action == Action::<Seq<char>>::Host(Op::LoadCpu)
    &&& e.reply matches Reply::Point(point)
    &&& saved == (CpuOc { gpu_temp_c: c, ..point })
}

/// Law: a temperature cap is persisted without a change to the CPU overclock.
pub proof fn law_cap_changes_nothing_else(
    site: Site,
    c: u32,
    replies: Seq<Reply>,
    saved: CpuOc,
)
    requires
        gpu_course(site, GpuCmd::TempCap { c }, replies).did(Op::SaveCpu(saved)),
    ensures
        60 <= c <= site.temp_max_c,
        witnessed(
            gpu_course(site, GpuCmd::TempCap { c }, replies).history,
            |e: Exchange| cap_taken(e, c, saved),
        ),
{
    let rule = Rule {
        held: |action: Action<Seq<char>>| action == Action::<Seq<char>>::Host(Op::SaveCpu(saved)),
        key: |e: Exchange| cap_taken(e, c, saved),
        at: |action: Action<Seq<char>>, point: Point<Seq<char>>|
            point matches Point::At(spot) && match spot {
                Spot::TempCap(n) => n == c && action == Action::<Seq<char>>::Host(Op::LoadCpu),
                Spot::TempCapOc(_) => true,
                _ => false,
            },
        ..Rule::plain()
    };
    let cmd = Cmd::Gpu { action: GpuCmd::TempCap { c } };
    assert(rule.ordered(opening(site, cmd)));
    assert(rule.closed(site));
    lemma_rule(site, cmd, replies, rule);
    if !(60 <= c <= site.temp_max_c) {
        lemma_ended(site, opening(site, cmd), replies);
    }
}

/// Law: the hardware limit is set only to the cap that was saved, and only where the mailbox is
/// open.
pub proof fn law_cap_is_saved_before_it_is_set(
    site: Site,
    c: u32,
    replies: Seq<Reply>,
    limit: u32,
)
    requires
        gpu_course(site, GpuCmd::TempCap { c }, replies).did(Op::SetGpuTemp(limit)),
    ensures
        limit == c,
        witnessed(
            gpu_course(site, GpuCmd::TempCap { c }, replies).history,
            |e: Exchange| cap_saved(e, c),
        ),
        witnessed(
            gpu_course(site, GpuCmd::TempCap { c }, replies).history,
            |e: Exchange|
                e.action == Action::<Seq<char>>::Host(Op::OpenOc) && !(e.reply is Failed),
        ),
{
    let at = |action: Action<Seq<char>>, point: Point<Seq<char>>|
        point matches Point::At(spot) && match spot {
            Spot::TempCap(n) => n == c,
            Spot::TempCapOc(n) => n == c && action == Action::<Seq<char>>::Host(Op::OpenOc),
            _ => false,
        };
    let exact = Rule {
        held: |action: Action<Seq<char>>|
            action matches Action::Host(Op::SetGpuTemp(n)) && n != c,
        at,
        ..Rule::plain()
    };
    let saved = Rule {
        held: |action: Action<Seq<char>>|
            action matches Action::Host(op) && op is SetGpuTemp,
        key: |e: Exchange| cap_saved(e, c),
        at: |action: Action<Seq<char>>, point: Point<Seq<char>>|
            point == Point::<Seq<char>>::At(Spot::TempCap(c)),
        ..Rule::plain()
    };
    let opened = Rule {
        held: |action: Action<Seq<char>>|
            action matches Action::Host(op) && op is SetGpuTemp,
        key: |e: Exchange|
            e.action == Action::<Seq<char>>::Host(Op::OpenOc) && !(e.reply is Failed),
        at,
        ..Rule::plain()
    };
    let cmd = Cmd::Gpu { action: GpuCmd::TempCap { c } };
    assert(exact.ordered(opening(site, cmd)));
    assert(exact.closed(site));
    lemma_rule(site, cmd, replies, exact);
    assert(gpu_course(site, GpuCmd::TempCap { c }, replies).handed(
        Action::Host(Op::SetGpuTemp(limit)),
    ));
    assert(saved.ordered(opening(site, cmd)));
    assert(saved.closed(site));
    lemma_rule(site, cmd, replies, saved);
    assert(opened.ordered(opening(site, cmd)));
    assert(opened.closed(site));
    lemma_rule(site, cmd, replies, opened);
}

/// Whether an exchange saves a CPU point with this GPU temperature cap.
pub open spec fn cap_saved(e: Exchange, c: u32) -> bool {
    &&& e.action matches Action::Host(Op::SaveCpu(point))
    &&& point.gpu_temp_c == c
    &&& !(e.reply is Failed)
}

/// The decisions of the commands that set a clock tier or the temperature cap.
spec fn setpoint_spot(spot: Spot) -> bool {
    tier_spot(spot) || spot is TopClock || spot is TopFloor || spot is TempCap
}

/// The last steps of a setpoint are the reload and a line.
proof fn lemma_reloads(site: Site, rule: Rule, spot: Spot, reply: Reply)
    requires
        setpoint_spot(spot),
        decision(site, Point::At(spot), reply) is Some,
        forall|e: Exchange| #[trigger]
            (rule.key)(e) <==> e.action == Action::<Seq<char>>::Host(Op::ReloadIfAuto),
        forall|a: Action<Seq<char>>| !(#[trigger] (rule.held)(a)),
        forall|o: Outcome<Seq<char>>| #[trigger] (rule.held_end)(o) <==> o is Success,
        forall|a: Action<Seq<char>>, point: Point<Seq<char>>| #[trigger]
            (rule.at)(a, point) <==> (point matches Point::At(p) && (setpoint_spot(p) || p is
            TempCapOc)),
        forall|point: Point<Seq<char>>| #[trigger]
            (rule.last)(point) <==> (point matches Point::At(p) && setpoint_spot(p)),
    ensures
        rule.decides(Point::At(spot), decision(site, Point::At(spot), reply)->0),
{
    let decided = decision(site, Point::At(spot), reply)->0;
    let n = decided.len() as int;
    assert(rule.settles(decided[n - 1]) || (n > 1 && rule.opens(decided[n - 2])));
}

/// Law: a setpoint that ends in success has had a running auto mode read its settings again.
pub proof fn law_setpoint_is_live(site: Site, cmd: GpuCmd, replies: Seq<Reply>)
    requires
        sets_tier(cmd) || cmd is TempCap,
        ended(gpu_course(site, cmd, replies).plan) == Some(Outcome::<Seq<char>>::Success),
    ensures
        done(gpu_course(site, cmd, replies).history, Action::Host(Op::ReloadIfAuto)),
{
    let rule = Rule {
        held_end: |o: Outcome<Seq<char>>| o is Success,
        key: |e: Exchange| e.action == Action::<Seq<char>>::Host(Op::ReloadIfAuto),
        at: |a: Action<Seq<char>>, point: Point<Seq<char>>|
            point matches Point::At(spot) && (setpoint_spot(spot) || spot is TempCapOc),
        last: |point: Point<Seq<char>>| point matches Point::At(spot) && setpoint_spot(spot),
        ..Rule::plain()
    };
    let plan = opening(site, Cmd::Gpu { action: cmd });
    assert(rule.settles(plan[plan.len() - 1]));
    assert(rule.ordered(plan));
    assert forall|a: Action<Seq<char>>, point: Point<Seq<char>>, reply: Reply|
        #![trigger (rule.at)(a, point), decision(site, point, reply)]
        (rule.at)(a, point) && decision(site, point, reply) is Some implies (rule.key)(
        Exchange { action: a, reply },
    ) || rule.decides(point, decision(site, point, reply)->0) by {
        if setpoint_spot(point->At_0) {
            lemma_reloads(site, rule, point->At_0, reply);
        }
    }
    lemma_rule(site, Cmd::Gpu { action: cmd }, replies, rule);
}

} // verus!
