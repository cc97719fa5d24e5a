//! A command that ends in success has done what it is for.
use vstd::prelude::*;

use crate::cli::opening;
use crate::commands::{Cmd, CpuCmd, CuCmd, GpuCmd, ProfileCmd};
use crate::cu::masks_of;
use crate::decide::decision;
use crate::gpu::clamp_clock;
use crate::laws_setpoint::switched_mode;
use crate::model::{Reply, Site};
use crate::order::{lemma_rule, Rule};
use crate::plan::{maybe, Action, BuildRequest, Op, Outcome, Plan, Point, Spot};
use crate::session::ended;
use crate::trace::{course, witnessed, Exchange};

verus! {

/// Whether an action is what a CU command is for.
pub open spec fn cu_purpose(cmd: CuCmd, op: Op) -> bool {
    match cmd {
        CuCmd::Enable => op == Op::ArmCu,
        CuCmd::Disable => op == Op::DisarmCu,
        CuCmd::RouteAll => op == Op::RouteAll,
        CuCmd::RouteFactory => op == Op::RouteFactory,
        CuCmd::Route { masks, force_unsafe } => op == if force_unsafe {
            Op::ApplyRouteForced(masks_of(masks.deep_view()))
        } else {
            Op::ApplyRoute(masks_of(masks.deep_view()))
        },
        CuCmd::Toggle { array, wgp, force_unsafe } => op == (Op::ToggleWgp {
            array,
            wgp,
            force_unsafe,
        }),
        CuCmd::Bench { masks } => op is BenchRoute && (masks@.len() > 0 ==> op == Op::BenchRoute(
            masks_of(masks.deep_view()),
        )),
        CuCmd::RouteSave => op == Op::SaveRoute,
        CuCmd::RouteLoad => op == Op::ApplySavedRoute,
        _ => false,
    }
}

/// Whether a CU command is for an action of its own.
pub open spec fn cu_acts(cmd: CuCmd) -> bool {
    !(cmd is Status || cmd is RouteForget || cmd is Test)
}

/// Whether an action is what a GPU command is for.
pub open spec fn gpu_purpose(site: Site, cmd: GpuCmd, op: Op) -> bool {
    match cmd {
        GpuCmd::Force { mhz } => op == Op::ForceMode(mhz),
        GpuCmd::Unforce => op == Op::UnforceMode,
        GpuCmd::Pin { mhz } => op == Op::ForceClock(clamp_clock(site, mhz)),
        GpuCmd::Unpin => op == Op::ReleaseClock,
        GpuCmd::Vid { mv } => op matches Op::SavePower(cfg) && cfg.force_vid_mv == Some(mv),
        GpuCmd::UnforceVid => op matches Op::SavePower(cfg) && cfg.force_vid_mv is None,
        GpuCmd::Wake { override_pin } => op is ForceClock,
        GpuCmd::DeepSleep { override_pin } => op is ForceClock,
        GpuCmd::SetTop { mhz } => op matches Op::SaveGovernor(g) && g.high_mhz == mhz,
        GpuCmd::SetMid { mhz } => op matches Op::SaveGovernor(g) && g.mid_mhz == mhz,
        GpuCmd::SetIdle { mhz } => op matches Op::SaveGovernor(g) && g.idle_mhz == mhz,
        GpuCmd::SetDeep { mhz } => op matches Op::SaveGovernor(g) && g.deep_mhz == mhz,
        GpuCmd::TempCap { c } => op matches Op::SaveCpu(point) && point.gpu_temp_c == c,
        GpuCmd::GovernorOn => op == Op::ApplyMode,
        GpuCmd::GovernorOff => op == Op::ApplyMode,
        GpuCmd::AutosleepOn => op == Op::ApplyMode,
        GpuCmd::Poke => op == Op::Poke,
        GpuCmd::Autosleep { idle, deep_force } => op == (Op::RunAutosleep { idle, deep_force }),
        GpuCmd::Governor => op is RunGovernor,
        _ => false,
    }
}

/// Whether a GPU command is for an action of its own.
pub open spec fn gpu_acts(cmd: GpuCmd) -> bool {
    !(cmd is Status || cmd is ApplyBoot || cmd is ApplySavedForce || cmd is Level || cmd is
    Telemetry)
}

/// Whether an action is what a CPU command is for.
pub open spec fn cpu_purpose(cmd: CpuCmd, op: Op) -> bool {
    match cmd {
        CpuCmd::Tune { boost, scale, cpu_temp, gpu_temp } => op matches Op::SaveCpu(point) && (
        boost matches Some(b) ==> point.boost_mhz == b) && (scale matches Some(s)
            ==> point.curve_scale == s) && (cpu_temp matches Some(c) ==> point.cpu_temp_c == c) && (
        gpu_temp matches Some(g) ==> point.gpu_temp_c == g),
        CpuCmd::Undervolt { boost, vid_cap } => op matches Op::ApplyCpu(point) && point.boost_mhz
            == boost,
        CpuCmd::Vid { mv } => op == Op::ForceCpuVid(mv),
        CpuCmd::VidAuto => op == Op::ReleaseCpuVid,
        CpuCmd::Restore => op == Op::RestoreCpu,
        CpuCmd::Detect { target, vid_cap, temp, step, dwell, save } => op is DetectCpu,
        _ => false,
    }
}

/// Whether a CPU command is for an action of its own.
pub open spec fn cpu_acts(cmd: CpuCmd) -> bool {
    !(cmd is Status || cmd is ApplySaved)
}

/// Whether an action has been done.
pub open spec fn did_well(e: Exchange, purpose: spec_fn(Op) -> bool) -> bool {
    (e.action matches Action::Host(op) && purpose(op)) && !(e.reply is Failed)
}

/// A rule under which success waits for the purpose of a command.
spec fn success_rule(
    purpose: spec_fn(Op) -> bool,
    at: spec_fn(Action<Seq<char>>, Point<Seq<char>>) -> bool,
) -> Rule {
    Rule {
        held_end: |o: Outcome<Seq<char>>| o is Success,
        key: |e: Exchange| did_well(e, purpose),
        at,
        ..Rule::plain()
    }
}

/// Whether one of the first or last steps of a plan settles its end.
spec fn settled_at_the_ends(rule: Rule, plan: Plan) -> bool {
    let n = plan.len() as int;
    ||| n > 0 && rule.settles(plan[0])
    ||| n > 1 && rule.settles(plan[1])
    ||| n > 0 && rule.settles(plan[n - 1])
    ||| n > 1 && rule.settles(plan[n - 2])
    ||| n > 2 && rule.settles(plan[n - 3])
}

proof fn lemma_settled_at_the_ends(rule: Rule, plan: Plan)
    requires
        settled_at_the_ends(rule, plan),
    ensures
        rule.settled(plan),
{
}

/// A plan is in order where one of its first or last steps settles its end.
proof fn lemma_decides(rule: Rule, point: Point<Seq<char>>, decided: Plan)
    requires
        rule.ordered(decided),
        settled_at_the_ends(rule, decided),
    ensures
        rule.decides(point, decided),
{
    lemma_settled_at_the_ends(rule, decided);
}

spec fn cu_rule(cmd: CuCmd) -> Rule {
    success_rule(
        |op: Op| cu_purpose(cmd, op),
        |action: Action<Seq<char>>, point: Point<Seq<char>>|
            point matches Point::At(spot) && match spot {
                Spot::Toggled { .. } => action matches Action::Host(op) && cu_purpose(cmd, op),
                Spot::SavedRoute => action matches Action::Host(op) && cu_purpose(cmd, op),
                Spot::LoadedRoute => action matches Action::Host(op) && cu_purpose(cmd, op),
                Spot::BenchCurrent => cmd matches CuCmd::Bench { masks } && masks@.len() == 0,
                Spot::BenchShape(m) => cu_purpose(cmd, Op::BenchRoute(m)),
                Spot::BenchDone { .. } => action matches Action::Host(op) && cu_purpose(cmd, op),
                _ => false,
            },
    )
}

proof fn lemma_cu_opening(site: Site, cmd: CuCmd)
    requires
        cu_acts(cmd),
    ensures
        cu_rule(cmd).ordered(opening(site, Cmd::Cu { action: cmd })),
        cu_rule(cmd).settled(opening(site, Cmd::Cu { action: cmd })),
{
    let plan = opening(site, Cmd::Cu { action: cmd });
    assert(settled_at_the_ends(cu_rule(cmd), plan));
    lemma_settled_at_the_ends(cu_rule(cmd), plan);
}

/// Law: a CU command that ends in success has done what it is for.
pub proof fn law_cu_success(site: Site, cmd: CuCmd, replies: Seq<Reply>)
    requires
        cu_acts(cmd),
        ended(course(site, Cmd::Cu { action: cmd }, replies).plan) == Some(
            Outcome::<Seq<char>>::Success,
        ),
    ensures
        witnessed(
            course(site, Cmd::Cu { action: cmd }, replies).history,
            |e: Exchange| did_well(e, |op: Op| cu_purpose(cmd, op)),
        ),
{
    let rule = cu_rule(cmd);
    lemma_cu_opening(site, cmd);
    assert forall|action: Action<Seq<char>>, point: Point<Seq<char>>, reply: Reply|
        #![trigger (rule.at)(action, point), decision(site, point, reply)]
        (rule.at)(action, point) && decision(site, point, reply) is Some implies (rule.key)(
        Exchange { action, reply },
    ) || rule.decides(point, decision(site, point, reply)->0) by {
        if !(rule.key)(Exchange { action, reply }) {
            let decided = decision(site, point, reply)->0;
            assert(settled_at_the_ends(rule, decided));
            lemma_decides(rule, point, decided);
        }
    }
    lemma_rule(site, Cmd::Cu { action: cmd }, replies, rule);
}

/// The decisions of a GPU command before it has done what it is for.
spec fn gpu_at(
    site: Site,
    cmd: GpuCmd,
    action: Action<Seq<char>>,
    point: Point<Seq<char>>,
) -> bool {
    let serves = action matches Action::Host(op) && gpu_purpose(site, cmd, op);
    point matches Point::At(spot) && match spot {
        Spot::Forced(_) => serves,
        Spot::Unforced => serves,
        Spot::PinConfig(m) => cmd == (GpuCmd::Pin { mhz: m }),
        Spot::PinRaise(target) => gpu_purpose(site, cmd, Op::ForceClock(target)),
        Spot::PinVddc { target, raise } => gpu_purpose(site, cmd, Op::ForceClock(target)),
        Spot::PinForced => serves,
        Spot::VidPower(v) => cmd == (GpuCmd::Vid { mv: v }),
        Spot::VidGovernor { mv: v, cfg } => cmd == (GpuCmd::Vid { mv: v }),
        Spot::VidClock { mv: v, cfg } => cmd == (GpuCmd::Vid { mv: v }),
        Spot::VidFloor { mv: v, cfg, clk } => cmd == (GpuCmd::Vid { mv: v }),
        Spot::VidSet { mv: v, cfg } => cmd == (GpuCmd::Vid { mv: v }),
        Spot::VidReset => cmd is UnforceVid,
        Spot::VidCleared => cmd is UnforceVid,
        Spot::Wake { .. } => cmd is Wake,
        Spot::DeepSleep { .. } => cmd is DeepSleep,
        Spot::TopPower(m) => cmd == (GpuCmd::SetTop { mhz: m }),
        Spot::TopSet(m) => cmd == (GpuCmd::SetTop { mhz: m }),
        Spot::TopGovernor { mhz: m, cfg } => cmd == (GpuCmd::SetTop { mhz: m }),
        Spot::TopClock { mhz: m, cfg, governor } => gpu_purpose(
            site,
            cmd,
            Op::SaveGovernor(governor),
        ),
        Spot::TopFloor { mhz: m, cfg, governor, clk } => gpu_purpose(
            site,
            cmd,
            Op::SaveGovernor(governor),
        ),
        Spot::SetMid(m) => cmd == (GpuCmd::SetMid { mhz: m }),
        Spot::SetIdle(m) => cmd == (GpuCmd::SetIdle { mhz: m }),
        Spot::DeepPower(m) => cmd == (GpuCmd::SetDeep { mhz: m }),
        Spot::DeepSet(m) => cmd == (GpuCmd::SetDeep { mhz: m }),
        Spot::DeepGovernor { mhz: m, cfg } => cmd == (GpuCmd::SetDeep { mhz: m }),
        Spot::TempCap(c) => cmd == (GpuCmd::TempCap { c }),
        Spot::SwitchMode(mode) => switched_mode(cmd) == Some(mode),
        Spot::StartGovernor => cmd is Governor,
        _ => false,
    }
}

spec fn gpu_rule(site: Site, cmd: GpuCmd) -> Rule {
    success_rule(
        |op: Op| gpu_purpose(site, cmd, op),
        |action: Action<Seq<char>>, point: Point<Seq<char>>| gpu_at(site, cmd, action, point),
    )
}

proof fn lemma_gpu_opening(site: Site, cmd: GpuCmd)
    requires
        gpu_acts(cmd),
    ensures
        gpu_rule(site, cmd).ordered(opening(site, Cmd::Gpu { action: cmd })),
        gpu_rule(site, cmd).settled(opening(site, Cmd::Gpu { action: cmd })),
{
    let plan = opening(site, Cmd::Gpu { action: cmd });
    assert(settled_at_the_ends(gpu_rule(site, cmd), plan));
    lemma_settled_at_the_ends(gpu_rule(site, cmd), plan);
}

/// The decisions of the pins.
spec fn pin_spot(spot: Spot) -> bool {
    match spot {
        Spot::Forced(_) => true,
        Spot::Unforced => true,
        Spot::PinConfig(_) => true,
        Spot::PinRaise(_) => true,
        Spot::PinVddc { .. } => true,
        Spot::PinForced => true,
        _ => false,
    }
}

/// The decisions of the voltage.
spec fn vid_spot(spot: Spot) -> bool {
    match spot {
        Spot::VidPower(_) => true,
        Spot::VidGovernor { .. } => true,
        Spot::VidClock { .. } => true,
        Spot::VidFloor { .. } => true,
        Spot::VidSet { .. } => true,
        Spot::VidReset => true,
        Spot::VidCleared => true,
        _ => false,
    }
}

/// The decisions of the top clock.
spec fn top_spot(spot: Spot) -> bool {
    match spot {
        Spot::TopPower(_) => true,
        Spot::TopSet(_) => true,
        Spot::TopGovernor { .. } => true,
        Spot::TopClock { .. } => true,
        Spot::TopFloor { .. } => true,
        _ => false,
    }
}

proof fn lemma_pin_decision(
    site: Site,
    cmd: GpuCmd,
    action: Action<Seq<char>>,
    spot: Spot,
    reply: Reply,
)
    requires
        gpu_acts(cmd),
        pin_spot(spot),
        gpu_at(site, cmd, action, Point::At(spot)),
        decision(site, Point::At(spot), reply) is Some,
        !(gpu_rule(site, cmd).key)(Exchange { action, reply }),
    ensures
        gpu_rule(site, cmd).decides(Point::At(spot), decision(site, Point::At(spot), reply)->0),
{
    let rule = gpu_rule(site, cmd);
    let decided = decision(site, Point::At(spot), reply)->0;
    assert(settled_at_the_ends(rule, decided));
    lemma_decides(rule, Point::At(spot), decided);
}

proof fn lemma_vid_decision(
    site: Site,
    cmd: GpuCmd,
    action: Action<Seq<char>>,
    spot: Spot,
    reply: Reply,
)
    requires
        gpu_acts(cmd),
        vid_spot(spot),
        gpu_at(site, cmd, action, Point::At(spot)),
        decision(site, Point::At(spot), reply) is Some,
        !(gpu_rule(site, cmd).key)(Exchange { action, reply }),
    ensures
        gpu_rule(site, cmd).decides(Point::At(spot), decision(site, Point::At(spot), reply)->0),
{
    let rule = gpu_rule(site, cmd);
    let decided = decision(site, Point::At(spot), reply)->0;
    assert(settled_at_the_ends(rule, decided));
    lemma_decides(rule, Point::At(spot), decided);
}

proof fn lemma_top_decision(
    site: Site,
    cmd: GpuCmd,
    action: Action<Seq<char>>,
    spot: Spot,
    reply: Reply,
)
    requires
        gpu_acts(cmd),
        top_spot(spot),
        gpu_at(site, cmd, action, Point::At(spot)),
        decision(site, Point::At(spot), reply) is Some,
        !(gpu_rule(site, cmd).key)(Exchange { action, reply }),
    ensures
        gpu_rule(site, cmd).decides(Point::At(spot), decision(site, Point::At(spot), reply)->0),
{
    let rule = gpu_rule(site, cmd);
    let decided = decision(site, Point::At(spot), reply)->0;
    assert(settled_at_the_ends(rule, decided));
    lemma_decides(rule, Point::At(spot), decided);
}

proof fn lemma_other_decision(
    site: Site,
    cmd: GpuCmd,
    action: Action<Seq<char>>,
    spot: Spot,
    reply: Reply,
)
    requires
        gpu_acts(cmd),
        !pin_spot(spot),
        !vid_spot(spot),
        !top_spot(spot),
        gpu_at(site, cmd, action, Point::At(spot)),
        decision(site, Point::At(spot), reply) is Some,
        !(gpu_rule(site, cmd).key)(Exchange { action, reply }),
    ensures
        gpu_rule(site, cmd).decides(Point::At(spot), decision(site, Point::At(spot), reply)->0),
{
    let rule = gpu_rule(site, cmd);
    let decided = decision(site, Point::At(spot), reply)->0;
    assert(settled_at_the_ends(rule, decided));
    lemma_decides(rule, Point::At(spot), decided);
}

/// Law: a GPU command that ends in success has done what it is for.
pub proof fn law_gpu_success(site: Site, cmd: GpuCmd, replies: Seq<Reply>)
    requires
        gpu_acts(cmd),
        ended(course(site, Cmd::Gpu { action: cmd }, replies).plan) == Some(
            Outcome::<Seq<char>>::Success,
        ),
    ensures
        witnessed(
            course(site, Cmd::Gpu { action: cmd }, replies).history,
            |e: Exchange| did_well(e, |op: Op| gpu_purpose(site, cmd, op)),
        ),
{
    let rule = gpu_rule(site, cmd);
    lemma_gpu_opening(site, cmd);
    assert forall|action: Action<Seq<char>>, point: Point<Seq<char>>, reply: Reply|
        #![trigger (rule.at)(action, point), decision(site, point, reply)]
        (rule.at)(action, point) && decision(site, point, reply) is Some implies (rule.key)(
        Exchange { action, reply },
    ) || rule.decides(point, decision(site, point, reply)->0) by {
        if !(rule.key)(Exchange { action, reply }) {
            let spot = point->At_0;
            if pin_spot(spot) {
                lemma_pin_decision(site, cmd, action, spot, reply);
            } else if vid_spot(spot) {
                lemma_vid_decision(site, cmd, action, spot, reply);
            } else if top_spot(spot) {
                lemma_top_decision(site, cmd, action, spot, reply);
            } else {
                lemma_other_decision(site, cmd, action, spot, reply);
            }
        }
    }
    lemma_rule(site, Cmd::Gpu { action: cmd }, replies, rule);
}

spec fn cpu_rule(cmd: CpuCmd) -> Rule {
    success_rule(
        |op: Op| cpu_purpose(cmd, op),
        |action: Action<Seq<char>>, point: Point<Seq<char>>|
            match point {
                Point::At(spot) => match spot {
                    Spot::CpuTune { boost, scale, cpu_temp, gpu_temp } => cmd == (CpuCmd::Tune {
                        boost,
                        scale,
                        cpu_temp,
                        gpu_temp,
                    }),
                    Spot::CpuTuned(p) => cpu_purpose(cmd, Op::SaveCpu(p)),
                    Spot::UndervoltScale(b) => cmd matches CpuCmd::Undervolt { boost, vid_cap } && b
                        == boost,
                    Spot::UndervoltBase { boost: b, scale } => cmd matches CpuCmd::Undervolt {
                        boost,
                        vid_cap,
                    } && b == boost,
                    _ => false,
                },
                Point::Detected(_) => action matches Action::Host(op) && cpu_purpose(cmd, op),
                _ => false,
            },
    )
}

proof fn lemma_cpu_opening(site: Site, cmd: CpuCmd)
    requires
        cpu_acts(cmd),
    ensures
        cpu_rule(cmd).ordered(opening(site, Cmd::Cpu { action: cmd })),
        cpu_rule(cmd).settled(opening(site, Cmd::Cpu { action: cmd })),
{
    let plan = opening(site, Cmd::Cpu { action: cmd });
    assert(settled_at_the_ends(cpu_rule(cmd), plan));
    lemma_settled_at_the_ends(cpu_rule(cmd), plan);
}

/// Law: a CPU command that ends in success has done what it is for.
pub proof fn law_cpu_success(site: Site, cmd: CpuCmd, replies: Seq<Reply>)
    requires
        cpu_acts(cmd),
        ended(course(site, Cmd::Cpu { action: cmd }, replies).plan) == Some(
            Outcome::<Seq<char>>::Success,
        ),
    ensures
        witnessed(
            course(site, Cmd::Cpu { action: cmd }, replies).history,
            |e: Exchange| did_well(e, |op: Op| cpu_purpose(cmd, op)),
        ),
{
    let rule = cpu_rule(cmd);
    lemma_cpu_opening(site, cmd);
    assert forall|action: Action<Seq<char>>, point: Point<Seq<char>>, reply: Reply|
        #![trigger (rule.at)(action, point), decision(site, point, reply)]
        (rule.at)(action, point) && decision(site, point, reply) is Some implies (rule.key)(
        Exchange { action, reply },
    ) || rule.decides(point, decision(site, point, reply)->0) by {
        if !(rule.key)(Exchange { action, reply }) {
            let decided = decision(site, point, reply)->0;
            if let Point::At(spot) = point {
                if spot is CpuTuned {
                    assert(rule.opens(decided[decided.len() - 2]));
                } else if spot is UndervoltBase {
                    assert(rule.opens(decided[0]));
                }
            }
            assert(settled_at_the_ends(rule, decided));
            lemma_decides(rule, point, decided);
        }
    }
    lemma_rule(site, Cmd::Cpu { action: cmd }, replies, rule);
}

/// Law: a build, a deletion and a performance level that end in success have been made.
pub proof fn law_named_action_success(
    site: Site,
    cmd: Cmd,
    replies: Seq<Reply>,
    action: Action<Seq<char>>,
)
    requires
        named_purpose(cmd) == Some(action),
        ended(course(site, cmd, replies).plan) == Some(Outcome::<Seq<char>>::Success),
    ensures
        crate::trace::succeeded(course(site, cmd, replies).history, action),
{
    let rule = Rule {
        held_end: |o: Outcome<Seq<char>>| o is Success,
        key: |e: Exchange| e.action == action && !(e.reply is Failed),
        at: |a: Action<Seq<char>>, point: Point<Seq<char>>|
            point matches Point::Level { level, override_pin } && action
                == Action::SetPerformanceLevel(level),
        ..Rule::plain()
    };
    let plan = opening(site, cmd);
    assert(rule.settles(plan[0]));
    assert(rule.ordered(plan));
    assert forall|a: Action<Seq<char>>, point: Point<Seq<char>>, reply: Reply|
        #![trigger (rule.at)(a, point), decision(site, point, reply)]
        (rule.at)(a, point) && decision(site, point, reply) is Some implies (rule.key)(
        Exchange { action: a, reply },
    ) || rule.decides(point, decision(site, point, reply)->0) by {
        let decided = decision(site, point, reply)->0;
        assert(settled_at_the_ends(rule, decided));
        lemma_decides(rule, point, decided);
    }
    lemma_rule(site, cmd, replies, rule);
}

/// The action with a name that a command is for.
pub open spec fn named_purpose(cmd: Cmd) -> Option<Action<Seq<char>>> {
    match cmd {
        Cmd::Build { pkgbuild, target, run } => Some(
            Action::Build {
                request: BuildRequest { pkgbuild, target: maybe(target), run },
                cc_mode: None,
            },
        ),
        Cmd::Profile { action: ProfileCmd::Delete { name } } => Some(Action::DeleteProfile(name@)),
        Cmd::Gpu { action: GpuCmd::Level { level, override_pin } } => Some(
            Action::SetPerformanceLevel(level@),
        ),
        _ => None,
    }
}

} // verus!
