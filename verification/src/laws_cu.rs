//! Laws of the CU commands.
use vstd::prelude::*;

use crate::cli::opening;
use crate::commands::{Cmd, CuCmd};
use crate::cu::{mask_value, masks_error, masks_of, FULL_MASK};
use crate::decide::decision;
use crate::laws_gpu::persists;
use crate::laws_report::harmless;
use crate::model::{fault, Reply, Site};
use crate::order::{lemma_rule, Rule};
use crate::plan::{Action, Op, Outcome, Point, Spot};
use crate::session::ended;
use crate::trace::{answered, course, lemma_ended, succeeded, witnessed, Course, Exchange, History};

verus! {

/// The course of a CU command.
pub open spec fn cu_course(site: Site, action: CuCmd, replies: Seq<Reply>) -> Course {
    course(site, Cmd::Cu { action }, replies)
}

/// The decisions of the CU commands.
spec fn cu_point(point: Point<Seq<char>>) -> bool {
    match point {
        Point::At(spot) => match spot {
            Spot::CuArmed => true,
            Spot::CuPersisted => true,
            Spot::CuStatusMap => true,
            Spot::LiveRoute => true,
            Spot::LiveShape(_) => true,
            Spot::RouteArmed => true,
            Spot::CuEnabled => true,
            Spot::RouteSaved(_) => true,
            Spot::RoutePersisted(_) => true,
            Spot::RoutedShape(..) => true,
            Spot::Toggled { .. } => true,
            Spot::BenchCurrent => true,
            Spot::BenchShape(_) => true,
            Spot::BenchDone { .. } => true,
            Spot::SavedRoute => true,
            Spot::SavedRouteArmed(_) => true,
            Spot::SavedRouteCount { .. } => true,
            Spot::LoadedRoute => true,
            Spot::LoadedRouteCount(_) => true,
            Spot::KatReady { .. } => true,
            Spot::KatFull { .. } => true,
            Spot::KatSwept => true,
            _ => false,
        },
        Point::BenchPerCu { .. } => true,
        _ => false,
    }
}

/// Whether a command asks for the guard against empty shader arrays to be bypassed.
pub open spec fn forces_unsafe(cmd: CuCmd) -> bool {
    match cmd {
        CuCmd::Route { masks, force_unsafe } => force_unsafe,
        CuCmd::Toggle { array, wgp, force_unsafe } => force_unsafe,
        _ => false,
    }
}

/// Whether an action bypasses the guard against empty shader arrays.
pub open spec fn bypasses(op: Op) -> bool {
    match op {
        Op::ApplyRouteForced(_) => true,
        Op::ToggleWgp { array, wgp, force_unsafe } => force_unsafe,
        _ => false,
    }
}

/// Law: the guard against empty shader arrays is bypassed only where the command line asks for it.
pub proof fn law_empty_arrays_are_refused(site: Site, cmd: CuCmd, replies: Seq<Reply>, op: Op)
    requires
        !forces_unsafe(cmd),
        cu_course(site, cmd, replies).did(op),
    ensures
        !bypasses(op),
{
    let rule = Rule {
        held: |action: Action<Seq<char>>| action matches Action::Host(o) && bypasses(o),
        at: |action: Action<Seq<char>>, point: Point<Seq<char>>| cu_point(point),
        ..Rule::plain()
    };
    assert(rule.ordered(opening(site, Cmd::Cu { action: cmd })));
    assert(rule.closed(site));
    lemma_rule(site, Cmd::Cu { action: cmd }, replies, rule);
    assert(cu_course(site, cmd, replies).handed(Action::Host(op)));
}

/// A command that saves no routing arms none.
proof fn lemma_arms_nothing(site: Site, cmd: CuCmd, replies: Seq<Reply>)
    requires
        !is_routing(cmd),
        !(cmd is RouteSave),
    ensures
        !cu_course(site, cmd, replies).did(Op::ArmRoute),
{
    let rule = Rule {
        held: |action: Action<Seq<char>>| action == Action::<Seq<char>>::Host(Op::ArmRoute),
        at: |action: Action<Seq<char>>, point: Point<Seq<char>>|
            cu_point(point) && match point {
                Point::At(spot) => !(spot is RouteSaved || spot is SavedRoute || spot is Toggled),
                _ => true,
            },
        ..Rule::plain()
    };
    assert(rule.ordered(opening(site, Cmd::Cu { action: cmd })));
    assert(rule.closed(site));
    lemma_rule(site, Cmd::Cu { action: cmd }, replies, rule);
}

/// Law: the boot re-apply of a routing is armed only once the routing was saved.
pub proof fn law_route_is_saved_before_it_is_armed(site: Site, cmd: CuCmd, replies: Seq<Reply>)
    requires
        cu_course(site, cmd, replies).did(Op::ArmRoute),
    ensures
        succeeded(cu_course(site, cmd, replies).history, Action::Host(Op::SaveRoute)),
{
    if !is_routing(cmd) && !(cmd is RouteSave) {
        lemma_arms_nothing(site, cmd, replies);
    }
    let saves = Action::<Seq<char>>::Host(Op::SaveRoute);
    let rule = Rule {
        held: |action: Action<Seq<char>>| action == Action::<Seq<char>>::Host(Op::ArmRoute),
        key: |e: Exchange| e.action == saves && !(e.reply is Failed),
        at: |action: Action<Seq<char>>, point: Point<Seq<char>>|
            point matches Point::At(spot) && match spot {
                Spot::RouteSaved(_) => action == saves,
                Spot::SavedRoute => action == saves,
                Spot::RoutePersisted(_) => true,
                Spot::RoutedShape(..) => true,
                Spot::Toggled { .. } => true,
                _ => false,
            },
        ..Rule::plain()
    };
    assert(rule.ordered(opening(site, Cmd::Cu { action: cmd })));
    assert(rule.closed(site));
    lemma_rule(site, Cmd::Cu { action: cmd }, replies, rule);
}

/// Whether an action routes.
pub open spec fn routes(op: Op) -> bool {
    match op {
        Op::RouteAll => true,
        Op::RouteFactory => true,
        Op::ApplyRoute(_) => true,
        Op::ApplyRouteForced(_) => true,
        Op::ToggleWgp { .. } => true,
        _ => false,
    }
}

/// Whether a command routes and then saves what it routed.
pub open spec fn is_routing(cmd: CuCmd) -> bool {
    cmd is RouteAll || cmd is RouteFactory || cmd is Route || cmd is Toggle
}

/// Law: a routing is saved only once it was applied.
pub proof fn law_route_is_applied_before_it_is_saved(site: Site, cmd: CuCmd, replies: Seq<Reply>)
    requires
        is_routing(cmd),
        cu_course(site, cmd, replies).did(Op::SaveRoute),
    ensures
        witnessed(cu_course(site, cmd, replies).history, |e: Exchange| routed(e)),
{
    let rule = Rule {
        held: |action: Action<Seq<char>>| action == Action::<Seq<char>>::Host(Op::SaveRoute),
        key: |e: Exchange| routed(e),
        at: |action: Action<Seq<char>>, point: Point<Seq<char>>|
            (action matches Action::Host(op) && op is ToggleWgp) && (point matches Point::At(spot)
                && spot is Toggled),
        ..Rule::plain()
    };
    let plan = opening(site, Cmd::Cu { action: cmd });
    match cmd {
        CuCmd::RouteAll | CuCmd::RouteFactory => {
            assert(rule.opens(plan[0]));
        },
        CuCmd::Route { masks, force_unsafe } => {
            if masks_error(masks.deep_view()) is None {
                let i: int = if force_unsafe {
                    1
                } else {
                    0
                };
                assert(rule.opens(plan[i]));
            }
        },
        _ => {},
    }
    assert(rule.ordered(plan));
    assert forall|action: Action<Seq<char>>, point: Point<Seq<char>>, reply: Reply|
        #![trigger (rule.at)(action, point), decision(site, point, reply)]
        (rule.at)(action, point) && decision(site, point, reply) is Some implies (rule.key)(
        Exchange { action, reply },
    ) || rule.decides(point, decision(site, point, reply)->0) by {
        assert(reply is Masks);
    }
    lemma_rule(site, Cmd::Cu { action: cmd }, replies, rule);
}

/// Whether an exchange routes.
pub open spec fn routed(e: Exchange) -> bool {
    (e.action matches Action::Host(op) && routes(op)) && !(e.reply is Failed)
}

/// The masks that an action routes or benches, if it does.
pub open spec fn masks_in(op: Op) -> Option<[u32; 4]> {
    match op {
        Op::ApplyRoute(m) => Some(m),
        Op::ApplyRouteForced(m) => Some(m),
        Op::BenchRoute(m) => Some(m),
        _ => None,
    }
}

/// The low bits of a number are no more than the mask of all of them.
proof fn lemma_low_bits(n: u32)
    ensures
        n & FULL_MASK <= FULL_MASK,
{
    assert(n & 0x1f <= 0x1f) by (bit_vector);
}

/// Law: of every mask on the command line, only the five bits of the WGPs get through.
pub proof fn law_masks_hold_wgp_bits_alone(masks: Seq<Seq<char>>, i: int)
    requires
        masks_error(masks) is None,
        0 <= i < 4,
    ensures
        masks.len() == 4,
        masks_of(masks)[i] == mask_value(masks[i])->0,
        masks_of(masks)[i] <= FULL_MASK,
{
    lemma_low_bits(crate::scan::hex_u32(crate::scan::strip_0x(masks[0]))->0);
    lemma_low_bits(crate::scan::hex_u32(crate::scan::strip_0x(masks[1]))->0);
    lemma_low_bits(crate::scan::hex_u32(crate::scan::strip_0x(masks[2]))->0);
    lemma_low_bits(crate::scan::hex_u32(crate::scan::strip_0x(masks[3]))->0);
}

/// Law: `route` applies the masks of the command line and no others.
pub proof fn law_route_applies_the_masks(
    site: Site,
    masks: Vec<String>,
    force_unsafe: bool,
    replies: Seq<Reply>,
    op: Op,
)
    requires
        masks_in(op) is Some,
        cu_course(site, CuCmd::Route { masks, force_unsafe }, replies).did(op),
    ensures
        masks_error(masks.deep_view()) is None,
        op == if force_unsafe {
            Op::ApplyRouteForced(masks_of(masks.deep_view()))
        } else {
            Op::ApplyRoute(masks_of(masks.deep_view()))
        },
{
    let cmd = Cmd::Cu { action: CuCmd::Route { masks, force_unsafe } };
    let m = masks_of(masks.deep_view());
    let rule = Rule {
        held: |action: Action<Seq<char>>|
            action matches Action::Host(o) && masks_in(o) is Some && o != if force_unsafe {
                Op::ApplyRouteForced(m)
            } else {
                Op::ApplyRoute(m)
            },
        at: |action: Action<Seq<char>>, point: Point<Seq<char>>|
            point matches Point::At(spot) && (spot is RouteSaved || spot is RoutePersisted
                || spot is RoutedShape),
        ..Rule::plain()
    };
    assert(rule.ordered(opening(site, cmd)));
    assert(rule.closed(site));
    lemma_rule(site, cmd, replies, rule);
    assert(course(site, cmd, replies).handed(Action::Host(op)));
    if masks_error(masks.deep_view()) is Some {
        lemma_ended(site, opening(site, cmd), replies);
    }
}

/// Whether an action is a step of a bench: it reads, it writes text, or it is the bench itself.
pub open spec fn benches(action: Action<Seq<char>>) -> bool {
    harmless(action) || (action matches Action::Host(op) && (op is BenchRoute || op is BenchPerCu))
}

/// Law: a bench leaves the routing as it is. Beside the bench itself it only reads and writes
/// text; it routes nothing, saves nothing and arms nothing.
pub proof fn law_bench_keeps_the_routing(
    site: Site,
    masks: Vec<String>,
    replies: Seq<Reply>,
    action: Action<Seq<char>>,
)
    requires
        cu_course(site, CuCmd::Bench { masks }, replies).handed(action),
    ensures
        benches(action),
        !persists(action),
        action matches Action::Host(op) ==> !routes(op) && op != Op::SaveRoute && op
            != Op::ApplySavedRoute && op != Op::ArmRoute && op != Op::DisarmRoute,
{
    let rule = Rule {
        held: |a: Action<Seq<char>>| !benches(a),
        at: |a: Action<Seq<char>>, point: Point<Seq<char>>|
            match point {
                Point::At(spot) => spot is BenchCurrent || spot is BenchShape || spot is BenchDone,
                Point::BenchPerCu { .. } => true,
                _ => false,
            },
        ..Rule::plain()
    };
    let cmd = Cmd::Cu { action: CuCmd::Bench { masks } };
    assert(rule.ordered(opening(site, cmd)));
    assert(rule.closed(site));
    lemma_rule(site, cmd, replies, rule);
}

/// Law: a bench runs the masks of the command line, or the live ones where none are given.
pub proof fn law_bench_runs_the_masks(
    site: Site,
    masks: Vec<String>,
    replies: Seq<Reply>,
    m: [u32; 4],
)
    requires
        cu_course(site, CuCmd::Bench { masks }, replies).did(Op::BenchRoute(m)),
    ensures
        masks@.len() > 0 ==> masks_error(masks.deep_view()) is None && m == masks_of(
            masks.deep_view(),
        ),
        masks@.len() == 0 ==> answered(
            cu_course(site, CuCmd::Bench { masks }, replies).history,
            Action::Host(Op::CurrentMasks),
            Reply::Masks(m),
        ),
{
    let cmd = Cmd::Cu { action: CuCmd::Bench { masks } };
    let live = Action::<Seq<char>>::Host(Op::CurrentMasks);
    let given = masks@.len() > 0;
    let rule = Rule {
        held: |a: Action<Seq<char>>|
            a == Action::<Seq<char>>::Host(Op::BenchRoute(m)) && !(given && masks_error(
                masks.deep_view(),
            ) is None && m == masks_of(masks.deep_view())),
        key: |e: Exchange| !given && e.action == live && e.reply == Reply::Masks(m),
        at: |a: Action<Seq<char>>, point: Point<Seq<char>>|
            match point {
                Point::At(spot) => match spot {
                    Spot::BenchCurrent => !given && a == live,
                    Spot::BenchShape(n) => n != m || (given && masks_error(masks.deep_view()) is None
                        && m == masks_of(masks.deep_view())),
                    Spot::BenchDone { .. } => true,
                    _ => false,
                },
                Point::BenchPerCu { .. } => true,
                _ => false,
            },
        ..Rule::plain()
    };
    assert(rule.ordered(opening(site, cmd)));
    assert(rule.closed(site));
    lemma_rule(site, cmd, replies, rule);
}

/// Law: masks that do not parse are refused before anything is done.
pub proof fn law_bad_masks_do_nothing(
    site: Site,
    masks: Vec<String>,
    force_unsafe: bool,
    message: Seq<char>,
    replies: Seq<Reply>,
)
    requires
        masks_error(masks.deep_view()) == Some(message),
    ensures
        ({
            let c = cu_course(site, CuCmd::Route { masks, force_unsafe }, replies);
            &&& c.history == History::empty()
            &&& ended(c.plan) == Some(Outcome::Failed(fault(message)))
        }),
        masks@.len() > 0 ==> ({
            let c = cu_course(site, CuCmd::Bench { masks }, replies);
            &&& c.history == History::empty()
            &&& ended(c.plan) == Some(Outcome::Failed(fault(message)))
        }),
{
    let route = Cmd::Cu { action: CuCmd::Route { masks, force_unsafe } };
    lemma_ended(site, opening(site, route), replies);
    if masks@.len() > 0 {
        lemma_ended(site, opening(site, Cmd::Cu { action: CuCmd::Bench { masks } }), replies);
    }
}

/// Law: only a WGP that exists is toggled, and it is the one that was named.
pub proof fn law_toggle_is_in_bounds(
    site: Site,
    array: u32,
    wgp: u32,
    force_unsafe: bool,
    replies: Seq<Reply>,
    op: Op,
)
    requires
        op is ToggleWgp,
        cu_course(site, CuCmd::Toggle { array, wgp, force_unsafe }, replies).did(op),
    ensures
        array < 4,
        wgp < 5,
        op == (Op::ToggleWgp { array, wgp, force_unsafe }),
{
    let cmd = Cmd::Cu { action: CuCmd::Toggle { array, wgp, force_unsafe } };
    let rule = Rule {
        held: |action: Action<Seq<char>>|
            action matches Action::Host(o) && o is ToggleWgp && o != (Op::ToggleWgp {
                array,
                wgp,
                force_unsafe,
            }),
        at: |action: Action<Seq<char>>, point: Point<Seq<char>>|
            point matches Point::At(spot) && (spot is Toggled || spot is RouteSaved || spot is
            RoutePersisted || spot is RoutedShape),
        ..Rule::plain()
    };
    assert(rule.ordered(opening(site, cmd)));
    assert(rule.closed(site));
    lemma_rule(site, cmd, replies, rule);
    assert(course(site, cmd, replies).handed(Action::Host(op)));
    if array >= 4 || wgp >= 5 {
        lemma_ended(site, opening(site, cmd), replies);
    }
}

/// Whether an exchange is the full health test, with this verdict.
pub open spec fn tested(e: Exchange, ok: bool) -> bool {
    &&& e.action == Action::<Seq<char>>::Host(Op::KatFull)
    &&& e.reply matches Reply::Kat(h)
    &&& h.ok == ok
}

/// Law: a health test that is no probe succeeds only where the CUs are healthy.
pub proof fn law_health_test_success(site: Site, localize: bool, replies: Seq<Reply>)
    requires
        ended(cu_course(site, CuCmd::Test { localize, probe: false }, replies).plan) == Some(
            Outcome::<Seq<char>>::Success,
        ),
    ensures
        witnessed(
            cu_course(site, CuCmd::Test { localize, probe: false }, replies).history,
            |e: Exchange| tested(e, true),
        ),
{
    let cmd = Cmd::Cu { action: CuCmd::Test { localize, probe: false } };
    let rule = Rule {
        held_end: |o: Outcome<Seq<char>>| o is Success,
        key: |e: Exchange| tested(e, true),
        at: |action: Action<Seq<char>>, point: Point<Seq<char>>| test_point(action, point),
        ..Rule::plain()
    };
    assert(rule.settles(opening(site, cmd)[0]));
    assert(rule.ordered(opening(site, cmd)));
    assert forall|action: Action<Seq<char>>, point: Point<Seq<char>>, reply: Reply|
        #![trigger (rule.at)(action, point), decision(site, point, reply)]
        (rule.at)(action, point) && decision(site, point, reply) is Some implies (rule.key)(
        Exchange { action, reply },
    ) || rule.decides(point, decision(site, point, reply)->0) by {
        let decided = decision(site, point, reply)->0;
        if !(rule.key)(Exchange { action, reply }) {
            assert(rule.settles(decided[decided.len() - 1]));
        }
    }
    lemma_rule(site, cmd, replies, rule);
}

/// The decisions of a health test that is no probe.
spec fn test_point(action: Action<Seq<char>>, point: Point<Seq<char>>) -> bool {
    point matches Point::At(spot) && match spot {
        Spot::KatReady { localize, probe } => !probe,
        Spot::KatFull { localize } => action == Action::<Seq<char>>::Host(Op::KatFull),
        Spot::KatSwept => true,
        _ => false,
    }
}

/// Law: a health test ends with a status of its own only where a CU is faulty, and that status
/// is 1.
pub proof fn law_health_test_fault(
    site: Site,
    localize: bool,
    probe: bool,
    status: u8,
    replies: Seq<Reply>,
)
    requires
        ended(cu_course(site, CuCmd::Test { localize, probe }, replies).plan) == Some(
            Outcome::<Seq<char>>::Exit(status),
        ),
    ensures
        status == 1,
        witnessed(
            cu_course(site, CuCmd::Test { localize, probe }, replies).history,
            |e: Exchange| tested(e, false),
        ),
{
    let cmd = Cmd::Cu { action: CuCmd::Test { localize, probe } };
    let full = Action::<Seq<char>>::Host(Op::KatFull);
    let faulty = Rule {
        held_end: |o: Outcome<Seq<char>>| o is Exit,
        key: |e: Exchange| tested(e, false),
        at: |action: Action<Seq<char>>, point: Point<Seq<char>>|
            point matches Point::At(spot) && match spot {
                Spot::KatReady { .. } => true,
                Spot::KatFull { .. } => action == full,
                _ => false,
            },
        ..Rule::plain()
    };
    let one = Rule {
        held_end: |o: Outcome<Seq<char>>| o matches Outcome::Exit(s) && s != 1,
        at: |action: Action<Seq<char>>, point: Point<Seq<char>>|
            point matches Point::At(spot) && match spot {
                Spot::KatReady { .. } => true,
                Spot::KatFull { .. } => true,
                Spot::KatSwept => true,
                _ => false,
            },
        ..Rule::plain()
    };
    assert(faulty.ordered(opening(site, cmd)));
    assert(faulty.closed(site));
    lemma_rule(site, cmd, replies, faulty);
    assert(one.ordered(opening(site, cmd)));
    assert(one.closed(site));
    lemma_rule(site, cmd, replies, one);
}

} // verus!
