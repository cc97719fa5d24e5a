//! What a CU command that ends in success has done and said.
use vstd::prelude::*;

use crate::cli::opening;
use crate::commands::{Cmd, CuCmd};
use crate::completion::{
    lemma_all_steps, lemma_asked, lemma_completed, managed, managed_op, ran, said, tried, tried_op,
    warned,
};
use crate::custody::told;
use crate::decide::decision;
use crate::model::{BenchRun, CuMap, KatReport, PatchReport, Reply, RouteShape, Site};
use crate::plan::{Action, Op, Outcome, Plan, Routed, RowStyle, Spot};
use crate::session::ended;
use crate::text::dec;
use crate::trace::{course, History};
use crate::warrant_cu::{
    bench_masks, four, four_hex, kat_row, law_cu_warrants, lemma_masks, masks_given,
    patch_12_present, per_cu, tells_shape, verdict_of,
};

verus! {

/// What is told of a flag.
pub open spec fn flag_told(h: History, op: Op, head: Seq<char>, yes: Seq<char>, no: Seq<char>) -> bool {
    exists|b: bool| #[trigger]
        told(h, op, Reply::Flag(b)) && said(
            h,
            head + if b {
                yes
            } else {
                no
            },
        )
}

/// The harvest map was printed, or that there is none.
pub open spec fn map_told(h: History, none: Seq<char>) -> bool {
    exists|map: Option<CuMap>| #[trigger]
        told(h, Op::CuMap, Reply::Harvest(map)) && match map {
            Some(m) => tried(h, Action::Print(m.rendered@)),
            None => said(h, none),
        }
}

/// The shape of these masks was told, all of it.
pub open spec fn shape_told(h: History, m: [u32; 4]) -> bool {
    exists|shape: RouteShape| #[trigger]
        told(h, Op::RouteShape(m), Reply::Shape(shape)) && forall|text: Seq<char>| #[trigger]
            tells_shape(m, shape, text) ==> said(h, text)
}

/// The live routing was told, or why it cannot be.
pub open spec fn live_told(h: History) -> bool {
    exists|reply: Reply| #[trigger]
        told(h, Op::CurrentMasks, reply) && match reply {
            Reply::Masks(m) => shape_told(h, m),
            Reply::Failed(f) => said(h, "  unavailable ("@ + f.message@ + ")"@),
            _ => false,
        }
}

/// The state of the CUs was told.
pub open spec fn cu_status_done(site: Site, h: History) -> bool {
    &&& flag_told(h, Op::CuArmed, "  module param armed: "@, "yes"@, "no"@)
    &&& flag_told(h, Op::CuPersisted, "  modprobe.d persisted: "@, "yes"@, "no"@)
    &&& map_told(h, "  harvest map: unavailable (amdgpu not queryable)"@)
    &&& live_told(h)
    &&& flag_told(
        h,
        Op::RouteArmed,
        "  boot route re-apply: "@,
        "armed ("@ + site.route_unit@ + ")"@,
        "not armed"@,
    )
}

/// The liberation was persisted, and a kernel that makes it a no-op warned of.
pub open spec fn enable_done(site: Site, h: History) -> bool {
    &&& managed_op(h, Op::ArmCu)
    &&& said(h, "persisted: "@ + site.modprobe_conf@)
    &&& exists|rep: PatchReport| #[trigger]
        told(h, Op::PatchReport, Reply::Report(rep)) && (patch_12_present(rep.rows@) || said(
            h,
            "WARNING: the 40-CU kernel patch (12) is not detected live — enable will be a no-op until the patched kernel is built in (`arieltune apu build`)."@,
        ))
}

/// A routing was saved, and if so its boot re-apply was tried; `persisted` is whether both worked.
pub open spec fn kept_as(h: History, persisted: bool) -> bool {
    exists|saved: Reply| #[trigger]
        told(h, Op::SaveRoute, saved) && if saved is Failed {
            !persisted
        } else {
            exists|armed: Reply| #[trigger]
                told(h, Op::ArmRoute, armed) && persisted == !(armed is Failed)
        }
}

/// The end of a line on a routing.
pub open spec fn kept_tail(persisted: bool) -> Seq<char> {
    if persisted {
        " — persisted (survives reboot)"@
    } else {
        " (live only — could not persist)"@
    }
}

/// A routing was kept as far as that could be, and what came of it was told.
pub open spec fn kept_and_told(h: History, head: Seq<char>) -> bool {
    exists|persisted: bool| #[trigger]
        kept_as(h, persisted) && said(h, head + kept_tail(persisted))
}

/// The warnings of a shape were given.
pub open spec fn shape_warned(h: History, shape: RouteShape) -> bool {
    forall|i: int|
        0 <= i < shape.warnings@.len() ==> warned(
            h,
            "WARNING: "@ + (#[trigger] shape.warnings@[i])@,
        )
}

/// Masks were routed and kept, and told with their shape.
pub open spec fn route_done(h: History, texts: Seq<Seq<char>>, force_unsafe: bool) -> bool {
    exists|m: [u32; 4], shape: RouteShape| #[trigger]
        told(h, Op::RouteShape(m), Reply::Shape(shape)) && masks_given(texts, m) && (
        if force_unsafe {
            managed_op(h, Op::ApplyRouteForced(m))
        } else {
            managed_op(h, Op::ApplyRoute(m))
        }) && kept_and_told(
            h,
            "routed "@ + dec(shape.cu as nat) + " CUs: ["@ + four(m, ", "@) + "]"@,
        ) && shape_warned(h, shape)
}

/// A WGP was toggled and the routing kept, and told with its shape.
pub open spec fn toggle_done(h: History, array: u32, wgp: u32, force_unsafe: bool) -> bool {
    exists|m: [u32; 4], shape: RouteShape| #[trigger]
        told(h, Op::RouteShape(m), Reply::Shape(shape)) && told(
            h,
            Op::ToggleWgp { array, wgp, force_unsafe },
            Reply::Masks(m),
        ) && kept_and_told(
            h,
            "toggled SE"@ + dec((array / 2) as nat) + ".SH"@ + dec((array % 2) as nat) + " W"@
                + dec(wgp as nat) + " -> "@ + dec(shape.cu as nat) + " CU routed"@,
        ) && shape_warned(h, shape)
}

/// The bypassed guard was warned of.
pub open spec fn bypass_warned(h: History) -> bool {
    warned(h, "WARNING: --force-unsafe — empty-shader-array wedge guard bypassed"@)
}

/// A bench was run, and its result told.
pub open spec fn bench_done(h: History, texts: Seq<Seq<char>>) -> bool {
    exists|m: [u32; 4], shape: RouteShape| #[trigger]
        told(h, Op::RouteShape(m), Reply::Shape(shape)) && bench_masks(h, texts, m) && shape_warned(
            h,
            shape,
        ) && bench_told(h, m, shape.cu)
}

/// The result of a bench was told.
pub open spec fn bench_told(h: History, m: [u32; 4], cu: u32) -> bool {
    exists|run: BenchRun, per: Seq<char>|
        #![trigger told(h, Op::BenchRoute(m), Reply::Bench(run)), per_cu(h, cu, per)]
        told(h, Op::BenchRoute(m), Reply::Bench(run)) && per_cu(h, cu, per) && said(
            h,
            "bench ["@ + four(m, " "@) + "]: "@ + dec(cu as nat) + " CU routed  —  "@ + run.gflops@
                + " GFLOPS  ("@ + per + " /CU)  ("@ + verdict_of(run) + ")"@,
        )
}

/// The live routing was saved, its boot re-apply tried, and both told.
pub open spec fn route_save_done(site: Site, h: History) -> bool {
    exists|m: [u32; 4], n: u32, armed: Reply|
        #![trigger told(h, Op::CuCount(m), Reply::Number(n)), told(h, Op::ArmRoute, armed)]
        told(h, Op::CuCount(m), Reply::Number(n)) && told(h, Op::SaveRoute, Reply::Masks(m)) && told(
            h,
            Op::ArmRoute,
            armed,
        ) && said(
            h,
            "saved service routing: "@ + four_hex(m) + " ("@ + dec(n as nat) + " CU) -> "@
                + site.route_profile@ + if armed is Failed {
                " (boot re-apply NOT armed)"@
            } else {
                " (boot re-apply armed)"@
            },
        )
}

/// The saved routing was applied, and told.
pub open spec fn route_load_done(h: History) -> bool {
    exists|m: [u32; 4], n: u32| #[trigger]
        told(h, Op::CuCount(m), Reply::Number(n)) && told(h, Op::ApplySavedRoute, Reply::Masks(m))
            && said(
            h,
            "applied service routing: "@ + four_hex(m) + " ("@ + dec(n as nat) + " CU)"@,
        )
}

/// A health test was made: a sweep where one was asked for, else one of the full routing, which
/// found no fault.
pub open spec fn test_done(h: History, probe: bool) -> bool {
    &&& told(h, Op::KatAvailable, Reply::Flag(true))
    &&& if probe {
        managed_op(h, Op::KatLocalize(RowStyle::Kat))
    } else {
        exists|r: KatReport| #[trigger]
            told(h, Op::KatFull, Reply::Kat(r)) && r.ok && said(h, kat_row(r)) && said(
                h,
                "\nall 40 CUs healthy."@,
            )
    }
}

/// What a CU command that ends in success has done and said.
pub open spec fn cu_done(site: Site, cmd: CuCmd, h: History) -> bool {
    match cmd {
        CuCmd::Status => cu_status_done(site, h),
        CuCmd::Enable => enable_done(site, h),
        CuCmd::Disable => managed_op(h, Op::DisarmCu) && said(
            h,
            "removed: "@ + site.modprobe_conf@ + " (reverts to 24 CU next boot)"@,
        ),
        CuCmd::RouteAll => managed_op(h, Op::RouteAll) && kept_and_told(h, "routed all 40 CUs"@),
        CuCmd::RouteFactory => managed_op(h, Op::RouteFactory) && kept_and_told(
            h,
            "routed factory dispatch (24 CU)"@,
        ),
        CuCmd::Route { masks, force_unsafe } => (force_unsafe ==> bypass_warned(h)) && route_done(
            h,
            masks.deep_view(),
            force_unsafe,
        ),
        CuCmd::Toggle { array, wgp, force_unsafe } => (force_unsafe ==> bypass_warned(h))
            && toggle_done(h, array, wgp, force_unsafe),
        CuCmd::Bench { masks } => bench_done(h, masks.deep_view()),
        CuCmd::RouteSave => route_save_done(site, h),
        CuCmd::RouteLoad => route_load_done(h),
        CuCmd::RouteForget => tried_op(h, Op::DisarmRoute) && said(
            h,
            "boot route re-apply disarmed (unit removed); "@ + site.route_profile@
                + " kept — `cu route-save` re-arms"@,
        ),
        CuCmd::Test { localize, probe } => test_done(h, probe),
    }
}

proof fn lemma_cu_status_done(site: Site, h: History)
    requires
        ran(site, h, opening(site, Cmd::Cu { action: CuCmd::Status }), 5),
    ensures
        cu_status_done(site, h),
{
    let p0 = opening(site, Cmd::Cu { action: CuCmd::Status });
    let r1 = lemma_asked(site, h, p0, 1, 5);
    assert(told(h, Op::CuArmed, Reply::Flag(r1->Flag_0)));
    let p1 = decision(site, p0[1]->then->Ask_0, r1)->0;
    lemma_all_steps(site, h, p1, 4);
    assert(said(h, p1[0]->action->Println_0));
    let r2 = lemma_asked(site, h, p0, 2, 5);
    assert(told(h, Op::CuPersisted, Reply::Flag(r2->Flag_0)));
    let p2 = decision(site, p0[2]->then->Ask_0, r2)->0;
    lemma_all_steps(site, h, p2, 4);
    assert(said(h, p2[0]->action->Println_0));
    let r3 = lemma_asked(site, h, p0, 3, 5);
    assert(told(h, Op::CuMap, Reply::Harvest(r3->Harvest_0)));
    let p3 = decision(site, p0[3]->then->Ask_0, r3)->0;
    lemma_all_steps(site, h, p3, 4);
    assert(tried(h, p3[0]->action));
    let r6 = lemma_asked(site, h, p0, 6, 5);
    assert(told(h, Op::RouteArmed, Reply::Flag(r6->Flag_0)));
    let p6 = decision(site, p0[6]->then->Ask_0, r6)->0;
    lemma_all_steps(site, h, p6, 4);
    assert(said(h, p6[0]->action->Println_0));
    let r5 = lemma_asked(site, h, p0, 5, 5);
    assert(told(h, Op::CurrentMasks, r5));
    let p5 = decision(site, p0[5]->then->Judge_0, r5)->0;
    lemma_all_steps(site, h, p5, 4);
    match r5 {
        Reply::Masks(m) => {
            let r = lemma_asked(site, h, p5, 0, 4);
            let shape = r->Shape_0;
            assert(told(h, Op::RouteShape(m), Reply::Shape(shape)));
            let p = crate::cu::live_shape_plan(m, shape);
            assert(decision(site, p5[0]->then->Ask_0, r) == Some(p));
            lemma_all_steps(site, h, p, 3);
            assert(said(h, p[0]->action->Println_0));
            assert(said(h, p[1]->action->Println_0));
            assert forall|text: Seq<char>| #[trigger] tells_shape(m, shape, text) implies said(
                h,
                text,
            ) by {
                if crate::warrant_cu::marked("  ! "@, shape.warnings@, text) {
                    let i = choose|i: int|
                        0 <= i < shape.warnings@.len() && text == "  ! "@ + (
                        #[trigger] shape.warnings@[i])@;
                    assert(p[i + 2]->action == Action::Println("  ! "@ + shape.warnings@[i]@));
                }
            }
            assert(shape_told(h, m));
        },
        _ => {
            assert(said(h, p5[0]->action->Println_0));
        },
    }
}

/// What is persisted of a routing, once it is known, leads to this line or this question.
proof fn lemma_kept(site: Site, h: History, plan: Plan, i: int, routed: Routed, depth: nat) -> (b: (
    bool,
    Plan,
))
    requires
        depth > 3,
        0 <= i < plan.len(),
        plan[i] == crate::plan::judge(Op::SaveRoute, Spot::RouteSaved(routed)),
        ran(site, h, plan, depth),
    ensures
        kept_as(h, b.0),
        b.1 == crate::cu::routed_plan(routed, b.0),
        ran(site, h, b.1, (depth - 2) as nat),
{
    let r = lemma_asked(site, h, plan, i, depth);
    assert(told(h, Op::SaveRoute, r));
    let p = decision(site, plan[i]->then->Judge_0, r)->0;
    if r is Failed {
        crate::completion::lemma_shallower(site, h, p, (depth - 1) as nat);
        assert(kept_as(h, false));
        (false, p)
    } else {
        let q = lemma_asked(site, h, p, 0, (depth - 1) as nat);
        assert(told(h, Op::ArmRoute, q));
        let persisted = !(q is Failed);
        assert(kept_as(h, persisted));
        (persisted, decision(site, p[0]->then->Judge_0, q)->0)
    }
}

proof fn lemma_route_all_done(site: Site, h: History, cmd: CuCmd)
    requires
        cmd is RouteAll || cmd is RouteFactory,
        ran(site, h, opening(site, Cmd::Cu { action: cmd }), 6),
    ensures
        cu_done(site, cmd, h),
{
    let p0 = opening(site, Cmd::Cu { action: cmd });
    lemma_all_steps(site, h, p0, 6);
    assert(managed(h, p0[0]->action));
    let routed = if cmd is RouteAll {
        Routed::All
    } else {
        Routed::Factory
    };
    let (persisted, p) = lemma_kept(site, h, p0, 1, routed, 6);
    lemma_all_steps(site, h, p, 4);
    assert(said(h, p[0]->action->Println_0));
    if cmd is RouteAll {
        assert(kept_and_told(h, "routed all 40 CUs"@));
    } else {
        assert(kept_and_told(h, "routed factory dispatch (24 CU)"@));
    }
}

/// The warnings of a shape were given where the steps behind the first are those warnings.
proof fn lemma_shape_warned(h: History, shape: RouteShape, p: Plan, n: int)
    requires
        n >= 0,
        p.len() >= n + shape.warnings@.len(),
        forall|i: int|
            0 <= i < shape.warnings@.len() ==> #[trigger] p[n + i] == crate::plan::warn(
                "WARNING: "@ + shape.warnings@[i]@,
            ),
        forall|i: int|
            #![trigger p[i]]
            0 <= i < p.len() ==> p[i] is Do && tried(h, p[i]->action),
    ensures
        shape_warned(h, shape),
{
    assert forall|i: int| 0 <= i < shape.warnings@.len() implies warned(
        h,
        "WARNING: "@ + (#[trigger] shape.warnings@[i])@,
    ) by {
        assert(p[n + i] == crate::plan::warn("WARNING: "@ + shape.warnings@[i]@));
    }
}

proof fn lemma_route_done(site: Site, h: History, cmd: CuCmd)
    requires
        cmd is Route,
        ran(site, h, opening(site, Cmd::Cu { action: cmd }), 7),
    ensures
        cu_done(site, cmd, h),
{
    let p0 = opening(site, Cmd::Cu { action: cmd });
    lemma_all_steps(site, h, p0, 7);
    let texts = cmd->Route_masks.deep_view();
    let force_unsafe = cmd->Route_force_unsafe;
    lemma_masks(texts);
    if crate::cu::masks_error(texts) is Some {
        assert(p0[0] is End);
    }
    let m = crate::cu::masks_of(texts);
    let n = p0.len() - 1;
    assert(managed(h, p0[n - 1]->action));
    if force_unsafe {
        assert(warned(h, p0[0]->action->Eprintln_0));
    }
    let (persisted, p) = lemma_kept(site, h, p0, n, Routed::Masks(m), 7);
    let r = lemma_asked(site, h, p, 0, 5);
    let shape = r->Shape_0;
    assert(told(h, Op::RouteShape(m), Reply::Shape(shape)));
    let q = crate::cu::routed_shape_plan(Routed::Masks(m), persisted, shape);
    assert(decision(site, p[0]->then->Ask_0, r) == Some(q));
    lemma_all_steps(site, h, q, 4);
    assert(said(h, q[0]->action->Println_0));
    lemma_shape_warned(h, shape, q, 1);
    assert(kept_and_told(
        h,
        "routed "@ + dec(shape.cu as nat) + " CUs: ["@ + four(m, ", "@) + "]"@,
    ));
}

proof fn lemma_toggle_done(site: Site, h: History, cmd: CuCmd)
    requires
        cmd is Toggle,
        ran(site, h, opening(site, Cmd::Cu { action: cmd }), 8),
    ensures
        cu_done(site, cmd, h),
{
    let p0 = opening(site, Cmd::Cu { action: cmd });
    lemma_all_steps(site, h, p0, 8);
    let array = cmd->Toggle_array;
    let wgp = cmd->Toggle_wgp;
    let force_unsafe = cmd->Toggle_force_unsafe;
    if array >= 4 || wgp >= 5 {
        assert(p0[0] is End);
    }
    let n = p0.len() - 1;
    if force_unsafe {
        assert(warned(h, p0[0]->action->Eprintln_0));
    }
    let r0 = lemma_asked(site, h, p0, n, 8);
    let m = r0->Masks_0;
    assert(told(h, Op::ToggleWgp { array, wgp, force_unsafe }, Reply::Masks(m)));
    let p1 = decision(site, p0[n]->then->Ask_0, r0)->0;
    let routed = Routed::Toggled { array, wgp, masks: m };
    let (persisted, p) = lemma_kept(site, h, p1, 0, routed, 7);
    let r = lemma_asked(site, h, p, 0, 5);
    let shape = r->Shape_0;
    assert(told(h, Op::RouteShape(m), Reply::Shape(shape)));
    let q = crate::cu::routed_shape_plan(routed, persisted, shape);
    assert(decision(site, p[0]->then->Ask_0, r) == Some(q));
    lemma_all_steps(site, h, q, 4);
    assert(said(h, q[0]->action->Println_0));
    lemma_shape_warned(h, shape, q, 1);
    assert(kept_and_told(
        h,
        "toggled SE"@ + dec((array / 2) as nat) + ".SH"@ + dec((array % 2) as nat) + " W"@ + dec(
            wgp as nat,
        ) + " -> "@ + dec(shape.cu as nat) + " CU routed"@,
    ));
}

/// A bench whose shape was asked for was run and told.
proof fn lemma_bench_run(
    site: Site,
    h: History,
    plan: Plan,
    texts: Seq<Seq<char>>,
    m: [u32; 4],
    depth: nat,
)
    requires
        depth > 4,
        plan == crate::cu::bench_plan(m),
        bench_masks(h, texts, m),
        ran(site, h, plan, depth),
    ensures
        bench_done(h, texts),
{
    let r0 = lemma_asked(site, h, plan, 0, depth);
    let shape = r0->Shape_0;
    assert(told(h, Op::RouteShape(m), Reply::Shape(shape)));
    let p1 = crate::cu::bench_shape_plan(m, shape);
    assert(decision(site, plan[0]->then->Ask_0, r0) == Some(p1));
    lemma_all_steps(site, h, p1, (depth - 1) as nat);
    lemma_shape_warned(h, shape, p1, 0);
    let n = p1.len() - 1;
    let r1 = lemma_asked(site, h, p1, n, (depth - 1) as nat);
    let run = r1->Bench_0;
    assert(told(h, Op::BenchRoute(m), Reply::Bench(run)));
    let p2 = crate::cu::bench_done_plan(m, shape.cu, run);
    assert(decision(site, p1[n]->then->Ask_0, r1) == Some(p2));
    lemma_all_steps(site, h, p2, (depth - 2) as nat);
    if shape.cu > 0 {
        let r2 = lemma_asked(site, h, p2, 0, (depth - 2) as nat);
        let per = r2->Text_0;
        assert(told(h, Op::BenchPerCu(shape.cu), Reply::Text(per)));
        assert(per_cu(h, shape.cu, per@));
        let p3 = decision(site, p2[0]->then->Ask_0, r2)->0;
        lemma_all_steps(site, h, p3, (depth - 3) as nat);
        assert(said(h, p3[0]->action->Println_0));
    } else {
        assert(per_cu(h, shape.cu, "0.0"@));
        assert(said(h, p2[0]->action->Println_0));
    }
    assert(bench_told(h, m, shape.cu));
}

proof fn lemma_bench_done(site: Site, h: History, cmd: CuCmd)
    requires
        cmd is Bench,
        ran(site, h, opening(site, Cmd::Cu { action: cmd }), 7),
    ensures
        cu_done(site, cmd, h),
{
    let p0 = opening(site, Cmd::Cu { action: cmd });
    lemma_all_steps(site, h, p0, 7);
    let masks = cmd->Bench_masks;
    let texts = masks.deep_view();
    assert(texts.len() == masks@.len());
    if masks@.len() == 0 {
        let r0 = lemma_asked(site, h, p0, 0, 7);
        let m = r0->Masks_0;
        assert(told(h, Op::CurrentMasks, Reply::Masks(m)));
        lemma_bench_run(site, h, crate::cu::bench_plan(m), texts, m, 6);
    } else {
        lemma_masks(texts);
        if crate::cu::masks_error(texts) is Some {
            assert(p0[0] is End);
        }
        lemma_bench_run(site, h, p0, texts, crate::cu::masks_of(texts), 7);
    }
}

proof fn lemma_saved_done(site: Site, h: History, cmd: CuCmd)
    requires
        cmd is RouteSave || cmd is RouteLoad,
        ran(site, h, opening(site, Cmd::Cu { action: cmd }), 5),
    ensures
        cu_done(site, cmd, h),
{
    let p0 = opening(site, Cmd::Cu { action: cmd });
    let r0 = lemma_asked(site, h, p0, 0, 5);
    let m = r0->Masks_0;
    let p1 = decision(site, p0[0]->then->Ask_0, r0)->0;
    if cmd is RouteSave {
        assert(told(h, Op::SaveRoute, Reply::Masks(m)));
        let r1 = lemma_asked(site, h, p1, 0, 4);
        assert(told(h, Op::ArmRoute, r1));
        let p2 = decision(site, p1[0]->then->Judge_0, r1)->0;
        let r2 = lemma_asked(site, h, p2, 0, 3);
        assert(told(h, Op::CuCount(m), Reply::Number(r2->Number_0)));
        let p3 = decision(site, p2[0]->then->Ask_0, r2)->0;
        lemma_all_steps(site, h, p3, 2);
        assert(said(h, p3[0]->action->Println_0));
    } else {
        assert(told(h, Op::ApplySavedRoute, Reply::Masks(m)));
        let r1 = lemma_asked(site, h, p1, 0, 4);
        assert(told(h, Op::CuCount(m), Reply::Number(r1->Number_0)));
        let p2 = decision(site, p1[0]->then->Ask_0, r1)->0;
        lemma_all_steps(site, h, p2, 3);
        assert(said(h, p2[0]->action->Println_0));
    }
}

proof fn lemma_test_done(site: Site, h: History, localize: bool, probe: bool)
    requires
        ran(site, h, opening(site, Cmd::Cu { action: CuCmd::Test { localize, probe } }), 6),
    ensures
        test_done(h, probe),
{
    let p0 = opening(site, Cmd::Cu { action: CuCmd::Test { localize, probe } });
    let r0 = lemma_asked(site, h, p0, 0, 6);
    let p1 = decision(site, p0[0]->then->Ask_0, r0)->0;
    lemma_all_steps(site, h, p1, 5);
    if !r0->Flag_0 {
        assert(p1[0] is End);
    }
    assert(told(h, Op::KatAvailable, Reply::Flag(true)));
    assert(managed(h, p1[1]->action));
    if !probe {
        let r1 = lemma_asked(site, h, p1, 1, 5);
        let r = r1->Kat_0;
        assert(told(h, Op::KatFull, Reply::Kat(r)));
        let p2 = decision(site, p1[1]->then->Ask_0, r1)->0;
        lemma_all_steps(site, h, p2, 4);
        assert(said(h, p2[0]->action->Println_0));
        if r.ok {
            assert(said(h, p2[1]->action->Println_0));
        } else if localize {
            let r2 = lemma_asked(site, h, p2, 3, 4);
            let p3 = decision(site, p2[3]->then->Ask_0, r2)->0;
            lemma_all_steps(site, h, p3, 3);
            assert(p3.last() is End);
            assert(p3[p3.len() - 1] is End);
        } else {
            assert(p2[3] is End);
        }
    }
}

proof fn lemma_enable_done(site: Site, h: History)
    requires
        ran(site, h, opening(site, Cmd::Cu { action: CuCmd::Enable }), 4),
    ensures
        enable_done(site, h),
{
    let p0 = opening(site, Cmd::Cu { action: CuCmd::Enable });
    lemma_all_steps(site, h, p0, 4);
    assert(managed(h, p0[0]->action));
    assert(said(h, p0[1]->action->Println_0));
    let r0 = lemma_asked(site, h, p0, 3, 4);
    let rep = r0->Report_0;
    assert(told(h, Op::PatchReport, Reply::Report(rep)));
    let p1 = decision(site, p0[3]->then->Ask_0, r0)->0;
    lemma_all_steps(site, h, p1, 3);
    if crate::cu::cu_patch_live(rep.rows@) {
        assert(patch_12_present(rep.rows@));
    } else {
        assert(said(h, p1[0]->action->Println_0));
    }
}

/// Law: a CU command that ends in success has done all that it is for, and told it.
pub proof fn law_cu_done(site: Site, cmd: CuCmd, replies: Seq<Reply>)
    requires
        ended(course(site, Cmd::Cu { action: cmd }, replies).plan) == Some(
            Outcome::<Seq<char>>::Success,
        ),
    ensures
        cu_done(site, cmd, course(site, Cmd::Cu { action: cmd }, replies).history),
{
    let c = Cmd::Cu { action: cmd };
    let h = course(site, c, replies).history;
    law_cu_warrants(site, cmd, replies);
    lemma_completed(site, c, replies, 4);
    lemma_completed(site, c, replies, 5);
    lemma_completed(site, c, replies, 6);
    lemma_completed(site, c, replies, 7);
    lemma_completed(site, c, replies, 8);
    match cmd {
        CuCmd::Status => {
            lemma_cu_status_done(site, h);
        },
        CuCmd::Enable => {
            lemma_enable_done(site, h);
        },
        CuCmd::RouteAll | CuCmd::RouteFactory => {
            lemma_route_all_done(site, h, cmd);
        },
        CuCmd::Route { .. } => {
            lemma_route_done(site, h, cmd);
        },
        CuCmd::Toggle { .. } => {
            lemma_toggle_done(site, h, cmd);
        },
        CuCmd::Bench { .. } => {
            lemma_bench_done(site, h, cmd);
        },
        CuCmd::RouteSave | CuCmd::RouteLoad => {
            lemma_saved_done(site, h, cmd);
        },
        CuCmd::Test { localize, probe } => {
            lemma_test_done(site, h, localize, probe);
        },
        _ => {
            let p0 = opening(site, c);
            lemma_all_steps(site, h, p0, 4);
            assert(tried(h, p0[0]->action));
            assert(said(h, p0[1]->action->Println_0));
        },
    }
}

} // verus!
