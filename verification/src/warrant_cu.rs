//! What a CU command is entitled to do, to say and to end with.
use vstd::prelude::*;

use crate::cli::opening;
use crate::commands::{Cmd, CuCmd};
use crate::custody::{cut_off, lemma_custody, told, Custody};
use crate::decide::decision;
use crate::model::{
    fault, BenchRun, CuMap, Fault, KatReport, PatchReport, PatchRow, PatchState, Reply, RouteShape,
    Site,
};
use crate::plan::{Action, Op, Outcome, Point, Routed, RowStyle, Spot};
use crate::scan::{hex_u32, strip_0x, strip_dashes};
use crate::session::ended;
use crate::text::{dec, hex, hex2, join, left, right};
use crate::trace::{answered, course, History};

verus! {

/// Whether a mask is what a text gives: its hexadecimal number, cut to the five bits of the WGPs.
pub open spec fn is_mask(text: Seq<char>, mask: u32) -> bool {
    hex_u32(strip_0x(text)) matches Some(n) && mask == n % 32
}

/// Whether masks are what four texts give, in their order.
pub open spec fn masks_given(texts: Seq<Seq<char>>, m: [u32; 4]) -> bool {
    &&& texts.len() == 4
    &&& is_mask(texts[0], m[0])
    &&& is_mask(texts[1], m[1])
    &&& is_mask(texts[2], m[2])
    &&& is_mask(texts[3], m[3])
}

/// Whether the text of a mask is the first that is no hexadecimal number.
pub open spec fn first_bad(texts: Seq<Seq<char>>, i: int) -> bool {
    &&& 0 <= i < texts.len()
    &&& hex_u32(strip_0x(texts[i])) is None
    &&& forall|j: int| 0 <= j < i ==> hex_u32(strip_0x(#[trigger] texts[j])) is Some
}

/// Whether masks are refused so: there are not four of them, or the first that is no hexadecimal
/// number is named.
pub open spec fn masks_refused(texts: Seq<Seq<char>>, message: Seq<char>) -> bool {
    if texts.len() != 4 {
        message == "need 4 masks (SE0.SH0 SE0.SH1 SE1.SH0 SE1.SH1)"@
    } else {
        exists|i: int| #[trigger] first_bad(texts, i) && message == "bad hex mask: "@ + texts[i]
    }
}

/// Four masks as two digits each.
pub open spec fn four(m: [u32; 4], sep: Seq<char>) -> Seq<char> {
    hex2(m[0] as nat) + sep + hex2(m[1] as nat) + sep + hex2(m[2] as nat) + sep + hex2(m[3] as nat)
}

/// Four masks as a list in hexadecimal.
pub open spec fn four_hex(m: [u32; 4]) -> Seq<char> {
    "["@ + hex(m[0] as nat) + ", "@ + hex(m[1] as nat) + ", "@ + hex(m[2] as nat) + ", "@ + hex(
        m[3] as nat,
    ) + "]"@
}

/// Four numbers as a list in decimal.
pub open spec fn four_dec(m: [u32; 4]) -> Seq<char> {
    "["@ + dec(m[0] as nat) + ", "@ + dec(m[1] as nat) + ", "@ + dec(m[2] as nat) + ", "@ + dec(
        m[3] as nat,
    ) + "]"@
}

/// Whether a line is one of some lines behind a mark.
pub open spec fn marked(mark: Seq<char>, lines: Seq<String>, text: Seq<char>) -> bool {
    exists|i: int| 0 <= i < lines.len() && text == mark + (#[trigger] lines[i])@
}

/// Whether a line tells the shape of the live routing.
pub open spec fn tells_shape(m: [u32; 4], shape: RouteShape, text: Seq<char>) -> bool {
    ||| text == "  masks: ["@ + four(m, " "@) + "]  ("@ + four_dec(shape.per_array_wgp)
        + " WGP/array)"@
    ||| text == "  routed: "@ + dec(shape.cu as nat) + "/40 CU ("@ + dec(shape.populated as nat)
        + " arrays, "@ + dec(shape.effective_cu as nat) + " effective)"@
    ||| marked("  ! "@, shape.warnings@, text)
}

/// Whether the host has answered so to what the live routing and its shape are.
pub open spec fn live_shape(h: History, m: [u32; 4], shape: RouteShape) -> bool {
    told(h, Op::CurrentMasks, Reply::Masks(m)) && told(h, Op::RouteShape(m), Reply::Shape(shape))
}

/// Whether a line tells of the live routing.
pub open spec fn tells_live_route(h: History, text: Seq<char>) -> bool {
    exists|m: [u32; 4], shape: RouteShape| #[trigger]
        live_shape(h, m, shape) && tells_shape(m, shape, text)
}

/// Whether a line tells that the live routing cannot be read.
pub open spec fn tells_no_route(h: History, text: Seq<char>) -> bool {
    exists|f: Fault<String>| #[trigger]
        told(h, Op::CurrentMasks, Reply::Failed(f)) && text == "  unavailable ("@ + f.message@
            + ")"@
}

/// Whether text is the harvest map that the host has given.
pub open spec fn map_text(h: History, text: Seq<char>) -> bool {
    exists|map: CuMap| #[trigger]
        told(h, Op::CuMap, Reply::Harvest(Some(map))) && text == map.rendered@
}

/// The lines of the CU state.
pub open spec fn cu_status_line(site: Site, h: History, text: Seq<char>) -> bool {
    ||| text == "40-CU liberation:"@
    ||| text == "live routing (SPI dispatch):"@
    ||| told(h, Op::CuArmed, Reply::Flag(true)) && text == "  module param armed: "@ + "yes"@
    ||| told(h, Op::CuArmed, Reply::Flag(false)) && text == "  module param armed: "@ + "no"@
    ||| told(h, Op::CuPersisted, Reply::Flag(true)) && text == "  modprobe.d persisted: "@ + "yes"@
    ||| told(h, Op::CuPersisted, Reply::Flag(false)) && text == "  modprobe.d persisted: "@ + "no"@
    ||| told(h, Op::CuMap, Reply::Harvest(None)) && text
        == "  harvest map: unavailable (amdgpu not queryable)"@
    ||| tells_live_route(h, text)
    ||| tells_no_route(h, text)
    ||| told(h, Op::RouteArmed, Reply::Flag(true)) && text == "  boot route re-apply: "@ + (
    "armed ("@ + site.route_unit@ + ")"@)
    ||| told(h, Op::RouteArmed, Reply::Flag(false)) && text == "  boot route re-apply: "@
        + "not armed"@
}

/// Whether the patch of the 40 CUs is shown to be live.
pub open spec fn patch_12_present(rows: Seq<PatchRow>) -> bool {
    exists|i: int|
        0 <= i < rows.len() && (#[trigger] rows[i]).id@ == "12"@ && rows[i].state is Present
}

/// Whether the host has reported a kernel without the patch of the 40 CUs.
pub open spec fn patch_12_missing(h: History) -> bool {
    exists|rep: PatchReport| #[trigger]
        told(h, Op::PatchReport, Reply::Report(rep)) && !patch_12_present(rep.rows@)
}

/// Whether a routing was saved.
pub open spec fn route_saved(h: History) -> bool {
    exists|m: [u32; 4]| #[trigger] told(h, Op::SaveRoute, Reply::Masks(m))
}

/// Whether a routing could not be saved.
pub open spec fn route_unsaved(h: History) -> bool {
    exists|f: Fault<String>| #[trigger] told(h, Op::SaveRoute, Reply::Failed(f))
}

/// Whether the boot re-apply of the routing could not be armed.
pub open spec fn route_unarmed(h: History) -> bool {
    exists|f: Fault<String>| #[trigger] told(h, Op::ArmRoute, Reply::Failed(f))
}

/// Whether a line says of something that was routed whether it survives a reboot, as it does only
/// where it was saved and its boot re-apply armed.
pub open spec fn tagged(h: History, head: Seq<char>, text: Seq<char>) -> bool {
    ||| route_saved(h) && told(h, Op::ArmRoute, Reply::Done) && text == head
        + " — persisted (survives reboot)"@
    ||| (route_unsaved(h) || route_unarmed(h)) && text == head
        + " (live only — could not persist)"@
}

/// What a command that routes is entitled to once it has routed.
pub open spec fn persist_may(h: History, op: Op) -> bool {
    op == Op::SaveRoute || (op == Op::ArmRoute && route_saved(h))
}

/// Whether a line tells of masks that were routed.
pub open spec fn tells_routed(h: History, texts: Seq<Seq<char>>, text: Seq<char>) -> bool {
    exists|m: [u32; 4], shape: RouteShape| #[trigger]
        told(h, Op::RouteShape(m), Reply::Shape(shape)) && masks_given(texts, m) && tagged(
            h,
            "routed "@ + dec(shape.cu as nat) + " CUs: ["@ + four(m, ", "@) + "]"@,
            text,
        )
}

/// Whether a line is a warning of the shape of a routing.
pub open spec fn shape_warning(h: History, text: Seq<char>) -> bool {
    exists|m: [u32; 4], shape: RouteShape| #[trigger]
        told(h, Op::RouteShape(m), Reply::Shape(shape)) && marked(
            "WARNING: "@,
            shape.warnings@,
            text,
        )
}

/// Whether a line tells of a WGP that was toggled.
pub open spec fn tells_toggled(
    h: History,
    toggle: Op,
    array: u32,
    wgp: u32,
    text: Seq<char>,
) -> bool {
    exists|m: [u32; 4], shape: RouteShape| #[trigger]
        told(h, Op::RouteShape(m), Reply::Shape(shape)) && told(h, toggle, Reply::Masks(m))
            && tagged(
            h,
            "toggled SE"@ + dec((array / 2) as nat) + ".SH"@ + dec((array % 2) as nat) + " W"@
                + dec(wgp as nat) + " -> "@ + dec(shape.cu as nat) + " CU routed"@,
            text,
        )
}

/// Whether masks are those of a bench: the given ones, or the live ones where none are given.
pub open spec fn bench_masks(h: History, texts: Seq<Seq<char>>, m: [u32; 4]) -> bool {
    if texts.len() == 0 {
        told(h, Op::CurrentMasks, Reply::Masks(m))
    } else {
        masks_given(texts, m)
    }
}

/// Whether a bench runs on masks with this number of CUs.
pub open spec fn bench_cus(h: History, texts: Seq<Seq<char>>, m: [u32; 4], cu: u32) -> bool {
    exists|shape: RouteShape| #[trigger]
        told(h, Op::RouteShape(m), Reply::Shape(shape)) && bench_masks(h, texts, m) && shape.cu
            == cu
}

/// Whether a bench runs on this number of CUs.
pub open spec fn benches_cus(h: History, texts: Seq<Seq<char>>, cu: u32) -> bool {
    exists|m: [u32; 4]| #[trigger] bench_cus(h, texts, m, cu)
}

/// The verdict on a bench.
pub open spec fn verdict_of(run: BenchRun) -> Seq<char> {
    if run.hung {
        "HUNG"@
    } else if run.ok {
        "correct"@
    } else {
        dec(run.mismatches as nat) + " mismatches"@
    }
}

/// Whether a text is the throughput of a bench per CU.
pub open spec fn per_cu(h: History, cu: u32, per: Seq<char>) -> bool {
    if cu == 0 {
        per == "0.0"@
    } else {
        exists|t: String| #[trigger] told(h, Op::BenchPerCu(cu), Reply::Text(t)) && per == t@
    }
}

/// Whether the host has benched these masks with this result.
pub open spec fn benched(
    h: History,
    texts: Seq<Seq<char>>,
    m: [u32; 4],
    cu: u32,
    run: BenchRun,
) -> bool {
    bench_cus(h, texts, m, cu) && told(h, Op::BenchRoute(m), Reply::Bench(run))
}

/// Whether a line tells the result of a bench.
pub open spec fn tells_bench(h: History, texts: Seq<Seq<char>>, text: Seq<char>) -> bool {
    exists|m: [u32; 4], cu: u32, run: BenchRun, per: Seq<char>|
        #![trigger benched(h, texts, m, cu, run), per_cu(h, cu, per)]
        benched(h, texts, m, cu, run) && per_cu(h, cu, per) && text == "bench ["@ + four(m, " "@)
            + "]: "@ + dec(cu as nat) + " CU routed  —  "@ + run.gflops@ + " GFLOPS  ("@ + per
            + " /CU)  ("@ + verdict_of(run) + ")"@
}

/// Whether the boot re-apply of a saved routing was answered so.
pub open spec fn armed_answer(h: History, armed: bool) -> bool {
    if armed {
        told(h, Op::ArmRoute, Reply::Done)
    } else {
        route_unarmed(h)
    }
}

/// Whether a line tells of the routing that was saved.
pub open spec fn tells_route_saved(site: Site, h: History, text: Seq<char>) -> bool {
    exists|m: [u32; 4], n: u32, armed: bool|
        #![trigger told(h, Op::CuCount(m), Reply::Number(n)), armed_answer(h, armed)]
        told(h, Op::CuCount(m), Reply::Number(n)) && told(h, Op::SaveRoute, Reply::Masks(m))
            && armed_answer(h, armed) && text == "saved service routing: "@ + four_hex(m) + " ("@
            + dec(n as nat) + " CU) -> "@ + site.route_profile@ + (if armed {
            " (boot re-apply armed)"@
        } else {
            " (boot re-apply NOT armed)"@
        })
}

/// Whether a line tells of the routing that was loaded.
pub open spec fn tells_route_loaded(h: History, text: Seq<char>) -> bool {
    exists|m: [u32; 4], n: u32| #[trigger]
        told(h, Op::CuCount(m), Reply::Number(n)) && told(h, Op::ApplySavedRoute, Reply::Masks(m))
            && text == "applied service routing: "@ + four_hex(m) + " ("@ + dec(n as nat) + " CU)"@
}

/// One row of the health test.
pub open spec fn kat_row(r: KatReport) -> Seq<char> {
    "  "@ + left(r.label@, 14) + " "@ + right(dec(r.cu_count as nat), 3) + " CU  "@ + right(
        r.millis@,
        7,
    ) + " ms  "@ + right(r.gflops@, 8) + " GFLOPS  "@ + right(dec(r.mismatches as nat), 9) + "  "@
        + r.verdict@
}

/// Whether the health test of the full routing found this, and whether all CUs are healthy.
pub open spec fn kat_found(h: History, ok: bool, r: KatReport) -> bool {
    told(h, Op::KatFull, Reply::Kat(r)) && r.ok == ok
}

/// Whether the health test of the full routing found a fault.
pub open spec fn faulty(h: History) -> bool {
    exists|r: KatReport| #[trigger] kat_found(h, false, r)
}

/// Whether the health test of the full routing found no fault.
pub open spec fn healthy(h: History) -> bool {
    exists|r: KatReport| #[trigger] kat_found(h, true, r)
}

/// Whether a line tells what the health test of the full routing found.
pub open spec fn tells_kat(h: History, text: Seq<char>) -> bool {
    exists|r: KatReport| #[trigger]
        told(h, Op::KatFull, Reply::Kat(r)) && (text == kat_row(r) || (!r.ok && text
            == "\na CU is faulty ("@ + dec(r.mismatches as nat) + " mismatches)."@))
}

/// The WGPs whose absence clears the fault.
pub open spec fn clearing(rows: Seq<KatReport>) -> Seq<Seq<char>> {
    rows.filter(|r: KatReport| r.ok).map_values(|r: KatReport| strip_dashes(r.label@))
}

/// Whether a sweep found these rows.
pub open spec fn swept_rows(h: History, rows: Vec<KatReport>) -> bool {
    told(h, Op::KatLocalize(RowStyle::Drop), Reply::Sweep(rows))
}

/// Whether a sweep was made.
pub open spec fn localized(h: History) -> bool {
    exists|rows: Vec<KatReport>| #[trigger] swept_rows(h, rows)
}

/// Whether a line tells what a sweep found.
pub open spec fn tells_sweep(h: History, text: Seq<char>) -> bool {
    exists|rows: Vec<KatReport>| #[trigger]
        swept_rows(h, rows) && if clearing(rows@).len() == 0 {
            text == "could not isolate a single WGP (multiple bad, or intermittent)"@
        } else {
            text == "bad WGP: "@ + join(clearing(rows@), ", "@) || text
                == "route around it: edit the routing in the TUI, then `cu route-save`"@
        }
}

/// What a health test is entitled to.
pub open spec fn test_may(
    h: History,
    localize: bool,
    probe: bool,
    action: Action<Seq<char>>,
) -> bool {
    let ready = told(h, Op::KatAvailable, Reply::Flag(true));
    match action {
        Action::Host(op) => match op {
            Op::KatAvailable => true,
            Op::KatFull => ready && !probe,
            Op::KatLocalize(style) => if probe {
                ready && style is Kat
            } else {
                localize && faulty(h) && style is Drop
            },
            _ => false,
        },
        Action::Println(text) => {
            ||| ready && probe && text
                == "PROBE: subtractive sweep (full-40 minus one WGP) — safety check\n"@
            ||| ready && !probe && text == "CU health-test — known-answer Vulkan compute (KAT)\n"@
            ||| tells_kat(h, text)
            ||| healthy(h) && text == "\nall 40 CUs healthy."@
            ||| faulty(h) && localize && text
                == "\nlocalizing — routing full-40 minus one WGP at a time:"@
            ||| faulty(h) && !localize && text == "re-run with --localize to pinpoint the bad WGP."@
            ||| localized(h) && text == ""@
            ||| tells_sweep(h, text)
        },
        _ => false,
    }
}

/// The warning of a bypassed guard.
pub open spec fn bypass_warning(text: Seq<char>) -> bool {
    text == "WARNING: --force-unsafe — empty-shader-array wedge guard bypassed"@
}

/// What a CU command is entitled to hand to the host, by its command line and by what the host has
/// answered so far.
pub open spec fn cu_may(site: Site, cmd: CuCmd, h: History, action: Action<Seq<char>>) -> bool {
    match cmd {
        CuCmd::Status => match action {
            Action::Host(op) => match op {
                Op::CuArmed => true,
                Op::CuPersisted => true,
                Op::CuMap => true,
                Op::CurrentMasks => true,
                Op::RouteShape(m) => told(h, Op::CurrentMasks, Reply::Masks(m)),
                Op::RouteArmed => true,
                _ => false,
            },
            Action::Print(text) => map_text(h, text),
            Action::Println(text) => cu_status_line(site, h, text),
            _ => false,
        },
        CuCmd::Enable => match action {
            Action::Host(op) => op == Op::ArmCu || op == Op::PatchReport,
            Action::Println(text) => {
                ||| text == "persisted: "@ + site.modprobe_conf@
                ||| text == "now run `mkinitcpio -P` (or your initramfs tool) and reboot."@
                ||| patch_12_missing(h) && text
                    == "WARNING: the 40-CU kernel patch (12) is not detected live — enable will be a no-op until the patched kernel is built in (`arieltune apu build`)."@
            },
            _ => false,
        },
        CuCmd::Disable => match action {
            Action::Host(op) => op == Op::DisarmCu,
            Action::Println(text) => text == "removed: "@ + site.modprobe_conf@
                + " (reverts to 24 CU next boot)"@,
            _ => false,
        },
        CuCmd::RouteAll => match action {
            Action::Host(op) => op == Op::RouteAll || persist_may(h, op),
            Action::Println(text) => tagged(h, "routed all 40 CUs"@, text),
            _ => false,
        },
        CuCmd::RouteFactory => match action {
            Action::Host(op) => op == Op::RouteFactory || persist_may(h, op),
            Action::Println(text) => tagged(h, "routed factory dispatch (24 CU)"@, text),
            _ => false,
        },
        CuCmd::Route { masks, force_unsafe } => match action {
            Action::Host(op) => match op {
                Op::ApplyRoute(m) => !force_unsafe && masks_given(masks.deep_view(), m),
                Op::ApplyRouteForced(m) => force_unsafe && masks_given(masks.deep_view(), m),
                Op::RouteShape(m) => masks_given(masks.deep_view(), m),
                _ => persist_may(h, op),
            },
            Action::Println(text) => tells_routed(h, masks.deep_view(), text),
            Action::Eprintln(text) => (force_unsafe && bypass_warning(text)) || shape_warning(
                h,
                text,
            ),
            _ => false,
        },
        CuCmd::Toggle { array, wgp, force_unsafe } => array < 4 && wgp < 5 && match action {
            Action::Host(op) => match op {
                Op::ToggleWgp { array: a, wgp: w, force_unsafe: f } => a == array && w == wgp && f
                    == force_unsafe,
                Op::RouteShape(m) => told(
                    h,
                    Op::ToggleWgp { array, wgp, force_unsafe },
                    Reply::Masks(m),
                ),
                _ => persist_may(h, op),
            },
            Action::Println(text) => tells_toggled(
                h,
                Op::ToggleWgp { array, wgp, force_unsafe },
                array,
                wgp,
                text,
            ),
            Action::Eprintln(text) => (force_unsafe && bypass_warning(text)) || shape_warning(
                h,
                text,
            ),
            _ => false,
        },
        CuCmd::Bench { masks } => match action {
            Action::Host(op) => match op {
                Op::CurrentMasks => masks@.len() == 0,
                Op::RouteShape(m) => bench_masks(h, masks.deep_view(), m),
                Op::BenchRoute(m) => bench_masks(h, masks.deep_view(), m),
                Op::BenchPerCu(cu) => cu > 0 && benches_cus(h, masks.deep_view(), cu),
                _ => false,
            },
            Action::Println(text) => tells_bench(h, masks.deep_view(), text),
            Action::Eprintln(text) => shape_warning(h, text),
            _ => false,
        },
        CuCmd::RouteSave => match action {
            Action::Host(op) => match op {
                Op::CuCount(m) => told(h, Op::SaveRoute, Reply::Masks(m)),
                _ => persist_may(h, op),
            },
            Action::Println(text) => tells_route_saved(site, h, text),
            _ => false,
        },
        CuCmd::RouteLoad => match action {
            Action::Host(op) => match op {
                Op::ApplySavedRoute => true,
                Op::CuCount(m) => told(h, Op::ApplySavedRoute, Reply::Masks(m)),
                _ => false,
            },
            Action::Println(text) => tells_route_loaded(h, text),
            _ => false,
        },
        CuCmd::RouteForget => match action {
            Action::Host(op) => op == Op::DisarmRoute,
            Action::Println(text) => text == "boot route re-apply disarmed (unit removed); "@
                + site.route_profile@ + " kept — `cu route-save` re-arms"@,
            _ => false,
        },
        CuCmd::Test { localize, probe } => test_may(h, localize, probe, action),
    }
}

/// Whether a CU command goes on where an action fails.
pub open spec fn cu_tolerates(cmd: CuCmd, op: Op) -> bool {
    match cmd {
        CuCmd::Status => op == Op::CurrentMasks,
        CuCmd::RouteAll => op == Op::SaveRoute || op == Op::ArmRoute,
        CuCmd::RouteFactory => op == Op::SaveRoute || op == Op::ArmRoute,
        CuCmd::Route { .. } => op == Op::SaveRoute || op == Op::ArmRoute,
        CuCmd::Toggle { .. } => op == Op::SaveRoute || op == Op::ArmRoute,
        CuCmd::RouteSave => op == Op::ArmRoute,
        CuCmd::RouteForget => op == Op::DisarmRoute,
        _ => false,
    }
}

/// Whether an error is that of an action that a CU command needs.
pub open spec fn cu_needed_failed(h: History, cmd: CuCmd, outcome: Outcome<Seq<char>>) -> bool {
    exists|action: Action<Seq<char>>, f: Fault<String>| #[trigger]
        answered(h, action, Reply::Failed(f)) && !(action matches Action::Host(op) && cu_tolerates(
            cmd,
            op,
        )) && outcome == Outcome::Failed(Fault { message: f.message@, chain: f.chain@ })
}

/// Whether a command is entitled to end so for masks that do not parse.
pub open spec fn masks_close(texts: Seq<Seq<char>>, outcome: Outcome<Seq<char>>) -> bool {
    exists|message: Seq<char>| #[trigger]
        masks_refused(texts, message) && outcome == Outcome::Failed(fault(message))
}

/// The ends, other than success, that a CU command is entitled to.
pub open spec fn cu_may_end(cmd: CuCmd, h: History, outcome: Outcome<Seq<char>>) -> bool {
    cu_needed_failed(h, cmd, outcome) || match cmd {
        CuCmd::Route { masks, force_unsafe } => masks_close(masks.deep_view(), outcome),
        CuCmd::Bench { masks } => masks@.len() > 0 && masks_close(masks.deep_view(), outcome),
        CuCmd::Toggle { array, wgp, force_unsafe } => {
            ||| array >= 4 && outcome == Outcome::Failed(
                fault("array must be 0..3 (SE0.SH0/SE0.SH1/SE1.SH0/SE1.SH1)"@),
            )
            ||| array < 4 && wgp >= 5 && outcome == Outcome::Failed(fault("wgp must be 0..4"@))
        },
        CuCmd::Test { localize, probe } => {
            ||| told(h, Op::KatAvailable, Reply::Flag(false)) && outcome == Outcome::Failed(
                fault(
                    "health-test needs umr (routing) and a Vulkan ICD (RADV). install: pacman -S umr vulkan-radeon vulkan-icd-loader"@,
                ),
            )
            ||| !probe && faulty(h) && (localize ==> localized(h)) && outcome == Outcome::<
                Seq<char>,
            >::Exit(1)
        },
        _ => false,
    }
}

/// Whether a routing to persist is that of a command.
spec fn routed_ground(cmd: CuCmd, h: History, routed: Routed) -> bool {
    match routed {
        Routed::All => cmd is RouteAll,
        Routed::Factory => cmd is RouteFactory,
        Routed::Masks(m) => cmd matches CuCmd::Route { masks, force_unsafe } && masks_given(
            masks.deep_view(),
            m,
        ),
        Routed::Toggled { array: a, wgp: w, masks } => cmd matches CuCmd::Toggle {
            array,
            wgp,
            force_unsafe,
        } && a == array && w == wgp && array < 4 && wgp < 5 && told(
            h,
            Op::ToggleWgp { array, wgp, force_unsafe },
            Reply::Masks(masks),
        ),
    }
}

/// Whether it is known whether a routing was persisted.
spec fn persisted_ground(h: History, persisted: bool) -> bool {
    if persisted {
        route_saved(h) && told(h, Op::ArmRoute, Reply::Done)
    } else {
        route_unsaved(h) || route_unarmed(h)
    }
}

/// The decisions of a CU command whose values are vouched for.
spec fn cu_ground(
    site: Site,
    cmd: CuCmd,
    h: History,
    action: Action<Seq<char>>,
    point: Point<Seq<char>>,
) -> bool {
    action matches Action::Host(op) && match point {
        Point::BenchPerCu { masks: m, cu, gflops, verdict } => cmd matches CuCmd::Bench { masks }
            && cu > 0 && op == Op::BenchPerCu(cu) && bench_told(
            h,
            masks.deep_view(),
            m,
            cu,
            gflops,
            verdict,
        ),
        Point::At(spot) => match spot {
            Spot::CuArmed => cmd is Status && op == Op::CuArmed,
            Spot::CuPersisted => cmd is Status && op == Op::CuPersisted,
            Spot::CuStatusMap => cmd is Status && op == Op::CuMap,
            Spot::LiveRoute => cmd is Status && op == Op::CurrentMasks,
            Spot::LiveShape(m) => cmd is Status && op == Op::RouteShape(m) && told(
                h,
                Op::CurrentMasks,
                Reply::Masks(m),
            ),
            Spot::RouteArmed => cmd is Status && op == Op::RouteArmed,
            Spot::CuEnabled => cmd is Enable && op == Op::PatchReport,
            Spot::RouteSaved(routed) => op == Op::SaveRoute && routed_ground(cmd, h, routed),
            Spot::RoutePersisted(routed) => op == Op::ArmRoute && routed_ground(cmd, h, routed)
                && route_saved(h),
            Spot::RoutedShape(routed, persisted) => routed_ground(cmd, h, routed)
                && persisted_ground(h, persisted) && match routed {
                Routed::Masks(m) => op == Op::RouteShape(m),
                Routed::Toggled { array, wgp, masks } => op == Op::RouteShape(masks),
                _ => false,
            },
            Spot::Toggled { array: a, wgp: w } => cmd matches CuCmd::Toggle {
                array,
                wgp,
                force_unsafe,
            } && a == array && w == wgp && array < 4 && wgp < 5 && op == (Op::ToggleWgp {
                array,
                wgp,
                force_unsafe,
            }),
            Spot::BenchCurrent => cmd matches CuCmd::Bench { masks } && masks@.len() == 0 && op
                == Op::CurrentMasks,
            Spot::BenchShape(m) => cmd matches CuCmd::Bench { masks } && bench_masks(
                h,
                masks.deep_view(),
                m,
            ) && op == Op::RouteShape(m),
            Spot::BenchDone { masks: m, cu } => cmd matches CuCmd::Bench { masks } && bench_cus(
                h,
                masks.deep_view(),
                m,
                cu,
            ) && op == Op::BenchRoute(m),
            Spot::SavedRoute => cmd is RouteSave && op == Op::SaveRoute,
            Spot::SavedRouteArmed(m) => cmd is RouteSave && op == Op::ArmRoute && told(
                h,
                Op::SaveRoute,
                Reply::Masks(m),
            ),
            Spot::SavedRouteCount { masks, armed } => cmd is RouteSave && op == Op::CuCount(masks)
                && told(h, Op::SaveRoute, Reply::Masks(masks)) && armed_answer(h, armed),
            Spot::LoadedRoute => cmd is RouteLoad && op == Op::ApplySavedRoute,
            Spot::LoadedRouteCount(m) => cmd is RouteLoad && op == Op::CuCount(m) && told(
                h,
                Op::ApplySavedRoute,
                Reply::Masks(m),
            ),
            Spot::KatReady { localize, probe } => cmd == (CuCmd::Test { localize, probe }) && op
                == Op::KatAvailable,
            Spot::KatFull { localize } => cmd == (CuCmd::Test { localize, probe: false }) && op
                == Op::KatFull,
            Spot::KatSwept => cmd == (CuCmd::Test { localize: true, probe: false }) && faulty(h)
                && op == Op::KatLocalize(RowStyle::Drop),
            _ => false,
        },
        _ => false,
    }
}

/// Whether the host has benched these masks with this throughput and verdict.
spec fn bench_told(
    h: History,
    texts: Seq<Seq<char>>,
    m: [u32; 4],
    cu: u32,
    gflops: Seq<char>,
    verdict: Seq<char>,
) -> bool {
    exists|run: BenchRun| #[trigger]
        benched(h, texts, m, cu, run) && gflops == run.gflops@ && verdict == verdict_of(run)
}

spec fn cu_custody(site: Site, cmd: CuCmd, h: History) -> Custody {
    Custody {
        warrant: |action: Action<Seq<char>>| cu_may(site, cmd, h, action),
        ground: |action: Action<Seq<char>>, point: Point<Seq<char>>|
            cu_ground(site, cmd, h, action, point),
        close: |outcome: Outcome<Seq<char>>| cu_may_end(cmd, h, outcome),
    }
}

/// The error of an action that a CU command needs is an end that it is entitled to.
proof fn lemma_cu_error(site: Site, cmd: CuCmd, h: History, action: Action<Seq<char>>)
    requires
        !(action matches Action::Host(op) && cu_tolerates(cmd, op)),
    ensures
        cu_custody(site, cmd, h).passes_error(h, action),
{
    let custody = cu_custody(site, cmd, h);
    assert forall|f: Fault<String>| #[trigger] answered(h, action, Reply::Failed(f)) implies (
    custody.close)(Outcome::Failed(f@)) by {
        assert(cu_needed_failed(h, cmd, Outcome::Failed(f@)));
    }
}

/// The low five bits of a number are what is left of it by 32.
proof fn lemma_mask(text: Seq<char>)
    ensures
        crate::cu::mask_value(text) matches Some(n) ==> is_mask(text, n),
        crate::cu::mask_value(text) is None <==> hex_u32(strip_0x(text)) is None,
{
    if let Some(n) = hex_u32(strip_0x(text)) {
        assert(n & 0x1f == n % 32) by (bit_vector);
    }
}

/// Masks are given or refused.
pub proof fn lemma_masks(texts: Seq<Seq<char>>)
    ensures
        match crate::cu::masks_error(texts) {
            Some(message) => masks_refused(texts, message),
            None => masks_given(texts, crate::cu::masks_of(texts)),
        },
{
    if texts.len() == 4 {
        lemma_mask(texts[0]);
        lemma_mask(texts[1]);
        lemma_mask(texts[2]);
        lemma_mask(texts[3]);
        if crate::cu::masks_error(texts) is Some {
            let i: int = if crate::cu::mask_value(texts[0]) is None {
                0
            } else if crate::cu::mask_value(texts[1]) is None {
                1
            } else if crate::cu::mask_value(texts[2]) is None {
                2
            } else {
                3
            };
            assert(first_bad(texts, i));
        }
    }
}

/// The suspects of a sweep are the WGPs whose absence clears the fault.
proof fn lemma_clearing(rows: Seq<KatReport>)
    ensures
        crate::cu::suspects(rows) == clearing(rows),
    decreases rows.len(),
{
    reveal(Seq::filter);
    if rows.len() > 0 {
        lemma_clearing(rows.drop_last());
    }
    assert(crate::cu::suspects(rows) =~= clearing(rows));
}

proof fn lemma_cu_status_decision(
    site: Site,
    cmd: CuCmd,
    h: History,
    action: Action<Seq<char>>,
    point: Point<Seq<char>>,
    reply: Reply,
)
    requires
        point matches Point::At(spot) && (spot is CuArmed || spot is CuPersisted || spot is CuStatusMap || spot is LiveRoute || spot is LiveShape || spot is RouteArmed || spot is CuEnabled),
        cu_ground(site, cmd, h, action, point),
        answered(h, action, reply),
        decision(site, point, reply) is Some,
    ensures
        cu_custody(site, cmd, h).covers(h, decision(site, point, reply)->0),
{
    let custody = cu_custody(site, cmd, h);
    let decided = decision(site, point, reply)->0;
    let op = action->Host_0;
    assert(told(h, op, reply));
    match point->At_0 {
        Spot::CuArmed => {
            assert(told(h, Op::CuArmed, Reply::Flag(reply->Flag_0)));
        },
        Spot::CuPersisted => {
            assert(told(h, Op::CuPersisted, Reply::Flag(reply->Flag_0)));
        },
        Spot::CuStatusMap => {
            match reply->Harvest_0 {
                Some(map) => {
                    assert(told(h, Op::CuMap, Reply::Harvest(Some(map))));
                    assert(map_text(h, map.rendered@));
                },
                None => {
                    assert(told(h, Op::CuMap, Reply::Harvest(None)));
                },
            }
        },
        Spot::LiveRoute => {
            match reply {
                Reply::Masks(m) => {
                    assert(told(h, Op::CurrentMasks, Reply::Masks(m)));
                },
                Reply::Failed(f) => {
                    assert(told(h, Op::CurrentMasks, Reply::Failed(f)));
                    assert(tells_no_route(h, decided[0]->action->Println_0));
                },
                _ => {},
            }
        },
        Spot::LiveShape(m) => {
            let shape = reply->Shape_0;
            assert(told(h, Op::RouteShape(m), Reply::Shape(shape)));
            assert(live_shape(h, m, shape));
            assert forall|text: Seq<char>| #[trigger] tells_shape(m, shape, text) implies
                tells_live_route(h, text) by {}
            assert forall|i: int| 0 <= i < decided.len() implies tells_shape(
                m,
                shape,
                (#[trigger] decided[i])->action->Println_0,
            ) by {
                if i >= 2 {
                    assert(decided[i]->action->Println_0 == "  ! "@ + shape.warnings@[i - 2]@);
                    assert(marked("  ! "@, shape.warnings@, decided[i]->action->Println_0));
                }
            }
        },
        Spot::RouteArmed => {
            assert(told(h, Op::RouteArmed, Reply::Flag(reply->Flag_0)));
        },
        _ => {
            let rep = reply->Report_0;
            assert(told(h, Op::PatchReport, Reply::Report(rep)));
            assert(crate::cu::cu_patch_live(rep.rows@) ==> patch_12_present(rep.rows@));
            if patch_12_present(rep.rows@) {
                let i = choose|i: int|
                    0 <= i < rep.rows@.len() && (#[trigger] rep.rows@[i]).id@ == "12"@
                        && rep.rows@[i].state is Present;
                assert(rep.rows@[i].state == PatchState::Present);
            } else {
                assert(patch_12_missing(h));
            }
        },
    }
    assert forall|i: int| 0 <= i < decided.len() implies custody.covers_step(
        h,
        #[trigger] decided[i],
    ) || cut_off(decided, i) by {
        if decided[i] is Do {
            let a = decided[i]->action;
            if !(a matches Action::Host(o) && cu_tolerates(cmd, o)) {
                lemma_cu_error(site, cmd, h, a);
            }
        }
    }
}

proof fn lemma_cu_persist_decision(
    site: Site,
    cmd: CuCmd,
    h: History,
    action: Action<Seq<char>>,
    point: Point<Seq<char>>,
    reply: Reply,
)
    requires
        point matches Point::At(spot) && (spot is RouteSaved || spot is RoutePersisted),
        cu_ground(site, cmd, h, action, point),
        answered(h, action, reply),
        decision(site, point, reply) is Some,
    ensures
        cu_custody(site, cmd, h).covers(h, decision(site, point, reply)->0),
{
    let custody = cu_custody(site, cmd, h);
    let decided = decision(site, point, reply)->0;
    let op = action->Host_0;
    assert(told(h, op, reply));
    let routed = match point->At_0 {
        Spot::RouteSaved(r) => r,
        Spot::RoutePersisted(r) => r,
        _ => Routed::All,
    };
    match reply {
        Reply::Masks(m) => {
            assert(told(h, Op::SaveRoute, Reply::Masks(m)));
            assert(route_saved(h));
        },
        Reply::Failed(f) => {
            if op == Op::SaveRoute {
                assert(told(h, Op::SaveRoute, Reply::Failed(f)));
                assert(route_unsaved(h));
            } else {
                assert(told(h, Op::ArmRoute, Reply::Failed(f)));
                assert(route_unarmed(h));
            }
            assert(persisted_ground(h, false));
        },
        _ => {
            assert(told(h, Op::ArmRoute, Reply::Done));
            assert(persisted_ground(h, true));
        },
    }
    if decided[0]->action is Println {
        let text = decided[0]->action->Println_0;
        if routed is All {
            assert(tagged(h, "routed all 40 CUs"@, text));
        } else {
            assert(tagged(h, "routed factory dispatch (24 CU)"@, text));
        }
    }
    assert forall|i: int| 0 <= i < decided.len() implies custody.covers_step(
        h,
        #[trigger] decided[i],
    ) || cut_off(decided, i) by {
        if decided[i] is Do {
            let a = decided[i]->action;
            if !(a matches Action::Host(o) && cu_tolerates(cmd, o)) {
                lemma_cu_error(site, cmd, h, a);
            }
        }
    }
}

proof fn lemma_cu_shape_decision(
    site: Site,
    cmd: CuCmd,
    h: History,
    action: Action<Seq<char>>,
    point: Point<Seq<char>>,
    reply: Reply,
)
    requires
        point matches Point::At(spot) && (spot is RoutedShape || spot is Toggled),
        cu_ground(site, cmd, h, action, point),
        answered(h, action, reply),
        decision(site, point, reply) is Some,
    ensures
        cu_custody(site, cmd, h).covers(h, decision(site, point, reply)->0),
{
    let custody = cu_custody(site, cmd, h);
    let decided = decision(site, point, reply)->0;
    let op = action->Host_0;
    assert(told(h, op, reply));
    match point->At_0 {
        Spot::RoutedShape(routed, persisted) => {
            let shape = reply->Shape_0;
            let m = op->RouteShape_0;
            assert(told(h, Op::RouteShape(m), Reply::Shape(shape)));
            let text = decided[0]->action->Println_0;
            match routed {
                Routed::Masks(n) => {
                    let masks = cmd->Route_masks;
                    assert(tagged(
                        h,
                        "routed "@ + dec(shape.cu as nat) + " CUs: ["@ + four(m, ", "@) + "]"@,
                        text,
                    ));
                    assert(tells_routed(h, masks.deep_view(), text));
                },
                Routed::Toggled { array, wgp, masks } => {
                    let force_unsafe = cmd->Toggle_force_unsafe;
                    assert(tagged(
                        h,
                        "toggled SE"@ + dec((array / 2) as nat) + ".SH"@ + dec((array % 2) as nat)
                            + " W"@ + dec(wgp as nat) + " -> "@ + dec(shape.cu as nat)
                            + " CU routed"@,
                        text,
                    ));
                    assert(tells_toggled(
                        h,
                        Op::ToggleWgp { array, wgp, force_unsafe },
                        array,
                        wgp,
                        text,
                    ));
                },
                _ => {},
            }
            assert forall|i: int| 1 <= i < decided.len() implies (#[trigger] decided[i])->action is
            Eprintln && decided[i]->then is Proceed && shape_warning(
                h,
                decided[i]->action->Eprintln_0,
            ) by {
                assert(decided[i]->action->Eprintln_0 == "WARNING: "@ + shape.warnings@[i - 1]@);
                assert(marked("WARNING: "@, shape.warnings@, decided[i]->action->Eprintln_0));
            }
        },
        Spot::Toggled { array, wgp } => {
            let force_unsafe = cmd->Toggle_force_unsafe;
            let m = reply->Masks_0;
            assert(told(h, Op::ToggleWgp { array, wgp, force_unsafe }, Reply::Masks(m)));
        },
        _ => {},
    }
    assert forall|i: int| 0 <= i < decided.len() implies custody.covers_step(
        h,
        #[trigger] decided[i],
    ) || cut_off(decided, i) by {
        if decided[i] is Do {
            let a = decided[i]->action;
            if !(a matches Action::Host(o) && cu_tolerates(cmd, o)) {
                lemma_cu_error(site, cmd, h, a);
            }
        }
    }
}

proof fn lemma_cu_bench_decision(
    site: Site,
    cmd: CuCmd,
    h: History,
    action: Action<Seq<char>>,
    point: Point<Seq<char>>,
    reply: Reply,
)
    requires
        point is BenchPerCu || (point matches Point::At(spot) && (spot is BenchCurrent || spot is BenchShape || spot is BenchDone)),
        cu_ground(site, cmd, h, action, point),
        answered(h, action, reply),
        decision(site, point, reply) is Some,
    ensures
        cu_custody(site, cmd, h).covers(h, decision(site, point, reply)->0),
{
    let custody = cu_custody(site, cmd, h);
    let decided = decision(site, point, reply)->0;
    let op = action->Host_0;
    assert(told(h, op, reply));
    let texts = cmd->Bench_masks.deep_view();
    match point {
        Point::BenchPerCu { masks: m, cu, gflops, verdict } => {
            let per = reply->Text_0;
            assert(told(h, Op::BenchPerCu(cu), Reply::Text(per)));
            assert(per_cu(h, cu, per@));
            let run = choose|run: BenchRun| #[trigger]
                benched(h, texts, m, cu, run) && gflops == run.gflops@ && verdict == verdict_of(run);
            assert(tells_bench(h, texts, decided[0]->action->Println_0));
        },
        Point::At(Spot::BenchCurrent) => {
            assert(told(h, Op::CurrentMasks, Reply::Masks(reply->Masks_0)));
        },
        Point::At(Spot::BenchShape(m)) => {
            let shape = reply->Shape_0;
            assert(told(h, Op::RouteShape(m), Reply::Shape(shape)));
            assert(bench_cus(h, texts, m, shape.cu));
            let n = decided.len() - 1;
            assert forall|i: int| 0 <= i < n implies (#[trigger] decided[i])->action is Eprintln
                && decided[i]->then is Proceed && shape_warning(
                h,
                decided[i]->action->Eprintln_0,
            ) by {
                assert(decided[i]->action->Eprintln_0 == "WARNING: "@ + shape.warnings@[i]@);
                assert(marked("WARNING: "@, shape.warnings@, decided[i]->action->Eprintln_0));
            }
        },
        Point::At(Spot::BenchDone { masks: m, cu }) => {
            let run = reply->Bench_0;
            assert(told(h, Op::BenchRoute(m), Reply::Bench(run)));
            assert(benched(h, texts, m, cu, run));
            assert(benches_cus(h, texts, cu));
            if cu > 0 {
                assert(bench_told(h, texts, m, cu, run.gflops@, verdict_of(run)));
            } else {
                assert(per_cu(h, cu, "0.0"@));
                assert(tells_bench(h, texts, decided[0]->action->Println_0));
            }
        },
        _ => {},
    }
    assert forall|i: int| 0 <= i < decided.len() implies custody.covers_step(
        h,
        #[trigger] decided[i],
    ) || cut_off(decided, i) by {
        if decided[i] is Do {
            let a = decided[i]->action;
            if !(a matches Action::Host(o) && cu_tolerates(cmd, o)) {
                lemma_cu_error(site, cmd, h, a);
            }
        }
    }
}

proof fn lemma_cu_saved_decision(
    site: Site,
    cmd: CuCmd,
    h: History,
    action: Action<Seq<char>>,
    point: Point<Seq<char>>,
    reply: Reply,
)
    requires
        point matches Point::At(spot) && (spot is SavedRoute || spot is SavedRouteArmed || spot is SavedRouteCount || spot is LoadedRoute || spot is LoadedRouteCount),
        cu_ground(site, cmd, h, action, point),
        answered(h, action, reply),
        decision(site, point, reply) is Some,
    ensures
        cu_custody(site, cmd, h).covers(h, decision(site, point, reply)->0),
{
    let custody = cu_custody(site, cmd, h);
    let decided = decision(site, point, reply)->0;
    let op = action->Host_0;
    assert(told(h, op, reply));
    match point->At_0 {
        Spot::SavedRoute => {
            assert(told(h, Op::SaveRoute, Reply::Masks(reply->Masks_0)));
            assert(route_saved(h));
        },
        Spot::SavedRouteArmed(m) => {
            if let Reply::Failed(f) = reply {
                assert(told(h, Op::ArmRoute, Reply::Failed(f)));
                assert(route_unarmed(h));
                assert(armed_answer(h, false));
            } else {
                assert(told(h, Op::ArmRoute, Reply::Done));
                assert(armed_answer(h, true));
            }
        },
        Spot::SavedRouteCount { masks, armed } => {
            let n = reply->Number_0;
            assert(told(h, Op::CuCount(masks), Reply::Number(n)));
            assert(tells_route_saved(site, h, decided[0]->action->Println_0));
        },
        Spot::LoadedRoute => {
            assert(told(h, Op::ApplySavedRoute, Reply::Masks(reply->Masks_0)));
        },
        Spot::LoadedRouteCount(m) => {
            let n = reply->Number_0;
            assert(told(h, Op::CuCount(m), Reply::Number(n)));
            assert(tells_route_loaded(h, decided[0]->action->Println_0));
        },
        _ => {},
    }
    assert forall|i: int| 0 <= i < decided.len() implies custody.covers_step(
        h,
        #[trigger] decided[i],
    ) || cut_off(decided, i) by {
        if decided[i] is Do {
            let a = decided[i]->action;
            if !(a matches Action::Host(o) && cu_tolerates(cmd, o)) {
                lemma_cu_error(site, cmd, h, a);
            }
        }
    }
}

proof fn lemma_cu_kat_decision(
    site: Site,
    cmd: CuCmd,
    h: History,
    action: Action<Seq<char>>,
    point: Point<Seq<char>>,
    reply: Reply,
)
    requires
        point matches Point::At(spot) && (spot is KatReady || spot is KatFull || spot is KatSwept),
        cu_ground(site, cmd, h, action, point),
        answered(h, action, reply),
        decision(site, point, reply) is Some,
    ensures
        cu_custody(site, cmd, h).covers(h, decision(site, point, reply)->0),
{
    let custody = cu_custody(site, cmd, h);
    let decided = decision(site, point, reply)->0;
    let op = action->Host_0;
    assert(told(h, op, reply));
    match point->At_0 {
        Spot::KatReady { localize, probe } => {
            assert(told(h, Op::KatAvailable, Reply::Flag(reply->Flag_0)));
        },
        Spot::KatFull { localize } => {
            let r = reply->Kat_0;
            assert(told(h, Op::KatFull, Reply::Kat(r)));
            assert(kat_found(h, r.ok, r));
            if r.ok {
                assert(healthy(h));
            } else {
                assert(faulty(h));
                assert(tells_kat(h, decided[1]->action->Println_0));
            }
            assert(tells_kat(h, decided[0]->action->Println_0));
        },
        _ => {
            let rows = reply->Sweep_0;
            assert(told(h, Op::KatLocalize(RowStyle::Drop), Reply::Sweep(rows)));
            assert(swept_rows(h, rows));
            assert(localized(h));
            lemma_clearing(rows@);
            assert(tells_sweep(h, decided[1]->action->Println_0));
            if clearing(rows@).len() > 0 {
                assert(tells_sweep(h, decided[2]->action->Println_0));
            }
        },
    }
    assert forall|i: int| 0 <= i < decided.len() implies custody.covers_step(
        h,
        #[trigger] decided[i],
    ) || cut_off(decided, i) by {
        if decided[i] is Do {
            let a = decided[i]->action;
            if !(a matches Action::Host(o) && cu_tolerates(cmd, o)) {
                lemma_cu_error(site, cmd, h, a);
            }
        }
    }
}

/// The decisions of a CU command make warranted plans.
proof fn lemma_cu_decision(
    site: Site,
    cmd: CuCmd,
    h: History,
    action: Action<Seq<char>>,
    point: Point<Seq<char>>,
    reply: Reply,
)
    requires
        cu_ground(site, cmd, h, action, point),
        answered(h, action, reply),
        decision(site, point, reply) is Some,
    ensures
        cu_custody(site, cmd, h).covers(h, decision(site, point, reply)->0),
{
    match point {
        Point::At(spot) => match spot {
            Spot::RouteSaved(_) | Spot::RoutePersisted(_) => {
                lemma_cu_persist_decision(site, cmd, h, action, point, reply);
            },
            Spot::RoutedShape(..) | Spot::Toggled { .. } => {
                lemma_cu_shape_decision(site, cmd, h, action, point, reply);
            },
            Spot::BenchCurrent | Spot::BenchShape(_) | Spot::BenchDone { .. } => {
                lemma_cu_bench_decision(site, cmd, h, action, point, reply);
            },
            Spot::SavedRoute | Spot::SavedRouteArmed(_) | Spot::SavedRouteCount { .. }
            | Spot::LoadedRoute | Spot::LoadedRouteCount(_) => {
                lemma_cu_saved_decision(site, cmd, h, action, point, reply);
            },
            Spot::KatReady { .. } | Spot::KatFull { .. } | Spot::KatSwept => {
                lemma_cu_kat_decision(site, cmd, h, action, point, reply);
            },
            _ => {
                lemma_cu_status_decision(site, cmd, h, action, point, reply);
            },
        },
        _ => {
            lemma_cu_bench_decision(site, cmd, h, action, point, reply);
        },
    }
}

proof fn lemma_cu_warranted_opening(site: Site, cmd: CuCmd, h: History)
    ensures
        cu_custody(site, cmd, h).covers(h, opening(site, Cmd::Cu { action: cmd })),
{
    let custody = cu_custody(site, cmd, h);
    let plan = opening(site, Cmd::Cu { action: cmd });
    match cmd {
        CuCmd::Route { masks, force_unsafe } => {
            lemma_masks(masks.deep_view());
            if let Some(message) = crate::cu::masks_error(masks.deep_view()) {
                assert(masks_close(masks.deep_view(), Outcome::Failed(fault(message))));
            }
        },
        CuCmd::Bench { masks } => {
            assert(masks.deep_view().len() == masks@.len());
            lemma_masks(masks.deep_view());
            if let Some(message) = crate::cu::masks_error(masks.deep_view()) {
                assert(masks_close(masks.deep_view(), Outcome::Failed(fault(message))));
            }
        },
        _ => {},
    }
    assert forall|i: int| 0 <= i < plan.len() implies custody.covers_step(h, #[trigger] plan[i])
        || cut_off(plan, i) by {
        if plan[i] is Do {
            let a = plan[i]->action;
            if !(a matches Action::Host(o) && cu_tolerates(cmd, o)) {
                lemma_cu_error(site, cmd, h, a);
            }
        }
    }
}

/// Law: a CU command does, says and ends with nothing but what its command line and the answers of
/// the host entitle it to. The masks that are routed or benched are those of the command line, each
/// cut to its five bits; only texts that are no hexadecimal numbers are refused.
pub proof fn law_cu_warrants(site: Site, cmd: CuCmd, replies: Seq<Reply>)
    ensures
        ({
            let c = course(site, Cmd::Cu { action: cmd }, replies);
            &&& forall|action: Action<Seq<char>>| #[trigger]
                c.handed(action) ==> cu_may(site, cmd, c.history, action)
            &&& ended(c.plan) == Some(Outcome::<Seq<char>>::Success) ==> c.plan.len() == 0
            &&& ended(c.plan) matches Some(outcome) ==> outcome is Success || cu_may_end(
                cmd,
                c.history,
                outcome,
            )
        }),
{
    let h = course(site, Cmd::Cu { action: cmd }, replies).history;
    let custody = cu_custody(site, cmd, h);
    lemma_cu_warranted_opening(site, cmd, h);
    assert forall|action: Action<Seq<char>>, point: Point<Seq<char>>, reply: Reply|
        #![trigger (custody.ground)(action, point), decision(site, point, reply)]
        (custody.ground)(action, point) && answered(h, action, reply) && decision(
            site,
            point,
            reply,
        ) is Some implies custody.covers(h, decision(site, point, reply)->0) by {
        lemma_cu_decision(site, cmd, h, action, point, reply);
    }
    lemma_custody(site, Cmd::Cu { action: cmd }, replies, custody);
}

/// Law: the row of a dropped WGP names it without its dashes, and says that the fault clears only
/// where the test without it ran to its end and found none.
pub proof fn law_drop_row(r: KatReport)
    ensures
        crate::cu::drop_text(r) == "  drop "@ + left(strip_dashes(r.label@), 16) + " "@ + right(
            r.gflops@,
            8,
        ) + " GFLOPS  "@ + right(dec(r.mismatches as nat), 9) + " mismatch  "@ + (if r.hung {
            "HUNG"@
        } else if r.ok {
            "<- fault clears (suspect)"@
        } else {
            "still faulty"@
        }),
        crate::cu::kat_text(r) == kat_row(r),
{
}

/// A mask of five bits, as it is printed, is taken as it is.
proof fn lemma_printed_mask(n: u32)
    requires
        n < 32,
    ensures
        is_mask(hex2(n as nat), n),
{
    crate::laws_scan::law_mask_text_reads_back(n);
}

/// Law: masks that the suite prints are masks that it takes: four numbers of five bits, written as
/// masks are written, are routed as they are.
pub proof fn law_printed_masks_are_taken(a: u32, b: u32, c: u32, d: u32)
    requires
        a < 32,
        b < 32,
        c < 32,
        d < 32,
    ensures
        masks_given(
            seq![hex2(a as nat), hex2(b as nat), hex2(c as nat), hex2(d as nat)],
            [a, b, c, d],
        ),
{
    lemma_printed_mask(a);
    lemma_printed_mask(b);
    lemma_printed_mask(c);
    lemma_printed_mask(d);
}

} // verus!
