//! CU liberation, routing and health-test commands.
use vstd::prelude::*;

use crate::commands::CuCmd;
use crate::model::{
    fault, new_fault, BenchRun, CuMap, Fault, KatReport, PatchReport, PatchRow, PatchState,
    RouteShape, Site,
};
use crate::plan::{
    act, ask, end, fail, go, judge, must, put, say, say_all, warn, warn_all, Action, Op, Outcome,
    Plan, Point, Routed, RowStyle, Script, Spot, Then,
};
use crate::scan::{hex_number, hex_u32, strip_0x, strip_dashes, undashed};
use crate::text::{dec, hex, hex2, join, joined, left, right, Line};

verus! {

/// The bits of a mask that stand for the WGPs of a shader array.
pub const FULL_MASK: u32 = 0x1f;

/// `yes` or `no`.
pub open spec fn yes_no(b: bool) -> Seq<char> {
    if b {
        "yes"@
    } else {
        "no"@
    }
}

/// `yes` or `no`.
pub fn yn(b: bool) -> (s: &'static str)
    ensures
        s@ == yes_no(b),
{
    if b {
        "yes"
    } else {
        "no"
    }
}

/// Whether what was routed survives a reboot.
pub open spec fn tag(persisted: bool) -> Seq<char> {
    if persisted {
        " — persisted (survives reboot)"@
    } else {
        " (live only — could not persist)"@
    }
}

/// Whether what was routed survives a reboot.
pub fn persist_tag(persisted: bool) -> (s: &'static str)
    ensures
        s@ == tag(persisted),
{
    if persisted {
        " — persisted (survives reboot)"
    } else {
        " (live only — could not persist)"
    }
}

/// The four masks with two hexadecimal digits each.
pub open spec fn masks_text(m: [u32; 4], sep: Seq<char>) -> Seq<char> {
    hex2(m[0] as nat) + sep + hex2(m[1] as nat) + sep + hex2(m[2] as nat) + sep + hex2(m[3] as nat)
}

fn masks_line(m: &[u32; 4], sep: &str) -> (s: String)
    ensures
        s@ == masks_text(*m, sep@),
{
    let s: String = Line::new("").hex2(m[0]).text(sep).hex2(m[1]).text(sep).hex2(m[2]).text(
        sep,
    ).hex2(m[3]).done();
    proof {
        reveal_strlit("");
        assert(""@ + hex2(m[0] as nat) =~= hex2(m[0] as nat));
    }
    s
}

/// The four numbers as a list.
pub open spec fn list_text(m: [u32; 4]) -> Seq<char> {
    "["@ + dec(m[0] as nat) + ", "@ + dec(m[1] as nat) + ", "@ + dec(m[2] as nat) + ", "@ + dec(
        m[3] as nat,
    ) + "]"@
}

fn list_line(m: &[u32; 4]) -> (s: String)
    ensures
        s@ == list_text(*m),
{
    Line::new("[").num(m[0]).text(", ").num(m[1]).text(", ").num(m[2]).text(", ").num(m[3]).text(
        "]",
    ).done()
}

/// The four numbers as a list in hexadecimal.
pub open spec fn hex_list_text(m: [u32; 4]) -> Seq<char> {
    "["@ + hex(m[0] as nat) + ", "@ + hex(m[1] as nat) + ", "@ + hex(m[2] as nat) + ", "@ + hex(
        m[3] as nat,
    ) + "]"@
}

fn hex_list_line(m: &[u32; 4]) -> (s: String)
    ensures
        s@ == hex_list_text(*m),
{
    Line::new("[").hex(m[0]).text(", ").hex(m[1]).text(", ").hex(m[2]).text(", ").hex(m[3]).text(
        "]",
    ).done()
}

/// The WGP bits of the mask that `s` writes, if it writes one.
pub open spec fn mask_value(s: Seq<char>) -> Option<u32> {
    match hex_u32(strip_0x(s)) {
        Some(n) => Some(n & FULL_MASK),
        None => None,
    }
}

/// What is wrong with the masks, the first of them first.
pub open spec fn masks_error(masks: Seq<Seq<char>>) -> Option<Seq<char>> {
    if masks.len() != 4 {
        Some("need 4 masks (SE0.SH0 SE0.SH1 SE1.SH0 SE1.SH1)"@)
    } else if mask_value(masks[0]) is None {
        Some("bad hex mask: "@ + masks[0])
    } else if mask_value(masks[1]) is None {
        Some("bad hex mask: "@ + masks[1])
    } else if mask_value(masks[2]) is None {
        Some("bad hex mask: "@ + masks[2])
    } else if mask_value(masks[3]) is None {
        Some("bad hex mask: "@ + masks[3])
    } else {
        None
    }
}

/// The masks, where nothing is wrong with them.
pub open spec fn masks_of(masks: Seq<Seq<char>>) -> [u32; 4] {
    [
        mask_value(masks[0])->0,
        mask_value(masks[1])->0,
        mask_value(masks[2])->0,
        mask_value(masks[3])->0,
    ]
}

fn parse_mask(s: &String) -> (r: Result<u32, Fault<String>>)
    ensures
        match r {
            Ok(n) => mask_value(s@) == Some(n),
            Err(f) => mask_value(s@) is None && f@ == fault("bad hex mask: "@ + s@),
        },
{
    match hex_number(s.as_str()) {
        Some(n) => Ok(n & FULL_MASK),
        None => Err(new_fault(Line::new("bad hex mask: ").text(s.as_str()).done())),
    }
}

/// Parses the four per-array hexadecimal WGP masks; only the low five bits of each matter.
pub fn parse_masks(masks: &[String]) -> (r: Result<[u32; 4], Fault<String>>)
    ensures
        match r {
            Ok(m) => masks_error(masks.deep_view()) is None && m == masks_of(masks.deep_view()),
            Err(f) => masks_error(masks.deep_view()) == Some(f.message@) && f@ == fault(f.message@),
        },
{
    let ghost texts = masks.deep_view();
    if masks.len() != 4 {
        return Err(new_fault("need 4 masks (SE0.SH0 SE0.SH1 SE1.SH0 SE1.SH1)".to_owned()));
    }
    assert(texts[0] == masks[0]@ && texts[1] == masks[1]@ && texts[2] == masks[2]@ && texts[3]
        == masks[3]@);
    let a: u32 = match parse_mask(&masks[0]) {
        Ok(n) => n,
        Err(f) => {
            return Err(f);
        },
    };
    let b: u32 = match parse_mask(&masks[1]) {
        Ok(n) => n,
        Err(f) => {
            return Err(f);
        },
    };
    let c: u32 = match parse_mask(&masks[2]) {
        Ok(n) => n,
        Err(f) => {
            return Err(f);
        },
    };
    let d: u32 = match parse_mask(&masks[3]) {
        Ok(n) => n,
        Err(f) => {
            return Err(f);
        },
    };
    let m: [u32; 4] = [a, b, c, d];
    assert(m =~= masks_of(texts));
    Ok(m)
}

/// The opening plan of a CU command.
pub open spec fn cu_plan(site: Site, cmd: CuCmd) -> Plan {
    match cmd {
        CuCmd::Status => seq![
            say("40-CU liberation:"@),
            ask(Op::CuArmed, Spot::CuArmed),
            ask(Op::CuPersisted, Spot::CuPersisted),
            ask(Op::CuMap, Spot::CuStatusMap),
            say("live routing (SPI dispatch):"@),
            judge(Op::CurrentMasks, Spot::LiveRoute),
            ask(Op::RouteArmed, Spot::RouteArmed),
        ],
        CuCmd::Enable => seq![
            must(Op::ArmCu),
            say("persisted: "@ + site.modprobe_conf@),
            say("now run `mkinitcpio -P` (or your initramfs tool) and reboot."@),
            ask(Op::PatchReport, Spot::CuEnabled),
        ],
        CuCmd::Disable => seq![
            must(Op::DisarmCu),
            say("removed: "@ + site.modprobe_conf@ + " (reverts to 24 CU next boot)"@),
        ],
        CuCmd::RouteAll => seq![must(Op::RouteAll)] + persist_plan(Routed::All),
        CuCmd::RouteFactory => seq![must(Op::RouteFactory)] + persist_plan(Routed::Factory),
        CuCmd::Route { masks, force_unsafe } => route_plan(masks.deep_view(), force_unsafe),
        CuCmd::Toggle { array, wgp, force_unsafe } => toggle_plan(array, wgp, force_unsafe),
        CuCmd::Bench { masks } => if masks@.len() == 0 {
            seq![ask(Op::CurrentMasks, Spot::BenchCurrent)]
        } else {
            match masks_error(masks.deep_view()) {
                Some(message) => seq![fail(message)],
                None => bench_plan(masks_of(masks.deep_view())),
            }
        },
        CuCmd::RouteSave => seq![ask(Op::SaveRoute, Spot::SavedRoute)],
        CuCmd::RouteLoad => seq![ask(Op::ApplySavedRoute, Spot::LoadedRoute)],
        CuCmd::RouteForget => seq![
            go(Op::DisarmRoute),
            say(
                "boot route re-apply disarmed (unit removed); "@ + site.route_profile@
                    + " kept — `cu route-save` re-arms"@,
            ),
        ],
        CuCmd::Test { localize, probe } => test_plan(localize, probe),
    }
}

/// Opens a CU command.
pub fn cmd_cu(site: &Site, action: CuCmd) -> (s: Script)
    ensures
        s@ == cu_plan(*site, action),
{
    match action {
        CuCmd::Status => Script::new().tell("40-CU liberation:").ask(
            Op::CuArmed,
            Spot::CuArmed,
        ).ask(Op::CuPersisted, Spot::CuPersisted).ask(Op::CuMap, Spot::CuStatusMap).tell(
            "live routing (SPI dispatch):",
        ).judge(Op::CurrentMasks, Spot::LiveRoute).ask(Op::RouteArmed, Spot::RouteArmed),
        CuCmd::Enable => Script::new().must(Op::ArmCu).say(
            Line::new("persisted: ").text(site.modprobe_conf.as_str()),
        ).tell("now run `mkinitcpio -P` (or your initramfs tool) and reboot.").ask(
            Op::PatchReport,
            Spot::CuEnabled,
        ),
        CuCmd::Disable => Script::new().must(Op::DisarmCu).say(
            Line::new("removed: ").text(site.modprobe_conf.as_str()).text(
                " (reverts to 24 CU next boot)",
            ),
        ),
        CuCmd::RouteAll => Script::new().must(Op::RouteAll).and(persist_route(Routed::All)),
        CuCmd::RouteFactory => Script::new().must(Op::RouteFactory).and(
            persist_route(Routed::Factory),
        ),
        CuCmd::Route { masks, force_unsafe } => route(&masks, force_unsafe),
        CuCmd::Toggle { array, wgp, force_unsafe } => toggle(array, wgp, force_unsafe),
        CuCmd::Bench { masks } => if masks.len() == 0 {
            Script::new().ask(Op::CurrentMasks, Spot::BenchCurrent)
        } else {
            match parse_masks(masks.as_slice()) {
                Ok(m) => bench(&m),
                Err(f) => Script::new().end(Outcome::Failed(f)),
            }
        },
        CuCmd::RouteSave => Script::new().ask(Op::SaveRoute, Spot::SavedRoute),
        CuCmd::RouteLoad => Script::new().ask(Op::ApplySavedRoute, Spot::LoadedRoute),
        CuCmd::RouteForget => Script::new().go(Op::DisarmRoute).say(
            Line::new("boot route re-apply disarmed (unit removed); ").text(
                site.route_profile.as_str(),
            ).text(" kept — `cu route-save` re-arms"),
        ),
        CuCmd::Test { localize, probe } => cmd_cu_test(localize, probe),
    }
}

/// The harvest map, or that there is none.
pub open spec fn status_map_plan(map: Option<CuMap>) -> Plan {
    match map {
        Some(m) => seq![put(m.rendered@)],
        None => seq![say("  harvest map: unavailable (amdgpu not queryable)"@)],
    }
}

/// Shows the harvest map within the CU state.
pub fn status_map(map: &Option<CuMap>) -> (s: Script)
    ensures
        s@ == status_map_plan(*map),
{
    match map {
        Some(m) => Script::new().put(m.rendered.as_str()),
        None => Script::new().tell("  harvest map: unavailable (amdgpu not queryable)"),
    }
}

/// The shape of the live routing, and what it warns of.
pub open spec fn live_shape_plan(m: [u32; 4], shape: RouteShape) -> Plan {
    seq![
        say(
            "  masks: ["@ + masks_text(m, " "@) + "]  ("@ + list_text(shape.per_array_wgp)
                + " WGP/array)"@,
        ),
        say(
            "  routed: "@ + dec(shape.cu as nat) + "/40 CU ("@ + dec(shape.populated as nat)
                + " arrays, "@ + dec(shape.effective_cu as nat) + " effective)"@,
        ),
    ] + say_all("  ! "@, shape.warnings.deep_view())
}

/// Shows the live routing.
pub fn live_shape(m: &[u32; 4], shape: &RouteShape) -> (s: Script)
    ensures
        s@ == live_shape_plan(*m, *shape),
{
    Script::new().say(
        Line::new("  masks: [").text(masks_line(m, " ").as_str()).text("]  (").text(
            list_line(&shape.per_array_wgp).as_str(),
        ).text(" WGP/array)"),
    ).say(
        Line::new("  routed: ").num(shape.cu).text("/40 CU (").num(shape.populated).text(
            " arrays, ",
        ).num(shape.effective_cu).text(" effective)"),
    ).say_all("  ! ", &shape.warnings)
}

/// Whether the boot re-apply of the routing is armed.
pub open spec fn route_armed_plan(site: Site, armed: bool) -> Plan {
    seq![
        say(
            "  boot route re-apply: "@ + if armed {
                "armed ("@ + site.route_unit@ + ")"@
            } else {
                "not armed"@
            },
        ),
    ]
}

/// Shows whether the boot re-apply of the routing is armed.
pub fn route_armed(site: &Site, armed: bool) -> (s: Script)
    ensures
        s@ == route_armed_plan(*site, armed),
{
    let state: String = if armed {
        Line::new("armed (").text(site.route_unit.as_str()).text(")").done()
    } else {
        "not armed".to_owned()
    };
    Script::new().say(Line::new("  boot route re-apply: ").text(state.as_str()))
}

/// Whether the rows show the 40-CU patch to be present.
pub open spec fn cu_patch_live(rows: Seq<PatchRow>) -> bool {
    exists|i: int|
        0 <= i < rows.len() && (#[trigger] rows[i]).id@ == "12"@ && rows[i].state
            == PatchState::Present
}

fn cu_patch_found(rows: &Vec<PatchRow>) -> (b: bool)
    ensures
        b == cu_patch_live(rows@),
{
    let mut i: usize = 0;
    while i < rows.len()
        invariant
            i <= rows.len(),
            forall|j: int|
                0 <= j < i ==> !((#[trigger] rows@[j]).id@ == "12"@ && rows@[j].state
                    == PatchState::Present),
        decreases rows.len() - i,
    {
        let present: bool = match rows[i].state {
            PatchState::Present => true,
            _ => false,
        };
        if rows[i].id == "12".to_owned() && present {
            return true;
        }
        i = i + 1;
    }
    false
}

/// Arming without the patched kernel is warned of.
pub open spec fn enabled_plan(report: PatchReport) -> Plan {
    if cu_patch_live(report.rows@) {
        Plan::empty()
    } else {
        seq![
            say(
                "WARNING: the 40-CU kernel patch (12) is not detected live — enable will be a no-op until the patched kernel is built in (`arieltune apu build`)."@,
            ),
        ]
    }
}

/// Warns where the 40 CUs were armed without the patched kernel.
pub fn enabled(report: &PatchReport) -> (s: Script)
    ensures
        s@ == enabled_plan(*report),
{
    if cu_patch_found(&report.rows) {
        Script::new()
    } else {
        Script::new().tell(
            "WARNING: the 40-CU kernel patch (12) is not detected live — enable will be a no-op until the patched kernel is built in (`arieltune apu build`).",
        )
    }
}

/// What was routed is persisted: the live masks are saved first.
pub open spec fn persist_plan(routed: Routed) -> Plan {
    seq![judge(Op::SaveRoute, Spot::RouteSaved(routed))]
}

/// Persists what was routed.
pub fn persist_route(routed: Routed) -> (s: Script)
    ensures
        s@ == persist_plan(routed),
{
    Script::new().judge(Op::SaveRoute, Spot::RouteSaved(routed))
}

/// The boot re-apply is armed only where the routing was saved.
pub open spec fn route_saved_plan(routed: Routed, saved: bool) -> Plan {
    if saved {
        seq![judge(Op::ArmRoute, Spot::RoutePersisted(routed))]
    } else {
        routed_plan(routed, false)
    }
}

/// Goes on once the routing was saved or could not be.
pub fn route_saved(routed: Routed, saved: bool) -> (s: Script)
    ensures
        s@ == route_saved_plan(routed, saved),
{
    if saved {
        Script::new().judge(Op::ArmRoute, Spot::RoutePersisted(routed))
    } else {
        route_done(routed, false)
    }
}

/// What is said of a routing, or first the question of its shape.
pub open spec fn routed_plan(routed: Routed, persisted: bool) -> Plan {
    match routed {
        Routed::All => seq![say("routed all 40 CUs"@ + tag(persisted))],
        Routed::Factory => seq![say("routed factory dispatch (24 CU)"@ + tag(persisted))],
        Routed::Masks(m) => seq![ask(Op::RouteShape(m), Spot::RoutedShape(routed, persisted))],
        Routed::Toggled { array, wgp, masks } => seq![
            ask(Op::RouteShape(masks), Spot::RoutedShape(routed, persisted)),
        ],
    }
}

/// Reports a routing, or asks for its shape first.
pub fn route_done(routed: Routed, persisted: bool) -> (s: Script)
    ensures
        s@ == routed_plan(routed, persisted),
{
    match routed {
        Routed::All => Script::new().say(
            Line::new("routed all 40 CUs").text(persist_tag(persisted)),
        ),
        Routed::Factory => Script::new().say(
            Line::new("routed factory dispatch (24 CU)").text(persist_tag(persisted)),
        ),
        Routed::Masks(m) => Script::new().ask(
            Op::RouteShape(m),
            Spot::RoutedShape(routed, persisted),
        ),
        Routed::Toggled { array: _, wgp: _, masks } => Script::new().ask(
            Op::RouteShape(masks),
            Spot::RoutedShape(routed, persisted),
        ),
    }
}

/// What is said of a routing of known shape, and what it warns of.
pub open spec fn routed_shape_plan(routed: Routed, persisted: bool, shape: RouteShape) -> Plan {
    let line = match routed {
        Routed::All => "routed all 40 CUs"@ + tag(persisted),
        Routed::Factory => "routed factory dispatch (24 CU)"@ + tag(persisted),
        Routed::Masks(m) => "routed "@ + dec(shape.cu as nat) + " CUs: ["@ + masks_text(m, ", "@)
            + "]"@ + tag(persisted),
        Routed::Toggled { array, wgp, masks } => "toggled SE"@ + dec((array / 2) as nat) + ".SH"@
            + dec((array % 2) as nat) + " W"@ + dec(wgp as nat) + " -> "@ + dec(shape.cu as nat)
            + " CU routed"@ + tag(persisted),
    };
    seq![say(line)] + warn_all("WARNING: "@, shape.warnings.deep_view())
}

/// Reports a routing of known shape.
pub fn routed_shape(routed: Routed, persisted: bool, shape: &RouteShape) -> (s: Script)
    ensures
        s@ == routed_shape_plan(routed, persisted, *shape),
{
    let line: Line = match routed {
        Routed::All => Line::new("routed all 40 CUs").text(persist_tag(persisted)),
        Routed::Factory => Line::new("routed factory dispatch (24 CU)").text(
            persist_tag(persisted),
        ),
        Routed::Masks(m) => Line::new("routed ").num(shape.cu).text(" CUs: [").text(
            masks_line(&m, ", ").as_str(),
        ).text("]").text(persist_tag(persisted)),
        Routed::Toggled { array, wgp, masks: _ } => Line::new("toggled SE").num(array / 2).text(
            ".SH",
        ).num(array % 2).text(" W").num(wgp).text(" -> ").num(shape.cu).text(" CU routed").text(
            persist_tag(persisted),
        ),
    };
    Script::new().say(line).warn_all("WARNING: ", &shape.warnings)
}

/// The warning that comes with a bypass of the guard against empty shader arrays.
pub open spec fn unsafe_warning() -> Seq<char> {
    "WARNING: --force-unsafe — empty-shader-array wedge guard bypassed"@
}

/// The masks are routed, past the guard only where that is asked for, and persisted.
pub open spec fn route_plan(masks: Seq<Seq<char>>, force_unsafe: bool) -> Plan {
    match masks_error(masks) {
        Some(message) => seq![fail(message)],
        None => {
            let m = masks_of(masks);
            if force_unsafe {
                seq![warn(unsafe_warning()), must(Op::ApplyRouteForced(m))] + persist_plan(
                    Routed::Masks(m),
                )
            } else {
                seq![must(Op::ApplyRoute(m))] + persist_plan(Routed::Masks(m))
            }
        },
    }
}

fn route(masks: &Vec<String>, force_unsafe: bool) -> (s: Script)
    ensures
        s@ == route_plan(masks.deep_view(), force_unsafe),
{
    match parse_masks(masks.as_slice()) {
        Ok(m) => if force_unsafe {
            Script::new().warn(
                Line::new("WARNING: --force-unsafe — empty-shader-array wedge guard bypassed"),
            ).must(Op::ApplyRouteForced(m)).and(persist_route(Routed::Masks(m)))
        } else {
            Script::new().must(Op::ApplyRoute(m)).and(persist_route(Routed::Masks(m)))
        },
        Err(f) => Script::new().end(Outcome::Failed(f)),
    }
}

/// A WGP that exists is toggled.
pub open spec fn toggle_plan(array: u32, wgp: u32, force_unsafe: bool) -> Plan {
    let toggle = ask(Op::ToggleWgp { array, wgp, force_unsafe }, Spot::Toggled { array, wgp });
    if array >= 4 {
        seq![fail("array must be 0..3 (SE0.SH0/SE0.SH1/SE1.SH0/SE1.SH1)"@)]
    } else if wgp >= 5 {
        seq![fail("wgp must be 0..4"@)]
    } else if force_unsafe {
        seq![warn(unsafe_warning()), toggle]
    } else {
        seq![toggle]
    }
}

fn toggle(array: u32, wgp: u32, force_unsafe: bool) -> (s: Script)
    ensures
        s@ == toggle_plan(array, wgp, force_unsafe),
{
    if array >= 4 {
        return Script::new().fail(
            Line::new("array must be 0..3 (SE0.SH0/SE0.SH1/SE1.SH0/SE1.SH1)"),
        );
    }
    if wgp >= 5 {
        return Script::new().fail(Line::new("wgp must be 0..4"));
    }
    let s: Script = if force_unsafe {
        Script::new().warn(
            Line::new("WARNING: --force-unsafe — empty-shader-array wedge guard bypassed"),
        )
    } else {
        Script::new()
    };
    s.ask(Op::ToggleWgp { array, wgp, force_unsafe }, Spot::Toggled { array, wgp })
}

/// A bench first asks for the shape of the routing.
pub open spec fn bench_plan(m: [u32; 4]) -> Plan {
    seq![ask(Op::RouteShape(m), Spot::BenchShape(m))]
}

/// Opens a bench of a routing.
pub fn bench(m: &[u32; 4]) -> (s: Script)
    ensures
        s@ == bench_plan(*m),
{
    Script::new().ask(Op::RouteShape(*m), Spot::BenchShape(*m))
}

/// What the routing warns of comes before its bench.
pub open spec fn bench_shape_plan(m: [u32; 4], shape: RouteShape) -> Plan {
    warn_all("WARNING: "@, shape.warnings.deep_view()).push(
        ask(Op::BenchRoute(m), Spot::BenchDone { masks: m, cu: shape.cu }),
    )
}

/// Goes on with a bench once the shape of the routing is known.
pub fn bench_shape(m: &[u32; 4], shape: &RouteShape) -> (s: Script)
    ensures
        s@ == bench_shape_plan(*m, *shape),
{
    let s: Script = Script::new().warn_all("WARNING: ", &shape.warnings);
    assert(Plan::empty() + warn_all("WARNING: "@, shape.warnings.deep_view()) =~= warn_all(
        "WARNING: "@,
        shape.warnings.deep_view(),
    ));
    s.ask(Op::BenchRoute(*m), Spot::BenchDone { masks: *m, cu: shape.cu })
}

/// Whether a bench came out right.
pub open spec fn bench_verdict(run: BenchRun) -> Seq<char> {
    if run.hung {
        "HUNG"@
    } else if run.ok {
        "correct"@
    } else {
        dec(run.mismatches as nat) + " mismatches"@
    }
}

/// What is said of a bench.
pub open spec fn bench_line(
    m: [u32; 4],
    cu: u32,
    gflops: Seq<char>,
    per: Seq<char>,
    verdict: Seq<char>,
) -> Plan {
    seq![
        say(
            "bench ["@ + masks_text(m, " "@) + "]: "@ + dec(cu as nat) + " CU routed  —  "@ + gflops
                + " GFLOPS  ("@ + per + " /CU)  ("@ + verdict + ")"@,
        ),
    ]
}

/// Reports a bench.
pub fn bench_report(
    m: &[u32; 4],
    cu: u32,
    gflops: &String,
    per: &str,
    verdict: &String,
) -> (s: Script)
    ensures
        s@ == bench_line(*m, cu, gflops@, per@, verdict@),
{
    Script::new().say(
        Line::new("bench [").text(masks_line(m, " ").as_str()).text("]: ").num(cu).text(
            " CU routed  —  ",
        ).text(gflops.as_str()).text(" GFLOPS  (").text(per).text(" /CU)  (").text(
            verdict.as_str(),
        ).text(")"),
    )
}

/// The throughput per CU is zero where no CU is routed.
pub open spec fn bench_done_plan(m: [u32; 4], cu: u32, run: BenchRun) -> Plan {
    if cu > 0 {
        seq![
            act(
                Action::Host(Op::BenchPerCu(cu)),
                Then::Ask(
                    Point::BenchPerCu {
                        masks: m,
                        cu,
                        gflops: run.gflops@,
                        verdict: bench_verdict(run),
                    },
                ),
            ),
        ]
    } else {
        bench_line(m, cu, run.gflops@, "0.0"@, bench_verdict(run))
    }
}

/// Goes on with a bench once it has run.
pub fn bench_done(m: &[u32; 4], cu: u32, run: &BenchRun) -> (s: Script)
    ensures
        s@ == bench_done_plan(*m, cu, *run),
{
    let verdict: String = if run.hung {
        "HUNG".to_owned()
    } else if run.ok {
        "correct".to_owned()
    } else {
        Line::long_number(run.mismatches).text(" mismatches").done()
    };
    if cu > 0 {
        Script::new().act(
            Action::Host(Op::BenchPerCu(cu)),
            Then::Ask(
                Point::BenchPerCu { masks: *m, cu, gflops: run.gflops.clone(), verdict },
            ),
        )
    } else {
        bench_report(m, cu, &run.gflops, "0.0", &verdict)
    }
}

/// What is said of a saved routing.
pub open spec fn saved_route_plan(site: Site, m: [u32; 4], armed: bool, cu: u32) -> Plan {
    seq![
        say(
            "saved service routing: "@ + hex_list_text(m) + " ("@ + dec(cu as nat) + " CU) -> "@
                + site.route_profile@ + if armed {
                " (boot re-apply armed)"@
            } else {
                " (boot re-apply NOT armed)"@
            },
        ),
    ]
}

/// Reports a saved routing.
pub fn saved_route(site: &Site, m: &[u32; 4], armed: bool, cu: u32) -> (s: Script)
    ensures
        s@ == saved_route_plan(*site, *m, armed, cu),
{
    Script::new().say(
        Line::new("saved service routing: ").text(hex_list_line(m).as_str()).text(" (").num(
            cu,
        ).text(" CU) -> ").text(site.route_profile.as_str()).text(
            if armed {
                " (boot re-apply armed)"
            } else {
                " (boot re-apply NOT armed)"
            },
        ),
    )
}

/// What is said of a saved routing that was applied.
pub open spec fn loaded_route_plan(m: [u32; 4], cu: u32) -> Plan {
    seq![
        say(
            "applied service routing: "@ + hex_list_text(m) + " ("@ + dec(cu as nat) + " CU)"@,
        ),
    ]
}

/// Reports a saved routing that was applied.
pub fn loaded_route(m: &[u32; 4], cu: u32) -> (s: Script)
    ensures
        s@ == loaded_route_plan(*m, cu),
{
    Script::new().say(
        Line::new("applied service routing: ").text(hex_list_line(m).as_str()).text(" (").num(
            cu,
        ).text(" CU)"),
    )
}

/// The row of a health test.
pub open spec fn kat_text(h: KatReport) -> Seq<char> {
    "  "@ + left(h.label@, 14) + " "@ + right(dec(h.cu_count as nat), 3) + " CU  "@ + right(
        h.millis@,
        7,
    ) + " ms  "@ + right(h.gflops@, 8) + " GFLOPS  "@ + right(dec(h.mismatches as nat), 9) + "  "@
        + h.verdict@
}

/// The row of a health test.
pub fn kat_row(h: &KatReport) -> (s: String)
    ensures
        s@ == kat_text(*h),
{
    kat_line(h).done()
}

fn kat_line(h: &KatReport) -> (line: Line)
    ensures
        line@ == kat_text(*h),
{
    Line::new("  ").left(h.label.as_str(), 14).text(" ").right(
        crate::text::decimal(h.cu_count).as_str(),
        3,
    ).text(" CU  ").right(h.millis.as_str(), 7).text(" ms  ").right(h.gflops.as_str(), 8).text(
        " GFLOPS  ",
    ).right(Line::long_number(h.mismatches).done().as_str(), 9).text("  ").text(h.verdict.as_str())
}

/// The row of a sweep that drops one WGP.
pub open spec fn drop_text(h: KatReport) -> Seq<char> {
    "  drop "@ + left(strip_dashes(h.label@), 16) + " "@ + right(h.gflops@, 8) + " GFLOPS  "@
        + right(dec(h.mismatches as nat), 9) + " mismatch  "@ + if h.hung {
        "HUNG"@
    } else if h.ok {
        "<- fault clears (suspect)"@
    } else {
        "still faulty"@
    }
}

/// The row of a sweep that drops one WGP.
pub fn drop_row(h: &KatReport) -> (s: String)
    ensures
        s@ == drop_text(*h),
{
    Line::new("  drop ").left(undashed(h.label.as_str()).as_str(), 16).text(" ").right(
        h.gflops.as_str(),
        8,
    ).text(" GFLOPS  ").right(Line::long_number(h.mismatches).done().as_str(), 9).text(
        " mismatch  ",
    ).text(
        if h.hung {
            "HUNG"
        } else if h.ok {
            "<- fault clears (suspect)"
        } else {
            "still faulty"
        },
    ).done()
}

/// A health test first asks whether it can run.
pub open spec fn test_plan(localize: bool, probe: bool) -> Plan {
    seq![ask(Op::KatAvailable, Spot::KatReady { localize, probe })]
}

/// Opens a health test.
pub fn cmd_cu_test(localize: bool, probe: bool) -> (s: Script)
    ensures
        s@ == test_plan(localize, probe),
{
    Script::new().ask(Op::KatAvailable, Spot::KatReady { localize, probe })
}

/// A probe runs the sweep alone; else the full routing is tested.
pub open spec fn kat_ready_plan(localize: bool, probe: bool, available: bool) -> Plan {
    if !available {
        seq![
            fail(
                "health-test needs umr (routing) and a Vulkan ICD (RADV). install: pacman -S umr vulkan-radeon vulkan-icd-loader"@,
            ),
        ]
    } else if probe {
        seq![
            say("PROBE: subtractive sweep (full-40 minus one WGP) — safety check\n"@),
            must(Op::KatLocalize(RowStyle::Kat)),
        ]
    } else {
        seq![
            say("CU health-test — known-answer Vulkan compute (KAT)\n"@),
            ask(Op::KatFull, Spot::KatFull { localize }),
        ]
    }
}

/// Goes on with a health test once it is known whether it can run.
pub fn kat_ready(localize: bool, probe: bool, available: bool) -> (s: Script)
    ensures
        s@ == kat_ready_plan(localize, probe, available),
{
    if !available {
        Script::new().fail(
            Line::new(
                "health-test needs umr (routing) and a Vulkan ICD (RADV). install: pacman -S umr vulkan-radeon vulkan-icd-loader",
            ),
        )
    } else if probe {
        Script::new().tell(
            "PROBE: subtractive sweep (full-40 minus one WGP) — safety check\n",
        ).must(Op::KatLocalize(RowStyle::Kat))
    } else {
        Script::new().tell("CU health-test — known-answer Vulkan compute (KAT)\n").ask(
            Op::KatFull,
            Spot::KatFull { localize },
        )
    }
}

/// A fault ends the process with status 1, after the sweep that localizes it where that is asked
/// for.
pub open spec fn kat_full_plan(localize: bool, h: KatReport) -> Plan {
    if h.ok {
        seq![say(kat_text(h)), say("\nall 40 CUs healthy."@)]
    } else {
        let faulty = say("\na CU is faulty ("@ + dec(h.mismatches as nat) + " mismatches)."@);
        if localize {
            seq![
                say(kat_text(h)),
                faulty,
                say("\nlocalizing — routing full-40 minus one WGP at a time:"@),
                ask(Op::KatLocalize(RowStyle::Drop), Spot::KatSwept),
            ]
        } else {
            seq![
                say(kat_text(h)),
                faulty,
                say("re-run with --localize to pinpoint the bad WGP."@),
                end(Outcome::Exit(1)),
            ]
        }
    }
}

/// Goes on with a health test once the full routing is tested.
pub fn kat_full(localize: bool, h: &KatReport) -> (s: Script)
    ensures
        s@ == kat_full_plan(localize, *h),
{
    let s: Script = Script::new().say(kat_line(h));
    if h.ok {
        return s.tell("\nall 40 CUs healthy.");
    }
    let s: Script = s.say(
        Line::new("\na CU is faulty (").long(h.mismatches).text(" mismatches)."),
    );
    if localize {
        s.tell("\nlocalizing — routing full-40 minus one WGP at a time:").ask(
            Op::KatLocalize(RowStyle::Drop),
            Spot::KatSwept,
        )
    } else {
        s.tell("re-run with --localize to pinpoint the bad WGP.").end(Outcome::Exit(1))
    }
}

/// The WGPs without which the fault was gone, in the order of the sweep.
pub open spec fn suspects(rows: Seq<KatReport>) -> Seq<Seq<char>>
    decreases rows.len(),
{
    if rows.len() == 0 {
        Seq::empty()
    } else if rows.last().ok {
        suspects(rows.drop_last()).push(strip_dashes(rows.last().label@))
    } else {
        suspects(rows.drop_last())
    }
}

fn suspect_labels(rows: &Vec<KatReport>) -> (labels: Vec<String>)
    ensures
        labels.deep_view() == suspects(rows@),
{
    let mut labels: Vec<String> = Vec::new();
    let mut i: usize = 0;
    assert(labels.deep_view() =~= suspects(rows@.take(0)));
    while i < rows.len()
        invariant
            i <= rows.len(),
            labels.deep_view() == suspects(rows@.take(i as int)),
        decreases rows.len() - i,
    {
        proof {
            assert(rows@.take(i + 1).drop_last() =~= rows@.take(i as int));
        }
        if rows[i].ok {
            let ghost before = labels.deep_view();
            labels.push(undashed(rows[i].label.as_str()));
            assert(labels.deep_view() =~= before.push(strip_dashes(rows@[i as int].label@)));
        }
        i = i + 1;
    }
    assert(rows@.take(i as int) =~= rows@);
    labels
}

/// What the sweep shows, then the end of the process with status 1.
pub open spec fn kat_swept_plan(rows: Seq<KatReport>) -> Plan {
    if suspects(rows).len() == 0 {
        seq![
            say(""@),
            say("could not isolate a single WGP (multiple bad, or intermittent)"@),
            end(Outcome::Exit(1)),
        ]
    } else {
        seq![
            say(""@),
            say("bad WGP: "@ + join(suspects(rows), ", "@)),
            say("route around it: edit the routing in the TUI, then `cu route-save`"@),
            end(Outcome::Exit(1)),
        ]
    }
}

/// Ends a health test that localized its fault.
pub fn kat_swept(rows: &Vec<KatReport>) -> (s: Script)
    ensures
        s@ == kat_swept_plan(rows@),
{
    let labels: Vec<String> = suspect_labels(rows);
    assert(labels@.len() == suspects(rows@).len());
    let s: Script = Script::new().tell("");
    let s: Script = if labels.len() == 0 {
        s.tell("could not isolate a single WGP (multiple bad, or intermittent)")
    } else {
        s.say(Line::new("bad WGP: ").text(joined(&labels, ", ").as_str())).tell(
            "route around it: edit the routing in the TUI, then `cu route-save`",
        )
    };
    s.end(Outcome::Exit(1))
}

} // verus!
