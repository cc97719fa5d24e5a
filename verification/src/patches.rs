//! The patch series: its report, and the preflight.
use vstd::prelude::*;

use crate::cu::{yes_no, yn};
use crate::model::{CuMap, Patch, PatchReport, PatchRow, PatchState, PowerConfig};
use crate::plan::{act, ask, fail, put, say, Action, Op, Plan, Point, Script, Spot, Then};
use crate::text::{dec, left, Line};

verus! {

/// One patch is looked up in the series; else the booted kernel is probed for all of them.
pub open spec fn patches_plan(show: Option<String>) -> Plan {
    match show {
        Some(id) => seq![
            act(Action::Host(Op::PatchSeries), Then::Ask(Point::ShowPatch(id@))),
        ],
        None => seq![ask(Op::PatchReport, Spot::Patches)],
    }
}

/// Opens the patch report.
pub fn cmd_patches(show: Option<String>) -> (s: Script)
    ensures
        s@ == patches_plan(show),
{
    match show {
        Some(id) => Script::new().act(
            Action::Host(Op::PatchSeries),
            Then::Ask(Point::ShowPatch(id)),
        ),
        None => Script::new().ask(Op::PatchReport, Spot::Patches),
    }
}

/// The first patch with this id.
pub open spec fn find_patch(series: Seq<Patch>, id: Seq<char>) -> Option<Patch>
    decreases series.len(),
{
    if series.len() == 0 {
        None
    } else if series[0].id@ == id {
        Some(series[0])
    } else {
        find_patch(series.drop_first(), id)
    }
}

/// The header and the body of a patch, or that there is no such patch.
pub open spec fn show_plan(series: Seq<Patch>, id: Seq<char>) -> Plan {
    match find_patch(series, id) {
        Some(p) => seq![
            say("# "@ + p.id@ + " — "@ + p.title@ + "\n# touches: "@ + p.touches@ + "\n"@),
            put(p.body@),
        ],
        None => seq![say("no such patch: "@ + id)],
    }
}

/// Shows one patch.
pub fn show(series: &Vec<Patch>, id: &String) -> (s: Script)
    ensures
        s@ == show_plan(series@, id@),
{
    let mut i: usize = 0;
    assert(series@.skip(0) =~= series@);
    while i < series.len()
        invariant
            i <= series.len(),
            find_patch(series@, id@) == find_patch(series@.skip(i as int), id@),
        decreases series.len() - i,
    {
        let p: &Patch = &series[i];
        if p.id == *id {
            return Script::new().say(
                Line::new("# ").text(p.id.as_str()).text(" — ").text(p.title.as_str()).text(
                    "\n# touches: ",
                ).text(p.touches.as_str()).text("\n"),
            ).put(p.body.as_str());
        }
        assert(series@.skip(i as int).drop_first() =~= series@.skip(i + 1));
        i = i + 1;
    }
    Script::new().say(Line::new("no such patch: ").text(id.as_str()))
}

/// The row of one patch.
pub open spec fn row_text(prefix: Seq<char>, r: PatchRow) -> Seq<char> {
    prefix + r.glyph@ + " "@ + left(r.id@, 5) + " "@ + r.title@
}

/// The rows of a report.
pub open spec fn rows_plan(prefix: Seq<char>, rows: Seq<PatchRow>) -> Plan {
    rows.map_values(|r: PatchRow| say(row_text(prefix, r)))
}

fn rows_script(prefix: &str, rows: &Vec<PatchRow>) -> (s: Script)
    ensures
        s@ == rows_plan(prefix@, rows@),
{
    let ghost all = rows_plan(prefix@, rows@);
    let mut s: Script = Script::new();
    let mut i: usize = 0;
    assert(s@ =~= all.take(0));
    while i < rows.len()
        invariant
            i <= rows.len(),
            all == rows_plan(prefix@, rows@),
            s@ == all.take(i as int),
        decreases rows.len() - i,
    {
        let r: &PatchRow = &rows[i];
        s = s.say(
            Line::new(prefix).text(r.glyph.as_str()).text(" ").left(r.id.as_str(), 5).text(
                " ",
            ).text(r.title.as_str()),
        );
        assert(all.take(i + 1) =~= all.take(i as int).push(all[i as int]));
        i = i + 1;
    }
    assert(all.take(i as int) =~= all);
    s
}

/// The report of the booted kernel.
pub open spec fn report_plan(rep: PatchReport) -> Plan {
    let head = seq![
        say(
            "BC-250: "@ + if rep.is_bc250 {
                "yes"@
            } else {
                "NO"@
            } + "    series: "@ + dec(rep.count as nat) + " patches    "@ + if rep.fully_patched {
                "FULLY PATCHED"@
            } else {
                "NOT fully patched"@
            },
        ),
    ];
    let note = if rep.dbg_dir is None {
        seq![
            say(
                "note: amdgpu debugfs not found (mount debugfs / run as root for full detection)"@,
            ),
        ]
    } else {
        Plan::empty()
    };
    let absent = if rep.missing > 0 {
        seq![
            say(
                "\n"@ + dec(rep.missing as nat)
                    + " patch(es) absent — run `arieltune apu build` to build the series into the system."@,
            ),
        ]
    } else {
        Plan::empty()
    };
    head + note + seq![say(""@)] + rows_plan(""@, rep.rows@) + absent
}

/// Shows the report of the booted kernel.
pub fn report(rep: &PatchReport) -> (s: Script)
    ensures
        s@ == report_plan(*rep),
{
    let head: Script = Script::new().say(
        Line::new("BC-250: ").text(
            if rep.is_bc250 {
                "yes"
            } else {
                "NO"
            },
        ).text("    series: ").count(rep.count).text(" patches    ").text(
            if rep.fully_patched {
                "FULLY PATCHED"
            } else {
                "NOT fully patched"
            },
        ),
    );
    let note: Script = if rep.dbg_dir.is_none() {
        Script::new().tell(
            "note: amdgpu debugfs not found (mount debugfs / run as root for full detection)",
        )
    } else {
        Script::new()
    };
    let absent: Script = if rep.missing > 0 {
        Script::new().say(
            Line::new("\n").count(rep.missing).text(
                " patch(es) absent — run `arieltune apu build` to build the series into the system.",
            ),
        )
    } else {
        Script::new()
    };
    head.and(note).and(Script::new().tell("")).and(rows_script("", &rep.rows)).and(absent)
}

/// Whether a patch is known or inferred to be live.
pub open spec fn is_live(state: PatchState) -> bool {
    state == PatchState::Present || state == PatchState::Inferred
}

/// The number of patches that are live.
pub open spec fn live_count(rows: Seq<PatchRow>) -> nat
    decreases rows.len(),
{
    if rows.len() == 0 {
        0
    } else {
        live_count(rows.drop_last()) + if is_live(rows.last().state) {
            1nat
        } else {
            0nat
        }
    }
}

fn count_live(rows: &Vec<PatchRow>) -> (n: usize)
    ensures
        n == live_count(rows@),
{
    let mut n: usize = 0;
    let mut i: usize = 0;
    while i < rows.len()
        invariant
            n <= i <= rows.len(),
            n == live_count(rows@.take(i as int)),
        decreases rows.len() - i,
    {
        assert(rows@.take(i + 1).drop_last() =~= rows@.take(i as int));
        match rows[i].state {
            PatchState::Present => {
                n = n + 1;
            },
            PatchState::Inferred => {
                n = n + 1;
            },
            PatchState::Other => {},
        }
        i = i + 1;
    }
    assert(rows@.take(i as int) =~= rows@);
    n
}

/// How much of the series is live.
pub open spec fn live_line(rep: PatchReport) -> Seq<char> {
    "  liberation series: "@ + dec(live_count(rep.rows@)) + "/"@ + dec(rep.count as nat) + " live"@
}

fn live_text(rep: &PatchReport) -> (line: Line)
    ensures
        line@ == live_line(*rep),
{
    Line::new("  liberation series: ").count(count_live(&rep.rows)).text("/").count(
        rep.count,
    ).text(" live")
}

/// How much of the series is live, then its rows.
pub open spec fn series_plan(rep: PatchReport) -> Plan {
    seq![say(live_line(rep))] + rows_plan("  "@, rep.rows@)
}

/// Shows how much of the series is live.
pub fn print_series(rep: &PatchReport) -> (s: Script)
    ensures
        s@ == series_plan(*rep),
{
    Script::new().say(live_text(rep)).and(rows_script("  ", &rep.rows))
}

/// The harvest map is asked for.
pub open spec fn cumap_plan() -> Plan {
    seq![ask(Op::CuMap, Spot::Cumap)]
}

/// Opens the harvest map.
pub fn cmd_cumap() -> (s: Script)
    ensures
        s@ == cumap_plan(),
{
    Script::new().ask(Op::CuMap, Spot::Cumap)
}

/// The harvest map, or that there is none.
pub open spec fn map_plan(map: Option<CuMap>) -> Plan {
    match map {
        Some(m) => seq![put(m.rendered@)],
        None => seq![
            say("could not query amdgpu CU map (need a working amdgpu + render node)"@),
        ],
    }
}

/// Shows the harvest map.
pub fn cumap(map: &Option<CuMap>) -> (s: Script)
    ensures
        s@ == map_plan(*map),
{
    match map {
        Some(m) => Script::new().put(m.rendered.as_str()),
        None => Script::new().tell(
            "could not query amdgpu CU map (need a working amdgpu + render node)",
        ),
    }
}

/// The preflight starts with a report.
pub open spec fn doctor_plan(json: bool, verify: bool) -> Plan {
    seq![ask(Op::PatchReport, Spot::Doctor { json, verify })]
}

/// Opens the preflight.
pub fn cmd_doctor(json: bool, verify: bool) -> (s: Script)
    ensures
        s@ == doctor_plan(json, verify),
{
    Script::new().ask(Op::PatchReport, Spot::Doctor { json, verify })
}

/// `true` or `false`.
pub open spec fn truth(b: bool) -> Seq<char> {
    if b {
        "true"@
    } else {
        "false"@
    }
}

fn truth_text(b: bool) -> (s: &'static str)
    ensures
        s@ == truth(b),
{
    if b {
        "true"
    } else {
        "false"
    }
}

/// A preflight that verifies fails unless the board is a BC-250 with the full series live.
pub open spec fn gate_plan(verify: bool, is_bc250: bool, fully_patched: bool) -> Plan {
    if verify && !(is_bc250 && fully_patched) {
        seq![
            fail(
                "doctor --verify failed: is_bc250="@ + truth(is_bc250) + " fully_patched="@ + truth(
                    fully_patched,
                ),
            ),
        ]
    } else {
        Plan::empty()
    }
}

/// The verdict of a preflight that verifies.
pub fn verify_gate(verify: bool, is_bc250: bool, fully_patched: bool) -> (s: Script)
    ensures
        s@ == gate_plan(verify, is_bc250, fully_patched),
{
    if verify && !(is_bc250 && fully_patched) {
        Script::new().fail(
            Line::new("doctor --verify failed: is_bc250=").text(truth_text(is_bc250)).text(
                " fully_patched=",
            ).text(truth_text(fully_patched)),
        )
    } else {
        Script::new()
    }
}

/// A report for a machine is one JSON object; one for a reader shows what is live and armed.
pub open spec fn doctor_report_plan(json: bool, verify: bool, rep: PatchReport) -> Plan {
    if json {
        seq![
            ask(
                Op::ReportJson,
                Spot::DoctorJson {
                    verify,
                    is_bc250: rep.is_bc250,
                    fully_patched: rep.fully_patched,
                },
            ),
        ]
    } else {
        seq![
            say("arieltune apu doctor"@),
            say("  BC-250 (PCI 1002:13fe): "@ + yes_no(rep.is_bc250)),
            say(
                "  amdgpu debugfs: "@ + match rep.dbg_dir {
                    Some(dir) => dir@,
                    None => "not found"@,
                },
            ),
            say(live_line(rep)),
            ask(Op::CuMap, Spot::DoctorMap),
            ask(Op::LoadPower, Spot::DoctorPower),
        ] + if rep.fully_patched {
            Plan::empty()
        } else {
            seq![
                say(
                    "\n  -> not fully liberated. `arieltune apu patches` for detail, `arieltune apu build` to apply."@,
                ),
            ]
        } + gate_plan(verify, rep.is_bc250, rep.fully_patched)
    }
}

/// Goes on with the preflight once the report is there.
pub fn doctor_report(json: bool, verify: bool, rep: &PatchReport) -> (s: Script)
    ensures
        s@ == doctor_report_plan(json, verify, *rep),
{
    if json {
        return Script::new().ask(
            Op::ReportJson,
            Spot::DoctorJson {
                verify,
                is_bc250: rep.is_bc250,
                fully_patched: rep.fully_patched,
            },
        );
    }
    let debugfs: Line = match &rep.dbg_dir {
        Some(dir) => Line::new("  amdgpu debugfs: ").text(dir.as_str()),
        None => Line::new("  amdgpu debugfs: ").text("not found"),
    };
    let note: Script = if rep.fully_patched {
        Script::new()
    } else {
        Script::new().tell(
            "\n  -> not fully liberated. `arieltune apu patches` for detail, `arieltune apu build` to apply.",
        )
    };
    Script::new().tell("arieltune apu doctor").say(
        Line::new("  BC-250 (PCI 1002:13fe): ").text(yn(rep.is_bc250)),
    ).say(debugfs).say(live_text(rep)).ask(Op::CuMap, Spot::DoctorMap).ask(
        Op::LoadPower,
        Spot::DoctorPower,
    ).and(note).and(verify_gate(verify, rep.is_bc250, rep.fully_patched))
}

/// The JSON object, then the verdict.
pub open spec fn doctor_json_plan(
    verify: bool,
    is_bc250: bool,
    fully_patched: bool,
    json: Seq<char>,
) -> Plan {
    seq![say(json)] + gate_plan(verify, is_bc250, fully_patched)
}

/// Prints the JSON object of a preflight.
pub fn doctor_json(
    verify: bool,
    is_bc250: bool,
    fully_patched: bool,
    json: &String,
) -> (s: Script)
    ensures
        s@ == doctor_json_plan(verify, is_bc250, fully_patched, json@),
{
    Script::new().tell(json.as_str()).and(verify_gate(verify, is_bc250, fully_patched))
}

/// The number of active CUs.
pub open spec fn doctor_map_plan(map: Option<CuMap>) -> Plan {
    match map {
        Some(m) => seq![
            say("  CUs active: "@ + dec(m.active as nat) + "/"@ + dec(m.possible as nat)),
        ],
        None => seq![say("  CUs active: unknown (amdgpu not queryable)"@)],
    }
}

/// Shows the number of active CUs.
pub fn doctor_map(map: &Option<CuMap>) -> (s: Script)
    ensures
        s@ == doctor_map_plan(*map),
{
    match map {
        Some(m) => Script::new().say(
            Line::new("  CUs active: ").num(m.active).text("/").num(m.possible),
        ),
        None => Script::new().tell("  CUs active: unknown (amdgpu not queryable)"),
    }
}

/// Which boot units are armed, then which mode the GPU comes back in.
pub open spec fn doctor_power_plan(cfg: PowerConfig) -> Plan {
    seq![
        ask(Op::GpuUnitInstalled, Spot::DoctorGpuUnit),
        match cfg.force_mhz {
            Some(m) => say("  GPU mode: manual pin "@ + dec(m as nat) + " MHz (wins at boot)"@),
            None => ask(Op::ModeName(cfg.auto_mode), Spot::DoctorMode),
        },
    ]
}

/// Shows the boot units and the GPU mode.
pub fn doctor_power(cfg: &PowerConfig) -> (s: Script)
    ensures
        s@ == doctor_power_plan(*cfg),
{
    let s: Script = Script::new().ask(Op::GpuUnitInstalled, Spot::DoctorGpuUnit);
    match cfg.force_mhz {
        Some(m) => s.say(
            Line::new("  GPU mode: manual pin ").num(m).text(" MHz (wins at boot)"),
        ),
        None => s.ask(Op::ModeName(cfg.auto_mode), Spot::DoctorMode),
    }
}

/// Which boot units are there.
pub open spec fn doctor_units_plan(gpu: bool, cpu: bool, route: bool) -> Plan {
    seq![
        say(
            "  boot units: gpu "@ + if gpu {
                "installed"@
            } else {
                "absent"@
            } + "  cpu-oc "@ + if cpu {
                "armed"@
            } else {
                "off"@
            } + "  route "@ + if route {
                "armed"@
            } else {
                "off"@
            },
        ),
    ]
}

/// Shows which boot units are there.
pub fn doctor_units(gpu: bool, cpu: bool, route: bool) -> (s: Script)
    ensures
        s@ == doctor_units_plan(gpu, cpu, route),
{
    Script::new().say(
        Line::new("  boot units: gpu ").text(
            if gpu {
                "installed"
            } else {
                "absent"
            },
        ).text("  cpu-oc ").text(
            if cpu {
                "armed"
            } else {
                "off"
            },
        ).text("  route ").text(
            if route {
                "armed"
            } else {
                "off"
            },
        ),
    )
}

} // verus!
