//! CPU overclock and undervolt commands.
use vstd::prelude::*;

use crate::commands::CpuCmd;
use crate::model::{CpuLive, CpuOc, Fault, Site, SweepOpts, SweepPoint};
use crate::plan::{
    act, ask, fail, go, judge, maybe, must, say, Action, Op, Plan, Point, Script, Spot, Then,
};
use crate::text::{dec, dec_int, decimal, decimal_int, join, joined, left, right, Line};

verus! {

/// Every CPU command first opens the overclock mailbox.
pub open spec fn cpu_plan(site: Site, cmd: CpuCmd) -> Plan {
    seq![
        act(
            Action::Host(Op::OpenOc),
            Then::RequireAs("queue-3 OC mailbox not reachable (need root + a BC-250)"@),
        ),
    ] + cpu_body(site, cmd)
}

/// What follows once the mailbox is open.
pub open spec fn cpu_body(site: Site, cmd: CpuCmd) -> Plan {
    match cmd {
        CpuCmd::Status => seq![ask(Op::CpuLive, Spot::CpuStatus)],
        CpuCmd::Tune { boost, scale, cpu_temp, gpu_temp } => seq![
            ask(Op::LoadCpu, Spot::CpuTune { boost, scale, cpu_temp, gpu_temp }),
        ],
        CpuCmd::Undervolt { boost, vid_cap } => if vid_cap <= site.vid_ceiling_mv {
            seq![ask(Op::SafeScale { boost, vid_cap }, Spot::UndervoltScale(boost))]
        } else {
            seq![
                fail(
                    "vid cap "@ + dec(vid_cap as nat) + " exceeds "@ + dec(
                        site.vid_ceiling_mv as nat,
                    ) + " mV ceiling"@,
                ),
            ]
        },
        CpuCmd::Vid { mv } => seq![
            must(Op::ForceCpuVid(mv)),
            say(
                "forced CPU Vid "@ + dec(mv as nat) + " mV (capped at "@ + dec(
                    site.vid_ceiling_mv as nat,
                ) + " mV)"@,
            ),
        ],
        CpuCmd::VidAuto => seq![
            must(Op::ReleaseCpuVid),
            say("released CPU Vid to the SMU curve"@),
        ],
        CpuCmd::Restore => seq![
            must(Op::RestoreCpu),
            go(Op::ClearSavedCpu),
            go(Op::DisarmCpuOc),
            say("CPU restored to firmware defaults (saved OC + boot service removed)"@),
        ],
        CpuCmd::ApplySaved => seq![ask(Op::CpuSaved, Spot::CpuSaved)],
        CpuCmd::Detect { target, vid_cap, temp, step, dwell, save } => {
            let check = match save {
                Some(name) => seq![act(Action::CheckProfileName(name@), Then::Require)],
                None => Plan::empty(),
            };
            let opts = SweepOpts {
                target_mhz: target,
                vid_cap_mv: vid_cap,
                temp_c: temp,
                step,
                dwell_s: dwell,
            };
            check.push(
                say(
                    "CPU auto-detect: climb to "@ + dec(target as nat) + " MHz, undervolt to <= "@
                        + dec(vid_cap as nat) + " mV, "@ + dec(dwell as nat) + "s/point, temp "@
                        + dec(temp as nat) + "C  (Ctrl-C aborts + restores stock)\n"@,
                ),
            ).push(act(Action::Host(Op::DetectCpu(opts)), Then::Ask(Point::Detected(maybe(save)))))
        },
    }
}

/// Opens a CPU command.
pub fn cmd_cpu(site: &Site, action: CpuCmd) -> (s: Script)
    ensures
        s@ == cpu_plan(*site, action),
{
    Script::new().act(
        Action::Host(Op::OpenOc),
        Then::RequireAs("queue-3 OC mailbox not reachable (need root + a BC-250)".to_owned()),
    ).and(body(site, action))
}

fn body(site: &Site, action: CpuCmd) -> (s: Script)
    ensures
        s@ == cpu_body(*site, action),
{
    match action {
        CpuCmd::Status => Script::new().ask(Op::CpuLive, Spot::CpuStatus),
        CpuCmd::Tune { boost, scale, cpu_temp, gpu_temp } => Script::new().ask(
            Op::LoadCpu,
            Spot::CpuTune { boost, scale, cpu_temp, gpu_temp },
        ),
        CpuCmd::Undervolt { boost, vid_cap } => if vid_cap <= site.vid_ceiling_mv {
            Script::new().ask(Op::SafeScale { boost, vid_cap }, Spot::UndervoltScale(boost))
        } else {
            Script::new().fail(
                Line::new("vid cap ").num(vid_cap).text(" exceeds ").num(
                    site.vid_ceiling_mv,
                ).text(" mV ceiling"),
            )
        },
        CpuCmd::Vid { mv } => Script::new().must(Op::ForceCpuVid(mv)).say(
            Line::new("forced CPU Vid ").num(mv).text(" mV (capped at ").num(
                site.vid_ceiling_mv,
            ).text(" mV)"),
        ),
        CpuCmd::VidAuto => Script::new().must(Op::ReleaseCpuVid).tell(
            "released CPU Vid to the SMU curve",
        ),
        CpuCmd::Restore => Script::new().must(Op::RestoreCpu).go(Op::ClearSavedCpu).go(
            Op::DisarmCpuOc,
        ).tell("CPU restored to firmware defaults (saved OC + boot service removed)"),
        CpuCmd::ApplySaved => Script::new().ask(Op::CpuSaved, Spot::CpuSaved),
        CpuCmd::Detect { target, vid_cap, temp, step, dwell, save } => {
            let s: Script = match &save {
                Some(name) => Script::new().act(
                    Action::CheckProfileName(name.clone()),
                    Then::Require,
                ),
                None => Script::new(),
            };
            let opts: SweepOpts = SweepOpts {
                target_mhz: target,
                vid_cap_mv: vid_cap,
                temp_c: temp,
                step,
                dwell_s: dwell,
            };
            s.say(
                Line::new("CPU auto-detect: climb to ").num(target).text(
                    " MHz, undervolt to <= ",
                ).num(vid_cap).text(" mV, ").long(dwell).text("s/point, temp ").num(temp).text(
                    "C  (Ctrl-C aborts + restores stock)\n",
                ),
            ).act(Action::Host(Op::DetectCpu(opts)), Then::Ask(Point::Detected(save)))
        },
    }
}

/// A value with its unit, or a question mark.
pub open spec fn measured(v: Option<u32>, unit: Seq<char>) -> Seq<char> {
    match v {
        Some(n) => dec(n as nat) + unit,
        None => "?"@,
    }
}

fn measure(v: Option<u32>, unit: &str) -> (s: String)
    ensures
        s@ == measured(v, unit@),
{
    match v {
        Some(n) => Line::number(n).text(unit).done(),
        None => "?".to_owned(),
    }
}

/// The numbers in decimal, two blanks apart.
pub open spec fn spaced(ns: Seq<u32>) -> Seq<char> {
    join(ns.map_values(|n: u32| dec(n as nat)), "  "@)
}

fn spaced_line(ns: &Vec<u32>) -> (s: String)
    ensures
        s@ == spaced(ns@),
{
    let mut parts: Vec<String> = Vec::new();
    let mut i: usize = 0;
    while i < ns.len()
        invariant
            i <= ns.len(),
            parts.len() == i,
            forall|j: int| 0 <= j < i ==> (#[trigger] parts@[j])@ == dec(ns@[j] as nat),
        decreases ns.len() - i,
    {
        parts.push(decimal(ns[i]));
        i = i + 1;
    }
    assert(parts.deep_view() =~= ns@.map_values(|n: u32| dec(n as nat)));
    joined(&parts, "  ")
}

/// A line of clocks, where there are any.
pub open spec fn clocks_plan(label: Seq<char>, ns: Seq<u32>) -> Plan {
    if ns.len() == 0 {
        Plan::empty()
    } else {
        seq![say(label + spaced(ns))]
    }
}

fn clocks(label: &str, ns: &Vec<u32>) -> (s: Script)
    ensures
        s@ == clocks_plan(label@, ns@),
{
    if ns.len() == 0 {
        Script::new()
    } else {
        Script::new().say(Line::new(label).text(spaced_line(ns).as_str()))
    }
}

/// The live CPU state.
pub open spec fn status_plan(l: CpuLive) -> Plan {
    seq![
        say("CPU (live, via SMU queue 3):"@),
        say("  current Vid:    "@ + measured(l.cur_vid_mv, " mV"@)),
        ask(Op::GpuVoltage, Spot::CpuGpuVid),
    ] + clocks_plan("  core freq MHz:  "@, l.cores@) + clocks_plan(
        "  P-state MHz:    "@,
        l.pstates@,
    ) + seq![
        say("  CPU temp limit: "@ + measured(l.cpu_temp_max, " C"@)),
        ask(Op::CpuOcArmed, Spot::CpuBoot),
    ]
}

/// Shows the live CPU state.
pub fn status(l: &CpuLive) -> (s: Script)
    ensures
        s@ == status_plan(*l),
{
    Script::new().tell("CPU (live, via SMU queue 3):").say(
        Line::new("  current Vid:    ").text(measure(l.cur_vid_mv, " mV").as_str()),
    ).ask(Op::GpuVoltage, Spot::CpuGpuVid).and(clocks("  core freq MHz:  ", &l.cores)).and(
        clocks("  P-state MHz:    ", &l.pstates),
    ).and(
        Script::new().say(
            Line::new("  CPU temp limit: ").text(measure(l.cpu_temp_max, " C").as_str()),
        ).ask(Op::CpuOcArmed, Spot::CpuBoot),
    )
}

/// The live GPU voltage.
pub open spec fn gpu_vid_plan(mv: Option<u32>) -> Plan {
    seq![say("  GPU Vid:        "@ + measured(mv, " mV"@))]
}

/// Shows the live GPU voltage.
pub fn gpu_vid(mv: Option<u32>) -> (s: Script)
    ensures
        s@ == gpu_vid_plan(mv),
{
    Script::new().say(Line::new("  GPU Vid:        ").text(measure(mv, " mV").as_str()))
}

/// Whether the boot re-apply of the CPU point is armed.
pub open spec fn boot_plan(site: Site, armed: bool) -> Plan {
    seq![
        say(
            "  boot re-apply:  "@ + if armed {
                "armed ("@ + site.cpu_oc_unit@ + ")"@
            } else {
                "not armed"@
            },
        ),
    ]
}

/// Shows whether the boot re-apply of the CPU point is armed.
pub fn boot(site: &Site, armed: bool) -> (s: Script)
    ensures
        s@ == boot_plan(*site, armed),
{
    let state: String = if armed {
        Line::new("armed (").text(site.cpu_oc_unit.as_str()).text(")").done()
    } else {
        "not armed".to_owned()
    };
    Script::new().say(Line::new("  boot re-apply:  ").text(state.as_str()))
}

/// The point with the given values in place of its own; what is not given stays.
pub open spec fn overridden(
    prev: CpuOc,
    boost: Option<u32>,
    scale: Option<i32>,
    cpu_temp: Option<u32>,
    gpu_temp: Option<u32>,
) -> CpuOc {
    CpuOc {
        boost_mhz: match boost {
            Some(b) => b,
            None => prev.boost_mhz,
        },
        curve_scale: match scale {
            Some(s) => s,
            None => prev.curve_scale,
        },
        cpu_temp_c: match cpu_temp {
            Some(c) => c,
            None => prev.cpu_temp_c,
        },
        gpu_temp_c: match gpu_temp {
            Some(g) => g,
            None => prev.gpu_temp_c,
        },
    }
}

/// The new point is applied, staged from the previous one.
pub open spec fn tune_plan(prev: CpuOc, point: CpuOc) -> Plan {
    seq![
        must(Op::ApplyCpuFrom { point, prev }),
        ask(Op::PredictedVid(point), Spot::CpuTuned(point)),
    ]
}

/// Applies the given values on top of the persisted point.
pub fn tune(
    prev: &CpuOc,
    boost: Option<u32>,
    scale: Option<i32>,
    cpu_temp: Option<u32>,
    gpu_temp: Option<u32>,
) -> (s: Script)
    ensures
        s@ == tune_plan(*prev, overridden(*prev, boost, scale, cpu_temp, gpu_temp)),
{
    let mut point: CpuOc = *prev;
    if let Some(b) = boost {
        point.boost_mhz = b;
    }
    if let Some(c) = scale {
        point.curve_scale = c;
    }
    if let Some(c) = cpu_temp {
        point.cpu_temp_c = c;
    }
    if let Some(g) = gpu_temp {
        point.gpu_temp_c = g;
    }
    Script::new().must(Op::ApplyCpuFrom { point, prev: *prev }).ask(
        Op::PredictedVid(point),
        Spot::CpuTuned(point),
    )
}

/// What is said of a point that was applied; it is then persisted.
pub open spec fn tuned_plan(site: Site, point: CpuOc, vid: u32) -> Plan {
    let applied = say(
        "applied: boost "@ + dec(point.boost_mhz as nat) + " MHz, curve scale "@ + dec_int(
            point.curve_scale as int,
        ) + " (~"@ + dec(vid as nat) + " mV @ boost), temp "@ + dec(point.cpu_temp_c as nat) + "/"@
            + dec(point.gpu_temp_c as nat) + " C"@,
    );
    let head = if point.boost_mhz > site.boost_warn_mhz {
        seq![
            applied,
            say(
                "note: "@ + dec(point.boost_mhz as nat)
                    + " MHz is aggressive — stress-test thoroughly."@,
            ),
        ]
    } else {
        seq![applied]
    };
    head.push(must(Op::SaveCpu(point))).push(judge(Op::ArmCpuOc, Spot::CpuArmed))
}

/// Reports and persists a point that was applied.
pub fn tuned(site: &Site, point: &CpuOc, vid: u32) -> (s: Script)
    ensures
        s@ == tuned_plan(*site, *point, vid),
{
    let mut s: Script = Script::new().say(
        Line::new("applied: boost ").num(point.boost_mhz).text(" MHz, curve scale ").signed(
            point.curve_scale,
        ).text(" (~").num(vid).text(" mV @ boost), temp ").num(point.cpu_temp_c).text("/").num(
            point.gpu_temp_c,
        ).text(" C"),
    );
    if point.boost_mhz > site.boost_warn_mhz {
        s = s.say(
            Line::new("note: ").num(point.boost_mhz).text(
                " MHz is aggressive — stress-test thoroughly.",
            ),
        );
    }
    s.must(Op::SaveCpu(*point)).judge(Op::ArmCpuOc, Spot::CpuArmed)
}

/// What is said of a boot re-apply that was armed.
pub open spec fn armed_plan() -> Plan {
    seq![say("persisted — re-applied on every boot"@)]
}

/// Reports a boot re-apply that was armed.
pub fn armed() -> (s: Script)
    ensures
        s@ == armed_plan(),
{
    Script::new().tell("persisted — re-applied on every boot")
}

/// What is said of a boot re-apply that could not be armed.
pub open spec fn unarmed_plan(f: Fault<Seq<char>>) -> Plan {
    seq![say("(live only — could not install boot service: "@ + f.message + ")"@)]
}

/// Reports a boot re-apply that could not be armed.
pub fn unarmed(f: &Fault<String>) -> (s: Script)
    ensures
        s@ == unarmed_plan(f@),
{
    Script::new().say(
        Line::new("(live only — could not install boot service: ").text(
            f.message.as_str(),
        ).text(")"),
    )
}

/// The default point at the boost clock and scale is applied.
pub open spec fn undervolt_plan(boost: u32, scale: i32, base: CpuOc) -> Plan {
    let point = CpuOc { boost_mhz: boost, curve_scale: scale, ..base };
    seq![
        must(Op::ApplyCpu(point)),
        ask(Op::PredictedVid(point), Spot::UndervoltVid { boost, scale }),
    ]
}

/// Applies an undervolt.
pub fn undervolt(boost: u32, scale: i32, base: &CpuOc) -> (s: Script)
    ensures
        s@ == undervolt_plan(boost, scale, *base),
{
    let point: CpuOc = CpuOc { boost_mhz: boost, curve_scale: scale, ..*base };
    Script::new().must(Op::ApplyCpu(point)).ask(
        Op::PredictedVid(point),
        Spot::UndervoltVid { boost, scale },
    )
}

/// What is said of an undervolt.
pub open spec fn undervolted_plan(boost: u32, scale: i32, vid: u32) -> Plan {
    seq![
        say(
            "undervolt: boost "@ + dec(boost as nat) + " MHz, curve scale "@ + dec_int(scale as int)
                + " (~"@ + dec(vid as nat) + " mV predicted @ boost)"@,
        ),
    ]
}

/// Reports an undervolt.
pub fn undervolted(boost: u32, scale: i32, vid: u32) -> (s: Script)
    ensures
        s@ == undervolted_plan(boost, scale, vid),
{
    Script::new().say(
        Line::new("undervolt: boost ").num(boost).text(" MHz, curve scale ").signed(scale).text(
            " (~",
        ).num(vid).text(" mV predicted @ boost)"),
    )
}

/// A persisted point is loaded; without one there is nothing to do.
pub open spec fn saved_plan(saved: bool) -> Plan {
    if saved {
        seq![ask(Op::LoadCpu, Spot::CpuReapply)]
    } else {
        seq![say("no saved CPU OC — nothing to apply"@)]
    }
}

/// Goes on with a re-apply once it is known whether a point is persisted.
pub fn apply_saved(saved: bool) -> (s: Script)
    ensures
        s@ == saved_plan(saved),
{
    if saved {
        Script::new().ask(Op::LoadCpu, Spot::CpuReapply)
    } else {
        Script::new().tell("no saved CPU OC — nothing to apply")
    }
}

/// The persisted point is applied.
pub open spec fn reapply_plan(point: CpuOc) -> Plan {
    seq![must(Op::ApplyCpu(point)), ask(Op::PredictedVid(point), Spot::CpuReapplied(point))]
}

/// Applies the persisted point.
pub fn reapply(point: &CpuOc) -> (s: Script)
    ensures
        s@ == reapply_plan(*point),
{
    Script::new().must(Op::ApplyCpu(*point)).ask(
        Op::PredictedVid(*point),
        Spot::CpuReapplied(*point),
    )
}

/// What is said of a persisted point that was applied.
pub open spec fn reapplied_plan(point: CpuOc, vid: u32) -> Plan {
    seq![
        say(
            "re-applied saved CPU OC: boost "@ + dec(point.boost_mhz as nat) + " MHz, scale "@
                + dec_int(point.curve_scale as int) + " (~"@ + dec(vid as nat) + " mV), temp "@
                + dec(point.cpu_temp_c as nat) + "/"@ + dec(point.gpu_temp_c as nat) + " C"@,
        ),
    ]
}

/// Reports a persisted point that was applied.
pub fn reapplied(point: &CpuOc, vid: u32) -> (s: Script)
    ensures
        s@ == reapplied_plan(*point, vid),
{
    Script::new().say(
        Line::new("re-applied saved CPU OC: boost ").num(point.boost_mhz).text(
            " MHz, scale ",
        ).signed(point.curve_scale).text(" (~").num(vid).text(" mV), temp ").num(
            point.cpu_temp_c,
        ).text("/").num(point.gpu_temp_c).text(" C"),
    )
}

/// The row of one point of a sweep.
pub open spec fn sweep_text(p: SweepPoint) -> Seq<char> {
    right(dec(p.boost_mhz as nat), 6) + "MHz  "@ + right(dec_int(p.scale as int), 6) + "  "@
        + right(
        match p.measured_vid_mv {
            Some(v) => dec(v as nat),
            None => "-1"@,
        },
        6,
    ) + " mV  "@ + left(
        if p.stable {
            "stable"@
        } else {
            "FAIL"@
        },
        7,
    ) + " "@ + right(p.max_temp@, 5) + "C  "@ + p.note@
}

fn sweep_line(p: &SweepPoint) -> (line: Line)
    ensures
        line@ == sweep_text(*p),
{
    let vid: String = match p.measured_vid_mv {
        Some(v) => decimal(v),
        None => "-1".to_owned(),
    };
    proof {
        reveal_strlit("");
        let first = right(dec(p.boost_mhz as nat), 6);
        assert(""@ + first =~= first);
    }
    Line::new("").right(decimal(p.boost_mhz).as_str(), 6).text("MHz  ").right(
        decimal_int(p.scale).as_str(),
        6,
    ).text("  ").right(vid.as_str(), 6).text(" mV  ").left(
        if p.stable {
            "stable"
        } else {
            "FAIL"
        },
        7,
    ).text(" ").right(p.max_temp.as_str(), 5).text("C  ").text(p.note.as_str())
}

/// The rows of a sweep.
pub open spec fn sweep_rows(points: Seq<SweepPoint>) -> Plan {
    points.map_values(|p: SweepPoint| say(sweep_text(p)))
}

/// The table of a sweep, then its highest stable point.
pub open spec fn detected_plan(
    points: Seq<SweepPoint>,
    best: Option<CpuOc>,
    save: Option<Seq<char>>,
) -> Plan {
    seq![say("   boost   scale       Vid  result    maxT  note"@)] + sweep_rows(points) + seq![
        match best {
            Some(point) => act(
                Action::Host(Op::PredictedVid(point)),
                Then::Ask(Point::DetectedVid { point, save }),
            ),
            None => say("\nno stable point found in range"@),
        },
    ]
}

/// Reports a sweep.
pub fn detected(
    points: &Vec<SweepPoint>,
    best: &Option<CpuOc>,
    save: Option<String>,
) -> (s: Script)
    ensures
        s@ == detected_plan(points@, *best, maybe(save)),
{
    let ghost all = sweep_rows(points@);
    let mut s: Script = Script::new().tell("   boost   scale       Vid  result    maxT  note");
    let ghost head = s@;
    let mut i: usize = 0;
    assert(s@ =~= head + all.take(0));
    while i < points.len()
        invariant
            i <= points.len(),
            all == sweep_rows(points@),
            s@ == head + all.take(i as int),
        decreases points.len() - i,
    {
        s = s.say(sweep_line(&points[i]));
        assert(head + all.take(i + 1) =~= (head + all.take(i as int)).push(all[i as int]));
        i = i + 1;
    }
    assert(all.take(i as int) =~= all);
    let tail: Script = match best {
        Some(point) => Script::new().act(
            Action::Host(Op::PredictedVid(*point)),
            Then::Ask(Point::DetectedVid { point: *point, save }),
        ),
        None => Script::new().tell("\nno stable point found in range"),
    };
    s.and(tail)
}

/// The description of a profile that holds the highest stable point of a sweep.
pub open spec fn detect_description(point: CpuOc) -> Seq<char> {
    "cpu-detect: boost "@ + dec(point.boost_mhz as nat) + " MHz, curve scale "@ + dec_int(
        point.curve_scale as int,
    ) + " (stability-swept)"@
}

/// What is said of the highest stable point; it is saved where that is asked for.
pub open spec fn detected_vid_plan(point: CpuOc, save: Option<Seq<char>>, vid: u32) -> Plan {
    let line = say(
        "\nhighest stable: boost "@ + dec(point.boost_mhz as nat) + " MHz @ curve scale "@
            + dec_int(point.curve_scale as int) + " (~"@ + dec(vid as nat) + " mV)"@,
    );
    match save {
        Some(name) => seq![
            line,
            act(
                Action::SaveProfile { name, description: detect_description(point), cpu: point },
                Then::Ask(Point::ProfileSaved(name)),
            ),
        ],
        None => seq![line],
    }
}

/// Reports the highest stable point.
pub fn detected_vid(point: &CpuOc, save: Option<String>, vid: u32) -> (s: Script)
    ensures
        s@ == detected_vid_plan(*point, maybe(save), vid),
{
    let s: Script = Script::new().say(
        Line::new("\nhighest stable: boost ").num(point.boost_mhz).text(
            " MHz @ curve scale ",
        ).signed(point.curve_scale).text(" (~").num(vid).text(" mV)"),
    );
    match save {
        Some(name) => {
            let description: String = Line::new("cpu-detect: boost ").num(point.boost_mhz).text(
                " MHz, curve scale ",
            ).signed(point.curve_scale).text(" (stability-swept)").done();
            s.act(
                Action::SaveProfile { name: name.clone(), description, cpu: *point },
                Then::Ask(Point::ProfileSaved(name)),
            )
        },
        None => s,
    }
}

/// What is said of a profile that was saved.
pub open spec fn profile_saved_plan(name: Seq<char>, path: Seq<char>) -> Plan {
    seq![say("saved profile '"@ + name + "' -> "@ + path)]
}

/// Reports a profile that was saved.
pub fn profile_saved(name: &String, path: &String) -> (s: Script)
    ensures
        s@ == profile_saved_plan(name@, path@),
{
    Script::new().say(
        Line::new("saved profile '").text(name.as_str()).text("' -> ").text(path.as_str()),
    )
}

} // verus!
