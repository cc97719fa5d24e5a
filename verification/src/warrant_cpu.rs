//! What a CPU command is entitled to do, to say and to end with.
use vstd::prelude::*;

use crate::cli::opening;
use crate::commands::{Cmd, CpuCmd};
use crate::custody::{lemma_custody, told, Custody};
use crate::decide::decision;
use crate::model::{fault, CpuLive, CpuOc, Fault, Reply, Site, SweepOpts, SweepPoint};
use crate::plan::{maybe, Action, Op, Outcome, Point, Spot};
use crate::session::ended;
use crate::text::{dec, dec_int, join, left, right};
use crate::trace::{answered, course, History};

verus! {

/// Whether a value is the one that was given, or else the one from before.
pub open spec fn given_or<T>(value: T, given: Option<T>, before: T) -> bool {
    match given {
        Some(v) => value == v,
        None => value == before,
    }
}

/// Whether a CPU point is one that was loaded with the given values put in.
pub open spec fn tuned_from(
    h: History,
    boost: Option<u32>,
    scale: Option<i32>,
    cpu_temp: Option<u32>,
    gpu_temp: Option<u32>,
    prev: CpuOc,
    point: CpuOc,
) -> bool {
    &&& told(h, Op::LoadCpu, Reply::Point(prev))
    &&& given_or(point.boost_mhz, boost, prev.boost_mhz)
    &&& given_or(point.curve_scale, scale, prev.curve_scale)
    &&& given_or(point.cpu_temp_c, cpu_temp, prev.cpu_temp_c)
    &&& given_or(point.gpu_temp_c, gpu_temp, prev.gpu_temp_c)
}

/// Whether a CPU point is some loaded one with the given values put in.
pub open spec fn tuned_to(
    h: History,
    boost: Option<u32>,
    scale: Option<i32>,
    cpu_temp: Option<u32>,
    gpu_temp: Option<u32>,
    point: CpuOc,
) -> bool {
    exists|prev: CpuOc| #[trigger]
        tuned_from(h, boost, scale, cpu_temp, gpu_temp, prev, point)
}

/// Whether a CPU point is the default one at the boost clock that was asked for, with the curve
/// scale that the host answered as the safe one for exactly that clock and Vid cap.
pub open spec fn undervolted_to(h: History, boost: u32, vid_cap: u32, point: CpuOc) -> bool {
    &&& point.boost_mhz == boost
    &&& told(h, Op::SafeScale { boost, vid_cap }, Reply::Signed(point.curve_scale))
    &&& exists|base: CpuOc| #[trigger]
        told(h, Op::DefaultCpu, Reply::Point(base)) && point.cpu_temp_c == base.cpu_temp_c
            && point.gpu_temp_c == base.gpu_temp_c
}

/// Whether a sweep with these bounds has found these points and this highest stable one.
pub open spec fn swept_to(
    h: History,
    opts: SweepOpts,
    points: Vec<SweepPoint>,
    best: Option<CpuOc>,
) -> bool {
    told(h, Op::DetectCpu(opts), Reply::Detected(points, best))
}

/// Whether a sweep with these bounds has found this highest stable point.
pub open spec fn swept_best(h: History, opts: SweepOpts, best: CpuOc) -> bool {
    exists|points: Vec<SweepPoint>| #[trigger] swept_to(h, opts, points, Some(best))
}

/// A quantity with its unit, or a question mark where it could not be read.
pub open spec fn quantity(v: Option<u32>, unit: Seq<char>) -> Seq<char> {
    match v {
        Some(n) => dec(n as nat) + unit,
        None => "?"@,
    }
}

/// Whether a line tells something of the live CPU state, as the host answered it.
pub open spec fn tells_live(l: CpuLive, text: Seq<char>) -> bool {
    ||| text == "  current Vid:    "@ + quantity(l.cur_vid_mv, " mV"@)
    ||| l.cores@.len() > 0 && text == "  core freq MHz:  "@ + join(
        l.cores@.map_values(|n: u32| dec(n as nat)),
        "  "@,
    )
    ||| l.pstates@.len() > 0 && text == "  P-state MHz:    "@ + join(
        l.pstates@.map_values(|n: u32| dec(n as nat)),
        "  "@,
    )
    ||| text == "  CPU temp limit: "@ + quantity(l.cpu_temp_max, " C"@)
}

/// The lines of the CPU state.
pub open spec fn cpu_status_line(site: Site, h: History, text: Seq<char>) -> bool {
    ||| text == "CPU (live, via SMU queue 3):"@
    ||| exists|l: CpuLive| #[trigger] told(h, Op::CpuLive, Reply::Live(l)) && tells_live(l, text)
    ||| exists|mv: Option<u32>| #[trigger]
        told(h, Op::GpuVoltage, Reply::MaybeNumber(mv)) && text == "  GPU Vid:        "@ + quantity(
            mv,
            " mV"@,
        )
    ||| told(h, Op::CpuOcArmed, Reply::Flag(true)) && text == "  boot re-apply:  "@ + ("armed ("@
        + site.cpu_oc_unit@ + ")"@)
    ||| told(h, Op::CpuOcArmed, Reply::Flag(false)) && text == "  boot re-apply:  "@ + "not armed"@
}

/// The lines of a point that was applied and persisted.
pub open spec fn tune_line(site: Site, h: History, text: Seq<char>) -> bool {
    ||| exists|p: CpuOc, vid: u32| #[trigger]
        told(h, Op::PredictedVid(p), Reply::Number(vid)) && (text == "applied: boost "@ + dec(
            p.boost_mhz as nat,
        ) + " MHz, curve scale "@ + dec_int(p.curve_scale as int) + " (~"@ + dec(vid as nat)
            + " mV @ boost), temp "@ + dec(p.cpu_temp_c as nat) + "/"@ + dec(p.gpu_temp_c as nat)
            + " C"@ || (p.boost_mhz > site.boost_warn_mhz && text == "note: "@ + dec(
            p.boost_mhz as nat,
        ) + " MHz is aggressive — stress-test thoroughly."@))
    ||| told(h, Op::ArmCpuOc, Reply::Done) && text == "persisted — re-applied on every boot"@
    ||| exists|f: Fault<String>| #[trigger]
        told(h, Op::ArmCpuOc, Reply::Failed(f)) && text
            == "(live only — could not install boot service: "@ + f.message@ + ")"@
}

/// One row of the table of a sweep.
pub open spec fn sweep_row(p: SweepPoint) -> Seq<char> {
    let vid = match p.measured_vid_mv {
        Some(v) => dec(v as nat),
        None => "-1"@,
    };
    let verdict = if p.stable {
        "stable"@
    } else {
        "FAIL"@
    };
    right(dec(p.boost_mhz as nat), 6) + "MHz  "@ + right(dec_int(p.scale as int), 6) + "  "@
        + right(vid, 6) + " mV  "@ + left(verdict, 7) + " "@ + right(p.max_temp@, 5) + "C  "@
        + p.note@
}

/// Whether a line is a row of the table of a sweep.
pub open spec fn in_table(points: Seq<SweepPoint>, text: Seq<char>) -> bool {
    exists|i: int| 0 <= i < points.len() && text == sweep_row(#[trigger] points[i])
}

/// Whether a line tells where a profile of this name was saved.
pub open spec fn tells_saved(h: History, name: Seq<char>, text: Seq<char>) -> bool {
    exists|description: Seq<char>, cpu: CpuOc, path: String| #[trigger]
        answered(h, Action::SaveProfile { name, description, cpu }, Reply::Text(path)) && text
            == "saved profile '"@ + name + "' -> "@ + path@
}

/// The lines of a sweep.
pub open spec fn detect_line(
    h: History,
    opts: SweepOpts,
    name: Option<Seq<char>>,
    text: Seq<char>,
) -> bool {
    ||| text == "CPU auto-detect: climb to "@ + dec(opts.target_mhz as nat)
        + " MHz, undervolt to <= "@ + dec(opts.vid_cap_mv as nat) + " mV, "@ + dec(
        opts.dwell_s as nat,
    ) + "s/point, temp "@ + dec(opts.temp_c as nat) + "C  (Ctrl-C aborts + restores stock)\n"@
    ||| text == "   boost   scale       Vid  result    maxT  note"@
    ||| exists|points: Vec<SweepPoint>, best: Option<CpuOc>| #[trigger]
        swept_to(h, opts, points, best) && (in_table(points@, text) || (best is None && text
            == "\nno stable point found in range"@))
    ||| exists|p: CpuOc, vid: u32| #[trigger]
        told(h, Op::PredictedVid(p), Reply::Number(vid)) && swept_best(h, opts, p) && text
            == "\nhighest stable: boost "@ + dec(p.boost_mhz as nat) + " MHz @ curve scale "@
            + dec_int(p.curve_scale as int) + " (~"@ + dec(vid as nat) + " mV)"@
    ||| name matches Some(n) && tells_saved(h, n, text)
}

/// What a CPU command is entitled to hand to the host, by its command line and by what the host has
/// answered so far.
pub open spec fn cpu_may(
    site: Site,
    cmd: CpuCmd,
    h: History,
    action: Action<Seq<char>>,
) -> bool {
    action == Action::<Seq<char>>::Host(Op::OpenOc) || match cmd {
        CpuCmd::Status => match action {
            Action::Host(op) => op == Op::CpuLive || op == Op::GpuVoltage || op == Op::CpuOcArmed,
            Action::Println(text) => cpu_status_line(site, h, text),
            _ => false,
        },
        CpuCmd::Tune { boost, scale, cpu_temp, gpu_temp } => match action {
            Action::Host(op) => match op {
                Op::LoadCpu => true,
                Op::ApplyCpuFrom { point, prev } => tuned_from(
                    h,
                    boost,
                    scale,
                    cpu_temp,
                    gpu_temp,
                    prev,
                    point,
                ),
                Op::PredictedVid(point) => tuned_to(
                    h,
                    boost,
                    scale,
                    cpu_temp,
                    gpu_temp,
                    point,
                ),
                Op::SaveCpu(point) => tuned_to(
                    h,
                    boost,
                    scale,
                    cpu_temp,
                    gpu_temp,
                    point,
                ),
                Op::ArmCpuOc => true,
                _ => false,
            },
            Action::Println(text) => tune_line(site, h, text),
            _ => false,
        },
        CpuCmd::Undervolt { boost, vid_cap } => vid_cap <= site.vid_ceiling_mv && match action {
            Action::Host(op) => match op {
                Op::SafeScale { boost: b, vid_cap: v } => b == boost && v == vid_cap,
                Op::DefaultCpu => true,
                Op::ApplyCpu(point) => undervolted_to(h, boost, vid_cap, point),
                Op::PredictedVid(point) => undervolted_to(h, boost, vid_cap, point),
                _ => false,
            },
            Action::Println(text) => exists|p: CpuOc, vid: u32| #[trigger]
                told(h, Op::PredictedVid(p), Reply::Number(vid)) && undervolted_to(
                    h,
                    boost,
                    vid_cap,
                    p,
                ) && text == "undervolt: boost "@ + dec(boost as nat) + " MHz, curve scale "@
                    + dec_int(p.curve_scale as int) + " (~"@ + dec(vid as nat)
                    + " mV predicted @ boost)"@,
            _ => false,
        },
        CpuCmd::Vid { mv } => match action {
            Action::Host(op) => op == Op::ForceCpuVid(mv),
            Action::Println(text) => text == "forced CPU Vid "@ + dec(mv as nat)
                + " mV (capped at "@ + dec(site.vid_ceiling_mv as nat) + " mV)"@,
            _ => false,
        },
        CpuCmd::VidAuto => match action {
            Action::Host(op) => op == Op::ReleaseCpuVid,
            Action::Println(text) => text == "released CPU Vid to the SMU curve"@,
            _ => false,
        },
        CpuCmd::Restore => match action {
            Action::Host(op) => op == Op::RestoreCpu || op == Op::ClearSavedCpu || op
                == Op::DisarmCpuOc,
            Action::Println(text) => text
                == "CPU restored to firmware defaults (saved OC + boot service removed)"@,
            _ => false,
        },
        CpuCmd::ApplySaved => match action {
            Action::Host(op) => match op {
                Op::CpuSaved => true,
                Op::LoadCpu => told(h, Op::CpuSaved, Reply::Flag(true)),
                Op::ApplyCpu(point) => told(h, Op::LoadCpu, Reply::Point(point)),
                Op::PredictedVid(point) => told(h, Op::LoadCpu, Reply::Point(point)),
                _ => false,
            },
            Action::Println(text) => {
                ||| told(h, Op::CpuSaved, Reply::Flag(false)) && text
                    == "no saved CPU OC — nothing to apply"@
                ||| exists|p: CpuOc, vid: u32| #[trigger]
                    told(h, Op::PredictedVid(p), Reply::Number(vid)) && told(
                        h,
                        Op::LoadCpu,
                        Reply::Point(p),
                    ) && text == "re-applied saved CPU OC: boost "@ + dec(p.boost_mhz as nat)
                        + " MHz, scale "@ + dec_int(p.curve_scale as int) + " (~"@ + dec(vid as nat)
                        + " mV), temp "@ + dec(p.cpu_temp_c as nat) + "/"@ + dec(
                        p.gpu_temp_c as nat,
                    ) + " C"@
            },
            _ => false,
        },
        CpuCmd::Detect { target, vid_cap, temp, step, dwell, save } => {
            let opts = SweepOpts {
                target_mhz: target,
                vid_cap_mv: vid_cap,
                temp_c: temp,
                step,
                dwell_s: dwell,
            };
            match action {
                Action::CheckProfileName(name) => maybe(save) == Some(name),
                Action::Host(op) => match op {
                    Op::DetectCpu(o) => o.target_mhz == target && o.vid_cap_mv == vid_cap
                        && o.temp_c == temp && o.step == step && o.dwell_s == dwell,
                    Op::PredictedVid(p) => swept_best(h, opts, p),
                    _ => false,
                },
                Action::SaveProfile { name, description, cpu } => maybe(save) == Some(name)
                    && swept_best(h, opts, cpu) && description == "cpu-detect: boost "@ + dec(
                    cpu.boost_mhz as nat,
                ) + " MHz, curve scale "@ + dec_int(cpu.curve_scale as int)
                    + " (stability-swept)"@,
                Action::Println(text) => detect_line(h, opts, maybe(save), text),
                _ => false,
            }
        },
    }
}

/// Whether a CPU command goes on where an action fails.
pub open spec fn cpu_tolerates(cmd: CpuCmd, action: Action<Seq<char>>) -> bool {
    match cmd {
        CpuCmd::Tune { .. } => action == Action::<Seq<char>>::Host(Op::ArmCpuOc),
        CpuCmd::Restore => action == Action::<Seq<char>>::Host(Op::ClearSavedCpu) || action
            == Action::<Seq<char>>::Host(Op::DisarmCpuOc),
        _ => false,
    }
}

/// The ends, other than success, that a CPU command is entitled to: the error of an action that it
/// needs, and a Vid cap above the ceiling.
pub open spec fn cpu_may_end(
    site: Site,
    cmd: CpuCmd,
    h: History,
    outcome: Outcome<Seq<char>>,
) -> bool {
    ||| exists|f: Fault<String>| #[trigger]
        told(h, Op::OpenOc, Reply::Failed(f)) && outcome == Outcome::Failed(
            Fault {
                message: "queue-3 OC mailbox not reachable (need root + a BC-250)"@,
                chain: "queue-3 OC mailbox not reachable (need root + a BC-250)"@ + ": "@
                    + f.chain@,
            },
        )
    ||| exists|action: Action<Seq<char>>, f: Fault<String>| #[trigger]
        answered(h, action, Reply::Failed(f)) && action != Action::<Seq<char>>::Host(Op::OpenOc)
            && !cpu_tolerates(cmd, action) && outcome == Outcome::Failed(
            Fault { message: f.message@, chain: f.chain@ },
        )
    ||| cmd matches CpuCmd::Undervolt { boost, vid_cap } && vid_cap > site.vid_ceiling_mv && outcome
        == Outcome::Failed(
        fault(
            "vid cap "@ + dec(vid_cap as nat) + " exceeds "@ + dec(site.vid_ceiling_mv as nat)
                + " mV ceiling"@,
        ),
    )
}

/// The decisions of a CPU command whose values are vouched for.
spec fn cpu_ground(
    site: Site,
    cmd: CpuCmd,
    h: History,
    action: Action<Seq<char>>,
    point: Point<Seq<char>>,
) -> bool {
    match point {
        Point::At(spot) => match spot {
            Spot::CpuStatus => cmd is Status && action == Action::<Seq<char>>::Host(Op::CpuLive),
            Spot::CpuGpuVid => cmd is Status && action == Action::<Seq<char>>::Host(Op::GpuVoltage),
            Spot::CpuBoot => cmd is Status && action == Action::<Seq<char>>::Host(Op::CpuOcArmed),
            Spot::CpuTune { boost, scale, cpu_temp, gpu_temp } => cmd == (CpuCmd::Tune {
                boost,
                scale,
                cpu_temp,
                gpu_temp,
            }) && action == Action::<Seq<char>>::Host(Op::LoadCpu),
            Spot::CpuTuned(p) => cmd is Tune && action == Action::<Seq<char>>::Host(
                Op::PredictedVid(p),
            ) && cpu_may(site, cmd, h, action),
            Spot::CpuArmed => cmd is Tune && action == Action::<Seq<char>>::Host(Op::ArmCpuOc),
            Spot::UndervoltScale(b) => cmd matches CpuCmd::Undervolt { boost, vid_cap } && vid_cap
                <= site.vid_ceiling_mv && b == boost && action == Action::<Seq<char>>::Host(
                Op::SafeScale { boost, vid_cap },
            ),
            Spot::UndervoltBase { boost: b, scale } => cmd matches CpuCmd::Undervolt {
                boost,
                vid_cap,
            } && vid_cap <= site.vid_ceiling_mv && b == boost && told(
                h,
                Op::SafeScale { boost, vid_cap },
                Reply::Signed(scale),
            ) && action == Action::<Seq<char>>::Host(Op::DefaultCpu),
            Spot::UndervoltVid { boost: b, scale } => cmd matches CpuCmd::Undervolt {
                boost,
                vid_cap,
            } && vid_cap <= site.vid_ceiling_mv && b == boost && (action matches Action::Host(
                Op::PredictedVid(p),
            ) && p.curve_scale == scale && undervolted_to(h, boost, vid_cap, p)),
            Spot::CpuSaved => cmd is ApplySaved && action == Action::<Seq<char>>::Host(
                Op::CpuSaved,
            ),
            Spot::CpuReapply => cmd is ApplySaved && action == Action::<Seq<char>>::Host(
                Op::LoadCpu,
            ),
            Spot::CpuReapplied(p) => cmd is ApplySaved && action == Action::<Seq<char>>::Host(
                Op::PredictedVid(p),
            ) && told(h, Op::LoadCpu, Reply::Point(p)),
            _ => false,
        },
        Point::Detected(s) => cmd matches CpuCmd::Detect {
            target,
            vid_cap,
            temp,
            step,
            dwell,
            save,
        } && s == maybe(save) && action == Action::<Seq<char>>::Host(
            Op::DetectCpu(
                SweepOpts {
                    target_mhz: target,
                    vid_cap_mv: vid_cap,
                    temp_c: temp,
                    step,
                    dwell_s: dwell,
                },
            ),
        ),
        Point::DetectedVid { point: p, save: s } => (cmd matches CpuCmd::Detect {
            target,
            vid_cap,
            temp,
            step,
            dwell,
            save,
        } && s == maybe(save)) && action == Action::<Seq<char>>::Host(Op::PredictedVid(p))
            && cpu_may(site, cmd, h, action),
        Point::ProfileSaved(n) => (cmd matches CpuCmd::Detect {
            target,
            vid_cap,
            temp,
            step,
            dwell,
            save,
        } && maybe(save) == Some(n)) && (action matches Action::SaveProfile {
            name,
            description,
            cpu,
        } && name == n),
        _ => false,
    }
}

spec fn cpu_custody(site: Site, cmd: CpuCmd, h: History) -> Custody {
    Custody {
        warrant: |action: Action<Seq<char>>| cpu_may(site, cmd, h, action),
        ground: |action: Action<Seq<char>>, point: Point<Seq<char>>|
            cpu_ground(site, cmd, h, action, point),
        close: |outcome: Outcome<Seq<char>>| cpu_may_end(site, cmd, h, outcome),
    }
}

proof fn lemma_cpu_decision(
    site: Site,
    cmd: CpuCmd,
    h: History,
    action: Action<Seq<char>>,
    point: Point<Seq<char>>,
    reply: Reply,
)
    requires
        cpu_ground(site, cmd, h, action, point),
        answered(h, action, reply),
        decision(site, point, reply) is Some,
    ensures
        cpu_custody(site, cmd, h).covers(h, decision(site, point, reply)->0),
{
    let custody = cpu_custody(site, cmd, h);
    let decided = decision(site, point, reply)->0;
    assert(point matches Point::At(_) ==> action is Host);
    if let Action::Host(op) = action {
        assert(told(h, op, reply));
    }
    match point {
        Point::Detected(s) => {
            let opts = action->Host_0->DetectCpu_0;
            let points = reply->Detected_0;
            let best = reply->Detected_1;
            assert(swept_to(h, opts, points, best));
            assert forall|i: int| 0 <= i < decided.len() implies custody.covers_step(
                h,
                #[trigger] decided[i],
            ) by {
                if 1 <= i <= points@.len() {
                    assert(sweep_row(points@[i - 1]) == crate::cpu::sweep_text(points@[i - 1]));
                    assert(in_table(points@, sweep_row(points@[i - 1])));
                }
            }
            assert(custody.covers(h, decided));
        },
        Point::At(spot) => {
            match spot {
                Spot::CpuStatus => {
                    let l = reply->Live_0;
                    let texts = |n: u32| dec(n as nat);
                    assert(crate::cpu::spaced(l.cores@) == join(l.cores@.map_values(texts), "  "@))
                        by {
                        assert(l.cores@.map_values(texts) =~= l.cores@.map_values(
                            |n: u32| dec(n as nat),
                        ));
                    }
                    assert(crate::cpu::spaced(l.pstates@) == join(
                        l.pstates@.map_values(texts),
                        "  "@,
                    )) by {
                        assert(l.pstates@.map_values(texts) =~= l.pstates@.map_values(
                            |n: u32| dec(n as nat),
                        ));
                    }
                    assert(custody.covers(h, decided));
                },
                Spot::CpuTune { boost, scale, cpu_temp, gpu_temp } => {
                    let prev = reply->Point_0;
                    let point = decided[0]->action->Host_0->ApplyCpuFrom_point;
                    assert(told(h, Op::LoadCpu, Reply::Point(prev)));
                    assert(tuned_from(h, boost, scale, cpu_temp, gpu_temp, prev, point));
                    assert(tuned_to(h, boost, scale, cpu_temp, gpu_temp, point));
                    assert(custody.covers(h, decided));
                },
                Spot::CpuTuned(p) => {
                    assert(told(h, Op::PredictedVid(p), Reply::Number(reply->Number_0)));
                    assert(custody.covers(h, decided));
                },
                _ => {
                    assert(custody.covers(h, decided));
                },
            }
        },
        Point::DetectedVid { point: p, save } => {
            assert(told(h, Op::PredictedVid(p), Reply::Number(reply->Number_0)));
            assert(custody.covers(h, decided));
        },
        Point::ProfileSaved(name) => {
            let description = action->SaveProfile_description;
            let cpu = action->SaveProfile_cpu;
            let path = reply->Text_0;
            assert(answered(
                h,
                Action::SaveProfile { name, description, cpu },
                Reply::Text(path),
            ));
            assert(tells_saved(h, name, "saved profile '"@ + name + "' -> "@ + path@));
            assert(custody.covers(h, decided));
        },
        _ => {},
    }
}

/// Law: a CPU command does, says and ends with nothing but what its command line and the answers of
/// the host entitle it to. An undervolt applies the scale that is safe for exactly its boost clock
/// and Vid cap; a sweep runs within exactly the bounds that were given; a tuned point is the one
/// that was loaded with the given values put in.
pub proof fn law_cpu_warrants(site: Site, cmd: CpuCmd, replies: Seq<Reply>)
    ensures
        ({
            let c = course(site, Cmd::Cpu { action: cmd }, replies);
            &&& forall|action: Action<Seq<char>>| #[trigger]
                c.handed(action) ==> cpu_may(site, cmd, c.history, action)
            &&& ended(c.plan) == Some(Outcome::<Seq<char>>::Success) ==> c.plan.len() == 0
            &&& ended(c.plan) matches Some(outcome) ==> outcome is Success || cpu_may_end(
                site,
                cmd,
                c.history,
                outcome,
            )
        }),
{
    let h = course(site, Cmd::Cpu { action: cmd }, replies).history;
    let custody = cpu_custody(site, cmd, h);
    assert(custody.covers(h, opening(site, Cmd::Cpu { action: cmd })));
    assert forall|action: Action<Seq<char>>, point: Point<Seq<char>>, reply: Reply|
        #![trigger (custody.ground)(action, point), decision(site, point, reply)]
        (custody.ground)(action, point) && answered(h, action, reply) && decision(
            site,
            point,
            reply,
        ) is Some implies custody.covers(h, decision(site, point, reply)->0) by {
        lemma_cpu_decision(site, cmd, h, action, point, reply);
    }
    lemma_custody(site, Cmd::Cpu { action: cmd }, replies, custody);
}

/// Law: the point that an undervolt applies has the boost clock of the command line and the curve
/// scale that the host answered as the safe one for exactly that clock and the Vid cap of the
/// command line.
pub proof fn law_undervolt_is_safe_for_the_cap(
    site: Site,
    boost: u32,
    vid_cap: u32,
    replies: Seq<Reply>,
    point: CpuOc,
)
    requires
        course(site, Cmd::Cpu { action: CpuCmd::Undervolt { boost, vid_cap } }, replies).did(
            Op::ApplyCpu(point),
        ),
    ensures
        vid_cap <= site.vid_ceiling_mv,
        point.boost_mhz == boost,
        told(
            course(
                site,
                Cmd::Cpu { action: CpuCmd::Undervolt { boost, vid_cap } },
                replies,
            ).history,
            Op::SafeScale { boost, vid_cap },
            Reply::Signed(point.curve_scale),
        ),
{
    law_cpu_warrants(site, CpuCmd::Undervolt { boost, vid_cap }, replies);
    let c = course(site, Cmd::Cpu { action: CpuCmd::Undervolt { boost, vid_cap } }, replies);
    assert(c.handed(Action::Host(Op::ApplyCpu(point))));
}

/// Law: a sweep is run within the bounds of the command line and no others.
pub proof fn law_sweep_is_within_the_bounds(
    site: Site,
    target: u32,
    vid_cap: u32,
    temp: u32,
    step: u32,
    dwell: u64,
    save: Option<String>,
    replies: Seq<Reply>,
    opts: SweepOpts,
)
    requires
        course(
            site,
            Cmd::Cpu { action: CpuCmd::Detect { target, vid_cap, temp, step, dwell, save } },
            replies,
        ).did(Op::DetectCpu(opts)),
    ensures
        opts.target_mhz == target,
        opts.vid_cap_mv == vid_cap,
        opts.temp_c == temp,
        opts.step == step,
        opts.dwell_s == dwell,
{
    let cmd = CpuCmd::Detect { target, vid_cap, temp, step, dwell, save };
    law_cpu_warrants(site, cmd, replies);
    let c = course(site, Cmd::Cpu { action: cmd }, replies);
    assert(c.handed(Action::Host(Op::DetectCpu(opts))));
}

} // verus!
