//! What a CPU command that ends in success has done and said.
use vstd::prelude::*;

use crate::cli::opening;
use crate::commands::{Cmd, CpuCmd};
use crate::completion::{
    lemma_all_steps, lemma_asked, lemma_completed, managed, managed_op, ran, said, tried_op,
};
use crate::custody::told;
use crate::decide::decision;
use crate::model::{CpuLive, CpuOc, Reply, Site, SweepOpts, SweepPoint};
use crate::plan::{maybe, Action, Op, Outcome};
use crate::session::ended;
use crate::text::{dec, dec_int};
use crate::trace::{answered, course, History};
use crate::warrant_cpu::{
    law_cpu_warrants, quantity, sweep_row, swept_to, tells_live, tuned_from, undervolted_to,
};

verus! {

/// The live CPU state was told, all of it.
pub open spec fn cpu_status_done(site: Site, h: History) -> bool {
    &&& exists|l: CpuLive| #[trigger]
        told(h, Op::CpuLive, Reply::Live(l)) && forall|text: Seq<char>| #[trigger]
            tells_live(l, text) ==> said(h, text)
    &&& exists|mv: Option<u32>| #[trigger]
        told(h, Op::GpuVoltage, Reply::MaybeNumber(mv)) && said(
            h,
            "  GPU Vid:        "@ + quantity(mv, " mV"@),
        )
    &&& exists|armed: bool| #[trigger]
        told(h, Op::CpuOcArmed, Reply::Flag(armed)) && said(
            h,
            "  boot re-apply:  "@ + if armed {
                "armed ("@ + site.cpu_oc_unit@ + ")"@
            } else {
                "not armed"@
            },
        )
}

/// A point was applied, persisted and its boot re-apply armed, as far as that could be, and all
/// that was told.
pub open spec fn point_kept(site: Site, h: History, prev: CpuOc, point: CpuOc) -> bool {
    &&& managed_op(h, Op::ApplyCpuFrom { point, prev })
    &&& managed_op(h, Op::SaveCpu(point))
    &&& exists|vid: u32| #[trigger]
        told(h, Op::PredictedVid(point), Reply::Number(vid)) && said(
            h,
            "applied: boost "@ + dec(point.boost_mhz as nat) + " MHz, curve scale "@ + dec_int(
                point.curve_scale as int,
            ) + " (~"@ + dec(vid as nat) + " mV @ boost), temp "@ + dec(point.cpu_temp_c as nat)
                + "/"@ + dec(point.gpu_temp_c as nat) + " C"@,
        )
    &&& point.boost_mhz > site.boost_warn_mhz ==> said(
        h,
        "note: "@ + dec(point.boost_mhz as nat) + " MHz is aggressive — stress-test thoroughly."@,
    )
}

/// What came of arming the boot re-apply was told.
pub open spec fn arming_told(h: History) -> bool {
    exists|reply: Reply| #[trigger]
        told(h, Op::ArmCpuOc, reply) && match reply {
            Reply::Failed(f) => said(
                h,
                "(live only — could not install boot service: "@ + f.message@ + ")"@,
            ),
            _ => said(h, "persisted — re-applied on every boot"@),
        }
}

/// The given values were put into the persisted point, and that was kept.
pub open spec fn tune_done(
    site: Site,
    h: History,
    boost: Option<u32>,
    scale: Option<i32>,
    cpu_temp: Option<u32>,
    gpu_temp: Option<u32>,
) -> bool {
    &&& exists|prev: CpuOc, point: CpuOc| #[trigger]
        tuned_from(h, boost, scale, cpu_temp, gpu_temp, prev, point) && point_kept(
            site,
            h,
            prev,
            point,
        )
    &&& arming_told(h)
}

/// The point of an undervolt was applied, and told.
pub open spec fn undervolt_done(h: History, boost: u32, vid_cap: u32) -> bool {
    exists|p: CpuOc, vid: u32| #[trigger]
        told(h, Op::PredictedVid(p), Reply::Number(vid)) && undervolted_to(h, boost, vid_cap, p)
            && managed_op(h, Op::ApplyCpu(p)) && said(
            h,
            "undervolt: boost "@ + dec(boost as nat) + " MHz, curve scale "@ + dec_int(
                p.curve_scale as int,
            ) + " (~"@ + dec(vid as nat) + " mV predicted @ boost)"@,
        )
}

/// The persisted point was applied, and told.
pub open spec fn reapplied(h: History) -> bool {
    exists|p: CpuOc, vid: u32| #[trigger]
        told(h, Op::PredictedVid(p), Reply::Number(vid)) && told(h, Op::LoadCpu, Reply::Point(p))
            && managed_op(h, Op::ApplyCpu(p)) && said(
            h,
            "re-applied saved CPU OC: boost "@ + dec(p.boost_mhz as nat) + " MHz, scale "@
                + dec_int(p.curve_scale as int) + " (~"@ + dec(vid as nat) + " mV), temp "@ + dec(
                p.cpu_temp_c as nat,
            ) + "/"@ + dec(p.gpu_temp_c as nat) + " C"@,
        )
}

/// The highest stable point of a sweep was told, and saved where that was asked for.
pub open spec fn best_kept(h: History, best: CpuOc, save: Option<Seq<char>>) -> bool {
    &&& exists|vid: u32| #[trigger]
        told(h, Op::PredictedVid(best), Reply::Number(vid)) && said(
            h,
            "\nhighest stable: boost "@ + dec(best.boost_mhz as nat) + " MHz @ curve scale "@
                + dec_int(best.curve_scale as int) + " (~"@ + dec(vid as nat) + " mV)"@,
        )
    &&& save matches Some(name) ==> exists|description: Seq<char>, path: String| #[trigger]
        answered(
            h,
            Action::SaveProfile { name, description, cpu: best },
            Reply::Text(path),
        ) && said(h, "saved profile '"@ + name + "' -> "@ + path@)
}

/// A sweep within these bounds was made, each of its points told, and its best one kept.
pub open spec fn detect_done(h: History, opts: SweepOpts, save: Option<Seq<char>>) -> bool {
    &&& save matches Some(name) ==> managed(h, Action::CheckProfileName(name))
    &&& exists|points: Vec<SweepPoint>, best: Option<CpuOc>| #[trigger]
        swept_to(h, opts, points, best) && rows_told(h, points@) && match best {
            Some(p) => best_kept(h, p, save),
            None => said(h, "\nno stable point found in range"@),
        }
}

/// Each point of a sweep was told.
pub open spec fn rows_told(h: History, points: Seq<SweepPoint>) -> bool {
    forall|i: int| 0 <= i < points.len() ==> said(h, sweep_row(#[trigger] points[i]))
}

/// What a CPU command that ends in success has done and said.
pub open spec fn cpu_done(site: Site, cmd: CpuCmd, h: History) -> bool {
    managed_op(h, Op::OpenOc) && match cmd {
        CpuCmd::Status => cpu_status_done(site, h),
        CpuCmd::Tune { boost, scale, cpu_temp, gpu_temp } => tune_done(
            site,
            h,
            boost,
            scale,
            cpu_temp,
            gpu_temp,
        ),
        CpuCmd::Undervolt { boost, vid_cap } => undervolt_done(h, boost, vid_cap),
        CpuCmd::Vid { mv } => managed_op(h, Op::ForceCpuVid(mv)) && said(
            h,
            "forced CPU Vid "@ + dec(mv as nat) + " mV (capped at "@ + dec(
                site.vid_ceiling_mv as nat,
            ) + " mV)"@,
        ),
        CpuCmd::VidAuto => managed_op(h, Op::ReleaseCpuVid) && said(
            h,
            "released CPU Vid to the SMU curve"@,
        ),
        CpuCmd::Restore => managed_op(h, Op::RestoreCpu) && tried_op(h, Op::ClearSavedCpu)
            && tried_op(h, Op::DisarmCpuOc) && said(
            h,
            "CPU restored to firmware defaults (saved OC + boot service removed)"@,
        ),
        CpuCmd::ApplySaved => reapplied(h) || (told(h, Op::CpuSaved, Reply::Flag(false)) && said(
            h,
            "no saved CPU OC — nothing to apply"@,
        )),
        CpuCmd::Detect { target, vid_cap, temp, step, dwell, save } => detect_done(
            h,
            SweepOpts {
                target_mhz: target,
                vid_cap_mv: vid_cap,
                temp_c: temp,
                step,
                dwell_s: dwell,
            },
            maybe(save),
        ),
    }
}

proof fn lemma_cpu_status_done(site: Site, h: History)
    requires
        ran(site, h, opening(site, Cmd::Cpu { action: CpuCmd::Status }), 5),
    ensures
        cpu_status_done(site, h),
{
    let p0 = opening(site, Cmd::Cpu { action: CpuCmd::Status });
    let r0 = lemma_asked(site, h, p0, 1, 5);
    let l = r0->Live_0;
    assert(told(h, Op::CpuLive, Reply::Live(l)));
    let p1 = crate::cpu::status_plan(l);
    assert(decision(site, p0[1]->then->Ask_0, r0) == Some(p1));
    lemma_all_steps(site, h, p1, 4);
    let n = p1.len() as int;
    assert(said(h, p1[1]->action->Println_0));
    assert(said(h, p1[n - 2]->action->Println_0));
    let texts = |m: u32| dec(m as nat);
    assert(l.cores@.map_values(texts) =~= l.cores@.map_values(|m: u32| dec(m as nat)));
    assert(l.pstates@.map_values(texts) =~= l.pstates@.map_values(|m: u32| dec(m as nat)));
    if l.cores@.len() > 0 {
        assert(said(h, p1[3]->action->Println_0));
    }
    if l.pstates@.len() > 0 {
        assert(said(h, p1[n - 3]->action->Println_0));
    }
    assert forall|text: Seq<char>| #[trigger] tells_live(l, text) implies said(h, text) by {}
    let r1 = lemma_asked(site, h, p1, 2, 4);
    let mv = r1->MaybeNumber_0;
    assert(told(h, Op::GpuVoltage, Reply::MaybeNumber(mv)));
    let p2 = decision(site, p1[2]->then->Ask_0, r1)->0;
    lemma_all_steps(site, h, p2, 3);
    assert(said(h, p2[0]->action->Println_0));
    let r2 = lemma_asked(site, h, p1, n - 1, 4);
    let armed = r2->Flag_0;
    assert(told(h, Op::CpuOcArmed, Reply::Flag(armed)));
    let p3 = decision(site, p1[n - 1]->then->Ask_0, r2)->0;
    lemma_all_steps(site, h, p3, 3);
    assert(said(h, p3[0]->action->Println_0));
}

proof fn lemma_tune_done(
    site: Site,
    h: History,
    boost: Option<u32>,
    scale: Option<i32>,
    cpu_temp: Option<u32>,
    gpu_temp: Option<u32>,
)
    requires
        ran(
            site,
            h,
            opening(
                site,
                Cmd::Cpu { action: CpuCmd::Tune { boost, scale, cpu_temp, gpu_temp } },
            ),
            5,
        ),
    ensures
        tune_done(site, h, boost, scale, cpu_temp, gpu_temp),
{
    let p0 = opening(site, Cmd::Cpu { action: CpuCmd::Tune { boost, scale, cpu_temp, gpu_temp } });
    let r0 = lemma_asked(site, h, p0, 1, 5);
    let prev = r0->Point_0;
    assert(told(h, Op::LoadCpu, Reply::Point(prev)));
    let p1 = decision(site, p0[1]->then->Ask_0, r0)->0;
    lemma_all_steps(site, h, p1, 4);
    let point = p1[0]->action->Host_0->ApplyCpuFrom_point;
    assert(tuned_from(h, boost, scale, cpu_temp, gpu_temp, prev, point));
    let r1 = lemma_asked(site, h, p1, 1, 4);
    let vid = r1->Number_0;
    assert(told(h, Op::PredictedVid(point), Reply::Number(vid)));
    let p2 = decision(site, p1[1]->then->Ask_0, r1)->0;
    lemma_all_steps(site, h, p2, 3);
    let n = p2.len() as int;
    assert(said(h, p2[0]->action->Println_0));
    if point.boost_mhz > site.boost_warn_mhz {
        assert(said(h, p2[1]->action->Println_0));
    }
    assert(p2[n - 2]->action == Action::<Seq<char>>::Host(Op::SaveCpu(point)));
    assert(point_kept(site, h, prev, point));
    let r2 = lemma_asked(site, h, p2, n - 1, 3);
    assert(told(h, Op::ArmCpuOc, r2));
    let p3 = decision(site, p2[n - 1]->then->Judge_0, r2)->0;
    lemma_all_steps(site, h, p3, 2);
    assert(said(h, p3[0]->action->Println_0));
}

proof fn lemma_undervolt_done(site: Site, h: History, boost: u32, vid_cap: u32)
    requires
        ran(
            site,
            h,
            opening(site, Cmd::Cpu { action: CpuCmd::Undervolt { boost, vid_cap } }),
            6,
        ),
    ensures
        undervolt_done(h, boost, vid_cap),
{
    let p0 = opening(site, Cmd::Cpu { action: CpuCmd::Undervolt { boost, vid_cap } });
    lemma_all_steps(site, h, p0, 6);
    if vid_cap > site.vid_ceiling_mv {
        assert(p0[1] is End);
    }
    let r0 = lemma_asked(site, h, p0, 1, 6);
    let scale = r0->Signed_0;
    assert(told(h, Op::SafeScale { boost, vid_cap }, Reply::Signed(scale)));
    let p1 = decision(site, p0[1]->then->Ask_0, r0)->0;
    let r1 = lemma_asked(site, h, p1, 0, 5);
    let base = r1->Point_0;
    assert(told(h, Op::DefaultCpu, Reply::Point(base)));
    let p2 = decision(site, p1[0]->then->Ask_0, r1)->0;
    lemma_all_steps(site, h, p2, 4);
    let p = p2[0]->action->Host_0->ApplyCpu_0;
    assert(undervolted_to(h, boost, vid_cap, p));
    let r2 = lemma_asked(site, h, p2, 1, 4);
    let vid = r2->Number_0;
    assert(told(h, Op::PredictedVid(p), Reply::Number(vid)));
    let p3 = decision(site, p2[1]->then->Ask_0, r2)->0;
    lemma_all_steps(site, h, p3, 3);
    assert(said(h, p3[0]->action->Println_0));
}

proof fn lemma_apply_saved_done(site: Site, h: History)
    requires
        ran(site, h, opening(site, Cmd::Cpu { action: CpuCmd::ApplySaved }), 6),
    ensures
        cpu_done(site, CpuCmd::ApplySaved, h),
{
    let p0 = opening(site, Cmd::Cpu { action: CpuCmd::ApplySaved });
    lemma_all_steps(site, h, p0, 6);
    assert(p0[0]->action == Action::<Seq<char>>::Host(Op::OpenOc));
    let r0 = lemma_asked(site, h, p0, 1, 6);
    let p1 = decision(site, p0[1]->then->Ask_0, r0)->0;
    lemma_all_steps(site, h, p1, 5);
    if r0->Flag_0 {
        let r1 = lemma_asked(site, h, p1, 0, 5);
        let p = r1->Point_0;
        assert(told(h, Op::LoadCpu, Reply::Point(p)));
        let p2 = decision(site, p1[0]->then->Ask_0, r1)->0;
        lemma_all_steps(site, h, p2, 4);
        assert(p2[0]->action == Action::<Seq<char>>::Host(Op::ApplyCpu(p)));
        let r2 = lemma_asked(site, h, p2, 1, 4);
        let vid = r2->Number_0;
        assert(told(h, Op::PredictedVid(p), Reply::Number(vid)));
        let p3 = decision(site, p2[1]->then->Ask_0, r2)->0;
        lemma_all_steps(site, h, p3, 3);
        assert(said(h, p3[0]->action->Println_0));
        assert(reapplied(h));
    } else {
        assert(told(h, Op::CpuSaved, Reply::Flag(false)));
        assert(said(h, p1[0]->action->Println_0));
    }
}

proof fn lemma_detect_done(site: Site, h: History, cmd: CpuCmd)
    requires
        cmd is Detect,
        ran(site, h, opening(site, Cmd::Cpu { action: cmd }), 6),
    ensures
        cpu_done(site, cmd, h),
{
    let p0 = opening(site, Cmd::Cpu { action: cmd });
    lemma_all_steps(site, h, p0, 6);
    assert(p0[0]->action == Action::<Seq<char>>::Host(Op::OpenOc));
    let save = maybe(cmd->Detect_save);
    let n = p0.len() - 1;
    if save is Some {
        assert(p0[1]->action == Action::CheckProfileName(save->0));
    }
    let opts = p0[n]->action->Host_0->DetectCpu_0;
    let r0 = lemma_asked(site, h, p0, n, 6);
    let points = r0->Detected_0;
    let best = r0->Detected_1;
    assert(swept_to(h, opts, points, best));
    let p1 = crate::cpu::detected_plan(points@, best, save);
    assert(decision(site, p0[n]->then->Ask_0, r0) == Some(p1));
    lemma_all_steps(site, h, p1, 5);
    assert forall|i: int| 0 <= i < points@.len() implies said(
        h,
        sweep_row(#[trigger] points@[i]),
    ) by {
        assert(p1[i + 1] == crate::plan::say(crate::cpu::sweep_text(points@[i])));
        assert(sweep_row(points@[i]) == crate::cpu::sweep_text(points@[i]));
    }
    assert(rows_told(h, points@));
    let m = p1.len() - 1;
    match best {
        Some(p) => {
            let r1 = lemma_asked(site, h, p1, m, 5);
            let vid = r1->Number_0;
            assert(told(h, Op::PredictedVid(p), Reply::Number(vid)));
            let p2 = decision(site, p1[m]->then->Ask_0, r1)->0;
            lemma_all_steps(site, h, p2, 4);
            assert(said(h, p2[0]->action->Println_0));
            if let Some(name) = save {
                let description = p2[1]->action->SaveProfile_description;
                let r2 = lemma_asked(site, h, p2, 1, 4);
                let path = r2->Text_0;
                assert(answered(
                    h,
                    Action::SaveProfile { name, description, cpu: p },
                    Reply::Text(path),
                ));
                let p3 = decision(site, p2[1]->then->Ask_0, r2)->0;
                lemma_all_steps(site, h, p3, 3);
                assert(said(h, p3[0]->action->Println_0));
            }
            assert(best_kept(h, p, save));
        },
        None => {
            assert(said(h, p1[m]->action->Println_0));
        },
    }
}

/// Law: a CPU command that ends in success has done all that it is for, and told it.
pub proof fn law_cpu_done(site: Site, cmd: CpuCmd, replies: Seq<Reply>)
    requires
        ended(course(site, Cmd::Cpu { action: cmd }, replies).plan) == Some(
            Outcome::<Seq<char>>::Success,
        ),
    ensures
        cpu_done(site, cmd, course(site, Cmd::Cpu { action: cmd }, replies).history),
{
    let c = Cmd::Cpu { action: cmd };
    let h = course(site, c, replies).history;
    law_cpu_warrants(site, cmd, replies);
    lemma_completed(site, c, replies, 5);
    lemma_completed(site, c, replies, 6);
    let p0 = opening(site, c);
    lemma_all_steps(site, h, p0, 5);
    assert(p0[0]->action == Action::<Seq<char>>::Host(Op::OpenOc));
    match cmd {
        CpuCmd::Status => {
            lemma_cpu_status_done(site, h);
        },
        CpuCmd::Tune { boost, scale, cpu_temp, gpu_temp } => {
            lemma_tune_done(site, h, boost, scale, cpu_temp, gpu_temp);
        },
        CpuCmd::Undervolt { boost, vid_cap } => {
            lemma_undervolt_done(site, h, boost, vid_cap);
        },
        CpuCmd::ApplySaved => {
            lemma_apply_saved_done(site, h);
        },
        CpuCmd::Detect { .. } => {
            lemma_detect_done(site, h, cmd);
        },
        CpuCmd::Restore => {
            assert(p0[1]->action == Action::<Seq<char>>::Host(Op::RestoreCpu));
            assert(p0[2]->action == Action::<Seq<char>>::Host(Op::ClearSavedCpu));
            assert(p0[3]->action == Action::<Seq<char>>::Host(Op::DisarmCpuOc));
            assert(said(h, p0[4]->action->Println_0));
        },
        _ => {
            assert(managed(h, p0[1]->action));
            assert(said(h, p0[2]->action->Println_0));
        },
    }
}

} // verus!
