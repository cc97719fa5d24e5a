//! What a command on patches, profiles or kernel builds that ends in success has done and said.
use vstd::prelude::*;

use crate::cli::opening;
use crate::commands::{Cmd, ProfileCmd};
use crate::completion::{
    lemma_all_steps, lemma_asked, lemma_completed, managed, managed_op, ran, said, tried, tried_op,
};
use crate::custody::told;
use crate::decide::decision;
use crate::done_cu::map_told;
use crate::model::{CuMap, Patch, PatchReport, PowerConfig, ProfileEntry, Reply, Site};
use crate::plan::{maybe, Action, BuildRequest, Op, Outcome};
use crate::session::ended;
use crate::text::{dec, left};
use crate::trace::{course, History};
use crate::warrant_other::{
    found, lacks_patch, law_other_warrants, lemma_first, lemma_live_of, shows_patch,
    may_stop, tells_live, tells_preflight, tells_report, tells_row, tells_step,
};

verus! {

/// The patch that was asked for was printed, or that there is none.
pub open spec fn patch_shown(h: History, id: Seq<char>) -> bool {
    lacks_patch(h, id) && said(h, "no such patch: "@ + id) || exists|p: Patch| #[trigger]
        shows_patch(h, id, p) && said(
            h,
            "# "@ + id + " — "@ + p.title@ + "\n# touches: "@ + p.touches@ + "\n"@,
        ) && tried(h, Action::Print(p.body@))
}

/// The report was told, all of it.
pub open spec fn report_told(h: History) -> bool {
    exists|rep: PatchReport| #[trigger]
        told(h, Op::PatchReport, Reply::Report(rep)) && forall|text: Seq<char>| #[trigger]
            tells_report(rep, text) ==> said(h, text)
}

/// The JSON object was written.
pub open spec fn json_told(h: History) -> bool {
    exists|t: String| #[trigger] told(h, Op::ReportJson, Reply::Text(t)) && said(h, t@)
}

/// The number of active CUs was told.
pub open spec fn active_told(h: History) -> bool {
    exists|map: Option<CuMap>| #[trigger]
        told(h, Op::CuMap, Reply::Harvest(map)) && said(
            h,
            match map {
                Some(m) => "  CUs active: "@ + dec(m.active as nat) + "/"@ + dec(m.possible as nat),
                None => "  CUs active: unknown (amdgpu not queryable)"@,
            },
        )
}

/// The pin was told, or else the auto mode.
pub open spec fn gpu_mode_told(h: History) -> bool {
    exists|cfg: PowerConfig| #[trigger]
        told(h, Op::LoadPower, Reply::Power(cfg)) && match cfg.force_mhz {
            Some(m) => said(
                h,
                "  GPU mode: manual pin "@ + dec(m as nat) + " MHz (wins at boot)"@,
            ),
            None => exists|name: String| #[trigger]
                told(h, Op::ModeName(cfg.auto_mode), Reply::Text(name)) && said(
                    h,
                    "  GPU mode: auto ("@ + name@ + ")"@,
                ),
        }
}

/// The boot units were told.
pub open spec fn units_told(h: History) -> bool {
    exists|gpu: bool, cpu: bool, route: bool|
        #![trigger told(h, Op::GpuUnitInstalled, Reply::Flag(gpu)), told(h, Op::CpuOcArmed, Reply::Flag(cpu)), told(h, Op::RouteArmed, Reply::Flag(route))]
        told(h, Op::GpuUnitInstalled, Reply::Flag(gpu)) && told(
            h,
            Op::CpuOcArmed,
            Reply::Flag(cpu),
        ) && told(h, Op::RouteArmed, Reply::Flag(route)) && said(
            h,
            "  boot units: gpu "@ + (if gpu {
                "installed"@
            } else {
                "absent"@
            }) + "  cpu-oc "@ + (if cpu {
                "armed"@
            } else {
                "off"@
            }) + "  route "@ + (if route {
                "armed"@
            } else {
                "off"@
            }),
        )
}

/// The preflight was told, all of it.
pub open spec fn preflight_told(h: History) -> bool {
    &&& exists|rep: PatchReport| #[trigger]
        told(h, Op::PatchReport, Reply::Report(rep)) && forall|text: Seq<char>| #[trigger]
            tells_preflight(rep, text) ==> said(h, text)
    &&& active_told(h)
    &&& gpu_mode_told(h)
    &&& units_told(h)
}

/// Each profile was told.
pub open spec fn profiles_told(h: History) -> bool {
    exists|all: Vec<ProfileEntry>| #[trigger]
        told(h, Op::AllProfiles, Reply::Profiles(all)) && forall|i: int|
            0 <= i < all@.len() ==> said(
                h,
                left((#[trigger] all@[i]).name@, 14) + " "@ + all@[i].description@,
            )
}

/// What a profile would do was told, all of it.
pub open spec fn steps_told(h: History, p: ProfileEntry) -> bool {
    forall|text: Seq<char>| #[trigger] tells_step(p, text) ==> said(h, text)
}

/// The profile that was asked for was shown.
pub open spec fn profile_shown(h: History, name: Seq<char>) -> bool {
    exists|p: ProfileEntry| #[trigger]
        found(h, name, p) && said(h, p.name@ + " — "@ + p.description@ + "\n"@) && steps_told(h, p)
}

/// The profile that was asked for was told and, unless in a dry run, validated and applied, and the
/// 40 CUs armed or disarmed as it says.
pub open spec fn profile_applied(site: Site, h: History, name: Seq<char>, write: bool) -> bool {
    exists|p: ProfileEntry| #[trigger]
        found(h, name, p) && said(h, "profile '"@ + p.name@ + "' — "@ + p.description@)
            && steps_told(h, p) && if write {
            &&& managed_op(h, Op::ValidateProfile)
            &&& tried_op(h, Op::OpenOc)
            &&& managed_op(h, Op::ApplyProfile)
            &&& p.cu_40 == Some(true) ==> managed_op(h, Op::ArmCu) && said(
                h,
                "armed 40-CU: "@ + site.modprobe_conf@ + " (reboot to apply)"@,
            )
            &&& p.cu_40 == Some(false) ==> managed_op(h, Op::DisarmCu) && said(
                h,
                "disarmed 40-CU (reboot to apply)"@,
            )
            &&& said(h, "applied '"@ + p.name@ + "'"@)
        } else {
            said(h, "\n(dry-run; pass --write to apply)"@)
        }
}

/// What such a command that ends in success has done and said.
pub open spec fn other_done(site: Site, cmd: Cmd, h: History) -> bool {
    match cmd {
        Cmd::Patches { show } => match maybe(show) {
            Some(id) => patch_shown(h, id),
            None => report_told(h),
        },
        Cmd::Cumap => map_told(
            h,
            "could not query amdgpu CU map (need a working amdgpu + render node)"@,
        ),
        Cmd::Build { pkgbuild, target, run } => managed(
            h,
            Action::Build {
                request: BuildRequest { pkgbuild, target: maybe(target), run },
                cc_mode: None,
            },
        ),
        Cmd::Profile { action } => match action {
            ProfileCmd::List => profiles_told(h),
            ProfileCmd::Show { name } => profile_shown(h, name@),
            ProfileCmd::Apply { name, write } => profile_applied(site, h, name@, write),
            ProfileCmd::Delete { name } => managed(h, Action::DeleteProfile(name@)) && said(
                h,
                "deleted custom profile '"@ + name@ + "'"@,
            ),
        },
        Cmd::Doctor { json, verify } => if json {
            json_told(h)
        } else {
            preflight_told(h)
        },
        _ => true,
    }
}

proof fn lemma_patches_done(site: Site, h: History, cmd: Cmd)
    requires
        cmd is Patches || cmd is Cumap,
        ran(site, h, opening(site, cmd), 4),
    ensures
        other_done(site, cmd, h),
{
    let p0 = opening(site, cmd);
    let r0 = lemma_asked(site, h, p0, 0, 4);
    let p1 = decision(site, p0[0]->then->Ask_0, r0)->0;
    lemma_all_steps(site, h, p1, 3);
    match cmd {
        Cmd::Patches { show } => match maybe(show) {
            Some(id) => {
                let series = r0->Series_0;
                assert(told(h, Op::PatchSeries, Reply::Series(series)));
                let i = lemma_first(series@, id);
                match crate::patches::find_patch(series@, id) {
                    Some(p) => {
                        assert(series@[i] == p);
                        assert(shows_patch(h, id, p));
                        assert(said(h, p1[0]->action->Println_0));
                        assert(tried(h, p1[1]->action));
                    },
                    None => {
                        assert(lacks_patch(h, id));
                        assert(said(h, p1[0]->action->Println_0));
                    },
                }
            },
            None => {
                let rep = r0->Report_0;
                assert(told(h, Op::PatchReport, Reply::Report(rep)));
                let n: int = if rep.dbg_dir is None {
                    3
                } else {
                    2
                };
                assert(said(h, p1[0]->action->Println_0));
                if n == 3 {
                    assert(said(h, p1[1]->action->Println_0));
                }
                assert(said(h, p1[n - 1]->action->Println_0));
                if rep.missing > 0 {
                    assert(said(h, p1[p1.len() - 1]->action->Println_0));
                }
                assert forall|text: Seq<char>| #[trigger] tells_report(rep, text) implies said(
                    h,
                    text,
                ) by {
                    if crate::warrant_other::tells_row(""@, rep.rows@, text) {
                        let i = choose|i: int|
                            0 <= i < rep.rows@.len() && text == ""@ + (
                            #[trigger] rep.rows@[i]).glyph@ + " "@ + left(rep.rows@[i].id@, 5)
                                + " "@ + rep.rows@[i].title@;
                        assert(p1[n + i]->action == Action::Println(
                            crate::patches::row_text(""@, rep.rows@[i]),
                        ));
                    }
                }
            },
        },
        _ => {
            let map = r0->Harvest_0;
            assert(told(h, Op::CuMap, Reply::Harvest(map)));
            assert(tried(h, p1[0]->action));
        },
    }
}

proof fn lemma_doctor_done(site: Site, h: History, json: bool, verify: bool)
    requires
        ran(site, h, opening(site, Cmd::Doctor { json, verify }), 6),
    ensures
        other_done(site, Cmd::Doctor { json, verify }, h),
{
    let p0 = opening(site, Cmd::Doctor { json, verify });
    let r0 = lemma_asked(site, h, p0, 0, 6);
    let rep = r0->Report_0;
    assert(told(h, Op::PatchReport, Reply::Report(rep)));
    let p1 = crate::patches::doctor_report_plan(json, verify, rep);
    assert(decision(site, p0[0]->then->Ask_0, r0) == Some(p1));
    lemma_all_steps(site, h, p1, 5);
    if json {
        let r1 = lemma_asked(site, h, p1, 0, 5);
        let t = r1->Text_0;
        assert(told(h, Op::ReportJson, Reply::Text(t)));
        let p2 = decision(site, p1[0]->then->Ask_0, r1)->0;
        lemma_all_steps(site, h, p2, 4);
        assert(said(h, p2[0]->action->Println_0));
    } else {
        lemma_live_of(rep.rows@);
        assert(said(h, p1[1]->action->Println_0));
        assert(said(h, p1[2]->action->Println_0));
        assert(said(h, p1[3]->action->Println_0));
        if !rep.fully_patched {
            assert(said(h, p1[6]->action->Println_0));
        }
        assert forall|text: Seq<char>| #[trigger] tells_preflight(rep, text) implies said(
            h,
            text,
        ) by {}
        let r1 = lemma_asked(site, h, p1, 4, 5);
        let map = r1->Harvest_0;
        assert(told(h, Op::CuMap, Reply::Harvest(map)));
        let p2 = decision(site, p1[4]->then->Ask_0, r1)->0;
        lemma_all_steps(site, h, p2, 4);
        assert(said(h, p2[0]->action->Println_0));
        assert(active_told(h));
        lemma_doctor_power(site, h, p1);
    }
}

/// The decision on the power settings of a preflight was carried out.
proof fn lemma_doctor_power(site: Site, h: History, p1: crate::plan::Plan)
    requires
        p1.len() > 5,
        p1[5] == crate::plan::ask(Op::LoadPower, crate::plan::Spot::DoctorPower),
        ran(site, h, p1, 5),
    ensures
        gpu_mode_told(h),
        units_told(h),
{
    let r = lemma_asked(site, h, p1, 5, 5);
    let cfg = r->Power_0;
    assert(told(h, Op::LoadPower, Reply::Power(cfg)));
    let p2 = decision(site, p1[5]->then->Ask_0, r)->0;
    lemma_all_steps(site, h, p2, 4);
    if cfg.force_mhz is Some {
        assert(said(h, p2[1]->action->Println_0));
    } else {
        let q = lemma_asked(site, h, p2, 1, 4);
        let name = q->Text_0;
        assert(told(h, Op::ModeName(cfg.auto_mode), Reply::Text(name)));
        let p3 = decision(site, p2[1]->then->Ask_0, q)->0;
        lemma_all_steps(site, h, p3, 3);
        assert(said(h, p3[0]->action->Println_0));
    }
    let a = lemma_asked(site, h, p2, 0, 4);
    assert(told(h, Op::GpuUnitInstalled, Reply::Flag(a->Flag_0)));
    let p4 = decision(site, p2[0]->then->Ask_0, a)->0;
    let b = lemma_asked(site, h, p4, 0, 3);
    assert(told(h, Op::CpuOcArmed, Reply::Flag(b->Flag_0)));
    let p5 = decision(site, p4[0]->then->Ask_0, b)->0;
    let c = lemma_asked(site, h, p5, 0, 2);
    assert(told(h, Op::RouteArmed, Reply::Flag(c->Flag_0)));
    let p6 = decision(site, p5[0]->then->Ask_0, c)->0;
    lemma_all_steps(site, h, p6, 1);
    assert(said(h, p6[0]->action->Println_0));
}

proof fn lemma_profile_done(site: Site, h: History, cmd: Cmd)
    requires
        cmd is Profile,
        ran(site, h, opening(site, cmd), 4),
    ensures
        other_done(site, cmd, h),
{
    let p0 = opening(site, cmd);
    lemma_all_steps(site, h, p0, 4);
    match cmd->Profile_action {
        ProfileCmd::List => {
            let r0 = lemma_asked(site, h, p0, 0, 4);
            let all = r0->Profiles_0;
            assert(told(h, Op::AllProfiles, Reply::Profiles(all)));
            let p1 = crate::profiles::list_plan(all@);
            lemma_all_steps(site, h, p1, 3);
            assert forall|i: int| 0 <= i < all@.len() implies said(
                h,
                left((#[trigger] all@[i]).name@, 14) + " "@ + all@[i].description@,
            ) by {
                assert(p1[i] == crate::plan::say(
                    left(all@[i].name@, 14) + " "@ + all@[i].description@,
                ));
            }
        },
        ProfileCmd::Show { name } => {
            let r0 = lemma_asked(site, h, p0, 0, 4);
            let p1 = decision(site, p0[0]->then->Ask_0, r0)->0;
            lemma_all_steps(site, h, p1, 3);
            match r0->Profile_0 {
                Some(p) => {
                    assert(found(h, name@, p));
                    assert(said(h, p1[0]->action->Println_0));
                    lemma_steps_told(h, p, p1);
                },
                None => {
                    assert(p1[0] is End);
                },
            }
        },
        ProfileCmd::Apply { name, write } => {
            let r0 = lemma_asked(site, h, p0, 0, 4);
            let p1 = decision(site, p0[0]->then->Ask_0, r0)->0;
            lemma_all_steps(site, h, p1, 3);
            match r0->Profile_0 {
                Some(p) => {
                    assert(found(h, name@, p));
                    assert(said(h, p1[0]->action->Println_0));
                    lemma_steps_told(h, p, p1);
                    let n = p.plan@.len() as int + 1;
                    if write {
                        assert(p1[n]->action == Action::<Seq<char>>::Host(Op::ValidateProfile));
                        assert(p1[n + 1]->action == Action::<Seq<char>>::Host(Op::OpenOc));
                        assert(p1[n + 2]->action == Action::<Seq<char>>::Host(Op::ApplyProfile));
                        assert(said(h, p1[p1.len() - 1]->action->Println_0));
                        if p.cu_40 is Some {
                            assert(managed(h, p1[n + 3]->action));
                            assert(said(h, p1[n + 4]->action->Println_0));
                        }
                    } else {
                        assert(said(h, p1[n]->action->Println_0));
                    }
                },
                None => {
                    assert(p1[0] is End);
                },
            }
        },
        ProfileCmd::Delete { name } => {
            assert(managed(h, p0[0]->action));
            assert(said(h, p0[1]->action->Println_0));
        },
    }
}

/// What a profile would do was told where the steps behind the first tell it.
proof fn lemma_steps_told(h: History, p: ProfileEntry, plan: crate::plan::Plan)
    requires
        plan.len() > p.plan@.len(),
        forall|i: int|
            0 <= i < p.plan@.len() ==> #[trigger] plan[i + 1] == crate::plan::say(
                "  "@ + p.plan@[i]@,
            ),
        forall|i: int|
            #![trigger plan[i]]
            0 <= i < plan.len() ==> plan[i] is Do && tried(h, plan[i]->action),
    ensures
        steps_told(h, p),
{
    assert forall|text: Seq<char>| #[trigger] tells_step(p, text) implies said(h, text) by {
        let i = choose|i: int| 0 <= i < p.plan@.len() && text == "  "@ + (#[trigger] p.plan@[i])@;
        assert(plan[i + 1] == crate::plan::say("  "@ + p.plan@[i]@));
    }
}

/// Law: a command on patches, profiles or kernel builds, other than a guided liberation, that ends
/// in success has done all that it is for, and told it.
pub proof fn law_other_done(site: Site, cmd: Cmd, replies: Seq<Reply>)
    requires
        cmd is Patches || cmd is Cumap || cmd is Build || cmd is Profile || cmd is Doctor,
        ended(course(site, cmd, replies).plan) == Some(Outcome::<Seq<char>>::Success),
    ensures
        other_done(site, cmd, course(site, cmd, replies).history),
{
    let h = course(site, cmd, replies).history;
    law_other_warrants(site, cmd, replies);
    lemma_completed(site, cmd, replies, 4);
    lemma_completed(site, cmd, replies, 6);
    match cmd {
        Cmd::Patches { .. } | Cmd::Cumap => {
            lemma_patches_done(site, h, cmd);
        },
        Cmd::Doctor { json, verify } => {
            lemma_doctor_done(site, h, json, verify);
        },
        Cmd::Profile { .. } => {
            lemma_profile_done(site, h, cmd);
        },
        _ => {
            let p0 = opening(site, cmd);
            lemma_all_steps(site, h, p0, 4);
            assert(managed(h, p0[0]->action));
        },
    }
}

/// All that is to be told of the series was.
pub open spec fn series_told(h: History, rep: PatchReport) -> bool {
    &&& forall|text: Seq<char>| #[trigger] tells_live(rep, text) ==> said(h, text)
    &&& forall|text: Seq<char>| #[trigger] tells_row("  "@, rep.rows@, text) ==> said(h, text)
}

/// What a liberation that built nothing has told: that the full series is live, or that nothing was
/// changed, and the series either way.
pub open spec fn inspected(h: History) -> bool {
    exists|rep: PatchReport| #[trigger]
        told(h, Op::PatchReport, Reply::Report(rep)) && series_told(h, rep) && if rep.fully_patched {
            said(h, "liberation series already live — nothing to do."@)
        } else {
            &&& said(h, "inspect-only — no kernel changes."@)
            &&& said(
                h,
                "\nre-run `arieltune apu liberate` (or `arieltune apu build`) when ready."@,
            )
        }
}

/// The series was told where a stretch of the steps tells it.
proof fn lemma_series_told(h: History, rep: PatchReport, plan: crate::plan::Plan, n: int)
    requires
        n >= 0,
        plan.len() >= n + 1 + rep.rows@.len(),
        forall|i: int|
            0 <= i <= rep.rows@.len() ==> #[trigger] plan[n + i] == crate::patches::series_plan(
                rep,
            )[i],
        forall|i: int|
            #![trigger plan[i]]
            0 <= i < plan.len() ==> plan[i] is Do && tried(h, plan[i]->action),
    ensures
        series_told(h, rep),
{
    let series = crate::patches::series_plan(rep);
    lemma_live_of(rep.rows@);
    assert forall|text: Seq<char>| #[trigger] tells_live(rep, text) implies said(h, text) by {
        assert(plan[n + 0] == series[0]);
        assert(series[0]->action == Action::Println(text));
    }
    assert forall|text: Seq<char>| #[trigger] tells_row("  "@, rep.rows@, text) implies said(
        h,
        text,
    ) by {
        let i = choose|i: int|
            0 <= i < rep.rows@.len() && text == "  "@ + (#[trigger] rep.rows@[i]).glyph@ + " "@
                + left(rep.rows@[i].id@, 5) + " "@ + rep.rows@[i].title@;
        assert(plan[n + (i + 1)] == series[i + 1]);
        assert(series[i + 1]->action == Action::Println(
            crate::patches::row_text("  "@, rep.rows@[i]),
        ));
    }
}

/// Law: a guided liberation that ends in success, and chose no tier with a kernel or found the full
/// series live, has told the state of the series and that nothing was changed.
pub proof fn law_inspection_done(site: Site, cmd: Cmd, replies: Seq<Reply>)
    requires
        cmd is Liberate,
        ended(course(site, cmd, replies).plan) == Some(Outcome::<Seq<char>>::Success),
        !may_stop(cmd, course(site, cmd, replies).history),
    ensures
        inspected(course(site, cmd, replies).history),
{
    let h = course(site, cmd, replies).history;
    law_other_warrants(site, cmd, replies);
    lemma_completed(site, cmd, replies, 5);
    let p0 = opening(site, cmd);
    let r0 = lemma_asked(site, h, p0, 0, 5);
    let p1 = decision(site, p0[0]->then->Ask_0, r0)->0;
    lemma_all_steps(site, h, p1, 4);
    if !r0->Flag_0 {
        assert(p1[0] is End);
    }
    let r1 = lemma_asked(site, h, p1, 0, 4);
    let rep = r1->Report_0;
    assert(told(h, Op::PatchReport, Reply::Report(rep)));
    let p2 = decision(site, p1[0]->then->Ask_0, r1)->0;
    lemma_all_steps(site, h, p2, 3);
    let rows = rep.rows@.len() as int;
    let last = p2.len() - 1;
    if rep.fully_patched {
        assert(said(h, p2[0]->action->Println_0));
        lemma_series_told(h, rep, p2, 1);
    } else {
        let n = last - rows - 1;
        assert(said(h, p2[last]->action->Println_0));
        assert(said(h, p2[n - 1]->action->Println_0));
        lemma_series_told(h, rep, p2, n);
    }
}

} // verus!
