//! What the commands on patches, profiles and kernel builds are entitled to do, to say and to end
//! with.
use vstd::prelude::*;

use crate::cli::opening;
use crate::commands::{Cmd, LiberateTier, ProfileCmd};
use crate::custody::{cut_off, lemma_custody, told, Custody};
use crate::decide::decision;
use crate::model::{
    fault, CuMap, Fault, Patch, PatchReport, PatchRow, PowerConfig, ProfileEntry, Reply, Site,
};
use crate::plan::{maybe, Action, BuildRequest, Op, Outcome, Point, Spot};
use crate::scan::trim;
use crate::session::ended;
use crate::text::{dec, left};
use crate::trace::{answered, course, History};

verus! {

/// Whether the host has given a series with this patch as the first one of this id.
pub open spec fn shows_patch(h: History, id: Seq<char>, p: Patch) -> bool {
    exists|series: Vec<Patch>, i: int|
        #![trigger told(h, Op::PatchSeries, Reply::Series(series)), series@[i]]
        told(h, Op::PatchSeries, Reply::Series(series)) && is_first(series@, id, i) && p
            == series@[i]
}

/// Whether a patch is the first one of this id in a series.
pub open spec fn is_first(series: Seq<Patch>, id: Seq<char>, i: int) -> bool {
    &&& 0 <= i < series.len()
    &&& series[i].id@ == id
    &&& forall|j: int| 0 <= j < i ==> (#[trigger] series[j]).id@ != id
}

/// Whether the host has given a series without a patch of this id.
pub open spec fn lacks_patch(h: History, id: Seq<char>) -> bool {
    exists|series: Vec<Patch>| #[trigger]
        told(h, Op::PatchSeries, Reply::Series(series)) && forall|j: int|
            0 <= j < series@.len() ==> (#[trigger] series@[j]).id@ != id
}

/// Whether a line is the heading of the patch that was asked for.
pub open spec fn tells_patch(h: History, id: Seq<char>, text: Seq<char>) -> bool {
    exists|p: Patch| #[trigger]
        shows_patch(h, id, p) && text == "# "@ + id + " — "@ + p.title@ + "\n# touches: "@
            + p.touches@ + "\n"@
}

/// Whether text is the body of the patch that was asked for.
pub open spec fn patch_text(h: History, id: Seq<char>, text: Seq<char>) -> bool {
    exists|p: Patch| #[trigger] shows_patch(h, id, p) && text == p.body@
}

/// Whether a line is the row of one patch of a report.
pub open spec fn tells_row(mark: Seq<char>, rows: Seq<PatchRow>, text: Seq<char>) -> bool {
    exists|i: int|
        0 <= i < rows.len() && text == mark + (#[trigger] rows[i]).glyph@ + " "@ + left(
            rows[i].id@,
            5,
        ) + " "@ + rows[i].title@
}

/// Whether a line tells something of a report.
pub open spec fn tells_report(rep: PatchReport, text: Seq<char>) -> bool {
    ||| text == "BC-250: "@ + (if rep.is_bc250 {
        "yes"@
    } else {
        "NO"@
    }) + "    series: "@ + dec(rep.count as nat) + " patches    "@ + (if rep.fully_patched {
        "FULLY PATCHED"@
    } else {
        "NOT fully patched"@
    })
    ||| rep.dbg_dir is None && text
        == "note: amdgpu debugfs not found (mount debugfs / run as root for full detection)"@
    ||| text == ""@
    ||| tells_row(""@, rep.rows@, text)
    ||| rep.missing > 0 && text == "\n"@ + dec(rep.missing as nat)
        + " patch(es) absent — run `arieltune apu build` to build the series into the system."@
}

/// Whether the host has given a report that a line tells of.
pub open spec fn report_line(h: History, text: Seq<char>) -> bool {
    exists|rep: PatchReport| #[trigger]
        told(h, Op::PatchReport, Reply::Report(rep)) && tells_report(rep, text)
}

/// The number of patches that are live, for sure or by inference.
pub open spec fn live_of(rows: Seq<PatchRow>) -> nat {
    rows.filter(|r: PatchRow| r.state is Present || r.state is Inferred).len()
}

/// Whether a line tells how much of the series is live.
pub open spec fn tells_live(rep: PatchReport, text: Seq<char>) -> bool {
    text == "  liberation series: "@ + dec(live_of(rep.rows@)) + "/"@ + dec(rep.count as nat)
        + " live"@
}

/// Whether a line tells how much of the series is live, or is the row of one patch.
pub open spec fn series_line(h: History, text: Seq<char>) -> bool {
    exists|rep: PatchReport| #[trigger]
        told(h, Op::PatchReport, Reply::Report(rep)) && (tells_live(rep, text) || tells_row(
            "  "@,
            rep.rows@,
            text,
        ))
}

/// Whether text is the harvest map that the host has given.
pub open spec fn harvest_text(h: History, text: Seq<char>) -> bool {
    exists|map: CuMap| #[trigger]
        told(h, Op::CuMap, Reply::Harvest(Some(map))) && text == map.rendered@
}

/// What the commands on patches are entitled to.
pub open spec fn patches_may(h: History, show: Option<Seq<char>>, action: Action<Seq<char>>) -> bool {
    match show {
        Some(id) => match action {
            Action::Host(op) => op == Op::PatchSeries,
            Action::Println(text) => tells_patch(h, id, text) || (lacks_patch(h, id) && text
                == "no such patch: "@ + id),
            Action::Print(text) => patch_text(h, id, text),
            _ => false,
        },
        None => match action {
            Action::Host(op) => op == Op::PatchReport,
            Action::Println(text) => report_line(h, text),
            _ => false,
        },
    }
}

/// Whether the host has given a report of this board with this much of the series live.
pub open spec fn reported_as(h: History, is_bc250: bool, fully_patched: bool) -> bool {
    exists|rep: PatchReport| #[trigger]
        told(h, Op::PatchReport, Reply::Report(rep)) && rep.is_bc250 == is_bc250
            && rep.fully_patched == fully_patched
}

/// Whether a line of the preflight tells something of a report.
pub open spec fn tells_preflight(rep: PatchReport, text: Seq<char>) -> bool {
    ||| text == "  BC-250 (PCI 1002:13fe): "@ + (if rep.is_bc250 {
        "yes"@
    } else {
        "no"@
    })
    ||| text == "  amdgpu debugfs: "@ + match rep.dbg_dir {
        Some(dir) => dir@,
        None => "not found"@,
    }
    ||| tells_live(rep, text)
    ||| !rep.fully_patched && text
        == "\n  -> not fully liberated. `arieltune apu patches` for detail, `arieltune apu build` to apply."@
}

/// Whether the host has given a report that a line of the preflight tells of.
pub open spec fn preflight_line(h: History, text: Seq<char>) -> bool {
    exists|rep: PatchReport| #[trigger]
        told(h, Op::PatchReport, Reply::Report(rep)) && tells_preflight(rep, text)
}

/// Whether a line tells how many CUs are active.
pub open spec fn tells_active(h: History, text: Seq<char>) -> bool {
    exists|map: CuMap| #[trigger]
        told(h, Op::CuMap, Reply::Harvest(Some(map))) && text == "  CUs active: "@ + dec(
            map.active as nat,
        ) + "/"@ + dec(map.possible as nat)
}

/// Whether the settings that were loaded hold this pin.
pub open spec fn tells_pin(h: History, text: Seq<char>) -> bool {
    exists|cfg: PowerConfig| #[trigger]
        told(h, Op::LoadPower, Reply::Power(cfg)) && (cfg.force_mhz matches Some(m) && text
            == "  GPU mode: manual pin "@ + dec(m as nat) + " MHz (wins at boot)"@)
}

/// Whether the settings that were loaded hold no pin and this auto mode.
pub open spec fn unpinned_mode(h: History, mode: crate::model::AutoMode) -> bool {
    exists|cfg: PowerConfig| #[trigger]
        told(h, Op::LoadPower, Reply::Power(cfg)) && cfg.force_mhz is None && cfg.auto_mode == mode
}

/// Whether a line tells the name of the auto mode.
pub open spec fn tells_auto(h: History, text: Seq<char>) -> bool {
    exists|mode: crate::model::AutoMode, name: String| #[trigger]
        told(h, Op::ModeName(mode), Reply::Text(name)) && unpinned_mode(h, mode) && text
            == "  GPU mode: auto ("@ + name@ + ")"@
}

/// Whether a line tells of the boot units.
pub open spec fn tells_units(h: History, text: Seq<char>) -> bool {
    exists|gpu: bool, cpu: bool, route: bool|
        #![trigger told(h, Op::GpuUnitInstalled, Reply::Flag(gpu)), told(h, Op::CpuOcArmed, Reply::Flag(cpu)), told(h, Op::RouteArmed, Reply::Flag(route))]
        told(h, Op::GpuUnitInstalled, Reply::Flag(gpu)) && told(
            h,
            Op::CpuOcArmed,
            Reply::Flag(cpu),
        ) && told(h, Op::RouteArmed, Reply::Flag(route)) && text == "  boot units: gpu "@ + (
        if gpu {
            "installed"@
        } else {
            "absent"@
        }) + "  cpu-oc "@ + (if cpu {
            "armed"@
        } else {
            "off"@
        }) + "  route "@ + (if route {
            "armed"@
        } else {
            "off"@
        })
}

/// Whether a line is the JSON object that the host has made.
pub open spec fn json_line(h: History, text: Seq<char>) -> bool {
    exists|t: String| #[trigger] told(h, Op::ReportJson, Reply::Text(t)) && text == t@
}

/// What a preflight is entitled to.
pub open spec fn doctor_may(h: History, json: bool, action: Action<Seq<char>>) -> bool {
    match action {
        Action::Host(op) => if json {
            op == Op::PatchReport || op == Op::ReportJson
        } else {
            match op {
                Op::PatchReport => true,
                Op::CuMap => true,
                Op::LoadPower => true,
                Op::GpuUnitInstalled => true,
                Op::CpuOcArmed => true,
                Op::RouteArmed => true,
                Op::ModeName(mode) => unpinned_mode(h, mode),
                _ => false,
            }
        },
        Action::Println(text) => if json {
            json_line(h, text)
        } else {
            ||| text == "arieltune apu doctor"@
            ||| preflight_line(h, text)
            ||| tells_active(h, text)
            ||| told(h, Op::CuMap, Reply::Harvest(None)) && text
                == "  CUs active: unknown (amdgpu not queryable)"@
            ||| tells_pin(h, text)
            ||| tells_auto(h, text)
            ||| tells_units(h, text)
        },
        _ => false,
    }
}

/// Whether a line is the row of one profile.
pub open spec fn tells_profile(h: History, text: Seq<char>) -> bool {
    exists|all: Vec<ProfileEntry>, i: int|
        #![trigger told(h, Op::AllProfiles, Reply::Profiles(all)), all@[i]]
        told(h, Op::AllProfiles, Reply::Profiles(all)) && 0 <= i < all@.len() && text == left(
            all@[i].name@,
            14,
        ) + " "@ + all@[i].description@
}

/// Whether the host has found this profile under a name.
pub open spec fn found(h: History, name: Seq<char>, p: ProfileEntry) -> bool {
    answered(h, Action::FindProfile(name), Reply::Profile(Some(p)))
}

/// Whether the host has found no profile under a name.
pub open spec fn not_found(h: History, name: Seq<char>) -> bool {
    answered(h, Action::FindProfile(name), Reply::Profile(None))
}

/// Whether a line is one of what a profile would do.
pub open spec fn tells_step(p: ProfileEntry, text: Seq<char>) -> bool {
    exists|i: int| 0 <= i < p.plan@.len() && text == "  "@ + (#[trigger] p.plan@[i])@
}

/// Whether a line shows a profile.
pub open spec fn tells_shown(h: History, name: Seq<char>, text: Seq<char>) -> bool {
    exists|p: ProfileEntry| #[trigger]
        found(h, name, p) && (text == p.name@ + " — "@ + p.description@ + "\n"@ || tells_step(
            p,
            text,
        ))
}

/// Whether a line tells of a profile that is applied, or would be.
pub open spec fn tells_applied(
    site: Site,
    h: History,
    name: Seq<char>,
    write: bool,
    text: Seq<char>,
) -> bool {
    exists|p: ProfileEntry| #[trigger]
        found(h, name, p) && {
            ||| text == "profile '"@ + p.name@ + "' — "@ + p.description@
            ||| tells_step(p, text)
            ||| !write && text == "\n(dry-run; pass --write to apply)"@
            ||| write && p.cu_40 == Some(true) && text == "armed 40-CU: "@ + site.modprobe_conf@
                + " (reboot to apply)"@
            ||| write && p.cu_40 == Some(false) && text == "disarmed 40-CU (reboot to apply)"@
            ||| write && text == "applied '"@ + p.name@ + "'"@
        }
}

/// Whether a profile of this name was found that arms, or disarms, the 40 CUs.
pub open spec fn profile_wants(h: History, name: Seq<char>, cu_40: bool) -> bool {
    exists|p: ProfileEntry| #[trigger] found(h, name, p) && p.cu_40 == Some(cu_40)
}

/// What a profile command is entitled to.
pub open spec fn profile_may(
    site: Site,
    h: History,
    cmd: ProfileCmd,
    action: Action<Seq<char>>,
) -> bool {
    match cmd {
        ProfileCmd::List => match action {
            Action::Host(op) => op == Op::AllProfiles,
            Action::Println(text) => tells_profile(h, text),
            _ => false,
        },
        ProfileCmd::Show { name } => match action {
            Action::FindProfile(n) => n == name@,
            Action::Println(text) => tells_shown(h, name@, text),
            _ => false,
        },
        ProfileCmd::Apply { name, write } => match action {
            Action::FindProfile(n) => n == name@,
            Action::Host(op) => write && match op {
                Op::ValidateProfile => true,
                Op::OpenOc => true,
                Op::ApplyProfile => true,
                Op::ArmCu => profile_wants(h, name@, true),
                Op::DisarmCu => profile_wants(h, name@, false),
                _ => false,
            },
            Action::Println(text) => tells_applied(site, h, name@, write, text),
            _ => false,
        },
        ProfileCmd::Delete { name } => match action {
            Action::DeleteProfile(n) => n == name@,
            Action::Println(text) => text == "deleted custom profile '"@ + name@ + "'"@,
            _ => false,
        },
    }
}

/// Whether an answer to the prompt names a tier.
pub open spec fn names_tier(line: Seq<char>, tier: LiberateTier) -> bool {
    let answer = trim(line);
    match tier {
        LiberateTier::Full => answer == "1"@ || answer == "full"@,
        LiberateTier::TuningOnly => answer == "2"@ || answer == "tuning-only"@ || answer
            == "tuning"@,
        LiberateTier::InspectOnly => answer == ""@ || answer == "3"@ || answer == "inspect-only"@
            || answer == "inspect"@,
    }
}

/// Whether a line that names a tier was read from a terminal.
pub open spec fn typed(h: History, tier: LiberateTier) -> bool {
    exists|line: String| #[trigger]
        told(h, Op::ReadLine, Reply::MaybeText(Some(line))) && names_tier(line@, tier) && told(
            h,
            Op::StdinTty,
            Reply::Flag(true),
        )
}

/// Whether a tier was chosen: on the command line, or else at the prompt.
pub open spec fn chose(h: History, given: Option<LiberateTier>, tier: LiberateTier) -> bool {
    match given {
        Some(t) => t == tier,
        None => typed(h, tier),
    }
}

/// Whether the board is a BC-250 and some of the series is not live.
pub open spec fn liberable(h: History) -> bool {
    told(h, Op::ApuPresent, Reply::Flag(true)) && incomplete(h)
}

/// Whether the host has reported that some of the series is not live.
pub open spec fn incomplete(h: History) -> bool {
    exists|rep: PatchReport| #[trigger]
        told(h, Op::PatchReport, Reply::Report(rep)) && !rep.fully_patched
}

/// Whether the host has reported that all of the series is live.
pub open spec fn complete(h: History) -> bool {
    exists|rep: PatchReport| #[trigger]
        told(h, Op::PatchReport, Reply::Report(rep)) && rep.fully_patched
}

/// The lines of the prompt.
pub open spec fn prompt_line(text: Seq<char>) -> bool {
    ||| text == "liberation tiers:"@
    ||| text == "  1) full          patched kernel + route all 40 CUs (bc250_cc_write_mode=3)"@
    ||| text == "  2) tuning-only   patched kernel, CU routing OFF (bc250_cc_write_mode=0):"@
    ||| text == "                   telemetry + GPU clock + CPU OC without the 40-CU route"@
    ||| text == "                   (ROCm OpenCL is unstable at 40 CU on gfx1013)"@
    ||| text == "  3) inspect-only  report patch state, change nothing  [default]"@
}

/// What a guided liberation is entitled to.
pub open spec fn liberate_may(
    h: History,
    asked: BuildRequest<Seq<char>>,
    tier: Option<LiberateTier>,
    action: Action<Seq<char>>,
) -> bool {
    match action {
        Action::Host(op) => match op {
            Op::ApuPresent => true,
            Op::PatchReport => told(h, Op::ApuPresent, Reply::Flag(true)),
            Op::StdinTty => tier is None && liberable(h),
            Op::FlushStdout => tier is None && told(h, Op::StdinTty, Reply::Flag(true)),
            Op::ReadLine => tier is None && told(h, Op::StdinTty, Reply::Flag(true)),
            _ => false,
        },
        Action::Build { request, cc_mode } => {
            &&& request == asked
            &&& liberable(h)
            &&& (cc_mode == Some(3u32) && chose(h, tier, LiberateTier::Full)) || (cc_mode == Some(
                0u32,
            ) && chose(h, tier, LiberateTier::TuningOnly))
        },
        Action::Print(text) => tier is None && told(h, Op::StdinTty, Reply::Flag(true)) && text
            == "choose [1/2/3, default 3]: "@,
        Action::Println(text) => {
            ||| complete(h) && text == "liberation series already live — nothing to do."@
            ||| series_line(h, text)
            ||| tier is None && liberable(h) && prompt_line(text)
            ||| tier is None && told(h, Op::StdinTty, Reply::Flag(false)) && text
                == "stdin is not a tty — taking the default (inspect-only)"@
            ||| tier is None && told(h, Op::ReadLine, Reply::MaybeText(None)) && text == ""@
            ||| liberable(h) && chose(h, tier, LiberateTier::TuningOnly) && text
                == "tuning-only: same patched kernel, bc250_cc_write_mode=0 (40-CU routing stays off; `arieltune apu cu enable` arms it later)"@
            ||| liberable(h) && text == "inspect-only — no kernel changes."@
            ||| liberable(h) && text
                == "\nre-run `arieltune apu liberate` (or `arieltune apu build`) when ready."@
        },
        _ => false,
    }
}

/// Whether a liberation is entitled to be refused for an answer that names no tier.
pub open spec fn unrecognized(h: History, outcome: Outcome<Seq<char>>) -> bool {
    exists|line: String| #[trigger]
        told(h, Op::ReadLine, Reply::MaybeText(Some(line))) && (forall|t: LiberateTier|
            !(#[trigger] names_tier(line@, t))) && outcome == Outcome::Failed(
            fault("unrecognized choice '"@ + trim(line@) + "' — nothing done"@),
        )
}

/// What a command other than those on GPU, CPU and CUs is entitled to hand to the host.
pub open spec fn other_may(site: Site, cmd: Cmd, h: History, action: Action<Seq<char>>) -> bool {
    match cmd {
        Cmd::Patches { show } => patches_may(h, maybe(show), action),
        Cmd::Cumap => match action {
            Action::Host(op) => op == Op::CuMap,
            Action::Print(text) => harvest_text(h, text),
            Action::Println(text) => told(h, Op::CuMap, Reply::Harvest(None)) && text
                == "could not query amdgpu CU map (need a working amdgpu + render node)"@,
            _ => false,
        },
        Cmd::Build { pkgbuild, target, run } => action matches Action::Build { request, cc_mode }
            && request.pkgbuild == pkgbuild && request.target == maybe(target) && request.run == run
            && cc_mode is None,
        Cmd::Liberate { pkgbuild, target, tier, run } => liberate_may(
            h,
            BuildRequest { pkgbuild, target: maybe(target), run },
            tier,
            action,
        ),
        Cmd::Profile { action: p } => profile_may(site, h, p, action),
        Cmd::Doctor { json, verify } => doctor_may(h, json, action),
        _ => false,
    }
}

/// Whether an error is that of an action that a command needs.
pub open spec fn other_needed_failed(h: History, cmd: Cmd, outcome: Outcome<Seq<char>>) -> bool {
    exists|action: Action<Seq<char>>, f: Fault<String>| #[trigger]
        answered(h, action, Reply::Failed(f)) && !(cmd is Profile && action == Action::<
            Seq<char>,
        >::Host(Op::OpenOc)) && outcome == Outcome::Failed(
            Fault { message: f.message@, chain: f.chain@ },
        )
}

/// The word for a flag.
pub open spec fn flag_word(b: bool) -> Seq<char> {
    if b {
        "true"@
    } else {
        "false"@
    }
}

/// Whether a preflight is entitled to fail for what was reported.
pub open spec fn gate_closes(h: History, outcome: Outcome<Seq<char>>) -> bool {
    exists|is_bc250: bool, fully_patched: bool| #[trigger]
        reported_as(h, is_bc250, fully_patched) && !(is_bc250 && fully_patched) && outcome
            == Outcome::Failed(
            fault(
                "doctor --verify failed: is_bc250="@ + flag_word(is_bc250) + " fully_patched="@
                    + flag_word(fully_patched),
            ),
        )
}

/// The ends, other than success, that such a command is entitled to.
pub open spec fn other_may_end(cmd: Cmd, h: History, outcome: Outcome<Seq<char>>) -> bool {
    other_needed_failed(h, cmd, outcome) || match cmd {
        Cmd::Profile { action: ProfileCmd::Show { name } } => not_found(h, name@) && outcome
            == Outcome::Failed(fault("no profile '"@ + name@ + "'"@)),
        Cmd::Profile { action: ProfileCmd::Apply { name, write } } => not_found(h, name@) && outcome
            == Outcome::Failed(fault("no profile '"@ + name@ + "'"@)),
        Cmd::Liberate { pkgbuild, target, tier, run } => {
            ||| told(h, Op::ApuPresent, Reply::Flag(false)) && outcome == Outcome::Failed(
                fault("not a BC-250 (PCI 1002:13fe not found) — nothing to liberate"@),
            )
            ||| tier is None && unrecognized(h, outcome)
        },
        Cmd::Doctor { json, verify } => verify && gate_closes(h, outcome),
        _ => false,
    }
}

/// Whether a command may stop in success before it runs out of steps: only a liberation of a kernel
/// that lacks some of the series, with a tier that has a kernel.
pub open spec fn may_stop(cmd: Cmd, h: History) -> bool {
    cmd matches Cmd::Liberate { pkgbuild, target, tier, run } && liberable(h) && (chose(
        h,
        tier,
        LiberateTier::Full,
    ) || chose(h, tier, LiberateTier::TuningOnly))
}

/// Whether a command is one of these.
pub open spec fn is_other(cmd: Cmd) -> bool {
    !(cmd is Gpu || cmd is Cpu || cmd is Cu)
}

/// The decisions whose values are vouched for.
spec fn other_ground(
    cmd: Cmd,
    h: History,
    action: Action<Seq<char>>,
    point: Point<Seq<char>>,
) -> bool {
    let host = |op: Op| action == Action::<Seq<char>>::Host(op);
    match point {
        Point::At(spot) => match spot {
            Spot::Patches => cmd matches Cmd::Patches { show } && show is None && host(
                Op::PatchReport,
            ),
            Spot::Cumap => cmd is Cumap && host(Op::CuMap),
            Spot::ListProfiles => cmd == (Cmd::Profile { action: ProfileCmd::List }) && host(
                Op::AllProfiles,
            ),
            Spot::Doctor { json, verify } => cmd == (Cmd::Doctor { json, verify }) && host(
                Op::PatchReport,
            ),
            Spot::DoctorJson { verify, is_bc250, fully_patched } => cmd == (Cmd::Doctor {
                json: true,
                verify,
            }) && host(Op::ReportJson) && reported_as(h, is_bc250, fully_patched),
            Spot::DoctorMap => plain_doctor(cmd) && host(Op::CuMap),
            Spot::DoctorPower => plain_doctor(cmd) && host(Op::LoadPower),
            Spot::DoctorGpuUnit => plain_doctor(cmd) && host(Op::GpuUnitInstalled),
            Spot::DoctorCpuUnit { gpu } => plain_doctor(cmd) && host(Op::CpuOcArmed) && told(
                h,
                Op::GpuUnitInstalled,
                Reply::Flag(gpu),
            ),
            Spot::DoctorRouteUnit { gpu, cpu } => plain_doctor(cmd) && host(Op::RouteArmed) && told(
                h,
                Op::GpuUnitInstalled,
                Reply::Flag(gpu),
            ) && told(h, Op::CpuOcArmed, Reply::Flag(cpu)),
            Spot::DoctorMode => plain_doctor(cmd) && (action matches Action::Host(Op::ModeName(m))
                && unpinned_mode(h, m)),
            _ => false,
        },
        Point::ShowPatch(id) => (cmd matches Cmd::Patches { show } && maybe(show) == Some(id))
            && host(Op::PatchSeries),
        Point::ShowProfile(n) => cmd matches Cmd::Profile { action: ProfileCmd::Show { name } } && n
            == name@ && action == Action::FindProfile(n),
        Point::ApplyProfile { name: n, write: w } => cmd matches Cmd::Profile {
            action: ProfileCmd::Apply { name, write },
        } && n == name@ && w == write && action == Action::FindProfile(n),
        Point::LiberateBoard { request: r, tier: t } => liberates(cmd, r, t) && host(
            Op::ApuPresent,
        ),
        Point::LiberateReport { request: r, tier: t } => liberates(cmd, r, t) && host(
            Op::PatchReport,
        ) && told(h, Op::ApuPresent, Reply::Flag(true)),
        Point::TierTty(r) => liberates(cmd, r, None) && host(Op::StdinTty) && liberable(h),
        Point::TierLine(r) => liberates(cmd, r, None) && host(Op::ReadLine) && liberable(h) && told(
            h,
            Op::StdinTty,
            Reply::Flag(true),
        ),
        _ => false,
    }
}

/// Whether a command is a preflight for people.
spec fn plain_doctor(cmd: Cmd) -> bool {
    cmd matches Cmd::Doctor { json, verify } && !json
}

/// Whether a command is a liberation with this request and tier.
spec fn liberates(cmd: Cmd, r: BuildRequest<Seq<char>>, t: Option<LiberateTier>) -> bool {
    cmd matches Cmd::Liberate { pkgbuild, target, tier, run } && t == tier && r == (BuildRequest {
        pkgbuild,
        target: maybe(target),
        run,
    })
}

spec fn other_custody(site: Site, cmd: Cmd, h: History) -> Custody {
    Custody {
        warrant: |action: Action<Seq<char>>| other_may(site, cmd, h, action),
        ground: |action: Action<Seq<char>>, point: Point<Seq<char>>|
            other_ground(cmd, h, action, point),
        close: |outcome: Outcome<Seq<char>>|
            other_may_end(cmd, h, outcome) || (outcome is Success && may_stop(cmd, h)),
    }
}

/// The error of an action that a command needs is an end that it is entitled to.
proof fn lemma_other_error(site: Site, cmd: Cmd, h: History, action: Action<Seq<char>>)
    requires
        !(cmd is Profile && action == Action::<Seq<char>>::Host(Op::OpenOc)),
    ensures
        other_custody(site, cmd, h).passes_error(h, action),
{
    let custody = other_custody(site, cmd, h);
    assert forall|f: Fault<String>| #[trigger] answered(h, action, Reply::Failed(f)) implies (
    custody.close)(Outcome::Failed(f@)) by {
        assert(other_needed_failed(h, cmd, Outcome::Failed(f@)));
    }
}

/// The number of live patches is that of the live rows.
pub proof fn lemma_live_of(rows: Seq<PatchRow>)
    ensures
        crate::patches::live_count(rows) == live_of(rows),
    decreases rows.len(),
{
    reveal(Seq::filter);
    if rows.len() > 0 {
        lemma_live_of(rows.drop_last());
        assert(crate::patches::is_live(rows.last().state) == (rows.last().state is Present
            || rows.last().state is Inferred));
    }
}

/// The patch that is found is the first one of its id.
pub proof fn lemma_first(series: Seq<Patch>, id: Seq<char>) -> (i: int)
    ensures
        match crate::patches::find_patch(series, id) {
            Some(p) => is_first(series, id, i) && p == series[i],
            None => forall|j: int| 0 <= j < series.len() ==> (#[trigger] series[j]).id@ != id,
        },
    decreases series.len(),
{
    if series.len() == 0 {
        0
    } else if series[0].id@ == id {
        0
    } else {
        let rest = series.drop_first();
        let i = lemma_first(rest, id);
        assert forall|j: int| 1 <= j < series.len() implies series[j] == #[trigger] rest[j - 1] by {}
        match crate::patches::find_patch(series, id) {
            Some(p) => {
                assert(series[i + 1] == rest[i]);
                assert forall|j: int| 0 <= j < i + 1 implies (#[trigger] series[j]).id@ != id by {
                    if j > 0 {
                        assert(series[j] == rest[j - 1]);
                    }
                }
            },
            None => {
                assert forall|j: int| 0 <= j < series.len() implies (#[trigger] series[j]).id@
                    != id by {
                    if j > 0 {
                        assert(series[j] == rest[j - 1]);
                    }
                }
            },
        }
        i + 1
    }
}

proof fn lemma_patches_decision(
    site: Site,
    cmd: Cmd,
    h: History,
    action: Action<Seq<char>>,
    point: Point<Seq<char>>,
    reply: Reply,
)
    requires
        point is ShowPatch || (point matches Point::At(spot) && (spot is Patches || spot is Cumap)),
        other_ground(cmd, h, action, point),
        answered(h, action, reply),
        decision(site, point, reply) is Some,
    ensures
        other_custody(site, cmd, h).covers(h, decision(site, point, reply)->0),
{
    let custody = other_custody(site, cmd, h);
    let decided = decision(site, point, reply)->0;
    match point {
        Point::ShowPatch(id) => {
            let series = reply->Series_0;
            assert(told(h, Op::PatchSeries, Reply::Series(series)));
            let i = lemma_first(series@, id);
            match crate::patches::find_patch(series@, id) {
                Some(p) => {
                    assert(series@[i] == p);
                    assert(shows_patch(h, id, p));
                    assert(tells_patch(h, id, decided[0]->action->Println_0));
                    assert(patch_text(h, id, p.body@));
                },
                None => {
                    assert(lacks_patch(h, id));
                },
            }
        },
        Point::At(Spot::Patches) => {
            let rep = reply->Report_0;
            assert(told(h, Op::PatchReport, Reply::Report(rep)));
            assert forall|text: Seq<char>| #[trigger] tells_report(rep, text) implies report_line(
                h,
                text,
            ) by {}
            let n: int = if rep.dbg_dir is None {
                3
            } else {
                2
            };
            assert forall|i: int| 0 <= i < decided.len() implies (#[trigger] decided[i])->action is
            Println && decided[i]->then is Proceed && decided[i] is Do && tells_report(
                rep,
                decided[i]->action->Println_0,
            ) by {
                if n <= i < n + rep.rows@.len() {
                    assert(decided[i]->action->Println_0 == crate::patches::row_text(
                        ""@,
                        rep.rows@[i - n],
                    ));
                    assert(tells_row(""@, rep.rows@, decided[i]->action->Println_0));
                }
            }
        },
        _ => {
            match reply->Harvest_0 {
                Some(map) => {
                    assert(told(h, Op::CuMap, Reply::Harvest(Some(map))));
                    assert(harvest_text(h, map.rendered@));
                },
                None => {
                    assert(told(h, Op::CuMap, Reply::Harvest(None)));
                },
            }
        },
    }
    assert forall|i: int| 0 <= i < decided.len() implies custody.covers_step(
        h,
        #[trigger] decided[i],
    ) || cut_off(decided, i) by {
        if decided[i] is Do {
            let a = decided[i]->action;
            if !(cmd is Profile && a == Action::<Seq<char>>::Host(Op::OpenOc)) {
                lemma_other_error(site, cmd, h, a);
            }
        }
    }
}

proof fn lemma_doctor_decision(
    site: Site,
    cmd: Cmd,
    h: History,
    action: Action<Seq<char>>,
    point: Point<Seq<char>>,
    reply: Reply,
)
    requires
        point matches Point::At(spot) && !(spot is Patches || spot is Cumap || spot is ListProfiles),
        other_ground(cmd, h, action, point),
        answered(h, action, reply),
        decision(site, point, reply) is Some,
    ensures
        other_custody(site, cmd, h).covers(h, decision(site, point, reply)->0),
{
    let custody = other_custody(site, cmd, h);
    let decided = decision(site, point, reply)->0;
    match point->At_0 {
        Spot::Doctor { json, verify } => {
            let rep = reply->Report_0;
            assert(told(h, Op::PatchReport, Reply::Report(rep)));
            assert(reported_as(h, rep.is_bc250, rep.fully_patched));
            lemma_live_of(rep.rows@);
            assert forall|text: Seq<char>| #[trigger] tells_preflight(rep, text) implies
                preflight_line(h, text) by {}
            if !json {
                assert(tells_preflight(rep, decided[1]->action->Println_0));
                assert(tells_preflight(rep, decided[2]->action->Println_0));
                assert(tells_preflight(rep, decided[3]->action->Println_0));
                if !rep.fully_patched {
                    assert(tells_preflight(rep, decided[6]->action->Println_0));
                }
                if verify && !(rep.is_bc250 && rep.fully_patched) {
                    assert(gate_closes(h, decided.last()->End_0));
                }
            }
        },
        Spot::DoctorJson { verify, is_bc250, fully_patched } => {
            let t = reply->Text_0;
            assert(told(h, Op::ReportJson, Reply::Text(t)));
            assert(json_line(h, t@));
            if verify && !(is_bc250 && fully_patched) {
                assert(gate_closes(h, decided[1]->End_0));
            }
        },
        Spot::DoctorMap => {
            match reply->Harvest_0 {
                Some(map) => {
                    assert(told(h, Op::CuMap, Reply::Harvest(Some(map))));
                    assert(tells_active(h, decided[0]->action->Println_0));
                },
                None => {
                    assert(told(h, Op::CuMap, Reply::Harvest(None)));
                },
            }
        },
        Spot::DoctorPower => {
            let cfg = reply->Power_0;
            assert(told(h, Op::LoadPower, Reply::Power(cfg)));
            if cfg.force_mhz is Some {
                assert(tells_pin(h, decided[1]->action->Println_0));
            } else {
                assert(unpinned_mode(h, cfg.auto_mode));
            }
        },
        Spot::DoctorGpuUnit => {
            assert(told(h, Op::GpuUnitInstalled, Reply::Flag(reply->Flag_0)));
        },
        Spot::DoctorCpuUnit { gpu } => {
            assert(told(h, Op::CpuOcArmed, Reply::Flag(reply->Flag_0)));
        },
        Spot::DoctorRouteUnit { gpu, cpu } => {
            assert(told(h, Op::RouteArmed, Reply::Flag(reply->Flag_0)));
            assert(tells_units(h, decided[0]->action->Println_0));
        },
        _ => {
            let mode = action->Host_0->ModeName_0;
            let name = reply->Text_0;
            assert(told(h, Op::ModeName(mode), Reply::Text(name)));
            assert(tells_auto(h, decided[0]->action->Println_0));
        },
    }
    assert forall|i: int| 0 <= i < decided.len() implies custody.covers_step(
        h,
        #[trigger] decided[i],
    ) || cut_off(decided, i) by {
        if decided[i] is Do {
            let a = decided[i]->action;
            if !(cmd is Profile && a == Action::<Seq<char>>::Host(Op::OpenOc)) {
                lemma_other_error(site, cmd, h, a);
            }
        }
    }
}

proof fn lemma_profile_decision(
    site: Site,
    cmd: Cmd,
    h: History,
    action: Action<Seq<char>>,
    point: Point<Seq<char>>,
    reply: Reply,
)
    requires
        point is ShowProfile || point is ApplyProfile || point == Point::<Seq<char>>::At(Spot::ListProfiles),
        other_ground(cmd, h, action, point),
        answered(h, action, reply),
        decision(site, point, reply) is Some,
    ensures
        other_custody(site, cmd, h).covers(h, decision(site, point, reply)->0),
{
    let custody = other_custody(site, cmd, h);
    let decided = decision(site, point, reply)->0;
    match point {
        Point::ShowProfile(name) => {
            match reply->Profile_0 {
                Some(p) => {
                    assert(found(h, name, p));
                    assert forall|i: int| 0 <= i < decided.len() implies (
                    #[trigger] decided[i])->action is Println && decided[i]->then is Proceed
                        && decided[i] is Do && tells_shown(
                        h,
                        name,
                        decided[i]->action->Println_0,
                    ) by {
                        if i > 0 {
                            assert(decided[i]->action->Println_0 == "  "@ + p.plan@[i - 1]@);
                            assert(tells_step(p, decided[i]->action->Println_0));
                        }
                    }
                },
                None => {
                    assert(not_found(h, name));
                },
            }
        },
        Point::ApplyProfile { name, write } => {
            match reply->Profile_0 {
                Some(p) => {
                    assert(found(h, name, p));
                    let n = p.plan@.len();
                    if let Some(b) = p.cu_40 {
                        assert(profile_wants(h, name, b));
                    }
                    assert forall|i: int| 0 <= i < decided.len() implies (
                    #[trigger] decided[i])->action is Println ==> tells_applied(
                        site,
                        h,
                        name,
                        write,
                        decided[i]->action->Println_0,
                    ) by {
                        if 1 <= i <= n {
                            assert(decided[i]->action->Println_0 == "  "@ + p.plan@[i - 1]@);
                            assert(tells_step(p, decided[i]->action->Println_0));
                        }
                    }
                },
                None => {
                    assert(not_found(h, name));
                },
            }
        },
        _ => {
            let all = reply->Profiles_0;
            assert(told(h, Op::AllProfiles, Reply::Profiles(all)));
            assert forall|i: int| 0 <= i < decided.len() implies (#[trigger] decided[i])->action is
            Println && decided[i]->then is Proceed && decided[i] is Do && tells_profile(
                h,
                decided[i]->action->Println_0,
            ) by {
                let p = all@[i];
                assert(decided[i]->action->Println_0 == left(p.name@, 14) + " "@ + p.description@);
            }
        },
    }
    assert forall|i: int| 0 <= i < decided.len() implies custody.covers_step(
        h,
        #[trigger] decided[i],
    ) || cut_off(decided, i) by {
        if decided[i] is Do {
            let a = decided[i]->action;
            if !(cmd is Profile && a == Action::<Seq<char>>::Host(Op::OpenOc)) {
                lemma_other_error(site, cmd, h, a);
            }
        }
    }
}

/// Listing the series is warranted.
proof fn lemma_series_covered(h: History, rep: PatchReport, i: int)
    requires
        told(h, Op::PatchReport, Reply::Report(rep)),
        0 <= i < crate::patches::series_plan(rep).len(),
    ensures
        ({
            let step = crate::patches::series_plan(rep)[i];
            step is Do && step->action is Println && step->then is Proceed && series_line(
                h,
                step->action->Println_0,
            )
        }),
{
    let step = crate::patches::series_plan(rep)[i];
    lemma_live_of(rep.rows@);
    if i == 0 {
        assert(tells_live(rep, step->action->Println_0));
    } else {
        assert(step->action->Println_0 == crate::patches::row_text("  "@, rep.rows@[i - 1]));
        assert(tells_row("  "@, rep.rows@, step->action->Println_0));
    }
}

/// The steps of a tier that was chosen are warranted.
proof fn lemma_tier_covered(
    site: Site,
    cmd: Cmd,
    h: History,
    request: BuildRequest<Seq<char>>,
    given: Option<LiberateTier>,
    tier: LiberateTier,
)
    requires
        liberates(cmd, request, given),
        liberable(h),
        tier is InspectOnly || chose(h, given, tier),
    ensures
        other_custody(site, cmd, h).covers(h, crate::liberate::tier_plan(request, tier)),
{
    let custody = other_custody(site, cmd, h);
    let steps = crate::liberate::tier_plan(request, tier);
    assert forall|i: int| 0 <= i < steps.len() implies custody.covers_step(h, #[trigger] steps[i])
        || cut_off(steps, i) by {
        if steps[i] is Do {
            lemma_other_error(site, cmd, h, steps[i]->action);
        }
    }
}

/// Two warranted plans in a row are warranted.
proof fn lemma_covers_both(
    custody: Custody,
    h: History,
    first: crate::plan::Plan,
    second: crate::plan::Plan,
)
    requires
        custody.covers(h, first),
        custody.covers(h, second),
    ensures
        custody.covers(h, first + second),
{
    let plan = first + second;
    assert forall|i: int| 0 <= i < plan.len() implies custody.covers_step(h, #[trigger] plan[i])
        || cut_off(plan, i) by {
        crate::custody::lemma_joined_cut(first, second, i);
        if i < first.len() {
            assert(plan[i] == first[i]);
        } else {
            assert(plan[i] == second[i - first.len()]);
        }
    }
}

proof fn lemma_liberate_report(
    site: Site,
    cmd: Cmd,
    h: History,
    request: BuildRequest<Seq<char>>,
    tier: Option<LiberateTier>,
    rep: PatchReport,
)
    requires
        liberates(cmd, request, tier),
        told(h, Op::ApuPresent, Reply::Flag(true)),
        told(h, Op::PatchReport, Reply::Report(rep)),
    ensures
        other_custody(site, cmd, h).covers(
            h,
            crate::liberate::liberate_report_plan(request, tier, rep),
        ),
{
    let custody = other_custody(site, cmd, h);
    let series = crate::patches::series_plan(rep);
    assert(custody.covers(h, series)) by {
        assert forall|i: int| 0 <= i < series.len() implies custody.covers_step(
            h,
            #[trigger] series[i],
        ) || cut_off(series, i) by {
            lemma_series_covered(h, rep, i);
        }
    }
    if rep.fully_patched {
        assert(complete(h));
        let first = seq![
            crate::plan::say("liberation series already live — nothing to do."@),
        ];
        assert(custody.covers(h, first));
        lemma_covers_both(custody, h, first, series);
    } else {
        assert(incomplete(h));
        assert(liberable(h));
        let a = seq![crate::plan::say("inspect-only — no kernel changes."@)];
        let b = seq![
            crate::plan::say(
                "\nre-run `arieltune apu liberate` (or `arieltune apu build`) when ready."@,
            ),
        ];
        assert(custody.covers(h, a));
        assert(custody.covers(h, b));
        lemma_covers_both(custody, h, a, series);
        lemma_covers_both(custody, h, a + series, b);
        let choice = match tier {
            Some(t) => crate::liberate::tier_plan(request, t),
            None => crate::liberate::prompt_plan(request),
        };
        assert(custody.covers(h, choice)) by {
            if let Some(t) = tier {
                lemma_tier_covered(site, cmd, h, request, tier, t);
            } else {
                lemma_other_error(site, cmd, h, Action::Host(Op::StdinTty));
            }
        }
        lemma_covers_both(custody, h, choice, crate::liberate::decline_plan(rep));
    }
}

proof fn lemma_liberate_decision(
    site: Site,
    cmd: Cmd,
    h: History,
    action: Action<Seq<char>>,
    point: Point<Seq<char>>,
    reply: Reply,
)
    requires
        point is LiberateBoard || point is LiberateReport || point is TierTty || point is TierLine,
        other_ground(cmd, h, action, point),
        answered(h, action, reply),
        decision(site, point, reply) is Some,
    ensures
        other_custody(site, cmd, h).covers(h, decision(site, point, reply)->0),
{
    let custody = other_custody(site, cmd, h);
    let decided = decision(site, point, reply)->0;
    match point {
        Point::LiberateBoard { request, tier } => {
            assert(told(h, Op::ApuPresent, Reply::Flag(reply->Flag_0)));
            lemma_other_error(site, cmd, h, Action::Host(Op::PatchReport));
            assert(custody.covers(h, decided));
        },
        Point::LiberateReport { request, tier } => {
            let rep = reply->Report_0;
            assert(told(h, Op::PatchReport, Reply::Report(rep)));
            lemma_liberate_report(site, cmd, h, request, tier, rep);
        },
        Point::TierTty(request) => {
            assert(told(h, Op::StdinTty, Reply::Flag(reply->Flag_0)));
            if reply->Flag_0 {
                lemma_other_error(site, cmd, h, Action::Host(Op::FlushStdout));
                lemma_other_error(site, cmd, h, Action::Host(Op::ReadLine));
                assert(custody.covers(h, decided));
            } else {
                let first = seq![
                    crate::plan::say("stdin is not a tty — taking the default (inspect-only)"@),
                ];
                assert(custody.covers(h, first));
                lemma_tier_covered(site, cmd, h, request, None, LiberateTier::InspectOnly);
                lemma_covers_both(
                    custody,
                    h,
                    first,
                    crate::liberate::tier_plan(request, LiberateTier::InspectOnly),
                );
            }
        },
        Point::TierLine(request) => {
            match reply->MaybeText_0 {
                None => {
                    assert(told(h, Op::ReadLine, Reply::MaybeText(None)));
                    let first = seq![crate::plan::say(""@)];
                    assert(custody.covers(h, first));
                    lemma_tier_covered(site, cmd, h, request, None, LiberateTier::InspectOnly);
                    lemma_covers_both(
                        custody,
                        h,
                        first,
                        crate::liberate::tier_plan(request, LiberateTier::InspectOnly),
                    );
                },
                Some(line) => {
                    assert(told(h, Op::ReadLine, Reply::MaybeText(Some(line))));
                    match crate::liberate::chosen_tier(trim(line@)) {
                        Some(tier) => {
                            assert(names_tier(line@, tier));
                            assert(typed(h, tier));
                            lemma_tier_covered(site, cmd, h, request, None, tier);
                        },
                        None => {
                            assert forall|t: LiberateTier| !(#[trigger] names_tier(line@, t)) by {}
                            assert(unrecognized(h, decided[0]->End_0));
                            assert(custody.covers(h, decided));
                        },
                    }
                },
            }
        },
        _ => {},
    }
}

/// Law: the commands on patches, profiles and kernel builds do, say and end with nothing but what
/// their command lines and the answers of the host entitle them to.
pub proof fn law_other_warrants(site: Site, cmd: Cmd, replies: Seq<Reply>)
    requires
        is_other(cmd),
    ensures
        ({
            let c = course(site, cmd, replies);
            &&& forall|action: Action<Seq<char>>| #[trigger]
                c.handed(action) ==> other_may(site, cmd, c.history, action)
            &&& ended(c.plan) == Some(Outcome::<Seq<char>>::Success) ==> c.plan.len() == 0
                || may_stop(cmd, c.history)
            &&& ended(c.plan) matches Some(outcome) ==> outcome is Success || other_may_end(
                cmd,
                c.history,
                outcome,
            )
        }),
{
    let h = course(site, cmd, replies).history;
    let custody = other_custody(site, cmd, h);
    let plan = opening(site, cmd);
    assert forall|i: int| 0 <= i < plan.len() implies custody.covers_step(h, #[trigger] plan[i])
        || cut_off(plan, i) by {
        if plan[i] is Do {
            lemma_other_error(site, cmd, h, plan[i]->action);
        }
    }
    assert forall|action: Action<Seq<char>>, point: Point<Seq<char>>, reply: Reply|
        #![trigger (custody.ground)(action, point), decision(site, point, reply)]
        (custody.ground)(action, point) && answered(h, action, reply) && decision(
            site,
            point,
            reply,
        ) is Some implies custody.covers(h, decision(site, point, reply)->0) by {
        match point {
            Point::ShowPatch(_) => {
                lemma_patches_decision(site, cmd, h, action, point, reply);
            },
            Point::ShowProfile(_) | Point::ApplyProfile { .. } => {
                lemma_profile_decision(site, cmd, h, action, point, reply);
            },
            Point::At(spot) => match spot {
                Spot::Patches | Spot::Cumap => {
                    lemma_patches_decision(site, cmd, h, action, point, reply);
                },
                Spot::ListProfiles => {
                    lemma_profile_decision(site, cmd, h, action, point, reply);
                },
                _ => {
                    lemma_doctor_decision(site, cmd, h, action, point, reply);
                },
            },
            _ => {
                lemma_liberate_decision(site, cmd, h, action, point, reply);
            },
        }
    }
    lemma_custody(site, cmd, replies, custody);
}

} // verus!
