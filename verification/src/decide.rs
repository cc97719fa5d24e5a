//! The decisions that the commands make on what the host answers.
use vstd::prelude::*;

use crate::cu::{yes_no, yn};
use crate::model::{GovernorConfig, Reply, Site};
use crate::plan::{ask, judge, maybe, must, say, Op, Plan, Point, Routed, Script, Spot};
use crate::text::{dec, Line};
use crate::{boot, cpu, cu, gpu, liberate, patches, profiles};

verus! {

/// The plan that a decision without text makes of a reply; none where the reply is of no use to
/// it.
pub open spec fn spot_plan(site: Site, spot: Spot, reply: Reply) -> Option<Plan> {
    match (spot, reply) {
        (Spot::Patches, Reply::Report(rep)) => Some(patches::report_plan(rep)),
        (Spot::Cumap, Reply::Harvest(map)) => Some(patches::map_plan(map)),
        (Spot::ListProfiles, Reply::Profiles(all)) => Some(profiles::list_plan(all@)),
        (Spot::CuArmed, Reply::Flag(b)) => Some(seq![say("  module param armed: "@ + yes_no(b))]),
        (Spot::CuPersisted, Reply::Flag(b)) => {
            Some(seq![say("  modprobe.d persisted: "@ + yes_no(b))])
        },
        (Spot::CuStatusMap, Reply::Harvest(map)) => Some(cu::status_map_plan(map)),
        (Spot::LiveRoute, Reply::Masks(m)) => {
            Some(seq![ask(Op::RouteShape(m), Spot::LiveShape(m))])
        },
        (Spot::LiveRoute, Reply::Failed(f)) => {
            Some(seq![say("  unavailable ("@ + f.message@ + ")"@)])
        },
        (Spot::LiveShape(m), Reply::Shape(shape)) => Some(cu::live_shape_plan(m, shape)),
        (Spot::RouteArmed, Reply::Flag(b)) => Some(cu::route_armed_plan(site, b)),
        (Spot::CuEnabled, Reply::Report(rep)) => Some(cu::enabled_plan(rep)),
        (Spot::RouteSaved(routed), Reply::Masks(_)) => Some(cu::route_saved_plan(routed, true)),
        (Spot::RouteSaved(routed), Reply::Failed(_)) => Some(cu::route_saved_plan(routed, false)),
        (Spot::RoutePersisted(routed), Reply::Done) => Some(cu::routed_plan(routed, true)),
        (Spot::RoutePersisted(routed), Reply::Failed(_)) => Some(cu::routed_plan(routed, false)),
        (Spot::RoutedShape(routed, persisted), Reply::Shape(shape)) => {
            Some(cu::routed_shape_plan(routed, persisted, shape))
        },
        (Spot::Toggled { array, wgp }, Reply::Masks(m)) => {
            Some(cu::persist_plan(Routed::Toggled { array, wgp, masks: m }))
        },
        (Spot::BenchCurrent, Reply::Masks(m)) => Some(cu::bench_plan(m)),
        (Spot::BenchShape(m), Reply::Shape(shape)) => Some(cu::bench_shape_plan(m, shape)),
        (Spot::BenchDone { masks, cu }, Reply::Bench(b)) => Some(cu::bench_done_plan(masks, cu, b)),
        (Spot::SavedRoute, Reply::Masks(m)) => {
            Some(seq![judge(Op::ArmRoute, Spot::SavedRouteArmed(m))])
        },
        (Spot::SavedRouteArmed(masks), Reply::Done) => {
            Some(seq![ask(Op::CuCount(masks), Spot::SavedRouteCount { masks, armed: true })])
        },
        (Spot::SavedRouteArmed(masks), Reply::Failed(_)) => {
            Some(seq![ask(Op::CuCount(masks), Spot::SavedRouteCount { masks, armed: false })])
        },
        (Spot::SavedRouteCount { masks, armed }, Reply::Number(n)) => {
            Some(cu::saved_route_plan(site, masks, armed, n))
        },
        (Spot::LoadedRoute, Reply::Masks(m)) => {
            Some(seq![ask(Op::CuCount(m), Spot::LoadedRouteCount(m))])
        },
        (Spot::LoadedRouteCount(m), Reply::Number(n)) => Some(cu::loaded_route_plan(m, n)),
        (Spot::KatReady { localize, probe }, Reply::Flag(b)) => {
            Some(cu::kat_ready_plan(localize, probe, b))
        },
        (Spot::KatFull { localize }, Reply::Kat(h)) => Some(cu::kat_full_plan(localize, h)),
        (Spot::KatSwept, Reply::Sweep(rows)) => Some(cu::kat_swept_plan(rows@)),
        (Spot::GpuStatus, Reply::Power(cfg)) => Some(gpu::status_plan(cfg)),
        (Spot::StatusMode, Reply::Text(mode)) => Some(seq![say("  auto mode:        "@ + mode@)]),
        (Spot::StatusClock, Reply::MaybeText(node)) => Some(gpu::status_clock_plan(maybe(node))),
        (Spot::StatusClock, Reply::Failed(_)) => Some(gpu::status_clock_plan(None)),
        (Spot::StatusSclk, Reply::MaybeNumber(n)) => Some(gpu::status_sclk_plan(n)),
        (Spot::Forced(mhz), Reply::Forced(out)) => Some(gpu::forced_plan(mhz, out)),
        (Spot::Unforced, Reply::Mode(mode)) => {
            Some(seq![ask(Op::ModeName(mode), Spot::UnforcedMode)])
        },
        (Spot::UnforcedMode, Reply::Text(mode)) => {
            Some(seq![say("GFX clock + voltage released — auto mode ("@ + mode@ + ") resumed"@)])
        },
        (Spot::PinConfig(mhz), Reply::Power(cfg)) => Some(gpu::pin_config_plan(site, mhz, cfg)),
        (Spot::PinRaise(target), Reply::Raise(raise)) => Some(gpu::pin_raise_plan(target, raise)),
        (Spot::PinVddc { target, raise }, Reply::Flag(set)) => {
            Some(gpu::pin_vddc_plan(target, raise, set))
        },
        (Spot::PinForced, Reply::Number(set)) => Some(gpu::pinned_plan(set)),
        (Spot::PinForced, Reply::Failed(f)) => Some(gpu::pin_failed_plan(f@)),
        (Spot::VidPower(mv), Reply::Power(cfg)) => {
            Some(seq![ask(Op::LoadGovernor, Spot::VidGovernor { mv, cfg })])
        },
        (Spot::VidGovernor { mv, cfg }, Reply::Governor(governor)) => {
            Some(seq![ask(Op::FloorClock { cfg, governor }, Spot::VidClock { mv, cfg })])
        },
        (Spot::VidClock { mv, cfg }, Reply::Number(clk)) => {
            Some(seq![ask(Op::MinVddc(clk), Spot::VidFloor { mv, cfg, clk })])
        },
        (Spot::VidFloor { mv, cfg, clk }, Reply::Number(floor)) => {
            Some(gpu::vid_floor_plan(mv, cfg, clk, floor))
        },
        (Spot::VidSet { mv, cfg }, Reply::Flag(set)) => Some(gpu::vid_set_plan(mv, cfg, set)),
        (Spot::VidInstalled(mv), Reply::Flag(b)) => Some(gpu::vid_installed_plan(mv, b)),
        (Spot::VidReset, Reply::Flag(b)) => Some(gpu::vid_reset_plan(b)),
        (Spot::VidCleared, Reply::Power(cfg)) => Some(gpu::vid_cleared_plan(cfg)),
        (Spot::Wake { override_pin }, Reply::Power(cfg)) => Some(gpu::wake_plan(cfg, override_pin)),
        (Spot::DeepSleep { override_pin }, Reply::Power(cfg)) => {
            Some(gpu::deep_sleep_plan(cfg, override_pin))
        },
        (Spot::TopPower(mhz), Reply::Power(cfg)) => {
            Some(seq![ask(Op::SetTop { cfg, mhz }, Spot::TopSet(mhz))])
        },
        (Spot::TopSet(mhz), Reply::Power(cfg)) => {
            Some(seq![ask(Op::LoadGovernor, Spot::TopGovernor { mhz, cfg })])
        },
        (Spot::TopGovernor { mhz, cfg }, Reply::Governor(g)) => {
            Some(gpu::top_governor_plan(mhz, cfg, g))
        },
        (Spot::TopClock { mhz, cfg, governor }, Reply::Number(top)) => {
            Some(gpu::top_clock_plan(mhz, cfg, governor, top))
        },
        (Spot::TopFloor { mhz, cfg, governor, clk }, Reply::Number(floor)) => {
            Some(gpu::top_floor_plan(mhz, cfg, governor, clk, floor))
        },
        (Spot::SetMid(mhz), Reply::Governor(g)) => {
            Some(gpu::save_tiers_plan(GovernorConfig { mid_mhz: mhz, ..g }, "mid"@, mhz))
        },
        (Spot::SetIdle(mhz), Reply::Governor(g)) => {
            Some(gpu::save_tiers_plan(GovernorConfig { idle_mhz: mhz, ..g }, "idle"@, mhz))
        },
        (Spot::DeepPower(mhz), Reply::Power(cfg)) => {
            Some(seq![ask(Op::SetDeep { cfg, mhz }, Spot::DeepSet(mhz))])
        },
        (Spot::DeepSet(mhz), Reply::Power(cfg)) => {
            Some(seq![ask(Op::LoadGovernor, Spot::DeepGovernor { mhz, cfg })])
        },
        (Spot::DeepGovernor { mhz, cfg }, Reply::Governor(g)) => {
            Some(gpu::deep_governor_plan(mhz, cfg, g))
        },
        (Spot::TempCap(c), Reply::Point(point)) => Some(gpu::temp_cap_plan(c, point)),
        (Spot::TempCapOc(c), Reply::Done) => Some(gpu::temp_cap_oc_plan(c, true)),
        (Spot::TempCapOc(c), Reply::Failed(_)) => Some(gpu::temp_cap_oc_plan(c, false)),
        (Spot::SwitchMode(mode), Reply::Power(cfg)) => Some(gpu::switch_plan(mode, cfg)),
        (Spot::StartGovernor, Reply::Governor(g)) => Some(seq![must(Op::RunGovernor(g))]),
        (Spot::Telemetry, Reply::MaybeText(node)) => Some(gpu::telemetry_plan(maybe(node))),
        (Spot::BootLoaded, Reply::Boot(plan, loaded)) => Some(boot::boot_loaded_plan(plan, loaded)),
        (Spot::BootDefault(plan), Reply::Power(cfg)) => {
            Some(seq![ask(Op::Uptime, Spot::BootUptime { plan, cfg })])
        },
        (Spot::BootUptime { plan, cfg }, Reply::Uptime(up)) => {
            Some(boot::boot_uptime_plan(site, plan, cfg, up))
        },
        (Spot::BootVidGovernor { mv, cfg }, Reply::Governor(governor)) => {
            Some(seq![ask(Op::FloorClock { cfg, governor }, Spot::BootVidClock(mv))])
        },
        (Spot::BootVidClock(mv), Reply::Number(clk)) => {
            Some(seq![ask(Op::SetVddc { clk, mv }, Spot::BootVidSet { mv, clk })])
        },
        (Spot::BootVidSet { mv, clk }, Reply::Flag(set)) => {
            Some(boot::boot_vid_set_plan(mv, clk, set))
        },
        (Spot::BootLegacy { plan, cfg }, Reply::Flag(legacy)) => {
            Some(boot::boot_legacy_plan(plan, cfg, legacy))
        },
        (Spot::BootPinned, Reply::Number(set)) => Some(
            seq![
                say(
                    "manual mode: GFX clock pinned at "@ + dec(set as nat)
                        + " MHz (power.json force_mhz)"@,
                ),
            ],
        ),
        (Spot::FailSafePinned, Reply::Number(set)) => {
            Some(seq![say("fail-safe: GFX clock pinned at "@ + dec(set as nat) + " MHz"@)])
        },
        (Spot::CpuStatus, Reply::Live(live)) => Some(cpu::status_plan(live)),
        (Spot::CpuGpuVid, Reply::MaybeNumber(mv)) => Some(cpu::gpu_vid_plan(mv)),
        (Spot::CpuBoot, Reply::Flag(b)) => Some(cpu::boot_plan(site, b)),
        (Spot::CpuTune { boost, scale, cpu_temp, gpu_temp }, Reply::Point(prev)) => {
            Some(cpu::tune_plan(prev, cpu::overridden(prev, boost, scale, cpu_temp, gpu_temp)))
        },
        (Spot::CpuTuned(point), Reply::Number(vid)) => Some(cpu::tuned_plan(site, point, vid)),
        (Spot::CpuArmed, Reply::Done) => Some(cpu::armed_plan()),
        (Spot::CpuArmed, Reply::Failed(f)) => Some(cpu::unarmed_plan(f@)),
        (Spot::UndervoltScale(boost), Reply::Signed(scale)) => {
            Some(seq![ask(Op::DefaultCpu, Spot::UndervoltBase { boost, scale })])
        },
        (Spot::UndervoltBase { boost, scale }, Reply::Point(base)) => {
            Some(cpu::undervolt_plan(boost, scale, base))
        },
        (Spot::UndervoltVid { boost, scale }, Reply::Number(vid)) => {
            Some(cpu::undervolted_plan(boost, scale, vid))
        },
        (Spot::CpuSaved, Reply::Flag(b)) => Some(cpu::saved_plan(b)),
        (Spot::CpuReapply, Reply::Point(point)) => Some(cpu::reapply_plan(point)),
        (Spot::CpuReapplied(point), Reply::Number(vid)) => Some(cpu::reapplied_plan(point, vid)),
        (Spot::Doctor { json, verify }, Reply::Report(rep)) => {
            Some(patches::doctor_report_plan(json, verify, rep))
        },
        (Spot::DoctorJson { verify, is_bc250, fully_patched }, Reply::Text(json)) => {
            Some(patches::doctor_json_plan(verify, is_bc250, fully_patched, json@))
        },
        (Spot::DoctorMap, Reply::Harvest(map)) => Some(patches::doctor_map_plan(map)),
        (Spot::DoctorPower, Reply::Power(cfg)) => Some(patches::doctor_power_plan(cfg)),
        (Spot::DoctorGpuUnit, Reply::Flag(gpu)) => {
            Some(seq![ask(Op::CpuOcArmed, Spot::DoctorCpuUnit { gpu })])
        },
        (Spot::DoctorCpuUnit { gpu }, Reply::Flag(cpu)) => {
            Some(seq![ask(Op::RouteArmed, Spot::DoctorRouteUnit { gpu, cpu })])
        },
        (Spot::DoctorRouteUnit { gpu, cpu }, Reply::Flag(route)) => {
            Some(patches::doctor_units_plan(gpu, cpu, route))
        },
        (Spot::DoctorMode, Reply::Text(mode)) => {
            Some(seq![say("  GPU mode: auto ("@ + mode@ + ")"@)])
        },
        _ => None,
    }
}

/// The plan that a decision makes of a reply; none where the reply is of no use to it.
pub open spec fn decision(site: Site, point: Point<Seq<char>>, reply: Reply) -> Option<Plan> {
    match (point, reply) {
        (Point::At(spot), _) => spot_plan(site, spot, reply),
        (Point::ShowPatch(id), Reply::Series(series)) => Some(patches::show_plan(series@, id)),
        (Point::ShowProfile(name), Reply::Profile(found)) => Some(profiles::show_plan(name, found)),
        (Point::ApplyProfile { name, write }, Reply::Profile(found)) => {
            Some(profiles::apply_plan(site, name, write, found))
        },
        (Point::BenchPerCu { masks, cu, gflops, verdict }, Reply::Text(per)) => {
            Some(cu::bench_line(masks, cu, gflops, per@, verdict))
        },
        (Point::Level { level, override_pin }, Reply::Power(cfg)) => {
            Some(gpu::level_plan(cfg, level, override_pin))
        },
        (Point::Detected(save), Reply::Detected(points, best)) => {
            Some(cpu::detected_plan(points@, best, save))
        },
        (Point::DetectedVid { point, save }, Reply::Number(vid)) => {
            Some(cpu::detected_vid_plan(point, save, vid))
        },
        (Point::ProfileSaved(name), Reply::Text(path)) => {
            Some(cpu::profile_saved_plan(name, path@))
        },
        (Point::LiberateBoard { request, tier }, Reply::Flag(present)) => {
            Some(liberate::board_plan(request, tier, present))
        },
        (Point::LiberateReport { request, tier }, Reply::Report(rep)) => {
            Some(liberate::liberate_report_plan(request, tier, rep))
        },
        (Point::TierTty(request), Reply::Flag(tty)) => Some(liberate::tty_plan(request, tty)),
        (Point::TierLine(request), Reply::MaybeText(line)) => {
            Some(liberate::line_plan(request, maybe(line)))
        },
        _ => None,
    }
}

/// Makes a decision without text on a reply.
pub fn decide_spot(site: &Site, spot: Spot, reply: &Reply) -> (s: Option<Script>)
    ensures
        match s {
            Some(script) => spot_plan(*site, spot, *reply) == Some(script@),
            None => spot_plan(*site, spot, *reply) is None,
        },
{
    match (spot, reply) {
        (Spot::Patches, Reply::Report(rep)) => Some(patches::report(rep)),
        (Spot::Cumap, Reply::Harvest(map)) => Some(patches::cumap(map)),
        (Spot::ListProfiles, Reply::Profiles(all)) => Some(profiles::list(all)),
        (Spot::CuArmed, Reply::Flag(b)) => {
            Some(Script::new().say(Line::new("  module param armed: ").text(yn(*b))))
        },
        (Spot::CuPersisted, Reply::Flag(b)) => {
            Some(Script::new().say(Line::new("  modprobe.d persisted: ").text(yn(*b))))
        },
        (Spot::CuStatusMap, Reply::Harvest(map)) => Some(cu::status_map(map)),
        (Spot::LiveRoute, Reply::Masks(m)) => {
            Some(Script::new().ask(Op::RouteShape(*m), Spot::LiveShape(*m)))
        },
        (Spot::LiveRoute, Reply::Failed(f)) => Some(
            Script::new().say(Line::new("  unavailable (").text(f.message.as_str()).text(")")),
        ),
        (Spot::LiveShape(m), Reply::Shape(shape)) => Some(cu::live_shape(&m, shape)),
        (Spot::RouteArmed, Reply::Flag(b)) => Some(cu::route_armed(site, *b)),
        (Spot::CuEnabled, Reply::Report(rep)) => Some(cu::enabled(rep)),
        (Spot::RouteSaved(routed), Reply::Masks(_)) => Some(cu::route_saved(routed, true)),
        (Spot::RouteSaved(routed), Reply::Failed(_)) => Some(cu::route_saved(routed, false)),
        (Spot::RoutePersisted(routed), Reply::Done) => Some(cu::route_done(routed, true)),
        (Spot::RoutePersisted(routed), Reply::Failed(_)) => Some(cu::route_done(routed, false)),
        (Spot::RoutedShape(routed, persisted), Reply::Shape(shape)) => {
            Some(cu::routed_shape(routed, persisted, shape))
        },
        (Spot::Toggled { array, wgp }, Reply::Masks(m)) => {
            Some(cu::persist_route(Routed::Toggled { array, wgp, masks: *m }))
        },
        (Spot::BenchCurrent, Reply::Masks(m)) => Some(cu::bench(m)),
        (Spot::BenchShape(m), Reply::Shape(shape)) => Some(cu::bench_shape(&m, shape)),
        (Spot::BenchDone { masks, cu }, Reply::Bench(b)) => Some(cu::bench_done(&masks, cu, b)),
        (Spot::SavedRoute, Reply::Masks(m)) => {
            Some(Script::new().judge(Op::ArmRoute, Spot::SavedRouteArmed(*m)))
        },
        (Spot::SavedRouteArmed(masks), Reply::Done) => Some(
            Script::new().ask(Op::CuCount(masks), Spot::SavedRouteCount { masks, armed: true }),
        ),
        (Spot::SavedRouteArmed(masks), Reply::Failed(_)) => Some(
            Script::new().ask(Op::CuCount(masks), Spot::SavedRouteCount { masks, armed: false }),
        ),
        (Spot::SavedRouteCount { masks, armed }, Reply::Number(n)) => {
            Some(cu::saved_route(site, &masks, armed, *n))
        },
        (Spot::LoadedRoute, Reply::Masks(m)) => {
            Some(Script::new().ask(Op::CuCount(*m), Spot::LoadedRouteCount(*m)))
        },
        (Spot::LoadedRouteCount(m), Reply::Number(n)) => Some(cu::loaded_route(&m, *n)),
        (Spot::KatReady { localize, probe }, Reply::Flag(b)) => {
            Some(cu::kat_ready(localize, probe, *b))
        },
        (Spot::KatFull { localize }, Reply::Kat(h)) => Some(cu::kat_full(localize, h)),
        (Spot::KatSwept, Reply::Sweep(rows)) => Some(cu::kat_swept(rows)),
        (Spot::GpuStatus, Reply::Power(cfg)) => Some(gpu::status(cfg)),
        (Spot::StatusMode, Reply::Text(mode)) => {
            Some(Script::new().say(Line::new("  auto mode:        ").text(mode.as_str())))
        },
        (Spot::StatusClock, Reply::MaybeText(node)) => Some(gpu::status_clock(node)),
        (Spot::StatusClock, Reply::Failed(_)) => Some(gpu::status_clock(&None)),
        (Spot::StatusSclk, Reply::MaybeNumber(n)) => Some(gpu::status_sclk(*n)),
        (Spot::Forced(mhz), Reply::Forced(out)) => Some(gpu::forced(mhz, out)),
        (Spot::Unforced, Reply::Mode(mode)) => {
            Some(Script::new().ask(Op::ModeName(*mode), Spot::UnforcedMode))
        },
        (Spot::UnforcedMode, Reply::Text(mode)) => Some(
            Script::new().say(
                Line::new("GFX clock + voltage released — auto mode (")
                    .text(mode.as_str()).text(") resumed"),
            ),
        ),
        (Spot::PinConfig(mhz), Reply::Power(cfg)) => Some(gpu::pin_config(site, mhz, cfg)),
        (Spot::PinRaise(target), Reply::Raise(raise)) => Some(gpu::pin_raise(target, raise)),
        (Spot::PinVddc { target, raise }, Reply::Flag(set)) => {
            Some(gpu::pin_vddc(target, &raise, *set))
        },
        (Spot::PinForced, Reply::Number(set)) => Some(gpu::pinned(*set)),
        (Spot::PinForced, Reply::Failed(f)) => Some(gpu::pin_refused(f)),
        (Spot::VidPower(mv), Reply::Power(cfg)) => {
            Some(Script::new().ask(Op::LoadGovernor, Spot::VidGovernor { mv, cfg: *cfg }))
        },
        (Spot::VidGovernor { mv, cfg }, Reply::Governor(governor)) => Some(
            Script::new().ask(
                Op::FloorClock { cfg, governor: *governor },
                Spot::VidClock { mv, cfg },
            ),
        ),
        (Spot::VidClock { mv, cfg }, Reply::Number(clk)) => {
            Some(Script::new().ask(Op::MinVddc(*clk), Spot::VidFloor { mv, cfg, clk: *clk }))
        },
        (Spot::VidFloor { mv, cfg, clk }, Reply::Number(floor)) => {
            Some(gpu::vid_floor(mv, &cfg, clk, *floor))
        },
        (Spot::VidSet { mv, cfg }, Reply::Flag(set)) => Some(gpu::vid_set(mv, &cfg, *set)),
        (Spot::VidInstalled(mv), Reply::Flag(b)) => Some(gpu::vid_installed(mv, *b)),
        (Spot::VidReset, Reply::Flag(b)) => Some(gpu::vid_reset(*b)),
        (Spot::VidCleared, Reply::Power(cfg)) => Some(gpu::vid_cleared(cfg)),
        (Spot::Wake { override_pin }, Reply::Power(cfg)) => Some(gpu::wake(cfg, override_pin)),
        (Spot::DeepSleep { override_pin }, Reply::Power(cfg)) => {
            Some(gpu::deep_sleep(cfg, override_pin))
        },
        (Spot::TopPower(mhz), Reply::Power(cfg)) => {
            Some(Script::new().ask(Op::SetTop { cfg: *cfg, mhz }, Spot::TopSet(mhz)))
        },
        (Spot::TopSet(mhz), Reply::Power(cfg)) => {
            Some(Script::new().ask(Op::LoadGovernor, Spot::TopGovernor { mhz, cfg: *cfg }))
        },
        (Spot::TopGovernor { mhz, cfg }, Reply::Governor(g)) => {
            Some(gpu::top_governor(mhz, &cfg, g))
        },
        (Spot::TopClock { mhz, cfg, governor }, Reply::Number(top)) => {
            Some(gpu::top_clock(mhz, &cfg, &governor, *top))
        },
        (Spot::TopFloor { mhz, cfg, governor, clk }, Reply::Number(floor)) => {
            Some(gpu::top_floor(mhz, &cfg, &governor, clk, *floor))
        },
        (Spot::SetMid(mhz), Reply::Governor(g)) => Some(gpu::set_mid(mhz, g)),
        (Spot::SetIdle(mhz), Reply::Governor(g)) => Some(gpu::set_idle(mhz, g)),
        (Spot::DeepPower(mhz), Reply::Power(cfg)) => {
            Some(Script::new().ask(Op::SetDeep { cfg: *cfg, mhz }, Spot::DeepSet(mhz)))
        },
        (Spot::DeepSet(mhz), Reply::Power(cfg)) => {
            Some(Script::new().ask(Op::LoadGovernor, Spot::DeepGovernor { mhz, cfg: *cfg }))
        },
        (Spot::DeepGovernor { mhz, cfg }, Reply::Governor(g)) => {
            Some(gpu::deep_governor(mhz, &cfg, g))
        },
        (Spot::TempCap(c), Reply::Point(point)) => Some(gpu::temp_cap(c, point)),
        (Spot::TempCapOc(c), Reply::Done) => Some(gpu::temp_cap_oc(c, true)),
        (Spot::TempCapOc(c), Reply::Failed(_)) => Some(gpu::temp_cap_oc(c, false)),
        (Spot::SwitchMode(mode), Reply::Power(cfg)) => Some(gpu::switch_mode(mode, cfg)),
        (Spot::StartGovernor, Reply::Governor(g)) => Some(Script::new().must(Op::RunGovernor(*g))),
        (Spot::Telemetry, Reply::MaybeText(node)) => Some(gpu::telemetry(node)),
        (Spot::BootLoaded, Reply::Boot(plan, loaded)) => Some(boot::boot_loaded(plan, loaded)),
        (Spot::BootDefault(plan), Reply::Power(cfg)) => {
            Some(Script::new().ask(Op::Uptime, Spot::BootUptime { plan, cfg: *cfg }))
        },
        (Spot::BootUptime { plan, cfg }, Reply::Uptime(up)) => {
            Some(boot::boot_uptime(site, &plan, &cfg, up))
        },
        (Spot::BootVidGovernor { mv, cfg }, Reply::Governor(governor)) => Some(
            Script::new().ask(Op::FloorClock { cfg, governor: *governor }, Spot::BootVidClock(mv)),
        ),
        (Spot::BootVidClock(mv), Reply::Number(clk)) => Some(
            Script::new().ask(Op::SetVddc { clk: *clk, mv }, Spot::BootVidSet { mv, clk: *clk }),
        ),
        (Spot::BootVidSet { mv, clk }, Reply::Flag(set)) => Some(boot::boot_vid_set(mv, clk, *set)),
        (Spot::BootLegacy { plan, cfg }, Reply::Flag(legacy)) => {
            Some(boot::boot_legacy(&plan, &cfg, *legacy))
        },
        (Spot::BootPinned, Reply::Number(set)) => Some(
            Script::new().say(
                Line::new("manual mode: GFX clock pinned at ")
                    .num(*set).text(" MHz (power.json force_mhz)"),
            ),
        ),
        (Spot::FailSafePinned, Reply::Number(set)) => Some(
            Script::new().say(Line::new("fail-safe: GFX clock pinned at ").num(*set).text(" MHz")),
        ),
        (Spot::CpuStatus, Reply::Live(live)) => Some(cpu::status(live)),
        (Spot::CpuGpuVid, Reply::MaybeNumber(mv)) => Some(cpu::gpu_vid(*mv)),
        (Spot::CpuBoot, Reply::Flag(b)) => Some(cpu::boot(site, *b)),
        (Spot::CpuTune { boost, scale, cpu_temp, gpu_temp }, Reply::Point(prev)) => {
            Some(cpu::tune(prev, boost, scale, cpu_temp, gpu_temp))
        },
        (Spot::CpuTuned(point), Reply::Number(vid)) => Some(cpu::tuned(site, &point, *vid)),
        (Spot::CpuArmed, Reply::Done) => Some(cpu::armed()),
        (Spot::CpuArmed, Reply::Failed(f)) => Some(cpu::unarmed(f)),
        (Spot::UndervoltScale(boost), Reply::Signed(scale)) => {
            Some(Script::new().ask(Op::DefaultCpu, Spot::UndervoltBase { boost, scale: *scale }))
        },
        (Spot::UndervoltBase { boost, scale }, Reply::Point(base)) => {
            Some(cpu::undervolt(boost, scale, base))
        },
        (Spot::UndervoltVid { boost, scale }, Reply::Number(vid)) => {
            Some(cpu::undervolted(boost, scale, *vid))
        },
        (Spot::CpuSaved, Reply::Flag(b)) => Some(cpu::apply_saved(*b)),
        (Spot::CpuReapply, Reply::Point(point)) => Some(cpu::reapply(point)),
        (Spot::CpuReapplied(point), Reply::Number(vid)) => Some(cpu::reapplied(&point, *vid)),
        (Spot::Doctor { json, verify }, Reply::Report(rep)) => {
            Some(patches::doctor_report(json, verify, rep))
        },
        (Spot::DoctorJson { verify, is_bc250, fully_patched }, Reply::Text(json)) => {
            Some(patches::doctor_json(verify, is_bc250, fully_patched, json))
        },
        (Spot::DoctorMap, Reply::Harvest(map)) => Some(patches::doctor_map(map)),
        (Spot::DoctorPower, Reply::Power(cfg)) => Some(patches::doctor_power(cfg)),
        (Spot::DoctorGpuUnit, Reply::Flag(gpu)) => {
            Some(Script::new().ask(Op::CpuOcArmed, Spot::DoctorCpuUnit { gpu: *gpu }))
        },
        (Spot::DoctorCpuUnit { gpu }, Reply::Flag(cpu)) => {
            Some(Script::new().ask(Op::RouteArmed, Spot::DoctorRouteUnit { gpu, cpu: *cpu }))
        },
        (Spot::DoctorRouteUnit { gpu, cpu }, Reply::Flag(route)) => {
            Some(patches::doctor_units(gpu, cpu, *route))
        },
        (Spot::DoctorMode, Reply::Text(mode)) => {
            Some(Script::new().say(Line::new("  GPU mode: auto (").text(mode.as_str()).text(")")))
        },
        _ => None,
    }
}

/// Makes a decision on a reply; hands the decision back where the reply is of no use to it.
pub fn decide(site: &Site, point: Point<String>, reply: &Reply) -> (r: Result<
    Script,
    Point<String>,
>)
    ensures
        match r {
            Ok(script) => decision(*site, point@, *reply) == Some(script@),
            Err(back) => decision(*site, point@, *reply) is None && back == point,
        },
{
    match (point, reply) {
        (Point::At(spot), _) => match decide_spot(site, spot, reply) {
            Some(script) => Ok(script),
            None => Err(Point::At(spot)),
        },
        (Point::ShowPatch(id), Reply::Series(series)) => Ok(patches::show(series, &id)),
        (Point::ShowProfile(name), Reply::Profile(found)) => Ok(profiles::show(&name, found)),
        (Point::ApplyProfile { name, write }, Reply::Profile(found)) => {
            Ok(profiles::apply(site, &name, write, found))
        },
        (Point::BenchPerCu { masks, cu, gflops, verdict }, Reply::Text(per)) => {
            Ok(cu::bench_report(&masks, cu, &gflops, per.as_str(), &verdict))
        },
        (Point::Level { level, override_pin }, Reply::Power(cfg)) => {
            Ok(gpu::set_level(cfg, &level, override_pin))
        },
        (Point::Detected(save), Reply::Detected(points, best)) => {
            Ok(cpu::detected(points, best, save))
        },
        (Point::DetectedVid { point, save }, Reply::Number(vid)) => {
            Ok(cpu::detected_vid(&point, save, *vid))
        },
        (Point::ProfileSaved(name), Reply::Text(path)) => Ok(cpu::profile_saved(&name, path)),
        (Point::LiberateBoard { request, tier }, Reply::Flag(present)) => {
            Ok(liberate::board(request, tier, *present))
        },
        (Point::LiberateReport { request, tier }, Reply::Report(rep)) => {
            Ok(liberate::liberate_report(request, tier, rep))
        },
        (Point::TierTty(request), Reply::Flag(tty)) => Ok(liberate::tier_tty(request, *tty)),
        (Point::TierLine(request), Reply::MaybeText(line)) => {
            Ok(liberate::tier_line(request, line))
        },
        (back, _) => Err(back),
    }
}

} // verus!
