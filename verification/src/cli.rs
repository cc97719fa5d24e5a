//! The entry of the `arieltune apu` commands.
use vstd::prelude::*;

use crate::commands::Cmd;
use crate::cpu::{cmd_cpu, cpu_plan};
use crate::cu::{cmd_cu, cu_plan};
use crate::gpu::{cmd_gpu, gpu_plan};
use crate::liberate::{build_plan, cmd_build, cmd_liberate, liberate_plan};
use crate::model::Site;
use crate::patches::{cmd_cumap, cmd_doctor, cmd_patches, cumap_plan, doctor_plan, patches_plan};
use crate::plan::{maybe, BuildRequest, Plan, Script};
use crate::profiles::{cmd_profile, profile_plan};
use crate::session::Session;

verus! {

/// The plan that a command opens with.
pub open spec fn opening(site: Site, cmd: Cmd) -> Plan {
    match cmd {
        Cmd::Patches { show } => patches_plan(show),
        Cmd::Cumap => cumap_plan(),
        Cmd::Cu { action } => cu_plan(site, action),
        Cmd::Gpu { action } => gpu_plan(site, action),
        Cmd::Cpu { action } => cpu_plan(site, action),
        Cmd::Build { pkgbuild, target, run } => build_plan(
            BuildRequest { pkgbuild, target: maybe(target), run },
        ),
        Cmd::Liberate { pkgbuild, target, tier, run } => liberate_plan(
            BuildRequest { pkgbuild, target: maybe(target), run },
            tier,
        ),
        Cmd::Profile { action } => profile_plan(action),
        Cmd::Doctor { json, verify } => doctor_plan(json, verify),
    }
}

/// Starts one `arieltune apu` command.
pub fn run(site: &Site, cmd: Cmd) -> (session: Session)
    ensures
        session@ == opening(*site, cmd),
{
    let script: Script = match cmd {
        Cmd::Patches { show } => cmd_patches(show),
        Cmd::Cumap => cmd_cumap(),
        Cmd::Cu { action } => cmd_cu(site, action),
        Cmd::Gpu { action } => cmd_gpu(site, action),
        Cmd::Cpu { action } => cmd_cpu(site, action),
        Cmd::Build { pkgbuild, target, run } => cmd_build(BuildRequest { pkgbuild, target, run }),
        Cmd::Liberate { pkgbuild, target, tier, run } => cmd_liberate(
            BuildRequest { pkgbuild, target, run },
            tier,
        ),
        Cmd::Profile { action } => cmd_profile(action),
        Cmd::Doctor { json, verify } => cmd_doctor(json, verify),
    };
    Session::new(script)
}

} // verus!
