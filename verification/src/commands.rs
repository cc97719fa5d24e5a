//! The `arieltune apu` command tree.
use vstd::prelude::*;

verus! {

/// Declares `std::path::PathBuf`, which a command carries through untouched: nothing is claimed of
/// what is inside.
#[verifier::external_type_specification]
#[verifier::external_body]
pub struct ExPathBuf(std::path::PathBuf);

/// One `arieltune apu` subcommand.
#[derive(Debug, Clone, PartialEq, Eq)]
pub enum Cmd {
    /// Report the per-patch state of the liberation series on the booted kernel.
    Patches {
        /// Show the embedded patch body for one id.
        show: Option<String>,
    },
    /// Print the live CU harvest map.
    Cumap,
    /// 40-CU liberation control.
    Cu { action: CuCmd },
    /// GPU clock control and app-driven power.
    Gpu { action: GpuCmd },
    /// CPU overclock and undervolt.
    Cpu { action: CpuCmd },
    /// Build the liberation series into the system.
    Build {
        /// The PKGBUILD directory, where it is not the default one.
        pkgbuild: Option<std::path::PathBuf>,
        /// Deploy to a remote target (user@host) in place of this machine.
        target: Option<String>,
        /// Execute, in place of a preview of the plan.
        run: bool,
    },
    /// Guided liberation: the board gate, the patch report, then an explicit tier choice.
    Liberate {
        /// The PKGBUILD directory, where it is not the default one.
        pkgbuild: Option<std::path::PathBuf>,
        /// Deploy to a remote target (user@host) in place of this machine.
        target: Option<String>,
        /// The tier, chosen without a prompt.
        tier: Option<LiberateTier>,
        /// Execute the build, in place of a preview of the plan.
        run: bool,
    },
    /// Tuning profiles.
    Profile { action: ProfileCmd },
    /// Preflight.
    Doctor {
        /// Print a single machine-readable JSON object and nothing else.
        json: bool,
        /// Fail unless this is a BC-250 with the full series live.
        verify: bool,
    },
}

/// Liberation tiers: liberation is not all-or-nothing.
#[derive(Debug, Clone, Copy, PartialEq, Eq)]
pub enum LiberateTier {
    /// Patched kernel, all 40 CUs routed.
    Full,
    /// Patched kernel with CU routing off.
    TuningOnly,
    /// No kernel changes: report the patch state only.
    InspectOnly,
}

/// Tuning profile commands.
#[derive(Debug, Clone, PartialEq, Eq)]
pub enum ProfileCmd {
    /// List built-in and custom profiles.
    List,
    /// Show one profile and what applying it would do.
    Show { name: String },
    /// Apply a profile; a dry run unless `write`.
    Apply { name: String, write: bool },
    /// Delete a custom profile.
    Delete { name: String },
}

/// CU commands.
#[derive(Debug, Clone, PartialEq, Eq)]
pub enum CuCmd {
    /// Show the CU state.
    Status,
    /// Persist the 40-CU liberation.
    Enable,
    /// Remove the persisted liberation.
    Disable,
    /// Route all 40 CUs now.
    RouteAll,
    /// Route the factory dispatch (24 CU) now.
    RouteFactory,
    /// Route per-array WGP masks (4 hexadecimal masks).
    Route {
        masks: Vec<String>,
        /// Allow an empty shader array.
        force_unsafe: bool,
    },
    /// Toggle a single WGP.
    Toggle {
        array: u32,
        wgp: u32,
        /// Allow the toggle to empty a shader array.
        force_unsafe: bool,
    },
    /// Bench the compute throughput of a routing; no masks: of the current one.
    Bench { masks: Vec<String> },
    /// Persist the live routing and arm its boot re-apply.
    RouteSave,
    /// Apply the saved routing.
    RouteLoad,
    /// Disarm the boot re-apply of the routing.
    RouteForget,
    /// Health-test the CUs with a known-answer compute test.
    Test {
        /// On a fault, localize the bad WGP.
        localize: bool,
        /// Run the subtractive sweep whether or not there is a fault.
        probe: bool,
    },
}

/// GPU commands.
#[derive(Debug, Clone, PartialEq, Eq)]
pub enum GpuCmd {
    /// Show the GPU power state.
    Status,
    /// Pin the GFX clock, persistently.
    Force { mhz: u32 },
    /// Release the GFX clock lock and clear the manual clock.
    Unforce,
    /// Pin the GFX clock for the duration of a task, without persisting anything.
    Pin { mhz: u32 },
    /// End a `Pin`.
    Unpin,
    /// Enact the persisted GPU power mode.
    ApplyBoot,
    /// Another name for `ApplyBoot`.
    ApplySavedForce,
    /// Set the GPU voltage at the high clock.
    Vid { mv: u32 },
    /// Reset the GPU voltage to the stock curve.
    UnforceVid,
    /// Force the active clock.
    Wake {
        /// Override a persisted manual pin.
        override_pin: bool,
    },
    /// Force the deep-sleep clock.
    DeepSleep {
        /// Override a persisted manual pin.
        override_pin: bool,
    },
    /// Set the high tier clock of the governor.
    SetTop { mhz: u32 },
    /// Set the mid tier clock of the governor.
    SetMid { mhz: u32 },
    /// Set the idle tier clock of the governor.
    SetIdle { mhz: u32 },
    /// Set the deep-sleep tier clock of the governor.
    SetDeep { mhz: u32 },
    /// Set the GPU temperature cap alone.
    TempCap { c: u32 },
    /// Make the governor the persistent auto mode.
    GovernorOn,
    /// Make released the persistent auto mode.
    GovernorOff,
    /// Make autosleep the persistent auto mode.
    AutosleepOn,
    /// Touch the poke file.
    Poke,
    /// Run the autosleep daemon.
    Autosleep {
        /// Seconds without a poke before the clock goes down.
        idle: u64,
        /// Force the deep clock when idle, in place of releasing it.
        deep_force: bool,
    },
    /// Run the governor.
    Governor,
    /// Set the coarse performance level.
    Level {
        level: String,
        /// Override a persisted manual pin.
        override_pin: bool,
    },
    /// Dump the telemetry node.
    Telemetry,
}

/// CPU commands.
#[derive(Debug, Clone, PartialEq, Eq)]
pub enum CpuCmd {
    /// Show the live CPU state.
    Status,
    /// Apply an overclock or undervolt; what is not given keeps its value.
    Tune {
        /// Boost clock (MHz).
        boost: Option<u32>,
        /// Scale of the F/Vid curve.
        scale: Option<i32>,
        /// CPU temperature limit (C).
        cpu_temp: Option<u32>,
        /// GPU temperature limit (C).
        gpu_temp: Option<u32>,
    },
    /// Undervolt at a boost clock: pick the curve scale for a Vid cap (mV).
    Undervolt { boost: u32, vid_cap: u32 },
    /// Force an absolute CPU Vid (mV).
    Vid { mv: u32 },
    /// Release a forced CPU Vid.
    VidAuto,
    /// Restore the CPU to firmware defaults.
    Restore,
    /// Re-apply the persisted overclock.
    ApplySaved,
    /// Climb the boost clock and report the highest stable point.
    Detect {
        target: u32,
        vid_cap: u32,
        temp: u32,
        step: u32,
        dwell: u64,
        /// Save the highest stable point as a custom profile of this name.
        save: Option<String>,
    },
}

} // verus!
