//! The decision logic of the BC-250 tuning suite.

pub mod boot;
pub mod cli;
pub mod commands;
pub mod compat;
pub mod completion;
pub mod cpu;
pub mod cu;
pub mod custody;
pub mod decide;
pub mod done_boot;
pub mod done_cpu;
pub mod done_cu;
pub mod done_gpu;
pub mod done_other;
pub mod entry;
pub mod gpu;
pub mod laws_boot;
pub mod laws_cpu;
pub mod laws_cu;
pub mod laws_end;
pub mod laws_gpu;
pub mod laws_liberate;
pub mod laws_profile;
pub mod laws_report;
pub mod laws_scan;
pub mod laws_session;
pub mod laws_setpoint;
pub mod laws_settle;
pub mod laws_success;
pub mod laws_text;
pub mod liberate;
pub mod model;
pub mod order;
pub mod patches;
pub mod plan;
pub mod profiles;
pub mod protocol;
pub mod scan;
pub mod session;
pub mod text;
pub mod trace;
pub mod warrant_boot;
pub mod warrant_cpu;
pub mod warrant_cu;
pub mod warrant_gpu;
pub mod warrant_other;
