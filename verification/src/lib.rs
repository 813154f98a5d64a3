//! A host-embeddable system monitor: it samples CPU load, memory use and a
//! thermal sensor, and renders them as one status line.
//!
//! The rendering and the monitor's state machine are verified. The library
//! does not read the machine: its caller does, with the `sysinfo` crate, and
//! hands it the readings. Of that crate the library itself only looks into a
//! list of sensors, through the declarations in [`host`], which are believed,
//! not proved.

pub mod binary32;
pub mod config;
pub mod decimal;
pub mod double;
pub mod host;
pub mod laws;
pub mod monitor;
pub mod render;
pub mod slot;
pub mod text;

pub use binary32::Binary32;
pub use config::Config;
pub use monitor::{Readings, SysMonState, SysMonView};
pub use slot::{check_initialized, get_sys_stats, init, SysMon, SysMonError};
