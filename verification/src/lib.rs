//! Setting the performance level of the graphics devices of a machine.
//!
//! The driver of a graphics device exposes a control file under the device's
//! directory in the class directory of such devices. Writing one of three
//! short ASCII tokens into that file selects how the driver scales the
//! device's clocks. This library holds everything about that task that can be
//! decided without touching the system: which level a command line asks for,
//! what to say when it asks for none, which directory entries are devices,
//! where their control files lie, and what is written to them.
//!
//! File names, paths, arguments and file contents are byte strings, as the
//! system hands them out; only diagnostics are text.

pub mod args;
pub mod bytes;
pub mod escape;
pub mod files;
pub mod level;
pub mod report;
pub mod run;
pub mod sweep;

pub use level::PerfLevel;
