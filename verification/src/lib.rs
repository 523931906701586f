//! A verified core for a small command-line tool that dispatches a named
//! subcommand: a fixed registry of command descriptors, platform gating,
//! argument parsing, and the texts the tool prints.
pub mod dispatch;
pub mod options;
pub mod platform;
pub mod registry;
pub mod remote;
pub mod text;
pub mod timefmt;

pub use options::Options;
pub use platform::CommandSupportOS;
pub use platform::Platform;
pub use registry::CommandInfo;
