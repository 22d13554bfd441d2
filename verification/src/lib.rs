//! A wrapper around an infrastructure-provisioning tool's `destroy`
//! subcommand that exempts a declared set of resources from destruction.
//!
//! The pipeline resolves an ignore-rule file, lists the managed resources,
//! filters them against the rules, invokes the destroy subcommand on the
//! survivors, and translates the child process's termination status into a
//! stable exit code. The decision logic lives here; process invocation and
//! file reading are left to the binary around this library.

pub mod driver;
pub mod error;
pub mod filter;
pub mod ignore;
pub mod listing;
pub mod status;
