//! The data layout of a compilation target, as the toolchain reports it.
//!
//! The toolchain prints a description of a target on request, and one field
//! of that text, `data-layout`, says how the target lays out memory: pointer
//! width, endianness, alignments. This crate holds every decision of such a
//! request and none of its I/O: which binary to ask, with which arguments,
//! directory and environment, what to make of the way the run ended, and how
//! to find the field in what was printed.
//!
//! A caller drives a resolution through [`get`]. It reports
//! [`Event::Started`] and then does what it is told: it locates the binary
//! for [`Action::Locate`], runs the subprocess for [`Action::Run`], reports
//! what came of each, and stops at [`Action::Return`]. The parts of that
//! conversation can be had on their own too: [`invocation`], [`capture`] and
//! [`extract`].

pub mod config;
pub mod env;
pub mod error;
pub mod extract;
pub mod invocation;
pub mod process;
pub mod resolve;
pub mod text;

pub use config::{ManifestPath, RustcDataLayoutConfig, Sysroot, Tool};
pub use error::{Error, ProcessFailure};
pub use extract::extract;
pub use invocation::{invocation, Invocation};
pub use process::{capture, ProcessOutcome};
pub use resolve::{get, Action, Event};
