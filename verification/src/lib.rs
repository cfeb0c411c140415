//! Supervision logic for a regtest `electrs` daemon used in integration tests.
//!
//! The crate decides; it performs no input or output of its own beyond looking
//! an executable up on the search path. Every operation that needs the
//! operating system (starting the process, probing a port, sleeping,
//! delivering a signal) is described as a request that the embedding program
//! carries out, and whose outcome it reports back as an event.
//!
//! A launch, a termination and the two waits each begin with a method of
//! [`ElectrsD`] that returns a state and a first request; `step` then takes
//! the state and a report to the next state and request, until the request
//! says that the operation is over. What each `step` returns is fixed by a
//! function on mathematical values (`next`), and the proof functions whose
//! names begin with `law_` state what follows from it for every sequence of
//! reports.

pub mod args;
pub mod conf;
pub mod daemon;
pub mod error;
pub mod exe;
pub mod ext;
pub mod ext_laws;
pub mod launch;
pub mod launch_laws;
pub mod text;
pub mod versions;

pub use conf::{Conf, DataDir, Environment, Upstream};
pub use daemon::ElectrsD;
pub use error::{Error, ExitStatus};
pub use exe::{downloaded_exe_path, exe_path};
pub use versions::{electrs_name, Compat, Release};
