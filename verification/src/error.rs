//! The failures that the harness reports.

use vstd::prelude::*;

verus! {

/// How a child process ended: its exit code, or none where a signal ended it.
#[derive(Clone, Copy, Debug, PartialEq, Eq, Structural)]
pub struct ExitStatus {
    /// The exit code, if the process exited by itself.
    pub code: Option<i32>,
}

/// All the possible errors of this crate.
///
/// A failure of the operating system, of the companion node or of the
/// indexing client is kept as the text that described it.
#[derive(Debug, PartialEq, Eq)]
pub enum Error {
    /// An input or output operation failed.
    Io(String),
    /// The companion node's launcher failed.
    Tapyrusd(String),
    /// The indexing client failed.
    ElectrumClient(String),
    /// A remote call to the companion node failed.
    TapyrusCoreRpc(String),
    /// Delivering a signal failed with this error number.
    Nix(i32),
    /// The daemon exited before it became reachable.
    EarlyExit(ExitStatus),
    /// Both a temporary root and a persistent directory were configured.
    BothDirsSpecified,
    /// No daemon executable was named or found on the search path.
    NoElectrsExecutableFound,
    /// Both executable overrides are set in the environment.
    BothEnvVars,
}

/// The mathematical value of an [`Error`].
pub enum ErrorView {
    Io(Seq<char>),
    Tapyrusd(Seq<char>),
    ElectrumClient(Seq<char>),
    TapyrusCoreRpc(Seq<char>),
    Nix(i32),
    EarlyExit(ExitStatus),
    BothDirsSpecified,
    NoElectrsExecutableFound,
    BothEnvVars,
}

impl View for Error {
    type V = ErrorView;

    open spec fn view(&self) -> ErrorView {
        match self {
            Error::Io(m) => ErrorView::Io(m@),
            Error::Tapyrusd(m) => ErrorView::Tapyrusd(m@),
            Error::ElectrumClient(m) => ErrorView::ElectrumClient(m@),
            Error::TapyrusCoreRpc(m) => ErrorView::TapyrusCoreRpc(m@),
            Error::Nix(n) => ErrorView::Nix(*n),
            Error::EarlyExit(s) => ErrorView::EarlyExit(*s),
            Error::BothDirsSpecified => ErrorView::BothDirsSpecified,
            Error::NoElectrsExecutableFound => ErrorView::NoElectrsExecutableFound,
            Error::BothEnvVars => ErrorView::BothEnvVars,
        }
    }
}

} // verus!
