//! What the host does when something goes wrong.
//!
//! Failures come in three kinds. One that keeps the session from starting
//! ends the host with a non-zero status before a window is shown, and ends
//! the daemon first if it is running already. One that spoils a single
//! request is reported in the host's own diagnostics and nowhere else. A
//! message that cannot be read is dropped without a word.

use vstd::prelude::*;
use crate::daemon::{SupervisedProcess, Termination};
use crate::server::BindError;
use crate::token::TokenError;

verus! {

/// Something that went wrong.
#[derive(Clone, Copy, Debug, PartialEq, Eq, Structural)]
pub enum Failure {
    /// The wallet or data directory cannot be named or created.
    Directories,
    /// The token file cannot be read or written.
    TokenStore,
    /// The random source gave no bytes for a new token.
    Entropy,
    /// The directory of the user interface is missing.
    AssetsMissing,
    /// The listener of the asset server cannot bind its port.
    ListenerBind,
    /// The daemon's executable cannot be started.
    DaemonSpawn,
    /// The log files cannot be opened.
    LogOpen,
    /// The window cannot be built.
    WindowBuild,
    /// The export folder cannot be created, or a log cannot be copied.
    LogExport,
    /// The browser cannot be opened.
    BrowserOpen,
    /// A message of the user interface cannot be read.
    UnreadableMessage,
}

/// How far a failure reaches.
#[derive(Clone, Copy, Debug, PartialEq, Eq, Structural)]
pub enum Severity {
    /// The host gives up before a window is shown.
    StartupFatal,
    /// The request at hand is given up; the session goes on.
    RequestLocal,
    /// Nothing happens at all.
    ProtocolIgnorable,
}

/// What the caller does about a failure.
#[derive(Clone, Copy, Debug, PartialEq, Eq, Structural)]
pub struct Reaction {
    /// What to do to the daemon first.
    pub termination: Termination,
    /// Whether to write the failure to the host's diagnostics.
    pub report: bool,
    /// The status to leave the host with, or `None` to go on.
    pub exit_status: Option<u8>,
}

impl Failure {
    /// The failure that an error of the token store amounts to.
    pub open spec fn of_token(error: TokenError) -> Failure {
        match error {
            TokenError::Io => Failure::TokenStore,
            TokenError::Entropy => Failure::Entropy,
        }
    }

    /// The failure that an error of the asset server amounts to.
    pub open spec fn of_bind(error: BindError) -> Failure {
        match error {
            BindError::PortUnavailable => Failure::ListenerBind,
            BindError::DirectoryMissing => Failure::AssetsMissing,
        }
    }

    /// The failure that an error of the token store amounts to.
    pub fn from_token(error: TokenError) -> (failure: Failure)
        ensures
            failure == Failure::of_token(error),
    {
        match error {
            TokenError::Io => Failure::TokenStore,
            TokenError::Entropy => Failure::Entropy,
        }
    }

    /// The failure that an error of the asset server amounts to.
    pub fn from_bind(error: BindError) -> (failure: Failure)
        ensures
            failure == Failure::of_bind(error),
    {
        match error {
            BindError::PortUnavailable => Failure::ListenerBind,
            BindError::DirectoryMissing => Failure::AssetsMissing,
        }
    }

    /// How far this failure reaches.
    pub open spec fn severity_of(self) -> Severity {
        match self {
            Failure::LogExport | Failure::BrowserOpen => Severity::RequestLocal,
            Failure::UnreadableMessage => Severity::ProtocolIgnorable,
            _ => Severity::StartupFatal,
        }
    }

    /// How far this failure reaches.
    pub fn severity(self) -> (severity: Severity)
        ensures
            severity == self.severity_of(),
    {
        match self {
            Failure::LogExport | Failure::BrowserOpen => Severity::RequestLocal,
            Failure::UnreadableMessage => Severity::ProtocolIgnorable,
            _ => Severity::StartupFatal,
        }
    }
}

/// The reaction to a failure, given the daemon if it has been started.
pub open spec fn reaction_to(failure: Failure, daemon: Option<SupervisedProcess>) -> Reaction {
    match failure.severity_of() {
        Severity::StartupFatal => Reaction {
            termination: match daemon {
                Some(process) => process.termination(),
                None => Termination::Nothing,
            },
            report: true,
            exit_status: Some(1),
        },
        Severity::RequestLocal => Reaction {
            termination: Termination::Nothing,
            report: true,
            exit_status: None,
        },
        Severity::ProtocolIgnorable => Reaction {
            termination: Termination::Nothing,
            report: false,
            exit_status: None,
        },
    }
}

/// Decides what to do about a failure. Only a failure that is fatal to
/// startup touches the daemon, and it ends it; every other one leaves the
/// session as it is.
pub fn react(failure: Failure, daemon: &mut Option<SupervisedProcess>) -> (reaction: Reaction)
    ensures
        reaction == reaction_to(failure, *old(daemon)),
        *final(daemon) == match (failure.severity_of(), *old(daemon)) {
            (Severity::StartupFatal, Some(process)) => Some(process.terminated()),
            _ => *old(daemon),
        },
{
    match failure.severity() {
        Severity::StartupFatal => {
            let termination = match daemon {
                Some(process) => process.terminate(),
                None => Termination::Nothing,
            };
            Reaction { termination, report: true, exit_status: Some(1) }
        },
        Severity::RequestLocal => Reaction {
            termination: Termination::Nothing,
            report: true,
            exit_status: None,
        },
        Severity::ProtocolIgnorable => Reaction {
            termination: Termination::Nothing,
            report: false,
            exit_status: None,
        },
    }
}

} // verus!
