//! Supervision of the wallet daemon.
//!
//! The host starts the daemon once, with the wallet directory as its
//! argument and the token in its environment, and ends it when the window
//! closes. Ending it is best effort: it may be asked for any number of
//! times, and it never fails.

use vstd::prelude::*;
use crate::Args;
use crate::text::{join_path, joined};

verus! {

/// One variable of a process environment.
#[derive(Clone, Debug, PartialEq, Eq)]
pub struct EnvVar {
    pub name: String,
    pub value: String,
}

/// Where a standard stream of a process goes.
#[derive(Clone, Debug, PartialEq, Eq)]
pub enum Stream {
    /// Nowhere: the stream is closed.
    Closed,
    /// To the end of this file.
    File(String),
}

/// How the daemon is started.
#[derive(Clone, Debug, PartialEq, Eq)]
pub struct DaemonCommand {
    pub program: String,
    pub arguments: Vec<String>,
    pub environment: Vec<EnvVar>,
    pub stdin: Stream,
    pub stdout: Stream,
    pub stderr: Stream,
}

/// The mathematical content of a [`Stream`].
pub enum StreamView {
    Closed,
    File(Seq<char>),
}

/// The mathematical content of a [`DaemonCommand`].
pub struct DaemonCommandView {
    pub program: Seq<char>,
    pub arguments: Seq<Seq<char>>,
    pub environment: Seq<(Seq<char>, Seq<char>)>,
    pub stdin: StreamView,
    pub stdout: StreamView,
    pub stderr: StreamView,
}

impl View for Stream {
    type V = StreamView;

    open spec fn view(&self) -> StreamView {
        match *self {
            Stream::Closed => StreamView::Closed,
            Stream::File(path) => StreamView::File(path@),
        }
    }
}

impl View for DaemonCommand {
    type V = DaemonCommandView;

    open spec fn view(&self) -> DaemonCommandView {
        DaemonCommandView {
            program: self.program@,
            arguments: self.arguments@.map_values(|a: String| a@),
            environment: self.environment@.map_values(|v: EnvVar| (v.name@, v.value@)),
            stdin: self.stdin@,
            stdout: self.stdout@,
            stderr: self.stderr@,
        }
    }
}

/// The command that starts the daemon of a session: the configured
/// program with `--wallet-dir` and the wallet directory, the token in
/// `MELWALLETD_AUTH_TOKEN`, no standard input, and both standard output
/// and standard error going to `melwalletd.log` in the data directory.
pub open spec fn command_of(args: &Args, token: Seq<char>) -> DaemonCommandView {
    DaemonCommandView {
        program: args.melwalletd_path@,
        arguments: seq!["--wallet-dir"@, args.wallet_path@],
        environment: seq![("MELWALLETD_AUTH_TOKEN"@, token)],
        stdin: StreamView::Closed,
        stdout: StreamView::File(joined(args.data_path@, "melwalletd.log"@)),
        stderr: StreamView::File(joined(args.data_path@, "melwalletd.log"@)),
    }
}

impl DaemonCommand {
    /// Builds the command that starts the daemon.
    pub fn new(args: &Args, token: &str) -> (command: DaemonCommand)
        ensures
            command@ == command_of(args, token@),
    {
        let mut arguments: Vec<String> = Vec::new();
        arguments.push("--wallet-dir".to_owned());
        arguments.push(args.wallet_path.clone());
        let mut environment: Vec<EnvVar> = Vec::new();
        environment.push(EnvVar { name: "MELWALLETD_AUTH_TOKEN".to_owned(), value: token.to_owned() });
        let command = DaemonCommand {
            program: args.melwalletd_path.clone(),
            arguments,
            environment,
            stdin: Stream::Closed,
            stdout: Stream::File(join_path(args.data_path.as_str(), "melwalletd.log")),
            stderr: Stream::File(join_path(args.data_path.as_str(), "melwalletd.log")),
        };
        assert(command@.arguments =~= command_of(args, token@).arguments);
        assert(command@.environment =~= command_of(args, token@).environment);
        command
    }
}

/// The daemon as the host knows it: the process that was started, where
/// its output goes, the wallet directory it serves, and whether the host
/// has ended it yet.
#[derive(Clone, Debug, PartialEq, Eq)]
pub struct SupervisedProcess {
    pub id: u32,
    pub wallet_dir: String,
    pub output: String,
    pub running: bool,
}

/// What the caller does to end the daemon.
#[derive(Clone, Copy, Debug, PartialEq, Eq, Structural)]
pub enum Termination {
    /// Send the kill signal to this process and ignore how that goes: the
    /// process may have exited already.
    Kill(u32),
    /// Nothing: the daemon has been ended before.
    Nothing,
}

/// The daemon's executable could not be started at all.
#[derive(Clone, Copy, Debug, PartialEq, Eq, Structural)]
pub struct SpawnError;

impl SupervisedProcess {
    /// Takes charge of the daemon that the caller has tried to start for
    /// the wallets in `wallet_dir`, with its output going to `output`:
    /// `spawned` is the process that came of it, or `None` where the
    /// executable could not be started, which is an error.
    pub fn supervise(wallet_dir: &str, output: &str, spawned: Option<u32>) -> (process: Result<
        SupervisedProcess,
        SpawnError,
    >)
        ensures
            match process {
                Ok(p) => {
                    &&& spawned == Some(p.id)
                    &&& p.wallet_dir@ == wallet_dir@
                    &&& p.output@ == output@
                    &&& p.running
                },
                Err(_) => spawned is None,
            },
    {
        match spawned {
            Some(id) => Ok(
                SupervisedProcess {
                    id,
                    wallet_dir: wallet_dir.to_owned(),
                    output: output.to_owned(),
                    running: true,
                },
            ),
            None => Err(SpawnError),
        }
    }

    /// What ending the daemon asks of the caller.
    pub open spec fn termination(&self) -> Termination {
        if self.running {
            Termination::Kill(self.id)
        } else {
            Termination::Nothing
        }
    }

    /// The process once it has been ended.
    pub open spec fn terminated(self) -> SupervisedProcess {
        SupervisedProcess { running: false, ..self }
    }

    /// Ends the daemon. The first call asks for the kill signal; every
    /// later one asks for nothing. No call fails.
    pub fn terminate(&mut self) -> (termination: Termination)
        ensures
            termination == old(self).termination(),
            *final(self) == old(self).terminated(),
    {
        let termination = if self.running {
            Termination::Kill(self.id)
        } else {
            Termination::Nothing
        };
        self.running = false;
        termination
    }
}

/// Ending the daemon twice is as good as ending it once: the second call
/// asks for nothing and leaves the process as the first one left it.
pub proof fn terminate_twice(process: SupervisedProcess)
    ensures
        process.terminated().termination() == Termination::Nothing,
        process.terminated().terminated() == process.terminated(),
{
}

} // verus!
