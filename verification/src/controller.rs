//! The order of a session.
//!
//! A session is a conversation between the controller and its caller. The
//! controller answers every report with the one step to take next; the
//! caller takes it and reports how it went. Startup runs in a fixed order:
//! directories, token, asset server, daemon, logs, window. The data that a
//! later step needs exists only once the earlier ones have succeeded, so
//! no caller can build the window before the served address is known, or
//! start the daemon with another token than the window gets. Whatever
//! fails during startup ends the session, and the daemon with it.

use vstd::prelude::*;
use crate::Args;
use crate::daemon::{DaemonCommand, SupervisedProcess, Termination, command_of};
use crate::failure::{Failure, Severity, react, reaction_to};
use crate::host::{WindowConfig, WindowEvent, window_of};
use crate::ipc::IPCContext;
use crate::server::{
    AssetSource, AssetSourceView, BindError, Listener, ListenerView, ServedAddress, source_of,
};
use crate::text::joined;
use crate::token::{
    Obtained, ObtainedView, TOKEN_BYTES, TokenFile, confirm, draw_entropy, option_bytes, outcome, settle,
    token_path,
};

verus! {

/// How far a session has come: which report the controller waits for, and
/// what it has gathered so far.
#[derive(Clone, Debug, PartialEq, Eq)]
pub enum Stage {
    /// Waiting for the directories to be created.
    Directories,
    /// Waiting for the content of the token file.
    TokenRead,
    /// Waiting for the new token to be written.
    TokenWrite { token: String },
    /// Waiting for the listener of the asset server.
    Listener { token: String },
    /// Waiting for the daemon to be started.
    Spawn { token: String, served: ServedAddress },
    /// Waiting for the logs to be opened.
    Logs { token: String, served: ServedAddress, daemon: SupervisedProcess },
    /// Waiting for the window to be built.
    Window { daemon: SupervisedProcess },
    /// In the event loop, waiting for the window's events.
    Running { daemon: SupervisedProcess },
    /// Over.
    Exited,
}

/// What the caller tells the controller.
#[derive(Clone, Debug, PartialEq, Eq)]
pub enum Report {
    /// Whether the wallet and data directories exist now.
    Directories(bool),
    /// What the token file holds.
    Token(TokenFile),
    /// Whether the new token has been written.
    TokenWritten(bool),
    /// What became of the listener.
    Listener(Listener),
    /// The process that the daemon's command started, if it started one.
    Spawned(Option<u32>),
    /// Whether both logs are open.
    LogsOpened(bool),
    /// Whether the window has been built.
    WindowBuilt(bool),
    /// An event of the window.
    Window(WindowEvent),
}

/// What the controller tells the caller to do next.
#[derive(Clone, Debug, PartialEq, Eq)]
pub enum Step {
    /// Create both directories, parents included, where they are missing.
    CreateDirectories { wallet_path: String, data_path: String },
    /// Read the token file.
    ReadToken { path: String },
    /// Write the token to the token file.
    WriteToken { path: String, token: String },
    /// Serve `directory` from a listener bound to `bind`, and wait until
    /// the listener has said where it listens.
    Serve { directory: String, bind: String },
    /// Start the daemon.
    Spawn(DaemonCommand),
    /// Open both logs for appending.
    OpenLogs(IPCContext),
    /// Build the window and install the message handler.
    BuildWindow(WindowConfig),
    /// Enter the event loop, or stay in it; `announce` asks for a note
    /// that the loop has started.
    Run { announce: bool },
    /// End the daemon as `termination` says, then leave with `status`.
    Exit { termination: Termination, failure: Option<Failure>, status: u8 },
}

/// The report does not answer the step that the controller asked for.
#[derive(Clone, Copy, Debug, PartialEq, Eq, Structural)]
pub struct OutOfOrder;

/// The controller of a session.
#[derive(Clone, Debug, PartialEq, Eq)]
pub struct HostController {
    pub args: Args,
    /// The script that the window runs before the bindings of the host.
    pub prelude: String,
    pub stage: Stage,
}

/// A failed startup: the session is over, the daemon is ended if there is
/// one, and the host leaves with status one.
pub open spec fn gives_up(
    after: HostController,
    step: Result<Step, OutOfOrder>,
    failure: Failure,
    daemon: Option<SupervisedProcess>,
) -> bool {
    &&& after.stage is Exited
    &&& step == Ok::<Step, OutOfOrder>(
        Step::Exit { termination: reaction_to(failure, daemon).termination, failure: Some(failure), status: 1 },
    )
}

/// With token and served address at hand, the daemon is started next.
pub open spec fn starts_daemon(
    args: &Args,
    token: Seq<char>,
    address: Seq<char>,
    after: HostController,
    step: Result<Step, OutOfOrder>,
) -> bool {
    &&& after.stage matches Stage::Spawn { token: kept, served }
    &&& kept@ == token
    &&& served.address@ == address
    &&& step matches Ok(Step::Spawn(command))
    &&& command@ == command_of(args, token)
}

/// With the token at hand, the assets come next: an external address is
/// taken as it is and the daemon follows at once; a directory is served
/// first; and with neither the session ends.
pub open spec fn serves_assets(
    args: &Args,
    token: Seq<char>,
    after: HostController,
    step: Result<Step, OutOfOrder>,
) -> bool {
    match source_of(args.dev_port, crate::option_text(args.html_path)) {
        Err(error) => gives_up(after, step, Failure::of_bind(error), None),
        Ok(AssetSourceView::External(address)) => starts_daemon(args, token, address, after, step),
        Ok(AssetSourceView::Local { directory, bind }) => {
            &&& after.stage matches Stage::Listener { token: kept }
            &&& kept@ == token
            &&& step matches Ok(Step::Serve { directory: d, bind: b })
            &&& d@ == directory
            &&& b@ == bind
        },
    }
}

/// Whether `after` and `step` are the controller's answer to `report` in
/// the state `before`, where `entropy` is what the random source gave when
/// a new token was due.
///
/// A report that does not answer the pending step changes nothing and is
/// refused.
pub open spec fn follows(
    before: HostController,
    report: Report,
    entropy: Option<Seq<u8>>,
    after: HostController,
    step: Result<Step, OutOfOrder>,
) -> bool {
    &&& after.args == before.args
    &&& after.prelude == before.prelude
    &&& match (before.stage, report) {
        (Stage::Directories, Report::Directories(true)) => {
            &&& after.stage is TokenRead
            &&& step matches Ok(Step::ReadToken { path })
            &&& path@ == joined(before.args.data_path@, "auth.txt"@)
        },
        (Stage::Directories, Report::Directories(false)) => gives_up(
            after,
            step,
            Failure::Directories,
            None,
        ),
        (Stage::TokenRead, Report::Token(file)) => match outcome(file@, entropy) {
            Ok(ObtainedView::Reused(token)) => serves_assets(&before.args, token, after, step),
            Ok(ObtainedView::Created(token)) => {
                &&& after.stage matches Stage::TokenWrite { token: kept }
                &&& kept@ == token
                &&& step matches Ok(Step::WriteToken { path, token: written })
                &&& path@ == joined(before.args.data_path@, "auth.txt"@)
                &&& written@ == token
            },
            Err(error) => gives_up(after, step, Failure::of_token(error), None),
        },
        (Stage::TokenWrite { token }, Report::TokenWritten(true)) => serves_assets(
            &before.args,
            token@,
            after,
            step,
        ),
        (Stage::TokenWrite { .. }, Report::TokenWritten(false)) => gives_up(
            after,
            step,
            Failure::TokenStore,
            None,
        ),
        (Stage::Listener { token }, Report::Listener(listener)) => match listener@ {
            ListenerView::Bound(address) => starts_daemon(&before.args, token@, address, after, step),
            ListenerView::PortUnavailable => gives_up(
                after,
                step,
                Failure::of_bind(BindError::PortUnavailable),
                None,
            ),
            ListenerView::DirectoryMissing => gives_up(
                after,
                step,
                Failure::of_bind(BindError::DirectoryMissing),
                None,
            ),
        },
        (Stage::Spawn { token, served }, Report::Spawned(Some(id))) => {
            &&& after.stage matches Stage::Logs { token: kept, served: address, daemon }
            &&& kept@ == token@
            &&& address.address@ == served.address@
            &&& daemon.id == id
            &&& daemon.running
            &&& daemon.wallet_dir@ == before.args.wallet_path@
            &&& daemon.output@ == joined(before.args.data_path@, "melwalletd.log"@)
            &&& step matches Ok(Step::OpenLogs(context))
            &&& context.ginkou_logs_path@ == joined(before.args.data_path@, "ginkou.log"@)
            &&& context.melwalletd_logs_path@ == joined(before.args.data_path@, "melwalletd.log"@)
        },
        (Stage::Spawn { .. }, Report::Spawned(None)) => gives_up(
            after,
            step,
            Failure::DaemonSpawn,
            None,
        ),
        (Stage::Logs { token, served, daemon }, Report::LogsOpened(true)) => {
            &&& after.stage == Stage::Window { daemon }
            &&& step matches Ok(Step::BuildWindow(window))
            &&& window@ == window_of(&before.args, token@, served.address@, before.prelude@)
        },
        (Stage::Logs { daemon, .. }, Report::LogsOpened(false)) => gives_up(
            after,
            step,
            Failure::LogOpen,
            Some(daemon),
        ),
        (Stage::Window { daemon }, Report::WindowBuilt(true)) => {
            &&& after.stage == Stage::Running { daemon }
            &&& step == Ok::<Step, OutOfOrder>(Step::Run { announce: false })
        },
        (Stage::Window { daemon }, Report::WindowBuilt(false)) => gives_up(
            after,
            step,
            Failure::WindowBuild,
            Some(daemon),
        ),
        (Stage::Running { daemon }, Report::Window(WindowEvent::CloseRequested)) => {
            &&& after.stage is Exited
            &&& step == Ok::<Step, OutOfOrder>(
                Step::Exit { termination: daemon.termination(), failure: None, status: 0 },
            )
        },
        (Stage::Running { .. }, Report::Window(event)) => {
            &&& after.stage == before.stage
            &&& step == Ok::<Step, OutOfOrder>(Step::Run { announce: event == WindowEvent::Started })
        },
        _ => {
            &&& after.stage == before.stage
            &&& step is Err
        },
    }
}

fn give_up(args: Args, prelude: String, failure: Failure, daemon: Option<SupervisedProcess>) -> (next: (
    HostController,
    Result<Step, OutOfOrder>,
))
    requires
        failure.severity_of() == Severity::StartupFatal,
    ensures
        next.0.args == args,
        next.0.prelude == prelude,
        gives_up(next.0, next.1, failure, daemon),
{
    let mut daemon = daemon;
    let reaction = react(failure, &mut daemon);
    (
        HostController { args, prelude, stage: Stage::Exited },
        Ok(
            Step::Exit {
                termination: reaction.termination,
                failure: Some(failure),
                status: reaction.exit_status.unwrap(),
            },
        ),
    )
}

fn start_daemon(args: Args, prelude: String, token: String, served: ServedAddress) -> (next: (
    HostController,
    Result<Step, OutOfOrder>,
))
    ensures
        next.0.args == args,
        next.0.prelude == prelude,
        starts_daemon(&args, token@, served.address@, next.0, next.1),
{
    let command = DaemonCommand::new(&args, token.as_str());
    (HostController { args, prelude, stage: Stage::Spawn { token, served } }, Ok(Step::Spawn(command)))
}

fn serve_assets(args: Args, prelude: String, token: String) -> (next: (
    HostController,
    Result<Step, OutOfOrder>,
))
    ensures
        next.0.args == args,
        next.0.prelude == prelude,
        serves_assets(&args, token@, next.0, next.1),
{
    match AssetSource::from_args(&args) {
        Err(error) => give_up(args, prelude, Failure::from_bind(error), None),
        Ok(AssetSource::External(address)) => start_daemon(args, prelude, token, ServedAddress { address }),
        Ok(AssetSource::Local { directory, bind }) => (
            HostController { args, prelude, stage: Stage::Listener { token } },
            Ok(Step::Serve { directory, bind }),
        ),
    }
}

impl HostController {
    /// Opens a session for a configuration whose directories are settled.
    /// The first step is to create them.
    pub fn launch(args: Args, prelude: String) -> (first: (HostController, Step))
        ensures
            first.0.args == args,
            first.0.prelude == prelude,
            first.0.stage is Directories,
            first.1 matches Step::CreateDirectories { wallet_path, data_path } && wallet_path@
                == args.wallet_path@ && data_path@ == args.data_path@,
    {
        let step = Step::CreateDirectories {
            wallet_path: args.wallet_path.clone(),
            data_path: args.data_path.clone(),
        };
        (HostController { args, prelude, stage: Stage::Directories }, step)
    }

    /// Answers a report, given what the random source gave: `entropy`
    /// counts only where the report is that the token file is missing.
    pub fn advance_with(self, report: Report, entropy: Option<Vec<u8>>) -> (next: (
        HostController,
        Result<Step, OutOfOrder>,
    ))
        ensures
            follows(self, report, option_bytes(entropy), next.0, next.1),
    {
        let HostController { args, prelude, stage } = self;
        match (stage, report) {
            (Stage::Directories, Report::Directories(created)) => {
                if created {
                    let path = token_path(args.data_path.as_str());
                    (HostController { args, prelude, stage: Stage::TokenRead }, Ok(Step::ReadToken { path }))
                } else {
                    give_up(args, prelude, Failure::Directories, None)
                }
            },
            (Stage::TokenRead, Report::Token(file)) => {
                match settle(file, entropy) {
                    Ok(Obtained::Reused(token)) => serve_assets(args, prelude, token),
                    Ok(Obtained::Created(token)) => {
                        let path = token_path(args.data_path.as_str());
                        let written = token.clone();
                        (
                            HostController { args, prelude, stage: Stage::TokenWrite { token } },
                            Ok(Step::WriteToken { path, token: written }),
                        )
                    },
                    Err(error) => give_up(args, prelude, Failure::from_token(error), None),
                }
            },
            (Stage::TokenWrite { token }, Report::TokenWritten(written)) => {
                match confirm(Obtained::Created(token), written) {
                    Ok(token) => serve_assets(args, prelude, token),
                    Err(error) => give_up(args, prelude, Failure::from_token(error), None),
                }
            },
            (Stage::Listener { token }, Report::Listener(listener)) => {
                match listener.address() {
                    Ok(served) => start_daemon(args, prelude, token, served),
                    Err(error) => give_up(args, prelude, Failure::from_bind(error), None),
                }
            },
            (Stage::Spawn { token, served }, Report::Spawned(spawned)) => {
                let context = IPCContext::in_directory(args.data_path.as_str());
                let supervised = SupervisedProcess::supervise(
                    args.wallet_path.as_str(),
                    context.melwalletd_logs_path.as_str(),
                    spawned,
                );
                match supervised {
                    Ok(daemon) => (
                        HostController { args, prelude, stage: Stage::Logs { token, served, daemon } },
                        Ok(Step::OpenLogs(context)),
                    ),
                    Err(_) => give_up(args, prelude, Failure::DaemonSpawn, None),
                }
            },
            (Stage::Logs { token, served, daemon }, Report::LogsOpened(opened)) => {
                if opened {
                    let window = WindowConfig::new(&args, token.as_str(), &served, prelude.as_str());
                    (
                        HostController { args, prelude, stage: Stage::Window { daemon } },
                        Ok(Step::BuildWindow(window)),
                    )
                } else {
                    give_up(args, prelude, Failure::LogOpen, Some(daemon))
                }
            },
            (Stage::Window { daemon }, Report::WindowBuilt(built)) => {
                if built {
                    (
                        HostController { args, prelude, stage: Stage::Running { daemon } },
                        Ok(Step::Run { announce: false }),
                    )
                } else {
                    give_up(args, prelude, Failure::WindowBuild, Some(daemon))
                }
            },
            (Stage::Running { daemon }, Report::Window(event)) => {
                match event {
                    WindowEvent::CloseRequested => {
                        let mut daemon = daemon;
                        let termination = daemon.terminate();
                        (
                            HostController { args, prelude, stage: Stage::Exited },
                            Ok(Step::Exit { termination, failure: None, status: 0 }),
                        )
                    },
                    WindowEvent::Started => (
                        HostController { args, prelude, stage: Stage::Running { daemon } },
                        Ok(Step::Run { announce: true }),
                    ),
                    _ => (
                        HostController { args, prelude, stage: Stage::Running { daemon } },
                        Ok(Step::Run { announce: false }),
                    ),
                }
            },
            (stage, _) => (HostController { args, prelude, stage }, Err(OutOfOrder)),
        }
    }

    /// Answers a report. Where the report is that the token file is
    /// missing, the bytes of the new token are drawn from the random source
    /// first.
    pub fn advance(self, report: Report) -> (next: (HostController, Result<Step, OutOfOrder>))
        ensures
            exists|entropy: Option<Seq<u8>>|
                {
                    &&& entropy matches Some(bytes) ==> bytes.len() == TOKEN_BYTES
                    &&& #[trigger] follows(self, report, entropy, next.0, next.1)
                },
    {
        let draws = match (&self.stage, &report) {
            (Stage::TokenRead, Report::Token(TokenFile::Missing)) => true,
            _ => false,
        };
        let entropy = if draws {
            draw_entropy()
        } else {
            None
        };
        let next = self.advance_with(report, entropy);
        assert(follows(self, report, option_bytes(entropy), next.0, next.1));
        next
    }
}

/// The daemon and the window get the same token. Between the step that
/// starts the daemon and the step that builds the window lie two answers
/// of the controller; whatever the reports, the token in the daemon's
/// environment is the one that the window's script binds.
pub proof fn daemon_and_window_share_the_token(
    start: HostController,
    reports: (Report, Report, Report),
    entropy: (Option<Seq<u8>>, Option<Seq<u8>>, Option<Seq<u8>>),
    states: (HostController, HostController, HostController),
    steps: (Result<Step, OutOfOrder>, Result<Step, OutOfOrder>, Result<Step, OutOfOrder>),
)
    requires
        follows(start, reports.0, entropy.0, states.0, steps.0),
        follows(states.0, reports.1, entropy.1, states.1, steps.1),
        follows(states.1, reports.2, entropy.2, states.2, steps.2),
        steps.0 matches Ok(Step::Spawn(_)),
        steps.2 matches Ok(Step::BuildWindow(_)),
    ensures
        exists|token: Seq<char>|
            {
                &&& (#[trigger] command_of(&start.args, token)) == steps.0->Ok_0->Spawn_0@
                &&& steps.2->Ok_0->BuildWindow_0@.script == crate::host::script_of(
                    start.prelude@,
                    token,
                    crate::option_text(start.args.version_string),
                )
            },
{
    let token = match states.0.stage {
        Stage::Spawn { token, .. } => token@,
        _ => Seq::empty(),
    };
    assert(states.0.stage is Spawn);
    assert(states.1.stage is Logs);
    assert(command_of(&start.args, token) == steps.0->Ok_0->Spawn_0@);
}

/// A session that has ended stays ended: every further report is refused,
/// so the daemon is never asked to end a second time.
pub proof fn nothing_follows_the_exit(
    before: HostController,
    report: Report,
    entropy: Option<Seq<u8>>,
    after: HostController,
    step: Result<Step, OutOfOrder>,
)
    requires
        before.stage is Exited,
        follows(before, report, entropy, after, step),
    ensures
        after.stage is Exited,
        step is Err,
{
}

} // verus!
