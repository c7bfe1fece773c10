//! What the host is asked to do, and what doing it means.
//!
//! The verified code performs nothing itself. It answers with actions, the
//! caller carries them out in order, and `perform` says what each one does
//! to the state that the host owns.

use vstd::prelude::*;
use crate::scale::Extent;
use crate::text::{join_path, joined};

verus! {

/// The two append-only logs of a session.
#[derive(Clone, Copy, Debug, PartialEq, Eq, Structural)]
pub enum LogSink {
    /// Output of the wallet daemon.
    Daemon,
    /// Events reported by the user interface.
    Ui,
}

/// A request to copy both logs into a folder that the user picks.
#[derive(Clone, Debug, PartialEq, Eq)]
pub struct ExportRequest {
    /// Where the folder picker opens.
    pub start: String,
    /// The file behind the daemon's log.
    pub melwalletd_log: String,
    /// The file behind the user interface's log.
    pub ginkou_log: String,
}

/// One file to copy.
#[derive(Clone, Debug, PartialEq, Eq)]
pub struct FileCopy {
    pub from: String,
    pub to: String,
}

/// An export that the user has agreed to: a folder to create and the
/// copies to make into it, in order.
#[derive(Clone, Debug, PartialEq, Eq)]
pub struct LogExport {
    pub folder: String,
    pub copies: Vec<FileCopy>,
}

/// One thing for the caller to do.
#[derive(Clone, Debug, PartialEq, Eq)]
pub enum HostAction {
    /// Give the window this inner size.
    SetInnerSize { width: Extent, height: Extent },
    /// Let the user resize the window, or stop them.
    SetResizable(bool),
    /// Ask the user for a folder and hand the answer to
    /// [`ExportRequest::plan`].
    ExportLogs(ExportRequest),
    /// Append `line` to a log, whole and under the log's lock.
    AppendLog { sink: LogSink, line: String },
    /// Open this address in the default browser; a failure is logged and
    /// forgotten.
    OpenUrl(String),
}

/// The mathematical content of an [`ExportRequest`].
pub struct ExportRequestView {
    pub start: Seq<char>,
    pub melwalletd_log: Seq<char>,
    pub ginkou_log: Seq<char>,
}

/// The mathematical content of a [`FileCopy`].
pub struct FileCopyView {
    pub from: Seq<char>,
    pub to: Seq<char>,
}

/// The mathematical content of a [`LogExport`].
pub struct LogExportView {
    pub folder: Seq<char>,
    pub copies: Seq<FileCopyView>,
}

/// The mathematical content of a [`HostAction`].
pub enum ActionView {
    SetInnerSize { width: Extent, height: Extent },
    SetResizable(bool),
    ExportLogs(ExportRequestView),
    AppendLog { sink: LogSink, line: Seq<char> },
    OpenUrl(Seq<char>),
}

impl View for ExportRequest {
    type V = ExportRequestView;

    open spec fn view(&self) -> ExportRequestView {
        ExportRequestView {
            start: self.start@,
            melwalletd_log: self.melwalletd_log@,
            ginkou_log: self.ginkou_log@,
        }
    }
}

impl View for FileCopy {
    type V = FileCopyView;

    open spec fn view(&self) -> FileCopyView {
        FileCopyView { from: self.from@, to: self.to@ }
    }
}

impl View for LogExport {
    type V = LogExportView;

    open spec fn view(&self) -> LogExportView {
        LogExportView { folder: self.folder@, copies: self.copies@.map_values(|c: FileCopy| c@) }
    }
}

impl View for HostAction {
    type V = ActionView;

    open spec fn view(&self) -> ActionView {
        match *self {
            HostAction::SetInnerSize { width, height } => ActionView::SetInnerSize { width, height },
            HostAction::SetResizable(resizable) => ActionView::SetResizable(resizable),
            HostAction::ExportLogs(request) => ActionView::ExportLogs(request@),
            HostAction::AppendLog { sink, line } => ActionView::AppendLog { sink, line: line@ },
            HostAction::OpenUrl(url) => ActionView::OpenUrl(url@),
        }
    }
}

/// The content of a list of actions.
pub open spec fn actions_view(actions: Seq<HostAction>) -> Seq<ActionView> {
    actions.map_values(|a: HostAction| a@)
}

impl ExportRequestView {
    /// The export that follows from the picker's answer. An empty answer
    /// means that the user declined, and nothing is exported. Otherwise the
    /// logs go into a new folder `mellis_logs` inside the picked one, the
    /// daemon's first, each under its own file name.
    pub open spec fn planned(self, picked: Seq<char>) -> Option<LogExportView> {
        if picked.len() == 0 {
            None
        } else {
            Some(
                LogExportView {
                    folder: joined(picked, "mellis_logs"@),
                    copies: seq![
                        FileCopyView {
                            from: self.melwalletd_log,
                            to: joined(joined(picked, "mellis_logs"@), "melwalletd.log"@),
                        },
                        FileCopyView {
                            from: self.ginkou_log,
                            to: joined(joined(picked, "mellis_logs"@), "ginkou.log"@),
                        },
                    ],
                },
            )
        }
    }
}

impl ExportRequest {
    /// Decides what to export once the folder picker has answered with
    /// `picked`, the empty string standing for "declined".
    pub fn plan(&self, picked: &str) -> (export: Option<LogExport>)
        ensures
            match export {
                Some(e) => self@.planned(picked@) == Some(e@),
                None => self@.planned(picked@) is None,
            },
    {
        if picked.is_empty() {
            return None;
        }
        let folder = join_path(picked, "mellis_logs");
        let mut copies: Vec<FileCopy> = Vec::new();
        copies.push(
            FileCopy { from: self.melwalletd_log.clone(), to: join_path(folder.as_str(), "melwalletd.log") },
        );
        copies.push(FileCopy { from: self.ginkou_log.clone(), to: join_path(folder.as_str(), "ginkou.log") });
        let export = LogExport { folder, copies };
        assert(export@.copies =~= self@.planned(picked@)->Some_0.copies);
        Some(export)
    }
}

/// The state that the host owns and that its actions can change.
pub struct HostModel {
    /// Inner size of the window.
    pub width: Extent,
    pub height: Extent,
    /// Whether the user may resize the window.
    pub resizable: bool,
    /// Everything written to the daemon's log so far.
    pub daemon_log: Seq<char>,
    /// Everything written to the user interface's log so far.
    pub ui_log: Seq<char>,
    /// Whether the wallet daemon is still supervised.
    pub daemon_running: bool,
}

/// The host's state after one action.
///
/// An export writes only where the user points, and the browser is not the
/// host's: neither changes the state.
pub open spec fn perform(model: HostModel, action: ActionView) -> HostModel {
    match action {
        ActionView::SetInnerSize { width, height } => HostModel { width, height, ..model },
        ActionView::SetResizable(resizable) => HostModel { resizable, ..model },
        ActionView::ExportLogs(_) => model,
        ActionView::AppendLog { sink: LogSink::Daemon, line } => HostModel {
            daemon_log: model.daemon_log + line,
            ..model
        },
        ActionView::AppendLog { sink: LogSink::Ui, line } => HostModel { ui_log: model.ui_log + line, ..model },
        ActionView::OpenUrl(_) => model,
    }
}

/// The host's state after a list of actions, done first to last.
pub open spec fn perform_all(model: HostModel, actions: Seq<ActionView>) -> HostModel
    decreases actions.len(),
{
    if actions.len() == 0 {
        model
    } else {
        perform_all(perform(model, actions[0]), actions.drop_first())
    }
}

/// The text that a list of actions appends to one log, first to last.
pub open spec fn appended(actions: Seq<ActionView>, sink: LogSink) -> Seq<char>
    decreases actions.len(),
{
    if actions.len() == 0 {
        Seq::empty()
    } else {
        match actions[0] {
            ActionView::AppendLog { sink: s, line } if s == sink => line + appended(actions.drop_first(), sink),
            _ => appended(actions.drop_first(), sink),
        }
    }
}

/// Whether every action of a list appends to a log.
pub open spec fn only_appends(actions: Seq<ActionView>) -> bool {
    forall|i: int| 0 <= i < actions.len() ==> #[trigger] actions[i] is AppendLog
}

/// Appends never cut or mix up a log. However the appends to the two logs
/// follow one another, each log afterwards holds what it held before and
/// then, whole and in order, the lines appended to it, and nothing of what
/// went to the other log. Window and daemon are as they were.
///
/// This holds of appends done one at a time; that they are is what the
/// lock of each log is for.
pub proof fn appends_keep_logs_whole(before: HostModel, actions: Seq<ActionView>)
    requires
        only_appends(actions),
    ensures
        perform_all(before, actions) == (HostModel {
            daemon_log: before.daemon_log + appended(actions, LogSink::Daemon),
            ui_log: before.ui_log + appended(actions, LogSink::Ui),
            ..before
        }),
    decreases actions.len(),
{
    if actions.len() == 0 {
        assert(before.daemon_log + Seq::<char>::empty() =~= before.daemon_log);
        assert(before.ui_log + Seq::<char>::empty() =~= before.ui_log);
    } else {
        let first = actions[0];
        let rest = actions.drop_first();
        assert(first is AppendLog);
        assert forall|i: int| 0 <= i < rest.len() implies #[trigger] rest[i] is AppendLog by {
            assert(rest[i] == actions[i + 1]);
        }
        let middle = perform(before, first);
        appends_keep_logs_whole(middle, rest);
        match first {
            ActionView::AppendLog { sink, line } => {
                let to_daemon = appended(rest, LogSink::Daemon);
                let to_ui = appended(rest, LogSink::Ui);
                assert((before.daemon_log + line) + to_daemon =~= before.daemon_log + (line + to_daemon));
                assert((before.ui_log + line) + to_ui =~= before.ui_log + (line + to_ui));
            },
            _ => {},
        }
    }
}

} // verus!
