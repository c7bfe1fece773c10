//! Messages from the user interface to the host.
//!
//! A message is one JSON object. Its member `_event` selects the request;
//! names are written in kebab-case throughout:
//!
//! | `_event`        | other members                          |
//! |-----------------|----------------------------------------|
//! | `resize`        | `conversion-factor`: number            |
//! | `download-logs` |                                        |
//! | `log-event`     | `level`: level name, `message`: string |
//! | `open-browser`  | `url`: string                          |
//!
//! Level names are `log`, `debug`, `info`, `warn` and `error`. Members that
//! a request does not name are ignored. Every other text is an unknown
//! request, which asks for nothing.

use vstd::prelude::*;
use crate::Args;
use crate::action::{
    ActionView, ExportRequest, ExportRequestView, HostAction, HostModel, LogSink, actions_view, perform_all,
};
use crate::json::{
    JsonMember, JsonMemberView, JsonValue, JsonValueView, document_view, object_members, parse_object,
};
use crate::scale::Factor;
use crate::text::{join_path, joined};

verus! {

/// Width of the window at conversion factor one.
pub const BASE_WIDTH: u32 = 390;

/// Height of the window at conversion factor one.
pub const BASE_HEIGHT: u32 = 600;

/// Severity of a diagnostic line reported by the user interface.
#[derive(Clone, Copy, Debug, PartialEq, Eq, Structural)]
pub enum LogLevel {
    Log,
    Debug,
    Info,
    Warn,
    Error,
}

/// A request of the user interface.
#[derive(Clone, Debug, PartialEq, Eq)]
pub enum IPCRequest {
    SetConversionFactor { conversion_factor: Factor },
    DownloadLogs,
    LogEvent { level: LogLevel, message: String },
    OpenBrowser { url: String },
    Unknown(String),
}

/// The mathematical content of an [`IPCRequest`].
pub enum RequestView {
    SetConversionFactor { conversion_factor: Factor },
    DownloadLogs,
    LogEvent { level: LogLevel, message: Seq<char> },
    OpenBrowser { url: Seq<char> },
    Unknown(Seq<char>),
}

impl View for IPCRequest {
    type V = RequestView;

    open spec fn view(&self) -> RequestView {
        match *self {
            IPCRequest::SetConversionFactor { conversion_factor } => RequestView::SetConversionFactor {
                conversion_factor,
            },
            IPCRequest::DownloadLogs => RequestView::DownloadLogs,
            IPCRequest::LogEvent { level, message } => RequestView::LogEvent { level, message: message@ },
            IPCRequest::OpenBrowser { url } => RequestView::OpenBrowser { url: url@ },
            IPCRequest::Unknown(raw) => RequestView::Unknown(raw@),
        }
    }
}

/// The value of the first member of `members` that is named `key`.
pub open spec fn member(members: Seq<JsonMemberView>, key: Seq<char>) -> Option<JsonValueView>
    decreases members.len(),
{
    if members.len() == 0 {
        None
    } else if members[0].key == key {
        Some(members[0].value)
    } else {
        member(members.drop_first(), key)
    }
}

/// The string that the member `key` holds, if there is such a member and
/// it holds a string.
pub open spec fn text_member(members: Seq<JsonMemberView>, key: Seq<char>) -> Option<Seq<char>> {
    match member(members, key) {
        Some(JsonValueView::Text(text)) => Some(text),
        _ => None,
    }
}

/// The finite number that the member `key` holds, if there is such a
/// member and it holds one.
pub open spec fn factor_member(members: Seq<JsonMemberView>, key: Seq<char>) -> Option<Factor> {
    match member(members, key) {
        Some(JsonValueView::Number(Some(bits))) => Factor::of_bits(bits),
        _ => None,
    }
}

impl LogLevel {
    /// The level that a level name of the wire format stands for.
    pub open spec fn named(name: Seq<char>) -> Option<LogLevel> {
        if name == "log"@ {
            Some(LogLevel::Log)
        } else if name == "debug"@ {
            Some(LogLevel::Debug)
        } else if name == "info"@ {
            Some(LogLevel::Info)
        } else if name == "warn"@ {
            Some(LogLevel::Warn)
        } else if name == "error"@ {
            Some(LogLevel::Error)
        } else {
            None
        }
    }

    /// The label under which the level appears in the log.
    pub open spec fn label(self) -> Seq<char> {
        match self {
            LogLevel::Log => "Log"@,
            LogLevel::Debug => "Debug"@,
            LogLevel::Info => "Info"@,
            LogLevel::Warn => "Warn"@,
            LogLevel::Error => "Error"@,
        }
    }

    /// Reads a level name of the wire format.
    pub fn from_name(name: &String) -> (level: Option<LogLevel>)
        ensures
            level == LogLevel::named(name@),
    {
        if is_text(name, "log") {
            Some(LogLevel::Log)
        } else if is_text(name, "debug") {
            Some(LogLevel::Debug)
        } else if is_text(name, "info") {
            Some(LogLevel::Info)
        } else if is_text(name, "warn") {
            Some(LogLevel::Warn)
        } else if is_text(name, "error") {
            Some(LogLevel::Error)
        } else {
            None
        }
    }

    /// The label under which the level appears in the log.
    pub fn as_label(&self) -> (label: &'static str)
        ensures
            label@ == self.label(),
    {
        match self {
            LogLevel::Log => "Log",
            LogLevel::Debug => "Debug",
            LogLevel::Info => "Info",
            LogLevel::Warn => "Warn",
            LogLevel::Error => "Error",
        }
    }
}

/// Whether `text` reads exactly as `literal`.
fn is_text(text: &String, literal: &str) -> (same: bool)
    ensures
        same == (text@ == literal@),
{
    let other = literal.to_owned();
    *text == other
}

/// Finds the first member of `members` that is named `key`.
fn find_member<'a>(members: &'a Vec<JsonMember>, key: &str) -> (found: Option<&'a JsonValue>)
    ensures
        match found {
            Some(value) => member(members@.map_values(|m: JsonMember| m@), key@) == Some(value@),
            None => member(members@.map_values(|m: JsonMember| m@), key@) is None,
        },
{
    let ghost all = members@.map_values(|m: JsonMember| m@);
    let wanted = key.to_owned();
    let mut i: usize = 0;
    assert(all.skip(0) == all);
    while i < members.len()
        invariant
            i <= members.len(),
            wanted@ == key@,
            all == members@.map_values(|m: JsonMember| m@),
            member(all, key@) == member(all.skip(i as int), key@),
        decreases members.len() - i,
    {
        assert(all.skip(i as int)[0] == members@[i as int]@);
        if members[i].key == wanted {
            return Some(&members[i].value);
        }
        assert(all.skip(i as int).drop_first() == all.skip(i + 1));
        i = i + 1;
    }
    None
}

/// The request that a message stands for, given what the JSON parser made
/// of it: `members` holds the members of the object that `raw` spells, or
/// `None` where `raw` spells none.
///
/// A text that is no object, an object without a string `_event`, an
/// `_event` that names no request, and a request whose own members are
/// missing or of the wrong kind all give `Unknown(raw)`.
pub open spec fn decoded(raw: Seq<char>, members: Option<Seq<JsonMemberView>>) -> RequestView {
    match members {
        None => RequestView::Unknown(raw),
        Some(members) => match text_member(members, "_event"@) {
            None => RequestView::Unknown(raw),
            Some(event) => if event == "resize"@ {
                match factor_member(members, "conversion-factor"@) {
                    Some(conversion_factor) => RequestView::SetConversionFactor { conversion_factor },
                    None => RequestView::Unknown(raw),
                }
            } else if event == "download-logs"@ {
                RequestView::DownloadLogs
            } else if event == "log-event"@ {
                match (text_member(members, "level"@), text_member(members, "message"@)) {
                    (Some(name), Some(message)) => match LogLevel::named(name) {
                        Some(level) => RequestView::LogEvent { level, message },
                        None => RequestView::Unknown(raw),
                    },
                    _ => RequestView::Unknown(raw),
                }
            } else if event == "open-browser"@ {
                match text_member(members, "url"@) {
                    Some(url) => RequestView::OpenBrowser { url },
                    None => RequestView::Unknown(raw),
                }
            } else {
                RequestView::Unknown(raw)
            },
        },
    }
}

/// Finds the string that the member `key` holds.
fn find_text<'a>(members: &'a Vec<JsonMember>, key: &str) -> (found: Option<&'a String>)
    ensures
        match found {
            Some(text) => text_member(members@.map_values(|m: JsonMember| m@), key@) == Some(text@),
            None => text_member(members@.map_values(|m: JsonMember| m@), key@) is None,
        },
{
    match find_member(members, key) {
        Some(JsonValue::Text(text)) => Some(text),
        _ => None,
    }
}

/// Finds the finite number that the member `key` holds.
fn find_factor(members: &Vec<JsonMember>, key: &str) -> (found: Option<Factor>)
    ensures
        found == factor_member(members@.map_values(|m: JsonMember| m@), key@),
{
    match find_member(members, key) {
        Some(JsonValue::Number(Some(bits))) => Factor::from_bits(*bits),
        _ => None,
    }
}

/// The files behind the two logs of a session.
#[derive(Clone, Debug, PartialEq, Eq)]
pub struct IPCContext {
    pub ginkou_logs_path: String,
    pub melwalletd_logs_path: String,
}

impl IPCContext {
    /// Names the log files of a session: `ginkou.log` and `melwalletd.log`
    /// in the data directory. Creating them is left to the caller.
    pub fn from_args(args: Args) -> (context: IPCContext)
        ensures
            context.ginkou_logs_path@ == joined(args.data_path@, "ginkou.log"@),
            context.melwalletd_logs_path@ == joined(args.data_path@, "melwalletd.log"@),
    {
        IPCContext::in_directory(args.data_path.as_str())
    }

    /// Names the log files of a session in the data directory `data_path`.
    pub fn in_directory(data_path: &str) -> (context: IPCContext)
        ensures
            context.ginkou_logs_path@ == joined(data_path@, "ginkou.log"@),
            context.melwalletd_logs_path@ == joined(data_path@, "melwalletd.log"@),
    {
        IPCContext {
            ginkou_logs_path: join_path(data_path, "ginkou.log"),
            melwalletd_logs_path: join_path(data_path, "melwalletd.log"),
        }
    }

    /// The request to export the logs of this session.
    pub open spec fn export_request(&self) -> ExportRequestView {
        ExportRequestView {
            start: "~/"@,
            melwalletd_log: self.melwalletd_logs_path@,
            ginkou_log: self.ginkou_logs_path@,
        }
    }
}

/// The line that a log event adds to the log: label, colon, space, the
/// message as it came, and a line feed.
pub open spec fn log_line(level: LogLevel, message: Seq<char>) -> Seq<char> {
    level.label() + ": "@ + message + "\n"@
}

/// What the host does for a request, first to last.
///
/// A conversion factor scales the base size of the window and then locks
/// the size against the user. An unknown request asks for nothing.
pub open spec fn planned(context: &IPCContext, request: RequestView) -> Seq<ActionView> {
    match request {
        RequestView::SetConversionFactor { conversion_factor } => seq![
            ActionView::SetInnerSize {
                width: conversion_factor.scaled(BASE_WIDTH),
                height: conversion_factor.scaled(BASE_HEIGHT),
            },
            ActionView::SetResizable(false),
        ],
        RequestView::DownloadLogs => seq![ActionView::ExportLogs(context.export_request())],
        RequestView::LogEvent { level, message } => seq![
            ActionView::AppendLog { sink: LogSink::Ui, line: log_line(level, message) },
        ],
        RequestView::OpenBrowser { url } => seq![ActionView::OpenUrl(url)],
        RequestView::Unknown(_) => seq![],
    }
}

impl IPCRequest {
    /// Reads a request from a message and from what the JSON parser made
    /// of that message.
    pub fn from_document(request: String, document: Option<Vec<JsonMember>>) -> (decoded_request: IPCRequest)
        ensures
            decoded_request@ == decoded(request@, document_view(document)),
    {
        let members = match document {
            Some(members) => members,
            None => {
                return IPCRequest::Unknown(request);
            },
        };
        let event = match find_text(&members, "_event") {
            Some(event) => event,
            None => {
                return IPCRequest::Unknown(request);
            },
        };
        if is_text(event, "resize") {
            match find_factor(&members, "conversion-factor") {
                Some(conversion_factor) => IPCRequest::SetConversionFactor { conversion_factor },
                None => IPCRequest::Unknown(request),
            }
        } else if is_text(event, "download-logs") {
            IPCRequest::DownloadLogs
        } else if is_text(event, "log-event") {
            let level = match find_text(&members, "level") {
                Some(name) => LogLevel::from_name(name),
                None => None,
            };
            match (level, find_text(&members, "message")) {
                (Some(level), Some(message)) => IPCRequest::LogEvent { level, message: message.clone() },
                _ => IPCRequest::Unknown(request),
            }
        } else if is_text(event, "open-browser") {
            match find_text(&members, "url") {
                Some(url) => IPCRequest::OpenBrowser { url: url.clone() },
                None => IPCRequest::Unknown(request),
            }
        } else {
            IPCRequest::Unknown(request)
        }
    }

    /// Reads a request from a message. Whatever the message, a request
    /// comes back: what cannot be read is `Unknown`.
    pub fn decode(request: String) -> (decoded_request: IPCRequest)
        ensures
            decoded_request@ == decoded(request@, object_members(request@)),
    {
        let document = parse_object(request.as_str());
        IPCRequest::from_document(request, document)
    }

    /// What the host does for this request, first to last.
    pub fn actions(&self, context: &IPCContext) -> (actions: Vec<HostAction>)
        ensures
            actions_view(actions@) == planned(context, self@),
    {
        let mut actions: Vec<HostAction> = Vec::new();
        match self {
            IPCRequest::SetConversionFactor { conversion_factor } => {
                actions.push(
                    HostAction::SetInnerSize {
                        width: conversion_factor.scale(BASE_WIDTH),
                        height: conversion_factor.scale(BASE_HEIGHT),
                    },
                );
                actions.push(HostAction::SetResizable(false));
            },
            IPCRequest::DownloadLogs => {
                actions.push(
                    HostAction::ExportLogs(
                        ExportRequest {
                            start: "~/".to_owned(),
                            melwalletd_log: context.melwalletd_logs_path.clone(),
                            ginkou_log: context.ginkou_logs_path.clone(),
                        },
                    ),
                );
            },
            IPCRequest::LogEvent { level, message } => {
                let mut line = level.as_label().to_owned();
                line.append(": ");
                line.append(message.as_str());
                line.append("\n");
                actions.push(HostAction::AppendLog { sink: LogSink::Ui, line });
            },
            IPCRequest::OpenBrowser { url } => {
                actions.push(HostAction::OpenUrl(url.clone()));
            },
            IPCRequest::Unknown(_) => {},
        }
        assert(actions_view(actions@) =~= planned(context, self@));
        actions
    }

    /// Handles one message of the user interface: reads the request and
    /// answers with what the host does for it, first to last.
    ///
    /// No message is an error. One that cannot be read asks for nothing.
    pub fn handler_with_context(context: &IPCContext, request: String) -> (actions: Vec<HostAction>)
        ensures
            actions_view(actions@) == planned(context, decoded(request@, object_members(request@))),
    {
        let decoded_request = IPCRequest::decode(request);
        decoded_request.actions(context)
    }
}

/// Whatever state the host is in, a conversion factor gives the window
/// exactly the base size times the factor, 390 by 600 at factor one, and
/// leaves it locked against resizing by the user. Nothing else changes.
pub proof fn resize_scales_and_locks(context: &IPCContext, factor: Factor, before: HostModel)
    ensures
        perform_all(before, planned(context, RequestView::SetConversionFactor { conversion_factor: factor }))
            == (HostModel {
            width: factor.scaled(390),
            height: factor.scaled(600),
            resizable: false,
            ..before
        }),
        factor.scaled(390).mantissa == 390 * factor.mantissa,
        factor.scaled(600).mantissa == 600 * factor.mantissa,
        factor.is_positive() ==> !factor.scaled(390).negative && !factor.scaled(600).negative,
{
    let actions = planned(context, RequestView::SetConversionFactor { conversion_factor: factor });
    reveal_with_fuel(perform_all, 3);
    assert(actions.drop_first().len() == 1);
    assert(actions.drop_first().drop_first().len() == 0);
}

/// A message that is no JSON object, and one whose `_event` is missing, is
/// no string or names no request, is an unknown request.
pub proof fn unreadable_is_unknown(raw: Seq<char>, members: Option<Seq<JsonMemberView>>)
    requires
        match members {
            None => true,
            Some(members) => match text_member(members, "_event"@) {
                None => true,
                Some(event) => event != "resize"@ && event != "download-logs"@ && event != "log-event"@
                    && event != "open-browser"@,
            },
        },
    ensures
        decoded(raw, members) == RequestView::Unknown(raw),
{
}

/// An unknown request asks for nothing: whatever state the host is in,
/// window, logs and daemon are afterwards as they were.
pub proof fn unknown_changes_nothing(
    context: &IPCContext,
    raw: Seq<char>,
    members: Option<Seq<JsonMemberView>>,
    before: HostModel,
)
    requires
        decoded(raw, members) is Unknown,
    ensures
        planned(context, decoded(raw, members)).len() == 0,
        perform_all(before, planned(context, decoded(raw, members))) == before,
{
}

} // verus!
