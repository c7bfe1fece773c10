//! What the window is built with.

use vstd::prelude::*;
use crate::Args;
use crate::ipc::{BASE_HEIGHT, BASE_WIDTH};
use crate::server::ServedAddress;

verus! {

/// How `text` reads as a quoted string: the text between double quotes,
/// with escapes where a character cannot stand for itself.
pub uninterp spec fn quoted_text(text: Seq<char>) -> Seq<char>;

/// Quotes `text` as the standard library's `Debug` formatting of strings
/// does. The contract claims no more than that the outcome is a function
/// of the text.
#[verifier::external_body]
fn quoted(text: &str) -> (literal: String)
    ensures
        literal@ == quoted_text(text@),
{
    format!("{:?}", text)
}

/// The script that runs in the window before any script of the page: the
/// given prelude, then the token bound to `window.MELWALLETD_AUTH_TOKEN`,
/// then the version, or `null` where there is none, bound to
/// `window.VERSION`.
pub open spec fn script_of(prelude: Seq<char>, token: Seq<char>, version: Option<Seq<char>>) -> Seq<char> {
    prelude + "\nwindow.MELWALLETD_AUTH_TOKEN="@ + quoted_text(token) + "\nwindow.VERSION="@ + match version {
        Some(v) => quoted_text(v),
        None => "null"@,
    }
}

/// Writes the script that runs in the window before any script of the
/// page.
pub fn bootstrap_script(prelude: &str, token: &str, version: &Option<String>) -> (script: String)
    ensures
        script@ == script_of(prelude@, token@, crate::option_text(*version)),
{
    let mut script = prelude.to_owned();
    script.append("\nwindow.MELWALLETD_AUTH_TOKEN=");
    let token_literal = quoted(token);
    script.append(token_literal.as_str());
    script.append("\nwindow.VERSION=");
    match version {
        Some(v) => {
            let version_literal = quoted(v.as_str());
            script.append(version_literal.as_str());
        },
        None => {
            script.append("null");
        },
    }
    script
}

/// What the window is built with.
#[derive(Clone, Debug, PartialEq, Eq)]
pub struct WindowConfig {
    pub title: String,
    pub width: u32,
    pub height: u32,
    pub resizable: bool,
    /// The page to load.
    pub url: String,
    /// Where the web view keeps cookies and storage.
    pub data_directory: String,
    /// Whether developer tools are available.
    pub devtools: bool,
    /// Whether developer tools open with the window.
    pub open_devtools: bool,
    /// The script that runs before any script of the page.
    pub script: String,
}

/// The mathematical content of a [`WindowConfig`].
pub struct WindowConfigView {
    pub title: Seq<char>,
    pub width: u32,
    pub height: u32,
    pub resizable: bool,
    pub url: Seq<char>,
    pub data_directory: Seq<char>,
    pub devtools: bool,
    pub open_devtools: bool,
    pub script: Seq<char>,
}

impl View for WindowConfig {
    type V = WindowConfigView;

    open spec fn view(&self) -> WindowConfigView {
        WindowConfigView {
            title: self.title@,
            width: self.width,
            height: self.height,
            resizable: self.resizable,
            url: self.url@,
            data_directory: self.data_directory@,
            devtools: self.devtools,
            open_devtools: self.open_devtools,
            script: self.script@,
        }
    }
}

/// The window of a session: titled `Mellis`, at the base size and
/// resizable until the user interface says otherwise, loading `index.html`
/// from the served address, with developer tools at hand, and with the
/// bootstrap script that binds `token`.
pub open spec fn window_of(
    args: &Args,
    token: Seq<char>,
    address: Seq<char>,
    prelude: Seq<char>,
) -> WindowConfigView {
    WindowConfigView {
        title: "Mellis"@,
        width: BASE_WIDTH,
        height: BASE_HEIGHT,
        resizable: true,
        url: address + "/index.html"@,
        data_directory: args.data_path@,
        devtools: true,
        open_devtools: args.debug_window_open,
        script: script_of(prelude, token, crate::option_text(args.version_string)),
    }
}

impl WindowConfig {
    /// Plans the window of a session.
    pub fn new(args: &Args, token: &str, served: &ServedAddress, prelude: &str) -> (window: WindowConfig)
        ensures
            window@ == window_of(args, token@, served.address@, prelude@),
    {
        WindowConfig {
            title: "Mellis".to_owned(),
            width: BASE_WIDTH,
            height: BASE_HEIGHT,
            resizable: true,
            url: served.index_url(),
            data_directory: args.data_path.clone(),
            devtools: true,
            open_devtools: args.debug_window_open,
            script: bootstrap_script(prelude, token, &args.version_string),
        }
    }
}

/// What the window tells the event loop.
#[derive(Clone, Copy, Debug, PartialEq, Eq, Structural)]
pub enum WindowEvent {
    /// The event loop has started.
    Started,
    /// The user asks to close the window.
    CloseRequested,
    /// The window wants to be drawn again.
    RedrawRequested,
    /// Anything else.
    Other,
}

} // verus!
