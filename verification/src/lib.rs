//! The host of the wallet's user interface: it decides what the loader
//! does around the window, the asset server and the wallet daemon, and
//! leaves the doing to its caller.

use vstd::prelude::*;

pub mod action;
pub mod controller;
pub mod daemon;
pub mod failure;
pub mod host;
pub mod ipc;
pub mod json;
pub mod scale;
pub mod server;
pub mod text;
pub mod token;

verus! {

/// How the loader was started.
#[derive(Clone, Debug, PartialEq, Eq)]
pub struct Args {
    /// Listen for the user interface on `http://localhost:<port>`.
    pub dev_port: Option<u32>,
    /// Path to the compiled user interface.
    pub html_path: Option<String>,
    /// Path to the wallet daemon.
    pub melwalletd_path: String,
    /// Path to persistent data such as cookies and storage.
    pub data_path: String,
    /// Path to the wallets.
    pub wallet_path: String,
    /// Version string to expose to the loaded scripts.
    pub version_string: Option<String>,
    /// Whether the developer tools open with the window.
    pub debug_window_open: bool,
}

/// The directory that stands for `path`: `path` itself unless it is empty,
/// and else the directory `name` under the user's local data directory,
/// if the user has one.
pub open spec fn directory_or_default(path: Seq<char>, local: Option<Seq<char>>, name: Seq<char>) -> Option<
    Seq<char>,
> {
    if path.len() > 0 {
        Some(path)
    } else {
        match local {
            Some(base) => Some(text::joined(base, name)),
            None => None,
        }
    }
}

/// Asks `dirs::data_local_dir` for the user's local data directory. The
/// answer depends on the environment, so nothing is claimed of it; a path
/// that is not valid Unicode counts as none.
#[verifier::external_body]
fn local_data_dir() -> (dir: Option<String>) {
    dirs::data_local_dir().and_then(|path| path.into_os_string().into_string().ok())
}

fn directory_or(path: String, local: &Option<String>, name: &str) -> (directory: Option<String>)
    ensures
        option_text(directory) == directory_or_default(path@, option_text(*local), name@),
        path@.len() > 0 ==> directory == Some(path),
{
    if !path.as_str().is_empty() {
        Some(path)
    } else {
        match local {
            Some(base) => Some(text::join_path(base.as_str(), name)),
            None => None,
        }
    }
}

impl Args {
    /// Fills in the directories that the configuration leaves empty: wallets
    /// go to `themelio-wallets` and data to `themelio-wallet-gui-data`, both
    /// under `local`, the user's local data directory. Where a directory is
    /// left empty and there is no local data directory, there is no answer.
    /// Nothing else changes.
    pub fn with_default_dirs(self, local: &Option<String>) -> (resolved: Option<Args>)
        ensures
            match resolved {
                Some(args) => {
                    &&& Some(args.wallet_path@) == directory_or_default(
                        self.wallet_path@,
                        option_text(*local),
                        "themelio-wallets"@,
                    )
                    &&& Some(args.data_path@) == directory_or_default(
                        self.data_path@,
                        option_text(*local),
                        "themelio-wallet-gui-data"@,
                    )
                    &&& args.dev_port == self.dev_port
                    &&& args.html_path == self.html_path
                    &&& args.melwalletd_path == self.melwalletd_path
                    &&& args.version_string == self.version_string
                    &&& args.debug_window_open == self.debug_window_open
                },
                None => {
                    ||| directory_or_default(self.wallet_path@, option_text(*local), "themelio-wallets"@)
                        is None
                    ||| directory_or_default(self.data_path@, option_text(*local), "themelio-wallet-gui-data"@)
                        is None
                },
            },
            self.wallet_path@.len() > 0 && self.data_path@.len() > 0 ==> resolved == Some(self),
    {
        let Args {
            dev_port,
            html_path,
            melwalletd_path,
            data_path,
            wallet_path,
            version_string,
            debug_window_open,
        } = self;
        let wallet_path = match directory_or(wallet_path, local, "themelio-wallets") {
            Some(path) => path,
            None => {
                return None;
            },
        };
        let data_path = match directory_or(data_path, local, "themelio-wallet-gui-data") {
            Some(path) => path,
            None => {
                return None;
            },
        };
        Some(
            Args {
                dev_port,
                html_path,
                melwalletd_path,
                data_path,
                wallet_path,
                version_string,
                debug_window_open,
            },
        )
    }

    /// Fills in the directories that the configuration leaves empty from
    /// the user's local data directory, as [`Args::with_default_dirs`] does.
    /// A configuration that names both directories comes back as it is.
    pub fn resolve_dirs(self) -> (resolved: Option<Args>)
        ensures
            self.wallet_path@.len() > 0 && self.data_path@.len() > 0 ==> resolved == Some(self),
            resolved matches Some(args) ==> {
                &&& exists|local: Option<Seq<char>>|
                    {
                        &&& Some(args.wallet_path@) == #[trigger] directory_or_default(
                            self.wallet_path@,
                            local,
                            "themelio-wallets"@,
                        )
                        &&& Some(args.data_path@) == directory_or_default(
                            self.data_path@,
                            local,
                            "themelio-wallet-gui-data"@,
                        )
                    }
                &&& args.dev_port == self.dev_port
                &&& args.html_path == self.html_path
                &&& args.melwalletd_path == self.melwalletd_path
                &&& args.version_string == self.version_string
                &&& args.debug_window_open == self.debug_window_open
            },
    {
        let local = local_data_dir();
        self.with_default_dirs(&local)
    }
}

/// The content of an optional text.
pub open spec fn option_text(text: Option<String>) -> Option<Seq<char>> {
    match text {
        Some(t) => Some(t@),
        None => None,
    }
}

} // verus!
