//! Where the window finds the user interface.
//!
//! Either somebody else serves it, on a port of this machine that the
//! configuration names, or the host serves a directory itself on a fixed
//! loopback port. In both cases the address is settled before the window
//! is built: the window loads `index.html` from it.

use vstd::prelude::*;
use crate::Args;
use crate::text::{decimal, push_decimal};

verus! {

/// How the user interface gets served.
#[derive(Clone, Debug, PartialEq, Eq)]
pub enum AssetSource {
    /// It is served already, at this address; the host serves nothing.
    External(String),
    /// The host serves `directory` from a listener bound to `bind`.
    Local { directory: String, bind: String },
}

/// What became of the host's own listener.
#[derive(Clone, Debug, PartialEq, Eq)]
pub enum Listener {
    /// It accepts connections at this address.
    Bound(String),
    /// The port could not be bound.
    PortUnavailable,
    /// The directory to serve does not exist.
    DirectoryMissing,
}

/// Why the user interface cannot be served.
#[derive(Clone, Copy, Debug, PartialEq, Eq, Structural)]
pub enum BindError {
    PortUnavailable,
    DirectoryMissing,
}

/// The address at which the user interface is reachable.
#[derive(Clone, Debug, PartialEq, Eq)]
pub struct ServedAddress {
    pub address: String,
}

/// The mathematical content of an [`AssetSource`].
pub enum AssetSourceView {
    External(Seq<char>),
    Local { directory: Seq<char>, bind: Seq<char> },
}

/// The mathematical content of a [`Listener`].
pub enum ListenerView {
    Bound(Seq<char>),
    PortUnavailable,
    DirectoryMissing,
}

impl View for AssetSource {
    type V = AssetSourceView;

    open spec fn view(&self) -> AssetSourceView {
        match *self {
            AssetSource::External(address) => AssetSourceView::External(address@),
            AssetSource::Local { directory, bind } => AssetSourceView::Local {
                directory: directory@,
                bind: bind@,
            },
        }
    }
}

impl View for Listener {
    type V = ListenerView;

    open spec fn view(&self) -> ListenerView {
        match *self {
            Listener::Bound(address) => ListenerView::Bound(address@),
            Listener::PortUnavailable => ListenerView::PortUnavailable,
            Listener::DirectoryMissing => ListenerView::DirectoryMissing,
        }
    }
}

/// The source that a configuration asks for: a development port wins over
/// a directory, and with neither there is nothing to serve.
pub open spec fn source_of(dev_port: Option<u32>, html_path: Option<Seq<char>>) -> Result<
    AssetSourceView,
    BindError,
> {
    match dev_port {
        Some(port) => Ok(AssetSourceView::External("http://localhost:"@ + decimal(port as nat))),
        None => match html_path {
            Some(directory) => Ok(AssetSourceView::Local { directory, bind: "127.0.0.1:9117"@ }),
            None => Err(BindError::DirectoryMissing),
        },
    }
}

/// The address that a source ends up at. An external address stands as it
/// is, whatever the listener says; a local one is the address that the
/// listener reports once it is bound.
pub open spec fn address_of(source: AssetSourceView, listener: ListenerView) -> Result<Seq<char>, BindError> {
    match source {
        AssetSourceView::External(address) => Ok(address),
        AssetSourceView::Local { .. } => match listener {
            ListenerView::Bound(address) => Ok(address),
            ListenerView::PortUnavailable => Err(BindError::PortUnavailable),
            ListenerView::DirectoryMissing => Err(BindError::DirectoryMissing),
        },
    }
}

impl Listener {
    /// Where the listener accepts connections, or why it does not.
    pub fn address(self) -> (address: Result<ServedAddress, BindError>)
        ensures
            match address {
                Ok(served) => self@ == ListenerView::Bound(served.address@),
                Err(BindError::PortUnavailable) => self@ is PortUnavailable,
                Err(BindError::DirectoryMissing) => self@ is DirectoryMissing,
            },
    {
        match self {
            Listener::Bound(address) => Ok(ServedAddress { address }),
            Listener::PortUnavailable => Err(BindError::PortUnavailable),
            Listener::DirectoryMissing => Err(BindError::DirectoryMissing),
        }
    }
}

impl AssetSource {
    /// Decides from the configuration how the user interface gets served.
    pub fn from_args(args: &Args) -> (source: Result<AssetSource, BindError>)
        ensures
            match source {
                Ok(s) => source_of(args.dev_port, crate::option_text(args.html_path)) == Ok::<
                    AssetSourceView,
                    BindError,
                >(s@),
                Err(error) => source_of(args.dev_port, crate::option_text(args.html_path)) == Err::<
                    AssetSourceView,
                    BindError,
                >(error),
            },
    {
        match args.dev_port {
            Some(port) => {
                let mut address = "http://localhost:".to_owned();
                push_decimal(&mut address, port);
                Ok(AssetSource::External(address))
            },
            None => match &args.html_path {
                Some(directory) => Ok(
                    AssetSource::Local { directory: directory.clone(), bind: "127.0.0.1:9117".to_owned() },
                ),
                None => Err(BindError::DirectoryMissing),
            },
        }
    }

    /// Settles the served address. For a local source the caller starts the
    /// listener first and waits for its report; the window is not built
    /// before this function has answered.
    pub fn served(self, listener: Listener) -> (served: Result<ServedAddress, BindError>)
        ensures
            match served {
                Ok(s) => address_of(self@, listener@) == Ok::<Seq<char>, BindError>(s.address@),
                Err(error) => address_of(self@, listener@) == Err::<Seq<char>, BindError>(error),
            },
    {
        match self {
            AssetSource::External(address) => Ok(ServedAddress { address }),
            AssetSource::Local { .. } => listener.address(),
        }
    }
}

impl ServedAddress {
    /// The page that the window loads first.
    pub fn index_url(&self) -> (url: String)
        ensures
            url@ == self.address@ + "/index.html"@,
    {
        let mut url = self.address.clone();
        url.append("/index.html");
        url
    }
}

} // verus!
