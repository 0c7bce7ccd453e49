//! What a fixture asks of its driver, and what the driver answers.
//!
//! The library never touches the operating system or the network. It says
//! what is to be done next as a [`Request`]; the driver does it and reports
//! how it went as a [`Reply`].

use vstd::prelude::*;

verus! {

/// Where a stream of the child process goes.
#[derive(Clone, Copy, Debug, PartialEq, Eq, Structural)]
pub enum Stdio {
    /// To the stream of the parent.
    Inherit,
    /// Nowhere.
    Null,
    /// Into a pipe that the parent reads.
    Piped,
}

/// One thing for the driver to do.
#[derive(Debug, PartialEq, Eq)]
pub enum Request {
    /// Create a fresh, empty directory that is removed with the fixture.
    CreateWorkDir,
    /// Let the operating system pick a free port on the loopback address.
    ReservePort,
    /// Start the node with these arguments and these streams.
    Spawn { args: Vec<String>, stdout: Stdio, stderr: Stdio },
    /// Let this many milliseconds pass.
    Pause { millis: u64 },
    /// Build a client for `url` that authenticates with the cookie file.
    Connect { url: String, cookie_file: String },
    /// Ask the node, through the client built last, for its chain state.
    Probe,
    /// Ask the node, through the client built last, to create this wallet.
    CreateWallet { name: String },
    /// Ask the node, through the client of the fixture, to shut down.
    Stop,
    /// Wait until the process has exited.
    Wait,
}

/// What a [`Request`] holds, with its texts as sequences of characters.
pub enum RequestView {
    CreateWorkDir,
    ReservePort,
    Spawn { args: Seq<Seq<char>>, stdout: Stdio, stderr: Stdio },
    Pause { millis: u64 },
    Connect { url: Seq<char>, cookie_file: Seq<char> },
    Probe,
    CreateWallet { name: Seq<char> },
    Stop,
    Wait,
}

impl View for Request {
    type V = RequestView;

    open spec fn view(&self) -> RequestView {
        match *self {
            Request::CreateWorkDir => RequestView::CreateWorkDir,
            Request::ReservePort => RequestView::ReservePort,
            Request::Spawn { args, stdout, stderr } => RequestView::Spawn {
                args: args.deep_view(),
                stdout,
                stderr,
            },
            Request::Pause { millis } => RequestView::Pause { millis },
            Request::Connect { url, cookie_file } => RequestView::Connect {
                url: url@,
                cookie_file: cookie_file@,
            },
            Request::Probe => RequestView::Probe,
            Request::CreateWallet { name } => RequestView::CreateWallet { name: name@ },
            Request::Stop => RequestView::Stop,
            Request::Wait => RequestView::Wait,
        }
    }
}

/// The view of a request that may be absent.
pub open spec fn view_of(request: Option<Request>) -> Option<RequestView> {
    match request {
        Some(request) => Some(request@),
        None => None,
    }
}

/// How the last request went.
#[derive(Debug)]
pub enum Reply {
    /// It was done, and there is nothing to hand back.
    Done,
    /// The working directory was created, at this path.
    Dir(String),
    /// This port was reserved.
    Port(u16),
    /// An operating-system call failed.
    Io(std::io::Error),
    /// The node, or the client in front of it, refused.
    Rpc(bitcoincore_rpc::Error),
}

impl Reply {
    /// Whether the reply reports a failure.
    pub open spec fn is_failure(self) -> bool {
        self is Io || self is Rpc
    }
}

} // verus!
