//! The fixture once its node is ready: how to reach the node, and the way
//! from `Ready` to `Stopped` or `Dropped`.

use crate::config::{Config, ConfigView, P2P};
use crate::error::LaunchError;
use crate::launch::Launch;
use crate::protocol::{view_of, Reply, Request, RequestView};
use vstd::prelude::*;

verus! {

/// Where a fixture stands between the end of its launch and its end.
#[derive(Clone, Copy, Debug, PartialEq, Eq, Structural)]
pub enum Phase {
    /// The node runs and answers requests.
    Ready,
    /// The node is being asked to shut down.
    Stopping,
    /// The node has agreed to shut down and its exit is awaited.
    Exiting,
    /// The node was shut down at the caller's wish.
    Stopped,
    /// The fixture was discarded: its process was killed and its directory
    /// removed.
    Dropped,
}

/// What is to be destroyed when a fixture, or a launch that failed, ends.
#[derive(Clone, Copy, Debug, PartialEq, Eq, Structural)]
pub struct Teardown {
    /// Kill the child process; a process that has exited already is no fault.
    pub kill: bool,
    /// Remove the working directory with all that is in it.
    pub remove_dir: bool,
}

/// Struct representing the bitcoind process with related information.
#[derive(Debug)]
pub struct BitcoinD {
    config: Config,
    phase: Phase,
}

/// What a [`BitcoinD`] holds.
pub struct BitcoinDView {
    pub config: ConfigView,
    pub phase: Phase,
}

/// The fixture after the caller has asked for the node to be stopped: a
/// fixture that is not `Ready` stays as it is.
pub open spec fn stop_begin(s: BitcoinDView) -> BitcoinDView {
    if s.phase is Ready {
        BitcoinDView { phase: Phase::Stopping, ..s }
    } else {
        s
    }
}

/// The fixture after `reply` has come in. A node that refuses to shut down
/// goes on running; one that agreed counts as stopped whether or not its exit
/// could be awaited. A reply that answers no request changes nothing.
pub open spec fn stop_next(s: BitcoinDView, reply: Reply) -> BitcoinDView {
    match s.phase {
        Phase::Stopping => match reply {
            Reply::Done => BitcoinDView { phase: Phase::Exiting, ..s },
            Reply::Io(_) | Reply::Rpc(_) => BitcoinDView { phase: Phase::Ready, ..s },
            _ => s,
        },
        Phase::Exiting => match reply {
            Reply::Done | Reply::Io(_) | Reply::Rpc(_) => BitcoinDView {
                phase: Phase::Stopped,
                ..s
            },
            _ => s,
        },
        _ => s,
    }
}

/// What the driver of the fixture has to do next, if anything.
pub open spec fn stop_pending(s: BitcoinDView) -> Option<RequestView> {
    match s.phase {
        Phase::Stopping => Some(RequestView::Stop),
        Phase::Exiting => Some(RequestView::Wait),
        _ => None,
    }
}

/// The error that `reply` ends the stop with, if it ends it with one.
pub open spec fn stop_failure(s: BitcoinDView, reply: Reply) -> Option<LaunchError> {
    if s.phase is Stopping || s.phase is Exiting {
        match reply {
            Reply::Io(e) => Some(LaunchError::Io(e)),
            Reply::Rpc(e) => Some(LaunchError::Rpc(e)),
            _ => None,
        }
    } else {
        None
    }
}

/// The fixture after it was discarded.
pub open spec fn discarded(s: BitcoinDView) -> BitcoinDView {
    BitcoinDView { phase: Phase::Dropped, ..s }
}

/// What discarding the fixture destroys: the process and the directory, and
/// nothing the second time.
pub open spec fn teardown_of(s: BitcoinDView) -> Teardown {
    if s.phase is Dropped {
        Teardown { kill: false, remove_dir: false }
    } else {
        Teardown { kill: true, remove_dir: true }
    }
}

impl View for BitcoinD {
    type V = BitcoinDView;

    closed spec fn view(&self) -> BitcoinDView {
        BitcoinDView { config: self.config@, phase: self.phase }
    }
}

impl BitcoinD {
    #[verifier::type_invariant]
    spec fn inv(self) -> bool {
        self.config@.wf()
    }

    /// A launch with the default arguments, a silent node and no peers.
    pub fn new() -> (launch: Launch)
        ensures
            launch@ == crate::launch::begin(crate::launch::default_args(), false, P2P::No),
    {
        Launch::begin(crate::launch::default_argv(), false, P2P::No)
    }

    /// A launch of a node with the arguments `args` after those that the
    /// fixture sets itself. `args` must not set `-datadir`, `-rpcport`,
    /// `-port`, `-connect` or `-listen` again; this is not checked.
    /// With `view_stdout` the node's output is shown, else it is discarded.
    pub fn with_args(args: Vec<String>, view_stdout: bool, p2p: P2P) -> (launch: Launch)
        ensures
            launch@ == crate::launch::begin(args.deep_view(), view_stdout, p2p),
    {
        Launch::begin(args, view_stdout, p2p)
    }

    /// The fixture of a node that has just become ready.
    pub(crate) fn ready(config: Config) -> (node: BitcoinD)
        requires
            config@.wf(),
        ensures
            node@ == (BitcoinDView { config: config@, phase: Phase::Ready }),
    {
        BitcoinD { config, phase: Phase::Ready }
    }

    /// Node configuration, contains information to connect to this node.
    pub fn config(&self) -> (config: &Config)
        ensures
            config@ == self@.config,
            config@.wf(),
    {
        proof {
            use_type_invariant(self);
        }
        &self.config
    }

    /// Where the fixture stands.
    pub fn phase(&self) -> (phase: Phase)
        ensures
            phase == self@.phase,
    {
        self.phase
    }

    /// Whether requests may be sent to the node: only while the fixture is
    /// `Ready`, and so never once the node has agreed to shut down.
    pub fn accepts_rpc(&self) -> (b: bool)
        ensures
            b == (self@.phase is Ready),
    {
        match self.phase {
            Phase::Ready => true,
            _ => false,
        }
    }

    /// Returns the rpc URL including the schema eg. http://127.0.0.1:44842
    pub fn rpc_url(&self) -> (url: String)
        ensures
            url@ == self@.config.rpc_url(),
    {
        self.config.rpc_url()
    }

    /// Returns the [P2P] enum to connect to this node p2p port
    pub fn p2p_connect(&self) -> (p2p: Option<P2P>)
        ensures
            p2p == match self@.config.p2p_socket {
                Some(socket) => Some(P2P::Connect(socket)),
                None => None,
            },
    {
        self.config.p2p_connect()
    }

    /// Stop the node: begins the graceful shutdown and says what to do first.
    /// Only a fixture that is `Ready` can be stopped; any other is left as it
    /// is and refused with `NotRunning`.
    pub fn stop(&mut self) -> (r: Result<Request, LaunchError>)
        ensures
            final(self)@ == stop_begin(old(self)@),
            old(self)@.phase is Ready ==> (r matches Ok(request) && request@
                == RequestView::Stop),
            !(old(self)@.phase is Ready) ==> r == Err::<Request, LaunchError>(
                LaunchError::NotRunning,
            ),
    {
        proof {
            use_type_invariant(&*self);
        }
        match self.phase {
            Phase::Ready => {
                self.phase = Phase::Stopping;
                Ok(Request::Stop)
            },
            _ => Err(LaunchError::NotRunning),
        }
    }

    /// Takes the reply to the request that is pending and says what to do
    /// next: `Ok(None)` when nothing is left to do, and the cause as an error
    /// when the node refused to shut down or its exit could not be awaited.
    pub fn step(&mut self, reply: Reply) -> (r: Result<Option<Request>, LaunchError>)
        ensures
            final(self)@ == stop_next(old(self)@, reply),
            match stop_failure(old(self)@, reply) {
                Some(e) => r == Err::<Option<Request>, LaunchError>(e),
                None => r matches Ok(request) && view_of(request) == stop_pending(final(self)@),
            },
    {
        proof {
            use_type_invariant(&*self);
        }
        match self.phase {
            Phase::Stopping => match reply {
                Reply::Done => {
                    self.phase = Phase::Exiting;
                    Ok(Some(Request::Wait))
                },
                Reply::Io(e) => {
                    self.phase = Phase::Ready;
                    Err(LaunchError::Io(e))
                },
                Reply::Rpc(e) => {
                    self.phase = Phase::Ready;
                    Err(LaunchError::Rpc(e))
                },
                _ => Ok(Some(Request::Stop)),
            },
            Phase::Exiting => match reply {
                Reply::Done => {
                    self.phase = Phase::Stopped;
                    Ok(None)
                },
                Reply::Io(e) => {
                    self.phase = Phase::Stopped;
                    Err(LaunchError::Io(e))
                },
                Reply::Rpc(e) => {
                    self.phase = Phase::Stopped;
                    Err(LaunchError::Rpc(e))
                },
                _ => Ok(Some(Request::Wait)),
            },
            _ => Ok(None),
        }
    }

    /// Discards the fixture, in whatever phase it is, and says what is to be
    /// destroyed: the process and the directory, exactly once.
    pub fn discard(&mut self) -> (teardown: Teardown)
        ensures
            final(self)@ == discarded(old(self)@),
            teardown == teardown_of(old(self)@),
    {
        proof {
            use_type_invariant(&*self);
        }
        let teardown = match self.phase {
            Phase::Dropped => Teardown { kill: false, remove_dir: false },
            _ => Teardown { kill: true, remove_dir: true },
        };
        self.phase = Phase::Dropped;
        teardown
    }
}

/// What can happen to a fixture.
#[derive(Debug)]
pub enum Event {
    /// The caller asks for the node to be stopped.
    Stop,
    /// The driver reports how the pending request went.
    Got(Reply),
    /// The fixture is discarded.
    Discard,
}

impl BitcoinDView {
    /// The fixture after `event`.
    pub open spec fn on(self, event: Event) -> BitcoinDView {
        match event {
            Event::Stop => stop_begin(self),
            Event::Got(reply) => stop_next(self, reply),
            Event::Discard => discarded(self),
        }
    }

    /// The fixture after each of `events`, in order.
    pub open spec fn after(self, events: Seq<Event>) -> BitcoinDView
        decreases events.len(),
    {
        if events.len() == 0 {
            self
        } else {
            self.after(events.drop_last()).on(events.last())
        }
    }

    /// Whether the node has agreed to shut down, or the fixture was discarded.
    pub open spec fn is_down(self) -> bool {
        self.phase is Exiting || self.phase is Stopped || self.phase is Dropped
    }
}

/// Nothing that happens to a fixture changes how its node is reached.
pub proof fn lemma_config_is_fixed(s: BitcoinDView, events: Seq<Event>)
    ensures
        s.after(events).config == s.config,
    decreases events.len(),
{
    if events.len() > 0 {
        lemma_config_is_fixed(s, events.drop_last());
    }
}

/// Once the node has agreed to shut down, or the fixture was discarded, the
/// fixture never accepts requests to the node again, whatever happens to it.
pub proof fn lemma_no_rpc_after_stop(s: BitcoinDView, events: Seq<Event>)
    requires
        s.is_down(),
    ensures
        s.after(events).is_down(),
        !(s.after(events).phase is Ready),
    decreases events.len(),
{
    if events.len() > 0 {
        lemma_no_rpc_after_stop(s, events.drop_last());
    }
}

/// A graceful stop that goes well takes two replies and ends in `Stopped`,
/// with nothing left to do.
pub proof fn lemma_graceful_stop(s: BitcoinDView)
    requires
        s.phase is Ready,
    ensures
        stop_pending(stop_begin(s)) == Some(RequestView::Stop),
        stop_pending(stop_next(stop_begin(s), Reply::Done)) == Some(RequestView::Wait),
        stop_next(stop_next(stop_begin(s), Reply::Done), Reply::Done) == (BitcoinDView {
            phase: Phase::Stopped,
            ..s
        }),
        stop_pending(stop_next(stop_next(stop_begin(s), Reply::Done), Reply::Done)) is None,
{
}

/// Discarding a fixture, in whatever phase, asks for its process to be killed
/// and its directory to be removed, unless that was asked before; after that
/// the fixture stays discarded and asks for nothing more to be destroyed.
pub proof fn lemma_discard_once(s: BitcoinDView, events: Seq<Event>)
    ensures
        !(s.phase is Dropped) ==> teardown_of(s) == (Teardown { kill: true, remove_dir: true }),
        discarded(s).after(events) == discarded(s),
        teardown_of(discarded(s).after(events)) == (Teardown { kill: false, remove_dir: false }),
        stop_pending(discarded(s).after(events)) is None,
    decreases events.len(),
{
    if events.len() > 0 {
        lemma_discard_once(s, events.drop_last());
    }
}

} // verus!
