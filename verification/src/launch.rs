//! The launch of a node, from nothing to a node that answers requests.
//!
//! A launch is a state machine. Each state has one request pending, which the
//! driver carries out; the reply moves the launch on. The working directory
//! and the ports come before the process, the process before the polling, and
//! the default wallet before the client that is handed to the caller.

use crate::config::{config_of, cookie_path, peer_args, Config, P2P};
use crate::error::LaunchError;
use crate::handle::{BitcoinD, BitcoinDView, Phase, Teardown};
use crate::protocol::{view_of, Reply, Request, RequestView, Stdio};
use crate::text::{append_decimal, decimal, join_path};
use vstd::prelude::*;
use vstd::string::*;

verus! {

/// The milliseconds that pass before each poll of a node that is starting.
pub const POLL_INTERVAL_MILLIS: u64 = 500;

/// Default args, used by [`BitcoinD::new`] and useful to begin the `args` of
/// [`BitcoinD::with_args`] with.
pub const DEFAULT_ARGS: [&'static str; 2] = ["-regtest", "-fallbackfee=0.0001"];

/// What the driver of a launch is waiting for.
#[derive(Clone, Copy, Debug, PartialEq, Eq, Structural)]
pub enum Stage {
    /// The working directory.
    WorkDir,
    /// The port of the RPC interface.
    RpcPort,
    /// The port on which the node listens for peers.
    P2pPort,
    /// The start of the process.
    Spawn,
    /// The end of the pause before a poll.
    Pause,
    /// A client that authenticates with the node's cookie.
    Connect,
    /// The node's answer to the status query.
    Probe,
    /// The creation of the default wallet.
    Wallet,
    /// A client for the default wallet.
    Rebind,
    /// Nothing: the node is ready.
    Ready,
    /// Nothing: the launch has failed.
    Failed,
}

/// A launch in progress.
#[derive(Debug)]
pub struct Launch {
    args: Vec<String>,
    view_stdout: bool,
    p2p: P2P,
    budget: Option<u64>,
    at: Stage,
    datadir: String,
    rpc_port: u16,
    p2p_port: u16,
    dir_created: bool,
    spawned: bool,
    failure: Option<LaunchError>,
}

/// What a [`Launch`] holds.
pub struct LaunchView {
    /// The caller's arguments, which follow those that the fixture sets.
    pub args: Seq<Seq<char>>,
    /// Whether the node's output is shown.
    pub view_stdout: bool,
    /// The peer-to-peer mode of the node.
    pub p2p: P2P,
    /// The polls that may still be started; `None` where the caller set no
    /// limit.
    pub budget: Option<u64>,
    /// What the driver is waiting for.
    pub stage: Stage,
    /// The working directory, once it was created.
    pub datadir: Seq<char>,
    /// The port of the RPC interface, once it was reserved.
    pub rpc_port: u16,
    /// The port for peers, once it was reserved.
    pub p2p_port: u16,
    /// Whether the working directory exists.
    pub dir_created: bool,
    /// Whether the process was started.
    pub spawned: bool,
    /// Why the launch failed, if it did.
    pub failure: Option<LaunchError>,
}

/// How a launch ends.
#[derive(Debug)]
pub enum Outcome {
    /// The node is ready: here is its fixture.
    Ready(BitcoinD),
    /// The launch failed: here is why, and what is left to destroy.
    Failed(Abort),
    /// The launch has not ended yet: here it is again.
    Pending(Launch),
}

/// The end of a launch that failed.
#[derive(Debug)]
pub struct Abort {
    /// Why the launch failed.
    pub error: LaunchError,
    /// What the launch had acquired, and the driver now has to destroy.
    pub cleanup: Teardown,
}

/// The arguments of a node for tests: a private chain, and a fee for wallets
/// that cannot estimate one.
pub open spec fn default_args() -> Seq<Seq<char>> {
    seq!["-regtest"@, "-fallbackfee=0.0001"@]
}

/// A launch that has not begun: it waits for its working directory, and no
/// limit is set on its polls.
pub open spec fn begin(args: Seq<Seq<char>>, view_stdout: bool, p2p: P2P) -> LaunchView {
    LaunchView {
        args,
        view_stdout,
        p2p,
        budget: None,
        stage: Stage::WorkDir,
        datadir: Seq::empty(),
        rpc_port: 0,
        p2p_port: 0,
        dir_created: false,
        spawned: false,
        failure: None,
    }
}

impl LaunchView {
    /// Whether the launch has ended.
    pub open spec fn is_over(self) -> bool {
        self.stage is Ready || self.stage is Failed
    }

    /// The launch, failed for the reason `error`.
    pub open spec fn fail(self, error: LaunchError) -> LaunchView {
        LaunchView { stage: Stage::Failed, failure: Some(error), ..self }
    }

    /// The launch as the next poll begins with its pause, or as it gives up
    /// because no poll is left.
    pub open spec fn poll(self) -> LaunchView {
        match self.budget {
            None => LaunchView { stage: Stage::Pause, ..self },
            Some(left) => if left == 0 {
                self.fail(LaunchError::Timeout)
            } else {
                LaunchView { stage: Stage::Pause, budget: Some((left - 1) as u64), ..self }
            },
        }
    }

    /// The launch after its pending request has failed for the reason
    /// `error`. A node that cannot be reached yet is polled again; any other
    /// failure ends the launch.
    pub open spec fn request_failed(self, error: LaunchError) -> LaunchView {
        if self.stage is Connect || self.stage is Probe {
            self.poll()
        } else {
            self.fail(error)
        }
    }

    /// The launch after `reply` has come in. A reply that does not answer the
    /// pending request changes nothing, and neither does any reply once the
    /// launch has ended.
    pub open spec fn next(self, reply: Reply) -> LaunchView {
        if self.is_over() {
            self
        } else {
            match reply {
                Reply::Io(e) => self.request_failed(LaunchError::Io(e)),
                Reply::Rpc(e) => self.request_failed(LaunchError::Rpc(e)),
                Reply::Dir(path) => match self.stage {
                    Stage::WorkDir => LaunchView {
                        stage: Stage::RpcPort,
                        datadir: path@,
                        dir_created: true,
                        ..self
                    },
                    _ => self,
                },
                Reply::Port(port) => match self.stage {
                    Stage::RpcPort => LaunchView {
                        stage: if self.p2p.listens() {
                            Stage::P2pPort
                        } else {
                            Stage::Spawn
                        },
                        rpc_port: port,
                        ..self
                    },
                    Stage::P2pPort => LaunchView { stage: Stage::Spawn, p2p_port: port, ..self },
                    _ => self,
                },
                Reply::Done => match self.stage {
                    Stage::Spawn => (LaunchView { spawned: true, ..self }).poll(),
                    Stage::Pause => LaunchView { stage: Stage::Connect, ..self },
                    Stage::Connect => LaunchView { stage: Stage::Probe, ..self },
                    Stage::Probe => LaunchView { stage: Stage::Wallet, ..self },
                    Stage::Wallet => LaunchView { stage: Stage::Rebind, ..self },
                    Stage::Rebind => LaunchView { stage: Stage::Ready, ..self },
                    _ => self,
                },
            }
        }
    }

    /// Whether `reply` answers the request that is pending.
    pub open spec fn answered_by(self, reply: Reply) -> bool {
        !self.is_over() && match reply {
            Reply::Io(_) | Reply::Rpc(_) => true,
            Reply::Dir(_) => self.stage is WorkDir,
            Reply::Port(_) => self.stage is RpcPort || self.stage is P2pPort,
            Reply::Done => !(self.stage is WorkDir || self.stage is RpcPort
                || self.stage is P2pPort),
        }
    }

    /// The arguments of the process: the data directory, the RPC port, the
    /// peer-to-peer mode, then the caller's arguments.
    pub open spec fn command_line(self) -> Seq<Seq<char>> {
        seq!["-datadir="@ + self.datadir, "-rpcport="@ + decimal(self.rpc_port as nat)]
            + peer_args(self.p2p, self.p2p_port) + self.args
    }

    /// The configuration of the node that is being launched.
    pub open spec fn config(self) -> crate::config::ConfigView {
        config_of(self.datadir, self.rpc_port, self.p2p, self.p2p_port)
    }

    /// The URL at which the node serves its default wallet.
    pub open spec fn wallet_url(self) -> Seq<char> {
        self.config().rpc_url() + "/wallet/default"@
    }

    /// The request that is pending, if the launch has not ended.
    pub open spec fn pending(self) -> Option<RequestView> {
        match self.stage {
            Stage::WorkDir => Some(RequestView::CreateWorkDir),
            Stage::RpcPort | Stage::P2pPort => Some(RequestView::ReservePort),
            Stage::Spawn => Some(
                RequestView::Spawn {
                    args: self.command_line(),
                    stdout: if self.view_stdout {
                        Stdio::Inherit
                    } else {
                        Stdio::Null
                    },
                    stderr: Stdio::Inherit,
                },
            ),
            Stage::Pause => Some(RequestView::Pause { millis: POLL_INTERVAL_MILLIS }),
            Stage::Connect => Some(
                RequestView::Connect {
                    url: self.config().rpc_url(),
                    cookie_file: cookie_path(self.datadir),
                },
            ),
            Stage::Probe => Some(RequestView::Probe),
            Stage::Wallet => Some(RequestView::CreateWallet { name: "default"@ }),
            Stage::Rebind => Some(
                RequestView::Connect {
                    url: self.wallet_url(),
                    cookie_file: cookie_path(self.datadir),
                },
            ),
            Stage::Ready | Stage::Failed => None,
        }
    }

    /// What a launch that fails in this state leaves to destroy: what it has
    /// acquired, and no more.
    pub open spec fn cleanup(self) -> Teardown {
        Teardown { kill: self.spawned, remove_dir: self.dir_created }
    }
}

/// The arguments of a node for tests.
pub fn default_argv() -> (args: Vec<String>)
    ensures
        args.deep_view() == default_args(),
{
    let mut args: Vec<String> = Vec::new();
    args.push(DEFAULT_ARGS[0].to_owned());
    args.push(DEFAULT_ARGS[1].to_owned());
    assert(args.deep_view() =~= default_args());
    args
}

impl View for Launch {
    type V = LaunchView;

    closed spec fn view(&self) -> LaunchView {
        LaunchView {
            args: self.args.deep_view(),
            view_stdout: self.view_stdout,
            p2p: self.p2p,
            budget: self.budget,
            stage: if self.failure is Some {
                Stage::Failed
            } else {
                self.at
            },
            datadir: self.datadir@,
            rpc_port: self.rpc_port,
            p2p_port: self.p2p_port,
            dir_created: self.dir_created,
            spawned: self.spawned,
            failure: self.failure,
        }
    }
}

impl Launch {
    #[verifier::type_invariant]
    spec fn inv(self) -> bool {
        !(self.at is Failed)
    }

    /// A launch that has not begun.
    pub fn begin(args: Vec<String>, view_stdout: bool, p2p: P2P) -> (launch: Launch)
        ensures
            launch@ == begin(args.deep_view(), view_stdout, p2p),
    {
        Launch {
            args,
            view_stdout,
            p2p,
            budget: None,
            at: Stage::WorkDir,
            datadir: String::new(),
            rpc_port: 0,
            p2p_port: 0,
            dir_created: false,
            spawned: false,
            failure: None,
        }
    }

    /// Allows the launch `polls` more polls of the node, after which it fails
    /// with `Timeout`. Without a limit a launch polls for as long as the node
    /// does not answer.
    pub fn limit_polls(&mut self, polls: u64)
        ensures
            final(self)@ == (LaunchView { budget: Some(polls), ..old(self)@ }),
    {
        proof {
            use_type_invariant(&*self);
        }
        self.budget = Some(polls);
    }

    /// What the driver is waiting for.
    pub fn stage(&self) -> (stage: Stage)
        ensures
            stage == self@.stage,
    {
        proof {
            use_type_invariant(self);
        }
        match self.failure {
            Some(_) => Stage::Failed,
            None => self.at,
        }
    }

    /// The arguments of the process.
    fn command_line(&self) -> (line: Vec<String>)
        ensures
            line.deep_view() == self@.command_line(),
    {
        let mut line: Vec<String> = Vec::new();
        let mut datadir = "-datadir=".to_owned();
        datadir.append(self.datadir.as_str());
        line.push(datadir);
        let mut rpc_port = "-rpcport=".to_owned();
        append_decimal(&mut rpc_port, self.rpc_port as u64);
        line.push(rpc_port);
        let mut peer = self.p2p.args(self.p2p_port);
        line.append(&mut peer);
        let ghost head = line.deep_view();
        assert(head =~= seq![
            "-datadir="@ + self.datadir@,
            "-rpcport="@ + decimal(self.rpc_port as nat),
        ] + peer_args(self.p2p, self.p2p_port));
        let mut i: usize = 0;
        while i < self.args.len()
            invariant
                0 <= i <= self.args.len(),
                line.deep_view() =~= head + self.args.deep_view().subrange(0, i as int),
            decreases self.args.len() - i,
        {
            let ghost before = line.deep_view();
            let arg = self.args[i].clone();
            line.push(arg);
            assert(line.deep_view() =~= before.push(self.args[i as int]@));
            assert(self.args.deep_view().subrange(0, i + 1) =~= self.args.deep_view().subrange(
                0,
                i as int,
            ).push(self.args[i as int]@));
            i = i + 1;
        }
        assert(self.args.deep_view().subrange(0, i as int) =~= self.args.deep_view());
        line
    }

    /// The cookie file of the node.
    fn cookie_file(&self) -> (path: String)
        ensures
            path@ == cookie_path(self@.datadir),
    {
        let below = join_path(self.datadir.as_str(), "regtest");
        join_path(below.as_str(), ".cookie")
    }

    /// The URL of the node's RPC interface.
    fn rpc_url(&self) -> (url: String)
        ensures
            url@ == self@.config().rpc_url(),
    {
        let mut url = "http://".to_owned();
        crate::addr::SocketAddrV4::local(self.rpc_port).append_to(&mut url);
        url
    }

    /// The request that is pending: `None` once the launch has ended.
    pub fn request(&self) -> (request: Option<Request>)
        ensures
            view_of(request) == self@.pending(),
    {
        match self.stage() {
            Stage::WorkDir => Some(Request::CreateWorkDir),
            Stage::RpcPort | Stage::P2pPort => Some(Request::ReservePort),
            Stage::Spawn => {
                let stdout = if self.view_stdout {
                    Stdio::Inherit
                } else {
                    Stdio::Null
                };
                Some(Request::Spawn { args: self.command_line(), stdout, stderr: Stdio::Inherit })
            },
            Stage::Pause => Some(Request::Pause { millis: POLL_INTERVAL_MILLIS }),
            Stage::Connect => Some(
                Request::Connect { url: self.rpc_url(), cookie_file: self.cookie_file() },
            ),
            Stage::Probe => Some(Request::Probe),
            Stage::Wallet => Some(Request::CreateWallet { name: "default".to_owned() }),
            Stage::Rebind => {
                let mut url = self.rpc_url();
                url.append("/wallet/default");
                Some(Request::Connect { url, cookie_file: self.cookie_file() })
            },
            Stage::Ready | Stage::Failed => None,
        }
    }

    /// Ends the launch for the reason `error`.
    fn fail(&mut self, error: LaunchError)
        ensures
            final(self)@ == old(self)@.fail(error),
    {
        proof {
            use_type_invariant(&*self);
        }
        self.failure = Some(error);
    }

    /// Begins the next poll, or gives up where none is left.
    fn poll(&mut self)
        requires
            !old(self)@.is_over(),
        ensures
            final(self)@ == old(self)@.poll(),
    {
        proof {
            use_type_invariant(&*self);
        }
        match self.budget {
            None => {
                self.at = Stage::Pause;
            },
            Some(left) => {
                if left == 0 {
                    self.fail(LaunchError::Timeout);
                } else {
                    self.budget = Some(left - 1);
                    self.at = Stage::Pause;
                }
            },
        }
    }

    /// Takes in that the pending request has failed for the reason `error`.
    fn request_failed(&mut self, error: LaunchError)
        requires
            !old(self)@.is_over(),
        ensures
            final(self)@ == old(self)@.request_failed(error),
    {
        match self.at {
            Stage::Connect | Stage::Probe => self.poll(),
            _ => self.fail(error),
        }
    }

    /// Takes the reply to the request that is pending.
    pub fn reply(&mut self, reply: Reply)
        ensures
            final(self)@ == old(self)@.next(reply),
    {
        proof {
            use_type_invariant(&*self);
        }
        match self.stage() {
            Stage::Ready | Stage::Failed => {
                return ;
            },
            _ => {},
        }
        match reply {
            Reply::Io(e) => self.request_failed(LaunchError::Io(e)),
            Reply::Rpc(e) => self.request_failed(LaunchError::Rpc(e)),
            Reply::Dir(path) => match self.at {
                Stage::WorkDir => {
                    self.datadir = path;
                    self.dir_created = true;
                    self.at = Stage::RpcPort;
                },
                _ => {},
            },
            Reply::Port(port) => match self.at {
                Stage::RpcPort => {
                    self.rpc_port = port;
                    self.at = if self.p2p.needs_port() {
                        Stage::P2pPort
                    } else {
                        Stage::Spawn
                    };
                },
                Stage::P2pPort => {
                    self.p2p_port = port;
                    self.at = Stage::Spawn;
                },
                _ => {},
            },
            Reply::Done => match self.at {
                Stage::Spawn => {
                    self.spawned = true;
                    self.poll();
                },
                Stage::Pause => {
                    self.at = Stage::Connect;
                },
                Stage::Connect => {
                    self.at = Stage::Probe;
                },
                Stage::Probe => {
                    self.at = Stage::Wallet;
                },
                Stage::Wallet => {
                    self.at = Stage::Rebind;
                },
                Stage::Rebind => {
                    self.at = Stage::Ready;
                },
                _ => {},
            },
        }
    }

    /// Takes the reply to the request that is pending and says what to do
    /// next: `None` once the launch has ended.
    pub fn step(&mut self, reply: Reply) -> (request: Option<Request>)
        ensures
            final(self)@ == old(self)@.next(reply),
            view_of(request) == final(self)@.pending(),
    {
        self.reply(reply);
        self.request()
    }

    /// Ends the launch. A node that is ready gets its fixture; a launch that
    /// failed gives its reason and says what it leaves to destroy; a launch
    /// that has not ended is handed back as it is.
    pub fn finish(self) -> (outcome: Outcome)
        ensures
            match self@.stage {
                Stage::Ready => outcome matches Outcome::Ready(node) && node@ == (BitcoinDView {
                    config: self@.config(),
                    phase: Phase::Ready,
                }),
                Stage::Failed => outcome matches Outcome::Failed(abort) && Some(abort.error)
                    == self@.failure && abort.cleanup == self@.cleanup(),
                _ => outcome matches Outcome::Pending(launch) && launch@ == self@,
            },
    {
        proof {
            use_type_invariant(&self);
        }
        let cleanup = Teardown { kill: self.spawned, remove_dir: self.dir_created };
        match self.failure {
            Some(error) => Outcome::Failed(Abort { error, cleanup }),
            None => match self.at {
                Stage::Ready => Outcome::Ready(
                    BitcoinD::ready(
                        Config::new(self.datadir, self.rpc_port, self.p2p, self.p2p_port),
                    ),
                ),
                _ => Outcome::Pending(
                    Launch {
                        args: self.args,
                        view_stdout: self.view_stdout,
                        p2p: self.p2p,
                        budget: self.budget,
                        at: self.at,
                        datadir: self.datadir,
                        rpc_port: self.rpc_port,
                        p2p_port: self.p2p_port,
                        dir_created: self.dir_created,
                        spawned: self.spawned,
                        failure: None,
                    },
                ),
            },
        }
    }
}

impl LaunchView {
    /// The launch after each of `replies` has come in, in order.
    pub open spec fn after(self, replies: Seq<Reply>) -> LaunchView
        decreases replies.len(),
    {
        if replies.len() == 0 {
            self
        } else {
            self.after(replies.drop_last()).next(replies.last())
        }
    }

    /// Whether each of `replies`, taken in order, answers the request that is
    /// pending when it comes in.
    pub open spec fn driven_by(self, replies: Seq<Reply>) -> bool
        decreases replies.len(),
    {
        replies.len() == 0 || (self.driven_by(replies.drop_last()) && self.after(
            replies.drop_last(),
        ).answered_by(replies.last()))
    }

    /// What holds of a launch at every moment: it has a reason if and only if
    /// it failed; the process is started only once the directory is there and
    /// the ports are reserved; a port for peers is reserved only for a node
    /// that listens; and polling begins only once the process was started.
    pub open spec fn ordered(self) -> bool {
        &&& self.stage is Failed <==> self.failure is Some
        &&& self.spawned ==> self.dir_created
        &&& self.stage is WorkDir ==> !self.dir_created
        &&& self.stage is RpcPort || self.stage is P2pPort || self.stage is Spawn ==> self.dir_created
            && !self.spawned
        &&& self.stage is P2pPort ==> self.p2p.listens()
        &&& self.stage is Pause || self.stage is Connect || self.stage is Probe
            || self.stage is Wallet || self.stage is Rebind || self.stage is Ready
            ==> self.spawned
    }

    /// The launch after everything went well at the first try: the directory
    /// was created at `dir`, the ports `rpc_port` and, for a node that
    /// listens, `p2p_port` were reserved, the process started, and the node
    /// answered the first poll and created its wallet.
    pub open spec fn smooth(self, dir: String, rpc_port: u16, p2p_port: u16) -> LaunchView {
        let reserved = self.next(Reply::Dir(dir)).next(Reply::Port(rpc_port));
        let bound = if self.p2p.listens() {
            reserved.next(Reply::Port(p2p_port))
        } else {
            reserved
        };
        let spawned = bound.next(Reply::Done);
        let polled = spawned.next(Reply::Done).next(Reply::Done).next(Reply::Done);
        polled.next(Reply::Done).next(Reply::Done)
    }

    /// A bound on the replies that a launch with a limit on its polls still
    /// takes before it ends; zero for a launch without a limit.
    pub open spec fn steps_left(self) -> nat {
        match self.budget {
            None => 0,
            Some(left) => match self.stage {
                Stage::Ready | Stage::Failed => 0,
                Stage::Rebind => 1,
                Stage::Wallet => 2,
                Stage::Probe => (3 * left + 3) as nat,
                Stage::Connect => (3 * left + 4) as nat,
                Stage::Pause => (3 * left + 5) as nat,
                Stage::Spawn => (3 * left + 6) as nat,
                Stage::P2pPort => (3 * left + 7) as nat,
                Stage::RpcPort => (3 * left + 8) as nat,
                Stage::WorkDir => (3 * left + 9) as nat,
            },
        }
    }
}

/// A reply moves the launch if and only if it answers the pending request.
pub proof fn lemma_unanswered_changes_nothing(s: LaunchView, reply: Reply)
    requires
        !s.answered_by(reply),
    ensures
        s.next(reply) == s,
{
}

/// A launch that has ended stays as it is, and asks for nothing more.
pub proof fn lemma_over_is_final(s: LaunchView, reply: Reply)
    requires
        s.is_over(),
    ensures
        s.next(reply) == s,
        s.pending() is None,
{
}

/// As long as a launch has not ended, something is asked of the driver.
pub proof fn lemma_pending_until_over(s: LaunchView)
    ensures
        s.pending() is None <==> s.is_over(),
{
}

/// The order of a launch is kept by every reply.
pub proof fn lemma_ordered_step(s: LaunchView, reply: Reply)
    requires
        s.ordered(),
    ensures
        s.next(reply).ordered(),
        s.next(reply).args == s.args,
        s.next(reply).view_stdout == s.view_stdout,
        s.next(reply).p2p == s.p2p,
{
}

/// Whatever replies come in, a launch keeps its order from its beginning on,
/// and never changes the mode or the arguments it was begun with.
pub proof fn lemma_ordered_always(
    args: Seq<Seq<char>>,
    view_stdout: bool,
    p2p: P2P,
    replies: Seq<Reply>,
)
    ensures
        begin(args, view_stdout, p2p).after(replies).ordered(),
        begin(args, view_stdout, p2p).after(replies).args == args,
        begin(args, view_stdout, p2p).after(replies).view_stdout == view_stdout,
        begin(args, view_stdout, p2p).after(replies).p2p == p2p,
    decreases replies.len(),
{
    if replies.len() > 0 {
        lemma_ordered_always(args, view_stdout, p2p, replies.drop_last());
        lemma_ordered_step(
            begin(args, view_stdout, p2p).after(replies.drop_last()),
            replies.last(),
        );
    }
}

/// A node that was launched without peers has no peer socket, and one that
/// listens has one, at the port that was reserved for it; where the two
/// reservations gave different ports, the two sockets differ in their ports.
pub proof fn lemma_peer_socket(
    args: Seq<Seq<char>>,
    view_stdout: bool,
    p2p: P2P,
    replies: Seq<Reply>,
)
    requires
        begin(args, view_stdout, p2p).after(replies).stage is Ready,
        p2p.listens() ==> begin(args, view_stdout, p2p).after(replies).rpc_port != begin(
            args,
            view_stdout,
            p2p,
        ).after(replies).p2p_port,
    ensures
        ({
            let config = begin(args, view_stdout, p2p).after(replies).config();
            &&& config.wf()
            &&& p2p is No <==> config.p2p_socket is None
            &&& config.p2p_socket matches Some(socket) ==> socket.port
                != config.rpc_socket.port
        }),
{
    lemma_ordered_always(args, view_stdout, p2p, replies);
}

/// Where everything goes well at the first try, the node is ready after
/// eight replies, or nine with a port for peers, and its configuration holds
/// the directory and the ports that the driver reported.
pub proof fn lemma_smooth_launch(
    args: Seq<Seq<char>>,
    view_stdout: bool,
    p2p: P2P,
    dir: String,
    rpc_port: u16,
    p2p_port: u16,
)
    ensures
        ({
            let end = begin(args, view_stdout, p2p).smooth(dir, rpc_port, p2p_port);
            &&& end.stage is Ready
            &&& end.ordered()
            &&& end.config() == config_of(dir@, rpc_port, p2p, p2p_port)
            &&& p2p.listens() ==> end.p2p_port == p2p_port
        }),
{
}

/// Only a node that cannot be reached yet is tried again. Without a limit on
/// the polls, a failure while connecting or probing leads to the next pause
/// and leaves no trace; a failure of any other request ends the launch with
/// the cause that the driver reported.
pub proof fn lemma_only_polls_retry(s: LaunchView, reply: Reply)
    requires
        !s.is_over(),
        s.budget is None,
        reply.is_failure(),
    ensures
        s.stage is Connect || s.stage is Probe ==> s.next(reply) == (LaunchView {
            stage: Stage::Pause,
            ..s
        }),
        !(s.stage is Connect || s.stage is Probe) ==> s.next(reply).stage is Failed && (
        reply matches Reply::Io(e) ==> s.next(reply).failure == Some(LaunchError::Io(e))) && (
        reply matches Reply::Rpc(e) ==> s.next(reply).failure == Some(LaunchError::Rpc(e))),
{
}

/// A process that cannot be started ends the launch at once: with the cause
/// as the error, nothing more asked of the driver, the directory to remove
/// and no process to kill.
pub proof fn lemma_spawn_failure(s: LaunchView, e: std::io::Error)
    requires
        s.ordered(),
        s.stage is Spawn,
    ensures
        s.next(Reply::Io(e)).stage is Failed,
        s.next(Reply::Io(e)).failure == Some(LaunchError::Io(e)),
        s.next(Reply::Io(e)).pending() is None,
        s.next(Reply::Io(e)).cleanup() == (Teardown { kill: false, remove_dir: true }),
{
}

/// With a limit on the polls, each reply that answers its request brings the
/// end of the launch nearer.
pub proof fn lemma_limited_progress(s: LaunchView, reply: Reply)
    requires
        s.budget is Some,
        s.answered_by(reply),
    ensures
        s.next(reply).budget is Some,
        s.next(reply).steps_left() < s.steps_left(),
{
}

/// A launch that allows `n` polls ends within `3 * n + 9` replies, however
/// the node behaves: no sequence of answers is longer than that.
pub proof fn lemma_limited_launch_ends(s: LaunchView, replies: Seq<Reply>)
    requires
        s.budget is Some,
        s.driven_by(replies),
    ensures
        s.after(replies).budget is Some,
        s.after(replies).steps_left() + replies.len() <= s.steps_left(),
        replies.len() <= 3 * s.budget->0 + 9,
    decreases replies.len(),
{
    if replies.len() > 0 {
        lemma_limited_launch_ends(s, replies.drop_last());
        lemma_limited_progress(s.after(replies.drop_last()), replies.last());
    }
}

} // verus!
