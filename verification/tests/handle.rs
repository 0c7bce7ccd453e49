use bitcoind::error::LaunchError;
use bitcoind::handle::{BitcoinD, Phase, Teardown};
use bitcoind::launch::Outcome;
use bitcoind::protocol::{Reply, Request};

fn ready_node() -> BitcoinD {
    let mut launch = BitcoinD::new();
    launch.reply(Reply::Dir("/tmp/node".to_string()));
    launch.reply(Reply::Port(18443));
    for _ in 0..6 {
        launch.reply(Reply::Done);
    }
    match launch.finish() {
        Outcome::Ready(node) => node,
        other => panic!("not ready: {:?}", other),
    }
}

#[test]
fn graceful_stop() {
    let mut node = ready_node();
    assert!(node.accepts_rpc());
    assert!(matches!(node.stop(), Ok(Request::Stop)));
    assert_eq!(node.phase(), Phase::Stopping);
    assert!(!node.accepts_rpc());
    assert!(matches!(node.step(Reply::Done), Ok(Some(Request::Wait))));
    assert_eq!(node.phase(), Phase::Exiting);
    assert!(matches!(node.step(Reply::Done), Ok(None)));
    assert_eq!(node.phase(), Phase::Stopped);
    assert!(!node.accepts_rpc());
    assert_eq!(node.rpc_url(), "http://127.0.0.1:18443");
}

#[test]
fn stopped_node_is_not_stopped_again() {
    let mut node = ready_node();
    node.stop().unwrap();
    assert!(matches!(node.stop(), Err(LaunchError::NotRunning)));
    assert_eq!(node.phase(), Phase::Stopping);
    node.step(Reply::Done).unwrap();
    assert!(matches!(node.stop(), Err(LaunchError::NotRunning)));
    node.step(Reply::Done).unwrap();
    assert!(matches!(node.stop(), Err(LaunchError::NotRunning)));
    assert_eq!(node.phase(), Phase::Stopped);
    assert!(matches!(node.step(Reply::Done), Ok(None)));
    assert_eq!(node.phase(), Phase::Stopped);
}

#[test]
fn node_that_refuses_to_stop_goes_on() {
    let mut node = ready_node();
    node.stop().unwrap();
    let refused = node.step(Reply::Rpc(bitcoincore_rpc::Error::UnexpectedStructure));
    assert!(matches!(
        refused,
        Err(LaunchError::Rpc(bitcoincore_rpc::Error::UnexpectedStructure))
    ));
    assert_eq!(node.phase(), Phase::Ready);
    assert!(node.accepts_rpc());
    assert!(matches!(node.stop(), Ok(Request::Stop)));
}

#[test]
fn exit_that_cannot_be_awaited_is_an_io_failure() {
    let mut node = ready_node();
    node.stop().unwrap();
    node.step(Reply::Done).unwrap();
    let interrupted = std::io::Error::from(std::io::ErrorKind::Interrupted);
    match node.step(Reply::Io(interrupted)) {
        Err(LaunchError::Io(e)) => assert_eq!(e.kind(), std::io::ErrorKind::Interrupted),
        other => panic!("not an I/O failure: {:?}", other),
    }
    assert_eq!(node.phase(), Phase::Stopped);
    assert!(!node.accepts_rpc());
}

#[test]
fn reply_out_of_turn_leaves_the_request_pending() {
    let mut node = ready_node();
    assert!(matches!(node.step(Reply::Done), Ok(None)));
    assert_eq!(node.phase(), Phase::Ready);
    node.stop().unwrap();
    assert!(matches!(node.step(Reply::Port(1)), Ok(Some(Request::Stop))));
    assert_eq!(node.phase(), Phase::Stopping);
    node.step(Reply::Done).unwrap();
    assert!(matches!(node.step(Reply::Dir("/x".to_string())), Ok(Some(Request::Wait))));
    assert_eq!(node.phase(), Phase::Exiting);
}

#[test]
fn discarding_destroys_process_and_directory_once() {
    let mut node = ready_node();
    assert_eq!(node.discard(), Teardown { kill: true, remove_dir: true });
    assert_eq!(node.phase(), Phase::Dropped);
    assert!(!node.accepts_rpc());
    assert_eq!(node.discard(), Teardown { kill: false, remove_dir: false });
    assert_eq!(node.phase(), Phase::Dropped);
    assert!(matches!(node.stop(), Err(LaunchError::NotRunning)));
    assert!(matches!(node.step(Reply::Done), Ok(None)));
    assert_eq!(node.phase(), Phase::Dropped);
}

#[test]
fn discarding_a_stopped_node_still_kills() {
    let mut node = ready_node();
    node.stop().unwrap();
    node.step(Reply::Done).unwrap();
    node.step(Reply::Done).unwrap();
    assert_eq!(node.discard(), Teardown { kill: true, remove_dir: true });
    assert_eq!(node.phase(), Phase::Dropped);
}

#[test]
fn discarding_in_the_middle_of_a_stop() {
    let mut node = ready_node();
    node.stop().unwrap();
    assert_eq!(node.discard(), Teardown { kill: true, remove_dir: true });
    assert!(matches!(node.step(Reply::Done), Ok(None)));
    assert_eq!(node.phase(), Phase::Dropped);
}

#[test]
fn errors_wrap_their_causes() {
    let io = LaunchError::from(std::io::Error::from(std::io::ErrorKind::NotFound));
    assert!(matches!(&io, LaunchError::Io(e) if e.kind() == std::io::ErrorKind::NotFound));
    let rpc = LaunchError::from(bitcoincore_rpc::Error::InvalidCookieFile);
    assert!(matches!(rpc, LaunchError::Rpc(bitcoincore_rpc::Error::InvalidCookieFile)));
}
