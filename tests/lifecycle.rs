use ztproxy::accept::{on_accept, AcceptDecision};
use ztproxy::bringup::{BringUp, BringUpAction, BringUpPhase, POLL_DELAY_MS};
use ztproxy::io_kind::IoErrorKind;

#[test]
fn accept_connection_reset_continues() {
    assert_eq!(on_accept(Err(IoErrorKind::ConnectionReset)), AcceptDecision::LogAndContinue);
    // the loop goes on: the next connection still gets a session
    assert_eq!(on_accept(Ok(())), AcceptDecision::StartSession);
}

#[test]
fn accept_decisions() {
    assert_eq!(on_accept(Err(IoErrorKind::WouldBlock)), AcceptDecision::LogAndContinue);
    assert_eq!(on_accept(Err(IoErrorKind::ConnectionAborted)), AcceptDecision::LogAndContinue);
    assert_eq!(on_accept(Err(IoErrorKind::Other)), AcceptDecision::LogAndContinue);
    assert_eq!(on_accept(Err(IoErrorKind::InvalidInput)), AcceptDecision::Stop);
    assert_eq!(on_accept(Err(IoErrorKind::NotConnected)), AcceptDecision::Stop);
}

#[test]
fn bring_up_in_order() {
    let mut b = BringUp::new(0xabc, None);
    assert_eq!(b.next_action(), BringUpAction::Configure);
    b.on_done();
    assert_eq!(b.next_action(), BringUpAction::StartNode);
    b.on_done();
    assert_eq!(b.next_action(), BringUpAction::PollOnline(0));
    b.on_online(false);
    assert_eq!(b.next_action(), BringUpAction::PollOnline(POLL_DELAY_MS));
    b.on_online(false);
    b.on_online(true);
    assert_eq!(b.next_action(), BringUpAction::JoinNetwork(0xabc));
    b.on_done();
    assert_eq!(b.next_action(), BringUpAction::PollTransport(0xabc, 0));
    b.on_transport(false);
    assert_eq!(b.next_action(), BringUpAction::PollTransport(0xabc, 50));
    b.on_transport(true);
    assert_eq!(b.next_action(), BringUpAction::ReadAddress(0xabc));
    b.on_address(true);
    assert_eq!(b.next_action(), BringUpAction::Listen);
    assert_eq!(b.phase(), BringUpPhase::Ready);
}

#[test]
fn bring_up_gives_up_after_limit() {
    let mut b = BringUp::new(1, Some(2));
    b.on_done();
    b.on_done();
    b.on_online(false);
    b.on_online(false);
    assert_eq!(b.phase(), BringUpPhase::WaitOnline);
    b.on_online(false);
    assert_eq!(b.phase(), BringUpPhase::Failed);
    assert_eq!(b.next_action(), BringUpAction::GiveUp);
}

#[test]
fn bring_up_limit_zero_and_missing_address() {
    let mut b = BringUp::new(1, Some(0));
    b.on_done();
    b.on_done();
    b.on_online(true);
    b.on_done();
    b.on_transport(false);
    assert_eq!(b.phase(), BringUpPhase::Failed);

    let mut b = BringUp::new(1, Some(5));
    b.on_done();
    b.on_done();
    b.on_online(true);
    b.on_done();
    b.on_transport(true);
    b.on_address(false);
    assert_eq!(b.next_action(), BringUpAction::GiveUp);
}
