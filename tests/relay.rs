use ztproxy::copier::{CopyStep, Copier, StopReason};
use ztproxy::io_kind::IoErrorKind;
use ztproxy::session::{Actions, CloseGuard, CopyResult, DialError, Direction, Phase, Session};

/// Feeds `chunks` through a copier whose destination takes at most `window`
/// bytes per write; returns what the destination received and the copier.
fn relay(chunks: &[&[u8]], window: usize) -> (Vec<u8>, Copier) {
    let mut c = Copier::new();
    let mut out = Vec::new();
    let mut next = 0;
    loop {
        match c.next_step() {
            CopyStep::Read => {
                let data = if next < chunks.len() { chunks[next].to_vec() } else { Vec::new() };
                next += 1;
                c.on_read(data);
            }
            CopyStep::Write => {
                let p = c.pending_bytes();
                let n = p.len().min(window);
                out.extend_from_slice(&p[..n]);
                c.on_written(n);
            }
            CopyStep::Done(_) => return (out, c),
        }
    }
}

#[test]
fn copier_delivers_exact_bytes() {
    let (out, c) = relay(&[b"hello ", b"relay", b"\x00\xff\x10"], 4);
    assert_eq!(out, b"hello relay\x00\xff\x10".to_vec());
    assert_eq!(c.total(), 14);
    assert_eq!(c.stop_reason(), Some(StopReason::SourceClosed));
}

#[test]
fn copier_empty_source() {
    let (out, c) = relay(&[], 16);
    assert!(out.is_empty());
    assert_eq!(c.total(), 0);
    assert_eq!(c.stop_reason(), Some(StopReason::SourceClosed));
}

#[test]
fn copier_large_transfer_in_small_writes() {
    let big: Vec<u8> = (0..100_000u32).map(|i| (i % 251) as u8).collect();
    let chunks: Vec<&[u8]> = big.chunks(4096).collect();
    let (out, c) = relay(&chunks, 1000);
    assert_eq!(out, big);
    assert_eq!(c.total(), 100_000);
}

#[test]
fn copier_pending_shrinks_on_partial_write() {
    let mut c = Copier::new();
    c.on_read(b"abcdef".to_vec());
    assert_eq!(c.next_step(), CopyStep::Write);
    assert_eq!(c.pending_bytes(), b"abcdef");
    c.on_written(2);
    assert_eq!(c.pending_bytes(), b"cdef");
    assert_eq!(c.total(), 2);
    c.on_written(4);
    assert_eq!(c.next_step(), CopyStep::Read);
    assert_eq!(c.total(), 6);
}

#[test]
fn copier_zero_write_means_destination_closed() {
    let mut c = Copier::new();
    c.on_read(b"xy".to_vec());
    c.on_written(0);
    assert_eq!(c.next_step(), CopyStep::Done(StopReason::DestinationClosed));
    assert_eq!(c.total(), 0);
}

#[test]
fn copier_errors() {
    let mut c = Copier::new();
    c.on_read_failed(IoErrorKind::ConnectionReset);
    assert_eq!(c.next_step(), CopyStep::Done(StopReason::Failed(IoErrorKind::ConnectionReset)));

    let mut c = Copier::new();
    c.on_read(b"z".to_vec());
    c.on_write_failed(IoErrorKind::BrokenPipe);
    assert_eq!(c.stop_reason(), Some(StopReason::DestinationClosed));

    let mut c = Copier::new();
    c.on_read(b"z".to_vec());
    c.on_write_failed(IoErrorKind::TimedOut);
    assert_eq!(c.stop_reason(), Some(StopReason::Failed(IoErrorKind::TimedOut)));
}

#[test]
fn close_guard_once() {
    let mut g = CloseGuard::new();
    assert!(!g.is_closed());
    assert!(g.claim());
    assert!(!g.claim());
    assert!(!g.claim());
    assert!(g.is_closed());
}

#[test]
fn dial_failure_closes_client_only() {
    let mut s = Session::new();
    let a = s.on_dial(Err(DialError { cause: IoErrorKind::ConnectionRefused }));
    assert_eq!(a, Actions { start_copiers: false, close_client: true, close_upstream: false });
    assert_eq!(s.phase(), Phase::Abandoned);
    assert!(s.is_terminated());
    assert_eq!(s.result(Direction::ClientToUpstream), None);
    assert_eq!(s.result(Direction::UpstreamToClient), None);
}

#[test]
fn first_stop_closes_both_then_idempotent() {
    let mut s = Session::new();
    let a = s.on_dial(Ok(()));
    assert_eq!(a, Actions { start_copiers: true, close_client: false, close_upstream: false });
    assert!(!s.is_terminated());
    let done = CopyResult { reason: StopReason::Failed(IoErrorKind::ConnectionReset), bytes: 7 };
    let a = s.on_copier_done(Direction::UpstreamToClient, done);
    assert_eq!(a, Actions { start_copiers: false, close_client: true, close_upstream: true });
    assert_eq!(s.phase(), Phase::Relaying);
    let other = CopyResult { reason: StopReason::Failed(IoErrorKind::NotConnected), bytes: 0 };
    let a = s.on_copier_done(Direction::ClientToUpstream, other);
    assert_eq!(a, Actions { start_copiers: false, close_client: false, close_upstream: false });
    assert_eq!(s.phase(), Phase::Finished);
    assert!(s.is_terminated());
    assert_eq!(s.result(Direction::UpstreamToClient), Some(done));
    assert_eq!(s.result(Direction::ClientToUpstream), Some(other));
}

#[test]
fn ping_pong_session() {
    let mut s = Session::new();
    assert!(s.on_dial(Ok(())).start_copiers);
    let mut to_upstream = Copier::new();
    let mut to_client = Copier::new();
    let mut upstream_got = Vec::new();
    let mut client_got = Vec::new();

    to_upstream.on_read(b"PING".to_vec());
    upstream_got.extend_from_slice(to_upstream.pending_bytes());
    to_upstream.on_written(4);

    to_client.on_read(b"PONG".to_vec());
    client_got.extend_from_slice(to_client.pending_bytes());
    to_client.on_written(4);

    // the client sends end of stream
    to_upstream.on_read(Vec::new());
    let r = CopyResult { reason: to_upstream.stop_reason().unwrap(), bytes: to_upstream.total() };
    let a = s.on_copier_done(Direction::ClientToUpstream, r);
    assert!(a.close_client && a.close_upstream);

    // the sibling unblocks with a closed-stream error
    to_client.on_read_failed(IoErrorKind::NotConnected);
    let r = CopyResult { reason: to_client.stop_reason().unwrap(), bytes: to_client.total() };
    let a = s.on_copier_done(Direction::UpstreamToClient, r);
    assert!(!a.close_client && !a.close_upstream);

    assert_eq!(upstream_got, b"PING".to_vec());
    assert_eq!(client_got, b"PONG".to_vec());
    assert_eq!(s.phase(), Phase::Finished);
    assert_eq!(s.result(Direction::ClientToUpstream).unwrap().bytes, 4);
    assert_eq!(s.result(Direction::ClientToUpstream).unwrap().reason, StopReason::SourceClosed);
    assert_eq!(s.result(Direction::UpstreamToClient).unwrap().bytes, 4);
}
