use vstd::prelude::*;
use crate::copier::StopReason;
use crate::io_kind::IoErrorKind;

verus! {

/// An exactly-once close guard for one connection: the first claim wins and
/// its caller performs the close; every later claim is a no-op.
pub struct CloseGuard {
    closed: bool,
}

impl CloseGuard {
    pub closed spec fn is_closed_spec(self) -> bool {
        self.closed
    }

    pub fn new() -> (g: CloseGuard)
        ensures
            !g.is_closed_spec(),
    {
        CloseGuard { closed: false }
    }

    /// Claims the close. Returns whether the caller must now close the
    /// connection: true for the first claim only.
    pub fn claim(&mut self) -> (first: bool)
        ensures
            first == !old(self).is_closed_spec(),
            final(self).is_closed_spec(),
    {
        let first = !self.closed;
        self.closed = true;
        first
    }

    pub fn is_closed(&self) -> (r: bool)
        ensures
            r == self.is_closed_spec(),
    {
        self.closed
    }
}

/// The two copiers of a session.
#[derive(Clone, Copy, Debug, PartialEq, Eq, Structural)]
pub enum Direction {
    ClientToUpstream,
    UpstreamToClient,
}

/// Where a session stands.
#[derive(Clone, Copy, Debug, PartialEq, Eq, Structural)]
pub enum Phase {
    /// The client was accepted; the upstream is being dialed.
    Dialing,
    /// Both copiers run, or one has stopped and the other is unblocking.
    Relaying,
    /// The dial failed: the client was closed and no copier ever started.
    Abandoned,
    /// Both copiers returned and both connections were closed.
    Finished,
}

/// How long a dial of the upstream target may take, in milliseconds.
pub const DIAL_TIMEOUT_MS: u64 = 10000;

/// Opening the upstream connection failed (address resolution, refusal or
/// timeout); `cause` says how.
#[derive(Clone, Copy, Debug, PartialEq, Eq, Structural)]
pub struct DialError {
    pub cause: IoErrorKind,
}

/// What the caller must do after an event: start the two copiers, and close
/// either connection.
#[derive(Clone, Copy, Debug, PartialEq, Eq, Structural)]
pub struct Actions {
    pub start_copiers: bool,
    pub close_client: bool,
    pub close_upstream: bool,
}

/// How a copier ended: why, and how many bytes it delivered.
#[derive(Clone, Copy, Debug, PartialEq, Eq, Structural)]
pub struct CopyResult {
    pub reason: StopReason,
    pub bytes: u64,
}

/// One relayed connection pair: the client connection that was accepted and
/// the upstream connection dialed for it.
pub struct Session {
    phase: Phase,
    client: CloseGuard,
    upstream: CloseGuard,
    to_upstream: Option<CopyResult>,
    to_client: Option<CopyResult>,
    client_closes: Ghost<nat>,
    upstream_closes: Ghost<nat>,
}

pub open spec fn close_count(closed: bool) -> nat {
    if closed {
        1
    } else {
        0
    }
}

impl Session {
    pub closed spec fn phase_spec(self) -> Phase {
        self.phase
    }

    pub closed spec fn client_closed(self) -> bool {
        self.client.is_closed_spec()
    }

    pub closed spec fn upstream_closed(self) -> bool {
        self.upstream.is_closed_spec()
    }

    /// How many times the caller was told to close the client connection.
    pub closed spec fn client_close_count(self) -> nat {
        self.client_closes@
    }

    /// How many times the caller was told to close the upstream connection.
    pub closed spec fn upstream_close_count(self) -> nat {
        self.upstream_closes@
    }

    pub closed spec fn result_of(self, dir: Direction) -> Option<CopyResult> {
        match dir {
            Direction::ClientToUpstream => self.to_upstream,
            Direction::UpstreamToClient => self.to_client,
        }
    }

    pub open spec fn copiers_started(self) -> bool {
        self.phase_spec() == Phase::Relaying || self.phase_spec() == Phase::Finished
    }

    pub open spec fn any_copier_done(self) -> bool {
        self.result_of(Direction::ClientToUpstream) is Some || self.result_of(
            Direction::UpstreamToClient,
        ) is Some
    }

    pub open spec fn both_copiers_done(self) -> bool {
        self.result_of(Direction::ClientToUpstream) is Some && self.result_of(
            Direction::UpstreamToClient,
        ) is Some
    }

    pub closed spec fn wf(self) -> bool {
        &&& self.client_closes@ == close_count(self.client.closed)
        &&& self.upstream_closes@ == close_count(self.upstream.closed)
        &&& match self.phase {
            Phase::Dialing => {
                &&& !self.client.closed
                &&& !self.upstream.closed
                &&& !self.any_copier_done()
            },
            Phase::Relaying => {
                &&& !self.both_copiers_done()
                &&& self.any_copier_done() ==> self.client.closed && self.upstream.closed
                &&& !self.any_copier_done() ==> !self.client.closed && !self.upstream.closed
            },
            Phase::Abandoned => {
                &&& self.client.closed
                &&& !self.upstream.closed
                &&& !self.any_copier_done()
            },
            Phase::Finished => {
                &&& self.client.closed
                &&& self.upstream.closed
                &&& self.both_copiers_done()
            },
        }
    }

    /// A session for a client that was just accepted, before the dial.
    pub fn new() -> (s: Session)
        ensures
            s.wf(),
            s.phase_spec() == Phase::Dialing,
            !s.client_closed(),
            !s.upstream_closed(),
            s.client_close_count() == 0,
            s.upstream_close_count() == 0,
            !s.any_copier_done(),
    {
        Session {
            phase: Phase::Dialing,
            client: CloseGuard::new(),
            upstream: CloseGuard::new(),
            to_upstream: None,
            to_client: None,
            client_closes: Ghost(0),
            upstream_closes: Ghost(0),
        }
    }

    /// Reports how the dial went. On success the two copiers start together;
    /// on failure the client is closed and no copier ever starts.
    pub fn on_dial(&mut self, r: Result<(), DialError>) -> (a: Actions)
        requires
            old(self).wf(),
            old(self).phase_spec() == Phase::Dialing,
        ensures
            final(self).wf(),
            r is Ok ==> final(self).phase_spec() == Phase::Relaying && a == (Actions {
                start_copiers: true,
                close_client: false,
                close_upstream: false,
            }) && !final(self).client_closed() && !final(self).upstream_closed()
                && final(self).client_close_count() == 0 && final(self).upstream_close_count()
                == 0,
            r is Err ==> final(self).phase_spec() == Phase::Abandoned && a == (Actions {
                start_copiers: false,
                close_client: true,
                close_upstream: false,
            }) && final(self).client_closed() && final(self).client_close_count() == 1
                && !final(self).upstream_closed() && final(self).upstream_close_count() == 0,
            !final(self).any_copier_done(),
    {
        match r {
            Ok(()) => {
                self.phase = Phase::Relaying;
                Actions { start_copiers: true, close_client: false, close_upstream: false }
            },
            Err(_) => {
                let close_client = self.client.claim();
                self.client_closes = Ghost(self.client_closes@ + 1);
                self.phase = Phase::Abandoned;
                Actions { start_copiers: false, close_client, close_upstream: false }
            },
        }
    }

    /// Reports that the copier of direction `dir` returned. Whatever the
    /// reason, both connections are then closed, each at most once, so that
    /// the sibling copier unblocks.
    pub fn on_copier_done(&mut self, dir: Direction, result: CopyResult) -> (a: Actions)
        requires
            old(self).wf(),
            old(self).phase_spec() == Phase::Relaying,
            old(self).result_of(dir) is None,
        ensures
            final(self).wf(),
            final(self).result_of(dir) == Some(result),
            forall|d: Direction| d != dir ==> final(self).result_of(d) == old(self).result_of(d),
            final(self).client_closed(),
            final(self).upstream_closed(),
            a.close_client == !old(self).client_closed(),
            a.close_upstream == !old(self).upstream_closed(),
            !a.start_copiers,
            final(self).client_close_count() == 1,
            final(self).upstream_close_count() == 1,
            final(self).phase_spec() == if final(self).both_copiers_done() {
                Phase::Finished
            } else {
                Phase::Relaying
            },
    {
        match dir {
            Direction::ClientToUpstream => {
                self.to_upstream = Some(result);
            },
            Direction::UpstreamToClient => {
                self.to_client = Some(result);
            },
        }
        let close_client = self.client.claim();
        if close_client {
            self.client_closes = Ghost(self.client_closes@ + 1);
        }
        let close_upstream = self.upstream.claim();
        if close_upstream {
            self.upstream_closes = Ghost(self.upstream_closes@ + 1);
        }
        if self.to_upstream.is_some() && self.to_client.is_some() {
            self.phase = Phase::Finished;
        }
        Actions { start_copiers: false, close_client, close_upstream }
    }

    pub fn phase(&self) -> (p: Phase)
        ensures
            p == self.phase_spec(),
    {
        self.phase
    }

    /// True once nothing of the session is left: both copiers returned and
    /// both connections were closed, or the dial failed and the client was
    /// closed.
    pub fn is_terminated(&self) -> (r: bool)
        ensures
            r == (self.phase_spec() == Phase::Finished || self.phase_spec() == Phase::Abandoned),
    {
        match self.phase {
            Phase::Finished | Phase::Abandoned => true,
            _ => false,
        }
    }

    /// How the copier of `dir` ended, once it has.
    pub fn result(&self, dir: Direction) -> (r: Option<CopyResult>)
        ensures
            r == self.result_of(dir),
    {
        match dir {
            Direction::ClientToUpstream => self.to_upstream,
            Direction::UpstreamToClient => self.to_client,
        }
    }
}

/// Once either copier of a session has returned, both of its connections are
/// closed: no session outlives the end of one of its directions.
pub proof fn lemma_stop_closes_both(s: Session)
    requires
        s.wf(),
        s.any_copier_done(),
    ensures
        s.client_closed(),
        s.upstream_closed(),
{
}

/// A session never asks for a connection to be closed twice, and one that
/// has terminated after relaying has closed each connection exactly once,
/// after both copiers returned.
pub proof fn lemma_closed_exactly_once(s: Session)
    requires
        s.wf(),
    ensures
        s.client_close_count() <= 1,
        s.upstream_close_count() <= 1,
        s.phase_spec() == Phase::Finished ==> s.client_close_count() == 1
            && s.upstream_close_count() == 1 && s.both_copiers_done(),
{
}

/// A session whose dial failed has closed its client exactly once and never
/// started a copier.
pub proof fn lemma_abandoned_never_relays(s: Session)
    requires
        s.wf(),
        s.phase_spec() == Phase::Abandoned,
    ensures
        !s.copiers_started(),
        !s.any_copier_done(),
        s.client_close_count() == 1,
        s.upstream_close_count() == 0,
{
}

} // verus!
