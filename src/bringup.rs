use vstd::prelude::*;

verus! {

/// The pause between two negative readiness checks, in milliseconds.
pub const POLL_DELAY_MS: u64 = 50;

/// Where the overlay bring-up stands.
#[derive(Clone, Copy, Debug, PartialEq, Eq, Structural)]
pub enum BringUpPhase {
    /// The node is to be configured from its storage location.
    Configure,
    /// The node is configured and is to be started.
    Start,
    /// The node runs and is not yet known to be online.
    WaitOnline,
    /// The node is online; the network is to be joined.
    Join,
    /// The join was requested; the network transport is not yet ready.
    WaitTransport,
    /// The transport is ready; the assigned address is to be read.
    ReadAddress,
    /// An address was assigned: the relay may listen on it.
    Ready,
    /// The node never came online or no address was assigned.
    Failed,
}

/// What the caller of the overlay node must do next.
#[derive(Clone, Copy, Debug, PartialEq, Eq, Structural)]
pub enum BringUpAction {
    /// Set up the node (port, event handler, storage); then `on_done`.
    Configure,
    /// Start the node; then `on_done`.
    StartNode,
    /// Wait this many milliseconds, ask whether the node is online, and
    /// report with `on_online`.
    PollOnline(u64),
    /// Join this network; then `on_done`.
    JoinNetwork(u64),
    /// Wait this many milliseconds, ask whether this network's transport is
    /// ready, and report with `on_transport`.
    PollTransport(u64, u64),
    /// Read the address assigned on this network; report with `on_address`.
    ReadAddress(u64),
    /// Bring-up is done: bind the listener to the address that was read.
    Listen,
    /// Bring-up failed: stop the node and give up.
    GiveUp,
}

/// Sequences the overlay bring-up: configure, start, wait until online,
/// join the network, wait until its transport is ready, read the address.
/// Each readiness wait checks at once, then every `POLL_DELAY_MS`; with a
/// limit `m`, a wait whose check is negative after `m` negative checks fails
/// the bring-up.
pub struct BringUp {
    network_id: u64,
    phase: BringUpPhase,
    max_polls: Option<u64>,
    polls: u64,
    retry: bool,
}

impl BringUp {
    pub closed spec fn network_id_spec(self) -> u64 {
        self.network_id
    }

    pub closed spec fn phase_spec(self) -> BringUpPhase {
        self.phase
    }

    pub closed spec fn max_polls_spec(self) -> Option<u64> {
        self.max_polls
    }

    /// Negative checks seen in the current wait, counted under a limit only.
    pub closed spec fn polls_spec(self) -> u64 {
        self.polls
    }

    /// The current wait has already seen a negative check.
    pub closed spec fn retrying(self) -> bool {
        self.retry
    }

    pub closed spec fn wf(self) -> bool {
        &&& match self.max_polls {
            Some(m) => self.polls <= m,
            None => self.polls == 0,
        }
        &&& (self.phase != BringUpPhase::WaitOnline && self.phase != BringUpPhase::WaitTransport)
            ==> self.polls == 0 && !self.retry
    }

    pub open spec fn delay_spec(self) -> u64 {
        if self.retrying() {
            POLL_DELAY_MS
        } else {
            0
        }
    }

    pub open spec fn action_spec(self) -> BringUpAction {
        match self.phase_spec() {
            BringUpPhase::Configure => BringUpAction::Configure,
            BringUpPhase::Start => BringUpAction::StartNode,
            BringUpPhase::WaitOnline => BringUpAction::PollOnline(self.delay_spec()),
            BringUpPhase::Join => BringUpAction::JoinNetwork(self.network_id_spec()),
            BringUpPhase::WaitTransport => BringUpAction::PollTransport(
                self.network_id_spec(),
                self.delay_spec(),
            ),
            BringUpPhase::ReadAddress => BringUpAction::ReadAddress(self.network_id_spec()),
            BringUpPhase::Ready => BringUpAction::Listen,
            BringUpPhase::Failed => BringUpAction::GiveUp,
        }
    }

    /// What one negative check leads to: another check, or failure once the
    /// limit is reached.
    pub open spec fn after_negative(self, next: BringUp) -> bool {
        &&& next.network_id_spec() == self.network_id_spec()
        &&& next.max_polls_spec() == self.max_polls_spec()
        &&& match self.max_polls_spec() {
            Some(m) => if self.polls_spec() >= m {
                next.phase_spec() == BringUpPhase::Failed
            } else {
                &&& next.phase_spec() == self.phase_spec()
                &&& next.polls_spec() == self.polls_spec() + 1
                &&& next.retrying()
            },
            None => next.phase_spec() == self.phase_spec() && next.retrying(),
        }
    }

    /// A bring-up for network `network_id`. `max_polls` bounds the negative
    /// checks that each readiness wait tolerates; `None` waits for as long as
    /// it takes.
    pub fn new(network_id: u64, max_polls: Option<u64>) -> (b: BringUp)
        ensures
            b.wf(),
            b.network_id_spec() == network_id,
            b.max_polls_spec() == max_polls,
            b.phase_spec() == BringUpPhase::Configure,
            b.polls_spec() == 0,
            !b.retrying(),
    {
        BringUp { network_id, phase: BringUpPhase::Configure, max_polls, polls: 0, retry: false }
    }

    pub fn phase(&self) -> (p: BringUpPhase)
        ensures
            p == self.phase_spec(),
    {
        self.phase
    }

    pub fn next_action(&self) -> (a: BringUpAction)
        ensures
            a == self.action_spec(),
    {
        let delay: u64 = if self.retry {
            POLL_DELAY_MS
        } else {
            0
        };
        match self.phase {
            BringUpPhase::Configure => BringUpAction::Configure,
            BringUpPhase::Start => BringUpAction::StartNode,
            BringUpPhase::WaitOnline => BringUpAction::PollOnline(delay),
            BringUpPhase::Join => BringUpAction::JoinNetwork(self.network_id),
            BringUpPhase::WaitTransport => BringUpAction::PollTransport(self.network_id, delay),
            BringUpPhase::ReadAddress => BringUpAction::ReadAddress(self.network_id),
            BringUpPhase::Ready => BringUpAction::Listen,
            BringUpPhase::Failed => BringUpAction::GiveUp,
        }
    }

    fn enter(&mut self, phase: BringUpPhase)
        requires
            old(self).wf(),
        ensures
            final(self).wf(),
            final(self).phase_spec() == phase,
            final(self).network_id_spec() == old(self).network_id_spec(),
            final(self).max_polls_spec() == old(self).max_polls_spec(),
            final(self).polls_spec() == 0,
            !final(self).retrying(),
    {
        self.phase = phase;
        self.polls = 0;
        self.retry = false;
    }

    fn negative_check(&mut self)
        requires
            old(self).wf(),
            old(self).phase_spec() == BringUpPhase::WaitOnline || old(self).phase_spec()
                == BringUpPhase::WaitTransport,
        ensures
            final(self).wf(),
            old(self).after_negative(*final(self)),
    {
        match self.max_polls {
            Some(m) => {
                if self.polls >= m {
                    self.enter(BringUpPhase::Failed);
                } else {
                    self.polls = self.polls + 1;
                    self.retry = true;
                }
            },
            None => {
                self.retry = true;
            },
        }
    }

    /// Reports that the configuring, starting or joining step was performed.
    pub fn on_done(&mut self)
        requires
            old(self).wf(),
            old(self).phase_spec() == BringUpPhase::Configure || old(self).phase_spec()
                == BringUpPhase::Start || old(self).phase_spec() == BringUpPhase::Join,
        ensures
            final(self).wf(),
            final(self).network_id_spec() == old(self).network_id_spec(),
            final(self).max_polls_spec() == old(self).max_polls_spec(),
            final(self).polls_spec() == 0,
            !final(self).retrying(),
            final(self).phase_spec() == match old(self).phase_spec() {
                BringUpPhase::Configure => BringUpPhase::Start,
                BringUpPhase::Start => BringUpPhase::WaitOnline,
                _ => BringUpPhase::WaitTransport,
            },
    {
        match self.phase {
            BringUpPhase::Configure => self.enter(BringUpPhase::Start),
            BringUpPhase::Start => self.enter(BringUpPhase::WaitOnline),
            _ => self.enter(BringUpPhase::WaitTransport),
        }
    }

    /// Reports whether the node is online.
    pub fn on_online(&mut self, online: bool)
        requires
            old(self).wf(),
            old(self).phase_spec() == BringUpPhase::WaitOnline,
        ensures
            final(self).wf(),
            online ==> final(self).phase_spec() == BringUpPhase::Join
                && final(self).network_id_spec() == old(self).network_id_spec()
                && final(self).max_polls_spec() == old(self).max_polls_spec()
                && final(self).polls_spec() == 0 && !final(self).retrying(),
            !online ==> old(self).after_negative(*final(self)),
    {
        if online {
            self.enter(BringUpPhase::Join);
        } else {
            self.negative_check();
        }
    }

    /// Reports whether the network transport is ready.
    pub fn on_transport(&mut self, ready: bool)
        requires
            old(self).wf(),
            old(self).phase_spec() == BringUpPhase::WaitTransport,
        ensures
            final(self).wf(),
            ready ==> final(self).phase_spec() == BringUpPhase::ReadAddress
                && final(self).network_id_spec() == old(self).network_id_spec()
                && final(self).max_polls_spec() == old(self).max_polls_spec()
                && final(self).polls_spec() == 0 && !final(self).retrying(),
            !ready ==> old(self).after_negative(*final(self)),
    {
        if ready {
            self.enter(BringUpPhase::ReadAddress);
        } else {
            self.negative_check();
        }
    }

    /// Reports whether an address was assigned on the network.
    pub fn on_address(&mut self, assigned: bool)
        requires
            old(self).wf(),
            old(self).phase_spec() == BringUpPhase::ReadAddress,
        ensures
            final(self).wf(),
            final(self).network_id_spec() == old(self).network_id_spec(),
            final(self).max_polls_spec() == old(self).max_polls_spec(),
            final(self).phase_spec() == if assigned {
                BringUpPhase::Ready
            } else {
                BringUpPhase::Failed
            },
    {
        if assigned {
            self.enter(BringUpPhase::Ready);
        } else {
            self.enter(BringUpPhase::Failed);
        }
    }
}

} // verus!
