//! One Raft server: its role, term, vote and election deadline.
//!
//! Time is kept in whole nanoseconds since the server was made.  The clock
//! is read in two places only, [`Servers::refresh_timeout`] and
//! [`Servers::has_timed_out`]; each hands the reading to a function that
//! takes the time as an argument and is specified exactly.
use crate::types::{log_entry, Address, Leader, LeaderView, Peer, PeerView, State};
use core::time::Duration;
use std::time::Instant;
use vstd::prelude::*;

verus! {

#[verifier::external_type_specification]
#[verifier::external_body]
pub struct ExInstant(Instant);

/// `std::time::Instant::now`: a reading of the monotonic clock.  What it
/// holds depends on the time of the call, so nothing is claimed of it.
#[verifier::external_body]
fn instant_now() -> (t: Instant) {
    Instant::now()
}

/// `std::time::Instant::elapsed`: the time gone by since `start`.  It
/// depends on the time of the call, so nothing is claimed of it.
#[verifier::external_body]
fn instant_elapsed(start: &Instant) -> (d: Duration) {
    start.elapsed()
}

/// `core::time::Duration::as_nanos`: the whole nanoseconds of `d`.  The
/// duration is opaque here, so nothing is claimed of the count.
#[verifier::external_body]
fn duration_as_nanos(d: &Duration) -> (ns: u128) {
    d.as_nanos()
}

/// The instant `timeout` nanoseconds after `now`, held at `u64::MAX`.
pub open spec fn deadline(now: u64, timeout: u64) -> u64 {
    if now + timeout > u64::MAX {
        u64::MAX
    } else {
        (now + timeout) as u64
    }
}

/// Whether, at `now`, the election deadline `next_timeout` has passed.
pub open spec fn timed_out(next_timeout: Option<u64>, now: u64) -> bool {
    match next_timeout {
        Some(d) => now > d,
        None => false,
    }
}

/// The model of a server.
pub struct ServersView {
    pub state: State,
    pub id: Seq<char>,
    pub address: Address,
    /// The election timeout, in nanoseconds.
    pub timeout: u64,
    pub term: u64,
    pub current_leader: Option<LeaderView>,
    pub number_of_peers: usize,
    pub voted_for: Option<PeerView>,
    pub log: Seq<log_entry>,
    /// The election deadline, in nanoseconds since `started`.
    pub next_timeout: Option<u64>,
    /// When the server was made; the origin of its clock.
    pub started: Instant,
    /// A reading of the clock taken earlier, in nanoseconds since `started`.
    pub last_reading: u64,
}

impl ServersView {
    /// The server with its deadline set `timeout` after `now`.
    pub open spec fn refreshed(self, now: u64) -> ServersView {
        ServersView { next_timeout: Some(deadline(now, self.timeout)), ..self }
    }

    /// The server after it has taken the lead: leaders wait for no deadline.
    pub open spec fn leading(self) -> ServersView {
        ServersView { state: State::Leader, next_timeout: None, ..self }
    }

    /// The server after it has stood for election at the reading `now`: a
    /// candidate in the next term that votes for itself, with a fresh
    /// deadline, and that remembers the reading.
    pub open spec fn candidacy(self, now: u64) -> ServersView {
        ServersView {
            state: State::Candidate,
            term: (self.term + 1) as u64,
            next_timeout: Some(deadline(now, self.timeout)),
            voted_for: Some(PeerView { id: self.id, address: self.address }),
            last_reading: now,
            ..self
        }
    }
}

/// A Raft server.
#[derive(Debug)]
pub struct Servers {
    pub State: State,
    pub id: String,
    pub address: Address,
    /// The election timeout, in nanoseconds.
    pub timeout: u64,
    pub term: u64,
    pub current_leader: Option<Leader>,
    pub number_of_peers: usize,
    pub voted_for: Option<Peer>,
    pub log_entry: Vec<log_entry>,
    /// The election deadline, in nanoseconds since `started`.
    pub next_timeout: Option<u64>,
    /// When the server was made; the origin of its clock.
    pub started: Instant,
    /// A reading of the clock taken earlier, in nanoseconds since
    /// `started`.  The clock is monotonic, so no later reading is below it.
    pub last_reading: u64,
}

impl View for Servers {
    type V = ServersView;

    open spec fn view(&self) -> ServersView {
        ServersView {
            state: self.State,
            id: self.id@,
            address: self.address,
            timeout: self.timeout,
            term: self.term,
            current_leader: match self.current_leader {
                Some(l) => Some(l@),
                None => None,
            },
            number_of_peers: self.number_of_peers,
            voted_for: match self.voted_for {
                Some(p) => Some(p@),
                None => None,
            },
            log: self.log_entry@,
            next_timeout: self.next_timeout,
            started: self.started,
            last_reading: self.last_reading,
        }
    }
}

impl Servers {
    /// A follower in term 0 that has voted for nobody, knows no leader, has
    /// an empty log and no election deadline yet.  `timeout` is the election
    /// timeout in nanoseconds.
    pub fn new(timeout: u64, number_of_peers: usize, address: Address, id: String) -> (s: Self)
        ensures
            s@ == (ServersView {
                state: State::Follower,
                id: id@,
                address,
                timeout,
                term: 0,
                current_leader: None,
                number_of_peers,
                voted_for: None,
                log: Seq::empty(),
                next_timeout: None,
                started: s.started,
                last_reading: 0,
            }),
    {
        let started = instant_now();
        Servers {
            log_entry: Vec::new(),
            State: State::Follower,
            id,
            timeout,
            number_of_peers,
            address,
            term: 0,
            current_leader: None,
            voted_for: None,
            next_timeout: None,
            started,
            last_reading: 0,
        }
    }

    /// The nanoseconds gone by since the server was made, held at
    /// `u64::MAX`.  The count is a reading of the clock; since the clock is
    /// monotonic, it is never below a reading taken earlier, which the
    /// count is held to.
    pub(crate) fn elapsed_nanos(&self) -> (ns: u64)
        ensures
            ns >= self@.last_reading,
    {
        let d = instant_elapsed(&self.started);
        let ns = duration_as_nanos(&d);
        let ns = if ns > 0xffff_ffff_ffff_ffffu128 {
            0xffff_ffff_ffff_ffffu64
        } else {
            ns as u64
        };
        if ns < self.last_reading {
            self.last_reading
        } else {
            ns
        }
    }

    /// Sets the election deadline `timeout` nanoseconds after `now`.
    pub fn refresh_timeout_at(&mut self, now: u64)
        ensures
            final(self)@ == old(self)@.refreshed(now),
    {
        self.next_timeout = Some(now.saturating_add(self.timeout));
    }

    /// Sets the election deadline `timeout` nanoseconds after the present
    /// reading of the clock, which is no earlier than the server's last
    /// reading.
    pub fn refresh_timeout(&mut self)
        ensures
            exists|now: u64|
                now >= old(self)@.last_reading
                    && final(self)@ == #[trigger] old(self)@.refreshed(now),
    {
        let now = self.elapsed_nanos();
        self.refresh_timeout_at(now);
    }

    /// Takes the lead: the server becomes leader and drops its deadline.
    pub fn become_leader(&mut self)
        ensures
            final(self)@ == old(self)@.leading(),
    {
        self.State = State::Leader;
        self.next_timeout = None;
    }

    /// Starts the server's clock running: sets its first deadline.
    pub fn start_severs(&mut self)
        ensures
            exists|now: u64|
                now >= old(self)@.last_reading
                    && final(self)@ == #[trigger] old(self)@.refreshed(now),
    {
        self.refresh_timeout();
    }

    /// Whether the deadline has passed at `now`: false when there is none.
    pub fn has_timed_out_at(&self, now: u64) -> (r: bool)
        ensures
            r == timed_out(self@.next_timeout, now),
    {
        match self.next_timeout {
            Some(t) => now > t,
            None => false,
        }
    }

    /// Whether the deadline has passed at the present reading of the clock.
    pub fn has_timed_out(&mut self) -> (r: bool)
        ensures
            final(self)@ == old(self)@,
            exists|now: u64|
                now >= old(self)@.last_reading && r == #[trigger] timed_out(
                    old(self)@.next_timeout,
                    now,
                ),
    {
        let now = self.elapsed_nanos();
        self.has_timed_out_at(now)
    }
}

} // verus!
