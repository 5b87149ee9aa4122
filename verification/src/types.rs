//! The values that Raft servers keep and exchange.
use vstd::prelude::*;

verus! {

/// The role a server plays in the current term.
#[derive(PartialEq, Eq, Structural, Clone, Copy, Debug)]
pub enum State {
    Leader,
    Candidate,
    Follower,
}

/// Client-side bookkeeping; clients carry no state yet.
pub struct Clients {}

/// The IPv4 loopback address, 127.0.0.1, as a big-endian integer.
pub const LOCALHOST: u32 = 0x7f00_0001;

/// The port recorded for a candidate that was granted a vote.
pub const VOTED_PEER_PORT: u16 = 7879;

/// An IPv4 socket address: the four octets of the host as a big-endian
/// integer, and the port.
#[derive(PartialEq, Eq, Structural, Clone, Copy, Debug)]
pub struct Address {
    pub ip: u32,
    pub port: u16,
}

impl Address {
    /// The loopback host at `port`.
    pub fn localhost(port: u16) -> (a: Address)
        ensures
            a == (Address { ip: LOCALHOST, port }),
    {
        Address { ip: LOCALHOST, port }
    }
}

/// What is known of the leader of a term.
#[derive(Debug)]
pub struct Leader {
    pub id: String,
    pub term: u64,
}

/// The model of a [`Leader`]: its id as characters, and its term.
pub struct LeaderView {
    pub id: Seq<char>,
    pub term: u64,
}

impl View for Leader {
    type V = LeaderView;

    open spec fn view(&self) -> LeaderView {
        LeaderView { id: self.id@, term: self.term }
    }
}

/// Another server of the cluster, by id and address.
#[derive(Debug)]
pub struct Peer {
    pub id: String,
    pub address: Address,
}

/// The model of a [`Peer`]: its id as characters, and its address.
pub struct PeerView {
    pub id: Seq<char>,
    pub address: Address,
}

impl View for Peer {
    type V = PeerView;

    open spec fn view(&self) -> PeerView {
        PeerView { id: self.id@, address: self.address }
    }
}

/// A candidate's request for votes in `term`.
#[derive(Debug)]
pub struct Vote_request {
    pub term: u64,
    pub candidate_id: String,
}

/// A server's answer to a [`Vote_request`].
#[derive(PartialEq, Eq, Structural, Clone, Copy, Debug)]
pub struct Vote_response {
    pub term: u64,
    pub vote_granted: bool,
}

/// An entry that a leader sends to its followers.
#[derive(Debug)]
pub enum log_entry {
    Heartbeat { term: u64, peer_id: String },
}

/// The messages that servers exchange over the wire.
#[derive(Debug)]
pub enum Rpc_Message {
    Vote_request { term: u64, candidate_id: String },
    Vote_response { term: u64, vote_granted: bool },
    Heart_beat { term: u64, peer_id: String },
    Heart_beat_response { term: u64, peer_id: String },
}

/// The transport through which a server reaches its peers.
///
/// A transport asks every peer to vote and hands back the answers it got,
/// and it delivers a leader's entries to every peer.  Nothing is assumed of
/// what an implementation returns.
pub trait RPC_client {
    /// Sends `request` to every peer and returns the answers received.
    fn request_vote(&self, request: Vote_request) -> Vec<Vote_response>;

    /// Sends `log_entry` to every peer.
    fn broadcast_log_entry(&self, log_entry: log_entry);
}

} // verus!
