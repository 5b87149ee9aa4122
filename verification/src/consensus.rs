//! Leader election: answering vote requests, standing for election,
//! counting votes and sending heartbeats.
use crate::server::{timed_out, Servers, ServersView};
use crate::types::{
    log_entry, Address, Peer, PeerView, RPC_client, State, Vote_request, Vote_response,
    LOCALHOST, VOTED_PEER_PORT,
};
use rand::Rng;
use vstd::prelude::*;

verus! {

/// `rand::Rng::gen_range` on `rand::thread_rng()` over `low..high`: the
/// crate documents a value drawn from `low` up to but not including `high`,
/// and a panic on an empty range, which `requires` leaves out.
#[verifier::external_body]
fn random_in_range(low: u64, high: u64) -> (r: u64)
    requires
        low < high,
    ensures
        low <= r < high,
{
    rand::thread_rng().gen_range(low..high)
}

/// The server and the answer after a vote request for `term` from
/// `candidate`: a server that has not voted grants the vote to a candidate
/// of a later term than its own, and records the vote.
pub open spec fn vote_step(s: ServersView, term: u64, candidate: Seq<char>) -> (
    ServersView,
    Vote_response,
) {
    if s.voted_for is None && term > s.term {
        (
            ServersView {
                voted_for: Some(
                    PeerView {
                        id: candidate,
                        address: Address { ip: LOCALHOST, port: VOTED_PEER_PORT },
                    },
                ),
                ..s
            },
            Vote_response { term, vote_granted: true },
        )
    } else {
        (s, Vote_response { term, vote_granted: false })
    }
}

/// How many of the answers grant the vote.
pub open spec fn granted_votes(responses: Seq<Vote_response>) -> nat
    decreases responses.len(),
{
    if responses.len() == 0 {
        0
    } else {
        granted_votes(responses.drop_last()) + if responses.last().vote_granted {
            1nat
        } else {
            0nat
        }
    }
}

/// Whether a candidate with these answers has won: its own vote and the
/// granted ones are more than half, rounded down, of the cluster.
pub open spec fn wins(s: ServersView, responses: Seq<Vote_response>) -> bool {
    &&& granted_votes(responses) + 1 > (s.number_of_peers + 1) / 2
    &&& s.state == State::Candidate
}

/// Whether `entry` is the heartbeat of `term` sent by `id`.
pub open spec fn is_heartbeat(entry: log_entry, term: u64, id: Seq<char>) -> bool {
    entry matches log_entry::Heartbeat { term: t, peer_id } && t == term && peer_id@ == id
}

/// Answers a vote request, recording the vote where it is granted.  The
/// answer carries the request's term.
pub fn handle_the_vote_request(server: &mut Servers, vote_request: Vote_request) -> (r:
    Vote_response)
    ensures
        (final(server)@, r) == vote_step(old(server)@, vote_request.term, vote_request.candidate_id@),
{
    match server.voted_for {
        Some(_) => Vote_response { term: vote_request.term, vote_granted: false },
        None => {
            if vote_request.term > server.term {
                server.voted_for = Some(
                    Peer { id: vote_request.candidate_id, address: Address::localhost(VOTED_PEER_PORT) },
                );
                Vote_response { term: vote_request.term, vote_granted: true }
            } else {
                Vote_response { term: vote_request.term, vote_granted: false }
            }
        },
    }
}

/// Stands for election: a leader stays as it is and asks for nothing;
/// any other server becomes a candidate of the next term, votes for itself,
/// sets a fresh deadline `timeout` after the present reading of the clock,
/// which is no earlier than its last reading, remembers that reading, and
/// asks for votes in its new term.
pub fn prepare_the_request(server: &mut Servers) -> (r: Option<Vote_request>)
    requires
        old(server)@.state != State::Leader ==> old(server)@.term < u64::MAX,
    ensures
        old(server)@.state == State::Leader ==> r is None && final(server)@ == old(server)@,
        old(server)@.state != State::Leader ==> {
            &&& exists|now: u64|
                now >= old(server)@.last_reading
                    && final(server)@ == #[trigger] old(server)@.candidacy(now)
            &&& r matches Some(req) && req.term == old(server)@.term + 1 && req.candidate_id@
                == old(server)@.id
        },
{
    if server.State == State::Leader {
        return None;
    }
    server.State = State::Candidate;
    server.term = server.term + 1;
    let now = server.elapsed_nanos();
    server.refresh_timeout_at(now);
    server.last_reading = now;
    server.voted_for = Some(Peer { id: server.id.clone(), address: server.address });
    assert(server@ == old(server)@.candidacy(now));
    let new_term = server.term;
    let id = server.id.clone();
    Some(Vote_request { term: new_term, candidate_id: id })
}

/// Whether the server, a candidate, has won the election with these
/// answers.
pub fn win_election(server: &Servers, response: &Vec<Vote_response>) -> (r: bool)
    requires
        server@.number_of_peers < usize::MAX,
    ensures
        r == wins(server@, response@),
{
    let number = server.number_of_peers + 1;
    let mut vote: usize = 0;
    let mut i: usize = 0;
    while i < response.len()
        invariant
            i <= response.len(),
            vote <= i,
            vote == granted_votes(response@.subrange(0, i as int)),
        decreases response.len() - i,
    {
        assert(response@.subrange(0, i as int) =~= response@.subrange(0, i + 1).drop_last());
        if response[i].vote_granted {
            vote = vote + 1;
        }
        i = i + 1;
    }
    assert(response@.subrange(0, response.len() as int) =~= response@);
    let mini = number / 2;
    vote >= mini && server.State == State::Candidate
}

/// The heartbeat a leader sends: one in its term, from its id; none from
/// any other server.
pub fn heartbeat_entry(server: &Servers) -> (r: Option<log_entry>)
    ensures
        r is Some <==> server@.state == State::Leader,
        r matches Some(e) ==> is_heartbeat(e, server@.term, server@.id),
{
    if server.State == State::Leader {
        Some(log_entry::Heartbeat { term: server.term, peer_id: server.id.clone() })
    } else {
        None
    }
}

/// Takes the lead and announces it with a heartbeat of the server's term.
pub fn be_leader<C: RPC_client>(server: &mut Servers, rpc: &C)
    ensures
        final(server)@ == old(server)@.leading(),
{
    server.become_leader();
    if let Some(entry) = heartbeat_entry(server) {
        rpc.broadcast_log_entry(entry);
    }
}

/// Ends an election with the answers received: the server takes the lead
/// when it has won and its deadline had not passed, and is left as it is
/// otherwise.  Returns whether it took the lead.
pub fn conclude_election<C: RPC_client>(
    server: &mut Servers,
    responses: &Vec<Vote_response>,
    timed_out: bool,
    rpc: &C,
) -> (won: bool)
    requires
        old(server)@.number_of_peers < usize::MAX,
    ensures
        won == (wins(old(server)@, responses@) && !timed_out),
        won ==> final(server)@ == old(server)@.leading(),
        !won ==> final(server)@ == old(server)@,
{
    let own_election = win_election(server, responses) && !timed_out;
    if own_election {
        be_leader(server, rpc);
    }
    own_election
}

/// Runs an election: a server that is not leader stands as candidate,
/// asks its peers for votes, and takes the lead when it has won before its
/// deadline passed.
pub fn new_elect<C: RPC_client>(server: &mut Servers, rpc: &C)
    requires
        old(server)@.state != State::Leader ==> old(server)@.term < u64::MAX
            && old(server)@.number_of_peers < usize::MAX,
    ensures
        old(server)@.state == State::Leader ==> final(server)@ == old(server)@,
        old(server)@.state != State::Leader ==> exists|now: u64|
            now >= old(server)@.last_reading && {
                ||| final(server)@ == #[trigger] old(server)@.candidacy(now)
                ||| final(server)@ == old(server)@.candidacy(now).leading()
            },
{
    let vote_request = prepare_the_request(server);
    if let Some(request) = vote_request {
        let responses = rpc.request_vote(request);
        let timed_out = server.has_timed_out();
        conclude_election(server, &responses, timed_out, rpc);
    }
}

/// How a server `s` may end, as `f`, after its deadline was tested at the
/// reading `now`: when the deadline had passed, a leader stays as it is and
/// any other server has stood for election and perhaps taken the lead; when
/// it had not, the server stays as it is.
pub open spec fn elects_at(s: ServersView, f: ServersView, now: u64) -> bool {
    if timed_out(s.next_timeout, now) {
        if s.state == State::Leader {
            f == s
        } else {
            exists|t: u64|
                t >= s.last_reading && {
                    ||| f == #[trigger] s.candidacy(t)
                    ||| f == s.candidacy(t).leading()
                }
        }
    } else {
        f == s
    }
}

/// Starts an election when the deadline has passed at the reading `now`;
/// does nothing otherwise.
pub fn timeout_handle_at<C: RPC_client>(server: &mut Servers, now: u64, rpc: &C)
    requires
        timed_out(old(server)@.next_timeout, now) && old(server)@.state != State::Leader
            ==> old(server)@.term < u64::MAX && old(server)@.number_of_peers < usize::MAX,
    ensures
        elects_at(old(server)@, final(server)@, now),
{
    if server.has_timed_out_at(now) {
        new_elect(server, rpc);
    }
}

/// Starts an election when the deadline has passed at the present reading of
/// the clock; does nothing otherwise.  The server ends as
/// [`timeout_handle_at`] leaves it at the reading taken; a server whose
/// deadline can never pass is left as it is.
pub fn timeout_handle<C: RPC_client>(server: &mut Servers, rpc: &C)
    requires
        old(server)@.state != State::Leader && (old(server)@.next_timeout matches Some(d) && d
            < u64::MAX) ==> old(server)@.term < u64::MAX && old(server)@.number_of_peers
            < usize::MAX,
    ensures
        exists|now: u64|
            now >= old(server)@.last_reading && #[trigger] elects_at(
                old(server)@,
                final(server)@,
                now,
            ),
        old(server)@.next_timeout is None || old(server)@.next_timeout == Some(u64::MAX)
            ==> final(server)@ == old(server)@,
{
    let now = server.elapsed_nanos();
    timeout_handle_at(server, now, rpc);
}

/// A leader sends its heartbeat to every peer.  Returns how many seconds
/// to pause before the next round, drawn at random from 1 up to but not
/// including 7; the draw is all the contract can say of the value.
pub fn heartbeat_broadcast<C: RPC_client>(server: &Servers, rpc: &C) -> (pause_secs: u64)
    ensures
        1 <= pause_secs < 7,
{
    if let Some(entry) = heartbeat_entry(server) {
        rpc.broadcast_log_entry(entry);
    }
    random_in_range(1, 7)
}

} // verus!
