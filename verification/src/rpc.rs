//! What travels between servers: turning requests and entries into wire
//! messages, reading vote answers out of the replies, and answering an
//! incoming message.
use crate::consensus::{handle_the_vote_request, vote_step};
use crate::server::Servers;
use crate::types::{log_entry, Rpc_Message, Vote_request, Vote_response};
use vstd::prelude::*;

verus! {

/// The vote answers among `messages`, in order; other messages are skipped.
pub open spec fn vote_answers(messages: Seq<Rpc_Message>) -> Seq<Vote_response>
    decreases messages.len(),
{
    if messages.len() == 0 {
        Seq::empty()
    } else {
        let rest = vote_answers(messages.drop_last());
        match messages.last() {
            Rpc_Message::Vote_response { term, vote_granted } => rest.push(
                Vote_response { term, vote_granted },
            ),
            _ => rest,
        }
    }
}

/// The wire message that asks for a vote.
pub fn vote_request_message(request: Vote_request) -> (m: Rpc_Message)
    ensures
        m matches Rpc_Message::Vote_request { term, candidate_id } && term == request.term
            && candidate_id@ == request.candidate_id@,
{
    Rpc_Message::Vote_request { term: request.term, candidate_id: request.candidate_id }
}

/// The wire message that carries a leader's entry.
pub fn log_entry_message(entry: log_entry) -> (m: Rpc_Message)
    ensures
        match entry {
            log_entry::Heartbeat { term, peer_id } => m matches Rpc_Message::Heart_beat {
                term: t,
                peer_id: p,
            } && t == term && p@ == peer_id@,
        },
{
    match entry {
        log_entry::Heartbeat { term, peer_id } => Rpc_Message::Heart_beat { term, peer_id },
    }
}

/// The vote answers among the peers' replies, in the order received.
pub fn vote_responses(messages: Vec<Rpc_Message>) -> (r: Vec<Vote_response>)
    ensures
        r@ == vote_answers(messages@),
{
    let mut response: Vec<Vote_response> = Vec::new();
    let mut i: usize = 0;
    while i < messages.len()
        invariant
            i <= messages.len(),
            response@ == vote_answers(messages@.subrange(0, i as int)),
        decreases messages.len() - i,
    {
        assert(messages@.subrange(0, i as int) =~= messages@.subrange(0, i + 1).drop_last());
        match &messages[i] {
            Rpc_Message::Vote_response { term, vote_granted } => {
                response.push(Vote_response { term: *term, vote_granted: *vote_granted });
            },
            _ => {},
        }
        i = i + 1;
    }
    assert(messages@.subrange(0, messages.len() as int) =~= messages@);
    response
}

/// Answers a message received from a peer.  A vote request is answered with
/// the server's vote; anything else changes nothing and gets no answer.
pub fn handle_the_message(server: &mut Servers, message: Rpc_Message) -> (reply: Option<
    Rpc_Message,
>)
    ensures
        match message {
            Rpc_Message::Vote_request { term, candidate_id } => {
                let (s, resp) = vote_step(old(server)@, term, candidate_id@);
                &&& final(server)@ == s
                &&& reply matches Some(Rpc_Message::Vote_response { term: t, vote_granted: g })
                &&& t == resp.term && g == resp.vote_granted
            },
            _ => reply is None && final(server)@ == old(server)@,
        },
{
    match message {
        Rpc_Message::Vote_request { term, candidate_id } => {
            let r = handle_the_vote_request(server, Vote_request { term, candidate_id });
            Some(Rpc_Message::Vote_response { term: r.term, vote_granted: r.vote_granted })
        },
        _ => None,
    }
}

} // verus!
