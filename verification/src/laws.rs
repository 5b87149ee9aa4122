//! Properties of leader election that span several steps.
use crate::consensus::{elects_at, granted_votes, vote_step, wins};
use crate::server::{deadline, timed_out, ServersView};
use crate::rpc::vote_answers;
use crate::types::{Rpc_Message, State, Vote_response};
use vstd::prelude::*;

verus! {

/// A leader has no election deadline.
pub open spec fn leader_has_no_deadline(s: ServersView) -> bool {
    s.state == State::Leader ==> s.next_timeout is None
}

/// A server grants at most one vote: once it has granted a vote, every
/// later request is refused and leaves the server as it is.
pub proof fn lemma_vote_granted_at_most_once(
    s: ServersView,
    term1: u64,
    candidate1: Seq<char>,
    term2: u64,
    candidate2: Seq<char>,
)
    requires
        vote_step(s, term1, candidate1).1.vote_granted,
    ensures
        !vote_step(vote_step(s, term1, candidate1).0, term2, candidate2).1.vote_granted,
        vote_step(vote_step(s, term1, candidate1).0, term2, candidate2).0 == vote_step(
            s,
            term1,
            candidate1,
        ).0,
{
}

/// A vote is granted only to a candidate of a later term than the server's
/// own, and every answer carries the term of the request it answers.
pub proof fn lemma_vote_only_for_later_term(s: ServersView, term: u64, candidate: Seq<char>)
    ensures
        vote_step(s, term, candidate).1.vote_granted ==> term > s.term,
        vote_step(s, term, candidate).1.term == term,
{
}

/// A server that has stood for election has voted for itself, so it
/// refuses every vote request and stays as it is.
pub proof fn lemma_candidate_refuses_votes(
    s: ServersView,
    now: u64,
    term: u64,
    candidate: Seq<char>,
)
    ensures
        !vote_step(s.candidacy(now), term, candidate).1.vote_granted,
        vote_step(s.candidacy(now), term, candidate).0 == s.candidacy(now),
{
}

/// The server and its answers after it has answered `requests`, each a term
/// and a candidate id, one after another.
pub open spec fn answer_all(s: ServersView, requests: Seq<(u64, Seq<char>)>) -> (
    ServersView,
    Seq<Vote_response>,
)
    decreases requests.len(),
{
    if requests.len() == 0 {
        (s, Seq::empty())
    } else {
        let (mid, answers) = answer_all(s, requests.drop_last());
        let (f, r) = vote_step(mid, requests.last().0, requests.last().1);
        (f, answers.push(r))
    }
}

/// A server that has voted refuses every later request, however many come,
/// and stays as it is.
pub proof fn lemma_voted_server_refuses_every_request(
    s: ServersView,
    requests: Seq<(u64, Seq<char>)>,
)
    requires
        s.voted_for is Some,
    ensures
        answer_all(s, requests).0 == s,
        answer_all(s, requests).1.len() == requests.len(),
        forall|i: int|
            0 <= i < requests.len() ==> !(#[trigger] answer_all(s, requests).1[i]).vote_granted,
    decreases requests.len(),
{
    if requests.len() > 0 {
        lemma_voted_server_refuses_every_request(s, requests.drop_last());
    }
}

/// A candidate has voted for itself, so it refuses every request that
/// follows, however many come, and stays as it is.
pub proof fn lemma_candidate_refuses_every_request(
    s: ServersView,
    now: u64,
    requests: Seq<(u64, Seq<char>)>,
)
    ensures
        answer_all(s.candidacy(now), requests).0 == s.candidacy(now),
        forall|i: int|
            0 <= i < requests.len() ==> !(#[trigger] answer_all(s.candidacy(now), requests).1[i]).vote_granted,
{
    lemma_voted_server_refuses_every_request(s.candidacy(now), requests);
}

/// Counting a candidate's own vote, an election is won exactly when the
/// votes are a strict majority of the cluster of `number_of_peers + 1`
/// servers.
pub proof fn lemma_election_needs_strict_majority(s: ServersView, responses: Seq<Vote_response>)
    ensures
        wins(s, responses) <==> (s.state == State::Candidate && 2 * (granted_votes(responses) + 1)
            > s.number_of_peers + 1),
{
    let n = s.number_of_peers + 1;
    let g = granted_votes(responses) + 1;
    assert(g > n / 2 <==> 2 * g > n) by (nonlinear_arith)
        requires
            n >= 1,
            g >= 1,
    ;
}

/// No more votes are granted than there are answers.
pub proof fn lemma_granted_votes_at_most_answers(responses: Seq<Vote_response>)
    ensures
        granted_votes(responses) <= responses.len(),
    decreases responses.len(),
{
    if responses.len() > 0 {
        lemma_granted_votes_at_most_answers(responses.drop_last());
    }
}

/// One more answer never turns a won election into a lost one: a granted
/// vote keeps a win a win, and a refused one changes nothing.
pub proof fn lemma_more_votes_never_lose(
    s: ServersView,
    responses: Seq<Vote_response>,
    answer: Vote_response,
)
    ensures
        answer.vote_granted && wins(s, responses) ==> wins(s, responses.push(answer)),
        !answer.vote_granted ==> (wins(s, responses.push(answer)) == wins(s, responses)),
{
    assert(responses.push(answer).drop_last() =~= responses);
}

/// A refreshed deadline lies `timeout` after the reading it was set at: the
/// server times out exactly at the readings past it, and not before the
/// timeout has run out.
pub proof fn lemma_deadline_after_refresh(s: ServersView, now: u64, later: u64)
    ensures
        timed_out(s.refreshed(now).next_timeout, later) <==> later > deadline(now, s.timeout),
        later <= now + s.timeout ==> !timed_out(s.refreshed(now).next_timeout, later),
{
}

/// Taking the lead leaves no deadline, so a leader never times out; the
/// steps of an election keep a leader free of deadlines.
pub proof fn lemma_leader_never_times_out(
    s: ServersView,
    now: u64,
    later: u64,
    term: u64,
    candidate: Seq<char>,
)
    ensures
        !timed_out(s.leading().next_timeout, later),
        leader_has_no_deadline(s.leading()),
        leader_has_no_deadline(s.candidacy(now)),
        leader_has_no_deadline(s) ==> leader_has_no_deadline(vote_step(s, term, candidate).0),
        leader_has_no_deadline(s) && s.state != State::Leader ==> leader_has_no_deadline(
            s.refreshed(now),
        ),
{
}

/// Terms never go back: answering votes, setting deadlines and taking the
/// lead keep the term, and standing for election moves it one forward.
pub proof fn lemma_terms_never_decrease(s: ServersView, now: u64, term: u64, candidate: Seq<char>)
    requires
        s.term < u64::MAX,
    ensures
        vote_step(s, term, candidate).0.term == s.term,
        s.refreshed(now).term == s.term,
        s.leading().term == s.term,
        s.candidacy(now).term == s.term + 1,
        s.candidacy(now).leading().term == s.term + 1,
{
}

/// Every granted answer counts, wherever it stands: the granted votes are
/// exactly the answers that grant.
pub proof fn lemma_granted_votes_counts_grants(responses: Seq<Vote_response>)
    ensures
        granted_votes(responses) == responses.filter(|r: Vote_response| r.vote_granted).len(),
    decreases responses.len(),
{
    reveal_with_fuel(Seq::filter, 2);
    if responses.len() > 0 {
        lemma_granted_votes_counts_grants(responses.drop_last());
    }
}

/// The granted votes of two runs of answers add up, so the order in which
/// answers arrive does not change the count.
pub proof fn lemma_granted_votes_add_up(a: Seq<Vote_response>, b: Seq<Vote_response>)
    ensures
        granted_votes(a + b) == granted_votes(a) + granted_votes(b),
        granted_votes(a + b) == granted_votes(b + a),
{
    lemma_granted_votes_sum(a, b);
    lemma_granted_votes_sum(b, a);
}

proof fn lemma_granted_votes_sum(a: Seq<Vote_response>, b: Seq<Vote_response>)
    ensures
        granted_votes(a + b) == granted_votes(a) + granted_votes(b),
    decreases b.len(),
{
    if b.len() == 0 {
        assert(a + b =~= a);
    } else {
        lemma_granted_votes_sum(a, b.drop_last());
        assert((a + b).drop_last() =~= a + b.drop_last());
        assert((a + b).last() == b.last());
    }
}

/// Counting the candidate's own vote, an election is won exactly when the
/// candidate and the answers that grant are a strict majority of the
/// cluster.
pub proof fn lemma_win_counts_every_grant(s: ServersView, responses: Seq<Vote_response>)
    ensures
        wins(s, responses) <==> (s.state == State::Candidate && 2 * (responses.filter(
            |r: Vote_response| r.vote_granted,
        ).len() + 1) > s.number_of_peers + 1),
{
    lemma_granted_votes_counts_grants(responses);
    lemma_election_needs_strict_majority(s, responses);
}

/// Every vote answer among two runs of replies is kept, the first run's
/// before the second's.
pub proof fn lemma_vote_answers_add_up(a: Seq<Rpc_Message>, b: Seq<Rpc_Message>)
    ensures
        vote_answers(a + b) == vote_answers(a) + vote_answers(b),
    decreases b.len(),
{
    if b.len() == 0 {
        assert(a + b =~= a);
        assert(vote_answers(a) + vote_answers(b) =~= vote_answers(a));
    } else {
        lemma_vote_answers_add_up(a, b.drop_last());
        assert((a + b).drop_last() =~= a + b.drop_last());
        assert((a + b).last() == b.last());
        match b.last() {
            Rpc_Message::Vote_response { term, vote_granted } => {
                assert(vote_answers(a) + vote_answers(b) =~= (vote_answers(a) + vote_answers(
                    b.drop_last(),
                )).push(Vote_response { term, vote_granted }));
            },
            _ => {},
        }
    }
}

/// A single reply yields its vote answer when it is one, and nothing
/// otherwise.
pub proof fn lemma_vote_answers_of_one(m: Rpc_Message)
    ensures
        vote_answers(seq![m]) == match m {
            Rpc_Message::Vote_response { term, vote_granted } => seq![
                Vote_response { term, vote_granted },
            ],
            _ => Seq::<Vote_response>::empty(),
        },
{
    assert(seq![m].drop_last() =~= Seq::<Rpc_Message>::empty());
    assert(seq![m].last() == m);
    assert(vote_answers(Seq::<Rpc_Message>::empty()) == Seq::<Vote_response>::empty());
    match m {
        Rpc_Message::Vote_response { term, vote_granted } => {
            assert(Seq::<Vote_response>::empty().push(Vote_response { term, vote_granted })
                =~= seq![Vote_response { term, vote_granted }]);
        },
        _ => {},
    }
}

/// There is one answer for each vote answer among the replies.
pub proof fn lemma_vote_answers_one_per_reply(messages: Seq<Rpc_Message>)
    ensures
        vote_answers(messages).len() == messages.filter(
            |m: Rpc_Message| m is Vote_response,
        ).len(),
    decreases messages.len(),
{
    reveal_with_fuel(Seq::filter, 2);
    if messages.len() > 0 {
        lemma_vote_answers_one_per_reply(messages.drop_last());
    }
}

/// A server that is not leader and whose deadline had already passed by
/// its last reading of the clock stands for election when its timeout is
/// handled: it moves to the next term as a candidate that has voted for
/// itself, or has gone on to take the lead.
pub proof fn lemma_overdue_server_stands(s: ServersView, f: ServersView, now: u64)
    requires
        now >= s.last_reading,
        elects_at(s, f, now),
        s.state != State::Leader,
        timed_out(s.next_timeout, s.last_reading),
        s.term < u64::MAX,
    ensures
        f.term == s.term + 1,
        f.state == State::Candidate || f.state == State::Leader,
        f.voted_for == Some(crate::types::PeerView { id: s.id, address: s.address }),
        f.last_reading >= s.last_reading,
{
}

/// A fresh candidate has a deadline a whole timeout after its reading, so
/// it has not timed out at that reading, nor at any later one within the
/// timeout; and its reading is no earlier than the one before.
pub proof fn lemma_fresh_candidate_has_time(s: ServersView, now: u64, later: u64)
    requires
        now >= s.last_reading,
        now <= later <= now + s.timeout,
    ensures
        !timed_out(s.candidacy(now).next_timeout, later),
        !timed_out(s.candidacy(now).next_timeout, s.candidacy(now).last_reading),
        s.candidacy(now).last_reading >= s.last_reading,
{
}

} // verus!
