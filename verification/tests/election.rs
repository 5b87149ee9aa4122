use my_raft::consensus::{
    be_leader, conclude_election, timeout_handle_at, handle_the_vote_request, heartbeat_broadcast, heartbeat_entry,
    new_elect, prepare_the_request, timeout_handle, win_election,
};
use my_raft::server::Servers;
use my_raft::types::{
    log_entry, Address, RPC_client, State, Vote_request, Vote_response, LOCALHOST,
    VOTED_PEER_PORT,
};
use std::cell::RefCell;

/// A transport that answers every vote request with the given grants and
/// records what it was asked to send.
struct Recorder {
    grants: Vec<bool>,
    requests: RefCell<Vec<(u64, String)>>,
    entries: RefCell<Vec<(u64, String)>>,
}

impl Recorder {
    fn new(grants: Vec<bool>) -> Self {
        Recorder { grants, requests: RefCell::new(Vec::new()), entries: RefCell::new(Vec::new()) }
    }
}

impl RPC_client for Recorder {
    fn request_vote(&self, request: Vote_request) -> Vec<Vote_response> {
        self.requests.borrow_mut().push((request.term, request.candidate_id));
        self.grants
            .iter()
            .map(|g| Vote_response { term: request.term, vote_granted: *g })
            .collect()
    }

    fn broadcast_log_entry(&self, entry: log_entry) {
        match entry {
            log_entry::Heartbeat { term, peer_id } => self.entries.borrow_mut().push((term, peer_id)),
        }
    }
}

fn server(timeout: u64, peers: usize, id: &str) -> Servers {
    Servers::new(timeout, peers, Address::localhost(3300), id.to_string())
}

fn granted(n: usize, total: usize) -> Vec<Vote_response> {
    (0..total).map(|i| Vote_response { term: 1, vote_granted: i < n }).collect()
}

#[test]
fn new_server_is_a_follower_in_term_zero() {
    let s = server(3000, 2, "server1");
    assert_eq!(s.State, State::Follower);
    assert_eq!(s.term, 0);
    assert_eq!(s.id, "server1");
    assert_eq!(s.timeout, 3000);
    assert_eq!(s.number_of_peers, 2);
    assert_eq!(s.address, Address { ip: LOCALHOST, port: 3300 });
    assert!(s.voted_for.is_none());
    assert!(s.current_leader.is_none());
    assert!(s.log_entry.is_empty());
    assert_eq!(s.next_timeout, None);
}

#[test]
fn vote_is_granted_to_a_later_term() {
    let mut s = server(3000, 2, "server1");
    let r = handle_the_vote_request(&mut s, Vote_request { term: 4, candidate_id: "server2".to_string() });
    assert_eq!(r, Vote_response { term: 4, vote_granted: true });
    let p = s.voted_for.as_ref().unwrap();
    assert_eq!(p.id, "server2");
    assert_eq!(p.address, Address { ip: 0x7f00_0001, port: VOTED_PEER_PORT });
    assert_eq!(s.term, 0);
}

#[test]
fn vote_is_refused_to_the_same_term() {
    let mut s = server(3000, 2, "server1");
    let r = handle_the_vote_request(&mut s, Vote_request { term: 0, candidate_id: "server2".to_string() });
    assert_eq!(r, Vote_response { term: 0, vote_granted: false });
    assert!(s.voted_for.is_none());
}

#[test]
fn vote_is_granted_at_most_once() {
    let mut s = server(3000, 2, "server1");
    assert!(handle_the_vote_request(&mut s, Vote_request { term: 1, candidate_id: "a".to_string() }).vote_granted);
    let r = handle_the_vote_request(&mut s, Vote_request { term: 7, candidate_id: "b".to_string() });
    assert_eq!(r, Vote_response { term: 7, vote_granted: false });
    assert_eq!(s.voted_for.as_ref().unwrap().id, "a");
}

#[test]
fn candidate_refuses_every_vote() {
    let mut s = server(3000, 2, "server1");
    prepare_the_request(&mut s).unwrap();
    let r = handle_the_vote_request(&mut s, Vote_request { term: 9, candidate_id: "b".to_string() });
    assert!(!r.vote_granted);
    assert_eq!(s.voted_for.as_ref().unwrap().id, "server1");
}

#[test]
fn standing_for_election_moves_to_the_next_term() {
    let mut s = server(3_600_000_000_000, 2, "server1");
    let req = prepare_the_request(&mut s).unwrap();
    assert_eq!(req.term, 1);
    assert_eq!(req.candidate_id, "server1");
    assert_eq!(s.State, State::Candidate);
    assert_eq!(s.term, 1);
    let p = s.voted_for.as_ref().unwrap();
    assert_eq!(p.id, "server1");
    assert_eq!(p.address, Address::localhost(3300));
    assert!(s.next_timeout.unwrap() >= 3_600_000_000_000);
    assert!(!s.has_timed_out());
}

#[test]
fn leader_does_not_stand_for_election() {
    let mut s = server(3000, 2, "server1");
    s.become_leader();
    assert!(prepare_the_request(&mut s).is_none());
    assert_eq!(s.State, State::Leader);
    assert_eq!(s.term, 0);
}

#[test]
fn one_vote_wins_among_three() {
    let mut s = server(3000, 2, "server1");
    s.State = State::Candidate;
    assert!(win_election(&s, &granted(1, 2)));
    assert!(!win_election(&s, &granted(0, 2)));
}

#[test]
fn two_votes_needed_among_four() {
    let mut s = server(3000, 3, "server1");
    s.State = State::Candidate;
    assert!(!win_election(&s, &granted(1, 3)));
    assert!(win_election(&s, &granted(2, 3)));
}

#[test]
fn lone_candidate_wins_without_answers() {
    let mut s = server(3000, 0, "server1");
    s.State = State::Candidate;
    assert!(win_election(&s, &Vec::new()));
}

#[test]
fn only_a_candidate_wins() {
    let s = server(3000, 2, "server1");
    assert!(!win_election(&s, &granted(2, 2)));
    let mut l = server(3000, 2, "server1");
    l.become_leader();
    assert!(!win_election(&l, &granted(2, 2)));
}

#[test]
fn deadline_passes_after_the_timeout() {
    let mut s = server(50, 2, "server1");
    assert!(!s.has_timed_out_at(1000));
    s.refresh_timeout_at(100);
    assert_eq!(s.next_timeout, Some(150));
    assert!(!s.has_timed_out_at(150));
    assert!(s.has_timed_out_at(151));
}

#[test]
fn deadline_is_held_at_the_end_of_the_clock() {
    let mut s = server(50, 2, "server1");
    s.refresh_timeout_at(u64::MAX - 1);
    assert_eq!(s.next_timeout, Some(u64::MAX));
    assert!(!s.has_timed_out_at(u64::MAX));
}

#[test]
fn leader_never_times_out() {
    let mut s = server(50, 2, "server1");
    s.refresh_timeout_at(0);
    s.become_leader();
    assert_eq!(s.State, State::Leader);
    assert_eq!(s.next_timeout, None);
    assert!(!s.has_timed_out_at(u64::MAX));
    assert!(!s.has_timed_out());
}

#[test]
fn started_server_has_a_fresh_deadline() {
    let mut s = server(3_600_000_000_000, 2, "server1");
    assert!(!s.has_timed_out());
    s.start_severs();
    assert!(s.next_timeout.unwrap() >= 3_600_000_000_000);
    assert!(!s.has_timed_out());
    s.refresh_timeout();
    assert!(s.next_timeout.unwrap() >= 3_600_000_000_000);
}

#[test]
fn heartbeat_only_from_a_leader() {
    let mut s = server(3000, 2, "server1");
    assert!(heartbeat_entry(&s).is_none());
    s.term = 5;
    s.become_leader();
    match heartbeat_entry(&s) {
        Some(log_entry::Heartbeat { term, peer_id }) => {
            assert_eq!(term, 5);
            assert_eq!(peer_id, "server1");
        },
        None => panic!("a leader sends heartbeats"),
    }
}

#[test]
fn new_leader_announces_itself() {
    let mut s = server(3000, 2, "server1");
    s.term = 3;
    s.refresh_timeout_at(0);
    let rpc = Recorder::new(vec![]);
    be_leader(&mut s, &rpc);
    assert_eq!(s.State, State::Leader);
    assert_eq!(s.next_timeout, None);
    assert_eq!(rpc.entries.borrow().clone(), vec![(3, "server1".to_string())]);
}

#[test]
fn election_concludes_only_before_the_deadline() {
    let rpc = Recorder::new(vec![]);
    let mut s = server(3000, 2, "server1");
    s.State = State::Candidate;
    assert!(!conclude_election(&mut s, &granted(1, 2), true, &rpc));
    assert_eq!(s.State, State::Candidate);
    assert!(rpc.entries.borrow().is_empty());
    assert!(conclude_election(&mut s, &granted(1, 2), false, &rpc));
    assert_eq!(s.State, State::Leader);
    assert_eq!(rpc.entries.borrow().len(), 1);
}

#[test]
fn election_with_majority_makes_a_leader() {
    let mut s = server(3_600_000_000_000, 2, "server1");
    let rpc = Recorder::new(vec![true, false]);
    new_elect(&mut s, &rpc);
    assert_eq!(rpc.requests.borrow().clone(), vec![(1, "server1".to_string())]);
    assert_eq!(s.State, State::Leader);
    assert_eq!(s.term, 1);
    assert_eq!(s.next_timeout, None);
    assert_eq!(rpc.entries.borrow().clone(), vec![(1, "server1".to_string())]);
}

#[test]
fn election_without_majority_leaves_a_candidate() {
    let mut s = server(3_600_000_000_000, 2, "server1");
    let rpc = Recorder::new(vec![false, false]);
    new_elect(&mut s, &rpc);
    assert_eq!(s.State, State::Candidate);
    assert_eq!(s.term, 1);
    assert!(s.next_timeout.is_some());
    assert!(rpc.entries.borrow().is_empty());
}

#[test]
fn leader_holds_no_election() {
    let mut s = server(3000, 2, "server1");
    s.become_leader();
    let rpc = Recorder::new(vec![true, true]);
    new_elect(&mut s, &rpc);
    assert!(rpc.requests.borrow().is_empty());
    assert_eq!(s.term, 0);
}

#[test]
fn no_election_without_a_deadline() {
    let mut s = server(0, 2, "server1");
    let rpc = Recorder::new(vec![true, true]);
    timeout_handle(&mut s, &rpc);
    assert!(rpc.requests.borrow().is_empty());
    assert_eq!(s.State, State::Follower);
}

#[test]
fn no_election_before_the_deadline() {
    let mut s = server(3_600_000_000_000, 2, "server1");
    s.start_severs();
    let rpc = Recorder::new(vec![true, true]);
    timeout_handle(&mut s, &rpc);
    assert!(rpc.requests.borrow().is_empty());
    assert_eq!(s.State, State::Follower);
}

#[test]
fn election_after_the_deadline() {
    let mut s = server(0, 2, "server1");
    s.refresh_timeout_at(0);
    while !s.has_timed_out() {}
    let rpc = Recorder::new(vec![true, true]);
    timeout_handle(&mut s, &rpc);
    assert_eq!(rpc.requests.borrow().clone(), vec![(1, "server1".to_string())]);
    assert_eq!(s.term, 1);
}

#[test]
fn heartbeat_round_pauses_one_to_six_seconds() {
    let mut s = server(3000, 2, "server1");
    let rpc = Recorder::new(vec![]);
    let first = heartbeat_broadcast(&s, &rpc);
    assert!(rpc.entries.borrow().is_empty());
    s.become_leader();
    let mut differs = false;
    for _ in 0..200 {
        let p = heartbeat_broadcast(&s, &rpc);
        assert!((1..7).contains(&p));
        differs = differs || p != first;
    }
    assert!(differs);
    assert_eq!(rpc.entries.borrow().len(), 200);
}

#[test]
fn no_election_when_the_deadline_cannot_pass() {
    let mut s = server(10, 2, "server1");
    s.refresh_timeout_at(u64::MAX);
    let rpc = Recorder::new(vec![true, true]);
    timeout_handle(&mut s, &rpc);
    assert!(rpc.requests.borrow().is_empty());
    assert_eq!(s.State, State::Follower);
    assert_eq!(s.next_timeout, Some(u64::MAX));
}

#[test]
fn election_at_a_reading_past_the_deadline() {
    let mut s = server(50, 2, "server1");
    s.refresh_timeout_at(100);
    let rpc = Recorder::new(vec![false, false]);
    timeout_handle_at(&mut s, 150, &rpc);
    assert!(rpc.requests.borrow().is_empty());
    assert_eq!(s.State, State::Follower);
    assert_eq!(s.term, 0);
    assert_eq!(s.next_timeout, Some(150));
    timeout_handle_at(&mut s, 151, &rpc);
    assert_eq!(rpc.requests.borrow().clone(), vec![(1, "server1".to_string())]);
    assert_eq!(s.State, State::Candidate);
    assert_eq!(s.term, 1);
}

#[test]
fn leader_past_its_deadline_holds_no_election() {
    let mut s = server(50, 2, "server1");
    s.become_leader();
    s.refresh_timeout_at(0);
    let rpc = Recorder::new(vec![true, true]);
    timeout_handle_at(&mut s, 1000, &rpc);
    assert!(rpc.requests.borrow().is_empty());
    assert_eq!(s.State, State::Leader);
}

#[test]
fn more_votes_never_lose() {
    let mut s = server(3000, 3, "server1");
    s.State = State::Candidate;
    let mut answers = granted(2, 2);
    assert!(win_election(&s, &answers));
    answers.push(Vote_response { term: 1, vote_granted: true });
    assert!(win_election(&s, &answers));
    let mut losing = granted(1, 1);
    assert!(!win_election(&s, &losing));
    losing.push(Vote_response { term: 1, vote_granted: false });
    assert!(!win_election(&s, &losing));
}

#[test]
fn no_election_before_the_deadline_at_the_last_term() {
    let mut s = server(50, usize::MAX, "server1");
    s.term = u64::MAX;
    s.refresh_timeout_at(100);
    let rpc = Recorder::new(vec![true, true]);
    timeout_handle_at(&mut s, 120, &rpc);
    assert!(rpc.requests.borrow().is_empty());
    assert_eq!(s.term, u64::MAX);
    let mut idle = server(50, usize::MAX, "server2");
    idle.term = u64::MAX;
    timeout_handle(&mut idle, &rpc);
    assert!(rpc.requests.borrow().is_empty());
    assert_eq!(idle.State, State::Follower);
}

#[test]
fn candidate_refuses_every_later_request() {
    let mut s = server(3000, 2, "server1");
    prepare_the_request(&mut s).unwrap();
    for (term, id) in [(2u64, "a"), (5, "b"), (u64::MAX, "c")] {
        let r = handle_the_vote_request(&mut s, Vote_request { term, candidate_id: id.to_string() });
        assert_eq!(r, Vote_response { term, vote_granted: false });
    }
    assert_eq!(s.State, State::Candidate);
    assert_eq!(s.term, 1);
    assert_eq!(s.voted_for.as_ref().unwrap().id, "server1");
}
