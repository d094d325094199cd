//! The Raft consensus decisions of one node: answering vote requests and
//! append-entries requests, and starting an election.

use vstd::prelude::*;

verus! {

/// The role a node plays in the Raft protocol.
#[derive(Debug, Clone, Copy, PartialEq, Eq, Structural)]
pub enum NodeState {
    Follower,
    Candidate,
    Leader,
}

/// An entry of the replicated log.
#[derive(Debug, Clone)]
pub struct LogEntry {
    /// The term in which the entry was created.
    pub term: u64,
    /// The entry's index.
    pub index: u64,
    /// The command carried.
    pub command: String,
    /// The command's payload.
    pub data: Vec<u8>,
    /// Creation time, in milliseconds since the epoch.
    pub timestamp: i64,
}

/// A candidate's request for a vote.
#[derive(Debug, Clone)]
pub struct VoteRequest {
    /// The candidate's term.
    pub term: u64,
    /// The candidate.
    pub candidate_id: String,
    /// Index of the candidate's last log entry.
    pub last_log_index: u64,
    /// Term of the candidate's last log entry.
    pub last_log_term: u64,
}

/// The answer to a vote request.
#[derive(Debug, Clone, Copy, PartialEq, Eq, Structural)]
pub struct VoteResponse {
    /// The responder's term.
    pub term: u64,
    /// Whether the vote was granted.
    pub vote_granted: bool,
}

/// A leader's request to append entries after a given log position.
#[derive(Debug, Clone)]
pub struct AppendEntriesRequest {
    /// The leader's term.
    pub term: u64,
    /// The leader.
    pub leader_id: String,
    /// Index of the entry that precedes the new ones (1-based; 0 for none).
    pub prev_log_index: u64,
    /// Term of that entry.
    pub prev_log_term: u64,
    /// The entries to append.
    pub entries: Vec<LogEntry>,
    /// The leader's commit index.
    pub leader_commit: u64,
}

/// The answer to an append-entries request.
#[derive(Debug, Clone, Copy, PartialEq, Eq, Structural)]
pub struct AppendEntriesResponse {
    /// The responder's term.
    pub term: u64,
    /// Whether the entries were accepted.
    pub success: bool,
    /// The length of the matching log prefix, when known.
    pub match_index: Option<u64>,
}

/// The term of the last entry of `log`, or 0 for an empty log.
pub open spec fn last_term(log: Seq<LogEntry>) -> u64 {
    if log.len() == 0 { 0 } else { log.last().term }
}

/// The term after a message of term `msg_term` arrives at a node in `term`.
pub open spec fn next_term(term: u64, msg_term: u64) -> u64 {
    if msg_term > term { msg_term } else { term }
}

/// The vote held after a message of term `msg_term` arrives: a newer term clears it.
pub open spec fn vote_after(term: u64, voted: Option<Seq<char>>, msg_term: u64) -> Option<Seq<char>> {
    if msg_term > term { None } else { voted }
}

/// Whether the candidate's log is at least as up to date as `log`.
pub open spec fn log_up_to_date(req: VoteRequest, log: Seq<LogEntry>) -> bool {
    req.last_log_term > last_term(log)
        || (req.last_log_term == last_term(log) && req.last_log_index >= log.len())
}

/// Whether a node in `term`, having voted for `voted`, with `log`, grants `req`.
pub open spec fn grants_vote(term: u64, voted: Option<Seq<char>>, log: Seq<LogEntry>, req: VoteRequest) -> bool {
    &&& req.term >= term
    &&& (vote_after(term, voted, req.term) is None || vote_after(term, voted, req.term) == Some(req.candidate_id@))
    &&& log_up_to_date(req, log)
}

/// The views of an optional string.
pub open spec fn opt_view(o: Option<String>) -> Option<Seq<char>> {
    match o {
        Some(s) => Some(s@),
        None => None,
    }
}

/// One node of a Raft group.
#[derive(Debug)]
pub struct RaftConsensus {
    node_id: String,
    current_term: u64,
    voted_for: Option<String>,
    log: Vec<LogEntry>,
    state: NodeState,
    peers: Vec<String>,
    election_timeout_ms: u64,
    heartbeat_interval_ms: u64,
}

impl RaftConsensus {
    pub closed spec fn node_id(&self) -> Seq<char> { self.node_id@ }
    pub closed spec fn term(&self) -> u64 { self.current_term }
    pub closed spec fn voted_for(&self) -> Option<Seq<char>> { opt_view(self.voted_for) }
    pub closed spec fn log(&self) -> Seq<LogEntry> { self.log@ }
    pub closed spec fn state(&self) -> NodeState { self.state }
    pub closed spec fn peer_count(&self) -> nat { self.peers@.len() }
    pub closed spec fn election_timeout_ms(&self) -> u64 { self.election_timeout_ms }
    pub closed spec fn heartbeat_interval_ms(&self) -> u64 { self.heartbeat_interval_ms }

    /// A follower in term 0 with an empty log and no vote, with a 150 ms
    /// election timeout and a 50 ms heartbeat interval.
    pub fn new(node_id: String, peers: Vec<String>) -> (r: RaftConsensus)
        ensures
            r.node_id() == node_id@,
            r.term() == 0,
            r.voted_for() is None,
            r.log().len() == 0,
            r.state() == NodeState::Follower,
            r.peer_count() == peers@.len(),
            r.election_timeout_ms() == 150,
            r.heartbeat_interval_ms() == 50,
    {
        RaftConsensus {
            node_id,
            current_term: 0,
            voted_for: None,
            log: Vec::new(),
            state: NodeState::Follower,
            peers,
            election_timeout_ms: 150,
            heartbeat_interval_ms: 50,
        }
    }

    /// Answers a vote request: a newer term is adopted (clearing the vote and
    /// stepping down); the vote is granted when the request's term is current,
    /// no other candidate holds this node's vote, and the candidate's log is
    /// at least as up to date.
    pub fn handle_vote_request(&mut self, request: VoteRequest) -> (resp: VoteResponse)
        ensures
            final(self).term() == next_term(old(self).term(), request.term),
            final(self).term() >= old(self).term(),
            resp.term == final(self).term(),
            resp.vote_granted == grants_vote(old(self).term(), old(self).voted_for(), old(self).log(), request),
            final(self).voted_for() == if resp.vote_granted { Some(request.candidate_id@) }
                else { vote_after(old(self).term(), old(self).voted_for(), request.term) },
            final(self).state() == if request.term > old(self).term() { NodeState::Follower } else { old(self).state() },
            final(self).log() == old(self).log(),
            final(self).node_id() == old(self).node_id(),
            final(self).peer_count() == old(self).peer_count(),
    {
        if request.term > self.current_term {
            self.current_term = request.term;
            self.voted_for = None;
            self.state = NodeState::Follower;
        }
        let vote_granted = if request.term < self.current_term {
            false
        } else if self.voted_for.is_some() && !same_candidate(&self.voted_for, &request.candidate_id) {
            false
        } else {
            let last_log_index = self.log.len() as u64;
            let last_log_term = if self.log.len() == 0 { 0 } else { self.log[self.log.len() - 1].term };
            request.last_log_term > last_log_term
                || (request.last_log_term == last_log_term && request.last_log_index >= last_log_index)
        };
        if vote_granted {
            self.voted_for = Some(request.candidate_id);
        }
        VoteResponse { term: self.current_term, vote_granted }
    }

    /// Answers an append-entries request. A stale term is refused. Otherwise
    /// the node becomes a follower; it refuses when its log is shorter than
    /// `prev_log_index`, truncates its log before a mismatching previous entry
    /// and refuses, and else replaces everything after `prev_log_index` with
    /// the new entries (when there are any) and accepts.
    pub fn handle_append_entries(&mut self, request: AppendEntriesRequest) -> (resp: AppendEntriesResponse)
        ensures
            final(self).term() == next_term(old(self).term(), request.term),
            final(self).term() >= old(self).term(),
            resp.term == final(self).term(),
            final(self).voted_for() == vote_after(old(self).term(), old(self).voted_for(), request.term),
            final(self).node_id() == old(self).node_id(),
            final(self).peer_count() == old(self).peer_count(),
            request.term < old(self).term() ==> {
                &&& resp == AppendEntriesResponse { term: old(self).term(), success: false, match_index: None }
                &&& final(self).state() == old(self).state()
                &&& final(self).log() == old(self).log()
            },
            request.term >= old(self).term() ==> final(self).state() == NodeState::Follower,
            request.term >= old(self).term() && request.prev_log_index > 0
                && old(self).log().len() < request.prev_log_index ==> {
                &&& !resp.success
                &&& resp.match_index == Some(old(self).log().len() as u64)
                &&& final(self).log() == old(self).log()
            },
            request.term >= old(self).term() && request.prev_log_index > 0
                && old(self).log().len() >= request.prev_log_index
                && old(self).log()[request.prev_log_index - 1].term != request.prev_log_term ==> {
                &&& !resp.success
                &&& resp.match_index == Some((request.prev_log_index - 1) as u64)
                &&& final(self).log() == old(self).log().take(request.prev_log_index - 1)
            },
            request.term >= old(self).term() && (request.prev_log_index == 0
                || old(self).log().len() >= request.prev_log_index
                && old(self).log()[request.prev_log_index - 1].term == request.prev_log_term) ==> {
                &&& resp.success
                &&& final(self).log() == if request.entries@.len() > 0 {
                        old(self).log().take(request.prev_log_index as int) + request.entries@
                    } else {
                        old(self).log()
                    }
                &&& resp.match_index == Some(final(self).log().len() as u64)
            },
    {
        if request.term > self.current_term {
            self.current_term = request.term;
            self.voted_for = None;
        }
        if request.term < self.current_term {
            return AppendEntriesResponse { term: self.current_term, success: false, match_index: None };
        }
        self.state = NodeState::Follower;
        let prev = request.prev_log_index;
        if prev > 0 {
            if (self.log.len() as u64) < prev {
                return AppendEntriesResponse {
                    term: self.current_term,
                    success: false,
                    match_index: Some(self.log.len() as u64),
                };
            }
            let prev_idx = (prev - 1) as usize;
            if self.log[prev_idx].term != request.prev_log_term {
                self.log.truncate(prev_idx);
                return AppendEntriesResponse {
                    term: self.current_term,
                    success: false,
                    match_index: Some(prev - 1),
                };
            }
        }
        if request.entries.len() > 0 {
            self.log.truncate(prev as usize);
            let mut entries = request.entries;
            self.log.append(&mut entries);
        }
        AppendEntriesResponse { term: self.current_term, success: true, match_index: Some(self.log.len() as u64) }
    }

    /// Starts an election: the term advances, the node votes for itself and
    /// becomes a candidate; counting its own vote and one from each peer it
    /// holds a majority and becomes leader.
    pub fn start_election(&mut self)
        requires
            old(self).term() < u64::MAX,
        ensures
            final(self).term() == old(self).term() + 1,
            final(self).voted_for() == Some(old(self).node_id()),
            final(self).state() == NodeState::Leader,
            final(self).log() == old(self).log(),
            final(self).node_id() == old(self).node_id(),
            final(self).peer_count() == old(self).peer_count(),
    {
        self.current_term = self.current_term + 1;
        self.voted_for = Some(self.node_id.clone());
        self.state = NodeState::Candidate;
        let peers = self.peers.len() as u128;
        let votes: u128 = 1 + peers;
        if votes > (peers + 1) / 2 {
            self.state = NodeState::Leader;
        }
    }
}

/// Whether the vote held is for `candidate`.
fn same_candidate(voted: &Option<String>, candidate: &String) -> (b: bool)
    ensures
        b == (opt_view(*voted) == Some(candidate@)),
{
    match voted {
        Some(v) => *v == *candidate,
        None => false,
    }
}

/// A node that has voted for one candidate in a term refuses every other
/// candidate asking in that same term.
pub proof fn law_one_vote_per_term(term: u64, voted: Seq<char>, log: Seq<LogEntry>, req: VoteRequest)
    requires
        req.term == term,
        req.candidate_id@ != voted,
    ensures
        !grants_vote(term, Some(voted), log, req),
{
}

/// A granted vote goes only to a candidate whose term is current and whose
/// log is at least as up to date as the voter's.
pub proof fn law_vote_needs_current_term_and_log(term: u64, voted: Option<Seq<char>>, log: Seq<LogEntry>, req: VoteRequest)
    requires
        grants_vote(term, voted, log, req),
    ensures
        req.term >= term,
        log_up_to_date(req, log),
{
}

/// Leader election keeps logs: a vote is never granted to a candidate whose
/// last log term is older than the voter's last entry, however long its log;
/// with equal last terms the candidate's log must be at least as long; and a
/// voter in the candidate's term that has not voted grants a candidate whose
/// last log term is newer than its own.
pub proof fn law_vote_compares_last_terms_first(term: u64, voted: Option<Seq<char>>, log: Seq<LogEntry>, req: VoteRequest)
    ensures
        log.len() > 0 && req.last_log_term < log[log.len() - 1].term ==> !grants_vote(term, voted, log, req),
        grants_vote(term, voted, log, req) && log.len() > 0 && req.last_log_term == log[log.len() - 1].term
            ==> req.last_log_index >= log.len(),
        req.term == term && voted is None && log.len() > 0 && req.last_log_term > log[log.len() - 1].term
            ==> grants_vote(term, voted, log, req),
        req.term == term && voted is None && log.len() == 0 ==> grants_vote(term, voted, log, req),
{
}

} // verus!
