//! MCP servers: which servers are known and in what state, and the rules
//! for starting, stopping and messaging them.

use vstd::prelude::*;
use crate::config::McpServerConfig;
use crate::error::{ClaudeError, Result, concat_str};
use crate::keyed::{unique_keys, key_map, lemma_key_at, lemma_key_update, lemma_key_push, lemma_key_remove, lemma_key_map_len, find_key};
use crate::text::string_views;

verus! {

/// MCP 服务器状态
#[derive(Debug, Clone)]
pub enum McpServerStatus {
    Stopped,
    Starting,
    Running,
    Stopping,
    Error(String),
}

/// A server the manager knows: its configuration and its state. The
/// process itself is held by whoever started it.
#[derive(Debug, Clone)]
pub struct McpServerInstance {
    pub config: McpServerConfig,
    pub status: McpServerStatus,
}

/// The servers by name.
pub struct McpManager {
    running_servers: Vec<(String, McpServerInstance)>,
}

/// An MCP error whose message is `a`, the server's name, then `b`.
pub open spec fn is_server_error(e: ClaudeError, a: Seq<char>, name: Seq<char>, b: Seq<char>) -> bool {
    e matches ClaudeError::McpServer { message } && message@ == a + name + b
}

fn server_error(a: &str, name: &str, b: &str) -> (e: ClaudeError)
    ensures
        is_server_error(e, a@, name@, b@),
{
    let mut m = concat_str(a, name);
    m.append(b);
    ClaudeError::McpServer { message: m }
}

/// A copy of a status.
fn copy_status(s: &McpServerStatus) -> (c: McpServerStatus)
    ensures
        c == *s,
{
    match s {
        McpServerStatus::Stopped => McpServerStatus::Stopped,
        McpServerStatus::Starting => McpServerStatus::Starting,
        McpServerStatus::Running => McpServerStatus::Running,
        McpServerStatus::Stopping => McpServerStatus::Stopping,
        McpServerStatus::Error(m) => McpServerStatus::Error(m.clone()),
    }
}

impl McpManager {
    /// The known servers' states, by name.
    pub closed spec fn statuses(&self) -> Map<Seq<char>, McpServerStatus> {
        key_map(self.running_servers@).map_values(|i: McpServerInstance| i.status)
    }

    /// Server names are distinct.
    pub closed spec fn well_formed(&self) -> bool {
        unique_keys(self.running_servers@)
    }

    /// A manager that knows no server.
    pub fn new() -> (m: McpManager)
        ensures
            m.well_formed(),
            m.statuses() == Map::<Seq<char>, McpServerStatus>::empty(),
    {
        let m = McpManager { running_servers: Vec::new() };
        assert(m.statuses() =~= Map::<Seq<char>, McpServerStatus>::empty());
        m
    }

    /// Whether a server named `name` may be started: not while one of that
    /// name is running.
    pub fn check_start(&self, name: &str) -> (res: Result<()>)
        requires
            self.well_formed(),
        ensures
            res is Err <==> (self.statuses().contains_key(name@) && self.statuses()[name@] is Running),
            res matches Err(e) ==> is_server_error(e, "Server '"@, name@, "' is already running"@),
    {
        match find_key(&self.running_servers, name) {
            Some(i) => {
                proof { lemma_key_at(self.running_servers@, i as int); }
                match self.running_servers[i].1.status {
                    McpServerStatus::Running => Err(server_error("Server '", name, "' is already running")),
                    _ => Ok(()),
                }
            },
            None => Ok(()),
        }
    }

    /// Records that the server `config` describes has been started: it is
    /// running, in place of any server of that name.
    pub fn record_started(&mut self, config: McpServerConfig)
        requires
            old(self).well_formed(),
        ensures
            final(self).well_formed(),
            final(self).statuses() == old(self).statuses().insert(config.name@, McpServerStatus::Running),
    {
        let name = config.name.clone();
        let inst = McpServerInstance { config, status: McpServerStatus::Running };
        let ghost before = self.running_servers@;
        match find_key(&self.running_servers, name.as_str()) {
            Some(i) => {
                proof { lemma_key_update(before, i as int, (name, inst)); }
                self.running_servers.set(i, (name, inst));
            },
            None => {
                proof { lemma_key_push(before, (name, inst)); }
                self.running_servers.push((name, inst));
            },
        }
        assert(self.statuses() =~= old(self).statuses().insert(name@, McpServerStatus::Running));
    }

    /// Forgets the server `name` as it is being stopped, and gives it back
    /// with the state `Stopping`; an unknown server is refused.
    pub fn stop_server(&mut self, name: &str) -> (res: Result<McpServerInstance>)
        requires
            old(self).well_formed(),
        ensures
            final(self).well_formed(),
            res is Ok <==> old(self).statuses().contains_key(name@),
            res matches Ok(inst) ==> inst.status is Stopping
                && final(self).statuses() == old(self).statuses().remove(name@),
            res matches Err(e) ==> is_server_error(e, "Server '"@, name@, "' not found"@)
                && final(self).statuses() == old(self).statuses(),
    {
        match find_key(&self.running_servers, name) {
            Some(i) => {
                let ghost before = self.running_servers@;
                proof {
                    lemma_key_at(before, i as int);
                    lemma_key_remove(before, i as int);
                }
                let (_k, mut inst) = self.running_servers.remove(i);
                inst.status = McpServerStatus::Stopping;
                assert(self.statuses() =~= old(self).statuses().remove(name@));
                Ok(inst)
            },
            None => Err(server_error("Server '", name, "' not found")),
        }
    }

    /// Whether a message may be sent to the server `name`: it must be known
    /// and running.
    pub fn check_send(&self, name: &str) -> (res: Result<()>)
        requires
            self.well_formed(),
        ensures
            res is Ok <==> (self.statuses().contains_key(name@) && self.statuses()[name@] is Running),
            !self.statuses().contains_key(name@) ==> (res matches Err(e)
                && is_server_error(e, "Server '"@, name@, "' not found"@)),
            self.statuses().contains_key(name@) && !(self.statuses()[name@] is Running) ==> (res matches Err(e)
                && is_server_error(e, "Server '"@, name@, "' is not running"@)),
    {
        match find_key(&self.running_servers, name) {
            Some(i) => {
                proof { lemma_key_at(self.running_servers@, i as int); }
                match self.running_servers[i].1.status {
                    McpServerStatus::Running => Ok(()),
                    _ => Err(server_error("Server '", name, "' is not running")),
                }
            },
            None => Err(server_error("Server '", name, "' not found")),
        }
    }

    /// The state of the server `name`, if it is known.
    pub fn get_server_status(&self, name: &str) -> (res: Option<McpServerStatus>)
        requires
            self.well_formed(),
        ensures
            res == (if self.statuses().contains_key(name@) { Some(self.statuses()[name@]) } else { None }),
    {
        match find_key(&self.running_servers, name) {
            Some(i) => {
                proof { lemma_key_at(self.running_servers@, i as int); }
                Some(copy_status(&self.running_servers[i].1.status))
            },
            None => None,
        }
    }

    /// The names of the known servers, each once.
    pub fn list_running_servers(&self) -> (res: Vec<String>)
        requires
            self.well_formed(),
        ensures
            string_views(res@).to_set() == self.statuses().dom(),
            res@.len() == self.statuses().len(),
    {
        proof { lemma_key_map_len(self.running_servers@); }
        let mut res: Vec<String> = Vec::new();
        let mut i: usize = 0;
        while i < self.running_servers.len()
            invariant
                unique_keys(self.running_servers@),
                i <= self.running_servers@.len(),
                res@.len() == i,
                forall|j: int| 0 <= j < i ==> (#[trigger] res@[j])@ == self.running_servers@[j].0@,
            decreases self.running_servers.len() - i,
        {
            res.push(self.running_servers[i].0.clone());
            i = i + 1;
        }
        proof {
            assert(self.statuses().dom() =~= key_map(self.running_servers@).dom());
            assert forall|k: Seq<char>| string_views(res@).to_set().contains(k) <==> self.statuses().dom().contains(k) by {
                if string_views(res@).to_set().contains(k) {
                    let j = choose|j: int| 0 <= j < string_views(res@).len() && string_views(res@)[j] == k;
                    lemma_key_at(self.running_servers@, j);
                }
                if self.statuses().dom().contains(k) {
                    let j = choose|j: int| 0 <= j < self.running_servers@.len() && #[trigger] self.running_servers@[j].0@ == k;
                    assert(string_views(res@)[j] == k);
                }
            }
            assert(string_views(res@).to_set() =~= self.statuses().dom());
        }
        res
    }
}

} // verus!
