//! Scripted stand-ins for the platform capabilities, for exercising the
//! coordination layer without hardware: a transport whose refusals are
//! scripted call by call, a delay that only accumulates, and a clock that
//! advances by a fixed step. The scripted transport satisfies the same
//! `Transport` contract as a real modem adapter, so everything proved over
//! the trait holds over a scripted run too.

use vstd::prelude::*;
use crate::axl::AxlPacketMeta;
use crate::state::Clock;
use crate::uplink::{Delay, NoteError, SessionState, Transport, note_of};

verus! {

/// A transport whose behaviour is scripted: per-call accept/refuse lists
/// for data notes and sync polls, failure switches for the session calls,
/// and full records of what was acknowledged.
pub struct ScriptedTransport {
    fail_hub_set: bool,
    fail_template: bool,
    fail_sync: bool,
    fail_status: bool,
    fail_log: bool,
    fail_location: bool,
    err: NoteError,
    add_results: Vec<bool>,
    add_calls: usize,
    status_results: Vec<bool>,
    status_calls: usize,
    location_fix: Option<(i64, i64)>,
    sent_notes: Vec<(u32, u32, Vec<u8>)>,
    log_notes: Vec<Vec<u8>>,
    sync_calls: usize,
    restart_calls: usize,
    consume_calls: usize,
    log_attempts: usize,
    hub_g: Ghost<Option<(Seq<char>, Seq<char>)>>,
    template_g: Ghost<Option<(u32, u32, u32)>>,
    polls_g: Ghost<nat>,
    logs_g: Ghost<nat>,
    restarts_g: Ghost<nat>,
}

fn bump(c: usize) -> (r: usize)
    ensures
        r as int == if c < usize::MAX {
            c + 1
        } else {
            c as int
        },
{
    if c < usize::MAX {
        c + 1
    } else {
        c
    }
}

impl ScriptedTransport {
    /// A transport that accepts everything, reports no sync completion and
    /// knows no location fix.
    pub fn new() -> (t: ScriptedTransport)
        ensures
            t.sent() == Seq::<(u32, u32, Seq<u8>)>::empty(),
    {
        let t = ScriptedTransport {
            fail_hub_set: false,
            fail_template: false,
            fail_sync: false,
            fail_status: false,
            fail_log: false,
            fail_location: false,
            err: NoteError::Comm,
            add_results: Vec::new(),
            add_calls: 0,
            status_results: Vec::new(),
            status_calls: 0,
            location_fix: None,
            sent_notes: Vec::new(),
            log_notes: Vec::new(),
            sync_calls: 0,
            restart_calls: 0,
            consume_calls: 0,
            log_attempts: 0,
            hub_g: Ghost(None),
            template_g: Ghost(None),
            polls_g: Ghost(0),
            logs_g: Ghost(0),
            restarts_g: Ghost(0),
        };
        proof {
            assert(t.sent() =~= Seq::<(u32, u32, Seq<u8>)>::empty());
        }
        t
    }

    /// Which error every scripted refusal reports.
    pub fn set_error(&mut self, err: NoteError) {
        self.err = err;
    }

    /// Refuse the identity registration.
    pub fn refuse_hub_set(&mut self) {
        self.fail_hub_set = true;
    }

    /// Refuse the template registration.
    pub fn refuse_template(&mut self) {
        self.fail_template = true;
    }

    /// Refuse sync requests.
    pub fn refuse_sync(&mut self) {
        self.fail_sync = true;
    }

    /// Refuse sync-status polls.
    pub fn refuse_status(&mut self) {
        self.fail_status = true;
    }

    /// Refuse diagnostic notes.
    pub fn refuse_log(&mut self) {
        self.fail_log = true;
    }

    /// Refuse location queries.
    pub fn refuse_location(&mut self) {
        self.fail_location = true;
    }

    /// Script the outcome of the next unscripted data note: accepted or
    /// refused. Calls beyond the script are accepted.
    pub fn script_add(&mut self, accept: bool) {
        self.add_results.push(accept);
    }

    /// Script the next unscripted sync poll: completed or not. Polls
    /// beyond the script report "not completed".
    pub fn script_status(&mut self, completed: bool) {
        self.status_results.push(completed);
    }

    /// The fix the modem reports from now on.
    pub fn set_fix(&mut self, lon_e6: i64, lat_e6: i64) {
        self.location_fix = Some((lon_e6, lat_e6));
    }

    /// How many data notes were attempted.
    pub fn add_call_count(&self) -> usize {
        self.add_calls
    }

    /// How many sync polls were made.
    pub fn status_call_count(&self) -> usize {
        self.status_calls
    }

    /// How many sync requests were made.
    pub fn sync_call_count(&self) -> usize {
        self.sync_calls
    }

    /// How many restarts were commanded.
    pub fn restart_call_count(&self) -> usize {
        self.restart_calls
    }

    /// How many acknowledged data notes the transport holds.
    pub fn sent_count(&self) -> (n: usize)
        ensures
            n == self.sent().len(),
    {
        self.sent_notes.len()
    }

    /// The metadata of the `i`-th acknowledged data note.
    pub fn sent_meta(&self, i: usize) -> (m: (u32, u32))
        requires
            i < self.sent().len(),
        ensures
            m.0 == self.sent()[i as int].0,
            m.1 == self.sent()[i as int].1,
    {
        let n = &self.sent_notes[i];
        (n.0, n.1)
    }

    /// The payload length of the `i`-th acknowledged data note.
    pub fn sent_payload_len(&self, i: usize) -> (n: usize)
        requires
            i < self.sent().len(),
        ensures
            n == self.sent()[i as int].2.len(),
    {
        self.sent_notes[i].2.len()
    }

    /// How many diagnostic notes were accepted.
    pub fn log_count(&self) -> usize {
        self.log_notes.len()
    }

    /// How many diagnostic notes were attempted, refused ones included.
    pub fn log_attempt_count(&self) -> usize {
        self.log_attempts
    }
}

impl Transport for ScriptedTransport {
    closed spec fn sent(&self) -> Seq<(u32, u32, Seq<u8>)> {
        self.sent_notes@.map_values(|n: (u32, u32, Vec<u8>)| (n.0, n.1, n.2@))
    }

    closed spec fn session(&self) -> SessionState {
        SessionState { hub: self.hub_g@, template: self.template_g@ }
    }

    closed spec fn counters(&self) -> (nat, nat, nat) {
        (self.polls_g@, self.logs_g@, self.restarts_g@)
    }

    fn hub_set(&mut self, product: &str, mode: &str) -> (r: Result<(), NoteError>) {
        if self.fail_hub_set {
            Err(self.err)
        } else {
            self.hub_g = Ghost(Some((product@, mode@)));
            Ok(())
        }
    }

    fn location_mode(&mut self, periodic: bool, period_s: u32) -> (r: Result<(), NoteError>) {
        Ok(())
    }

    fn location_track(&mut self, track: bool) -> (r: Result<(), NoteError>) {
        Ok(())
    }

    fn register_template(&mut self, shape: &AxlPacketMeta, max_payload: u32) -> (r: Result<
        (),
        NoteError,
    >) {
        if self.fail_template {
            Err(self.err)
        } else {
            self.template_g = Ghost(Some((shape.timestamp, shape.offset, max_payload)));
            Ok(())
        }
    }

    fn add_note(&mut self, meta: &AxlPacketMeta, payload: &[u8]) -> (r: Result<(), NoteError>) {
        let idx = self.add_calls;
        self.add_calls = bump(self.add_calls);
        let accept = if idx < self.add_results.len() {
            self.add_results[idx]
        } else {
            true
        };
        if accept {
            let line = vstd::slice::slice_to_vec(payload);
            let ghost before = self.sent_notes@;
            self.sent_notes.push((meta.timestamp, meta.offset, line));
            proof {
                assert(self.sent_notes@.map_values(|n: (u32, u32, Vec<u8>)| (n.0, n.1, n.2@))
                    =~= before.map_values(|n: (u32, u32, Vec<u8>)| (n.0, n.1, n.2@)).push(
                    note_of(meta.timestamp, meta.offset, payload@),
                ));
            }
            Ok(())
        } else {
            Err(self.err)
        }
    }

    fn sync(&mut self) -> (r: Result<(), NoteError>) {
        self.sync_calls = bump(self.sync_calls);
        if self.fail_sync {
            Err(self.err)
        } else {
            Ok(())
        }
    }

    fn sync_status(&mut self) -> (r: Result<bool, NoteError>) {
        let idx = self.status_calls;
        self.status_calls = bump(self.status_calls);
        self.polls_g = Ghost(self.polls_g@ + 1);
        if self.fail_status {
            return Err(self.err);
        }
        if idx < self.status_results.len() {
            Ok(self.status_results[idx])
        } else {
            Ok(false)
        }
    }

    fn log_note(&mut self, msg: &[u8]) -> (r: Result<(), NoteError>) {
        self.log_attempts = bump(self.log_attempts);
        self.logs_g = Ghost(self.logs_g@ + 1);
        if self.fail_log {
            Err(self.err)
        } else {
            let line = vstd::slice::slice_to_vec(msg);
            self.log_notes.push(line);
            Ok(())
        }
    }

    fn card_location(&mut self) -> (r: Result<Option<(i64, i64)>, NoteError>) {
        if self.fail_location {
            Err(self.err)
        } else {
            Ok(self.location_fix)
        }
    }

    fn consume_response(&mut self) -> (r: Result<(), NoteError>) {
        self.consume_calls = bump(self.consume_calls);
        Ok(())
    }

    fn restart(&mut self) -> (r: Result<(), NoteError>) {
        self.restart_calls = bump(self.restart_calls);
        self.restarts_g = Ghost(self.restarts_g@ + 1);
        Ok(())
    }
}

/// A delay that only accumulates the requested waits.
pub struct SimDelay {
    total_ms: u64,
    calls: usize,
}

impl SimDelay {
    pub fn new() -> SimDelay {
        SimDelay { total_ms: 0, calls: 0 }
    }

    /// Total milliseconds waited (saturating).
    pub fn total_ms(&self) -> u64 {
        self.total_ms
    }

    /// How many waits were requested.
    pub fn call_count(&self) -> usize {
        self.calls
    }
}

impl Delay for SimDelay {
    fn delay_ms(&mut self, ms: u32) {
        self.total_ms = self.total_ms.saturating_add(ms as u64);
        self.calls = bump(self.calls);
    }
}

/// A clock that starts at a given time and advances by a fixed step on
/// every read.
pub struct SimClock {
    now: i64,
    step: i64,
}

impl SimClock {
    pub fn new(start: i64, step: i64) -> SimClock {
        SimClock { now: start, step }
    }
}

impl Clock for SimClock {
    fn now_ms(&mut self) -> (t: i64) {
        let t = self.now;
        match self.now.checked_add(self.step) {
            Some(n) => {
                self.now = n;
            },
            None => {},
        }
        t
    }
}

} // verus!
