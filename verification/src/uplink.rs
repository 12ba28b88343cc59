//! The uplink client: one-time session setup against the modem bridge
//! (identity, location tracking, template registration), chunked upload of
//! encoded packets, bounded sync polling, and queue draining. The modem
//! itself sits behind the `Transport` trait; its abstract state is the
//! sequence of acknowledged data notes, so every contract here says exactly
//! which fragments the transport acknowledged, whatever the outcome of the
//! individual calls.

use vstd::prelude::*;
use vstd::slice::slice_subrange;
use crate::axl::{AxlPacket, AxlPacketMeta, encoded, AXL_OUTN};
use crate::queue::{AxlQueue, QUEUE_SZ};

verus! {

/// Transport message-size limit: encoded payloads are uploaded in chunks of
/// at most this many bytes.
pub const CHUNK_SZ: usize = 8192;

/// A transport-level failure: the bus or radio did not accept the request,
/// or did not answer in time.
#[derive(Clone, Copy, PartialEq, Eq, Structural, Debug)]
pub enum NoteError {
    Comm,
    Timeout,
}

/// A data note as the transport acknowledges it: the packet timestamp, the
/// byte offset of the fragment within the encoded payload, and the fragment
/// itself.
pub open spec fn note_of(ts: u32, off: u32, payload: Seq<u8>) -> (u32, u32, Seq<u8>) {
    (ts, off, payload)
}

/// The fragments of an encoded payload from byte offset `off` on, cut at
/// `CHUNK_SZ`, each carrying its own offset.
pub open spec fn chunks_from(ts: u32, off: int, payload: Seq<u8>) -> Seq<(u32, u32, Seq<u8>)>
    decreases payload.len(),
{
    if payload.len() <= 0 {
        Seq::empty()
    } else if payload.len() <= CHUNK_SZ {
        seq![note_of(ts, off as u32, payload)]
    } else {
        seq![note_of(ts, off as u32, payload.take(CHUNK_SZ as int))] + chunks_from(
            ts,
            off + CHUNK_SZ,
            payload.skip(CHUNK_SZ as int),
        )
    }
}

/// All fragments of one packet's encoded payload, in upload order.
pub open spec fn packet_chunks(p: AxlPacket) -> Seq<(u32, u32, Seq<u8>)> {
    chunks_from(p.timestamp, 0, encoded(p.data@))
}

/// All fragments of a sequence of packets, in delivery order.
pub open spec fn batches_chunks(s: Seq<AxlPacket>) -> Seq<(u32, u32, Seq<u8>)>
    decreases s.len(),
{
    if s.len() == 0 {
        Seq::empty()
    } else {
        packet_chunks(s[0]) + batches_chunks(s.skip(1))
    }
}

/// The session registrations the transport holds: the backend identity
/// (product and mode) set by `hub_set`, and the data-note template (the
/// two metadata field markers and the payload ceiling) set by
/// `register_template`. Empty until the respective call succeeds.
pub struct SessionState {
    pub hub: Option<(Seq<char>, Seq<char>)>,
    pub template: Option<(u32, u32, u32)>,
}

/// The modem bridge as the library sees it, with an abstract model of
/// everything the contracts need: `sent()` is the sequence of data notes
/// the transport has acknowledged; `session()` holds the registrations;
/// `counters()` counts, in order, the sync-status polls made, the
/// diagnostic notes attempted, and the restart commands issued. Every
/// method states exactly which parts of the model it may change.
/// Implementors: a real modem adapter outside the library, and the
/// scripted transport used by the tests.
pub trait Transport {
    spec fn sent(&self) -> Seq<(u32, u32, Seq<u8>)>;

    spec fn session(&self) -> SessionState;

    spec fn counters(&self) -> (nat, nat, nat);

    /// Register the device with the backend identity. On success the hub
    /// registration holds exactly the given product and mode.
    fn hub_set(&mut self, product: &str, mode: &str) -> (r: Result<(), NoteError>)
        ensures
            final(self).sent() == old(self).sent(),
            final(self).counters() == old(self).counters(),
            r is Ok ==> final(self).session() == (SessionState {
                hub: Some((product@, mode@)),
                template: old(self).session().template,
            }),
            r is Err ==> final(self).session() == old(self).session(),
    ;

    /// Configure periodic location acquisition.
    fn location_mode(&mut self, periodic: bool, period_s: u32) -> (r: Result<(), NoteError>)
        ensures
            final(self).sent() == old(self).sent(),
            final(self).session() == old(self).session(),
            final(self).counters() == old(self).counters(),
    ;

    /// Enable or disable location tracking.
    fn location_track(&mut self, track: bool) -> (r: Result<(), NoteError>)
        ensures
            final(self).sent() == old(self).sent(),
            final(self).session() == old(self).session(),
            final(self).counters() == old(self).counters(),
    ;

    /// One-time declaration of the data note's metadata shape and payload
    /// size ceiling, so each note carries only compact field markers. On
    /// success the template registration holds exactly the given shape
    /// markers and ceiling.
    fn register_template(&mut self, shape: &AxlPacketMeta, max_payload: u32) -> (r: Result<
        (),
        NoteError,
    >)
        ensures
            final(self).sent() == old(self).sent(),
            final(self).counters() == old(self).counters(),
            r is Ok ==> final(self).session() == (SessionState {
                hub: old(self).session().hub,
                template: Some((shape.timestamp, shape.offset, max_payload)),
            }),
            r is Err ==> final(self).session() == old(self).session(),
    ;

    /// Add one data note. On success the note is acknowledged and appended
    /// to `sent()`; on failure nothing was acknowledged.
    fn add_note(&mut self, meta: &AxlPacketMeta, payload: &[u8]) -> (r: Result<(), NoteError>)
        ensures
            final(self).session() == old(self).session(),
            final(self).counters() == old(self).counters(),
            r is Ok ==> final(self).sent() == old(self).sent().push(
                note_of(meta.timestamp, meta.offset, payload@),
            ),
            r is Err ==> final(self).sent() == old(self).sent(),
    ;

    /// Request a sync of pending notes with the backend.
    fn sync(&mut self) -> (r: Result<(), NoteError>)
        ensures
            final(self).sent() == old(self).sent(),
            final(self).session() == old(self).session(),
            final(self).counters() == old(self).counters(),
    ;

    /// Poll whether the last requested sync has completed. Counts one
    /// poll, whatever the answer.
    fn sync_status(&mut self) -> (r: Result<bool, NoteError>)
        ensures
            final(self).sent() == old(self).sent(),
            final(self).session() == old(self).session(),
            final(self).counters().0 == old(self).counters().0 + 1,
            final(self).counters().1 == old(self).counters().1,
            final(self).counters().2 == old(self).counters().2,
    ;

    /// Queue a best-effort diagnostic note. Counts one attempt, accepted
    /// or refused.
    fn log_note(&mut self, msg: &[u8]) -> (r: Result<(), NoteError>)
        ensures
            final(self).sent() == old(self).sent(),
            final(self).session() == old(self).session(),
            final(self).counters().0 == old(self).counters().0,
            final(self).counters().1 == old(self).counters().1 + 1,
            final(self).counters().2 == old(self).counters().2,
    ;

    /// Ask for the last known location fix, in microdegrees.
    fn card_location(&mut self) -> (r: Result<Option<(i64, i64)>, NoteError>)
        ensures
            final(self).sent() == old(self).sent(),
            final(self).session() == old(self).session(),
            final(self).counters() == old(self).counters(),
    ;

    /// Consume any in-flight response left on the bus.
    fn consume_response(&mut self) -> (r: Result<(), NoteError>)
        ensures
            final(self).sent() == old(self).sent(),
            final(self).session() == old(self).session(),
            final(self).counters() == old(self).counters(),
    ;

    /// Command the modem to restart. Counts one command, whatever the
    /// answer.
    fn restart(&mut self) -> (r: Result<(), NoteError>)
        ensures
            final(self).sent() == old(self).sent(),
            final(self).session() == old(self).session(),
            final(self).counters().0 == old(self).counters().0,
            final(self).counters().1 == old(self).counters().1,
            final(self).counters().2 == old(self).counters().2 + 1,
    ;
}

/// A millisecond-granularity wait, implemented by the platform.
pub trait Delay {
    fn delay_ms(&mut self, ms: u32);
}

/// A failed chunked upload: `offset` is the byte offset of the fragment the
/// transport refused; everything before it was acknowledged.
#[derive(Clone, Copy, PartialEq, Eq, Structural, Debug)]
pub struct SendError {
    pub offset: usize,
}

/// A failed queue drain: `sent` batches were fully uploaded and consumed
/// before the batch stamped `timestamp` failed at byte `offset`; the failed
/// batch was consumed too and is not retried (cadence over recovery).
#[derive(Clone, Copy, PartialEq, Eq, Structural, Debug)]
pub struct DrainError {
    pub sent: usize,
    pub timestamp: u32,
    pub offset: usize,
}

/// The uplink client: wraps a modem transport session. Construction
/// performs the one-time session setup; a setup failure is fatal and
/// retains no session state.
pub struct Notecarrier<T: Transport> {
    note: T,
}

impl<T: Transport> Notecarrier<T> {
    /// The data notes the underlying transport has acknowledged.
    pub closed spec fn sent(&self) -> Seq<(u32, u32, Seq<u8>)> {
        self.note.sent()
    }

    /// The session registrations the underlying transport holds.
    pub closed spec fn session(&self) -> SessionState {
        self.note.session()
    }

    /// The transport's activity counters: polls, log attempts, restarts.
    pub closed spec fn counters(&self) -> (nat, nat, nat) {
        self.note.counters()
    }

    /// Sync-status polls made on the transport.
    pub open spec fn polls(&self) -> nat {
        self.counters().0
    }

    /// Diagnostic notes attempted on the transport.
    pub open spec fn note_logs(&self) -> nat {
        self.counters().1
    }

    /// Restart commands issued to the modem.
    pub open spec fn restarts(&self) -> nat {
        self.counters().2
    }

    /// Set up the session: register the backend identity (fatal on
    /// failure), configure periodic location tracking (best-effort), and
    /// register the data-note template (fatal on failure). On success the
    /// carrier's transport holds exactly the device identity and the
    /// compact data-note template; no data note is sent during setup, and
    /// on failure no session state is retained.
    pub fn new(transport: T) -> (r: Result<Notecarrier<T>, NoteError>)
        ensures
            r is Ok ==> {
                let n = r->Ok_0;
                &&& n.sent() == transport.sent()
                &&& n.session().hub == Some(("no.met.gauteh:sfy"@, "cain"@))
                &&& n.session().template == Some((14u32, 14u32, AXL_OUTN as u32))
            },
    {
        let mut note = transport;
        match note.hub_set("no.met.gauteh:sfy", "cain") {
            Ok(_) => {},
            Err(e) => {
                return Err(e);
            },
        }
        let _ = note.location_mode(true, 60);
        let _ = note.location_track(true);
        let mut n = Notecarrier { note };
        match n.setup_templates() {
            Ok(_) => {},
            Err(e) => {
                return Err(e);
            },
        }
        Ok(n)
    }

    /// Borrow the underlying transport session, for inspection.
    pub fn transport(&self) -> (t: &T)
        ensures
            t.sent() == self.sent(),
    {
        &self.note
    }

    /// Register the compact template for data notes: two unsigned 32-bit
    /// metadata field markers and the payload length ceiling. On success
    /// the transport holds exactly that template, and the hub
    /// registration is untouched.
    fn setup_templates(&mut self) -> (r: Result<(), NoteError>)
        ensures
            final(self).sent() == old(self).sent(),
            r is Ok ==> final(self).session() == (SessionState {
                hub: old(self).session().hub,
                template: Some((14u32, 14u32, AXL_OUTN as u32)),
            }),
            r is Err ==> final(self).session() == old(self).session(),
    {
        let shape = AxlPacketMeta { timestamp: 14, offset: 14 };
        self.note.register_template(&shape, AXL_OUTN as u32)
    }

    /// Upload one packet, split into `CHUNK_SZ`-byte fragments, each with
    /// its `{timestamp, offset}` metadata. On success every fragment was
    /// acknowledged in order and the encoded length is returned. A failure
    /// partway through abandons the rest: exactly the fragments before the
    /// reported offset were acknowledged, and no fragment is retried here —
    /// the caller's retry budget governs any retry.
    pub fn send(&mut self, pck: AxlPacket) -> (r: Result<usize, SendError>)
        requires
            pck.wf(),
        ensures
            r is Ok ==> r->Ok_0 == encoded(pck.data@).len() && final(self).sent() == old(
                self,
            ).sent() + packet_chunks(pck),
            r is Err ==> {
                let e = r->Err_0;
                &&& e.offset < encoded(pck.data@).len()
                &&& final(self).sent() + chunks_from(
                    pck.timestamp,
                    e.offset as int,
                    encoded(pck.data@).skip(e.offset as int),
                ) == old(self).sent() + packet_chunks(pck)
            },
    {
        let b64 = pck.base64();
        let total = b64.len();
        let ghost sent0 = self.note.sent();
        let mut offset: usize = 0;
        proof {
            assert(b64@.skip(0) =~= b64@);
        }
        while offset < total
            invariant
                sent0 == old(self).sent(),
                total == encoded(pck.data@).len(),
                total <= AXL_OUTN,
                b64@ == encoded(pck.data@),
                offset <= total,
                self.note.sent() + chunks_from(
                    pck.timestamp,
                    offset as int,
                    b64@.skip(offset as int),
                ) == sent0 + packet_chunks(pck),
            decreases total - offset,
        {
            let end = if total - offset > CHUNK_SZ {
                offset + CHUNK_SZ
            } else {
                total
            };
            let payload = slice_subrange(b64.as_slice(), offset, end);
            let meta = AxlPacketMeta { timestamp: pck.timestamp, offset: offset as u32 };
            let ghost rem = b64@.skip(offset as int);
            let ghost sent_before = self.note.sent();
            match self.note.add_note(&meta, payload) {
                Ok(_) => {},
                Err(_) => {
                    return Err(SendError { offset });
                },
            }
            proof {
                let tail = chunks_from(pck.timestamp, end as int, b64@.skip(end as int));
                let c = note_of(
                    pck.timestamp,
                    offset as u32,
                    b64@.subrange(offset as int, end as int),
                );
                if rem.len() <= CHUNK_SZ {
                    assert(rem =~= b64@.subrange(offset as int, end as int));
                    assert(b64@.skip(end as int) =~= Seq::<u8>::empty());
                    assert(chunks_from(pck.timestamp, offset as int, rem) =~= seq![c] + tail);
                } else {
                    assert(rem.take(CHUNK_SZ as int) =~= b64@.subrange(offset as int, end as int));
                    assert(rem.skip(CHUNK_SZ as int) =~= b64@.skip(end as int));
                    assert(chunks_from(pck.timestamp, offset as int, rem) =~= seq![c] + tail);
                }
                assert(sent_before + chunks_from(pck.timestamp, offset as int, rem) =~= sent_before.push(c) + tail);
            }
            offset = end;
        }
        proof {
            assert(b64@.skip(total as int) =~= Seq::<u8>::empty());
            assert(self.note.sent() + chunks_from(pck.timestamp, total as int, b64@.skip(total as int))
                =~= self.note.sent());
        }
        Ok(total)
    }

    /// Initiate a sync and poll its completion once per second until it
    /// completes or the timeout elapses. Timing out is an expected outcome,
    /// reported as `Ok(false)`, not an error, after exactly
    /// `timeout_ms / 1000` polls; completion stops the polling early. Only
    /// a refused sync request fails, before any poll; poll errors are
    /// tolerated and polling continues.
    pub fn sync_and_wait<D: Delay>(&mut self, delay: &mut D, timeout_ms: u32) -> (r: Result<
        bool,
        NoteError,
    >)
        ensures
            final(self).sent() == old(self).sent(),
            r is Err ==> final(self).polls() == old(self).polls(),
            (r matches Ok(c) && !c) ==> final(self).polls() == old(self).polls() + (timeout_ms
                / 1000) as nat,
            (r matches Ok(c) && c) ==> old(self).polls() < final(self).polls() <= old(
                self,
            ).polls() + (timeout_ms / 1000) as nat,
    {
        match self.note.sync() {
            Ok(_) => {},
            Err(e) => {
                return Err(e);
            },
        }
        let polls = timeout_ms / 1000;
        let mut i: u32 = 0;
        while i < polls
            invariant
                polls == timeout_ms / 1000,
                i <= polls,
                self.note.sent() == old(self).sent(),
                self.note.counters().0 == old(self).polls() + i as nat,
                self.note.counters().1 == old(self).note_logs(),
                self.note.counters().2 == old(self).restarts(),
            decreases polls - i,
        {
            delay.delay_ms(1000);
            match self.note.sync_status() {
                Ok(true) => {
                    return Ok(true);
                },
                _ => {},
            }
            i = i + 1;
        }
        Ok(false)
    }

    /// The main loop's sync-check: one completion poll, surfacing only
    /// transport failures.
    pub fn check_and_sync(&mut self) -> (r: Result<bool, NoteError>)
        ensures
            final(self).sent() == old(self).sent(),
            final(self).polls() == old(self).polls() + 1,
    {
        self.note.sync_status()
    }

    /// Queue a best-effort diagnostic note through the same transport:
    /// one attempt, accepted or refused, never a data note.
    pub fn log(&mut self, msg: &[u8]) -> (r: Result<(), NoteError>)
        ensures
            final(self).sent() == old(self).sent(),
            final(self).note_logs() == old(self).note_logs() + 1,
            final(self).restarts() == old(self).restarts(),
            final(self).polls() == old(self).polls(),
    {
        self.note.log_note(msg)
    }

    /// Consume any in-flight response left on the bus.
    pub fn consume_response(&mut self) -> (r: Result<(), NoteError>)
        ensures
            final(self).sent() == old(self).sent(),
            final(self).counters() == old(self).counters(),
    {
        self.note.consume_response()
    }

    /// Command the modem to restart: one command issued, whatever the
    /// answer.
    pub fn restart(&mut self) -> (r: Result<(), NoteError>)
        ensures
            final(self).sent() == old(self).sent(),
            final(self).restarts() == old(self).restarts() + 1,
            final(self).note_logs() == old(self).note_logs(),
            final(self).polls() == old(self).polls(),
    {
        self.note.restart()
    }

    /// Ask the modem for the last known location fix, in microdegrees.
    pub fn card_location(&mut self) -> (r: Result<Option<(i64, i64)>, NoteError>)
        ensures
            final(self).sent() == old(self).sent(),
    {
        self.note.card_location()
    }

    /// Dequeue and upload batches until the queue is empty, stopping at the
    /// first failure. On success the queue is drained and every fragment of
    /// every batch was acknowledged in order. On failure, the batches
    /// before the failed one were each fully uploaded exactly once, the
    /// failed batch is identified by position and timestamp with exactly
    /// its fragments before the failed offset acknowledged, and all of
    /// them were consumed from the queue — already-sent batches are never
    /// re-sent by a later drain.
    pub fn drain_queue(&mut self, q: &mut AxlQueue) -> (r: Result<usize, DrainError>)
        requires
            old(q).wf(),
        ensures
            final(q).wf(),
            r is Ok ==> {
                &&& r->Ok_0 == old(q)@.len()
                &&& final(q)@.len() == 0
                &&& final(self).sent() == old(self).sent() + batches_chunks(old(q)@)
            },
            r is Err ==> {
                let e = r->Err_0;
                let failed = old(q)@[e.sent as int];
                &&& e.sent < old(q)@.len()
                &&& e.timestamp == failed.timestamp
                &&& final(q)@ == old(q)@.skip(e.sent + 1)
                &&& e.offset < encoded(failed.data@).len()
                &&& final(self).sent() + chunks_from(
                    failed.timestamp,
                    e.offset as int,
                    encoded(failed.data@).skip(e.offset as int),
                ) == old(self).sent() + batches_chunks(old(q)@.take(e.sent as int))
                    + packet_chunks(failed)
            },
    {
        let ghost q0 = q@;
        let ghost sent0 = self.note.sent();
        let mut count: usize = 0;
        loop
            invariant
                q0 == old(q)@,
                sent0 == old(self).sent(),
                q.wf(),
                q0.len() <= QUEUE_SZ,
                count <= q0.len(),
                q@ == q0.skip(count as int),
                self.note.sent() == sent0 + batches_chunks(q0.take(count as int)),
            decreases q@.len(),
        {
            let p = match q.dequeue() {
                None => {
                    proof {
                        assert(q0.take(count as int) =~= q0);
                    }
                    return Ok(count);
                },
                Some(p) => p,
            };
            proof {
                assert(q0.skip(count as int)[0] == q0[count as int]);
                assert(q0.skip(count as int).skip(1) =~= q0.skip(count as int + 1));
            }
            let pts = p.timestamp;
            match self.send(p) {
                Ok(_) => {
                    proof {
                        lemma_batches_chunks_take_step(q0, count as int);
                    }
                    count = count + 1;
                },
                Err(se) => {
                    return Err(DrainError { sent: count, timestamp: pts, offset: se.offset });
                },
            }
        }
    }
}

/// Appending one more batch to a prefix appends exactly that batch's
/// fragments to the prefix's fragments.
proof fn lemma_batches_chunks_take_step(s: Seq<AxlPacket>, i: int)
    requires
        0 <= i < s.len(),
    ensures
        batches_chunks(s.take(i + 1)) == batches_chunks(s.take(i)) + packet_chunks(s[i]),
    decreases i,
{
    let a = s.take(i + 1);
    if i == 0 {
        assert(a.skip(1) =~= s.take(0));
        assert(batches_chunks(s.take(0)) + packet_chunks(s[0]) =~= packet_chunks(s[0]) + batches_chunks(a.skip(1)));
    } else {
        lemma_batches_chunks_take_step(s.skip(1), i - 1);
        assert(a.skip(1) =~= s.skip(1).take(i));
        assert(s.take(i).skip(1) =~= s.skip(1).take(i - 1));
        assert(s.skip(1)[i - 1] == s[i]);
        assert(batches_chunks(s.take(i + 1)) == packet_chunks(s[0]) + batches_chunks(s.skip(1).take(i)));
        assert(batches_chunks(s.take(i)) == packet_chunks(s[0]) + batches_chunks(s.skip(1).take(i - 1)));
        assert(batches_chunks(s.take(i)) + packet_chunks(s[i]) =~= packet_chunks(s[0]) + (batches_chunks(s.skip(1).take(i - 1)) + packet_chunks(s.skip(1)[i - 1])));
    }
}

} // verus!
