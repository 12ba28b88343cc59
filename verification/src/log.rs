//! Buffered diagnostic log lines, flushed best-effort through the uplink
//! as small notes. Flushing is bounded by the buffer length and so never
//! blocks indefinitely; it is also attempted on the fault paths as a last
//! effort to report cause before a restart.

use vstd::prelude::*;
use crate::uplink::{Notecarrier, NoteError, Transport};

verus! {

/// Maximum size of one diagnostic message, in bytes.
pub const LOG_MSG_SZ: usize = 256;

/// Maximum number of buffered lines; beyond it new lines are dropped.
pub const LOG_CAP: usize = 32;

/// A message clipped to the fixed diagnostic size.
pub open spec fn clipped(m: Seq<u8>) -> Seq<u8> {
    if m.len() <= LOG_MSG_SZ {
        m
    } else {
        m.take(LOG_MSG_SZ as int)
    }
}

/// The bounded buffer of pending diagnostic lines, oldest first.
pub struct LogBuffer {
    lines: Vec<Vec<u8>>,
}

impl View for LogBuffer {
    type V = Seq<Seq<u8>>;

    closed spec fn view(&self) -> Seq<Seq<u8>> {
        self.lines@.map_values(|l: Vec<u8>| l@)
    }
}

impl LogBuffer {
    pub open spec fn wf(&self) -> bool {
        &&& self@.len() <= LOG_CAP
        &&& forall|i: int| 0 <= i < self@.len() ==> self@[i].len() <= LOG_MSG_SZ
    }

    pub fn new() -> (b: LogBuffer)
        ensures
            b.wf(),
            b@ == Seq::<Seq<u8>>::empty(),
    {
        let b = LogBuffer { lines: Vec::new() };
        proof {
            assert(b@ =~= Seq::<Seq<u8>>::empty());
        }
        b
    }

    pub fn len(&self) -> (n: usize)
        ensures
            n == self@.len(),
    {
        self.lines.len()
    }

    /// Queue a line, clipped to the fixed message size; when the buffer is
    /// full the line is dropped — logging is best-effort and never fails.
    pub fn log(&mut self, msg: &[u8])
        requires
            old(self).wf(),
        ensures
            final(self).wf(),
            old(self)@.len() < LOG_CAP ==> final(self)@ == old(self)@.push(clipped(msg@)),
            old(self)@.len() >= LOG_CAP ==> final(self)@ == old(self)@,
    {
        if self.lines.len() < LOG_CAP {
            let mut line = vstd::slice::slice_to_vec(msg);
            line.truncate(LOG_MSG_SZ);
            proof {
                assert(line@ =~= clipped(msg@));
                assert(self.lines@.push(line).map_values(|l: Vec<u8>| l@) =~= old(self)@.push(
                    line@,
                ));
            }
            self.lines.push(line);
        }
    }

    /// Flush pending lines through the uplink in order, stopping at the
    /// first refused note. On success the buffer is empty; on failure the
    /// refused line and everything after it remain queued for the next
    /// attempt. No data note is added and no restart is commanded either
    /// way; only diagnostic-note attempts are spent.
    pub fn drain<T: Transport>(&mut self, note: &mut Notecarrier<T>) -> (r: Result<
        (),
        NoteError,
    >)
        requires
            old(self).wf(),
        ensures
            final(self).wf(),
            final(note).sent() == old(note).sent(),
            final(note).restarts() == old(note).restarts(),
            final(note).polls() == old(note).polls(),
            final(note).note_logs() >= old(note).note_logs(),
            r is Ok ==> final(self)@ == Seq::<Seq<u8>>::empty(),
            r is Err ==> exists|k: int|
                0 <= k < old(self)@.len() && final(self)@ == old(self)@.skip(k),
    {
        let ghost l0 = self@;
        let mut sent: usize = 0;
        loop
            invariant
                l0 == old(self)@,
                old(self).wf(),
                self.wf(),
                note.sent() == old(note).sent(),
                note.restarts() == old(note).restarts(),
                note.polls() == old(note).polls(),
                note.note_logs() >= old(note).note_logs(),
                sent <= l0.len(),
                self@ == l0.skip(sent as int),
            decreases self@.len(),
        {
            if self.lines.len() == 0 {
                proof {
                    assert(self@ =~= Seq::<Seq<u8>>::empty());
                }
                return Ok(());
            }
            let line = &self.lines[0];
            match note.log(line.as_slice()) {
                Ok(_) => {},
                Err(e) => {
                    return Err(e);
                },
            }
            let ghost prev = self.lines@;
            let _ = self.lines.remove(0);
            proof {
                assert(self.lines@ =~= prev.skip(1));
                assert(self.lines@.map_values(|l: Vec<u8>| l@) =~= prev.map_values(
                    |l: Vec<u8>| l@,
                ).skip(1));
                assert(l0.skip(sent as int).skip(1) =~= l0.skip(sent as int + 1));
            }
            sent = sent + 1;
        }
    }
}

} // verus!
