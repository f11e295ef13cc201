//! The resumable candidate source: a typed sequence producer with a
//! cursor, an exhaustion point, and a best-effort declared total.

use vstd::prelude::*;

use crate::checkpoint::Checkpoint;
use crate::errors::GenerationError;

verus! {

/// One entry of a candidate stream: either a well-formed guess, or a
/// malformed one (for example a corrupt wordlist line) that the source
/// reports as a recoverable `GenerationError` and then moves past.
#[derive(Clone, Debug)]
pub enum Entry {
    Good(Vec<u8>),
    Malformed,
}

impl Entry {
    /// The guess bytes of a well-formed entry.
    pub open spec fn bytes(self) -> Seq<u8>
        recommends
            self is Good,
    {
        self->Good_0@
    }
}

/// The number of well-formed entries in `s`: exactly the candidates the
/// distributor would dispatch when draining `s`.
pub open spec fn count_good(s: Seq<Entry>) -> nat
    decreases s.len(),
{
    if s.len() == 0 {
        0
    } else {
        (if s[0] is Good {
            1nat
        } else {
            0nat
        }) + count_good(s.skip(1))
    }
}

/// A resumable in-memory candidate stream. The cursor only ever
/// advances; it is never rewound except by building a new source from a
/// checkpoint. Once the cursor reaches the end the source is exhausted
/// and stays so.
pub struct CandidateSource {
    /// The entries of the stream, fixed for the source's lifetime.
    pub entries: Vec<Entry>,
    /// How many entries have been consumed; at most `entries.len()`.
    pub cursor: usize,
    /// Best-effort total for progress display; `None` means unknown.
    pub declared_size: Option<u64>,
}

impl CandidateSource {
    /// The cursor never runs past the end of the stream.
    pub open spec fn wf(self) -> bool {
        self.cursor <= self.entries@.len()
    }

    /// The entries not yet consumed.
    pub open spec fn remaining(self) -> Seq<Entry> {
        self.entries@.skip(self.cursor as int)
    }

    /// Whether every entry has been consumed.
    pub open spec fn spec_is_exhausted(self) -> bool {
        self.cursor == self.entries@.len()
    }

    /// A fresh source positioned at the start of `entries`.
    pub fn new(entries: Vec<Entry>, declared_size: Option<u64>) -> (r: CandidateSource)
        ensures
            r.wf(),
            r.entries@ == entries@,
            r.cursor == 0,
            r.declared_size == declared_size,
    {
        CandidateSource { entries, cursor: 0, declared_size }
    }

    /// A source positioned where `checkpoint` was taken over the same
    /// entries: it will emit exactly the entries that were still ahead
    /// of the snapshot, none twice and none skipped.
    pub fn resume(entries: Vec<Entry>, declared_size: Option<u64>, checkpoint: &Checkpoint) -> (r:
        CandidateSource)
        requires
            checkpoint.position <= entries@.len(),
        ensures
            r.wf(),
            r.entries@ == entries@,
            r.cursor == checkpoint.position,
            r.declared_size == declared_size,
    {
        let len: usize = entries.len();
        proof {
            assert(checkpoint.position <= len);
        }
        let cursor: usize = checkpoint.position as usize;
        CandidateSource { entries, cursor, declared_size }
    }

    /// Draw the next entry. While the stream is not exhausted this
    /// consumes exactly one entry: a well-formed one comes back as
    /// `Ok(Some(bytes))`, a malformed one as a recoverable error. Once
    /// exhausted it returns `Ok(None)`, leaves the cursor where it is,
    /// and keeps doing so on every later call.
    pub fn next(&mut self) -> (r: Result<Option<Vec<u8>>, GenerationError>)
        requires
            old(self).wf(),
        ensures
            final(self).wf(),
            final(self).entries@ == old(self).entries@,
            final(self).declared_size == old(self).declared_size,
            final(self).cursor >= old(self).cursor,
            old(self).spec_is_exhausted() ==> {
                &&& r == Result::<Option<Vec<u8>>, GenerationError>::Ok(None)
                &&& final(self).cursor == old(self).cursor
            },
            !old(self).spec_is_exhausted() ==> {
                &&& final(self).cursor == old(self).cursor + 1
                &&& match old(self).entries@[old(self).cursor as int] {
                    Entry::Good(b) => r matches Ok(o) && o matches Some(c) && c@ == b@,
                    Entry::Malformed => r == Result::<Option<Vec<u8>>, GenerationError>::Err(
                        GenerationError::MalformedCandidate,
                    ),
                }
            },
    {
        if self.cursor == self.entries.len() {
            Ok(None)
        } else {
            let i = self.cursor;
            self.cursor = self.cursor + 1;
            match &self.entries[i] {
                Entry::Good(b) => Ok(Some(copy_bytes(b))),
                Entry::Malformed => Err(GenerationError::MalformedCandidate),
            }
        }
    }

    /// Whether the stream is exhausted.
    pub fn is_exhausted(&self) -> (r: bool)
        requires
            self.wf(),
        ensures
            r == self.spec_is_exhausted(),
    {
        self.cursor == self.entries.len()
    }

    /// The best-effort total number of candidates, for progress display.
    pub fn size(&self) -> (r: Option<u64>)
        ensures
            r == self.declared_size,
    {
        self.declared_size
    }

    /// Snapshot the position reached so far. Together with `resume`,
    /// this loses no candidate and repeats none: resuming a source of
    /// the same entries from the snapshot leaves exactly the entries
    /// that are remaining here.
    pub fn checkpoint(&self) -> (r: Checkpoint)
        requires
            self.wf(),
        ensures
            r.position == self.cursor as u64,
            r.position <= self.entries@.len(),
    {
        Checkpoint { position: self.cursor as u64 }
    }

    /// The position a `checkpoint` call records.
    pub open spec fn checkpoint_position(self) -> u64 {
        self.cursor as u64
    }
}

/// Checkpoint round trip: a source resumed over the same entries from a
/// snapshot of `s` has exactly the entries still remaining in `s` ahead
/// of it — no candidate before the snapshot position is re-emitted and
/// none after it is skipped.
pub proof fn lemma_checkpoint_resume_identity(s: CandidateSource, r: CandidateSource)
    requires
        s.wf(),
        r.entries@ == s.entries@,
        r.cursor == s.checkpoint_position(),
    ensures
        r.wf(),
        r.remaining() == s.remaining(),
{
}

/// A fresh copy of a guess's bytes.
fn copy_bytes(v: &Vec<u8>) -> (r: Vec<u8>)
    ensures
        r@ == v@,
{
    let mut out: Vec<u8> = Vec::new();
    let mut i: usize = 0;
    while i < v.len()
        invariant
            i <= v@.len(),
            out@ == v@.take(i as int),
        decreases v@.len() - i,
    {
        out.push(v[i]);
        proof {
            assert(out@ =~= v@.take(i as int + 1));
        }
        i = i + 1;
    }
    proof {
        assert(v@.take(v@.len() as int) =~= v@);
    }
    out
}

} // verus!
