//! The decisions of the streaming loader: which lines hold a record, what
//! is counted, what is reported and when a batch is committed.
//!
//! The loader runs without a rollback journal and with synchronous writes
//! off: a run that stops midway leaves a store that cannot be resumed and
//! is to be discarded.

use vstd::prelude::*;
use vstd::string::StringSliceAdditionalSpecFns;

verus! {

/// Number of counted records after which the open transaction is committed.
pub const BATCH_SIZE: u64 = 1000;

pub const OPEN_BRACKET: u8 = 0x5B;

pub const CLOSE_BRACKET: u8 = 0x5D;

pub const COMMA: u8 = 0x2C;

/// Whether a line is blank or one of the brackets that wrap the dump.
pub open spec fn is_delimiter(b: Seq<u8>) -> bool {
    b.len() == 0 || b == seq![OPEN_BRACKET] || b == seq![CLOSE_BRACKET]
}

/// The number of leading bytes that hold the record: all of them but a
/// trailing comma.
pub open spec fn payload_len_of(b: Seq<u8>) -> nat {
    if b.len() > 0 && b.last() == COMMA {
        (b.len() - 1) as nat
    } else {
        b.len()
    }
}

/// `None` for a line without a record; else the number of leading bytes
/// to parse.
pub fn payload_len(line: &str) -> (r: Option<usize>)
    ensures
        r is None <==> is_delimiter(line.spec_bytes()),
        r matches Some(n) ==> n == payload_len_of(line.spec_bytes()),
{
    let b = line.as_bytes();
    let n = b.len();
    if n == 0 {
        return None;
    }
    if n == 1 && (b[0] == OPEN_BRACKET || b[0] == CLOSE_BRACKET) {
        assert(b@ =~= seq![b[0]]);
        return None;
    }
    assert(b@.len() != 1 ==> b@ != seq![OPEN_BRACKET] && b@ != seq![CLOSE_BRACKET]);
    assert(b@.len() == 1 ==> b@[0] != OPEN_BRACKET && b@[0] != CLOSE_BRACKET);
    if b[n - 1] == COMMA {
        Some(n - 1)
    } else {
        Some(n)
    }
}

/// What became of one line.
#[derive(Clone, Copy, Debug, PartialEq, Eq, Structural)]
pub enum LineOutcome {
    /// The line could not be read.
    ReadFailed,
    /// A blank or bracket line.
    Skipped,
    /// The line is not well-formed JSON.
    JsonFailed,
    /// The JSON does not describe a record.
    RecordFailed,
    /// The record's rows were written.
    Stored,
    /// Writing one of the record's rows failed.
    StoreFailed,
}

/// The kind of a failure that is reported for one line.
#[derive(Clone, Copy, Debug, PartialEq, Eq, Structural)]
pub enum Failure {
    Read,
    Json,
    Record,
    Store,
}

/// A failure on a line, numbered from one.
#[derive(Clone, Copy, Debug, PartialEq, Eq, Structural)]
pub struct Report {
    pub line: u64,
    pub failure: Failure,
}

/// What to do after a line.
#[derive(Clone, Copy, Debug, PartialEq, Eq, Structural)]
pub struct Step {
    pub report: Option<Report>,
    /// Commit the open transaction and open a new one.
    pub commit: bool,
}

/// Whether a line with this outcome counts as a record.
pub open spec fn is_counted(o: LineOutcome) -> bool {
    o == LineOutcome::Stored || o == LineOutcome::StoreFailed
}

pub open spec fn failure_of(o: LineOutcome) -> Option<Failure> {
    match o {
        LineOutcome::ReadFailed => Some(Failure::Read),
        LineOutcome::JsonFailed => Some(Failure::Json),
        LineOutcome::RecordFailed => Some(Failure::Record),
        LineOutcome::StoreFailed => Some(Failure::Store),
        _ => None,
    }
}

/// Counters of a run.
pub struct Loader {
    /// Lines seen so far.
    pub line_number: u64,
    /// Records counted so far.
    pub entity_count: u64,
    /// Bytes of all lines seen so far.
    pub byte_count: u64,
    /// Batches committed so far, the final one excluded.
    pub commits: u64,
}

impl Loader {
    pub open spec fn wf(&self) -> bool {
        &&& self.entity_count <= self.line_number
        &&& self.commits == self.entity_count / BATCH_SIZE
    }

    pub fn new() -> (r: Loader)
        ensures
            r.wf(),
            r.line_number == 0,
            r.entity_count == 0,
            r.byte_count == 0,
            r.commits == 0,
    {
        Loader { line_number: 0, entity_count: 0, byte_count: 0, commits: 0 }
    }

    /// Accounts for the next line, `bytes` long, with the given outcome.
    pub fn finish_line(&mut self, bytes: u64, outcome: LineOutcome) -> (r: Step)
        requires
            old(self).wf(),
            old(self).line_number < u64::MAX,
            old(self).byte_count + bytes <= u64::MAX,
        ensures
            final(self).wf(),
            final(self).line_number == old(self).line_number + 1,
            final(self).byte_count == old(self).byte_count + bytes,
            final(self).entity_count == old(self).entity_count + if is_counted(outcome) {
                1int
            } else {
                0int
            },
            r.commit == (is_counted(outcome) && final(self).entity_count % BATCH_SIZE == 0),
            r.report == match failure_of(outcome) {
                Some(f) => Some(Report { line: final(self).line_number, failure: f }),
                None => None,
            },
    {
        self.line_number = self.line_number + 1;
        self.byte_count = self.byte_count + bytes;
        let counted = outcome == LineOutcome::Stored || outcome == LineOutcome::StoreFailed;
        let mut commit = false;
        if counted {
            self.entity_count = self.entity_count + 1;
            if self.entity_count % BATCH_SIZE == 0 {
                commit = true;
                self.commits = self.commits + 1;
            }
        }
        let failure = match outcome {
            LineOutcome::ReadFailed => Some(Failure::Read),
            LineOutcome::JsonFailed => Some(Failure::Json),
            LineOutcome::RecordFailed => Some(Failure::Record),
            LineOutcome::StoreFailed => Some(Failure::Store),
            _ => None,
        };
        let report = match failure {
            Some(f) => Some(Report { line: self.line_number, failure: f }),
            None => None,
        };
        Step { report, commit }
    }
}

/// At every point of a run, the records counted since the last batch
/// commit are fewer than one batch: a run killed midway loses less than one
/// batch of records.
pub proof fn lemma_uncommitted_below_batch(l: Loader)
    requires
        l.wf(),
    ensures
        l.commits * BATCH_SIZE <= l.entity_count,
        l.entity_count - l.commits * BATCH_SIZE < BATCH_SIZE,
{
    assert(l.entity_count == (l.entity_count / BATCH_SIZE) * BATCH_SIZE + l.entity_count % BATCH_SIZE)
        by (nonlinear_arith);
}

} // verus!
