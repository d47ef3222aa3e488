//! Incremental extraction of delimiter-terminated lines from a transport that
//! hands its bytes over in fragments.
//!
//! The reader is an explicit state machine: an accumulation buffer and a count
//! of the bytes taken for the line in progress. Whoever owns the transport asks
//! it for the next available chunk, hands the chunk to
//! [`LineReader::read_until_internal`], consumes at once as many bytes of the
//! transport as the step says, and goes on as the outcome says. Between two
//! steps nothing but the state is kept, so a reader that is suspended while it
//! waits for a chunk, and resumed or abandoned later, has lost no byte and
//! holds none twice.

use vstd::prelude::*;
use crate::scan::{absent, is_first, lemma_position_none, lemma_position_some, position};

verus! {

/// `memchr::memchr` searches `haystack` for the first occurrence of `needle`:
/// it returns the least index that holds the byte, and `None` exactly when the
/// byte does not occur.
pub assume_specification[ memchr::memchr ](needle: u8, haystack: &[u8]) -> (found: Option<usize>)
    ensures
        match found {
            Some(i) => is_first(haystack@, needle, i as int),
            None => absent(haystack@, needle),
        },
;

/// How a step of the reader ended.
#[derive(Clone, Copy, Debug, PartialEq, Eq)]
pub enum ReadOutcome {
    /// The chunk held no delimiter and was taken whole: the line goes on in the
    /// next chunk.
    Incomplete,
    /// The delimiter was found. The buffer holds the line, delimiter included;
    /// the number is the count of bytes taken for it over all steps.
    Complete(usize),
    /// The transport had no more bytes. What the buffer holds is an
    /// unterminated tail, which is no line.
    EndOfInput,
}

/// What a step asks of the owner of the transport.
#[derive(Clone, Copy, Debug, PartialEq, Eq)]
pub struct ReadStep {
    /// The number of bytes of the chunk that were taken and that the transport
    /// has to consume.
    pub used: usize,
    pub outcome: ReadOutcome,
}

/// A step's outcome with its count as a natural number.
pub enum OutcomeView {
    Incomplete,
    Complete(nat),
    EndOfInput,
}

/// A step with its counts as natural numbers.
pub struct StepView {
    pub used: nat,
    pub outcome: OutcomeView,
}

impl View for ReadOutcome {
    type V = OutcomeView;

    open spec fn view(&self) -> OutcomeView {
        match *self {
            ReadOutcome::Incomplete => OutcomeView::Incomplete,
            ReadOutcome::Complete(n) => OutcomeView::Complete(n as nat),
            ReadOutcome::EndOfInput => OutcomeView::EndOfInput,
        }
    }
}

impl View for ReadStep {
    type V = StepView;

    open spec fn view(&self) -> StepView {
        StepView { used: self.used as nat, outcome: self.outcome@ }
    }
}

/// The state of a reader as a mathematical value.
pub struct ReaderView {
    /// The bytes accumulated so far.
    pub buffer: Seq<u8>,
    /// The bytes taken for the line in progress.
    pub count: nat,
}

/// The state of a reader that has accumulated nothing.
pub open spec fn fresh() -> ReaderView {
    ReaderView { buffer: Seq::empty(), count: 0 }
}

/// One step of the reader: from the state and the chunk that the transport
/// offers to the next state and the step to report.
///
/// Where the chunk holds the delimiter, the bytes up to and including its
/// first occurrence are appended and the line is complete. Where it holds
/// none, the whole chunk is appended and the line goes on. An empty chunk is
/// the end of the input.
pub open spec fn read_step(state: ReaderView, byte: u8, available: Seq<u8>) -> (ReaderView, StepView) {
    match position(available, byte) {
        Some(i) => (
            ReaderView { buffer: state.buffer + available.subrange(0, i + 1), count: 0 },
            StepView {
                used: (i + 1) as nat,
                outcome: OutcomeView::Complete((state.count + i + 1) as nat),
            },
        ),
        None => if available.len() == 0 {
            (
                ReaderView { buffer: state.buffer, count: 0 },
                StepView { used: 0, outcome: OutcomeView::EndOfInput },
            )
        } else {
            (
                ReaderView {
                    buffer: state.buffer + available,
                    count: state.count + available.len(),
                },
                StepView { used: available.len(), outcome: OutcomeView::Incomplete },
            )
        },
    }
}

/// Accumulates the bytes of the line in progress.
#[derive(Debug)]
pub struct LineReader {
    buf: Vec<u8>,
    read: usize,
}

impl View for LineReader {
    type V = ReaderView;

    closed spec fn view(&self) -> ReaderView {
        ReaderView { buffer: self.buf@, count: self.read as nat }
    }
}

impl LineReader {
    /// The bytes counted for the line in progress are all in the buffer.
    pub open spec fn wf(&self) -> bool {
        self@.count <= self@.buffer.len()
    }

    /// A reader that has accumulated nothing.
    pub fn new() -> (reader: Self)
        ensures
            reader.wf(),
            reader@ == fresh(),
    {
        LineReader { buf: Vec::new(), read: 0 }
    }

    /// Takes from `available` the bytes up to and including the first `byte`,
    /// or all of them where there is none.
    pub fn read_until_internal(&mut self, byte: u8, available: &[u8]) -> (step: ReadStep)
        requires
            old(self).wf(),
        ensures
            final(self).wf(),
            (final(self)@, step@) == read_step(old(self)@, byte, available@),
            step.used <= available@.len(),
    {
        let step = match memchr::memchr(byte, available) {
            Some(i) => {
                proof {
                    lemma_position_some(available@, byte, i as int);
                }
                assert(i < available.len());
                let taken = vstd::slice::slice_subrange(available, 0, i + 1);
                self.buf.extend_from_slice(taken);
                assert(self.read + (i + 1) <= self.buf.len());
                let total = self.read + (i + 1);
                self.read = 0;
                ReadStep { used: i + 1, outcome: ReadOutcome::Complete(total) }
            },
            None => {
                proof {
                    lemma_position_none(available@, byte);
                }
                if available.len() == 0 {
                    self.read = 0;
                    ReadStep { used: 0, outcome: ReadOutcome::EndOfInput }
                } else {
                    self.buf.extend_from_slice(available);
                    assert(self.read + available.len() <= self.buf.len());
                    self.read = self.read + available.len();
                    ReadStep { used: available.len(), outcome: ReadOutcome::Incomplete }
                }
            },
        };
        assert(final(self)@.buffer =~= read_step(old(self)@, byte, available@).0.buffer);
        step
    }

    /// The bytes accumulated so far.
    pub fn buffer(&self) -> (bytes: &Vec<u8>)
        ensures
            bytes@ == self@.buffer,
    {
        &self.buf
    }

    /// Empties the buffer, once its line has been taken.
    pub fn clear(&mut self)
        ensures
            final(self).wf(),
            final(self)@ == fresh(),
    {
        self.read = 0;
        self.buf.clear();
    }
}

} // verus!
