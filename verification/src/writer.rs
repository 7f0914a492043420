//! Putting the patched policy on disk, as a state machine.
//!
//! The destination may be a node of the kernel. Observers of such a node tell
//! a reload by its modification time, which a truncation moves and a write
//! may not; and the node takes a policy in one write call only. So the
//! destination is opened without truncation, cut to length zero only where
//! it holds something, and written with one call that must take every byte.
//! The caller does the I/O and reports what came back.

use vstd::prelude::*;
use crate::error::WriteError;

verus! {

/// The request that is open, or how writing ended.
#[derive(Clone, Copy, Debug, PartialEq, Eq, Structural)]
pub enum WriteStage {
    /// Turn the policy into bytes.
    Serialize,
    /// Open the destination for writing; create it if it is missing, and do
    /// not truncate it.
    Open,
    /// Read the destination's length.
    Stat,
    /// Cut the destination to length zero.
    Truncate,
    /// Hand all bytes to one write call.
    Write,
    /// All bytes are written.
    Finished,
    /// Writing was given up.
    Failed(WriteError),
}

/// What came back from the request that was open.
#[derive(Clone, Copy, Debug, PartialEq, Eq, Structural)]
pub enum WriteEvent {
    /// The policy was turned into this many bytes.
    Built(usize),
    /// The destination is open.
    Opened,
    /// The destination holds this many bytes.
    Length(u64),
    /// The destination was cut to length zero.
    Truncated,
    /// The write call took this many bytes.
    Written(usize),
    /// The request failed.
    Failed,
}

/// The state of writing: the open request and the number of bytes to write,
/// which is zero until the policy has been turned into bytes.
#[derive(Clone, Copy, Debug, PartialEq, Eq, Structural)]
pub struct Writer {
    pub stage: WriteStage,
    pub len: usize,
}

impl WriteStage {
    /// Writing has ended, well or not.
    pub open spec fn is_terminal(self) -> bool {
        self == WriteStage::Finished || self is Failed
    }

    /// The reason for giving up when the request fails.
    pub open spec fn failure(self) -> WriteError {
        match self {
            WriteStage::Serialize => WriteError::BuildFailed,
            WriteStage::Open => WriteError::OpenFailed,
            WriteStage::Stat => WriteError::StatFailed,
            WriteStage::Truncate => WriteError::TruncateFailed,
            WriteStage::Write => WriteError::WriteFailed,
            WriteStage::Finished => WriteError::UnexpectedEvent,
            WriteStage::Failed(e) => e,
        }
    }

    /// Tells whether writing has ended.
    pub fn has_ended(self) -> (r: bool)
        ensures
            r == self.is_terminal(),
    {
        match self {
            WriteStage::Finished | WriteStage::Failed(_) => true,
            _ => false,
        }
    }

    /// The reason for giving up when the request fails.
    pub fn failure_reason(self) -> (r: WriteError)
        ensures
            r == self.failure(),
    {
        match self {
            WriteStage::Serialize => WriteError::BuildFailed,
            WriteStage::Open => WriteError::OpenFailed,
            WriteStage::Stat => WriteError::StatFailed,
            WriteStage::Truncate => WriteError::TruncateFailed,
            WriteStage::Write => WriteError::WriteFailed,
            WriteStage::Finished => WriteError::UnexpectedEvent,
            WriteStage::Failed(e) => e,
        }
    }
}

/// The step after the destination's length is known: truncate exactly if it
/// holds something.
pub open spec fn stage_for_length(length: u64) -> WriteStage {
    if length > 0 {
        WriteStage::Truncate
    } else {
        WriteStage::Write
    }
}

/// How the one write call ended: well exactly if it took every byte.
pub open spec fn stage_for_written(written: usize, len: usize) -> WriteStage {
    if written == len {
        WriteStage::Finished
    } else {
        WriteStage::Failed(WriteError::ShortWrite)
    }
}

/// Decides whether the destination is truncated before the write.
pub fn after_stat(length: u64) -> (next: WriteStage)
    ensures
        next == stage_for_length(length),
{
    if length > 0 {
        WriteStage::Truncate
    } else {
        WriteStage::Write
    }
}

/// Decides how the write call ended. A call that took fewer bytes than it
/// was given is an error, and no second call is made for the rest.
pub fn after_write(written: usize, len: usize) -> (next: WriteStage)
    ensures
        next == stage_for_written(written, len),
{
    if written == len {
        WriteStage::Finished
    } else {
        WriteStage::Failed(WriteError::ShortWrite)
    }
}

impl Writer {
    /// The state before anything was asked.
    pub open spec fn initial() -> Writer {
        Writer { stage: WriteStage::Serialize, len: 0 }
    }

    /// The state after `event` has answered the open request. The answer
    /// that belongs to the request moves on, `Failed` ends with the
    /// request's reason, any other answer ends with `UnexpectedEvent`, and a
    /// state that has ended stays as it is.
    pub open spec fn absorbed(self, event: WriteEvent) -> Writer {
        if self.stage.is_terminal() {
            self
        } else {
            match (self.stage, event) {
                (WriteStage::Serialize, WriteEvent::Built(n)) => Writer {
                    stage: WriteStage::Open,
                    len: n,
                },
                (WriteStage::Open, WriteEvent::Opened) => Writer {
                    stage: WriteStage::Stat,
                    len: self.len,
                },
                (WriteStage::Stat, WriteEvent::Length(l)) => Writer {
                    stage: stage_for_length(l),
                    len: self.len,
                },
                (WriteStage::Truncate, WriteEvent::Truncated) => Writer {
                    stage: WriteStage::Write,
                    len: self.len,
                },
                (WriteStage::Write, WriteEvent::Written(n)) => Writer {
                    stage: stage_for_written(n, self.len),
                    len: self.len,
                },
                (_, WriteEvent::Failed) => Writer {
                    stage: WriteStage::Failed(self.stage.failure()),
                    len: self.len,
                },
                _ => Writer { stage: WriteStage::Failed(WriteError::UnexpectedEvent), len: self.len },
            }
        }
    }

    /// The state after the answers `events`, taken in order.
    pub open spec fn after(self, events: Seq<WriteEvent>) -> Writer
        decreases events.len(),
    {
        if events.len() == 0 {
            self
        } else {
            self.after(events.drop_last()).absorbed(events.last())
        }
    }

    /// The state as it stands before the answer number `k` of `events`.
    pub open spec fn before(self, events: Seq<WriteEvent>, k: int) -> Writer {
        self.after(events.take(k))
    }

    /// Starts writing.
    pub fn new() -> (w: Writer)
        ensures
            w == Writer::initial(),
    {
        Writer { stage: WriteStage::Serialize, len: 0 }
    }

    /// Takes the answer to the open request and moves on.
    pub fn step(self, event: WriteEvent) -> (next: Writer)
        ensures
            next == self.absorbed(event),
    {
        if self.stage.has_ended() {
            return self;
        }
        let len = self.len;
        match (self.stage, event) {
            (WriteStage::Serialize, WriteEvent::Built(n)) => Writer {
                stage: WriteStage::Open,
                len: n,
            },
            (WriteStage::Open, WriteEvent::Opened) => Writer { stage: WriteStage::Stat, len },
            (WriteStage::Stat, WriteEvent::Length(l)) => Writer { stage: after_stat(l), len },
            (WriteStage::Truncate, WriteEvent::Truncated) => Writer {
                stage: WriteStage::Write,
                len,
            },
            (WriteStage::Write, WriteEvent::Written(n)) => Writer {
                stage: after_write(n, len),
                len,
            },
            (stage, WriteEvent::Failed) => Writer {
                stage: WriteStage::Failed(stage.failure_reason()),
                len,
            },
            _ => Writer { stage: WriteStage::Failed(WriteError::UnexpectedEvent), len },
        }
    }

    /// Answer number `k` takes the state from where it stood before that
    /// answer to where it stands before the next.
    pub proof fn lemma_before_next(self, events: Seq<WriteEvent>, k: int)
        requires
            0 <= k < events.len(),
        ensures
            self.before(events, k + 1) == self.before(events, k).absorbed(events[k]),
    {
        assert(events.take(k + 1).drop_last() =~= events.take(k));
        assert(events.take(k + 1).last() == events[k]);
    }

    /// The destination is truncated exactly after it was found to hold
    /// something, and written to exactly after it was found empty or was
    /// truncated.
    pub proof fn lemma_truncate_iff_not_empty(self, event: WriteEvent)
        ensures
            self.stage != WriteStage::Truncate ==> (self.absorbed(event).stage
                == WriteStage::Truncate <==> self.stage == WriteStage::Stat && event is Length
                && event->Length_0 > 0),
            self.stage != WriteStage::Write ==> (self.absorbed(event).stage == WriteStage::Write
                <==> (self.stage == WriteStage::Stat && event == WriteEvent::Length(0))
                || (self.stage == WriteStage::Truncate && event == WriteEvent::Truncated)),
    {
    }

    /// There is one write call. Whatever it reports ends the writing: well if
    /// it took every byte, and with `ShortWrite` if it took another number
    /// of them. No answer leads to a second call.
    pub proof fn lemma_single_write(self, event: WriteEvent)
        requires
            self.stage == WriteStage::Write,
        ensures
            self.absorbed(event).stage.is_terminal(),
            self.absorbed(event).stage == WriteStage::Finished <==> event == WriteEvent::Written(
                self.len,
            ),
            event is Written && event->Written_0 != self.len ==> self.absorbed(event).stage
                == WriteStage::Failed(WriteError::ShortWrite),
    {
    }

    /// Writing that has ended is moved by no answer.
    pub proof fn lemma_end_is_final(self, events: Seq<WriteEvent>)
        requires
            self.stage.is_terminal(),
        ensures
            self.after(events) == self,
        decreases events.len(),
    {
        if events.len() > 0 {
            self.lemma_end_is_final(events.drop_last());
        }
    }

    /// What has happened when a request is open. The requests come in one
    /// order: serialize, open, stat, then truncate if the destination was
    /// found to hold something, then write. So a truncation is open only
    /// after a length above zero was reported, and a write is open either
    /// right after length zero was reported, with no truncation in between,
    /// or right after the truncation that a length above zero led to. The
    /// number of bytes to write is the one that serializing reported.
    pub proof fn lemma_history(events: Seq<WriteEvent>, k: int)
        requires
            0 <= k <= events.len(),
        ensures
            ({
                let stage = Writer::initial().before(events, k).stage;
                &&& stage == WriteStage::Serialize ==> k == 0
                &&& stage == WriteStage::Open ==> k == 1
                &&& stage == WriteStage::Stat ==> k == 2
                &&& stage == WriteStage::Truncate ==> k == 3 && events[2] is Length
                    && events[2]->Length_0 > 0
                &&& stage == WriteStage::Write ==> (k == 3 && events[2] == WriteEvent::Length(0))
                    || (k == 4 && events[2] is Length && events[2]->Length_0 > 0 && events[3]
                    == WriteEvent::Truncated)
                &&& !stage.is_terminal() && k > 0 ==> events[0] is Built
                    && Writer::initial().before(events, k).len == events[0]->Built_0
            }),
        decreases k,
    {
        let start = Writer::initial();
        if k == 0 {
            assert(events.take(0) =~= Seq::<WriteEvent>::empty());
        } else {
            Self::lemma_history(events, k - 1);
            start.lemma_before_next(events, k - 1);
        }
    }
}

} // verus!
