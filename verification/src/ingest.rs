//! The reader of the audio ingestion pipeline: what it does with each outcome
//! of a read, and when a run of failed reads makes it give up.

use vstd::prelude::*;

verus! {

/// How many failed reads in a row the reader puts up with.
pub const MAX_READ_ERRORS: usize = 5;

/// The size in bytes of an audio frame.
pub const FRAME_SIZE: usize = 1024;

/// How many audio frames may wait for the recognition session.
pub const FRAME_QUEUE: usize = 10;

/// What the reader is woken by.
#[derive(Debug, PartialEq, Eq)]
pub enum ReadEvent {
    /// A frame was read from the capture process.
    Frame(Vec<u8>),
    /// A read failed.
    Failed,
    /// The recognition session no longer takes frames.
    ConsumerGone,
}

/// Mathematical value of a [`ReadEvent`].
pub enum ReadEventView {
    Frame(Seq<u8>),
    Failed,
    ConsumerGone,
}

/// What the reader is to do next.
#[derive(Debug, PartialEq, Eq)]
pub enum ReadAction {
    /// Hand the frame to the recognition session, then read on.
    Forward(Vec<u8>),
    /// Read again.
    Retry,
    /// Stop and report that ingestion failed.
    Abort,
    /// Stop without a report: nobody is listening.
    Shutdown,
}

/// Mathematical value of a [`ReadAction`].
pub enum ReadActionView {
    Forward(Seq<u8>),
    Retry,
    Abort,
    Shutdown,
}

impl View for ReadEvent {
    type V = ReadEventView;

    open spec fn view(&self) -> ReadEventView {
        match self {
            ReadEvent::Frame(frame) => ReadEventView::Frame(frame@),
            ReadEvent::Failed => ReadEventView::Failed,
            ReadEvent::ConsumerGone => ReadEventView::ConsumerGone,
        }
    }
}

impl View for ReadAction {
    type V = ReadActionView;

    open spec fn view(&self) -> ReadActionView {
        match self {
            ReadAction::Forward(frame) => ReadActionView::Forward(frame@),
            ReadAction::Retry => ReadActionView::Retry,
            ReadAction::Abort => ReadActionView::Abort,
            ReadAction::Shutdown => ReadActionView::Shutdown,
        }
    }
}

/// The count of failed reads in a row after `event`: a frame clears it, a
/// failure adds one until the budget is spent.
pub open spec fn errors_after(errors: nat, event: ReadEventView) -> nat {
    match event {
        ReadEventView::Frame(_) => 0,
        ReadEventView::Failed => if errors > MAX_READ_ERRORS {
            errors
        } else {
            errors + 1
        },
        ReadEventView::ConsumerGone => errors,
    }
}

/// What the reader does on `event` after `errors` failed reads in a row.
pub open spec fn read_action(errors: nat, event: ReadEventView) -> ReadActionView {
    match event {
        ReadEventView::Frame(frame) => ReadActionView::Forward(frame),
        ReadEventView::Failed => if errors_after(errors, event) > MAX_READ_ERRORS {
            ReadActionView::Abort
        } else {
            ReadActionView::Retry
        },
        ReadEventView::ConsumerGone => ReadActionView::Shutdown,
    }
}

/// The count of failed reads in a row after a sequence of events.
pub open spec fn errors_after_all(errors: nat, events: Seq<ReadEventView>) -> nat
    decreases events.len(),
{
    if events.len() == 0 {
        errors
    } else {
        errors_after(errors_after_all(errors, events.drop_last()), events.last())
    }
}

/// `n` failed reads.
pub open spec fn failures(n: nat) -> Seq<ReadEventView> {
    Seq::new(n, |i: int| ReadEventView::Failed)
}

/// The reader's memory: how many reads have failed in a row.
#[derive(Debug, PartialEq, Eq)]
pub struct FrameReader {
    errors: usize,
}

impl View for FrameReader {
    type V = nat;

    closed spec fn view(&self) -> nat {
        self.errors as nat
    }
}

impl FrameReader {
    /// What holds of every reader: the count stops one above the budget.
    pub open spec fn wf(&self) -> bool {
        self@ <= MAX_READ_ERRORS + 1
    }

    /// A reader that has seen no failure.
    pub fn new() -> (reader: FrameReader)
        ensures
            reader.wf(),
            reader@ == 0,
    {
        FrameReader { errors: 0 }
    }

    /// How many reads have failed in a row.
    pub fn errors(&self) -> (errors: usize)
        ensures
            errors == self@,
    {
        self.errors
    }

    /// Takes the outcome of a read, or the news that the consumer is gone, and
    /// says what to do next.
    pub fn step(&mut self, event: ReadEvent) -> (action: ReadAction)
        requires
            old(self).wf(),
        ensures
            final(self).wf(),
            final(self)@ == errors_after(old(self)@, event@),
            action@ == read_action(old(self)@, event@),
    {
        match event {
            ReadEvent::Frame(frame) => {
                self.errors = 0;
                ReadAction::Forward(frame)
            },
            ReadEvent::Failed => {
                if self.errors <= MAX_READ_ERRORS {
                    self.errors = self.errors + 1;
                }
                if self.errors > MAX_READ_ERRORS {
                    ReadAction::Abort
                } else {
                    ReadAction::Retry
                }
            },
            ReadEvent::ConsumerGone => ReadAction::Shutdown,
        }
    }
}

/// A run of failed reads is put up with as long as it stays within the budget:
/// after `n` failures in a row the reader has counted `n` of them, and the next
/// failure makes it give up exactly when the budget is spent. A frame that is
/// read clears the count.
pub proof fn law_read_budget(n: nat, frame: Seq<u8>)
    requires
        n <= MAX_READ_ERRORS,
    ensures
        errors_after_all(0, failures(n)) == n,
        forall|k: int|
            0 <= k < n ==> read_action(
                errors_after_all(0, #[trigger] failures(n).take(k)),
                ReadEventView::Failed,
            ) == ReadActionView::Retry,
        read_action(n, ReadEventView::Failed) == if n == MAX_READ_ERRORS {
            ReadActionView::Abort
        } else {
            ReadActionView::Retry
        },
        errors_after(n, ReadEventView::Frame(frame)) == 0,
        read_action(n, ReadEventView::Frame(frame)) == ReadActionView::Forward(frame),
    decreases n,
{
    if n > 0 {
        law_read_budget((n - 1) as nat, frame);
        assert(failures(n).drop_last() =~= failures((n - 1) as nat));
        assert forall|k: int| 0 <= k < n implies read_action(
            errors_after_all(0, #[trigger] failures(n).take(k)),
            ReadEventView::Failed,
        ) == ReadActionView::Retry by {
            assert(failures(n).take(k) =~= failures(k as nat));
            law_read_budget(k as nat, frame);
        }
    } else {
        assert(failures(0) =~= Seq::<ReadEventView>::empty());
    }
}

} // verus!
