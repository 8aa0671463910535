//! The control bus: a bounded queue that hands commands to their one consumer
//! in the order in which they were taken in. Also which commands a request of
//! the transport layer puts on the bus, and how the outcome of sending a query
//! and of waiting for its answer becomes a typed result.

use std::collections::VecDeque;
use vstd::prelude::*;
use crate::control::{option_view, ControlMessage, ControlView, RunState};

verus! {

/// How many commands may wait on the control bus.
pub const BUS_CAPACITY: usize = 5;

/// Mathematical value of a [`ControlBus`].
pub struct BusView<T> {
    /// How many messages may wait.
    pub capacity: nat,
    /// The messages that wait, the oldest first.
    pub pending: Seq<T>,
    /// Whether the consumer is gone.
    pub closed: bool,
}

/// Why the bus did not take a message. The message comes back.
#[derive(Debug, PartialEq, Eq)]
pub enum SendError<T> {
    /// The bus is full: there will be room once the consumer has caught up.
    Full(T),
    /// The bus is closed: its consumer is gone.
    Closed(T),
}

/// What the consumer finds on the bus.
#[derive(Debug, PartialEq, Eq)]
pub enum Received<T> {
    /// The oldest message that waited.
    Message(T),
    /// Nothing waits.
    Empty,
    /// The bus is closed.
    Closed,
}

/// One use of the bus: a producer offers a message, or the consumer asks for
/// one.
pub enum BusOp<T> {
    Send(T),
    Recv,
}

impl<T> BusView<T> {
    /// What holds of every bus: it has room for a message, and no more wait
    /// than it has room for.
    pub open spec fn wf(self) -> bool {
        0 < self.capacity && self.pending.len() <= self.capacity
    }

    /// Whether the bus takes a message now.
    pub open spec fn accepts(self) -> bool {
        !self.closed && self.pending.len() < self.capacity
    }

    /// The bus after a producer offered `message`.
    pub open spec fn send(self, message: T) -> BusView<T> {
        if self.accepts() {
            BusView { pending: self.pending.push(message), ..self }
        } else {
            self
        }
    }

    /// The bus after the consumer asked for a message.
    pub open spec fn recv(self) -> BusView<T> {
        if self.pending.len() > 0 {
            BusView { pending: self.pending.skip(1), ..self }
        } else {
            self
        }
    }

    /// The bus after its consumer went away: what waited is dropped.
    pub open spec fn close(self) -> BusView<T> {
        BusView { capacity: self.capacity, pending: Seq::empty(), closed: true }
    }

    /// The bus after one use.
    pub open spec fn apply(self, op: BusOp<T>) -> BusView<T> {
        match op {
            BusOp::Send(message) => self.send(message),
            BusOp::Recv => self.recv(),
        }
    }

    /// The bus after a sequence of uses, the oldest first.
    pub open spec fn run(self, ops: Seq<BusOp<T>>) -> BusView<T>
        decreases ops.len(),
    {
        if ops.len() == 0 {
            self
        } else {
            self.run(ops.drop_last()).apply(ops.last())
        }
    }

    /// The messages that the bus took in over a sequence of uses, in order.
    pub open spec fn taken(self, ops: Seq<BusOp<T>>) -> Seq<T>
        decreases ops.len(),
    {
        if ops.len() == 0 {
            Seq::empty()
        } else {
            let before = self.run(ops.drop_last());
            match ops.last() {
                BusOp::Send(message) => if before.accepts() {
                    self.taken(ops.drop_last()).push(message)
                } else {
                    self.taken(ops.drop_last())
                },
                BusOp::Recv => self.taken(ops.drop_last()),
            }
        }
    }

    /// The messages that the consumer got over a sequence of uses, in order.
    pub open spec fn handed(self, ops: Seq<BusOp<T>>) -> Seq<T>
        decreases ops.len(),
    {
        if ops.len() == 0 {
            Seq::empty()
        } else {
            let before = self.run(ops.drop_last());
            match ops.last() {
                BusOp::Recv => if before.pending.len() > 0 {
                    self.handed(ops.drop_last()).push(before.pending[0])
                } else {
                    self.handed(ops.drop_last())
                },
                BusOp::Send(_) => self.handed(ops.drop_last()),
            }
        }
    }
}

/// A bounded queue with any number of producers and one consumer.
pub struct ControlBus<T> {
    capacity: usize,
    queue: VecDeque<T>,
    closed: bool,
}

impl<T> View for ControlBus<T> {
    type V = BusView<T>;

    closed spec fn view(&self) -> BusView<T> {
        BusView { capacity: self.capacity as nat, pending: self.queue@, closed: self.closed }
    }
}

impl<T> ControlBus<T> {
    /// What holds of every bus.
    pub open spec fn wf(&self) -> bool {
        self@.wf()
    }

    /// An open bus on which up to `capacity` messages may wait.
    pub fn new(capacity: usize) -> (bus: ControlBus<T>)
        requires
            capacity > 0,
        ensures
            bus.wf(),
            bus@ == (BusView::<T> {
                capacity: capacity as nat,
                pending: Seq::empty(),
                closed: false,
            }),
    {
        ControlBus { capacity, queue: VecDeque::new(), closed: false }
    }

    /// How many messages wait.
    pub fn len(&self) -> (len: usize)
        ensures
            len == self@.pending.len(),
    {
        self.queue.len()
    }

    /// Whether the consumer is gone.
    pub fn is_closed(&self) -> (closed: bool)
        ensures
            closed == self@.closed,
    {
        self.closed
    }

    /// Offers a message. An open bus with room takes it behind everything that
    /// waits; otherwise the message comes back with the reason.
    pub fn try_send(&mut self, message: T) -> (sent: Result<(), SendError<T>>)
        requires
            old(self).wf(),
        ensures
            final(self).wf(),
            final(self)@ == old(self)@.send(message),
            sent == (if old(self)@.closed {
                Err::<(), SendError<T>>(SendError::Closed(message))
            } else if old(self)@.pending.len() >= old(self)@.capacity {
                Err(SendError::Full(message))
            } else {
                Ok(())
            }),
    {
        if self.closed {
            Err(SendError::Closed(message))
        } else if self.queue.len() >= self.capacity {
            Err(SendError::Full(message))
        } else {
            self.queue.push_back(message);
            Ok(())
        }
    }

    /// Hands the consumer the oldest message that waits.
    pub fn try_recv(&mut self) -> (received: Received<T>)
        requires
            old(self).wf(),
        ensures
            final(self).wf(),
            final(self)@ == old(self)@.recv(),
            received == (if old(self)@.pending.len() > 0 {
                Received::Message(old(self)@.pending[0])
            } else if old(self)@.closed {
                Received::Closed
            } else {
                Received::Empty
            }),
    {
        match self.queue.pop_front() {
            Some(message) => Received::Message(message),
            None => if self.closed {
                Received::Closed
            } else {
                Received::Empty
            },
        }
    }

    /// Closes the bus when its consumer goes away. What waited is dropped, and
    /// nothing is taken in any more.
    pub fn close(&mut self)
        requires
            old(self).wf(),
        ensures
            final(self).wf(),
            final(self)@ == old(self)@.close(),
    {
        self.queue.clear();
        self.closed = true;
    }
}

/// The bus is first in, first out: what waited at the start and what was taken
/// in since, in that order, is what the consumer got followed by what still
/// waits. So the consumer gets the messages in the order in which the bus took
/// them, whoever sent them, and none twice: what it got is the front part of
/// what the bus held and took in.
pub proof fn law_bus_is_fifo<T>(bus: BusView<T>, ops: Seq<BusOp<T>>)
    requires
        bus.wf(),
    ensures
        bus.run(ops).wf(),
        bus.pending + bus.taken(ops) == bus.handed(ops) + bus.run(ops).pending,
        bus.handed(ops) == (bus.pending + bus.taken(ops)).take(bus.handed(ops).len() as int),
    decreases ops.len(),
{
    lemma_fifo(bus, ops);
    assert(bus.handed(ops) =~= (bus.handed(ops) + bus.run(ops).pending).take(
        bus.handed(ops).len() as int,
    ));
}

proof fn lemma_fifo<T>(bus: BusView<T>, ops: Seq<BusOp<T>>)
    requires
        bus.wf(),
    ensures
        bus.run(ops).wf(),
        bus.pending + bus.taken(ops) == bus.handed(ops) + bus.run(ops).pending,
    decreases ops.len(),
{
    if ops.len() == 0 {
        assert(bus.pending + bus.taken(ops) =~= bus.handed(ops) + bus.run(ops).pending);
    } else {
        lemma_fifo(bus, ops.drop_last());
        let before = bus.run(ops.drop_last());
        assert(bus.pending + bus.taken(ops) =~= bus.handed(ops) + bus.run(ops).pending) by {
            let all = bus.pending + bus.taken(ops.drop_last());
            assert(all == bus.handed(ops.drop_last()) + before.pending);
            match ops.last() {
                BusOp::Send(message) => {
                    if before.accepts() {
                        assert(bus.pending + bus.taken(ops.drop_last()).push(message) =~= all.push(
                            message,
                        ));
                        assert(bus.handed(ops.drop_last()) + before.pending.push(message)
                            =~= all.push(message));
                    }
                },
                BusOp::Recv => {
                    if before.pending.len() > 0 {
                        assert(bus.handed(ops.drop_last()).push(before.pending[0])
                            + before.pending.skip(1) =~= all);
                    }
                },
            }
        }
    }
}

/// Milliseconds that a caller waits for the answer to a query.
pub const REPLY_TIMEOUT_MS: u64 = 5000;

/// Why a request over the control bus has no answer.
#[derive(Copy, Clone, Debug, PartialEq, Eq, Structural)]
pub enum RequestError {
    /// No answer came in time. The machine may only be busy: the request can
    /// be made again.
    TimedOut,
    /// The bus is closed: its consumer is gone and nothing will be answered.
    BusClosed,
}

/// How the wait for an answer ended.
#[derive(Debug, PartialEq, Eq)]
pub enum Waited<T> {
    /// The answer came.
    Answered(T),
    /// The consumer went away without answering.
    Dropped,
    /// The time ran out.
    TimedOut,
}

/// What the transport layer can ask for.
#[derive(Debug, PartialEq, Eq)]
pub enum Request {
    Start,
    Stop,
    Simulate,
    Status,
    GetLanguage,
    SetLanguage(String),
    GetWordlist,
    SetWordlist(Option<String>),
}

/// Mathematical value of a [`Request`].
pub enum RequestView {
    Start,
    Stop,
    Simulate,
    Status,
    GetLanguage,
    SetLanguage(Seq<char>),
    GetWordlist,
    SetWordlist(Option<Seq<char>>),
}

impl View for Request {
    type V = RequestView;

    open spec fn view(&self) -> RequestView {
        match self {
            Request::Start => RequestView::Start,
            Request::Stop => RequestView::Stop,
            Request::Simulate => RequestView::Simulate,
            Request::Status => RequestView::Status,
            Request::GetLanguage => RequestView::GetLanguage,
            Request::SetLanguage(code) => RequestView::SetLanguage(code@),
            Request::GetWordlist => RequestView::GetWordlist,
            Request::SetWordlist(name) => RequestView::SetWordlist(option_view(*name)),
        }
    }
}

/// The views of a vector of commands.
pub open spec fn control_views(messages: Seq<ControlMessage>) -> Seq<ControlView> {
    messages.map_values(|msg: ControlMessage| msg@)
}

/// The commands that a request puts on the bus, in order. A change of the run
/// state is not answered. A change of the language or of the wordlist is
/// followed by the query for it, so that the caller sees what is in force
/// afterwards.
pub open spec fn commands_of(request: RequestView) -> Seq<ControlView> {
    match request {
        RequestView::Start => seq![ControlView::SetState(RunState::Running)],
        RequestView::Stop => seq![ControlView::SetState(RunState::Stopped)],
        RequestView::Simulate => seq![ControlView::SetState(RunState::Test)],
        RequestView::Status => seq![ControlView::GetState],
        RequestView::GetLanguage => seq![ControlView::GetLanguage],
        RequestView::SetLanguage(code) => seq![
            ControlView::SetLanguage(code),
            ControlView::GetLanguage,
        ],
        RequestView::GetWordlist => seq![ControlView::GetWordlist],
        RequestView::SetWordlist(name) => seq![
            ControlView::SetWordlist(name),
            ControlView::GetWordlist,
        ],
    }
}

/// The commands that a request puts on the bus, in order.
pub fn commands(request: Request) -> (messages: Vec<ControlMessage>)
    ensures
        control_views(messages@) == commands_of(request@),
{
    let mut messages: Vec<ControlMessage> = Vec::new();
    match request {
        Request::Start => messages.push(ControlMessage::SetState(RunState::Running)),
        Request::Stop => messages.push(ControlMessage::SetState(RunState::Stopped)),
        Request::Simulate => messages.push(ControlMessage::SetState(RunState::Test)),
        Request::Status => messages.push(ControlMessage::GetState),
        Request::GetLanguage => messages.push(ControlMessage::GetLanguage),
        Request::SetLanguage(code) => {
            messages.push(ControlMessage::SetLanguage(code));
            messages.push(ControlMessage::GetLanguage);
        },
        Request::GetWordlist => messages.push(ControlMessage::GetWordlist),
        Request::SetWordlist(name) => {
            messages.push(ControlMessage::SetWordlist(name));
            messages.push(ControlMessage::GetWordlist);
        },
    }
    assert(control_views(messages@) =~= commands_of(request@));
    messages
}

impl RequestError {
    /// Whether the process cannot go on after this error.
    pub fn is_fatal(&self) -> (fatal: bool)
        ensures
            fatal == (*self == RequestError::BusClosed),
    {
        match self {
            RequestError::TimedOut => false,
            RequestError::BusClosed => true,
        }
    }
}

/// The result of a request. `sent` says whether the bus took the query,
/// `waited` how the wait for the answer ended. A bus that took nothing, or a
/// consumer that went away, is a closed bus; running out of time is not.
pub fn settle<T>(sent: bool, waited: Waited<T>) -> (result: Result<T, RequestError>)
    ensures
        result == (if !sent {
            Err(RequestError::BusClosed)
        } else {
            match waited {
                Waited::Answered(answer) => Ok(answer),
                Waited::Dropped => Err(RequestError::BusClosed),
                Waited::TimedOut => Err(RequestError::TimedOut),
            }
        }),
{
    if !sent {
        return Err(RequestError::BusClosed);
    }
    match waited {
        Waited::Answered(answer) => Ok(answer),
        Waited::Dropped => Err(RequestError::BusClosed),
        Waited::TimedOut => Err(RequestError::TimedOut),
    }
}

} // verus!
