//! The transcript hub: a bounded ring of lines that one producer fills and any
//! number of subscribers read, each at its own pace. A subscriber that falls
//! behind loses the oldest lines it has not read yet; the producer never waits.

use std::collections::VecDeque;
use vstd::prelude::*;
use crate::line::{line_views, Line, LineView};

verus! {

/// How many lines the hub of the service keeps for its subscribers.
pub const HUB_CAPACITY: usize = 10;

/// Mathematical value of a [`TranscriptHub`].
pub struct HubView {
    /// How many lines the hub keeps for its subscribers.
    pub capacity: nat,
    /// Every line that was published, the oldest first.
    pub log: Seq<LineView>,
    /// Whether the hub has been closed.
    pub closed: bool,
}

/// Mathematical value of a [`Subscription`].
pub struct SubscriptionView {
    /// The place in the hub's log of the line that is read next.
    pub next: nat,
    /// How many lines the subscriber has lost by falling behind.
    pub dropped: nat,
}

/// What a subscriber gets when it asks for its next line.
#[derive(Debug, PartialEq, Eq)]
pub enum Delivery {
    /// The next line.
    Line(Line),
    /// The subscriber fell behind and lost this many lines; it goes on with the
    /// oldest line that the hub still keeps.
    Lagged(u64),
    /// Nothing new has been published.
    Empty,
    /// The hub is closed and everything has been read.
    Closed,
}

/// Mathematical value of a [`Delivery`].
pub enum DeliveryView {
    Line(LineView),
    Lagged(nat),
    Empty,
    Closed,
}

impl View for Delivery {
    type V = DeliveryView;

    open spec fn view(&self) -> DeliveryView {
        match self {
            Delivery::Line(line) => DeliveryView::Line(line@),
            Delivery::Lagged(missed) => DeliveryView::Lagged(*missed as nat),
            Delivery::Empty => DeliveryView::Empty,
            Delivery::Closed => DeliveryView::Closed,
        }
    }
}

impl HubView {
    /// What holds of every hub: it keeps at least one line.
    pub open spec fn wf(self) -> bool {
        self.capacity > 0
    }

    /// The place in the log of the oldest line that the hub still keeps.
    pub open spec fn oldest(self) -> nat {
        if self.log.len() <= self.capacity {
            0
        } else {
            (self.log.len() - self.capacity) as nat
        }
    }

    /// The lines that the hub still keeps, the oldest first.
    pub open spec fn kept(self) -> Seq<LineView> {
        self.log.skip(self.oldest() as int)
    }

    /// The hub after `line` was published. A closed hub takes no line.
    pub open spec fn publish(self, line: LineView) -> HubView {
        if self.closed {
            self
        } else {
            HubView { capacity: self.capacity, log: self.log.push(line), closed: false }
        }
    }

    /// The hub after each of `lines` was published in turn.
    pub open spec fn publish_all(self, lines: Seq<LineView>) -> HubView
        decreases lines.len(),
    {
        if lines.len() == 0 {
            self
        } else {
            self.publish_all(lines.drop_last()).publish(lines.last())
        }
    }

    /// A subscription taken now: it starts behind everything published so far.
    pub open spec fn subscribe(self) -> SubscriptionView {
        SubscriptionView { next: self.log.len(), dropped: 0 }
    }

    /// What a subscriber gets next.
    pub open spec fn deliver(self, subscription: SubscriptionView) -> DeliveryView {
        if subscription.next < self.oldest() {
            DeliveryView::Lagged((self.oldest() - subscription.next) as nat)
        } else if subscription.next < self.log.len() {
            DeliveryView::Line(self.log[subscription.next as int])
        } else if self.closed {
            DeliveryView::Closed
        } else {
            DeliveryView::Empty
        }
    }

    /// The subscription after it got what [`HubView::deliver`] says.
    pub open spec fn advance(self, subscription: SubscriptionView) -> SubscriptionView {
        if subscription.next < self.oldest() {
            SubscriptionView {
                next: self.oldest(),
                dropped: subscription.dropped + (self.oldest() - subscription.next) as nat,
            }
        } else if subscription.next < self.log.len() {
            SubscriptionView { next: subscription.next + 1, dropped: subscription.dropped }
        } else {
            subscription
        }
    }

    /// The subscription after `count` deliveries.
    pub open spec fn advance_by(self, subscription: SubscriptionView, count: nat) -> SubscriptionView
        decreases count,
    {
        if count == 0 {
            subscription
        } else {
            self.advance(self.advance_by(subscription, (count - 1) as nat))
        }
    }
}

impl SubscriptionView {
    /// What holds of every subscription: it has lost no more than it has
    /// passed.
    pub open spec fn wf(self) -> bool {
        self.dropped <= self.next
    }
}

/// The fan-out point between the producer of lines and its subscribers.
pub struct TranscriptHub {
    capacity: usize,
    buffer: VecDeque<Line>,
    published: u64,
    closed: bool,
    log: Ghost<Seq<LineView>>,
}

/// A subscriber's place in the hub.
#[derive(Debug, PartialEq, Eq)]
pub struct Subscription {
    next: u64,
    dropped: u64,
}

impl View for TranscriptHub {
    type V = HubView;

    closed spec fn view(&self) -> HubView {
        HubView { capacity: self.capacity as nat, log: self.log@, closed: self.closed }
    }
}

impl View for Subscription {
    type V = SubscriptionView;

    closed spec fn view(&self) -> SubscriptionView {
        SubscriptionView { next: self.next as nat, dropped: self.dropped as nat }
    }
}

impl Subscription {
    /// What holds of every subscription.
    pub open spec fn wf(&self) -> bool {
        self@.wf()
    }

    /// How many lines the subscriber has lost by falling behind.
    pub fn dropped(&self) -> (dropped: u64)
        ensures
            dropped == self@.dropped,
    {
        self.dropped
    }

    /// The place in the hub's log of the line that is read next.
    pub fn position(&self) -> (next: u64)
        ensures
            next == self@.next,
    {
        self.next
    }
}

impl TranscriptHub {
    /// What holds of every hub: it keeps the newest lines of its log, as many
    /// as its capacity allows.
    pub closed spec fn wf(&self) -> bool {
        &&& self@.wf()
        &&& self.published == self.log@.len()
        &&& line_views(self.buffer@) == self@.kept()
    }

    /// An open hub that keeps up to `capacity` lines and has published none.
    pub fn new(capacity: usize) -> (hub: TranscriptHub)
        requires
            capacity > 0,
        ensures
            hub.wf(),
            hub@ == (HubView { capacity: capacity as nat, log: Seq::empty(), closed: false }),
    {
        let hub = TranscriptHub {
            capacity,
            buffer: VecDeque::new(),
            published: 0,
            closed: false,
            log: Ghost(Seq::empty()),
        };
        assert(line_views(hub.buffer@) =~= hub@.kept());
        hub
    }

    /// How many lines have been published.
    pub fn published(&self) -> (count: u64)
        requires
            self.wf(),
        ensures
            count == self@.log.len(),
    {
        self.published
    }

    /// Whether the hub has been closed.
    pub fn is_closed(&self) -> (closed: bool)
        ensures
            closed == self@.closed,
    {
        self.closed
    }

    /// Publishes a line to every subscriber. The producer never waits: when
    /// the hub is full its oldest line makes room.
    pub fn publish(&mut self, line: Line)
        requires
            old(self).wf(),
            old(self)@.log.len() < u64::MAX,
        ensures
            final(self).wf(),
            final(self)@ == old(self)@.publish(line@),
    {
        if self.closed {
            return ;
        }
        let ghost before = self@;
        let ghost kept = line_views(self.buffer@);
        if self.buffer.len() >= self.capacity {
            let _ = self.buffer.pop_front();
        }
        let ghost rest = line_views(self.buffer@);
        self.buffer.push_back(line);
        self.published = self.published + 1;
        self.log = Ghost(self.log@.push(line@));
        proof {
            assert(rest =~= if kept.len() >= before.capacity {
                kept.skip(1)
            } else {
                kept
            });
            assert(line_views(self.buffer@) =~= rest.push(line@));
            assert(line_views(self.buffer@) =~= self@.kept());
        }
    }

    /// Closes the hub: it takes no more lines, and subscribers that have read
    /// everything learn that nothing will follow.
    pub fn close(&mut self)
        requires
            old(self).wf(),
        ensures
            final(self).wf(),
            final(self)@ == (HubView { closed: true, ..old(self)@ }),
    {
        self.closed = true;
    }

    /// A subscription that sees only what is published from now on.
    pub fn subscribe(&self) -> (subscription: Subscription)
        requires
            self.wf(),
        ensures
            subscription.wf(),
            subscription@ == self@.subscribe(),
    {
        Subscription { next: self.published, dropped: 0 }
    }

    /// Hands a subscriber what is next for it, and moves it on.
    pub fn recv(&self, subscription: &mut Subscription) -> (delivery: Delivery)
        requires
            self.wf(),
            old(subscription).wf(),
        ensures
            final(subscription).wf(),
            final(subscription)@ == self@.advance(old(subscription)@),
            delivery@ == self@.deliver(old(subscription)@),
    {
        let kept = self.buffer.len();
        assert(kept == self@.kept().len()) by {
            assert(line_views(self.buffer@).len() == self.buffer@.len());
        }
        let oldest = self.published - kept as u64;
        if subscription.next < oldest {
            let missed = oldest - subscription.next;
            subscription.dropped = subscription.dropped + missed;
            subscription.next = oldest;
            Delivery::Lagged(missed)
        } else if subscription.next < self.published {
            let at = (subscription.next - oldest) as usize;
            let line = self.buffer[at].clone();
            assert(line@ == self@.log[subscription.next as int]) by {
                assert(line_views(self.buffer@)[at as int] == self.buffer@[at as int]@);
            }
            subscription.next = subscription.next + 1;
            Delivery::Line(line)
        } else if self.closed {
            Delivery::Closed
        } else {
            Delivery::Empty
        }
    }
}

/// A subscriber sees nothing of what was published before it subscribed, and
/// what is published afterwards in the order of publication: as long as no more
/// than the hub's capacity is outstanding, its deliveries are the later lines
/// one by one.
pub proof fn law_subscriber_sees_later_lines_in_order(
    hub: HubView,
    later: Seq<LineView>,
    read: nat,
)
    requires
        hub.wf(),
        !hub.closed,
        later.len() <= hub.capacity,
        read <= later.len(),
    ensures
        ({
            let now = hub.publish_all(later);
            let subscription = now.advance_by(hub.subscribe(), read);
            &&& now.log == hub.log + later
            &&& subscription == SubscriptionView { next: hub.log.len() + read, dropped: 0 }
            &&& now.deliver(subscription) == if read < later.len() {
                DeliveryView::Line(later[read as int])
            } else {
                DeliveryView::Empty
            }
        }),
    decreases read,
{
    law_publishing_appends(hub, later);
    if read > 0 {
        law_subscriber_sees_later_lines_in_order(hub, later, (read - 1) as nat);
    }
}

/// Publishing to an open hub appends to its log.
pub proof fn law_publishing_appends(hub: HubView, lines: Seq<LineView>)
    requires
        !hub.closed,
    ensures
        hub.publish_all(lines) == (HubView {
            capacity: hub.capacity,
            log: hub.log + lines,
            closed: false,
        }),
    decreases lines.len(),
{
    if lines.len() > 0 {
        law_publishing_appends(hub, lines.drop_last());
        assert(hub.log + lines =~= (hub.log + lines.drop_last()).push(lines.last()));
    } else {
        assert(hub.log + lines =~= hub.log);
    }
}

/// Whatever a subscriber is handed is a line of the log at or behind its place,
/// and its place only moves forward: no line comes twice or out of order, and
/// lines lost to lag are counted.
pub proof fn law_delivery_follows_log(hub: HubView, subscription: SubscriptionView)
    requires
        hub.wf(),
        subscription.wf(),
    ensures
        ({
            let after = hub.advance(subscription);
            &&& after.wf()
            &&& after.next >= subscription.next
            &&& after.next - subscription.next == (after.dropped - subscription.dropped) + (
            if hub.deliver(subscription) is Line {
                1nat
            } else {
                0nat
            })
            &&& hub.deliver(subscription) matches DeliveryView::Line(line) ==> {
                &&& subscription.next < hub.log.len()
                &&& line == hub.log[subscription.next as int]
                &&& after.next == subscription.next + 1
            }
            &&& hub.deliver(subscription) matches DeliveryView::Lagged(missed) ==> {
                &&& missed > 0
                &&& after.next == subscription.next + missed
                &&& hub.deliver(after) is Line
            }
        }),
{
}

} // verus!
