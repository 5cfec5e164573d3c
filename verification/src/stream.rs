//! Pull-based bridge over a producer-driven sequence.
//!
//! A producer pushes items, may fail, and may close. A consumer asks for
//! one thing at a time. The bridge sits between the two and decides what
//! each pull returns. It never hands out anything after the first end or
//! error, whatever the producer does afterwards.
//!
//! The bridge does not wait on the producer itself. The caller asks
//! [`StreamBridge::wants_poll`], awaits the producer only if the answer is
//! yes, and hands what came back to [`StreamBridge::pull`]. Exclusive
//! access is the `&mut self` of `pull`: one pull consumes one event.

use vstd::prelude::*;

verus! {

/// Where a bridge stands in its life.
#[derive(Clone, Copy, Debug, PartialEq, Eq, Structural)]
pub enum BridgeState {
    /// The producer may still deliver.
    Active,
    /// The producer closed, or the deadline passed.
    Ended,
    /// The producer failed and the failure was handed out.
    Errored,
}

/// What one poll of the producer came back with.
#[derive(Debug, Clone, PartialEq, Eq)]
pub enum SourceEvent<T, E> {
    /// The producer delivered an item.
    Item(T),
    /// The producer failed.
    Failed(E),
    /// The producer has nothing more to deliver.
    Closed,
    /// The deadline passed before the producer delivered.
    TimedOut,
}

/// What one pull hands to the consumer.
#[derive(Debug, Clone, PartialEq, Eq)]
pub enum Pull<T, E> {
    Item(T),
    EndOfStream,
    TransportError(E),
}

impl BridgeState {
    /// Whether the bridge has stopped for good.
    pub open spec fn terminated(self) -> bool {
        !(self is Active)
    }
}

/// One pull: the state the bridge moves to and what the consumer gets,
/// given the state it was in and what the producer came back with.
///
/// A terminated bridge ignores the event and reports the end. An active
/// bridge passes an item through, reports a failure once and stops, and
/// stops quietly when the producer closes or the deadline passes.
pub open spec fn step<T, E>(state: BridgeState, event: SourceEvent<T, E>) -> (
    BridgeState,
    Pull<T, E>,
) {
    match state {
        BridgeState::Active => match event {
            SourceEvent::Item(item) => (BridgeState::Active, Pull::Item(item)),
            SourceEvent::Failed(cause) => (BridgeState::Errored, Pull::TransportError(cause)),
            SourceEvent::Closed => (BridgeState::Ended, Pull::EndOfStream),
            SourceEvent::TimedOut => (BridgeState::Ended, Pull::EndOfStream),
        },
        _ => (state, Pull::EndOfStream),
    }
}

/// The state of a bridge that started in `start` and has pulled once for
/// each of `events`, in order.
pub open spec fn state_after<T, E>(start: BridgeState, events: Seq<SourceEvent<T, E>>) -> BridgeState
    decreases events.len(),
{
    if events.len() == 0 {
        start
    } else {
        step(state_after(start, events.drop_last()), events.last()).0
    }
}

/// What pull number `i` (from zero) hands out, when the bridge starts in
/// `start` and pull `k` is given `events[k]`.
pub open spec fn outcome_at<T, E>(
    start: BridgeState,
    events: Seq<SourceEvent<T, E>>,
    i: int,
) -> Pull<T, E>
    recommends
        0 <= i < events.len(),
{
    step(state_after(start, events.take(i)), events[i]).1
}

/// The consumer's view of a pull as a fallible optional item.
pub open spec fn as_result<T, E>(pull: Pull<T, E>) -> Result<Option<T>, E> {
    match pull {
        Pull::Item(item) => Ok(Some(item)),
        Pull::EndOfStream => Ok(None),
        Pull::TransportError(cause) => Err(cause),
    }
}

impl<T, E> Pull<T, E> {
    /// Turns the pull into a `Result`: an item, the end as `None`, or the
    /// producer's failure.
    pub fn into_result(self) -> (result: Result<Option<T>, E>)
        ensures
            result == as_result(self),
    {
        match self {
            Pull::Item(item) => Ok(Some(item)),
            Pull::EndOfStream => Ok(None),
            Pull::TransportError(cause) => Err(cause),
        }
    }
}

/// The fuse between one producer and its consumer.
#[derive(Debug)]
pub struct StreamBridge {
    state: BridgeState,
}

impl View for StreamBridge {
    type V = BridgeState;

    closed spec fn view(&self) -> BridgeState {
        self.state
    }
}

impl StreamBridge {
    /// A bridge over a producer that has not been polled yet.
    pub fn new() -> (bridge: Self)
        ensures
            bridge@ == BridgeState::Active,
    {
        StreamBridge { state: BridgeState::Active }
    }

    /// The state the bridge is in.
    pub fn state(&self) -> (state: BridgeState)
        ensures
            state == self@,
    {
        self.state
    }

    /// Whether the bridge has stopped for good.
    pub fn is_terminated(&self) -> (done: bool)
        ensures
            done == self@.terminated(),
    {
        match self.state {
            BridgeState::Active => false,
            _ => true,
        }
    }

    /// Whether the next pull needs an event from the producer. Once this
    /// is `false` it stays `false`, and the producer must not be touched
    /// again: the pull returns the end of the stream by itself.
    pub fn wants_poll(&self) -> (poll: bool)
        ensures
            poll == (self@ is Active),
    {
        !self.is_terminated()
    }

    /// Completes one pull with what the producer came back with.
    pub fn pull<T, E>(&mut self, event: SourceEvent<T, E>) -> (out: Pull<T, E>)
        ensures
            final(self)@ == step(old(self)@, event).0,
            out == step(old(self)@, event).1,
    {
        match self.state {
            BridgeState::Active => match event {
                SourceEvent::Item(item) => Pull::Item(item),
                SourceEvent::Failed(cause) => {
                    self.state = BridgeState::Errored;
                    Pull::TransportError(cause)
                },
                SourceEvent::Closed => {
                    self.state = BridgeState::Ended;
                    Pull::EndOfStream
                },
                SourceEvent::TimedOut => {
                    self.state = BridgeState::Ended;
                    Pull::EndOfStream
                },
            },
            _ => Pull::EndOfStream,
        }
    }

    /// Stops an active bridge without an event from the producer, as when
    /// a deadline is found to have passed while nobody was pulling.
    pub fn close(&mut self)
        ensures
            final(self)@ == step::<(), ()>(old(self)@, SourceEvent::Closed).0,
    {
        match self.state {
            BridgeState::Active => {
                self.state = BridgeState::Ended;
            },
            _ => {},
        }
    }
}

/// Hands out structured updates, as JSON values, one pull at a time.
#[derive(Debug)]
pub struct StreamIterator {
    bridge: StreamBridge,
}

impl View for StreamIterator {
    type V = BridgeState;

    closed spec fn view(&self) -> BridgeState {
        self.bridge@
    }
}

impl StreamIterator {
    /// An iterator over a subscription that has not been polled yet.
    pub fn new() -> (iterator: Self)
        ensures
            iterator@ == BridgeState::Active,
    {
        StreamIterator { bridge: StreamBridge::new() }
    }

    /// Whether the next pull needs an event from the subscription.
    pub fn wants_poll(&self) -> (poll: bool)
        ensures
            poll == (self@ is Active),
    {
        self.bridge.wants_poll()
    }

    /// Completes one pull with what the subscription came back with: the
    /// update, `None` at the end, or the text of the failure.
    pub fn next(&mut self, event: SourceEvent<serde_json::Value, String>) -> (result: Result<
        Option<serde_json::Value>,
        String,
    >)
        ensures
            final(self)@ == step(old(self)@, event).0,
            result == as_result(step(old(self)@, event).1),
    {
        self.bridge.pull(event).into_result()
    }
}

/// Hands out raw messages, as text, one pull at a time.
#[derive(Debug)]
pub struct RawStreamIterator {
    bridge: StreamBridge,
}

impl View for RawStreamIterator {
    type V = BridgeState;

    closed spec fn view(&self) -> BridgeState {
        self.bridge@
    }
}

impl RawStreamIterator {
    /// An iterator over a subscription that has not been polled yet.
    pub fn new() -> (iterator: Self)
        ensures
            iterator@ == BridgeState::Active,
    {
        RawStreamIterator { bridge: StreamBridge::new() }
    }

    /// Whether the next pull needs an event from the subscription.
    pub fn wants_poll(&self) -> (poll: bool)
        ensures
            poll == (self@ is Active),
    {
        self.bridge.wants_poll()
    }

    /// Completes one pull with what the subscription came back with: the
    /// message, `None` at the end, or the text of the failure.
    pub fn next(&mut self, event: SourceEvent<String, String>) -> (result: Result<
        Option<String>,
        String,
    >)
        ensures
            final(self)@ == step(old(self)@, event).0,
            result == as_result(step(old(self)@, event).1),
    {
        self.bridge.pull(event).into_result()
    }
}

/// The fuse, one pull at a time: a pull that hands out anything but an
/// item leaves the bridge terminated, and the pull right after it reports
/// the end of the stream and leaves the state alone, whatever the
/// producer is made to deliver.
pub proof fn lemma_fuse_step<T, E>(
    state: BridgeState,
    event: SourceEvent<T, E>,
    later: SourceEvent<T, E>,
)
    requires
        !(step(state, event).1 is Item),
    ensures
        step(state, event).0.terminated(),
        step(step(state, event).0, later) == (step(state, event).0, Pull::<T, E>::EndOfStream),
{
}

/// A terminated bridge stays in its state whatever further events it is
/// given.
pub proof fn lemma_terminated_is_final<T, E>(start: BridgeState, events: Seq<SourceEvent<T, E>>)
    requires
        start.terminated(),
    ensures
        state_after(start, events) == start,
    decreases events.len(),
{
    if events.len() > 0 {
        lemma_terminated_is_final(start, events.drop_last());
    }
}

/// Pulling for `events.take(j)` is pulling for `events.take(i)` and then
/// for the events from `i` up to `j`.
pub proof fn lemma_state_after_split<T, E>(
    start: BridgeState,
    events: Seq<SourceEvent<T, E>>,
    i: int,
    j: int,
)
    requires
        0 <= i <= j <= events.len(),
    ensures
        state_after(start, events.take(j)) == state_after(
            state_after(start, events.take(i)),
            events.subrange(i, j),
        ),
    decreases j - i,
{
    if i == j {
        assert(events.subrange(i, j).len() == 0);
    } else {
        lemma_state_after_split(start, events, i, j - 1);
        assert(events.take(j).drop_last() =~= events.take(j - 1));
        assert(events.take(j).last() == events[j - 1]);
        assert(events.subrange(i, j).drop_last() =~= events.subrange(i, j - 1));
        assert(events.subrange(i, j).last() == events[j - 1]);
    }
}

/// Once a bridge has terminated it stays terminated, in the same state,
/// and every later pull reports the end of the stream.
pub proof fn lemma_fused<T, E>(
    start: BridgeState,
    events: Seq<SourceEvent<T, E>>,
    i: int,
    j: int,
)
    requires
        0 <= i <= j < events.len(),
        state_after(start, events.take(i)).terminated(),
    ensures
        state_after(start, events.take(j)) == state_after(start, events.take(i)),
        outcome_at(start, events, j) == Pull::<T, E>::EndOfStream,
{
    lemma_state_after_split(start, events, i, j);
    lemma_terminated_is_final(state_after(start, events.take(i)), events.subrange(i, j));
}

/// The state after pull `i` is one step from the state before it.
pub proof fn lemma_state_after_next<T, E>(
    start: BridgeState,
    events: Seq<SourceEvent<T, E>>,
    i: int,
)
    requires
        0 <= i < events.len(),
    ensures
        state_after(start, events.take(i + 1)) == step(
            state_after(start, events.take(i)),
            events[i],
        ).0,
{
    assert(events.take(i + 1).drop_last() =~= events.take(i));
    assert(events.take(i + 1).last() == events[i]);
}

/// Idempotent exhaustion: a bridge that has reported the end of the
/// stream once reports it on every later pull, whatever the producer is
/// made to deliver afterwards.
pub proof fn lemma_end_is_permanent<T, E>(
    start: BridgeState,
    events: Seq<SourceEvent<T, E>>,
    i: int,
    j: int,
)
    requires
        0 <= i < j < events.len(),
        outcome_at(start, events, i) == Pull::<T, E>::EndOfStream,
    ensures
        outcome_at(start, events, j) == Pull::<T, E>::EndOfStream,
{
    lemma_state_after_next(start, events, i);
    lemma_fused(start, events, i + 1, j);
}

/// A failure is handed out once: after the pull that reported it, every
/// later pull reports the end of the stream, not the failure again.
pub proof fn lemma_error_then_end<T, E>(
    start: BridgeState,
    events: Seq<SourceEvent<T, E>>,
    i: int,
    j: int,
)
    requires
        0 <= i < j < events.len(),
        outcome_at(start, events, i) is TransportError,
    ensures
        state_after(start, events.take(i + 1)) == BridgeState::Errored,
        outcome_at(start, events, j) == Pull::<T, E>::EndOfStream,
{
    lemma_state_after_next(start, events, i);
    lemma_fused(start, events, i + 1, j);
}

/// A bridge that is active after some pulls was active before each of
/// them and was given an item in each.
pub proof fn lemma_active_means_items_so_far<T, E>(
    start: BridgeState,
    events: Seq<SourceEvent<T, E>>,
    i: int,
)
    requires
        0 <= i <= events.len(),
        state_after(start, events.take(i)) is Active,
    ensures
        start is Active,
        forall|k: int| 0 <= k < i ==> (#[trigger] events[k]) is Item,
    decreases i,
{
    if i > 0 {
        lemma_state_after_next(start, events, i - 1);
        lemma_active_means_items_so_far(start, events, i - 1);
    } else {
        assert(events.take(0).len() == 0);
    }
}

/// A bridge that starts active and is given only items stays active.
pub proof fn lemma_items_keep_active<T, E>(events: Seq<SourceEvent<T, E>>, i: int)
    requires
        0 <= i <= events.len(),
        forall|k: int| 0 <= k < i ==> (#[trigger] events[k]) is Item,
    ensures
        state_after(BridgeState::Active, events.take(i)) is Active,
    decreases i,
{
    if i > 0 {
        lemma_items_keep_active(events, i - 1);
        lemma_state_after_next(BridgeState::Active, events, i - 1);
    } else {
        assert(events.take(0).len() == 0);
    }
}

/// Each production is delivered to exactly one pull: pull `i` hands out
/// an item exactly when the bridge started active, every earlier poll
/// produced an item, and poll `i` produced this very item. No pull hands
/// out an item that another poll produced.
pub proof fn lemma_item_delivered_once<T, E>(
    start: BridgeState,
    events: Seq<SourceEvent<T, E>>,
    i: int,
    item: T,
)
    requires
        0 <= i < events.len(),
    ensures
        outcome_at(start, events, i) == Pull::<T, E>::Item(item) <==> {
            &&& start is Active
            &&& forall|k: int| 0 <= k < i ==> (#[trigger] events[k]) is Item
            &&& events[i] == SourceEvent::<T, E>::Item(item)
        },
{
    if outcome_at(start, events, i) == Pull::<T, E>::Item(item) {
        lemma_active_means_items_so_far(start, events, i);
    }
    if start is Active && (forall|k: int| 0 <= k < i ==> (#[trigger] events[k]) is Item) {
        lemma_items_keep_active(events, i);
    }
}

/// At most one pull of a run reports a failure.
pub proof fn lemma_at_most_one_error<T, E>(
    start: BridgeState,
    events: Seq<SourceEvent<T, E>>,
    i: int,
    j: int,
)
    requires
        0 <= i < events.len(),
        0 <= j < events.len(),
        outcome_at(start, events, i) is TransportError,
        outcome_at(start, events, j) is TransportError,
    ensures
        i == j,
{
    if i < j {
        lemma_error_then_end(start, events, i, j);
    } else if j < i {
        lemma_error_then_end(start, events, j, i);
    }
}

} // verus!
