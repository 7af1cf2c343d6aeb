//! The broadcast hub: one place to publish, many subscribers, no backlog.

use crate::routes::sse::SseEvent;
use std::collections::VecDeque;
use vstd::prelude::*;

verus! {

/// What a hub holds, as plain mathematics: for each place a subscriber can
/// take, the events that wait for that subscriber, oldest first, or nothing
/// where no subscriber has the place.
pub struct HubState {
    /// How many events can wait for one subscriber.
    pub capacity: nat,
    pub subscribers: Seq<Option<Seq<SseEvent>>>,
}

/// The newest `n` items of `s`, or all of `s` if it holds fewer.
pub open spec fn keep_newest(s: Seq<SseEvent>, n: nat) -> Seq<SseEvent> {
    if s.len() <= n {
        s
    } else {
        s.skip(s.len() - n)
    }
}

/// How many places of `s` a subscriber has.
pub open spec fn count_live(s: Seq<Option<Seq<SseEvent>>>) -> nat
    decreases s.len(),
{
    if s.len() == 0 {
        0
    } else {
        count_live(s.drop_last()) + if s.last() is Some {
            1nat
        } else {
            0nat
        }
    }
}

impl HubState {
    /// Whether a subscriber has place `id`.
    pub open spec fn is_live(self, id: int) -> bool {
        0 <= id < self.subscribers.len() && self.subscribers[id] is Some
    }

    /// The events that wait for the subscriber at place `id`, oldest first.
    pub open spec fn pending(self, id: int) -> Seq<SseEvent> {
        if self.is_live(id) {
            self.subscribers[id]->0
        } else {
            Seq::empty()
        }
    }

    /// The first place that no subscriber has; the number of places if every
    /// place is taken.
    pub open spec fn first_vacant(self) -> int {
        if exists|i: int| 0 <= i < self.subscribers.len() && self.subscribers[i] is None {
            choose|i: int|
                0 <= i < self.subscribers.len() && self.subscribers[i] is None && forall|j: int|
                    0 <= j < i ==> self.subscribers[j] is Some
        } else {
            self.subscribers.len() as int
        }
    }

    /// The hub after a new subscriber has taken the first vacant place. Nothing
    /// waits for the new subscriber, and nothing changes for the others.
    pub open spec fn after_subscribe(self) -> HubState {
        let id = self.first_vacant();
        HubState {
            capacity: self.capacity,
            subscribers: if id < self.subscribers.len() {
                self.subscribers.update(id, Some(Seq::empty()))
            } else {
                self.subscribers.push(Some(Seq::empty()))
            },
        }
    }

    /// The hub after the subscriber at place `id` has left.
    pub open spec fn after_unsubscribe(self, id: int) -> HubState {
        if self.is_live(id) {
            HubState { capacity: self.capacity, subscribers: self.subscribers.update(id, None) }
        } else {
            self
        }
    }

    /// The hub after `event` has been published: it waits, as the newest
    /// event, for every subscriber there is; a subscriber for whom `capacity`
    /// events waited already loses the oldest of them.
    pub open spec fn after_publish(self, event: SseEvent) -> HubState {
        HubState {
            capacity: self.capacity,
            subscribers: Seq::new(
                self.subscribers.len(),
                |i: int|
                    match self.subscribers[i] {
                        Some(q) => Some(keep_newest(q.push(event), self.capacity)),
                        None => None,
                    },
            ),
        }
    }

    /// The event that the subscriber at place `id` receives next, if one
    /// waits.
    pub open spec fn next_event(self, id: int) -> Option<SseEvent> {
        if self.pending(id).len() > 0 {
            Some(self.pending(id)[0])
        } else {
            None
        }
    }

    /// The hub after the subscriber at place `id` has received its next
    /// event.
    pub open spec fn after_receive(self, id: int) -> HubState {
        if self.pending(id).len() > 0 {
            HubState {
                capacity: self.capacity,
                subscribers: self.subscribers.update(id, Some(self.pending(id).drop_first())),
            }
        } else {
            self
        }
    }

    /// No more than `capacity` events wait for any subscriber, and `capacity`
    /// is at least one.
    pub open spec fn wf(self) -> bool {
        &&& self.capacity >= 1
        &&& forall|i: int|
            0 <= i < self.subscribers.len() ==> (#[trigger] self.subscribers[i] matches Some(q)
                ==> q.len() <= self.capacity)
    }
}

/// A broadcast hub. Each subscriber has a bounded queue of its own; an event
/// that is published is put into every queue there is at that moment.
pub struct Hub {
    capacity: usize,
    subscribers: Vec<Option<VecDeque<SseEvent>>>,
}

/// The queues of a hub as sequences.
pub closed spec fn queues(v: Seq<Option<VecDeque<SseEvent>>>) -> Seq<Option<Seq<SseEvent>>> {
    Seq::new(
        v.len(),
        |i: int|
            match v[i] {
                Some(q) => Some(q@),
                None => None,
            },
    )
}

impl View for Hub {
    type V = HubState;

    closed spec fn view(&self) -> HubState {
        HubState { capacity: self.capacity as nat, subscribers: queues(self.subscribers@) }
    }
}

/// Puts `event` into one queue, dropping the oldest event of a full queue.
fn deliver(queue: &mut VecDeque<SseEvent>, event: SseEvent, capacity: usize)
    requires
        capacity >= 1,
        old(queue)@.len() <= capacity,
    ensures
        final(queue)@ == keep_newest(old(queue)@.push(event), capacity as nat),
        final(queue)@.len() <= capacity,
{
    if queue.len() >= capacity {
        let _ = queue.pop_front();
        queue.push_back(event);
        assert(queue@ =~= keep_newest(old(queue)@.push(event), capacity as nat));
    } else {
        queue.push_back(event);
    }
}

impl Hub {
    #[verifier::type_invariant]
    spec fn inv(self) -> bool {
        self@.wf()
    }

    /// A hub without subscribers, in which at most `capacity` events wait for
    /// one subscriber.
    pub fn new(capacity: usize) -> (hub: Self)
        requires
            capacity >= 1,
        ensures
            hub@.capacity == capacity,
            hub@.subscribers == Seq::<Option<Seq<SseEvent>>>::empty(),
            hub@.wf(),
    {
        let subscribers: Vec<Option<VecDeque<SseEvent>>> = Vec::new();
        assert(queues(subscribers@) =~= Seq::<Option<Seq<SseEvent>>>::empty());
        Hub { capacity, subscribers }
    }

    /// How many events can wait for one subscriber.
    pub fn capacity(&self) -> (capacity: usize)
        ensures
            capacity == self@.capacity,
            capacity >= 1,
            self@.wf(),
    {
        proof {
            use_type_invariant(self);
        }
        self.capacity
    }

    /// Puts `event` into the queue of every subscriber and returns how many
    /// there are. Without subscribers the event is dropped.
    pub fn publish(&mut self, event: SseEvent) -> (receivers: usize)
        ensures
            final(self)@ == old(self)@.after_publish(event),
            receivers == count_live(old(self)@.subscribers),
            old(self)@.wf(),
            final(self)@.wf(),
    {
        proof {
            use_type_invariant(&*self);
        }
        let capacity = self.capacity;
        let mut subs: Vec<Option<VecDeque<SseEvent>>> = Vec::new();
        assert(queues(subs@) =~= Seq::<Option<Seq<SseEvent>>>::empty());
        core::mem::swap(&mut self.subscribers, &mut subs);
        let ghost before = queues(subs@);
        let ghost target = old(self)@.after_publish(event).subscribers;
        assert(before == old(self)@.subscribers);
        let n = subs.len();
        let mut receivers: usize = 0;
        let mut i: usize = 0;
        while i < n
            invariant
                i <= n,
                n == subs@.len(),
                n == before.len(),
                capacity >= 1,
                receivers == count_live(before.take(i as int)),
                receivers <= i,
                target == Seq::new(
                    before.len(),
                    |k: int|
                        match before[k] {
                            Some(q) => Some(keep_newest(q.push(event), capacity as nat)),
                            None => None,
                        },
                ),
                forall|j: int| 0 <= j < i ==> #[trigger] queues(subs@)[j] == target[j],
                forall|j: int| i <= j < n ==> #[trigger] queues(subs@)[j] == before[j],
                forall|j: int|
                    0 <= j < n ==> (#[trigger] queues(subs@)[j] matches Some(q) ==> q.len()
                        <= capacity),
            decreases n - i,
        {
            let ghost prev = subs@;
            assert(queues(prev)[i as int] == before[i as int]);
            match &mut subs[i] {
                Some(queue) => {
                    deliver(queue, event, capacity);
                    receivers = receivers + 1;
                },
                None => {},
            }
            proof {
                assert(before.take(i as int + 1).drop_last() =~= before.take(i as int));
                assert(subs@.len() == prev.len());
                assert forall|j: int| 0 <= j < n && j != i implies queues(subs@)[j] == queues(
                    prev,
                )[j] by {
                    assert(subs@[j] == prev[j]);
                }
                assert(queues(subs@)[i as int] == target[i as int]);
                assert forall|j: int| 0 <= j < i + 1 implies #[trigger] queues(subs@)[j]
                    == target[j] by {
                    if j < i {
                        assert(queues(prev)[j] == target[j]);
                    }
                }
                assert forall|j: int| i + 1 <= j < n implies #[trigger] queues(subs@)[j]
                    == before[j] by {
                    assert(queues(prev)[j] == before[j]);
                }
                assert forall|j: int| 0 <= j < n implies (#[trigger] queues(subs@)[j] matches Some(
                    q,
                ) ==> q.len() <= capacity) by {
                    if j != i {
                        assert(queues(prev)[j] matches Some(q) ==> q.len() <= capacity);
                    }
                }
            }
            i = i + 1;
        }
        proof {
            assert(before.take(n as int) =~= before);
            assert(queues(subs@) =~= target);
        }
        core::mem::swap(&mut self.subscribers, &mut subs);
        receivers
    }

    /// Takes the first vacant place for a new subscriber and returns it.
    /// Nothing waits for the new subscriber: it sees only what is published
    /// from now on.
    pub fn subscribe(&mut self) -> (id: usize)
        ensures
            id == old(self)@.first_vacant(),
            final(self)@ == old(self)@.after_subscribe(),
            final(self)@.is_live(id as int),
            final(self)@.pending(id as int) == Seq::<SseEvent>::empty(),
            !old(self)@.is_live(id as int),
            old(self)@.wf(),
            final(self)@.wf(),
    {
        proof {
            use_type_invariant(&*self);
        }
        let mut subs: Vec<Option<VecDeque<SseEvent>>> = Vec::new();
        assert(queues(subs@) =~= Seq::<Option<Seq<SseEvent>>>::empty());
        core::mem::swap(&mut self.subscribers, &mut subs);
        let ghost before = queues(subs@);
        let n = subs.len();
        let mut i: usize = 0;
        while i < n && subs[i].is_some()
            invariant
                i <= n,
                n == subs@.len(),
                before == queues(subs@),
                forall|j: int| 0 <= j < i ==> (#[trigger] before[j]) is Some,
            decreases n - i,
        {
            assert(before[i as int] is Some);
            i = i + 1;
        }
        proof {
            let st = old(self)@;
            if i < n {
                assert(before[i as int] is None);
                let c = st.first_vacant();
                assert(0 <= c < st.subscribers.len() && st.subscribers[c] is None && forall|j: int|
                    0 <= j < c ==> st.subscribers[j] is Some);
                if c < i {
                    assert(before[c] is Some);
                }
                if i < c {
                    assert(st.subscribers[i as int] is Some);
                }
                assert(c == i);
            } else {
                assert(st.first_vacant() == n);
            }
        }
        let fresh: VecDeque<SseEvent> = VecDeque::new();
        if i < n {
            subs.set(i, Some(fresh));
            assert(queues(subs@) =~= before.update(i as int, Some(Seq::<SseEvent>::empty())));
        } else {
            subs.push(Some(fresh));
            assert(queues(subs@) =~= before.push(Some(Seq::<SseEvent>::empty())));
        }
        proof {
            assert forall|j: int| 0 <= j < queues(subs@).len() implies (#[trigger] queues(
                subs@,
            )[j] matches Some(q) ==> q.len() <= self.capacity) by {
                if j != i {
                    assert(before[j] matches Some(q) ==> q.len() <= self.capacity);
                }
            }
        }
        core::mem::swap(&mut self.subscribers, &mut subs);
        i
    }

    /// Gives up place `id`: what waited for its subscriber is dropped. Where
    /// no subscriber has the place, nothing changes.
    pub fn unsubscribe(&mut self, id: usize)
        ensures
            final(self)@ == old(self)@.after_unsubscribe(id as int),
            final(self)@.wf(),
    {
        proof {
            use_type_invariant(&*self);
        }
        let mut subs: Vec<Option<VecDeque<SseEvent>>> = Vec::new();
        assert(queues(subs@) =~= Seq::<Option<Seq<SseEvent>>>::empty());
        core::mem::swap(&mut self.subscribers, &mut subs);
        let ghost before = queues(subs@);
        if id < subs.len() {
            assert(before[id as int] is Some <==> subs@[id as int] is Some);
            if subs[id].is_some() {
                subs.set(id, None);
                assert(queues(subs@) =~= before.update(id as int, None));
                assert forall|j: int| 0 <= j < queues(subs@).len() implies (#[trigger] queues(
                    subs@,
                )[j] matches Some(q) ==> q.len() <= self.capacity) by {
                    if j != id {
                        assert(before[j] matches Some(q) ==> q.len() <= self.capacity);
                    }
                }
            }
        }
        core::mem::swap(&mut self.subscribers, &mut subs);
    }

    /// Hands the subscriber at place `id` the oldest event that waits for it,
    /// if one waits. It never blocks.
    pub fn receive(&mut self, id: usize) -> (event: Option<SseEvent>)
        ensures
            event == old(self)@.next_event(id as int),
            final(self)@ == old(self)@.after_receive(id as int),
            final(self)@.wf(),
    {
        proof {
            use_type_invariant(&*self);
        }
        let mut subs: Vec<Option<VecDeque<SseEvent>>> = Vec::new();
        assert(queues(subs@) =~= Seq::<Option<Seq<SseEvent>>>::empty());
        core::mem::swap(&mut self.subscribers, &mut subs);
        let ghost before = queues(subs@);
        let ghost prev = subs@;
        let mut event: Option<SseEvent> = None;
        if id < subs.len() {
            assert(before[id as int] == match prev[id as int] {
                Some(q) => Some(q@),
                None => None,
            });
            match &mut subs[id] {
                Some(queue) => {
                    event = queue.pop_front();
                },
                None => {},
            }
            proof {
                assert(subs@.len() == prev.len());
                assert forall|j: int| 0 <= j < subs@.len() && j != id implies queues(subs@)[j]
                    == before[j] by {
                    assert(subs@[j] == prev[j]);
                }
                if event is Some {
                    assert(queues(subs@) =~= before.update(
                        id as int,
                        Some(old(self)@.pending(id as int).drop_first()),
                    ));
                } else {
                    assert(queues(subs@) =~= before);
                }
                assert forall|j: int| 0 <= j < queues(subs@).len() implies (#[trigger] queues(
                    subs@,
                )[j] matches Some(q) ==> q.len() <= self.capacity) by {
                    assert(before[j] matches Some(q) ==> q.len() <= self.capacity);
                }
            }
        }
        core::mem::swap(&mut self.subscribers, &mut subs);
        event
    }

    /// How many events wait for the subscriber at place `id`; none where no
    /// subscriber has the place.
    pub fn pending_len(&self, id: usize) -> (n: usize)
        ensures
            n == self@.pending(id as int).len(),
    {
        if id < self.subscribers.len() {
            assert(queues(self.subscribers@)[id as int] == match self.subscribers@[id as int] {
                Some(q) => Some(q@),
                None => None,
            });
            match &self.subscribers[id] {
                Some(queue) => queue.len(),
                None => 0,
            }
        } else {
            0
        }
    }
}

/// A subscriber that was there before an event was published receives it:
/// the event is the newest that waits for it, and the first that it receives
/// if nothing waited before.
pub proof fn earlier_subscriber_receives(hub: HubState, id: int, event: SseEvent)
    requires
        hub.wf(),
        hub.is_live(id),
    ensures
        hub.after_publish(event).is_live(id),
        hub.after_publish(event).pending(id).len() > 0,
        hub.after_publish(event).pending(id).last() == event,
        hub.pending(id).len() == 0 ==> hub.after_publish(event).next_event(id) == Some(event),
{
    let q = hub.pending(id);
    let kept = keep_newest(q.push(event), hub.capacity);
    assert(hub.after_publish(event).subscribers[id] == Some(kept));
}

/// A subscriber that comes after an event was published does not receive
/// it: nothing waits for a new subscriber.
pub proof fn later_subscriber_misses(hub: HubState, event: SseEvent)
    requires
        hub.wf(),
    ensures
        ({
            let published = hub.after_publish(event);
            let id = published.first_vacant();
            &&& published.after_subscribe().is_live(id)
            &&& published.after_subscribe().pending(id) == Seq::<SseEvent>::empty()
            &&& published.after_subscribe().next_event(id) is None
        }),
{
    let published = hub.after_publish(event);
    lemma_first_vacant(published);
}

/// The first vacant place is within the places or just behind them, no
/// subscriber has it, and every earlier place is taken.
pub proof fn lemma_first_vacant(hub: HubState)
    ensures
        0 <= hub.first_vacant() <= hub.subscribers.len(),
        !hub.is_live(hub.first_vacant()),
        forall|j: int| 0 <= j < hub.first_vacant() ==> (#[trigger] hub.subscribers[j]) is Some,
{
    if exists|i: int| 0 <= i < hub.subscribers.len() && hub.subscribers[i] is None {
        lemma_least_vacant(hub.subscribers, hub.subscribers.len() as int);
    }
}

proof fn lemma_least_vacant(s: Seq<Option<Seq<SseEvent>>>, n: int)
    requires
        0 <= n <= s.len(),
        exists|i: int| 0 <= i < n && s[i] is None,
    ensures
        exists|i: int| 0 <= i < n && s[i] is None && forall|j: int| 0 <= j < i ==> s[j] is Some,
    decreases n,
{
    if exists|i: int| 0 <= i < n - 1 && s[i] is None {
        lemma_least_vacant(s, n - 1);
        let w = choose|i: int| 0 <= i < n - 1 && s[i] is None && forall|j: int| 0 <= j < i ==> s[j] is Some;
        assert(0 <= w < n && s[w] is None && forall|j: int| 0 <= j < w ==> s[j] is Some);
    } else {
        let w = n - 1;
        assert(s[w] is None);
        assert(0 <= w < n && s[w] is None && forall|j: int| 0 <= j < w ==> s[j] is Some);
    }
}

/// Publishing changes nothing but the queues of the subscribers there are:
/// no place is taken or given up by it, and without subscribers the hub
/// stays as it is.
pub proof fn publish_keeps_places(hub: HubState, event: SseEvent)
    ensures
        hub.after_publish(event).subscribers.len() == hub.subscribers.len(),
        forall|i: int| hub.after_publish(event).is_live(i) == hub.is_live(i),
        count_live(hub.subscribers) == 0 ==> hub.after_publish(event) == hub,
{
    if count_live(hub.subscribers) == 0 {
        lemma_none_live(hub.subscribers);
        assert(hub.after_publish(event).subscribers =~= hub.subscribers);
    }
}

proof fn lemma_none_live(s: Seq<Option<Seq<SseEvent>>>)
    requires
        count_live(s) == 0,
    ensures
        forall|i: int| 0 <= i < s.len() ==> (#[trigger] s[i]) is None,
    decreases s.len(),
{
    if s.len() > 0 {
        lemma_none_live(s.drop_last());
        assert forall|i: int| 0 <= i < s.len() implies (#[trigger] s[i]) is None by {
            if i < s.len() - 1 {
                assert(s.drop_last()[i] is None);
            }
        }
    }
}

/// Events reach each subscriber in the order in which they were published,
/// and of those that do not fit the oldest are lost: after two events, the
/// second is the newest that waits, and the first waits right before it
/// wherever two events fit.
pub proof fn events_keep_their_order(hub: HubState, id: int, first: SseEvent, second: SseEvent)
    requires
        hub.wf(),
        hub.is_live(id),
    ensures
        ({
            let after = hub.after_publish(first).after_publish(second).pending(id);
            &&& after.len() >= 1
            &&& after.len() <= hub.capacity
            &&& after.last() == second
            &&& hub.capacity >= 2 ==> after.len() >= 2 && after[after.len() - 2] == first
        }),
{
    let q0 = hub.pending(id);
    let h1 = hub.after_publish(first);
    let q1 = keep_newest(q0.push(first), hub.capacity);
    assert(h1.subscribers[id] == Some(q1));
    assert(h1.pending(id) == q1);
    let h2 = h1.after_publish(second);
    let q2 = keep_newest(q1.push(second), hub.capacity);
    assert(h2.subscribers[id] == Some(q2));
}

impl HubState {
    /// The hub after each of `events` has been published, one after the
    /// other.
    pub open spec fn after_publish_all(self, events: Seq<SseEvent>) -> HubState
        decreases events.len(),
    {
        if events.len() == 0 {
            self
        } else {
            self.after_publish_all(events.drop_last()).after_publish(events.last())
        }
    }
}

/// However many events are published while a subscriber does not receive,
/// what waits for it in the end are the newest of what waited and what was
/// published, as many as fit, in the order in which they were published:
/// only the oldest are lost.
pub proof fn slow_subscriber_keeps_the_newest(hub: HubState, id: int, events: Seq<SseEvent>)
    requires
        hub.wf(),
        hub.is_live(id),
    ensures
        hub.after_publish_all(events).is_live(id),
        hub.after_publish_all(events).pending(id) == keep_newest(
            hub.pending(id) + events,
            hub.capacity,
        ),
        hub.after_publish_all(events).capacity == hub.capacity,
        hub.after_publish_all(events).wf(),
    decreases events.len(),
{
    if events.len() == 0 {
        assert(hub.pending(id) + events =~= hub.pending(id));
    } else {
        let front = events.drop_last();
        let before = hub.after_publish_all(front);
        slow_subscriber_keeps_the_newest(hub, id, front);
        let all = hub.pending(id) + front;
        let kept = keep_newest(all, hub.capacity);
        assert(before.pending(id) == kept);
        let after = before.after_publish(events.last());
        assert(after.subscribers[id] == Some(keep_newest(kept.push(events.last()), hub.capacity)));
        assert(all.push(events.last()) =~= hub.pending(id) + events);
        assert(keep_newest(kept.push(events.last()), hub.capacity) =~= keep_newest(
            all.push(events.last()),
            hub.capacity,
        ));
        assert forall|i: int| 0 <= i < after.subscribers.len() implies (
        #[trigger] after.subscribers[i] matches Some(q) ==> q.len() <= after.capacity) by {
            if before.subscribers[i] is Some {
                assert(before.subscribers[i]->0.len() <= before.capacity);
            }
        }
    }
}

} // verus!
