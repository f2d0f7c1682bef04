//! The hardware's timed events and the queue that orders them by the
//! cycle they are due.
use vstd::prelude::*;
use std::hash::Hash;
use priority_queue::PriorityQueue;
use crate::spu::ChannelSpec;

verus! {

/// A timed event: a DMA transfer of a processor's channel, the display's
/// line and blanking phases, a timer overflow, the cartridge's word and
/// block transfers, and the sound unit's sample and channel steps.
#[derive(Clone, Copy, PartialEq, Eq, Structural, Debug)]
pub enum Event {
    DMA(bool, usize),
    StartNextLine,
    HBlank,
    VBlank,
    TimerOverflow(bool, usize),
    ROMWordTransfered,
    ROMBlockEnded(bool),
    GenerateAudioSample,
    StepAudioChannel(ChannelSpec),
    ResetAudioChannel(ChannelSpec),
}

/// The key an event is queued under: its kind, a flag or channel kind, and
/// an index.
pub type EventKey = (u8, u8, u64);

/// A channel's kind and index.
pub open spec fn channel_key(c: ChannelSpec) -> (u8, u64) {
    match c {
        ChannelSpec::Base(i) => (0, i as u64),
        ChannelSpec::PSG(i) => (1, i as u64),
        ChannelSpec::Noise(i) => (2, i as u64),
    }
}

/// The key of event `e`.
pub open spec fn event_key(e: Event) -> EventKey {
    match e {
        Event::DMA(b, n) => (0, if b { 1 } else { 0 }, n as u64),
        Event::StartNextLine => (1, 0, 0),
        Event::HBlank => (2, 0, 0),
        Event::VBlank => (3, 0, 0),
        Event::TimerOverflow(b, n) => (4, if b { 1 } else { 0 }, n as u64),
        Event::ROMWordTransfered => (5, 0, 0),
        Event::ROMBlockEnded(b) => (6, if b { 1 } else { 0 }, 0),
        Event::GenerateAudioSample => (7, 0, 0),
        Event::StepAudioChannel(c) => (8, channel_key(c).0, channel_key(c).1),
        Event::ResetAudioChannel(c) => (9, channel_key(c).0, channel_key(c).1),
    }
}

/// Whether `k` is the key of some event.
pub open spec fn key_ok(k: EventKey) -> bool {
    &&& k.0 <= 9
    &&& k.2 <= usize::MAX
    &&& (k.0 == 0 || k.0 == 4 || k.0 == 6) ==> k.1 <= 1
    &&& (k.0 == 8 || k.0 == 9) ==> k.1 <= 2
    &&& (k.0 == 1 || k.0 == 2 || k.0 == 3 || k.0 == 5 || k.0 == 7) ==> k.1 == 0
    &&& (k.0 != 0 && k.0 != 4 && k.0 != 8 && k.0 != 9) ==> k.2 == 0
}

/// Distinct events have distinct keys, and every key names an event.
pub proof fn lemma_event_key(e1: Event, e2: Event)
    ensures
        key_ok(event_key(e1)),
        event_key(e1) == event_key(e2) ==> e1 == e2,
{
}

fn key_of(e: Event) -> (k: EventKey)
    ensures
        k == event_key(e),
{
    match e {
        Event::DMA(b, n) => (0, if b { 1 } else { 0 }, n as u64),
        Event::StartNextLine => (1, 0, 0),
        Event::HBlank => (2, 0, 0),
        Event::VBlank => (3, 0, 0),
        Event::TimerOverflow(b, n) => (4, if b { 1 } else { 0 }, n as u64),
        Event::ROMWordTransfered => (5, 0, 0),
        Event::ROMBlockEnded(b) => (6, if b { 1 } else { 0 }, 0),
        Event::GenerateAudioSample => (7, 0, 0),
        Event::StepAudioChannel(c) => {
            let (t, i) = channel_key_of(c);
            (8, t, i)
        },
        Event::ResetAudioChannel(c) => {
            let (t, i) = channel_key_of(c);
            (9, t, i)
        },
    }
}

fn channel_key_of(c: ChannelSpec) -> (r: (u8, u64))
    ensures
        r == channel_key(c),
{
    match c {
        ChannelSpec::Base(i) => (0, i as u64),
        ChannelSpec::PSG(i) => (1, i as u64),
        ChannelSpec::Noise(i) => (2, i as u64),
    }
}

/// The event whose key is `k`.
fn event_of(k: EventKey) -> (e: Event)
    requires
        key_ok(k),
    ensures
        event_key(e) == k,
{
    let n = k.2 as usize;
    if k.0 == 0 {
        Event::DMA(k.1 == 1, n)
    } else if k.0 == 1 {
        Event::StartNextLine
    } else if k.0 == 2 {
        Event::HBlank
    } else if k.0 == 3 {
        Event::VBlank
    } else if k.0 == 4 {
        Event::TimerOverflow(k.1 == 1, n)
    } else if k.0 == 5 {
        Event::ROMWordTransfered
    } else if k.0 == 6 {
        Event::ROMBlockEnded(k.1 == 1)
    } else if k.0 == 7 {
        Event::GenerateAudioSample
    } else {
        let c = if k.1 == 0 {
            ChannelSpec::Base(n)
        } else if k.1 == 1 {
            ChannelSpec::PSG(n)
        } else {
            ChannelSpec::Noise(n)
        };
        if k.0 == 8 {
            Event::StepAudioChannel(c)
        } else {
            Event::ResetAudioChannel(c)
        }
    }
}

#[verifier::external_type_specification]
#[verifier::external_body]
#[verifier::reject_recursive_types(I)]
#[verifier::reject_recursive_types(P)]
#[verifier::reject_recursive_types(H)]
pub struct ExPriorityQueue<I: Hash + Eq, P: Ord, H>(PriorityQueue<I, P, H>);

/// What a queue holds: each item with its priority.
pub uninterp spec fn queue_contents(q: PriorityQueue<EventKey, u64>) -> Map<EventKey, u64>;

/// The empty contents.
pub open spec fn no_events() -> Map<EventKey, u64> {
    Map::empty()
}

/// `PriorityQueue::new`: an empty queue.
#[verifier::external_body]
fn queue_new() -> (r: PriorityQueue<EventKey, u64>)
    ensures
        queue_contents(r) == no_events(),
{
    PriorityQueue::new()
}

/// `PriorityQueue::push`: the item takes the priority, replacing the one
/// it had, which is returned.
#[verifier::external_body]
fn queue_push(q: &mut PriorityQueue<EventKey, u64>, item: EventKey, priority: u64) -> (r: Option<u64>)
    ensures
        queue_contents(*final(q)) == queue_contents(*old(q)).insert(item, priority),
        r == (if queue_contents(*old(q)).contains_key(item) {
            Some(queue_contents(*old(q))[item])
        } else {
            None
        }),
{
    q.push(item, priority)
}

/// Whether `p` is the greatest priority in `m`, held by `item`.
pub open spec fn is_top(m: Map<EventKey, u64>, item: EventKey, p: u64) -> bool {
    &&& m.contains_key(item)
    &&& m[item] == p
    &&& forall|k: EventKey| #[trigger] m.contains_key(k) ==> m[k] <= p
}

/// `PriorityQueue::peek`: an item of the greatest priority, with it; of
/// items of equal priority the source leaves open which.
#[verifier::external_body]
fn queue_peek(q: &PriorityQueue<EventKey, u64>) -> (r: Option<(EventKey, u64)>)
    ensures
        (r is None) == (queue_contents(*q).dom().finite() && queue_contents(*q).dom().len() == 0),
        r matches Some(t) ==> is_top(queue_contents(*q), t.0, t.1),
{
    q.peek().map(|(i, p)| (*i, *p))
}

/// `PriorityQueue::pop`: takes out an item of the greatest priority.
#[verifier::external_body]
fn queue_pop(q: &mut PriorityQueue<EventKey, u64>) -> (r: Option<(EventKey, u64)>)
    ensures
        (r is None) == (queue_contents(*old(q)).dom().finite() && queue_contents(*old(q)).dom().len() == 0),
        r is None ==> queue_contents(*final(q)) == queue_contents(*old(q)),
        r matches Some(t) ==> is_top(queue_contents(*old(q)), t.0, t.1) && queue_contents(*final(q))
            == queue_contents(*old(q)).remove(t.0),
{
    q.pop()
}

/// `PriorityQueue::remove`: takes out the item, returning it with its
/// priority if it was there.
#[verifier::external_body]
fn queue_remove(q: &mut PriorityQueue<EventKey, u64>, item: &EventKey) -> (r: Option<(EventKey, u64)>)
    ensures
        queue_contents(*final(q)) == queue_contents(*old(q)).remove(*item),
        r == (if queue_contents(*old(q)).contains_key(*item) {
            Some((*item, queue_contents(*old(q))[*item]))
        } else {
            None
        }),
{
    q.remove(item)
}

/// The priority of an event due at `due`: the earlier, the greater.
pub open spec fn priority_of(due: int) -> u64 {
    (u64::MAX - due) as u64
}

/// An event due earlier has the greater priority, so the queue's top is
/// the event due first, and an event is due by cycle `c` exactly when its
/// priority reaches that of `c`.
pub proof fn lemma_earlier_is_higher(a: int, b: int)
    requires
        0 <= a <= u64::MAX,
        0 <= b <= u64::MAX,
    ensures
        (priority_of(a) >= priority_of(b)) <==> (a <= b),
        priority_of(a) == u64::MAX - a,
{
}

/// The events waiting, each with the cycle it is due, and the current
/// cycle.
pub struct Scheduler {
    pub cycle: usize,
    pub event_queue: PriorityQueue<EventKey, u64>,
}

impl Scheduler {
    /// The queued keys with their priorities.
    pub open spec fn pending(&self) -> Map<EventKey, u64> {
        queue_contents(self.event_queue)
    }

    /// Every queued key is an event's.
    pub open spec fn wf(&self) -> bool {
        forall|k: EventKey| #[trigger] self.pending().contains_key(k) ==> key_ok(k)
    }

    /// No event waits, and the cycle count starts at 0.
    pub fn new() -> (s: Scheduler)
        ensures
            s.wf(),
            s.cycle == 0,
            s.pending() == Map::<EventKey, u64>::empty(),
    {
        Scheduler { cycle: 0, event_queue: queue_new() }
    }

    /// Advances the cycle count.
    pub fn advance(&mut self, cycles: usize)
        requires
            old(self).cycle + cycles <= usize::MAX,
        ensures
            final(self).cycle == old(self).cycle + cycles,
            final(self).pending() == old(self).pending(),
    {
        self.cycle = self.cycle + cycles;
    }

    /// Queues `event` to be due `delay` cycles from now; an event already
    /// queued is moved to the new time.
    pub fn schedule(&mut self, event: Event, delay: usize)
        requires
            old(self).wf(),
            old(self).cycle + delay <= usize::MAX,
        ensures
            final(self).wf(),
            final(self).cycle == old(self).cycle,
            final(self).pending() == old(self).pending().insert(
                event_key(event),
                priority_of(old(self).cycle + delay),
            ),
    {
        proof {
            lemma_event_key(event, event);
        }
        let due = self.cycle + delay;
        let priority: u64 = u64::MAX - due as u64;
        queue_push(&mut self.event_queue, key_of(event), priority);
        assert forall|k: EventKey| #[trigger] self.pending().contains_key(k) implies key_ok(k) by {
            if k != event_key(event) {
                assert(old(self).pending().contains_key(k));
            }
        }
    }

    /// Queues `event` to be due now.
    pub fn run_now(&mut self, event: Event)
        requires
            old(self).wf(),
        ensures
            final(self).wf(),
            final(self).cycle == old(self).cycle,
            final(self).pending() == old(self).pending().insert(
                event_key(event),
                priority_of(old(self).cycle as int),
            ),
    {
        self.schedule(event, 0);
    }

    /// Takes `event` out of the queue if it is there.
    pub fn remove(&mut self, event: Event)
        requires
            old(self).wf(),
        ensures
            final(self).wf(),
            final(self).cycle == old(self).cycle,
            final(self).pending() == old(self).pending().remove(event_key(event)),
    {
        let key = key_of(event);
        queue_remove(&mut self.event_queue, &key);
        assert forall|k: EventKey| #[trigger] self.pending().contains_key(k) implies key_ok(k) by {
            assert(old(self).pending().contains_key(k));
        }
    }

    /// The next event if it is due: the queued event due earliest (of
    /// those due at the same cycle, any one), taken out of the queue when
    /// it is due by the current cycle; otherwise nothing happens.
    pub fn get_next_event(&mut self) -> (r: Option<Event>)
        requires
            old(self).wf(),
            old(self).pending().dom().finite(),
            old(self).pending().dom().len() > 0,
        ensures
            final(self).wf(),
            final(self).cycle == old(self).cycle,
            r matches Some(e) ==> {
                let k = event_key(e);
                &&& is_top(old(self).pending(), k, old(self).pending()[k])
                &&& old(self).pending()[k] >= priority_of(old(self).cycle as int)
                &&& final(self).pending() == old(self).pending().remove(k)
            },
            r is None ==> final(self).pending() == old(self).pending() && (forall|k: EventKey|
                #[trigger] old(self).pending().contains_key(k) ==> old(self).pending()[k]
                    < priority_of(old(self).cycle as int)),
    {
        let top = queue_peek(&self.event_queue);
        match top {
            Some((_key, priority)) => {
                if u64::MAX - (self.cycle as u64) <= priority {
                    match queue_pop(&mut self.event_queue) {
                        Some((key, _priority)) => {
                            proof {
                                assert(key_ok(key));
                                assert forall|k: EventKey| #[trigger] self.pending().contains_key(k) implies key_ok(k) by {
                                    assert(old(self).pending().contains_key(k));
                                }
                            }
                            let e = event_of(key);
                            Some(e)
                        },
                        None => None,
                    }
                } else {
                    None
                }
            },
            None => None,
        }
    }
}

} // verus!
