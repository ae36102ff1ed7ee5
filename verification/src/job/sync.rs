//! The states behind what threads wait for.
//!
//! Each is kept under a lock. A thread for which `wait` gives `false` sleeps, and asks again when
//! it is woken.

use vstd::prelude::*;

verus! {

/// Waits until a number of tasks are done.
#[derive(Debug)]
pub struct WaitGroup {
    count: i32,
}

impl View for WaitGroup {
    type V = int;

    /// How many tasks are to be done yet.
    closed spec fn view(&self) -> int {
        self.count as int
    }
}

/// Whether those who wait for a group with `count` tasks left may go on.
pub open spec fn released(count: int) -> bool {
    count <= 0
}

impl WaitGroup {
    /// A group of `count` tasks.
    pub fn new(count: i32) -> (r: WaitGroup)
        ensures
            r@ == count,
    {
        WaitGroup { count }
    }

    /// How many tasks are to be done yet.
    pub fn count(&self) -> (r: i32)
        ensures
            r == self@,
    {
        self.count
    }

    /// Adds `delta` tasks.
    pub fn add(&mut self, delta: i32)
        requires
            i32::MIN <= old(self)@ + delta <= i32::MAX,
        ensures
            final(self)@ == old(self)@ + delta,
    {
        self.count = self.count + delta;
    }

    /// Counts one task as done. If it was the last, the result is `true` and all who wait are to
    /// be woken.
    pub fn done(&mut self) -> (r: bool)
        requires
            i32::MIN < old(self)@,
        ensures
            final(self)@ == old(self)@ - 1,
            r == released(final(self)@),
    {
        self.count = self.count - 1;
        self.count <= 0
    }

    /// Whether a thread that waits may go on.
    pub fn wait(&self) -> (r: bool)
        ensures
            r == released(self@),
    {
        self.count <= 0
    }
}

/// A group of `count` tasks is released by the last of them and by no earlier one.
pub proof fn law_released_by_last(count: int, done: nat)
    requires
        0 < count,
    ensures
        done < count ==> !released(count - done),
        done == count ==> released(count - done),
{
}

/// A flag that threads wait for.
#[derive(Debug)]
pub struct Event {
    signalled: bool,
    manual: bool,
}

/// The state of an [`Event`].
pub struct EventState {
    /// Whether a thread that waits may go on.
    pub signalled: bool,
    /// Whether the event stays signalled once a thread went on.
    pub manual: bool,
}

impl View for Event {
    type V = EventState;

    closed spec fn view(&self) -> EventState {
        EventState { signalled: self.signalled, manual: self.manual }
    }
}

impl EventState {
    /// The state once the event was signalled or cleared.
    pub open spec fn set(self, signalled: bool) -> EventState {
        EventState { signalled, manual: self.manual }
    }

    /// The state after a thread asked whether it may go on.
    pub open spec fn waited(self) -> EventState {
        EventState { signalled: self.signalled && self.manual, manual: self.manual }
    }
}

/// What a thread that waits for a limited time has to do.
#[derive(Debug)]
pub enum TryWait<D> {
    /// Nothing: this is the result.
    Done(bool),
    /// Sleep for this time at most; the result is whether the event is signalled then.
    Sleep(D),
}

impl Event {
    /// An event that is signalled or not. One that is not manual resets when a thread goes on.
    pub fn new_with_state(manual: bool, initial: bool) -> (r: Event)
        ensures
            r@ == (EventState { signalled: initial, manual }),
    {
        Event { signalled: initial, manual }
    }

    /// An event that is not signalled.
    pub fn new(manual: bool) -> (r: Event)
        ensures
            r@ == (EventState { signalled: false, manual }),
    {
        Event::new_with_state(manual, false)
    }

    /// Signals the event. All who wait are to be woken.
    pub fn signal(&mut self)
        ensures
            final(self)@ == old(self)@.set(true),
    {
        self.signalled = true;
    }

    /// Takes the signal back.
    pub fn clear(&mut self)
        ensures
            final(self)@ == old(self)@.set(false),
    {
        self.signalled = false;
    }

    /// Whether the event is signalled.
    pub fn is_signalled(&self) -> (r: bool)
        ensures
            r == self@.signalled,
    {
        self.signalled
    }

    /// Whether a thread that waits may go on. If it may, an event that is not manual resets.
    pub fn wait(&mut self) -> (r: bool)
        ensures
            r == old(self)@.signalled,
            final(self)@ == old(self)@.waited(),
    {
        if !self.signalled {
            return false;
        }
        if !self.manual {
            self.signalled = false;
        }
        true
    }

    /// What a thread has to do that waits no longer than `timeout`, or not at all. The event
    /// stays as it is.
    pub fn try_wait<D>(&self, timeout: Option<D>) -> (r: TryWait<D>)
        ensures
            r == if self@.signalled {
                TryWait::Done(true)
            } else {
                match timeout {
                    Some(d) => TryWait::Sleep(d),
                    None => TryWait::Done(false),
                }
            },
    {
        if self.signalled {
            return TryWait::Done(true);
        }
        match timeout {
            Some(d) => TryWait::Sleep(d),
            None => TryWait::Done(false),
        }
    }
}

/// One signal of an event that is not manual lets exactly one thread go on, no matter how often
/// it was repeated before.
pub proof fn law_automatic_event(event: EventState)
    requires
        !event.manual,
    ensures
        event.set(true).signalled,
        event.set(true).set(true) == event.set(true),
        !event.set(true).waited().signalled,
{
}

/// A signal of a manual event lets every thread go on until it is cleared.
pub proof fn law_manual_event(event: EventState)
    requires
        event.manual,
    ensures
        event.set(true).signalled,
        event.set(true).waited() == event.set(true),
        !event.set(true).set(false).signalled,
        !event.set(false).waited().signalled,
{
}

/// A time limit for the fiber scheduler, which takes nanoseconds; none is no time at all.
pub fn timeout_nanos(nanos: Option<u128>) -> (r: i64)
    ensures
        nanos is None ==> r == 0,
        nanos matches Some(n) ==> r == n as i64,
{
    match nanos {
        Some(n) => n as i64,
        None => 0,
    }
}

/// The result of a call that another thread makes.
#[derive(Debug)]
pub struct CallSlot<R> {
    result: Option<R>,
}

impl<R> View for CallSlot<R> {
    type V = Option<R>;

    /// The result, once it is there and until it is taken.
    closed spec fn view(&self) -> Option<R> {
        self.result
    }
}

impl<R> CallSlot<R> {
    /// A call that has not returned.
    pub fn new() -> (r: CallSlot<R>)
        ensures
            r@ is None,
    {
        CallSlot { result: None }
    }

    /// Stores the result. The thread that waits for it is to be woken.
    pub fn complete(&mut self, result: R)
        ensures
            final(self)@ == Some(result),
    {
        self.result = Some(result);
    }

    /// The result, if the call has returned. It is handed out once.
    pub fn wait(&mut self) -> (r: Option<R>)
        ensures
            r == old(self)@,
            final(self)@ is None,
    {
        self.result.take()
    }
}

/// Those who wait for a group may go on exactly if no task is left.
pub proof fn law_released(count: int)
    ensures
        released(count) <==> count <= 0,
{
}

/// A signal, or taking it back, says whether the event is signalled, and no more.
pub proof fn law_set(event: EventState, signalled: bool)
    ensures
        event.set(signalled).signalled == signalled,
        event.set(signalled).manual == event.manual,
{
}

/// A thread that asks whether it may go on leaves an event that is not signalled exactly as it is,
/// and a manual one too; one that is signalled and not manual is not signalled any more. Waiting
/// never changes whether the event is manual.
pub proof fn law_waited(event: EventState)
    ensures
        !event.signalled ==> event.waited() == event,
        event.manual ==> event.waited() == event,
        event.signalled && !event.manual ==> !event.waited().signalled,
        event.waited().manual == event.manual,
{
}

/// What threads do with an event.
pub enum EventUse {
    /// [`Event::signal`].
    Signal,
    /// [`Event::clear`].
    Clear,
    /// [`Event::wait`].
    Wait,
}

impl EventUse {
    /// The event afterwards.
    pub open spec fn after(self, event: EventState) -> EventState {
        match self {
            EventUse::Signal => event.set(true),
            EventUse::Clear => event.set(false),
            EventUse::Wait => event.waited(),
        }
    }
}

/// The event after all of `uses`.
pub open spec fn after_uses(event: EventState, uses: Seq<EventUse>) -> EventState
    decreases uses.len(),
{
    if uses.len() == 0 {
        event
    } else {
        after_uses(uses[0].after(event), uses.drop_first())
    }
}

/// How many of the threads that ask in `uses` may go on.
pub open spec fn passes(event: EventState, uses: Seq<EventUse>) -> int
    decreases uses.len(),
{
    if uses.len() == 0 {
        0
    } else {
        (if uses[0] is Wait && event.signalled {
            1int
        } else {
            0
        }) + passes(uses[0].after(event), uses.drop_first())
    }
}

/// How many of `uses` are signals.
pub open spec fn signals(uses: Seq<EventUse>) -> int
    decreases uses.len(),
{
    if uses.len() == 0 {
        0
    } else {
        (if uses[0] is Signal {
            1int
        } else {
            0
        }) + signals(uses.drop_first())
    }
}

/// Whatever threads do with an event that is not manual, no more of them go on than it was
/// signalled, counting the signal that it may have begun with.
pub proof fn law_one_pass_per_signal(event: EventState, uses: Seq<EventUse>)
    requires
        !event.manual,
    ensures
        passes(event, uses) <= signals(uses) + if event.signalled {
            1int
        } else {
            0
        },
    decreases uses.len(),
{
    if uses.len() > 0 {
        law_one_pass_per_signal(uses[0].after(event), uses.drop_first());
    }
}

/// Whatever threads do with it, an event stays manual or not; and whether a manual one is
/// signalled is what the last signal or clearing said, no matter how many threads went on since.
pub proof fn law_last_signal_counts(event: EventState, uses: Seq<EventUse>, waits: Seq<EventUse>)
    requires
        forall|i: int| 0 <= i < waits.len() ==> #[trigger] waits[i] is Wait,
    ensures
        after_uses(event, uses).manual == event.manual,
        event.manual ==> after_uses(event.set(true), waits).signalled,
        event.manual ==> passes(event.set(true), waits) == waits.len(),
        !after_uses(event.set(false), waits).signalled,
        passes(event.set(false), waits) == 0,
    decreases uses.len() + waits.len(),
{
    if uses.len() > 0 {
        law_last_signal_counts(uses[0].after(event), uses.drop_first(), seq![]);
    }
    if waits.len() > 0 {
        assert forall|i: int| 0 <= i < waits.drop_first().len() implies #[trigger] waits.drop_first()[i]
            is Wait by {
            assert(waits[i + 1] is Wait);
        }
        law_last_signal_counts(event, seq![], waits.drop_first());
    }
}

} // verus!
