//! The one-shot shutdown signal: the window's events come in, and the signal
//! goes out on the first `Destroyed` event and never again.
use vstd::prelude::*;

verus! {

/// The window events that the host reports.
#[derive(Debug, Clone, Copy, PartialEq, Eq)]
pub enum WindowEvent {
    /// The main window was destroyed: the service must stop.
    Destroyed,
    /// Any other event; it does not concern the service.
    Other,
}

/// Remembers whether the shutdown signal has been sent.
#[derive(Debug)]
pub struct ShutdownLatch {
    fired: bool,
}

/// Whether the latch fires on `e` in state `fired`.
pub open spec fn fires_on(fired: bool, e: WindowEvent) -> bool {
    !fired && e is Destroyed
}

/// How many times the latch fires over `events`, from state `fired`.
pub open spec fn fire_count(fired: bool, events: Seq<WindowEvent>) -> nat
    decreases events.len(),
{
    if events.len() == 0 {
        0
    } else {
        (if fires_on(fired, events[0]) {
            1nat
        } else {
            0nat
        }) + fire_count(fired || events[0] is Destroyed, events.drop_first())
    }
}

impl ShutdownLatch {
    pub closed spec fn has_fired_spec(&self) -> bool {
        self.fired
    }

    /// A latch that has not fired.
    pub fn new() -> (r: ShutdownLatch)
        ensures
            !r.has_fired_spec(),
    {
        ShutdownLatch { fired: false }
    }

    pub fn has_fired(&self) -> (r: bool)
        ensures
            r == self.has_fired_spec(),
    {
        self.fired
    }

    /// Takes a window event; returns whether the shutdown signal is to be sent
    /// now, which is on the first `Destroyed` event only.
    pub fn on_window_event(&mut self, event: WindowEvent) -> (r: bool)
        ensures
            r == fires_on(old(self).has_fired_spec(), event),
            final(self).has_fired_spec() == (old(self).has_fired_spec() || event is Destroyed),
    {
        match event {
            WindowEvent::Destroyed => {
                let send = !self.fired;
                self.fired = true;
                send
            },
            WindowEvent::Other => false,
        }
    }
}

/// Over any sequence of window events the signal is sent at most once, and
/// exactly once from a fresh latch where a `Destroyed` event comes.
pub proof fn lemma_fires_at_most_once(fired: bool, events: Seq<WindowEvent>)
    ensures
        fire_count(fired, events) <= 1,
        fired ==> fire_count(fired, events) == 0,
        !fired ==> (fire_count(fired, events) == 1 <==> exists|i: int|
            0 <= i < events.len() && #[trigger] events[i] is Destroyed),
    decreases events.len(),
{
    if events.len() > 0 {
        let rest = events.drop_first();
        let next = fired || events[0] is Destroyed;
        lemma_fires_at_most_once(next, rest);
        if !fired && !(events[0] is Destroyed) {
            if exists|i: int| 0 <= i < events.len() && #[trigger] events[i] is Destroyed {
                let i = choose|i: int| 0 <= i < events.len() && #[trigger] events[i] is Destroyed;
                assert(rest[i - 1] is Destroyed);
            }
            if exists|i: int| 0 <= i < rest.len() && #[trigger] rest[i] is Destroyed {
                let i = choose|i: int| 0 <= i < rest.len() && #[trigger] rest[i] is Destroyed;
                assert(events[i + 1] is Destroyed);
            }
        }
    }
}

} // verus!
