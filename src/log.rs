//! The relay loop's decisions: a pending slot that holds at most the newest
//! observation, and the indicator that shows how delivery is going. The loop
//! itself (channel, timer, delivery sink) belongs to the embedding program,
//! which hands each event to `ObservationQueueBack::step` and carries out the
//! action that comes back.
use vstd::prelude::*;
use crate::blinkie::{
    BlinkState, Blinker, BlinkerController, ConcreteBlinker, NOTYET_OFF, SUCCESS_OFF,
    cadence_ms, ever_succeeded, off_ms, trouble_state,
};

verus! {

/// What the relay loop observed while it waited.
pub enum Event<T> {
    /// A new observation arrived.
    Observation(T),
    /// The wait ran out with nothing received.
    Timeout,
    /// The submitting side is gone and nothing is left to receive.
    Closed,
}

/// What the relay loop does next.
#[derive(Clone, Copy, Debug, PartialEq, Eq, Structural)]
pub enum Action {
    /// Hand the pending observation to the delivery sink, then report the
    /// outcome with `ObservationQueueBack::finish_delivery`.
    Deliver,
    /// Wait again, for `ObservationQueueBack::wait_ms`.
    Wait,
    /// End the loop.
    Stop,
}

/// The action that answers an event.
pub open spec fn step_action<T>(ev: Event<T>) -> Action {
    match ev {
        Event::Observation(_) => Action::Deliver,
        Event::Timeout => Action::Wait,
        Event::Closed => Action::Stop,
    }
}

/// The pending slot after an observation is added: only the newest stays.
pub open spec fn slot_after_add<T>(slot: Option<T>, obs: T) -> Option<T> {
    Some(obs)
}

/// The pending slot after an event.
pub open spec fn slot_after_event<T>(slot: Option<T>, ev: Event<T>) -> Option<T> {
    match ev {
        Event::Observation(obs) => slot_after_add(slot, obs),
        _ => slot,
    }
}

/// The pending slot after a delivery: emptied when it succeeded, kept when
/// it failed.
pub open spec fn slot_after_delivery<T>(slot: Option<T>, delivered: bool) -> Option<T> {
    if delivered {
        None
    } else {
        slot
    }
}

/// The pending slot after a run of events, one after the other.
pub open spec fn slot_after_events<T>(slot: Option<T>, evs: Seq<Event<T>>) -> Option<T>
    decreases evs.len(),
{
    if evs.len() == 0 {
        slot
    } else {
        slot_after_events(slot_after_event(slot, evs[0]), evs.drop_first())
    }
}

/// Two observations added one after the other, with no delivery between
/// them, leave the second alone in the slot: the next delivery carries it
/// and the first is never attempted.
pub proof fn lemma_newest_observation_wins<T>(slot: Option<T>, first: T, second: T)
    ensures
        slot_after_add(slot_after_add(slot, first), second) == Some(second),
{
}

/// A successful delivery empties the slot. A failed one leaves its
/// observation in the slot, and any run of events that brings no new
/// observation neither starts another delivery nor changes the slot.
pub proof fn lemma_failed_delivery_waits<T>(obs: T, delivered: bool, evs: Seq<Event<T>>)
    requires
        forall|i: int| 0 <= i < evs.len() ==> !(#[trigger] evs[i] is Observation),
    ensures
        delivered ==> slot_after_delivery(Some(obs), delivered) is None,
        !delivered ==> slot_after_events(slot_after_delivery(Some(obs), delivered), evs) == Some(
            obs,
        ),
        forall|i: int| 0 <= i < evs.len() ==> step_action(#[trigger] evs[i]) != Action::Deliver,
{
    if !delivered {
        lemma_slot_kept_without_observation(Some(obs), evs);
    }
}

/// Events that bring no observation leave the slot as it is.
proof fn lemma_slot_kept_without_observation<T>(slot: Option<T>, evs: Seq<Event<T>>)
    requires
        forall|i: int| 0 <= i < evs.len() ==> !(#[trigger] evs[i] is Observation),
    ensures
        slot_after_events(slot, evs) == slot,
    decreases evs.len(),
{
    if evs.len() > 0 {
        assert(!(evs[0] is Observation));
        let rest = evs.drop_first();
        assert forall|i: int| 0 <= i < rest.len() implies !(#[trigger] rest[i] is Observation) by {
            assert(rest[i] == evs[i + 1]);
        }
        lemma_slot_kept_without_observation(slot, rest);
    }
}

/// The relay loop's state: the pending slot and the indicator.
pub struct ObservationQueueBack<T, B: ConcreteBlinker> {
    pending: Option<T>,
    blinker_controller: BlinkerController<B>,
}

impl<T, B: ConcreteBlinker> ObservationQueueBack<T, B> {
    /// The observation awaiting delivery, if any.
    pub closed spec fn pending(&self) -> Option<T> {
        self.pending
    }

    /// The indicator.
    pub closed spec fn indicator(&self) -> BlinkerController<B> {
        self.blinker_controller
    }

    /// Waiting for the next event: the indicator is blinking.
    pub open spec fn idle(&self) -> bool {
        &&& self.indicator().wf()
        &&& !(self.indicator().phase() is Busy)
    }

    /// A delivery is in flight: the indicator is busy and an observation
    /// is pending.
    pub open spec fn delivering(&self) -> bool {
        &&& self.indicator().wf()
        &&& self.indicator().phase() is Busy
        &&& self.pending() is Some
    }

    /// Nothing pending; the indicator shows that no delivery has succeeded.
    pub fn new(concrete_blinker: B) -> (r: Self)
        ensures
            r.idle(),
            r.pending() is None,
            r.indicator().phase() == BlinkState::NeverSucceeded,
            r.indicator().driver() == concrete_blinker.after_toggle(Some(false)),
            !r.indicator().light_on(),
            r.indicator().wait() == NOTYET_OFF,
    {
        ObservationQueueBack { pending: None, blinker_controller: Blinker::new(concrete_blinker) }
    }

    /// Puts an observation in the pending slot, discarding whatever was
    /// there.
    pub fn add_newest(&mut self, observation: T)
        ensures
            final(self).pending() == slot_after_add(old(self).pending(), observation),
            final(self).indicator() == old(self).indicator(),
    {
        self.empty();
        self.pending = Some(observation);
    }

    /// Empties the pending slot.
    fn empty(&mut self)
        ensures
            final(self).pending() is None,
            final(self).indicator() == old(self).indicator(),
    {
        self.pending = None;
    }

    /// The wait before the next blink, to bound the wait for an event.
    pub fn wait_ms(&self) -> (r: u64)
        requires
            self.idle(),
        ensures
            r == self.indicator().wait(),
    {
        self.blinker_controller.wait_ms()
    }

    /// Whether an observation is pending.
    pub fn has_pending(&self) -> (r: bool)
        ensures
            r == self.pending() is Some,
    {
        self.pending.is_some()
    }

    /// The indicator's state.
    pub fn indicator_state(&self) -> (r: BlinkState)
        ensures
            r == self.indicator().phase(),
    {
        self.blinker_controller.state()
    }

    /// The observation to hand to the delivery sink.
    pub fn pending_observation(&self) -> (r: &T)
        requires
            self.pending() is Some,
        ensures
            *r == self.pending().unwrap(),
    {
        self.pending.as_ref().unwrap()
    }

    /// Answers an event. A new observation replaces the pending one and
    /// starts a delivery (the indicator goes busy); a timeout makes the
    /// indicator blink and leaves the slot alone; a closed channel ends the
    /// loop and changes nothing.
    pub fn step(self, ev: Event<T>) -> (r: (Self, Action))
        requires
            self.idle(),
        ensures
            r.1 == step_action(ev),
            r.0.pending() == slot_after_event(self.pending(), ev),
            match ev {
                Event::Observation(_) => {
                    &&& r.0.delivering()
                    &&& r.0.indicator().phase() == (BlinkState::Busy {
                        ever_succeeded: ever_succeeded(self.indicator().phase()),
                    })
                    &&& r.0.indicator().driver() == self.indicator().driver().after_toggle(
                        Some(true),
                    )
                    &&& r.0.indicator().light_on()
                },
                Event::Timeout => {
                    &&& r.0.idle()
                    &&& r.0.indicator().phase() == self.indicator().phase()
                    &&& r.0.indicator().driver() == self.indicator().driver().after_toggle(None)
                    &&& r.0.indicator().light_on() == !self.indicator().light_on()
                    &&& r.0.indicator().wait() == cadence_ms(
                        self.indicator().phase(),
                        !self.indicator().light_on(),
                    )
                },
                Event::Closed => r.0 == self,
            },
    {
        let mut q = self;
        match ev {
            Event::Observation(observation) => {
                q.add_newest(observation);
                let ObservationQueueBack { pending, blinker_controller } = q;
                let blinker_controller = blinker_controller.start_busy();
                (ObservationQueueBack { pending, blinker_controller }, Action::Deliver)
            },
            Event::Timeout => {
                q.blinker_controller.next();
                (q, Action::Wait)
            },
            Event::Closed => (q, Action::Stop),
        }
    }

    /// Takes the outcome of the delivery in flight. On success the slot is
    /// emptied and the indicator shows success; on failure the observation
    /// stays pending and the indicator shows trouble, with its success
    /// history kept.
    pub fn finish_delivery(self, delivered: bool) -> (r: Self)
        requires
            self.delivering(),
        ensures
            r.idle(),
            r.pending() == slot_after_delivery(self.pending(), delivered),
            r.indicator().driver() == self.indicator().driver().after_toggle(Some(false)),
            !r.indicator().light_on(),
            r.indicator().phase() == (if delivered {
                BlinkState::Success
            } else {
                trouble_state(ever_succeeded(self.indicator().phase()))
            }),
            r.indicator().wait() == off_ms(r.indicator().phase()),
    {
        let mut q = self;
        if delivered {
            q.empty();
        }
        let ObservationQueueBack { pending, blinker_controller } = q;
        let blinker_controller = if delivered {
            blinker_controller.start_success()
        } else {
            blinker_controller.start_trouble()
        };
        ObservationQueueBack { pending, blinker_controller }
    }
}

} // verus!
