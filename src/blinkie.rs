//! Health indicator: a small state machine that blinks a light with a cadence
//! that tells how the delivery of observations is going.
use vstd::prelude::*;

verus! {

/// Off time, in milliseconds, before any delivery has succeeded.
pub const NOTYET_OFF: u64 = 1000;
/// On time, in milliseconds, before any delivery has succeeded.
pub const NOTYET_ON: u64 = 1000;
/// On time, in milliseconds, after the latest delivery succeeded.
pub const SUCCESS_ON: u64 = 100;
/// Off time, in milliseconds, after the latest delivery succeeded.
pub const SUCCESS_OFF: u64 = 10_000;
/// On time, in milliseconds, after a failed delivery that followed a success.
pub const ERROR_ON: u64 = 500;
/// Off time, in milliseconds, after a failed delivery that followed a success.
pub const ERROR_OFF: u64 = 500;

/// The state of the indicator; exactly one is active at a time.
#[derive(Clone, Copy, Debug, PartialEq, Eq, Structural)]
pub enum BlinkState {
    /// No delivery has succeeded yet.
    NeverSucceeded,
    /// A delivery is in flight; the light stays on.
    Busy { ever_succeeded: bool },
    /// The latest delivery succeeded.
    Success,
    /// The latest delivery failed, after at least one success.
    TroubleAfterSuccess,
}

/// Whether at least one delivery has succeeded, as a state remembers it.
pub open spec fn ever_succeeded(s: BlinkState) -> bool {
    match s {
        BlinkState::NeverSucceeded => false,
        BlinkState::Busy { ever_succeeded } => ever_succeeded,
        BlinkState::Success => true,
        BlinkState::TroubleAfterSuccess => true,
    }
}

/// The waiting or failing state for the given success history.
pub open spec fn trouble_state(ever_succeeded: bool) -> BlinkState {
    if ever_succeeded {
        BlinkState::TroubleAfterSuccess
    } else {
        BlinkState::NeverSucceeded
    }
}

/// How long the light stays on in a blinking state.
pub open spec fn on_ms(s: BlinkState) -> u64 {
    match s {
        BlinkState::NeverSucceeded => NOTYET_ON,
        BlinkState::Success => SUCCESS_ON,
        _ => ERROR_ON,
    }
}

/// How long the light stays off in a blinking state.
pub open spec fn off_ms(s: BlinkState) -> u64 {
    match s {
        BlinkState::NeverSucceeded => NOTYET_OFF,
        BlinkState::Success => SUCCESS_OFF,
        _ => ERROR_OFF,
    }
}

/// How long to wait before the next blink, given whether the light is on.
pub open spec fn cadence_ms(s: BlinkState, lit: bool) -> u64 {
    if lit { on_ms(s) } else { off_ms(s) }
}

/// A driver for the physical light, supplied by the embedding application.
pub trait ConcreteBlinker: Sized {
    /// Whether the light is on.
    spec fn lit(&self) -> bool;

    /// The driver after one call of `toggle(turn_on)`.
    spec fn after_toggle(&self, turn_on: Option<bool>) -> Self;

    /// Puts the light in its known, off state.
    fn init(&mut self)
        ensures
            *final(self) == old(self).after_toggle(Some(false)),
            !final(self).lit(),
    ;

    /// Forces the light to `turn_on` when given, else flips it; returns
    /// whether it was on before the call.
    fn toggle(&mut self, turn_on: Option<bool>) -> (was: bool)
        ensures
            was == old(self).lit(),
            *final(self) == old(self).after_toggle(turn_on),
            final(self).lit() == match turn_on {
                Some(on) => on,
                None => !old(self).lit(),
            },
    ;
}

/// Entry point of the indicator state machine.
pub struct Blinker {}

impl Blinker {
    /// The initial indicator: no delivery has succeeded, the light is off.
    pub fn new<B: ConcreteBlinker>(concrete_blinker: B) -> (r: BlinkerController<B>)
        ensures
            r.wf(),
            r.phase() == BlinkState::NeverSucceeded,
            r.driver() == concrete_blinker.after_toggle(Some(false)),
            !r.light_on(),
            r.wait() == NOTYET_OFF,
    {
        BlinkerController::enter_trouble(concrete_blinker, false)
    }
}

/// The indicator: its state, the wait before the next blink, and the light.
pub struct BlinkerController<B: ConcreteBlinker> {
    state: BlinkState,
    wait_ms: u64,
    concrete_blinker: B,
}

impl<B: ConcreteBlinker> BlinkerController<B> {
    /// The active state.
    pub closed spec fn phase(&self) -> BlinkState {
        self.state
    }

    /// The wait before the next blink (meaningless while busy).
    pub closed spec fn wait(&self) -> u64 {
        self.wait_ms
    }

    /// The light's driver.
    pub closed spec fn driver(&self) -> B {
        self.concrete_blinker
    }

    /// Whether the light is on.
    pub closed spec fn light_on(&self) -> bool {
        self.concrete_blinker.lit()
    }

    /// The light is on while busy; otherwise the wait matches the cadence
    /// of the state for what the light shows.
    pub closed spec fn wf(&self) -> bool {
        match self.state {
            BlinkState::Busy { .. } => self.light_on(),
            _ => self.wait_ms == cadence_ms(self.state, self.light_on()),
        }
    }

    /// Enters the waiting or failing state for the given success history,
    /// with the light forced off.
    pub fn enter_trouble(concrete_blinker: B, ever_succeeded: bool) -> (r: Self)
        ensures
            r.wf(),
            r.phase() == trouble_state(ever_succeeded),
            r.driver() == concrete_blinker.after_toggle(Some(false)),
            !r.light_on(),
            r.wait() == off_ms(r.phase()),
    {
        let mut concrete_blinker = concrete_blinker;
        concrete_blinker.toggle(Some(false));
        let mut wait_ms = NOTYET_OFF;
        let mut state = BlinkState::NeverSucceeded;
        if ever_succeeded {
            wait_ms = ERROR_OFF;
            state = BlinkState::TroubleAfterSuccess;
        }
        BlinkerController { state, wait_ms, concrete_blinker }
    }

    /// Enters the busy state, with the light forced on; the state remembers
    /// the success history for the transition that leaves it.
    pub fn enter_busy(concrete_blinker: B, ever_succeeded: bool) -> (r: Self)
        ensures
            r.wf(),
            r.phase() == (BlinkState::Busy { ever_succeeded }),
            r.driver() == concrete_blinker.after_toggle(Some(true)),
            r.light_on(),
    {
        let mut concrete_blinker = concrete_blinker;
        concrete_blinker.toggle(Some(true));
        BlinkerController { state: BlinkState::Busy { ever_succeeded }, wait_ms: 0, concrete_blinker }
    }

    /// Enters the success state, with the light forced off.
    pub fn enter_success(concrete_blinker: B) -> (r: Self)
        ensures
            r.wf(),
            r.phase() == BlinkState::Success,
            r.driver() == concrete_blinker.after_toggle(Some(false)),
            !r.light_on(),
            r.wait() == SUCCESS_OFF,
    {
        let mut concrete_blinker = concrete_blinker;
        concrete_blinker.toggle(Some(false));
        BlinkerController { state: BlinkState::Success, wait_ms: SUCCESS_OFF, concrete_blinker }
    }

    /// The active state.
    pub fn state(&self) -> (r: BlinkState)
        ensures
            r == self.phase(),
    {
        self.state
    }

    /// A delivery starts: leaves a blinking state for busy.
    pub fn start_busy(self) -> (r: Self)
        requires
            !(self.phase() is Busy),
        ensures
            r.wf(),
            r.phase() == (BlinkState::Busy { ever_succeeded: ever_succeeded(self.phase()) }),
            r.driver() == self.driver().after_toggle(Some(true)),
            r.light_on(),
    {
        let ever_succeeded = match self.state {
            BlinkState::NeverSucceeded => false,
            _ => true,
        };
        Self::enter_busy(self.concrete_blinker, ever_succeeded)
    }

    /// The delivery in flight failed: leaves busy for the waiting or failing
    /// state, keeping the success history.
    pub fn start_trouble(self) -> (r: Self)
        requires
            self.phase() is Busy,
        ensures
            r.wf(),
            r.phase() == trouble_state(ever_succeeded(self.phase())),
            r.driver() == self.driver().after_toggle(Some(false)),
            !r.light_on(),
            r.wait() == off_ms(r.phase()),
    {
        let ever_succeeded = match self.state {
            BlinkState::Busy { ever_succeeded } => ever_succeeded,
            _ => true,
        };
        Self::enter_trouble(self.concrete_blinker, ever_succeeded)
    }

    /// The delivery in flight succeeded: leaves busy for success.
    pub fn start_success(self) -> (r: Self)
        requires
            self.phase() is Busy,
        ensures
            r.wf(),
            r.phase() == BlinkState::Success,
            r.driver() == self.driver().after_toggle(Some(false)),
            !r.light_on(),
            r.wait() == SUCCESS_OFF,
    {
        Self::enter_success(self.concrete_blinker)
    }

    /// One blink: flips the light and sets the wait to the on or off time of
    /// the state, for what the light now shows. Never called while busy.
    pub fn next(&mut self)
        requires
            old(self).wf(),
            !(old(self).phase() is Busy),
        ensures
            final(self).wf(),
            final(self).phase() == old(self).phase(),
            final(self).driver() == old(self).driver().after_toggle(None),
            final(self).light_on() == !old(self).light_on(),
            final(self).wait() == cadence_ms(old(self).phase(), !old(self).light_on()),
    {
        let was = self.concrete_blinker.toggle(None);
        let (on_ms, off_ms) = match self.state {
            BlinkState::NeverSucceeded => (NOTYET_ON, NOTYET_OFF),
            BlinkState::Success => (SUCCESS_ON, SUCCESS_OFF),
            _ => (ERROR_ON, ERROR_OFF),
        };
        if was {
            self.wait_ms = off_ms;
        } else {
            self.wait_ms = on_ms;
        }
    }

    /// The wait before the next blink. Never called while busy.
    pub fn wait_ms(&self) -> (r: u64)
        requires
            !(self.phase() is Busy),
        ensures
            r == self.wait(),
    {
        self.wait_ms
    }
}

/// A light that only remembers whether it is on.
pub struct ExampleConcreteBlinker {
    is_on: bool,
}

impl ExampleConcreteBlinker {
    /// A light that is off.
    pub fn new() -> (cb: ExampleConcreteBlinker)
        ensures
            !cb.lit(),
    {
        let mut cb = ExampleConcreteBlinker { is_on: false };
        cb.init();
        cb
    }

    /// Whether the light is on.
    pub fn is_on(&self) -> (r: bool)
        ensures
            r == self.lit(),
    {
        self.is_on
    }
}

impl ConcreteBlinker for ExampleConcreteBlinker {
    closed spec fn lit(&self) -> bool {
        self.is_on
    }

    closed spec fn after_toggle(&self, turn_on: Option<bool>) -> ExampleConcreteBlinker {
        ExampleConcreteBlinker {
            is_on: match turn_on {
                Some(on) => on,
                None => !self.is_on,
            },
        }
    }

    fn init(&mut self) {
        self.toggle(Some(false));
        self.is_on = false;
    }

    fn toggle(&mut self, turn_on: Option<bool>) -> (was: bool) {
        let was = self.is_on;
        match turn_on {
            Some(on) => {
                self.is_on = on;
            },
            None => {
                self.is_on = !self.is_on;
            },
        }
        was
    }
}

} // verus!
