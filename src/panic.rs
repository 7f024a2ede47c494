//! The terminal fault path: a blink pattern on the indicator LED.

use vstd::prelude::*;

verus! {

/// The GPIO pin (port 0, pin 27) of the indicator LED.
pub const LED_PIN: u32 = 27;

/// Number of steps in one round of the blink pattern.
pub const BLINK_STEPS: u8 = 4;

/// Level of a GPIO output pin.
#[derive(Clone, Copy, Debug, PartialEq, Eq, Structural)]
pub enum PinLevel {
    High,
    Low,
}

/// An LED that lights when its pin is driven low.
#[derive(Clone, Copy, Debug, PartialEq, Eq, Structural)]
pub struct LedLow {
    pub pin: u32,
}

impl LedLow {
    /// The pin level that makes the LED lit or dark.
    pub fn level(&self, lit: bool) -> (r: PinLevel)
        ensures
            r == (if lit {
                PinLevel::Low
            } else {
                PinLevel::High
            }),
    {
        if lit {
            PinLevel::Low
        } else {
            PinLevel::High
        }
    }
}

/// One step of the pattern: drive `pin` to `level`, then spin `spins` times.
#[derive(Clone, Copy, Debug, PartialEq, Eq, Structural)]
pub struct BlinkStep {
    pub pin: u32,
    pub level: PinLevel,
    pub spins: u32,
}

/// Whether the LED is lit in step `k` of the pattern.
pub open spec fn step_lit(k: u8) -> bool {
    k == 0 || k == 2
}

/// How long step `k` of the pattern lasts, in spin iterations: long on,
/// short off, short on, long off.
pub open spec fn step_spins(k: u8) -> u32 {
    if k == 0 {
        1_000_000
    } else if k == 1 {
        100_000
    } else if k == 2 {
        100_000
    } else {
        500_000
    }
}

/// The terminal fault path: once triggered it drives the LED in a fixed
/// pattern forever. It touches nothing but the LED pin and its own counter.
#[derive(Clone, Copy, Debug, PartialEq, Eq, Structural)]
pub struct PanicHandler {
    pub triggered: bool,
    pub step: u8,
    pub led: LedLow,
}

/// The handler after `panic_fmt`: a first trigger takes the LED and starts the
/// pattern; a later one changes nothing.
pub open spec fn triggered_state(h: PanicHandler) -> PanicHandler {
    if h.triggered {
        h
    } else {
        PanicHandler { triggered: true, step: 0, led: LedLow { pin: LED_PIN } }
    }
}

impl PanicHandler {
    /// The handler before any fault.
    pub fn new() -> (r: PanicHandler)
        ensures
            !r.triggered,
            r.step == 0,
            r.led.pin == LED_PIN,
    {
        PanicHandler { triggered: false, step: 0, led: LedLow { pin: LED_PIN } }
    }

    /// The next step of the pattern. It accepts any state, so it cannot fault.
    pub fn next_step(&mut self) -> (r: BlinkStep)
        ensures
            r.pin == old(self).led.pin,
            r.level == (if step_lit((old(self).step % BLINK_STEPS) as u8) {
                PinLevel::Low
            } else {
                PinLevel::High
            }),
            r.spins == step_spins((old(self).step % BLINK_STEPS) as u8),
            final(self).step == ((old(self).step % BLINK_STEPS) + 1) as int % (BLINK_STEPS as int),
            final(self).triggered == old(self).triggered,
            final(self).led == old(self).led,
    {
        let k: u8 = self.step % BLINK_STEPS;
        let lit = k == 0 || k == 2;
        let spins: u32 = if k == 0 {
            1_000_000
        } else if k == 1 {
            100_000
        } else if k == 2 {
            100_000
        } else {
            500_000
        };
        self.step = (k + 1) % BLINK_STEPS;
        BlinkStep { pin: self.led.pin, level: self.led.level(lit), spins }
    }
}

/// Enters the terminal state from any state: takes the LED pin directly and
/// starts the blink pattern. Triggering again, or from inside the pattern,
/// leaves the handler as it is.
pub fn panic_fmt(handler: &mut PanicHandler)
    ensures
        *final(handler) == triggered_state(*old(handler)),
{
    if !handler.triggered {
        *handler = PanicHandler { triggered: true, step: 0, led: LedLow { pin: LED_PIN } };
    }
}

/// Triggering the panic path twice is the same as triggering it once, and
/// the triggered handler always blinks the indicator pin.
pub proof fn lemma_panic_idempotent(h: PanicHandler)
    ensures
        triggered_state(triggered_state(h)) == triggered_state(h),
        triggered_state(h).triggered,
        !h.triggered ==> triggered_state(h).led.pin == LED_PIN,
{
}

} // verus!
