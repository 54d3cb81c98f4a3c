use vstd::prelude::*;
use crate::board::{BLUE_PIN, GREEN_PIN, RED_PIN};
use crate::pins::NUM_PINS;

verus! {

/// Number of PWM counter slices.
pub const NUM_SLICES: u8 = 8;

/// One of the two outputs of a PWM slice.
#[derive(Clone, Copy, Debug, PartialEq, Eq, Structural)]
pub enum PwmChannel {
    A,
    B,
}

/// The slice that drives line `pin`: lines are paired, pair `n` on slice
/// `n mod 8`.
pub open spec fn slice_of(pin: u8) -> u8 {
    ((pin / 2) % 8) as u8
}

/// The output of its slice that drives line `pin`: A for even lines.
pub open spec fn channel_of(pin: u8) -> PwmChannel {
    if pin % 2 == 0 {
        PwmChannel::A
    } else {
        PwmChannel::B
    }
}

/// The slice and output that a PWM-routed line `pin` is driven by.
pub fn pwm_output_of(pin: u8) -> (r: (u8, PwmChannel))
    requires
        pin < NUM_PINS,
    ensures
        r == (slice_of(pin), channel_of(pin)),
        r.0 < NUM_SLICES,
{
    let channel = if pin % 2 == 0 {
        PwmChannel::A
    } else {
        PwmChannel::B
    };
    (pin / 2 % NUM_SLICES, channel)
}

/// The slice that drives the red and green channels.
pub const FIRST_RGB_SLICE: u8 = 3;
/// The slice that drives the blue channel.
pub const SECOND_RGB_SLICE: u8 = 4;

/// The three LED lines are driven by two outputs of the first slice and one
/// of the second, each line by an output of its own.
pub proof fn lemma_rgb_routing()
    ensures
        slice_of(RED_PIN) == FIRST_RGB_SLICE && channel_of(RED_PIN) == PwmChannel::A,
        slice_of(GREEN_PIN) == FIRST_RGB_SLICE && channel_of(GREEN_PIN) == PwmChannel::B,
        slice_of(BLUE_PIN) == SECOND_RGB_SLICE && channel_of(BLUE_PIN) == PwmChannel::A,
{
}

/// A colour channel of the LED.
#[derive(Clone, Copy, Debug, PartialEq, Eq, Structural)]
pub enum Color {
    Red,
    Green,
    Blue,
}

/// The raw duty cycle of each LED channel: 0 is fully off, `u16::MAX` fully
/// on. No colour conversion is applied.
#[derive(Clone, Copy, Debug, PartialEq, Eq, Structural)]
pub struct RgbDuty {
    pub red: u16,
    pub green: u16,
    pub blue: u16,
}

impl RgbDuty {
    pub open spec fn spec_duty(&self, c: Color) -> u16 {
        match c {
            Color::Red => self.red,
            Color::Green => self.green,
            Color::Blue => self.blue,
        }
    }

    /// All three channels fully off, as the counters come out of reset.
    pub fn off() -> (r: RgbDuty)
        ensures
            forall|c: Color| #[trigger] r.spec_duty(c) == 0,
    {
        RgbDuty { red: 0, green: 0, blue: 0 }
    }

    /// The duty cycle of channel `c`.
    pub fn duty(&self, c: Color) -> (r: u16)
        ensures
            r == self.spec_duty(c),
    {
        match c {
            Color::Red => self.red,
            Color::Green => self.green,
            Color::Blue => self.blue,
        }
    }

    /// Sets channel `c` to `duty`, any value at all, and leaves the others.
    pub fn set_duty(&mut self, c: Color, duty: u16)
        ensures
            final(self).spec_duty(c) == duty,
            forall|d: Color| d != c ==> #[trigger] final(self).spec_duty(d) == old(self).spec_duty(d),
    {
        match c {
            Color::Red => self.red = duty,
            Color::Green => self.green = duty,
            Color::Blue => self.blue = duty,
        }
    }
}

} // verus!
