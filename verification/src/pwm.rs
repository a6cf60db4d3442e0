//! Pulse-width modulation on the advanced timer.
//!
//! The PWM driver programs the channel compare registers of the
//! [`TimerBlock`] model. Which channels a pin set drives is decided by the
//! [`Pins`] trait; register access goes through [`TimerRegExt`] and
//! [`TimerIdleRegExt`], whose contracts pin down exactly which channel's bits
//! each call changes.

use crate::gpio::{Alternate, Pin as GpioPin, PushPull};
use crate::time::Hertz;
use crate::timer::{
    compute_prescaler_reload, prescaler_reload_fits, spec_prescaler, spec_reload, BreakRegs,
    ChannelRegs, TimerBlock,
};
use vstd::prelude::*;

verus! {

/// The four compare channels of the timer.
#[derive(Clone, Copy, Debug, PartialEq, Eq, Structural)]
pub enum Channel {
    C0,
    C1,
    C2,
    C3,
}

/// Polarity of a PWM output.
#[derive(Clone, Copy, Debug, PartialEq, Eq, Structural)]
pub enum Polarity {
    NotInverted,
    Inverted,
}

/// The level an output takes while the channel is idle.
#[derive(Clone, Copy, Debug, PartialEq, Eq, Structural)]
pub enum IdleState {
    Low,
    High,
}

/// Break-input configuration.
#[derive(Clone, Copy, Debug, PartialEq, Eq, Structural)]
pub enum BreakMode {
    Disabled,
    ActiveLow,
    ActiveHigh,
}

/// How pulses on different channels align with each other.
#[derive(Clone, Copy, Debug, PartialEq, Eq, Structural)]
pub enum Alignment {
    /// Align the edge of the pulses from each channel.
    Edge,
    /// Align the center of the pulses from each channel.
    Center,
}

/// A channel has a complementary output (the fourth channel has none).
pub open spec fn has_complementary(channel: Channel) -> bool {
    channel != Channel::C3
}

/// Register access for PWM output: channel enables, polarities, and duty
/// values.
pub trait TimerRegExt {
    /// The compare (duty) value of a channel.
    spec fn spec_duty(&self, channel: Channel) -> u16;

    /// The maximum duty value (the auto-reload value).
    spec fn spec_max_duty(&self) -> u16;

    /// The given output (main or complementary) of a channel is enabled.
    spec fn spec_channel_on(&self, channel: Channel, complementary: bool) -> bool;

    /// The given output of a channel is inverted.
    spec fn spec_polarity_inverted(&self, channel: Channel, complementary: bool) -> bool;

    /// Disables a channel's main output, and its complementary output when
    /// `uses_complementary` is set.
    fn disable_channel(&mut self, channel: Channel, uses_complementary: bool)
        ensures
            !final(self).spec_channel_on(channel, false),
            uses_complementary ==> !final(self).spec_channel_on(channel, true),
            !uses_complementary ==> final(self).spec_channel_on(channel, true) == old(
                self,
            ).spec_channel_on(channel, true),
            channel != Channel::C0 ==> (final(self).spec_channel_on(Channel::C0, false) == old(self).spec_channel_on(Channel::C0, false) && final(self).spec_channel_on(Channel::C0, true) == old(self).spec_channel_on(Channel::C0, true)),
            channel != Channel::C1 ==> (final(self).spec_channel_on(Channel::C1, false) == old(self).spec_channel_on(Channel::C1, false) && final(self).spec_channel_on(Channel::C1, true) == old(self).spec_channel_on(Channel::C1, true)),
            channel != Channel::C2 ==> (final(self).spec_channel_on(Channel::C2, false) == old(self).spec_channel_on(Channel::C2, false) && final(self).spec_channel_on(Channel::C2, true) == old(self).spec_channel_on(Channel::C2, true)),
            channel != Channel::C3 ==> (final(self).spec_channel_on(Channel::C3, false) == old(self).spec_channel_on(Channel::C3, false) && final(self).spec_channel_on(Channel::C3, true) == old(self).spec_channel_on(Channel::C3, true)),
            final(self).spec_duty(Channel::C0) == old(self).spec_duty(Channel::C0),
            final(self).spec_duty(Channel::C1) == old(self).spec_duty(Channel::C1),
            final(self).spec_duty(Channel::C2) == old(self).spec_duty(Channel::C2),
            final(self).spec_duty(Channel::C3) == old(self).spec_duty(Channel::C3),
            final(self).spec_max_duty() == old(self).spec_max_duty(),
            final(self).spec_polarity_inverted(Channel::C0, false) == old(self).spec_polarity_inverted(Channel::C0, false),
            final(self).spec_polarity_inverted(Channel::C0, true) == old(self).spec_polarity_inverted(Channel::C0, true),
            final(self).spec_polarity_inverted(Channel::C1, false) == old(self).spec_polarity_inverted(Channel::C1, false),
            final(self).spec_polarity_inverted(Channel::C1, true) == old(self).spec_polarity_inverted(Channel::C1, true),
            final(self).spec_polarity_inverted(Channel::C2, false) == old(self).spec_polarity_inverted(Channel::C2, false),
            final(self).spec_polarity_inverted(Channel::C2, true) == old(self).spec_polarity_inverted(Channel::C2, true),
            final(self).spec_polarity_inverted(Channel::C3, false) == old(self).spec_polarity_inverted(Channel::C3, false),
            final(self).spec_polarity_inverted(Channel::C3, true) == old(self).spec_polarity_inverted(Channel::C3, true),
    ;

    /// Enables a channel's main output, and its complementary output when
    /// `uses_complementary` is set.
    fn enable_channel(&mut self, channel: Channel, uses_complementary: bool)
        ensures
            final(self).spec_channel_on(channel, false),
            (uses_complementary && has_complementary(channel)) ==> final(self).spec_channel_on(
                channel,
                true,
            ),
            !uses_complementary ==> final(self).spec_channel_on(channel, true) == old(
                self,
            ).spec_channel_on(channel, true),
            channel != Channel::C0 ==> (final(self).spec_channel_on(Channel::C0, false) == old(self).spec_channel_on(Channel::C0, false) && final(self).spec_channel_on(Channel::C0, true) == old(self).spec_channel_on(Channel::C0, true)),
            channel != Channel::C1 ==> (final(self).spec_channel_on(Channel::C1, false) == old(self).spec_channel_on(Channel::C1, false) && final(self).spec_channel_on(Channel::C1, true) == old(self).spec_channel_on(Channel::C1, true)),
            channel != Channel::C2 ==> (final(self).spec_channel_on(Channel::C2, false) == old(self).spec_channel_on(Channel::C2, false) && final(self).spec_channel_on(Channel::C2, true) == old(self).spec_channel_on(Channel::C2, true)),
            channel != Channel::C3 ==> (final(self).spec_channel_on(Channel::C3, false) == old(self).spec_channel_on(Channel::C3, false) && final(self).spec_channel_on(Channel::C3, true) == old(self).spec_channel_on(Channel::C3, true)),
            final(self).spec_duty(Channel::C0) == old(self).spec_duty(Channel::C0),
            final(self).spec_duty(Channel::C1) == old(self).spec_duty(Channel::C1),
            final(self).spec_duty(Channel::C2) == old(self).spec_duty(Channel::C2),
            final(self).spec_duty(Channel::C3) == old(self).spec_duty(Channel::C3),
            final(self).spec_max_duty() == old(self).spec_max_duty(),
            final(self).spec_polarity_inverted(Channel::C0, false) == old(self).spec_polarity_inverted(Channel::C0, false),
            final(self).spec_polarity_inverted(Channel::C0, true) == old(self).spec_polarity_inverted(Channel::C0, true),
            final(self).spec_polarity_inverted(Channel::C1, false) == old(self).spec_polarity_inverted(Channel::C1, false),
            final(self).spec_polarity_inverted(Channel::C1, true) == old(self).spec_polarity_inverted(Channel::C1, true),
            final(self).spec_polarity_inverted(Channel::C2, false) == old(self).spec_polarity_inverted(Channel::C2, false),
            final(self).spec_polarity_inverted(Channel::C2, true) == old(self).spec_polarity_inverted(Channel::C2, true),
            final(self).spec_polarity_inverted(Channel::C3, false) == old(self).spec_polarity_inverted(Channel::C3, false),
            final(self).spec_polarity_inverted(Channel::C3, true) == old(self).spec_polarity_inverted(Channel::C3, true),
    ;

    /// Returns the compare (duty) value of a channel.
    fn get_duty(&self, channel: Channel) -> (r: u16)
        ensures
            r == self.spec_duty(channel),
    ;

    /// Sets the compare (duty) value of a channel.
    fn set_duty(&mut self, channel: Channel, duty: u16)
        ensures
            final(self).spec_duty(channel) == duty,
            channel != Channel::C0 ==> final(self).spec_duty(Channel::C0) == old(self).spec_duty(Channel::C0),
            channel != Channel::C1 ==> final(self).spec_duty(Channel::C1) == old(self).spec_duty(Channel::C1),
            channel != Channel::C2 ==> final(self).spec_duty(Channel::C2) == old(self).spec_duty(Channel::C2),
            channel != Channel::C3 ==> final(self).spec_duty(Channel::C3) == old(self).spec_duty(Channel::C3),
            final(self).spec_max_duty() == old(self).spec_max_duty(),
            final(self).spec_channel_on(Channel::C0, false) == old(self).spec_channel_on(Channel::C0, false),
            final(self).spec_channel_on(Channel::C0, true) == old(self).spec_channel_on(Channel::C0, true),
            final(self).spec_channel_on(Channel::C1, false) == old(self).spec_channel_on(Channel::C1, false),
            final(self).spec_channel_on(Channel::C1, true) == old(self).spec_channel_on(Channel::C1, true),
            final(self).spec_channel_on(Channel::C2, false) == old(self).spec_channel_on(Channel::C2, false),
            final(self).spec_channel_on(Channel::C2, true) == old(self).spec_channel_on(Channel::C2, true),
            final(self).spec_channel_on(Channel::C3, false) == old(self).spec_channel_on(Channel::C3, false),
            final(self).spec_channel_on(Channel::C3, true) == old(self).spec_channel_on(Channel::C3, true),
            final(self).spec_polarity_inverted(Channel::C0, false) == old(self).spec_polarity_inverted(Channel::C0, false),
            final(self).spec_polarity_inverted(Channel::C0, true) == old(self).spec_polarity_inverted(Channel::C0, true),
            final(self).spec_polarity_inverted(Channel::C1, false) == old(self).spec_polarity_inverted(Channel::C1, false),
            final(self).spec_polarity_inverted(Channel::C1, true) == old(self).spec_polarity_inverted(Channel::C1, true),
            final(self).spec_polarity_inverted(Channel::C2, false) == old(self).spec_polarity_inverted(Channel::C2, false),
            final(self).spec_polarity_inverted(Channel::C2, true) == old(self).spec_polarity_inverted(Channel::C2, true),
            final(self).spec_polarity_inverted(Channel::C3, false) == old(self).spec_polarity_inverted(Channel::C3, false),
            final(self).spec_polarity_inverted(Channel::C3, true) == old(self).spec_polarity_inverted(Channel::C3, true),
    ;

    /// Returns the maximum duty value.
    fn get_max_duty(&self) -> (r: u16)
        ensures
            r == self.spec_max_duty(),
    ;

    /// Sets the polarity of one output of a channel. The fourth channel has
    /// no complementary output.
    fn set_polarity(&mut self, channel: Channel, complementary: bool, polarity: Polarity)
        requires
            complementary ==> has_complementary(channel),
        ensures
            final(self).spec_polarity_inverted(channel, complementary) == (polarity is Inverted),
            !(channel == Channel::C0 && complementary == false) ==> final(self).spec_polarity_inverted(Channel::C0, false) == old(self).spec_polarity_inverted(Channel::C0, false),
            !(channel == Channel::C0 && complementary == true) ==> final(self).spec_polarity_inverted(Channel::C0, true) == old(self).spec_polarity_inverted(Channel::C0, true),
            !(channel == Channel::C1 && complementary == false) ==> final(self).spec_polarity_inverted(Channel::C1, false) == old(self).spec_polarity_inverted(Channel::C1, false),
            !(channel == Channel::C1 && complementary == true) ==> final(self).spec_polarity_inverted(Channel::C1, true) == old(self).spec_polarity_inverted(Channel::C1, true),
            !(channel == Channel::C2 && complementary == false) ==> final(self).spec_polarity_inverted(Channel::C2, false) == old(self).spec_polarity_inverted(Channel::C2, false),
            !(channel == Channel::C2 && complementary == true) ==> final(self).spec_polarity_inverted(Channel::C2, true) == old(self).spec_polarity_inverted(Channel::C2, true),
            !(channel == Channel::C3 && complementary == false) ==> final(self).spec_polarity_inverted(Channel::C3, false) == old(self).spec_polarity_inverted(Channel::C3, false),
            !(channel == Channel::C3 && complementary == true) ==> final(self).spec_polarity_inverted(Channel::C3, true) == old(self).spec_polarity_inverted(Channel::C3, true),
            final(self).spec_duty(Channel::C0) == old(self).spec_duty(Channel::C0),
            final(self).spec_duty(Channel::C1) == old(self).spec_duty(Channel::C1),
            final(self).spec_duty(Channel::C2) == old(self).spec_duty(Channel::C2),
            final(self).spec_duty(Channel::C3) == old(self).spec_duty(Channel::C3),
            final(self).spec_max_duty() == old(self).spec_max_duty(),
            final(self).spec_channel_on(Channel::C0, false) == old(self).spec_channel_on(Channel::C0, false),
            final(self).spec_channel_on(Channel::C0, true) == old(self).spec_channel_on(Channel::C0, true),
            final(self).spec_channel_on(Channel::C1, false) == old(self).spec_channel_on(Channel::C1, false),
            final(self).spec_channel_on(Channel::C1, true) == old(self).spec_channel_on(Channel::C1, true),
            final(self).spec_channel_on(Channel::C2, false) == old(self).spec_channel_on(Channel::C2, false),
            final(self).spec_channel_on(Channel::C2, true) == old(self).spec_channel_on(Channel::C2, true),
            final(self).spec_channel_on(Channel::C3, false) == old(self).spec_channel_on(Channel::C3, false),
            final(self).spec_channel_on(Channel::C3, true) == old(self).spec_channel_on(Channel::C3, true),
    ;
}

/// Register access for the idle-state bits of timers that have them.
pub trait TimerIdleRegExt {
    /// The idle state of the given output of a channel is high.
    spec fn spec_idle_high(&self, channel: Channel, complementary: bool) -> bool;

    /// Sets the idle state of one output of a channel. The fourth channel
    /// has no complementary output.
    fn set_idle_state(&mut self, channel: Channel, complementary: bool, idle_state: IdleState)
        requires
            complementary ==> has_complementary(channel),
        ensures
            final(self).spec_idle_high(channel, complementary) == (idle_state is High),
            !(channel == Channel::C0 && complementary == false) ==> final(self).spec_idle_high(Channel::C0, false) == old(self).spec_idle_high(Channel::C0, false),
            !(channel == Channel::C0 && complementary == true) ==> final(self).spec_idle_high(Channel::C0, true) == old(self).spec_idle_high(Channel::C0, true),
            !(channel == Channel::C1 && complementary == false) ==> final(self).spec_idle_high(Channel::C1, false) == old(self).spec_idle_high(Channel::C1, false),
            !(channel == Channel::C1 && complementary == true) ==> final(self).spec_idle_high(Channel::C1, true) == old(self).spec_idle_high(Channel::C1, true),
            !(channel == Channel::C2 && complementary == false) ==> final(self).spec_idle_high(Channel::C2, false) == old(self).spec_idle_high(Channel::C2, false),
            !(channel == Channel::C2 && complementary == true) ==> final(self).spec_idle_high(Channel::C2, true) == old(self).spec_idle_high(Channel::C2, true),
            !(channel == Channel::C3 && complementary == false) ==> final(self).spec_idle_high(Channel::C3, false) == old(self).spec_idle_high(Channel::C3, false),
            !(channel == Channel::C3 && complementary == true) ==> final(self).spec_idle_high(Channel::C3, true) == old(self).spec_idle_high(Channel::C3, true),
    ;
}


/// The duty values of every channel agree between `a` and `b`.
pub open spec fn same_duties<T: TimerRegExt + ?Sized>(a: &T, b: &T) -> bool {
    &&& b.spec_duty(Channel::C0) == a.spec_duty(Channel::C0)
    &&& b.spec_duty(Channel::C1) == a.spec_duty(Channel::C1)
    &&& b.spec_duty(Channel::C2) == a.spec_duty(Channel::C2)
    &&& b.spec_duty(Channel::C3) == a.spec_duty(Channel::C3)
}

/// The output enables of every channel agree between `a` and `b`.
pub open spec fn same_enables<T: TimerRegExt + ?Sized>(a: &T, b: &T) -> bool {
    &&& b.spec_channel_on(Channel::C0, false) == a.spec_channel_on(Channel::C0, false)
    &&& b.spec_channel_on(Channel::C0, true) == a.spec_channel_on(Channel::C0, true)
    &&& b.spec_channel_on(Channel::C1, false) == a.spec_channel_on(Channel::C1, false)
    &&& b.spec_channel_on(Channel::C1, true) == a.spec_channel_on(Channel::C1, true)
    &&& b.spec_channel_on(Channel::C2, false) == a.spec_channel_on(Channel::C2, false)
    &&& b.spec_channel_on(Channel::C2, true) == a.spec_channel_on(Channel::C2, true)
    &&& b.spec_channel_on(Channel::C3, false) == a.spec_channel_on(Channel::C3, false)
    &&& b.spec_channel_on(Channel::C3, true) == a.spec_channel_on(Channel::C3, true)
}



/// The output polarities agree between `a` and `b` on every output but the
/// named one.
pub open spec fn polarities_unchanged_except<T: TimerRegExt + ?Sized>(
    a: &T,
    b: &T,
    channel: Channel,
    complementary: bool,
) -> bool {
    &&& !(channel == Channel::C0 && complementary == false) ==> b.spec_polarity_inverted(Channel::C0, false) == a.spec_polarity_inverted(Channel::C0, false)
    &&& !(channel == Channel::C0 && complementary == true) ==> b.spec_polarity_inverted(Channel::C0, true) == a.spec_polarity_inverted(Channel::C0, true)
    &&& !(channel == Channel::C1 && complementary == false) ==> b.spec_polarity_inverted(Channel::C1, false) == a.spec_polarity_inverted(Channel::C1, false)
    &&& !(channel == Channel::C1 && complementary == true) ==> b.spec_polarity_inverted(Channel::C1, true) == a.spec_polarity_inverted(Channel::C1, true)
    &&& !(channel == Channel::C2 && complementary == false) ==> b.spec_polarity_inverted(Channel::C2, false) == a.spec_polarity_inverted(Channel::C2, false)
    &&& !(channel == Channel::C2 && complementary == true) ==> b.spec_polarity_inverted(Channel::C2, true) == a.spec_polarity_inverted(Channel::C2, true)
    &&& !(channel == Channel::C3 && complementary == false) ==> b.spec_polarity_inverted(Channel::C3, false) == a.spec_polarity_inverted(Channel::C3, false)
    &&& !(channel == Channel::C3 && complementary == true) ==> b.spec_polarity_inverted(Channel::C3, true) == a.spec_polarity_inverted(Channel::C3, true)
}

/// The idle states agree between `a` and `b` on every output but the named
/// one.
pub open spec fn idles_unchanged_except<T: TimerIdleRegExt + ?Sized>(
    a: &T,
    b: &T,
    channel: Channel,
    complementary: bool,
) -> bool {
    &&& !(channel == Channel::C0 && complementary == false) ==> b.spec_idle_high(Channel::C0, false) == a.spec_idle_high(Channel::C0, false)
    &&& !(channel == Channel::C0 && complementary == true) ==> b.spec_idle_high(Channel::C0, true) == a.spec_idle_high(Channel::C0, true)
    &&& !(channel == Channel::C1 && complementary == false) ==> b.spec_idle_high(Channel::C1, false) == a.spec_idle_high(Channel::C1, false)
    &&& !(channel == Channel::C1 && complementary == true) ==> b.spec_idle_high(Channel::C1, true) == a.spec_idle_high(Channel::C1, true)
    &&& !(channel == Channel::C2 && complementary == false) ==> b.spec_idle_high(Channel::C2, false) == a.spec_idle_high(Channel::C2, false)
    &&& !(channel == Channel::C2 && complementary == true) ==> b.spec_idle_high(Channel::C2, true) == a.spec_idle_high(Channel::C2, true)
    &&& !(channel == Channel::C3 && complementary == false) ==> b.spec_idle_high(Channel::C3, false) == a.spec_idle_high(Channel::C3, false)
    &&& !(channel == Channel::C3 && complementary == true) ==> b.spec_idle_high(Channel::C3, true) == a.spec_idle_high(Channel::C3, true)
}


impl TimerRegExt for TimerBlock {
    open spec fn spec_duty(&self, channel: Channel) -> u16 {
        match channel {
            Channel::C0 => self.ch0.cv,
            Channel::C1 => self.ch1.cv,
            Channel::C2 => self.ch2.cv,
            Channel::C3 => self.ch3.cv,
        }
    }

    open spec fn spec_max_duty(&self) -> u16 {
        self.car
    }

    open spec fn spec_channel_on(&self, channel: Channel, complementary: bool) -> bool {
        if complementary {
            match channel {
                Channel::C0 => self.ch0.nen,
                Channel::C1 => self.ch1.nen,
                Channel::C2 => self.ch2.nen,
                Channel::C3 => false,
            }
        } else {
            match channel {
                Channel::C0 => self.ch0.en,
                Channel::C1 => self.ch1.en,
                Channel::C2 => self.ch2.en,
                Channel::C3 => self.ch3.en,
            }
        }
    }

    open spec fn spec_polarity_inverted(&self, channel: Channel, complementary: bool) -> bool {
        if complementary {
            match channel {
                Channel::C0 => self.ch0.np_inverted,
                Channel::C1 => self.ch1.np_inverted,
                Channel::C2 => self.ch2.np_inverted,
                Channel::C3 => false,
            }
        } else {
            match channel {
                Channel::C0 => self.ch0.p_inverted,
                Channel::C1 => self.ch1.p_inverted,
                Channel::C2 => self.ch2.p_inverted,
                Channel::C3 => self.ch3.p_inverted,
            }
        }
    }

    #[verifier::rlimit(100)]
    fn disable_channel(&mut self, channel: Channel, uses_complementary: bool) {
        match channel {
            Channel::C0 => {
                let nen = if uses_complementary { false } else { self.ch0.nen };
                self.ch0 = ChannelRegs { en: false, nen, ..self.ch0 };
            },
            Channel::C1 => {
                let nen = if uses_complementary { false } else { self.ch1.nen };
                self.ch1 = ChannelRegs { en: false, nen, ..self.ch1 };
            },
            Channel::C2 => {
                let nen = if uses_complementary { false } else { self.ch2.nen };
                self.ch2 = ChannelRegs { en: false, nen, ..self.ch2 };
            },
            Channel::C3 => {
                self.ch3 = ChannelRegs { en: false, ..self.ch3 };
            },
        }
    }

    #[verifier::rlimit(100)]
    fn enable_channel(&mut self, channel: Channel, uses_complementary: bool) {
        match channel {
            Channel::C0 => {
                let nen = if uses_complementary { true } else { self.ch0.nen };
                self.ch0 = ChannelRegs { en: true, nen, ..self.ch0 };
            },
            Channel::C1 => {
                let nen = if uses_complementary { true } else { self.ch1.nen };
                self.ch1 = ChannelRegs { en: true, nen, ..self.ch1 };
            },
            Channel::C2 => {
                let nen = if uses_complementary { true } else { self.ch2.nen };
                self.ch2 = ChannelRegs { en: true, nen, ..self.ch2 };
            },
            Channel::C3 => {
                self.ch3 = ChannelRegs { en: true, ..self.ch3 };
            },
        }
    }

    fn get_duty(&self, channel: Channel) -> (r: u16) {
        match channel {
            Channel::C0 => self.ch0.cv,
            Channel::C1 => self.ch1.cv,
            Channel::C2 => self.ch2.cv,
            Channel::C3 => self.ch3.cv,
        }
    }

    #[verifier::rlimit(100)]
    fn set_duty(&mut self, channel: Channel, duty: u16) {
        match channel {
            Channel::C0 => self.ch0 = ChannelRegs { cv: duty, ..self.ch0 },
            Channel::C1 => self.ch1 = ChannelRegs { cv: duty, ..self.ch1 },
            Channel::C2 => self.ch2 = ChannelRegs { cv: duty, ..self.ch2 },
            Channel::C3 => self.ch3 = ChannelRegs { cv: duty, ..self.ch3 },
        }
    }

    fn get_max_duty(&self) -> (r: u16) {
        self.car
    }

    #[verifier::rlimit(100)]
    fn set_polarity(&mut self, channel: Channel, complementary: bool, polarity: Polarity) {
        let inverted = match polarity {
            Polarity::NotInverted => false,
            Polarity::Inverted => true,
        };
        if complementary {
            match channel {
                Channel::C0 => self.ch0 = ChannelRegs { np_inverted: inverted, ..self.ch0 },
                Channel::C1 => self.ch1 = ChannelRegs { np_inverted: inverted, ..self.ch1 },
                Channel::C2 => self.ch2 = ChannelRegs { np_inverted: inverted, ..self.ch2 },
                Channel::C3 => {},
            }
        } else {
            match channel {
                Channel::C0 => self.ch0 = ChannelRegs { p_inverted: inverted, ..self.ch0 },
                Channel::C1 => self.ch1 = ChannelRegs { p_inverted: inverted, ..self.ch1 },
                Channel::C2 => self.ch2 = ChannelRegs { p_inverted: inverted, ..self.ch2 },
                Channel::C3 => self.ch3 = ChannelRegs { p_inverted: inverted, ..self.ch3 },
            }
        }
    }
}

impl TimerIdleRegExt for TimerBlock {
    open spec fn spec_idle_high(&self, channel: Channel, complementary: bool) -> bool {
        if complementary {
            match channel {
                Channel::C0 => self.ch0.ison_high,
                Channel::C1 => self.ch1.ison_high,
                Channel::C2 => self.ch2.ison_high,
                Channel::C3 => false,
            }
        } else {
            match channel {
                Channel::C0 => self.ch0.iso_high,
                Channel::C1 => self.ch1.iso_high,
                Channel::C2 => self.ch2.iso_high,
                Channel::C3 => self.ch3.iso_high,
            }
        }
    }

    #[verifier::rlimit(100)]
    fn set_idle_state(&mut self, channel: Channel, complementary: bool, idle_state: IdleState) {
        let high = match idle_state {
            IdleState::Low => false,
            IdleState::High => true,
        };
        if complementary {
            match channel {
                Channel::C0 => self.ch0 = ChannelRegs { ison_high: high, ..self.ch0 },
                Channel::C1 => self.ch1 = ChannelRegs { ison_high: high, ..self.ch1 },
                Channel::C2 => self.ch2 = ChannelRegs { ison_high: high, ..self.ch2 },
                Channel::C3 => {},
            }
        } else {
            match channel {
                Channel::C0 => self.ch0 = ChannelRegs { iso_high: high, ..self.ch0 },
                Channel::C1 => self.ch1 = ChannelRegs { iso_high: high, ..self.ch1 },
                Channel::C2 => self.ch2 = ChannelRegs { iso_high: high, ..self.ch2 },
                Channel::C3 => self.ch3 = ChannelRegs { iso_high: high, ..self.ch3 },
            }
        }
    }
}

/// Marker for the first compare channel.
pub struct Ch0;

/// Marker for the second compare channel.
pub struct Ch1;

/// Marker for the third compare channel.
pub struct Ch2;

/// Marker for the fourth compare channel.
pub struct Ch3;

/// Marker trait: the pin can drive the given channel of the given timer.
pub trait Pin<TIMER, CHANNEL> {

}

/// Marker trait: the pin can drive the complementary output of the given
/// channel of the given timer.
pub trait ComplementaryPin<TIMER, CHANNEL> {

}

impl Pin<TimerBlock, Ch0> for GpioPin<Alternate<PushPull>> {

}

impl Pin<TimerBlock, Ch1> for GpioPin<Alternate<PushPull>> {

}

impl Pin<TimerBlock, Ch2> for GpioPin<Alternate<PushPull>> {

}

impl Pin<TimerBlock, Ch3> for GpioPin<Alternate<PushPull>> {

}

impl ComplementaryPin<TimerBlock, Ch0> for GpioPin<Alternate<PushPull>> {

}

impl ComplementaryPin<TimerBlock, Ch1> for GpioPin<Alternate<PushPull>> {

}

impl ComplementaryPin<TimerBlock, Ch2> for GpioPin<Alternate<PushPull>> {

}

/// A set of pins that drives some of a timer's channels.
pub trait Pins<TIMER> {
    /// The set drives the main output of the channel.
    spec fn spec_uses_channel(&self, channel: Channel) -> bool;

    /// The set drives the complementary output of the channel.
    spec fn spec_uses_complementary_channel(&self, channel: Channel) -> bool;

    /// The set drives the main output of the channel.
    fn uses_channel(&self, channel: Channel) -> (r: bool)
        ensures
            r == self.spec_uses_channel(channel),
    ;

    /// The set drives the complementary output of the channel.
    fn uses_complementary_channel(&self, channel: Channel) -> (r: bool)
        ensures
            r == self.spec_uses_complementary_channel(channel),
    ;
}

/// Marker trait for pin sets that include complementary outputs.
pub trait ComplementaryPins {

}

impl<P0, P1, P2, P3, TIMER> Pins<TIMER> for (Option<P0>, Option<P1>, Option<P2>, Option<
    P3,
>) where P0: Pin<TIMER, Ch0>, P1: Pin<TIMER, Ch1>, P2: Pin<TIMER, Ch2>, P3: Pin<TIMER, Ch3> {
    open spec fn spec_uses_channel(&self, channel: Channel) -> bool {
        match channel {
            Channel::C0 => self.0 is Some,
            Channel::C1 => self.1 is Some,
            Channel::C2 => self.2 is Some,
            Channel::C3 => self.3 is Some,
        }
    }

    open spec fn spec_uses_complementary_channel(&self, channel: Channel) -> bool {
        false
    }

    fn uses_channel(&self, channel: Channel) -> (r: bool) {
        match channel {
            Channel::C0 => self.0.is_some(),
            Channel::C1 => self.1.is_some(),
            Channel::C2 => self.2.is_some(),
            Channel::C3 => self.3.is_some(),
        }
    }

    fn uses_complementary_channel(&self, channel: Channel) -> (r: bool) {
        false
    }
}

impl<P0, P0N, P1, P1N, P2, P2N, TIMER> Pins<TIMER> for (
    Option<(P0, P0N)>,
    Option<(P1, P1N)>,
    Option<(P2, P2N)>,
) where
    P0: Pin<TIMER, Ch0>,
    P1: Pin<TIMER, Ch1>,
    P2: Pin<TIMER, Ch2>,
    P0N: ComplementaryPin<TIMER, Ch0>,
    P1N: ComplementaryPin<TIMER, Ch1>,
    P2N: ComplementaryPin<TIMER, Ch2>,
 {
    open spec fn spec_uses_channel(&self, channel: Channel) -> bool {
        match channel {
            Channel::C0 => self.0 is Some,
            Channel::C1 => self.1 is Some,
            Channel::C2 => self.2 is Some,
            Channel::C3 => false,
        }
    }

    open spec fn spec_uses_complementary_channel(&self, channel: Channel) -> bool {
        self.spec_uses_channel(channel)
    }

    fn uses_channel(&self, channel: Channel) -> (r: bool) {
        match channel {
            Channel::C0 => self.0.is_some(),
            Channel::C1 => self.1.is_some(),
            Channel::C2 => self.2.is_some(),
            Channel::C3 => false,
        }
    }

    fn uses_complementary_channel(&self, channel: Channel) -> (r: bool) {
        self.uses_channel(channel)
    }
}

impl<P0, P0N, P1, P1N, P2, P2N> ComplementaryPins for (
    Option<(P0, P0N)>,
    Option<(P1, P1N)>,
    Option<(P2, P2N)>,
) {

}

/// A timer running as a PWM generator over a set of pins.
pub struct Pwm<TIMER, PINS> {
    /// The timer's input clock frequency.
    pub clock: Hertz,
    /// The owned pins.
    pub pins: PINS,
    /// The owned timer registers.
    pub timer: TIMER,
}

impl<TIMER: TimerIdleRegExt, PINS: Pins<TIMER>> Pwm<TIMER, PINS> {
    /// Configures the state the output of the given channel takes while the
    /// channel is idle. The channel must be one this PWM's pins drive.
    pub fn set_idle_state(&mut self, channel: Channel, idle_state: IdleState)
        requires
            old(self).pins.spec_uses_channel(channel),
        ensures
            final(self).timer.spec_idle_high(channel, false) == (idle_state is High),
            idles_unchanged_except(&old(self).timer, &final(self).timer, channel, false),
            final(self).pins == old(self).pins,
            final(self).clock == old(self).clock,
    {
        self.timer.set_idle_state(channel, false, idle_state);
    }
}

impl<TIMER: TimerIdleRegExt, PINS: Pins<TIMER> + ComplementaryPins> Pwm<TIMER, PINS> {
    /// Configures the state the complementary output of the given channel
    /// takes while the channel is idle. The channel must be one this PWM's
    /// pins drive on its complementary output.
    pub fn set_complementary_idle_state(&mut self, channel: Channel, idle_state: IdleState)
        requires
            old(self).pins.spec_uses_complementary_channel(channel),
            has_complementary(channel),
        ensures
            final(self).timer.spec_idle_high(channel, true) == (idle_state is High),
            idles_unchanged_except(&old(self).timer, &final(self).timer, channel, true),
            final(self).pins == old(self).pins,
            final(self).clock == old(self).clock,
    {
        self.timer.set_idle_state(channel, true, idle_state);
    }
}

impl<TIMER: TimerRegExt, PINS: Pins<TIMER>> Pwm<TIMER, PINS> {
    /// Configures the polarity of the output for the given channel. The
    /// channel must be one this PWM's pins drive.
    pub fn set_polarity(&mut self, channel: Channel, polarity: Polarity)
        requires
            old(self).pins.spec_uses_channel(channel),
        ensures
            final(self).timer.spec_polarity_inverted(channel, false) == (polarity is Inverted),
            polarities_unchanged_except(&old(self).timer, &final(self).timer, channel, false),
            same_duties(&old(self).timer, &final(self).timer),
            final(self).timer.spec_max_duty() == old(self).timer.spec_max_duty(),
            same_enables(&old(self).timer, &final(self).timer),
            final(self).pins == old(self).pins,
            final(self).clock == old(self).clock,
    {
        self.timer.set_polarity(channel, false, polarity);
    }
}

impl<TIMER: TimerRegExt, PINS: Pins<TIMER> + ComplementaryPins> Pwm<TIMER, PINS> {
    /// Configures the polarity of the complementary output for the given
    /// channel. The channel must be one this PWM's pins drive.
    pub fn set_complementary_polarity(&mut self, channel: Channel, polarity: Polarity)
        requires
            old(self).pins.spec_uses_channel(channel),
            has_complementary(channel),
        ensures
            final(self).timer.spec_polarity_inverted(channel, true) == (polarity is Inverted),
            polarities_unchanged_except(&old(self).timer, &final(self).timer, channel, true),
            same_duties(&old(self).timer, &final(self).timer),
            final(self).timer.spec_max_duty() == old(self).timer.spec_max_duty(),
            same_enables(&old(self).timer, &final(self).timer),
            final(self).pins == old(self).pins,
            final(self).clock == old(self).clock,
    {
        self.timer.set_polarity(channel, true, polarity);
    }
}

/// The dead-time register encoding of a requested dead time: a direct count
/// up to 127, then coarser steps with the range selected by the top bits.
pub open spec fn spec_dead_time_config(dead_time: u16) -> int {
    if dead_time < 128 {
        dead_time as int
    } else if dead_time < 256 {
        0b1000_0000 + (dead_time as int / 2 - 64)
    } else if dead_time < 512 {
        0b1100_0000 + (dead_time as int / 8 - 32)
    } else {
        0b1110_0000 + (dead_time as int / 16 - 32)
    }
}

impl<PINS: Pins<TimerBlock>> Pwm<TimerBlock, PINS> {
    /// Configures the given break mode.
    #[verifier::rlimit(100)]
    pub fn break_enable(&mut self, break_mode: BreakMode)
        ensures
            final(self).timer.cchp.brken == !(break_mode is Disabled),
            break_mode is ActiveLow ==> final(self).timer.cchp.brkp_inverted,
            break_mode is ActiveHigh ==> !final(self).timer.cchp.brkp_inverted,
            break_mode is Disabled ==> final(self).timer.cchp.brkp_inverted == old(
                self,
            ).timer.cchp.brkp_inverted,
            final(self).timer == (TimerBlock {
                cchp: final(self).timer.cchp,
                ..old(self).timer
            }),
            final(self).timer.cchp == (BreakRegs {
                brken: final(self).timer.cchp.brken,
                brkp_inverted: final(self).timer.cchp.brkp_inverted,
                ..old(self).timer.cchp
            }),
            final(self).pins == old(self).pins,
            final(self).clock == old(self).clock,
    {
        match break_mode {
            BreakMode::Disabled => {
                self.timer.cchp = BreakRegs { brken: false, ..self.timer.cchp };
            },
            BreakMode::ActiveLow => {
                self.timer.cchp = BreakRegs {
                    brken: true,
                    brkp_inverted: true,
                    ..self.timer.cchp
                };
            },
            BreakMode::ActiveHigh => {
                self.timer.cchp = BreakRegs {
                    brken: true,
                    brkp_inverted: false,
                    ..self.timer.cchp
                };
            },
        }
    }

    /// Configures the dead time inserted between the main and complementary
    /// outputs. Dead times of 1024 ticks or more cannot be encoded.
    #[verifier::rlimit(100)]
    pub fn set_dead_time(&mut self, dead_time: u16)
        requires
            dead_time < 1024,
        ensures
            final(self).timer.cchp.dtcfg == spec_dead_time_config(dead_time),
            final(self).timer == (TimerBlock {
                cchp: final(self).timer.cchp,
                ..old(self).timer
            }),
            final(self).timer.cchp == (BreakRegs {
                dtcfg: final(self).timer.cchp.dtcfg,
                ..old(self).timer.cchp
            }),
            final(self).pins == old(self).pins,
            final(self).clock == old(self).clock,
    {
        let dtcfg: u8 = if dead_time < 128 {
            dead_time as u8
        } else if dead_time < 256 {
            0b1000_0000u8 + (dead_time / 2 - 64) as u8
        } else if dead_time < 512 {
            0b1100_0000u8 + (dead_time / 8 - 32) as u8
        } else {
            0b1110_0000u8 + (dead_time / 16 - 32) as u8
        };
        self.timer.cchp = BreakRegs { dtcfg, ..self.timer.cchp };
    }
}

impl crate::timer::Timer<TimerBlock> {
    /// Configures the timer as a PWM generator on the given pins at the
    /// given update frequency: enables PWM compare mode on every channel the
    /// pins drive, programs the prescaler and reload registers, arms
    /// automatic output enable, and starts the counter edge-aligned counting
    /// up.
    pub fn pwm<PINS: Pins<TimerBlock>>(self, pins: PINS, freq: Hertz) -> (r: Pwm<
        TimerBlock,
        PINS,
    >)
        requires
            prescaler_reload_fits(freq, self.clock),
        ensures
            r.clock == self.clock,
            r.pins == pins,
            r.timer.ch0.pwm_mode == pins.spec_uses_channel(Channel::C0) || self.timer.ch0.pwm_mode
                == r.timer.ch0.pwm_mode,
            pins.spec_uses_channel(Channel::C0) ==> r.timer.ch0.pwm_mode,
            pins.spec_uses_channel(Channel::C1) ==> r.timer.ch1.pwm_mode,
            pins.spec_uses_channel(Channel::C2) ==> r.timer.ch2.pwm_mode,
            pins.spec_uses_channel(Channel::C3) ==> r.timer.ch3.pwm_mode,
            r.timer.psc == spec_prescaler(freq, self.clock),
            r.timer.car == spec_reload(freq, self.clock),
            r.timer.cnt == 0,
            r.timer.cen,
            r.timer.cchp.oaen,
            !r.timer.cchp.prot,
    {
        let mut timer = self.timer;
        timer.cchp.oaen = true;
        timer.cchp.prot = false;
        if pins.uses_channel(Channel::C0) {
            timer.ch0.pwm_mode = true;
        }
        if pins.uses_channel(Channel::C1) {
            timer.ch1.pwm_mode = true;
        }
        if pins.uses_channel(Channel::C2) {
            timer.ch2.pwm_mode = true;
        }
        if pins.uses_channel(Channel::C3) {
            timer.ch3.pwm_mode = true;
        }
        let (psc, car) = compute_prescaler_reload(freq, self.clock);
        timer.psc = psc;
        timer.car = car;
        timer.cnt = 0;
        timer.cen = true;
        Pwm { clock: self.clock, pins, timer }
    }
}

/// A single channel of a PWM peripheral, split out with ownership of its
/// channel registers and its pin.
pub struct PwmChannel<PIN> {
    /// Which channel this is.
    pub channel: Channel,
    /// The channel's registers.
    pub regs: ChannelRegs,
    /// The maximum duty value the timer was configured with.
    pub max_duty: u16,
    /// The owned pin.
    pub pin: PIN,
}

/// A single channel of a PWM peripheral, including a complementary output.
pub struct PwmChannelComplementary<PIN> {
    /// The underlying channel.
    pub pwm_channel: PwmChannel<PIN>,
}

impl<PIN> PwmChannel<PIN> {
    /// Disables the channel output.
    pub fn disable(&mut self)
        ensures
            final(self).regs == (ChannelRegs { en: false, ..old(self).regs }),
            final(self).channel == old(self).channel,
            final(self).max_duty == old(self).max_duty,
            final(self).pin == old(self).pin,
    {
        self.regs.en = false;
    }

    /// Enables the channel output.
    pub fn enable(&mut self)
        ensures
            final(self).regs == (ChannelRegs { en: true, ..old(self).regs }),
            final(self).channel == old(self).channel,
            final(self).max_duty == old(self).max_duty,
            final(self).pin == old(self).pin,
    {
        self.regs.en = true;
    }

    /// Returns the channel's compare (duty) value.
    pub fn get_duty(&self) -> (r: u16)
        ensures
            r == self.regs.cv,
    {
        self.regs.cv
    }

    /// Returns the maximum duty value.
    pub fn get_max_duty(&self) -> (r: u16)
        ensures
            r == self.max_duty,
    {
        self.max_duty
    }

    /// Sets the channel's compare (duty) value.
    pub fn set_duty(&mut self, duty: u16)
        ensures
            final(self).regs == (ChannelRegs { cv: duty, ..old(self).regs }),
            final(self).channel == old(self).channel,
            final(self).max_duty == old(self).max_duty,
            final(self).pin == old(self).pin,
    {
        self.regs.cv = duty;
    }
}

impl<PIN> PwmChannelComplementary<PIN> {
    /// Disables both the main and the complementary output.
    pub fn disable(&mut self)
        ensures
            final(self).pwm_channel.regs == (ChannelRegs {
                en: false,
                nen: false,
                ..old(self).pwm_channel.regs
            }),
            final(self).pwm_channel.channel == old(self).pwm_channel.channel,
            final(self).pwm_channel.max_duty == old(self).pwm_channel.max_duty,
            final(self).pwm_channel.pin == old(self).pwm_channel.pin,
    {
        self.pwm_channel.regs.en = false;
        self.pwm_channel.regs.nen = false;
    }

    /// Enables both the main and the complementary output.
    pub fn enable(&mut self)
        ensures
            final(self).pwm_channel.regs == (ChannelRegs {
                en: true,
                nen: true,
                ..old(self).pwm_channel.regs
            }),
            final(self).pwm_channel.channel == old(self).pwm_channel.channel,
            final(self).pwm_channel.max_duty == old(self).pwm_channel.max_duty,
            final(self).pwm_channel.pin == old(self).pwm_channel.pin,
    {
        self.pwm_channel.regs.en = true;
        self.pwm_channel.regs.nen = true;
    }

    /// Returns the channel's compare (duty) value.
    pub fn get_duty(&self) -> (r: u16)
        ensures
            r == self.pwm_channel.regs.cv,
    {
        self.pwm_channel.get_duty()
    }

    /// Returns the maximum duty value.
    pub fn get_max_duty(&self) -> (r: u16)
        ensures
            r == self.pwm_channel.max_duty,
    {
        self.pwm_channel.get_max_duty()
    }

    /// Sets the channel's compare (duty) value.
    pub fn set_duty(&mut self, duty: u16)
        ensures
            final(self).pwm_channel.regs == (ChannelRegs {
                cv: duty,
                ..old(self).pwm_channel.regs
            }),
            final(self).pwm_channel.channel == old(self).pwm_channel.channel,
            final(self).pwm_channel.max_duty == old(self).pwm_channel.max_duty,
            final(self).pwm_channel.pin == old(self).pwm_channel.pin,
    {
        self.pwm_channel.set_duty(duty)
    }
}

} // verus!
