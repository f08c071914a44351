//! Board wiring: the D5 LED of the LoRa-E5 board, and the RF switch of the
//! NUCLEO-WL55JC board.

use vstd::prelude::*;

verus! {

/// Logic level of a digital output.
#[derive(Clone, Copy, Debug, PartialEq, Eq, Hash, Structural)]
pub enum Level {
    /// Driven low.
    Low,
    /// Driven high.
    High,
}

impl Level {
    /// The other level.
    pub open spec fn spec_toggle(self) -> Level {
        match self {
            Level::Low => Level::High,
            Level::High => Level::Low,
        }
    }

    /// The other level.
    #[verifier::when_used_as_spec(spec_toggle)]
    pub fn toggle(self) -> (r: Level)
        ensures
            r == self.spec_toggle(),
    {
        match self {
            Level::Low => Level::High,
            Level::High => Level::Low,
        }
    }
}

/// A push-pull digital output, implemented once per platform.
pub trait OutputPin {
    /// Drives the pin to `level`.
    fn set_level(&mut self, level: Level);
}

/// The D5 LED, which lights when its pin is driven low.
pub struct D5<P: OutputPin> {
    gpio: P,
    level: Level,
    driven: Ghost<Seq<Level>>,
}

impl<P: OutputPin> D5<P> {
    /// Every level driven on the LED's pin, oldest first.
    pub closed spec fn driven(&self) -> Seq<Level> {
        self.driven@
    }

    /// The level last driven on the LED's pin.
    pub closed spec fn level(&self) -> Level {
        self.level
    }

    /// Drives the pin, and records the level.
    fn drive(&mut self, level: Level)
        ensures
            final(self).driven@ == old(self).driven@.push(level),
            final(self).level == level,
    {
        self.gpio.set_level(level);
        self.level = level;
        proof {
            self.driven@ = self.driven@.push(level);
        }
    }

    /// Takes the LED's pin and turns the LED off.
    pub fn new(b5: P) -> (r: D5<P>)
        ensures
            r.driven() == seq![Level::High],
            r.level() == Level::High,
    {
        let mut r = D5 { gpio: b5, level: Level::High, driven: Ghost(Seq::empty()) };
        r.drive(Level::High);
        proof {
            assert(r.driven@ =~= seq![Level::High]);
        }
        r
    }

    /// Gives the pin back.
    pub fn free(self) -> P {
        self.gpio
    }

    /// Turns the LED on.
    pub fn set_on(&mut self)
        ensures
            final(self).driven() == old(self).driven().push(Level::Low),
            final(self).level() == Level::Low,
    {
        self.drive(Level::Low);
    }

    /// Turns the LED off.
    pub fn set_off(&mut self)
        ensures
            final(self).driven() == old(self).driven().push(Level::High),
            final(self).level() == Level::High,
    {
        self.drive(Level::High);
    }

    /// Turns the LED on if it was off, and off if it was on.
    pub fn toggle(&mut self)
        ensures
            final(self).driven() == old(self).driven().push(old(self).level().spec_toggle()),
            final(self).level() == old(self).level().spec_toggle(),
    {
        let next: Level = self.level.toggle();
        self.drive(next);
    }
}

/// The RF switch, set by three control lines.
pub struct RfSwitch<C1: OutputPin, C2: OutputPin, C3: OutputPin> {
    fe_ctrl1: C1,
    fe_ctrl2: C2,
    fe_ctrl3: C3,
    driven: Ghost<Seq<(u8, Level)>>,
}

impl<C1: OutputPin, C2: OutputPin, C3: OutputPin> RfSwitch<C1, C2, C3> {
    /// Every level driven, as (control line, level), oldest first.
    pub closed spec fn driven(&self) -> Seq<(u8, Level)> {
        self.driven@
    }

    /// Drives control line 1, and records it.
    fn drive1(&mut self, level: Level)
        ensures
            final(self).driven@ == old(self).driven@.push((1u8, level)),
    {
        self.fe_ctrl1.set_level(level);
        proof {
            self.driven@ = self.driven@.push((1u8, level));
        }
    }

    /// Drives control line 2, and records it.
    fn drive2(&mut self, level: Level)
        ensures
            final(self).driven@ == old(self).driven@.push((2u8, level)),
    {
        self.fe_ctrl2.set_level(level);
        proof {
            self.driven@ = self.driven@.push((2u8, level));
        }
    }

    /// Drives control line 3, and records it.
    fn drive3(&mut self, level: Level)
        ensures
            final(self).driven@ == old(self).driven@.push((3u8, level)),
    {
        self.fe_ctrl3.set_level(level);
        proof {
            self.driven@ = self.driven@.push((3u8, level));
        }
    }

    /// Takes the three control lines (pins C3, C4 and C5 drive lines 3, 1
    /// and 2) and drives them all high.
    pub fn new(c3: C3, c4: C1, c5: C2) -> (r: RfSwitch<C1, C2, C3>)
        ensures
            r.driven() == seq![(1u8, Level::High), (2u8, Level::High), (3u8, Level::High)],
    {
        let mut r = RfSwitch { fe_ctrl1: c4, fe_ctrl2: c5, fe_ctrl3: c3, driven: Ghost(Seq::empty()) };
        r.drive1(Level::High);
        r.drive2(Level::High);
        r.drive3(Level::High);
        proof {
            assert(r.driven@ =~= seq![(1u8, Level::High), (2u8, Level::High), (3u8, Level::High)]);
        }
        r
    }

    /// Routes the antenna to the receiver: lines 1, 2, 3 high, low, high.
    pub fn set_rx(&mut self)
        ensures
            final(self).driven() == old(self).driven() + seq![(1u8, Level::High), (2u8, Level::Low), (3u8, Level::High)],
    {
        self.drive1(Level::High);
        self.drive2(Level::Low);
        self.drive3(Level::High);
        proof {
            assert(self.driven@ =~= old(self).driven@ + seq![(1u8, Level::High), (2u8, Level::Low), (3u8, Level::High)]);
        }
    }

    /// Routes the antenna to the low power transmitter: all lines high.
    pub fn set_tx_lp(&mut self)
        ensures
            final(self).driven() == old(self).driven() + seq![(1u8, Level::High), (2u8, Level::High), (3u8, Level::High)],
    {
        self.drive1(Level::High);
        self.drive2(Level::High);
        self.drive3(Level::High);
        proof {
            assert(self.driven@ =~= old(self).driven@ + seq![(1u8, Level::High), (2u8, Level::High), (3u8, Level::High)]);
        }
    }

    /// Routes the antenna to the high power transmitter: line 2 high, line 1
    /// low, line 3 high.
    pub fn set_tx_hp(&mut self)
        ensures
            final(self).driven() == old(self).driven() + seq![(2u8, Level::High), (1u8, Level::Low), (3u8, Level::High)],
    {
        self.drive2(Level::High);
        self.drive1(Level::Low);
        self.drive3(Level::High);
        proof {
            assert(self.driven@ =~= old(self).driven@ + seq![(2u8, Level::High), (1u8, Level::Low), (3u8, Level::High)]);
        }
    }
}

} // verus!
