use vstd::prelude::*;
use crate::blink::{Blinker, PinLevel, Tick};

verus! {

/// The whole device: either blinking, or halted for good after a fault with
/// the pin left at the level it had.
#[derive(Clone, Copy, Debug, PartialEq, Eq, Structural)]
pub enum Firmware {
    Running(Blinker),
    Halted(PinLevel),
}

impl Firmware {
    /// The level the pin is at.
    pub open spec fn spec_level(self) -> PinLevel {
        match self {
            Firmware::Running(b) => b.spec_level(),
            Firmware::Halted(level) => level,
        }
    }

    /// The state a fault leaves behind: halted, the pin untouched.
    pub open spec fn halted(self) -> Firmware {
        Firmware::Halted(self.spec_level())
    }

    /// The state one tick later; a halted device stays as it is.
    pub open spec fn next(self) -> Firmware {
        match self {
            Firmware::Running(b) => Firmware::Running(b.next()),
            Firmware::Halted(level) => Firmware::Halted(level),
        }
    }

    /// What one tick asks the caller to do: nothing once halted.
    pub open spec fn tick_of(self) -> Option<Tick> {
        match self {
            Firmware::Running(b) => Some(b.tick_of()),
            Firmware::Halted(_) => None,
        }
    }

    /// The state after `n` ticks.
    pub open spec fn after(self, n: nat) -> Firmware
        decreases n,
    {
        if n == 0 {
            self
        } else {
            self.after((n - 1) as nat).next()
        }
    }

    /// A freshly started device: blinking, no tick yet, the pin at `initial`.
    pub fn new(initial: PinLevel) -> (r: Firmware)
        ensures
            r is Running,
            r->Running_0.spec_count() == 0,
            r.spec_level() == initial,
    {
        Firmware::Running(Blinker::new(initial))
    }

    /// Whether the device has halted.
    pub fn is_halted(&self) -> (r: bool)
        ensures
            r == (*self is Halted),
    {
        match self {
            Firmware::Running(_) => false,
            Firmware::Halted(_) => true,
        }
    }

    /// The level the pin is at.
    pub fn level(&self) -> (r: PinLevel)
        ensures
            r == self.spec_level(),
    {
        match self {
            Firmware::Running(b) => b.level(),
            Firmware::Halted(level) => *level,
        }
    }

    /// Stops the device after a fault: no further tick does anything, and
    /// the pin keeps its level.
    pub fn halt(&mut self)
        ensures
            *final(self) == old(self).halted(),
            *final(self) == Firmware::Halted(old(self).spec_level()),
    {
        let level = self.level();
        *self = Firmware::Halted(level);
    }

    /// Runs one tick. While running, this is `Blinker::step` on the inner
    /// state; once halted, it returns `None` and changes nothing.
    pub fn step(&mut self) -> (t: Option<Tick>)
        ensures
            *final(self) == old(self).next(),
            t == old(self).tick_of(),
            *old(self) is Halted ==> t is None && *final(self) == *old(self),
            *old(self) is Running ==> t == Some(old(self)->Running_0.tick_of())
                && *final(self) == Firmware::Running(old(self)->Running_0.next()),
            *old(self) is Running ==> final(self).spec_level() == old(self).spec_level().flip(),
            *old(self) is Halted ==> final(self).spec_level() == old(self).spec_level(),
    {
        match self {
            Firmware::Running(b) => {
                let t = b.step();
                Some(t)
            },
            Firmware::Halted(_) => None,
        }
    }
}

/// Once halted, a device stays halted through any number of ticks, never
/// asks for another toggle, wait or status line, and keeps the pin at the
/// level it had when it halted.
pub proof fn lemma_halt_is_final(f: Firmware, n: nat)
    ensures
        f.halted().after(n) == f.halted(),
        f.halted().after(n).tick_of() is None,
        f.halted().after(n).spec_level() == f.spec_level(),
    decreases n,
{
    if n > 0 {
        lemma_halt_is_final(f, (n - 1) as nat);
    }
}

} // verus!
