use vstd::prelude::*;
use vstd::arithmetic::div_mod::lemma_add_mod_noop;
use vstd::arithmetic::div_mod::lemma_small_mod;

verus! {

/// The level of a digital output pin.
#[derive(Clone, Copy, Debug, PartialEq, Eq, Structural)]
pub enum PinLevel {
    Low,
    High,
}

impl PinLevel {
    /// The other level.
    pub open spec fn flip(self) -> PinLevel {
        match self {
            PinLevel::Low => PinLevel::High,
            PinLevel::High => PinLevel::Low,
        }
    }

    /// Returns the other level.
    pub fn toggled(self) -> (r: PinLevel)
        ensures
            r == self.flip(),
    {
        match self {
            PinLevel::Low => PinLevel::High,
            PinLevel::High => PinLevel::Low,
        }
    }

    /// Whether the pin is driven high.
    pub fn is_high(self) -> (r: bool)
        ensures
            r == (self == PinLevel::High),
    {
        match self {
            PinLevel::Low => false,
            PinLevel::High => true,
        }
    }
}

/// Ticks between two status lines.
pub const LOG_EVERY: u32 = 10;

/// Time to wait after each tick, in milliseconds.
pub const BLINK_PERIOD_MS: u32 = 500;

/// The number of distinct `u32` values: the tick counter counts modulo this.
pub open spec fn counter_modulus() -> int {
    0x1_0000_0000
}

/// Whether a tick that finds the counter at `count` emits a status line.
pub open spec fn logs_at(count: u32) -> bool {
    count % LOG_EVERY == 0
}

/// Returns whether a tick that finds the counter at `count` emits a status line.
pub fn should_log(count: u32) -> (r: bool)
    ensures
        r == logs_at(count),
{
    count % LOG_EVERY == 0
}

/// What the caller is to do for one tick: drive the pin to `level`, print a
/// status line with `log_count` if there is one, then wait `delay_ms`.
#[derive(Clone, Copy, Debug, PartialEq, Eq, Structural)]
pub struct Tick {
    pub level: PinLevel,
    pub log_count: Option<u32>,
    pub delay_ms: u32,
}

/// The state of the blink loop: how many ticks have passed (modulo 2^32) and
/// the level the pin is at.
#[derive(Clone, Copy, Debug, PartialEq, Eq, Structural)]
pub struct Blinker {
    count: u32,
    level: PinLevel,
}

impl Blinker {
    /// The tick counter.
    pub closed spec fn spec_count(self) -> u32 {
        self.count
    }

    /// The level the pin is at.
    pub closed spec fn spec_level(self) -> PinLevel {
        self.level
    }

    /// The state one tick later: the pin flipped and the counter advanced,
    /// wrapping to zero after `u32::MAX`.
    pub open spec fn next(self) -> Blinker {
        Blinker::from_parts(
            ((self.spec_count() + 1) % counter_modulus()) as u32,
            self.spec_level().flip(),
        )
    }

    /// The state with the given counter and level.
    pub closed spec fn from_parts(count: u32, level: PinLevel) -> Blinker {
        Blinker { count, level }
    }

    /// The tick that `step` hands out from this state.
    pub open spec fn tick_of(self) -> Tick {
        Tick {
            level: self.spec_level().flip(),
            log_count: if logs_at(self.spec_count()) {
                Some(self.spec_count())
            } else {
                None
            },
            delay_ms: BLINK_PERIOD_MS,
        }
    }

    /// The state after `n` ticks.
    pub open spec fn after(self, n: nat) -> Blinker
        decreases n,
    {
        if n == 0 {
            self
        } else {
            self.after((n - 1) as nat).next()
        }
    }

    /// A state built from a counter and a level holds exactly those.
    pub broadcast proof fn lemma_from_parts(count: u32, level: PinLevel)
        ensures
            #![trigger Blinker::from_parts(count, level)]
            Blinker::from_parts(count, level).spec_count() == count,
            Blinker::from_parts(count, level).spec_level() == level,
    {
    }

    /// A fresh loop: no tick yet, the pin at `initial`.
    pub fn new(initial: PinLevel) -> (r: Blinker)
        ensures
            r.spec_count() == 0,
            r.spec_level() == initial,
    {
        Blinker { count: 0, level: initial }
    }

    /// The tick counter.
    pub fn count(&self) -> (r: u32)
        ensures
            r == self.spec_count(),
    {
        self.count
    }

    /// The level the pin is at.
    pub fn level(&self) -> (r: PinLevel)
        ensures
            r == self.spec_level(),
    {
        self.level
    }

    /// Runs one tick: flips the pin, reports the counter if a status line is
    /// due, advances the counter and asks for the fixed wait.
    pub fn step(&mut self) -> (t: Tick)
        ensures
            *final(self) == old(self).next(),
            final(self).spec_level() == old(self).spec_level().flip(),
            final(self).spec_count() as int == (old(self).spec_count() + 1) % counter_modulus(),
            t == old(self).tick_of(),
            t.level == final(self).spec_level(),
            t.log_count == (if old(self).spec_count() % LOG_EVERY == 0 {
                Some(old(self).spec_count())
            } else {
                None
            }),
            t.delay_ms == BLINK_PERIOD_MS,
    {
        broadcast use Blinker::lemma_from_parts;
        let level = self.level.toggled();
        let log_count = if should_log(self.count) {
            Some(self.count)
        } else {
            None
        };
        let count: u32 = if self.count == u32::MAX {
            0
        } else {
            self.count + 1
        };
        self.count = count;
        self.level = level;
        proof {
            assert(*self == Blinker::from_parts(count, level));
        }
        Tick { level, log_count, delay_ms: BLINK_PERIOD_MS }
    }
}

/// After `n` ticks from any state, the counter has advanced by `n` modulo
/// 2^32, and the pin is back at its starting level when `n` is even and at the
/// other level when `n` is odd.
pub proof fn lemma_after(b: Blinker, n: nat)
    ensures
        b.after(n).spec_count() as int == (b.spec_count() + n) % counter_modulus(),
        b.after(n).spec_level() == (if n % 2 == 0 {
            b.spec_level()
        } else {
            b.spec_level().flip()
        }),
    decreases n,
{
    broadcast use Blinker::lemma_from_parts;
    let m = counter_modulus();
    if n == 0 {
        lemma_small_mod(b.spec_count() as nat, m as nat);
    } else {
        let k = (n - 1) as nat;
        lemma_after(b, k);
        lemma_add_mod_noop(b.spec_count() + k, 1, m);
        lemma_small_mod(1, m as nat);
    }
}

/// Started fresh, with the counter at zero as `Blinker::new` leaves it, the
/// loop emits a status line on the ticks numbered 0, 10, 20, ... and on no
/// other, for as long as the counter has not wrapped; the line reports the
/// number of ticks before it.
pub proof fn lemma_logs_every_ten(b: Blinker, n: nat)
    requires
        b.spec_count() == 0,
        n < counter_modulus(),
    ensures
        ({
            let t = b.after(n).tick_of();
            &&& (t.log_count is Some) == (n % 10 == 0)
            &&& t.log_count is Some ==> t.log_count->0 == n
        }),
{
    lemma_after(b, n);
    lemma_small_mod(n, counter_modulus() as nat);
}

} // verus!
