use vstd::prelude::*;

verus! {

/// The modulus of every generator: 2^40.
pub const MODULUS: u64 = 1_099_511_627_776;

/// Lower bound of the multiplier and the increment, and offset of every seed.
pub const INIT_SEED: u32 = 11774353;

/// The prime that bounds the increment search.
pub const BIG_PRIME: u64 = 999999000001;

/// How many candidates a parameter search draws before it settles on a fixed valid value.
pub const SEARCH_LIMIT: u32 = 1_000_000;

/// Greatest common divisor, by Euclid's algorithm.
pub open spec fn gcd_spec(a: nat, b: nat) -> nat
    decreases b,
{
    if b == 0 {
        a
    } else {
        gcd_spec(b, a % b)
    }
}

/// One step of the recurrence in wrapping 64-bit arithmetic.
pub open spec fn next_spec(x: u64, a: u32, c: u64, m: u64) -> u64 {
    (a as u64).wrapping_mul(x).wrapping_add(c) % m
}

/// A valid increment: at least the base seed and coprime to the modulus.
pub open spec fn increment_ok(c: u64) -> bool {
    c >= INIT_SEED && gcd_spec(MODULUS as nat, c as nat) == 1
}

/// A valid multiplier before its final increment: at least the base seed and a
/// multiple of 4.
pub open spec fn multiplier_ok(a: u32) -> bool {
    a >= INIT_SEED && gcd_spec(a as nat, 4) == 4
}

/// The increment search: redraw until a valid one or the limit.
pub open spec fn search_increment(c: u64, mult: u32, tries: u32) -> u64
    decreases SEARCH_LIMIT as int - tries as int,
{
    if tries >= SEARCH_LIMIT || increment_ok(c) {
        c
    } else {
        search_increment(next_spec(((c as int + c as int) / 32) as u64, mult, 0, BIG_PRIME), mult, (tries + 1) as u32)
    }
}

/// The multiplier search: redraw until a valid one or the limit.
pub open spec fn search_multiplier(a: u32, c: u64, tries: u32) -> u32
    decreases SEARCH_LIMIT as int - tries as int,
{
    if tries >= SEARCH_LIMIT || multiplier_ok(a) {
        a
    } else {
        search_multiplier(next_spec(a as u64, INIT_SEED, c, 0x100_0000) as u32, c, (tries + 1) as u32)
    }
}

/// The generator that `seed` determines.
pub open spec fn seeded(seed: u32) -> LcmGenerator {
    let s = (INIT_SEED + seed) as u64;
    let mult = (4 * ((s / 128) + 1) + 1) as u32;
    let c0 = search_increment((s * 0x200_0000) as u64, mult, 0);
    let c = if increment_ok(c0) { c0 } else { INIT_SEED as u64 };
    let a0 = search_multiplier(next_spec((s + 1) as u64, INIT_SEED, c, 0x100_0000) as u32, c, 0);
    let a = (if multiplier_ok(a0) { a0 } else { (INIT_SEED + 3) as u32 } + 1) as u32;
    LcmGenerator { a, c, m: MODULUS, x: next_spec((s * 4) as u64, a, c, MODULUS) }
}

/// `n` more bits of `x`, lowest first, shifted into `acc` from the low end.
pub open spec fn reverse_acc(x: nat, acc: nat, n: nat) -> nat
    decreases n,
{
    if n == 0 {
        acc
    } else {
        reverse_acc(x / 2, acc * 2 + x % 2, (n - 1) as nat)
    }
}

/// The 32-bit word whose bit `i` is bit `31 - i` of `x`.
pub open spec fn reversed_bits(x: u32) -> u32 {
    reverse_acc(x as nat, 0, 32) as u32
}

/// Two to the power `n`.
pub open spec fn two_to(n: nat) -> nat
    decreases n,
{
    if n == 0 {
        1
    } else {
        2 * two_to((n - 1) as nat)
    }
}

proof fn lemma_two_to_below(i: nat)
    requires
        i <= 31,
    ensures
        two_to(i) <= 0x8000_0000,
    decreases 31 - i,
{
    if i < 31 {
        lemma_two_to_below(i + 1);
    } else {
        reveal_with_fuel(two_to, 32);
    }
}

/// The bits of `x` in reverse order.
pub fn reverse_bits(x: u32) -> (r: u32)
    ensures
        r == reversed_bits(x),
{
    let mut v: u32 = x;
    let mut acc: u32 = 0;
    let mut i: u32 = 0;
    while i < 32
        invariant
            i <= 32,
            (acc as nat) < two_to(i as nat),
            reverse_acc(v as nat, acc as nat, (32 - i) as nat) == reverse_acc(x as nat, 0, 32),
        decreases 32 - i,
    {
        proof {
            lemma_two_to_below(i as nat);
        }
        acc = acc * 2 + v % 2;
        v = v / 2;
        i = i + 1;
    }
    acc
}

/// Relies on std::time::SystemTime::now and Duration::subsec_nanos: the
/// sub-second nanoseconds of the wall clock, always under one billion.
#[verifier::external_body]
fn clock_nanos() -> (r: u32)
    ensures
        r < 1_000_000_000,
{
    match std::time::SystemTime::now().duration_since(std::time::UNIX_EPOCH) {
        Ok(d) => d.subsec_nanos(),
        Err(e) => e.duration().subsec_nanos(),
    }
}

/// A linear congruential generator `x' = (a * x + c) mod m`.
pub struct LcmGenerator {
    pub a: u32,
    pub c: u64,
    pub m: u64,
    pub x: u64,
}

impl LcmGenerator {
    /// The parameters meet the Hull-Dobell conditions for the modulus 2^40:
    /// `c` is coprime to `m` and `a - 1` is a multiple of 4.
    pub open spec fn wf(&self) -> bool {
        &&& self.m == MODULUS
        &&& self.x < self.m
        &&& self.a % 4 == 1
        &&& INIT_SEED < self.a <= 0x100_0000
        &&& INIT_SEED <= self.c
        &&& gcd_spec(self.m as nat, self.c as nat) == 1
    }

    /// The state after one draw.
    pub open spec fn advanced(&self) -> LcmGenerator {
        LcmGenerator {
            x: ((self.a * self.x + self.c) % (self.m as int)) as u64,
            ..*self
        }
    }

    /// A generator seeded from the wall clock.
    pub fn new() -> (r: LcmGenerator)
        ensures
            r.wf(),
            exists|n: u32| n < 1_000_000_000 && r == seeded(reversed_bits(n)),
    {
        Self::from_clock_nanos(clock_nanos())
    }

    /// The generator for a clock reading of `nanos` nanoseconds: its bits reversed
    /// make the seed, so that the low bits, which change fastest, weigh most.
    pub fn from_clock_nanos(nanos: u32) -> (r: LcmGenerator)
        ensures
            r.wf(),
            r == seeded(reversed_bits(nanos)),
    {
        Self::with_seed(reverse_bits(nanos))
    }

    /// A generator whose parameters are derived from `seed` alone.
    pub fn with_seed(seed: u32) -> (r: LcmGenerator)
        ensures
            r.wf(),
            r == seeded(seed),
    {
        let seed: u64 = INIT_SEED as u64 + seed as u64;
        let m: u64 = MODULUS;
        assert(seed < 0x2_0000_0000);
        let mut c: u64 = seed * 0x200_0000;
        let mult: u32 = (4 * ((seed / 128) + 1) + 1) as u32;
        let ghost c0 = c;
        let mut tries: u32 = 0;
        while tries < SEARCH_LIMIT && !(c >= INIT_SEED as u64 && relatively_prime(m, c))
            invariant
                c < 0x400_0000_0000_0000,
                m == MODULUS,
                tries <= SEARCH_LIMIT,
                search_increment(c, mult, tries) == search_increment(c0, mult, 0),
            decreases SEARCH_LIMIT - tries,
        {
            c = Self::next((c + c) / 32, mult, 0, BIG_PRIME);
            tries = tries + 1;
        }
        if !(c >= INIT_SEED as u64 && relatively_prime(m, c)) {
            c = INIT_SEED as u64;
            proof {
                lemma_fallback_increment();
            }
        }
        let mut a: u32 = Self::next(seed + 1, INIT_SEED, c, 0x100_0000) as u32;
        let ghost a0 = a;
        let mut tries: u32 = 0;
        while tries < SEARCH_LIMIT && !(a >= INIT_SEED && gcd(a as u64, 4) == 4)
            invariant
                a < 0x100_0000,
                tries <= SEARCH_LIMIT,
                search_multiplier(a, c, tries) == search_multiplier(a0, c, 0),
            decreases SEARCH_LIMIT - tries,
        {
            a = Self::next(a as u64, INIT_SEED, c, 0x100_0000) as u32;
            tries = tries + 1;
        }
        if a >= INIT_SEED && gcd(a as u64, 4) == 4 {
            proof {
                lemma_gcd_four(a as nat);
            }
        } else {
            a = INIT_SEED + 3;
        }
        a = a + 1;
        let x = Self::next(seed * 4, a, c, m);
        LcmGenerator { a, x, c, m }
    }

    /// Draws the next value.
    pub fn set_next(&mut self) -> (r: u64)
        requires
            old(self).wf(),
        ensures
            *final(self) == old(self).advanced(),
            final(self).wf(),
            r == final(self).x,
    {
        assert((self.a as u128) * (self.x as u128) <= 0x100_0000 * 0x100_0000_0000) by (nonlinear_arith)
            requires
                self.a <= 0x100_0000,
                self.x < 0x100_0000_0000,
        ;
        let v = ((self.a as u128) * (self.x as u128) + (self.c as u128)) % (self.m as u128);
        self.x = v as u64;
        self.x
    }

    /// One step of the recurrence in wrapping 64-bit arithmetic.
    pub fn next(x: u64, a: u32, c: u64, m: u64) -> (r: u64)
        requires
            m > 0,
        ensures
            r == (a as u64).wrapping_mul(x).wrapping_add(c) % m,
            r < m,
    {
        (a as u64).wrapping_mul(x).wrapping_add(c) % m
    }
}

proof fn lemma_fallback_increment()
    ensures
        gcd_spec(MODULUS as nat, INIT_SEED as nat) == 1,
{
    assert(gcd_spec(1, 0) == 1);
    assert(gcd_spec(8, 1) == gcd_spec(1, 0));
    assert(gcd_spec(9, 8) == gcd_spec(8, 1));
    assert(gcd_spec(35, 9) == gcd_spec(9, 8));
    assert(gcd_spec(44, 35) == gcd_spec(35, 9));
    assert(gcd_spec(167, 44) == gcd_spec(44, 35));
    assert(gcd_spec(211, 167) == gcd_spec(167, 44));
    assert(gcd_spec(378, 211) == gcd_spec(211, 167));
    assert(gcd_spec(967, 378) == gcd_spec(378, 211));
    assert(gcd_spec(7147, 967) == gcd_spec(967, 378));
    assert(gcd_spec(86731, 7147) == gcd_spec(7147, 967));
    assert(gcd_spec(93878, 86731) == gcd_spec(86731, 7147));
    assert(gcd_spec(180609, 93878) == gcd_spec(93878, 86731));
    assert(gcd_spec(274487, 180609) == gcd_spec(180609, 93878));
    assert(gcd_spec(729583, 274487) == gcd_spec(274487, 180609));
    assert(gcd_spec(1004070, 729583) == gcd_spec(729583, 274487));
    assert(gcd_spec(10770283, 1004070) == gcd_spec(1004070, 729583));
    assert(gcd_spec(11774353, 10770283) == gcd_spec(10770283, 1004070));
    assert(gcd_spec(1099511627776, 11774353) == gcd_spec(11774353, 10770283));
}

proof fn lemma_gcd_four(a: nat)
    requires
        gcd_spec(a, 4) == 4,
    ensures
        a % 4 == 0,
{
    reveal_with_fuel(gcd_spec, 5);
    let r = a % 4;
    assert(gcd_spec(a, 4) == gcd_spec(4, r));
    assert(gcd_spec(1, 0) == 1);
    assert(gcd_spec(2, 0) == 2);
    assert(gcd_spec(3, 1) == gcd_spec(1, 0));
    assert(gcd_spec(4, 3) == gcd_spec(3, 1));
}

/// Greatest common divisor of `a` and `b`.
pub fn gcd(a0: u64, b0: u64) -> (r: u64)
    ensures
        r == gcd_spec(a0 as nat, b0 as nat),
{
    let mut a = a0;
    let mut b = b0;
    while b != 0
        invariant
            gcd_spec(a as nat, b as nat) == gcd_spec(a0 as nat, b0 as nat),
        decreases b,
    {
        let t = a;
        a = b;
        b = t % b;
    }
    a
}

/// Whether `a` and `b` share no factor but 1.
pub fn relatively_prime(a: u64, b: u64) -> (r: bool)
    ensures
        r == (gcd_spec(a as nat, b as nat) == 1),
{
    gcd(a, b) == 1
}

/// The pseudo-random source of a run.
pub struct Random {
    pub gen: LcmGenerator,
}

impl Random {
    pub open spec fn wf(&self) -> bool {
        self.gen.wf()
    }

    /// A source seeded from the wall clock.
    pub fn new() -> (r: Random)
        ensures
            r.wf(),
            exists|n: u32| n < 1_000_000_000 && r.gen == seeded(reversed_bits(n)),
    {
        Random { gen: LcmGenerator::new() }
    }

    /// A source whose sequence depends on `seed` alone.
    pub fn with_seed(seed: u32) -> (r: Random)
        ensures
            r.wf(),
            r.gen == seeded(seed),
    {
        Random { gen: LcmGenerator::with_seed(seed) }
    }

    /// A fair coin: true when the next draw is even.
    pub fn boolean(&mut self) -> (r: bool)
        requires
            old(self).wf(),
        ensures
            final(self).gen == old(self).gen.advanced(),
            final(self).wf(),
            r == (final(self).gen.x % 2 == 0),
    {
        self.gen.set_next() % 2 == 0
    }

    /// The next raw draw, below `modulus()`.
    pub fn next_value(&mut self) -> (r: u64)
        requires
            old(self).wf(),
        ensures
            final(self).gen == old(self).gen.advanced(),
            final(self).wf(),
            r == final(self).gen.x,
            r < MODULUS,
    {
        self.gen.set_next()
    }

    pub fn modulus(&self) -> (r: u64)
        ensures
            r == self.gen.m,
    {
        self.gen.m
    }
}

} // verus!
