//! Waveform generators. A generator maps a frequency (micro-hertz) and a
//! time (microseconds) to a sample in micro-units; a tree of them composes
//! generators by gain-scaling and summation.
//!
//! Everything here is exact integer arithmetic on the cycle position
//! `frac(f*t)`, except the sine wave itself, which is transcendental: its
//! samples are taken as an argument (one entry per harmonic), and every
//! combining step saturates at `CLIP` instead of overflowing.

use vstd::prelude::*;

use crate::CLIP;
use crate::SCALE;

verus! {

/// 2/pi in micro-units, to the nearest millionth.
pub const TWO_OVER_PI: i64 = 636_620;

/// pi/2 in micro-units, to the nearest millionth.
pub const HALF_PI: u64 = 1_570_796;

/// Saturate into `[-CLIP, CLIP]`.
pub open spec fn clip(x: int) -> int {
    if x > CLIP {
        CLIP as int
    } else if x < -CLIP {
        -CLIP as int
    } else {
        x
    }
}

/// `a * b / d` rounded toward zero, the direction hardware division
/// rounds.
pub open spec fn scaled(a: int, b: int, d: int) -> int {
    if a * b >= 0 {
        a * b / d
    } else {
        -((-(a * b)) / d)
    }
}

fn clamp(x: i64) -> (r: i64)
    ensures
        r == clip(x as int),
        -CLIP <= r <= CLIP,
{
    if x > CLIP {
        CLIP
    } else if x < -CLIP {
        -CLIP
    } else {
        x
    }
}

pub(crate) fn clip_add(a: i64, b: i64) -> (r: i64)
    requires
        -CLIP <= a <= CLIP,
        -CLIP <= b <= CLIP,
    ensures
        r == clip(a + b),
        -CLIP <= r <= CLIP,
{
    clamp(a + b)
}

/// The magnitudes of two factors multiply to the magnitude of their
/// product.
proof fn lemma_signed_mag(a: int, b: int, ma: int, mb: int)
    requires
        ma == if a >= 0 {
            a
        } else {
            -a
        },
        mb == if b >= 0 {
            b
        } else {
            -b
        },
    ensures
        ma * mb == if a * b >= 0 {
            a * b
        } else {
            -(a * b)
        },
        a >= 0 && b >= 0 ==> a * b >= 0,
        a <= 0 && b <= 0 ==> a * b >= 0,
        a >= 0 && b <= 0 ==> a * b <= 0,
        a <= 0 && b >= 0 ==> a * b <= 0,
{
    vstd::arithmetic::mul::lemma_mul_unary_negation(a, b);
    vstd::arithmetic::mul::lemma_mul_unary_negation(-a, b);
    vstd::arithmetic::mul::lemma_mul_unary_negation(a, -b);
    if a >= 0 && b >= 0 {
        vstd::arithmetic::mul::lemma_mul_nonnegative(a, b);
    } else if a >= 0 {
        vstd::arithmetic::mul::lemma_mul_nonnegative(a, -b);
    } else if b >= 0 {
        vstd::arithmetic::mul::lemma_mul_nonnegative(-a, b);
    } else {
        vstd::arithmetic::mul::lemma_mul_nonnegative(-a, -b);
    }
}

/// `a * b / d` rounded toward zero and saturated into `[-CLIP, CLIP]`,
/// exact in `u128` magnitude arithmetic.
pub(crate) fn mul_div_clip(a: i64, b: i64, d: u64) -> (r: i64)
    requires
        0 < d,
    ensures
        r == clip(scaled(a as int, b as int, d as int)),
        -CLIP <= r <= CLIP,
{
    let ma: u128 = if a >= 0 {
        a as u128
    } else {
        (-(a as i128)) as u128
    };
    let mb: u128 = if b >= 0 {
        b as u128
    } else {
        (-(b as i128)) as u128
    };
    proof {
        lemma_signed_mag(a as int, b as int, ma as int, mb as int);
        vstd::arithmetic::mul::lemma_mul_upper_bound(
            ma as int,
            0x8000_0000_0000_0000,
            mb as int,
            0x8000_0000_0000_0000,
        );
        vstd::arithmetic::mul::lemma_mul_nonnegative(ma as int, mb as int);
        vstd::arithmetic::div_mod::lemma_div_of0(d as int);
        vstd::arithmetic::div_mod::lemma_div_pos_is_pos(ma as int * mb as int, d as int);
        vstd::arithmetic::div_mod::lemma_div_is_ordered(
            ma as int * mb as int,
            0x8000_0000_0000_0000int * 0x8000_0000_0000_0000int,
            d as int,
        );
    }
    let q: u128 = ma * mb / (d as u128);
    let neg = (a < 0) != (b < 0);
    if q > CLIP as u128 {
        if neg {
            -CLIP
        } else {
            CLIP
        }
    } else {
        if neg {
            -(q as i64)
        } else {
            q as i64
        }
    }
}

/// Position within the current cycle of a wave of frequency `f` at time
/// `t`: the fractional part of `f * t`, in micro-cycles.
pub open spec fn spec_phase(f: int, t: int) -> int {
    (f * t) % (SCALE * SCALE) / (SCALE as int)
}

/// Cycle position of `(f, t)` in micro-cycles, exact in `u128`.
pub fn phase(f: u64, t: u64) -> (r: u64)
    ensures
        r == spec_phase(f as int, t as int),
        r < SCALE,
{
    proof {
        vstd::arithmetic::mul::lemma_mul_upper_bound(
            f as int,
            u64::MAX as int,
            t as int,
            u64::MAX as int,
        );
        vstd::arithmetic::div_mod::lemma_mod_division_less_than_divisor(
            f as int * t as int,
            SCALE as int * SCALE as int,
        );
        vstd::arithmetic::div_mod::lemma_div_pos_is_pos(
            (f as int * t as int) % (SCALE as int * SCALE as int),
            SCALE as int,
        );
        vstd::arithmetic::div_mod::lemma_multiply_divide_lt(
            (f as int * t as int) % (SCALE as int * SCALE as int),
            SCALE as int,
            SCALE as int,
        );
    }
    let m: u128 = ((f as u128) * (t as u128)) % ((SCALE as u128) * (SCALE as u128));
    (m / (SCALE as u128)) as u64
}

/// Sine wave generator. The sine itself is transcendental, so its samples
/// enter the tree evaluation from outside; the marker stands for
/// `sin(2*pi*f*t)`.
#[derive(Clone, Copy, Debug, PartialEq, Eq, Structural)]
pub struct Sine;

/// Square wave generator: the sign of the sine wave, scaled to whole
/// units.
#[derive(Clone, Copy, Debug, PartialEq, Eq, Structural)]
pub struct Square;

/// Triangle wave generator: `asin(sin(2*pi*f*t))`, which is piecewise
/// linear in the cycle position. Its range is [-pi/2, pi/2], not [-1, 1]:
/// the un-rescaled range is kept as documented behaviour.
#[derive(Clone, Copy, Debug, PartialEq, Eq, Structural)]
pub struct Triangle;

/// Sawtooth wave generator by additive synthesis from `num_sinewaves`
/// harmonics. Slower, but more detailed than `SawtoothFast`.
#[derive(Clone, Copy, Debug, PartialEq, Eq, Structural)]
pub struct Sawtooth {
    pub num_sinewaves: usize,
}

/// Closed-form sawtooth wave generator: a straight ramp across each cycle.
/// Faster, but less detailed than `Sawtooth`.
#[derive(Clone, Copy, Debug, PartialEq, Eq, Structural)]
pub struct SawtoothFast;

/// The square wave's value: +1 on the first half-cycle, -1 on the second,
/// 0 exactly at the zero crossings — the sign of the sine wave.
pub open spec fn spec_square(f: int, t: int) -> int {
    let p = spec_phase(f, t);
    if p == 0 || p == SCALE / 2 {
        0
    } else if p < SCALE / 2 {
        SCALE as int
    } else {
        -SCALE as int
    }
}

/// The triangle wave's value: linear from 0 up to pi/2 over the first
/// quarter-cycle, down through 0 to -pi/2 over the next half, and back to
/// 0 over the last quarter.
pub open spec fn spec_triangle(f: int, t: int) -> int {
    let p = spec_phase(f, t);
    if p <= SCALE / 4 {
        HALF_PI * (4 * p) / (SCALE as int)
    } else if p <= SCALE / 2 {
        HALF_PI * (2 * SCALE - 4 * p) / (SCALE as int)
    } else if p <= 3 * (SCALE / 4) {
        -(HALF_PI * (4 * p - 2 * SCALE) / (SCALE as int))
    } else {
        -(HALF_PI * (4 * SCALE - 4 * p) / (SCALE as int))
    }
}

/// The closed-form sawtooth's value: `2 * frac(f*t) - 1`, which is
/// `(2/pi) * (pi*f*(t mod 1/f) - pi/2)` in whole units.
pub open spec fn spec_sawtooth_fast(f: int, t: int) -> int {
    2 * spec_phase(f, t) - SCALE
}

impl Square {
    /// The square wave at `(f, t)`; always one of -1, 0 or +1 in whole
    /// units.
    pub fn value(&self, f: u64, t: u64) -> (r: i64)
        ensures
            r == spec_square(f as int, t as int),
            r == 0 || r == SCALE as i64 || r == -(SCALE as i64),
    {
        let p = phase(f, t);
        if p == 0 || p == SCALE / 2 {
            0
        } else if p < SCALE / 2 {
            SCALE as i64
        } else {
            -(SCALE as i64)
        }
    }
}

impl Triangle {
    /// The triangle wave at `(f, t)`, in micro-radians within
    /// [-pi/2, pi/2].
    pub fn value(&self, f: u64, t: u64) -> (r: i64)
        ensures
            r == spec_triangle(f as int, t as int),
            -(HALF_PI as i64) <= r <= HALF_PI as i64,
    {
        let p = phase(f, t);
        if p <= SCALE / 4 {
            mul_div_u(HALF_PI, 4 * p) as i64
        } else if p <= SCALE / 2 {
            mul_div_u(HALF_PI, 2 * SCALE - 4 * p) as i64
        } else if p <= 3 * (SCALE / 4) {
            -(mul_div_u(HALF_PI, 4 * p - 2 * SCALE) as i64)
        } else {
            -(mul_div_u(HALF_PI, 4 * SCALE - 4 * p) as i64)
        }
    }
}

/// `a * x / SCALE` for a fraction `x` of at most one scale unit: stays
/// within `[0, a]`.
fn mul_div_u(a: u64, x: u64) -> (r: u64)
    requires
        x <= SCALE,
    ensures
        r == a * x / (SCALE as int),
        r <= a,
{
    proof {
        vstd::arithmetic::mul::lemma_mul_upper_bound(
            a as int,
            u64::MAX as int,
            x as int,
            SCALE as int,
        );
        crate::lemma_frac_le(a as int, x as int, SCALE as int);
    }
    ((a as u128) * (x as u128) / (SCALE as u128)) as u64
}

impl SawtoothFast {
    /// The closed-form sawtooth at `(f, t)`: a ramp from -1 at each cycle
    /// start up toward +1.
    pub fn value(&self, f: u64, t: u64) -> (r: i64)
        ensures
            r == spec_sawtooth_fast(f as int, t as int),
            -(SCALE as i64) <= r < SCALE as i64,
    {
        let p = phase(f, t);
        2 * (p as i64) - SCALE as i64
    }
}

/// Gain node: scales its child's output by `amplitude` micro-units.
#[derive(Debug)]
pub struct Amplitude {
    pub amplitude: i64,
    pub oscillator: Box<OscillatorNode>,
}

/// A finite, acyclic composition of generators: a primitive waveform, a
/// gain-scaled subtree, or an unweighted sum of subtrees. Each composite
/// or gain node exclusively owns its children, so the tree is acyclic by
/// construction and evaluation is a pure function of `(f, t)` and the
/// sine samples.
#[derive(Debug)]
pub enum OscillatorNode {
    Sine(Sine),
    Square(Square),
    Triangle(Triangle),
    Sawtooth(Sawtooth),
    SawtoothFast(SawtoothFast),
    Amplitude(Amplitude),
    Composite(Vec<OscillatorNode>),
}

/// The largest harmonic count any node of the sequence needs.
pub open spec fn spec_max_harmonics(s: Seq<OscillatorNode>) -> int
    decreases s,
{
    if s.len() == 0 {
        0
    } else {
        let rest = spec_max_harmonics(s.drop_last());
        let last = s.last().spec_harmonics();
        if last > rest {
            last
        } else {
            rest
        }
    }
}

/// Partial sums of the additive sawtooth: harmonic `i` (1-based)
/// contributes its sine sample divided by `-i`, and every step saturates.
pub open spec fn spec_saw_sum(n: int, sines: Seq<i64>) -> int
    decreases n,
{
    if n <= 0 {
        0
    } else {
        clip(spec_saw_sum(n - 1, sines) + clip(scaled(sines[n - 1] as int, -1, n)))
    }
}

/// The additive sawtooth over `n` harmonics: the saturating sum of the
/// weighted harmonics, scaled by 2/pi.
pub open spec fn spec_sawtooth(n: int, sines: Seq<i64>) -> int {
    clip(scaled(spec_saw_sum(n, sines), TWO_OVER_PI as int, SCALE as int))
}

/// Left-to-right saturating sum of the values of a sequence of nodes.
pub open spec fn spec_sum_values(s: Seq<OscillatorNode>, f: int, t: int, sines: Seq<i64>) -> int
    decreases s,
{
    if s.len() == 0 {
        0
    } else {
        clip(spec_sum_values(s.drop_last(), f, t, sines) + s.last().spec_value(f, t, sines))
    }
}

impl OscillatorNode {
    /// How many leading entries of a sine-sample bank this node reads:
    /// entry `i` of a bank for `(f, t)` holds `sin(2*pi*f*(i+1)*t)` in
    /// micro-units.
    pub open spec fn spec_harmonics(&self) -> int
        decreases self,
    {
        match *self {
            OscillatorNode::Sine(_) => 1,
            OscillatorNode::Square(_) => 0,
            OscillatorNode::Triangle(_) => 0,
            OscillatorNode::Sawtooth(s) => s.num_sinewaves as int,
            OscillatorNode::SawtoothFast(_) => 0,
            OscillatorNode::Amplitude(a) => a.oscillator.spec_harmonics(),
            OscillatorNode::Composite(cs) => spec_max_harmonics(cs@),
        }
    }

    /// The node's value at `(f, t)` given the bank of sine samples.
    pub open spec fn spec_value(&self, f: int, t: int, sines: Seq<i64>) -> int
        decreases self,
    {
        match *self {
            OscillatorNode::Sine(_) => clip(sines[0] as int),
            OscillatorNode::Square(_) => spec_square(f, t),
            OscillatorNode::Triangle(_) => spec_triangle(f, t),
            OscillatorNode::Sawtooth(s) => spec_sawtooth(s.num_sinewaves as int, sines),
            OscillatorNode::SawtoothFast(_) => spec_sawtooth_fast(f, t),
            OscillatorNode::Amplitude(a) => clip(
                scaled(a.oscillator.spec_value(f, t, sines), a.amplitude as int, SCALE as int),
            ),
            OscillatorNode::Composite(cs) => spec_sum_values(cs@, f, t, sines),
        }
    }

    /// Number of leading sine samples a bank must provide for `value`.
    #[verifier::loop_isolation(false)]
    pub fn harmonics(&self) -> (r: usize)
        ensures
            r == self.spec_harmonics(),
        decreases self,
    {
        match self {
            OscillatorNode::Sine(_) => 1,
            OscillatorNode::Square(_) => 0,
            OscillatorNode::Triangle(_) => 0,
            OscillatorNode::Sawtooth(s) => s.num_sinewaves,
            OscillatorNode::SawtoothFast(_) => 0,
            OscillatorNode::Amplitude(a) => a.oscillator.harmonics(),
            OscillatorNode::Composite(cs) => {
                let mut m: usize = 0;
                let mut i: usize = 0;
                while i < cs.len()
                    invariant
                        i <= cs.len(),
                        m == spec_max_harmonics(cs@.subrange(0, i as int)),
                    decreases cs.len() - i,
                {
                    let h = cs[i].harmonics();
                    if h > m {
                        m = h;
                    }
                    i += 1;
                    proof {
                        assert(cs@.subrange(0, i as int).drop_last() =~= cs@.subrange(
                            0,
                            i as int - 1,
                        ));
                    }
                }
                proof {
                    assert(cs@.subrange(0, cs@.len() as int) =~= cs@);
                }
                m
            },
        }
    }

    /// Evaluate the node at frequency `f` (micro-hertz) and time `t`
    /// (microseconds), reading the sine wave's samples from `sines`.
    #[verifier::loop_isolation(false)]
    pub fn value(&self, f: u64, t: u64, sines: &Vec<i64>) -> (r: i64)
        requires
            self.spec_harmonics() <= sines@.len(),
        ensures
            r == self.spec_value(f as int, t as int, sines@),
            -CLIP <= r <= CLIP,
        decreases self,
    {
        match self {
            OscillatorNode::Sine(_) => clamp(sines[0]),
            OscillatorNode::Square(sq) => sq.value(f, t),
            OscillatorNode::Triangle(tr) => tr.value(f, t),
            OscillatorNode::Sawtooth(s) => s.value(sines),
            OscillatorNode::SawtoothFast(sf) => sf.value(f, t),
            OscillatorNode::Amplitude(a) => {
                let child = a.oscillator.value(f, t, sines);
                mul_div_clip(child, a.amplitude, SCALE)
            },
            OscillatorNode::Composite(cs) => {
                let mut acc: i64 = 0;
                let mut i: usize = 0;
                while i < cs.len()
                    invariant
                        i <= cs.len(),
                        acc == spec_sum_values(
                            cs@.subrange(0, i as int),
                            f as int,
                            t as int,
                            sines@,
                        ),
                        -CLIP <= acc <= CLIP,
                        spec_max_harmonics(cs@) <= sines@.len(),
                    decreases cs.len() - i,
                {
                    proof {
                        lemma_max_harmonics_elem(cs@, i as int);
                    }
                    let v = cs[i].value(f, t, sines);
                    acc = clip_add(acc, v);
                    i += 1;
                    proof {
                        assert(cs@.subrange(0, i as int).drop_last() =~= cs@.subrange(
                            0,
                            i as int - 1,
                        ));
                    }
                }
                proof {
                    assert(cs@.subrange(0, cs@.len() as int) =~= cs@);
                }
                acc
            },
        }
    }
}

/// Every node of a sequence needs at most as many harmonics as the
/// sequence's maximum.
proof fn lemma_max_harmonics_elem(s: Seq<OscillatorNode>, i: int)
    requires
        0 <= i < s.len(),
    ensures
        s[i].spec_harmonics() <= spec_max_harmonics(s),
    decreases s.len(),
{
    if i == s.len() - 1 {
    } else {
        lemma_max_harmonics_elem(s.drop_last(), i);
        assert(s.drop_last()[i] == s[i]);
    }
}

impl Sawtooth {
    /// The additive-synthesis sawtooth built from the first
    /// `num_sinewaves` entries of the sine-sample bank.
    pub fn value(&self, sines: &Vec<i64>) -> (r: i64)
        requires
            self.num_sinewaves <= sines@.len(),
        ensures
            r == spec_sawtooth(self.num_sinewaves as int, sines@),
            -CLIP <= r <= CLIP,
    {
        let mut acc: i64 = 0;
        let mut i: usize = 0;
        while i < self.num_sinewaves
            invariant
                i <= self.num_sinewaves <= sines@.len(),
                acc == spec_saw_sum(i as int, sines@),
                -CLIP <= acc <= CLIP,
            decreases self.num_sinewaves - i,
        {
            let term = mul_div_clip(sines[i], -1, (i + 1) as u64);
            acc = clip_add(acc, term);
            i += 1;
        }
        mul_div_clip(acc, TWO_OVER_PI, SCALE)
    }
}

} // verus!
