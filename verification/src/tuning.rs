//! Translation of musical pitch and loudness into hardware quantities.
//!
//! Pitch: a MIDI key number `k` in `0..=127` maps to the equal-tempered
//! frequency `440 * 2^((k - 69) / 12)` Hz, rounded to the nearest integer,
//! anchored at A4 (key 69) = 440 Hz. The computation is exact fixed-point
//! integer arithmetic: one scaled constant per semitone of the top octave,
//! shifted down by whole octaves with rounding.
//!
//! Loudness: a discrete volume level `v` in `1..=6` maps to the PWM duty
//! numerator `2^v + 64` out of 256, an exponential curve biased by a constant
//! offset so that the perceived loudness steps are evenly graded. Volume 0
//! means silence and is never translated to a duty value: the engine disables
//! the PWM output instead.

use vstd::prelude::*;

verus! {

use vstd::arithmetic::div_mod::lemma_div_denominator;
use vstd::arithmetic::div_mod::lemma_div_is_ordered;
use vstd::arithmetic::div_mod::lemma_div_multiples_vanish;
use vstd::arithmetic::div_mod::lemma_fundamental_div_mod;
use vstd::arithmetic::div_mod::lemma_fundamental_div_mod_converse;
use vstd::arithmetic::power2::lemma2_to64;
use vstd::arithmetic::power2::lemma_pow2_strictly_increases;
use vstd::arithmetic::power2::pow2;

/// Frequency of the semitone `j` (for `j` in `0..12`) of the top MIDI octave,
/// keys 120 through 131, in units of 1/1024 Hz, rounded to the nearest unit:
/// `semitone_scaled(j) == round(440 * 2^((120 + j - 69) / 12) * 1024)`.
pub closed spec fn semitone_scaled(j: int) -> int {
    if j == 0 {
        8572947
    } else if j == 1 {
        9082720
    } else if j == 2 {
        9622807
    } else if j == 3 {
        10195009
    } else if j == 4 {
        10801236
    } else if j == 5 {
        11443511
    } else if j == 6 {
        12123977
    } else if j == 7 {
        12844906
    } else if j == 8 {
        13608704
    } else if j == 9 {
        14417920
    } else if j == 10 {
        15275254
    } else {
        16183568
    }
}

/// Divisor that takes a `semitone_scaled` value of the top octave down to the
/// octave `o` (for `o` in `0..=10`) in whole Hz: `2^(20 - o)`, that is, 1024
/// for the scaling times `2^(10 - o)` for the octave drop.
pub closed spec fn octave_div(o: int) -> int {
    if o == 0 {
        1048576
    } else if o == 1 {
        524288
    } else if o == 2 {
        262144
    } else if o == 3 {
        131072
    } else if o == 4 {
        65536
    } else if o == 5 {
        32768
    } else if o == 6 {
        16384
    } else if o == 7 {
        8192
    } else if o == 8 {
        4096
    } else {
        if o == 9 {
            2048
        } else {
            1024
        }
    }
}

/// Frequency in Hz of the MIDI key `key` in `0..=127`: the scaled semitone
/// constant divided down to the key's octave, rounded to the nearest Hz by
/// adding half the divisor before dividing.
pub open spec fn spec_frequency(key: int) -> int {
    (semitone_scaled(key % 12) + octave_div(key / 12) / 2) / octave_div(key / 12)
}

/// Frequency in Hz, rounded to the nearest integer, of the given MIDI key.
/// The reference pitch A4, key 69, maps to exactly 440 Hz.
pub fn frequency(key: u8) -> (r: u32)
    requires
        key < 128,
    ensures
        r == spec_frequency(key as int),
        key == 69 ==> r == 440,
{
    let j: u8 = key % 12;
    let o: u8 = key / 12;
    let t: u32 = if j == 0 {
        8572947
    } else if j == 1 {
        9082720
    } else if j == 2 {
        9622807
    } else if j == 3 {
        10195009
    } else if j == 4 {
        10801236
    } else if j == 5 {
        11443511
    } else if j == 6 {
        12123977
    } else if j == 7 {
        12844906
    } else if j == 8 {
        13608704
    } else if j == 9 {
        14417920
    } else if j == 10 {
        15275254
    } else {
        16183568
    };
    let d: u32 = if o == 0 {
        1048576
    } else if o == 1 {
        524288
    } else if o == 2 {
        262144
    } else if o == 3 {
        131072
    } else if o == 4 {
        65536
    } else if o == 5 {
        32768
    } else if o == 6 {
        16384
    } else if o == 7 {
        8192
    } else if o == 8 {
        4096
    } else if o == 9 {
        2048
    } else {
        1024
    };
    (t + d / 2) / d
}

/// The step from any key to the next key never lowers the frequency.
proof fn lemma_frequency_step(k: int)
    requires
        0 <= k < 127,
    ensures
        spec_frequency(k) <= spec_frequency(k + 1),
{
    let j = k % 12;
    let o = k / 12;
    lemma_fundamental_div_mod(k, 12);
    if j < 11 {
        lemma_fundamental_div_mod_converse(k + 1, 12, o, j + 1);
        let d = octave_div(o);
        lemma_div_is_ordered(
            semitone_scaled(j) + d / 2,
            semitone_scaled(j + 1) + d / 2,
            d,
        );
    } else {
        lemma_fundamental_div_mod_converse(k + 1, 12, o + 1, 0);
        let d = octave_div(o);
        let d2 = octave_div(o + 1);
        assert(d == 2 * d2);
        // Rewrite the next octave's rounded quotient over the common divisor d.
        lemma_div_denominator(2 * (semitone_scaled(0) + d2 / 2), 2, d2);
        lemma_div_multiples_vanish(semitone_scaled(0) + d2 / 2, 2);
        assert((semitone_scaled(0) + d2 / 2) / d2 == (2 * semitone_scaled(0) + d2) / d);
        lemma_div_is_ordered(
            semitone_scaled(11) + d / 2,
            2 * semitone_scaled(0) + d2,
            d,
        );
    }
}

/// Tuning law: over the MIDI key range the rounded equal-tempered frequency
/// is monotonically non-decreasing, and the reference pitch A4 (key 69) maps
/// to exactly 440 Hz.
pub proof fn lemma_frequency_monotone(k1: int, k2: int)
    requires
        0 <= k1 <= k2 < 128,
    ensures
        spec_frequency(k1) <= spec_frequency(k2),
        spec_frequency(69) == 440,
    decreases k2 - k1,
{
    if k1 < k2 {
        lemma_frequency_step(k2 - 1);
        lemma_frequency_monotone(k1, k2 - 1);
    }
}

/// PWM duty numerator, out of 256, for the volume level `v` in `1..=6`: an
/// exponential curve biased by a constant offset.
pub open spec fn duty_numer(v: int) -> int {
    pow2(v as nat) as int + 64
}

/// Duty numerator, out of 256, for the given volume level. Volume 0 is
/// silence, handled by disabling output, and has no duty value.
pub fn duty_level(volume: u8) -> (r: u16)
    requires
        1 <= volume <= 6,
    ensures
        r == duty_numer(volume as int),
        66 <= r <= 128,
{
    proof {
        lemma2_to64();
    }
    if volume == 1 {
        66
    } else if volume == 2 {
        68
    } else if volume == 3 {
        72
    } else if volume == 4 {
        80
    } else if volume == 5 {
        96
    } else {
        128
    }
}

/// Loudness law: between volume levels 1 and 6 the duty numerator is strictly
/// increasing, so each level is perceptibly louder than the one below it.
pub proof fn lemma_duty_strictly_increasing(v1: int, v2: int)
    requires
        1 <= v1 < v2 <= 6,
    ensures
        duty_numer(v1) < duty_numer(v2),
{
    lemma_pow2_strictly_increases(v1 as nat, v2 as nat);
}

/// Duty register value for a PWM channel whose full cycle is `max_duty`
/// counts and whose target duty fraction is `level` out of 256.
pub fn duty_for(max_duty: u16, level: u16) -> (r: u16)
    requires
        level <= 256,
    ensures
        r == (max_duty as int) * (level as int) / 256,
{
    proof {
        vstd::arithmetic::mul::lemma_mul_inequality(level as int, 256, max_duty as int);
        vstd::arithmetic::mul::lemma_mul_is_commutative(max_duty as int, level as int);
    }
    let wide: u32 = (max_duty as u32) * (level as u32) / 256;
    proof {
        lemma_scaled_duty_bound(max_duty as int, level as int);
    }
    wide as u16
}

/// A duty fraction of at most 256/256 never exceeds the full cycle.
proof fn lemma_scaled_duty_bound(m: int, l: int)
    requires
        0 <= m,
        0 <= l <= 256,
    ensures
        m * l / 256 <= m,
{
    vstd::arithmetic::mul::lemma_mul_inequality(l, 256, m);
    vstd::arithmetic::mul::lemma_mul_is_commutative(m, l);
    lemma_div_is_ordered(m * l, m * 256, 256);
    vstd::arithmetic::div_mod::lemma_div_by_multiple(m, 256);
}

} // verus!
