//! Pure bit-level codecs: undervolt offset in millivolts to and from the
//! 11-bit mailbox field, current limit in milliamps to the mailbox command
//! word, and RAPL time-window duration to the (exponent, fraction) pair.
//!
//! The hardware field scales voltages by 1.024 (1024 steps per volt).
//! All quantities here are integers: millivolts, milliamps, and time in
//! whatever single unit the caller picks for both target and unit
//! arguments.  Rational factors such as 1.024 = 128/125 are handled with
//! exact integer rounding, half away from zero.

use vstd::arithmetic::div_mod::{lemma_fundamental_div_mod, lemma_mod_bound};
use vstd::arithmetic::power2::{lemma_pow2_pos, lemma_pow2_strictly_increases, lemma2_to64, pow2};
use vstd::arithmetic::mul::lemma_mul_inequality;
use vstd::bits::lemma_u64_shl_is_mul;
use vstd::prelude::*;

verus! {

/// A target that the hardware encoding cannot represent.
#[derive(Clone, Copy, Debug, PartialEq, Eq, Structural)]
pub enum CodecError {
    /// An undervolt target outside the 11-bit field's range.
    TargetOutOfRange,
    /// A duration outside the hardware-representable time windows.
    WindowOutOfRange,
}

/// `a / b` rounded to the nearest integer, halves away from zero.
pub open spec fn rdiv(a: int, b: int) -> int
    recommends
        b > 0,
{
    if a >= 0 {
        (2 * a + b) / (2 * b)
    } else {
        -((2 * (-a) + b) / (2 * b))
    }
}

/// `b * rdiv(a, b)` is within `b/2` of `a`: nearest-integer rounding
/// misplaces the quotient by at most half a divisor.
pub proof fn lemma_rdiv_close(a: int, b: int)
    requires
        b > 0,
    ensures
        2 * (b * rdiv(a, b) - a) <= b,
        2 * (a - b * rdiv(a, b)) <= b,
{
    if a >= 0 {
        let q = (2 * a + b) / (2 * b);
        lemma_fundamental_div_mod(2 * a + b, 2 * b);
        lemma_mod_bound(2 * a + b, 2 * b);
        assert((2 * b) * q == 2 * (b * q)) by (nonlinear_arith);
    } else {
        let q = (2 * (-a) + b) / (2 * b);
        lemma_fundamental_div_mod(2 * (-a) + b, 2 * b);
        lemma_mod_bound(2 * (-a) + b, 2 * b);
        assert((2 * b) * q == 2 * (b * q)) by (nonlinear_arith);
        assert(b * -q == -(b * q)) by (nonlinear_arith);
    }
}

// ---------------------------------------------------------------------
// Undervolt offset <-> register field
// ---------------------------------------------------------------------

/// The 11-bit undervolt field out of a 32-bit mailbox response word:
/// bit positions 21 to 31.
pub open spec fn spec_uv_field(word: u64) -> u64 {
    (word & 0xFFE0_0000) >> 21
}

/// The signed magnitude a raw field value stands for: values up to
/// 0x400 are non-negative, larger ones wrap below zero.
pub open spec fn spec_uv_offset(field: u64) -> int
    recommends
        field <= 0x7FF,
{
    if field <= 0x400 {
        field as int
    } else {
        field - 0x800
    }
}

/// Millivolts a raw field value decodes to: the signed magnitude
/// divided by 1.024 (that is, times 125/128), rounded to nearest.
pub open spec fn spec_uv_decode_field(field: u64) -> int {
    rdiv(spec_uv_offset(field) * 125, 128)
}

/// Millivolts a 32-bit mailbox response word decodes to.
pub open spec fn spec_undervolt_mv(word: u64) -> int {
    spec_uv_decode_field(spec_uv_field(word))
}

/// The signed magnitude a millivolt target encodes to: millivolts
/// times 1.024 (that is, times 128/125), rounded to nearest.
pub open spec fn spec_uv_encode(mv: int) -> int {
    rdiv(mv * 128, 125)
}

/// The raw 11-bit field carrying a signed magnitude, two's complement.
pub open spec fn spec_uv_field_of(offset: int) -> u64
    recommends
        -0x400 <= offset <= 0x400,
{
    if offset >= 0 {
        offset as u64
    } else {
        (offset + 0x800) as u64
    }
}

/// Decodes an undervolt mailbox response word to millivolts.
pub fn calc_undervolt_mv(read_value: u64) -> (mv: i64)
    ensures
        mv == spec_undervolt_mv(read_value),
        -1000 <= mv <= 1000,
{
    let field: u64 = (read_value & 0xFFE0_0000) >> 21;
    proof {
        assert((read_value & 0xFFE0_0000) >> 21 <= 0x7FF) by (bit_vector);
    }
    if field <= 0x400 {
        // magnitude in [0, 0x400]: rdiv(field * 125, 128)
        ((field * 250 + 128) / 256) as i64
    } else {
        // magnitude in [-0x3FF, -1]: field - 0x800
        let neg: u64 = 0x800 - field;
        -(((neg * 250 + 128) / 256) as i64)
    }
}

/// Encodes a millivolt target to the raw 11-bit field, or reports the
/// targets the field cannot carry (those outside [-1000, 1000] mV).
pub fn encode_undervolt_mv(mv: i64) -> (r: Result<u64, CodecError>)
    ensures
        r is Ok <==> -1000 <= mv <= 1000,
        r is Ok ==> r->Ok_0 == spec_uv_field_of(spec_uv_encode(mv as int)),
        r is Ok ==> r->Ok_0 <= 0x7FF,
        r is Err ==> r->Err_0 == CodecError::TargetOutOfRange,
{
    if mv < -1000 || mv > 1000 {
        Err(CodecError::TargetOutOfRange)
    } else if mv >= 0 {
        let e: u64 = ((mv as u64) * 256 + 125) / 250;
        Ok(e)
    } else {
        let m: u64 = (-mv) as u64;
        let e: u64 = (m * 256 + 125) / 250;
        Ok(0x800 - e)
    }
}

/// Undervolt round trip: any integer millivolt target from -999 to
/// 1000 survives encoding to the 11-bit field and decoding back
/// unchanged.  (-1000 mV is representable but shares field value 0x400
/// with +1000 mV, which decoding resolves as the positive boundary.)
pub proof fn lemma_undervolt_round_trip(mv: int)
    requires
        -999 <= mv <= 1000,
    ensures
        spec_uv_decode_field(spec_uv_field_of(spec_uv_encode(mv))) == mv,
{
    let e = spec_uv_encode(mv);
    lemma_rdiv_close(mv * 128, 125);
    assert(-1023 <= e <= 1024);
    let field = spec_uv_field_of(e);
    assert(spec_uv_offset(field) == e);
    let d = spec_uv_decode_field(field);
    lemma_rdiv_close(e * 125, 128);
    assert(128 * d - 128 * mv <= 126 && 128 * mv - 128 * d <= 126);
    assert(128 * d == 128 * mv);
}

// ---------------------------------------------------------------------
// Current limit (ICC max) -> command word
// ---------------------------------------------------------------------

/// The mailbox command word setting a plane's current limit: top byte
/// 0x80 (write-enabled), command sub-code 0x17 in bits 32-39, the plane
/// index in bits 40-47, and the current in quarter-amps (rounded to
/// nearest) in the low 32 bits.
pub open spec fn spec_icc_max_msr(plane: crate::tables::Plane, milliamps: u64) -> u64
    recommends
        rdiv(milliamps as int, 250) <= 0xFFFF_FFFF,
{
    0x8000_0017_0000_0000u64 | (plane.spec_index() << 40) | (rdiv(milliamps as int, 250) as u64)
}

/// Encodes a current-limit command word for one of the current planes.
pub fn calc_icc_max_msr(plane: crate::tables::Plane, milliamps: u64) -> (w: u64)
    requires
        plane.spec_is_current_plane(),
        rdiv(milliamps as int, 250) <= 0xFFFF_FFFF,
    ensures
        w == spec_icc_max_msr(plane, milliamps),
{
    proof {
        lemma_rdiv_close(milliamps as int, 250);
    }
    let quarters: u64 = (milliamps * 2 + 250) / 500;
    0x8000_0017_0000_0000u64 | (plane.index() << 40) | quarters
}

/// Decoding the fields back out of an encoded current-limit command
/// word yields the plane index and the rounded quarter-amp current, and
/// the write-enable and sub-code bytes hold their fixed values.
pub proof fn lemma_icc_max_fields(plane: crate::tables::Plane, milliamps: u64)
    requires
        plane.spec_is_current_plane(),
        rdiv(milliamps as int, 250) <= 0xFFFF_FFFF,
    ensures
        (spec_icc_max_msr(plane, milliamps) >> 40) & 0xFF == plane.spec_index(),
        spec_icc_max_msr(plane, milliamps) & 0xFFFF_FFFF == rdiv(milliamps as int, 250),
        (spec_icc_max_msr(plane, milliamps) >> 56) & 0xFF == 0x80,
        (spec_icc_max_msr(plane, milliamps) >> 32) & 0xFF == 0x17,
{
    let idx = plane.spec_index();
    let q = rdiv(milliamps as int, 250);
    lemma_rdiv_close(milliamps as int, 250);
    assert(0 <= q <= 0xFFFF_FFFF);
    let qw = q as u64;
    assert((0x8000_0017_0000_0000u64 | (idx << 40) | qw) >> 40 & 0xFF == idx
        && (0x8000_0017_0000_0000u64 | (idx << 40) | qw) & 0xFFFF_FFFF == qw
        && (0x8000_0017_0000_0000u64 | (idx << 40) | qw) >> 56 & 0xFF == 0x80
        && (0x8000_0017_0000_0000u64 | (idx << 40) | qw) >> 32 & 0xFF == 0x17) by (bit_vector)
        requires
            idx <= 4 && qw <= 0xFFFF_FFFFu64,
    ;
}

// ---------------------------------------------------------------------
// Time window -> (exponent, fraction) pair
// ---------------------------------------------------------------------

/// Whether the pair (y, z) represents a window at least as long as the
/// target: 2^y * (1 + z/4) * unit >= target, with the quarter cleared
/// by multiplying both sides by 4.
pub open spec fn spec_window_fits(y: int, z: int, target: int, unit: int) -> bool {
    4 * target <= pow2(y as nat) * (4 + z) * unit
}

/// Strict order of the Y-ascending, then Z-ascending search.
pub open spec fn spec_pair_lt(y2: int, z2: int, y: int, z: int) -> bool {
    y2 < y || (y2 == y && z2 < z)
}

/// Finds the smallest pair (Y, Z), Y in 0..32 and Z in 0..4 searched Y
/// first, whose window 2^Y * (1 + Z/4) * unit covers the target: the
/// minimal representable window not smaller than the target.  Target
/// and unit are in one and the same caller-chosen time unit.
pub fn calc_time_window_vars(target: u64, unit: u64) -> (r: Result<(u64, u64), CodecError>)
    ensures
        match r {
            Ok(p) => {
                &&& p.0 < 32 && p.1 < 4
                &&& spec_window_fits(p.0 as int, p.1 as int, target as int, unit as int)
                &&& forall|y2: int, z2: int|
                    0 <= y2 < 32 && 0 <= z2 < 4 && spec_pair_lt(y2, z2, p.0 as int, p.1 as int)
                        ==> !spec_window_fits(y2, z2, target as int, unit as int)
            },
            Err(e) => {
                &&& e == CodecError::WindowOutOfRange
                &&& forall|y2: int, z2: int|
                    0 <= y2 < 32 && 0 <= z2 < 4
                        ==> !spec_window_fits(y2, z2, target as int, unit as int)
            },
        },
{
    let mut y: u64 = 0;
    while y < 32
        invariant
            y <= 32,
            forall|y2: int, z2: int|
                0 <= y2 < y && 0 <= z2 < 4
                    ==> !spec_window_fits(y2, z2, target as int, unit as int),
        decreases 32 - y,
    {
        let mut z: u64 = 0;
        while z < 4
            invariant
                y < 32,
                z <= 4,
                forall|y2: int, z2: int|
                    0 <= y2 < y && 0 <= z2 < 4
                        ==> !spec_window_fits(y2, z2, target as int, unit as int),
                forall|z2: int|
                    0 <= z2 < z ==> !spec_window_fits(y as int, z2, target as int, unit as int),
            decreases 4 - z,
        {
            proof {
                lemma_pow2_pos(y as nat);
                lemma2_to64();
                if y < 31 {
                    lemma_pow2_strictly_increases(y as nat, 31);
                }
                assert(pow2(y as nat) <= 0x8000_0000);
                lemma_mul_inequality(pow2(y as nat) as int, 0x8000_0000, (4 + z) as int);
                lemma_u64_shl_is_mul((4 + z) as u64, y);
            }
            let scale: u64 = (4 + z) << y;
            assert(scale == (4 + z) * pow2(y as nat));
            assert(scale as int * unit as int <= 0x7_0000_0000int * 0xFFFF_FFFF_FFFF_FFFFint)
                by (nonlinear_arith)
                requires
                    scale <= 0x7_0000_0000u64 && unit <= 0xFFFF_FFFF_FFFF_FFFFu64,
            ;
            let window: u128 = (scale as u128) * (unit as u128);
            let need: u128 = 4 * (target as u128);
            proof {
                assert(window == pow2(y as nat) * (4 + z as int) * (unit as int))
                    by (nonlinear_arith)
                    requires
                        window == scale as int * unit as int
                            && scale == pow2(y as nat) * (4 + z as int),
                ;
            }
            if need <= window {
                return Ok((y, z));
            }
            z = z + 1;
        }
        y = y + 1;
    }
    Err(CodecError::WindowOutOfRange)
}

} // verus!
