use vstd::prelude::*;
use crate::decimal::{
    dec_render, lemma_pow10_adds, lemma_pow10_monotone, pow10, push_dec_render, Dec,
    MANTISSA_LIMIT,
};
use vstd::string::StringExecFns;
use crate::error::Error;

verus! {

/// The settlement asset carries six fractional decimal digits.
pub const USDC_DECIMALS: u32 = 6;

/// The exact fixed-point image of a non-negative decimal `mantissa / 10^scale`:
/// the value scaled by 10^6 and truncated toward zero.
pub open spec fn fixed_units(mantissa: u128, scale: u32) -> int {
    mantissa as int * pow10(6) as int / pow10(scale as nat) as int
}

/// Removes trailing zeros, truncates to 6 decimals, and reinterprets the
/// mantissa as the exchange's fixed-point integer.
///
/// Truncation, never rounding: the result never overpays relative to the
/// caller's intent. A negative amount is a validation error.
pub fn to_fixed_u128(d: Dec) -> (r: Result<u128, Error>)
    requires
        d.wf(),
    ensures
        r is Err <==> d.negative,
        r matches Err(e) ==> e is Validation && e.message_spec()
            == "amount cannot be negative: "@ + dec_render(d),
        !d.negative && fixed_units(d.mantissa, d.scale) < MANTISSA_LIMIT ==> r == Ok::<
            u128,
            Error,
        >(fixed_units(d.mantissa, d.scale) as u128),
        r matches Ok(v) ==> v <= fixed_units(d.mantissa, d.scale),
{
    if d.is_sign_negative() {
        let mut m = String::from_str("amount cannot be negative: ");
        push_dec_render(&mut m, d);
        proof {
            assert(m@ =~= "amount cannot be negative: "@ + dec_render(d));
        }
        return Err(Error::Validation(m));
    }
    let n = d.normalize();
    let t = n.trunc_with_scale(USDC_DECIMALS);
    proof {
        lemma_to_fixed_units(d, n, t);
    }
    Ok(t.mantissa())
}

/// Relates the normalize-then-truncate pipeline to the exact fixed-point
/// image of the input.
proof fn lemma_to_fixed_units(d: Dec, n: Dec, t: Dec)
    requires
        d.wf(),
        n.wf(),
        t.wf(),
        n.scale <= d.scale,
        d.mantissa as int == n.mantissa as int * pow10((d.scale - n.scale) as nat),
        n.scale >= 6 ==> t.scale == 6 && t.mantissa as int == n.mantissa as int / pow10(
            (n.scale - 6) as nat,
        ) as int,
        n.scale <= 6 ==> n.scale <= t.scale <= 6 && t.mantissa as int == n.mantissa as int
            * pow10((t.scale - n.scale) as nat),
        n.scale <= 6 && n.mantissa as int * pow10((6 - n.scale) as nat) < MANTISSA_LIMIT
            ==> t.scale == 6,
    ensures
        fixed_units(d.mantissa, d.scale) < MANTISSA_LIMIT ==> t.mantissa as int == fixed_units(
            d.mantissa,
            d.scale,
        ),
        t.mantissa as int <= fixed_units(d.mantissa, d.scale),
{
    let ds = (d.scale - n.scale) as nat;
    let ns = n.scale as nat;
    let m = n.mantissa as int;
    let p6 = pow10(6) as int;
    let pds = pow10(ds) as int;
    let pns = pow10(ns) as int;
    lemma_pow10_adds(ds, ns);
    lemma_pow10_monotone(0, ds);
    lemma_pow10_monotone(0, ns);
    lemma_pow10_monotone(0, 6);
    // the trailing zeros cancel: d.m * 10^6 / 10^(d.s) == m * 10^6 / 10^ns
    assert((m * pds) * p6 == pds * (m * p6)) by (nonlinear_arith);
    assert(pds * (m * p6) >= 0) by (nonlinear_arith)
        requires
            pds >= 1 && m >= 0 && p6 >= 1,
    ;
    vstd::arithmetic::div_mod::lemma_div_denominator(pds * (m * p6), pds, pns);
    vstd::arithmetic::div_mod::lemma_div_multiples_vanish(m * p6, pds);
    assert(pow10(d.scale as nat) == pds * pns);
    assert(fixed_units(d.mantissa, d.scale) == m * p6 / pns);
    if n.scale >= 6 {
        // truncation: m * 10^6 / 10^ns == m / 10^(ns - 6), exactly the result
        let e = (n.scale - 6) as nat;
        let pe = pow10(e) as int;
        lemma_pow10_adds(6, e);
        lemma_pow10_monotone(0, e);
        assert(pns == p6 * pe);
        assert(m * p6 == p6 * m) by (nonlinear_arith);
        assert(m * p6 >= 0) by (nonlinear_arith)
            requires
                m >= 0 && p6 >= 1,
        ;
        vstd::arithmetic::div_mod::lemma_div_denominator(m * p6, p6, pe);
        vstd::arithmetic::div_mod::lemma_div_multiples_vanish(m, p6);
        assert(fixed_units(d.mantissa, d.scale) == m / pe);
        assert(t.mantissa as int == fixed_units(d.mantissa, d.scale));
    } else {
        // padding: the image is m * 10^(6 - ns), an exact integer
        let e = (6 - n.scale) as nat;
        let pe = pow10(e) as int;
        lemma_pow10_adds(e, ns);
        lemma_pow10_monotone(0, e);
        assert(m * p6 == pns * (m * pe)) by (nonlinear_arith)
            requires
                p6 == pe * pns,
        ;
        assert(pns * (m * pe) >= 0) by (nonlinear_arith)
            requires
                pns >= 1 && m >= 0 && pe >= 1,
        ;
        vstd::arithmetic::div_mod::lemma_div_multiples_vanish(m * pe, pns);
        assert(fixed_units(d.mantissa, d.scale) == m * pe);
        // partial padding stops at or below the full image
        let j = (t.scale - n.scale) as nat;
        lemma_pow10_monotone(j, e);
        assert(m * pow10(j) as int <= m * pe) by (nonlinear_arith)
            requires
                m >= 0,
                pow10(j) as int <= pe,
        ;
    }
}

/// Truncating an already six-digit fixed-point value again yields the same
/// integer: the fixed-point conversion is idempotent.
pub proof fn lemma_fixed_point_idempotent(v: u128)
    ensures
        fixed_units(v, USDC_DECIMALS) == v,
{
    lemma_pow10_monotone(0, 6);
    vstd::arithmetic::div_mod::lemma_div_multiples_vanish(v as int, pow10(6) as int);
    assert(v as int * pow10(6) as int == pow10(6) as int * v as int) by (nonlinear_arith);
}

/// Masks a raw salt seed to the lower 53 bits, so that the resulting salt is
/// always losslessly representable as an IEEE-754 double on the exchange side.
pub fn to_ieee_754_int(salt: u64) -> (r: u64)
    ensures
        r == salt & 0x1F_FFFF_FFFF_FFFFu64,
        r <= 0x1F_FFFF_FFFF_FFFFu64,
{
    proof {
        assert(salt & 0x1F_FFFF_FFFF_FFFFu64 <= 0x1F_FFFF_FFFF_FFFFu64) by (bit_vector);
    }
    salt & 0x1F_FFFF_FFFF_FFFF
}

} // verus!
