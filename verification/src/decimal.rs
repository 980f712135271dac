use vstd::prelude::*;
use crate::error::{dec_str, digit_char, push_decimal_value, Error};
use vstd::string::StringExecFns;

verus! {

/// Mantissas are kept below 2^96, the width of the decimal representation
/// the exchange tooling works with.
pub const MANTISSA_LIMIT: u128 = 0x1000000000000000000000000;

/// The largest representable fractional scale.
pub const MAX_SCALE: u32 = 28;

pub open spec fn pow10(e: nat) -> nat
    decreases e,
{
    if e == 0 {
        1
    } else {
        10 * pow10((e - 1) as nat)
    }
}

pub proof fn lemma_pow10_adds(a: nat, b: nat)
    ensures
        pow10(a + b) == pow10(a) * pow10(b),
    decreases a,
{
    if a == 0 {
        assert(pow10(0) == 1);
        assert(pow10(a + b) == pow10(b));
    } else {
        lemma_pow10_adds((a - 1) as nat, b);
        assert(pow10(a) == 10 * pow10((a - 1) as nat));
        assert(pow10(a + b) == 10 * pow10(((a - 1) as nat) + b));
        assert(pow10(a + b) == pow10(a) * pow10(b)) by (nonlinear_arith)
            requires
                pow10(a + b) == 10 * pow10(((a - 1) as nat) + b),
                pow10(((a - 1) as nat) + b) == pow10((a - 1) as nat) * pow10(b),
                pow10(a) == 10 * pow10((a - 1) as nat),
        ;
    }
}

pub proof fn lemma_pow10_monotone(a: nat, b: nat)
    requires
        a <= b,
    ensures
        pow10(a) <= pow10(b),
        pow10(a) >= 1,
    decreases b,
{
    if b == 0 {
    } else if a == b {
        lemma_pow10_monotone((a - 1) as nat, (b - 1) as nat);
    } else {
        lemma_pow10_monotone(a, (b - 1) as nat);
    }
}

/// An exact unpacked decimal: the represented value is
/// `(-1)^negative * mantissa / 10^scale`.
///
/// This is the plain-value model the order pipeline computes with; the
/// unverified edge converts the caller's decimal type into and out of it.
#[derive(Clone, Copy, Debug, PartialEq, Eq, Structural)]
pub struct Dec {
    pub negative: bool,
    pub mantissa: u128,
    pub scale: u32,
}

impl Dec {
    /// Representation invariant: the scale and mantissa stay inside the
    /// 96-bit decimal domain.
    pub open spec fn wf(self) -> bool {
        self.scale <= MAX_SCALE && self.mantissa < MANTISSA_LIMIT
    }

    /// Builds a decimal, rejecting values outside the representable domain.
    pub fn new(negative: bool, mantissa: u128, scale: u32) -> (r: Result<Dec, Error>)
        ensures
            r is Ok <==> (mantissa < MANTISSA_LIMIT && scale <= MAX_SCALE),
            r matches Ok(d) ==> d == (Dec { negative, mantissa, scale }) && d.wf(),
            r matches Err(e) ==> e is Validation,
    {
        if mantissa < MANTISSA_LIMIT && scale <= MAX_SCALE {
            Ok(Dec { negative, mantissa, scale })
        } else {
            Err(Error::validation("decimal out of the representable range"))
        }
    }

    pub fn is_sign_negative(&self) -> (r: bool)
        ensures
            r == self.negative,
    {
        self.negative
    }

    pub fn is_zero(&self) -> (r: bool)
        ensures
            r == (self.mantissa == 0),
    {
        self.mantissa == 0
    }

    pub fn scale(&self) -> (r: u32)
        ensures
            r == self.scale,
    {
        self.scale
    }

    pub fn mantissa(&self) -> (r: u128)
        ensures
            r == self.mantissa,
    {
        self.mantissa
    }

    /// Strips trailing zero digits without changing the represented value.
    pub fn normalize(&self) -> (r: Dec)
        requires
            self.wf(),
        ensures
            r.wf(),
            r.negative == self.negative,
            r.scale <= self.scale,
            r.mantissa <= self.mantissa,
            self.mantissa as int == r.mantissa as int * pow10((self.scale - r.scale) as nat),
            r.scale > 0 ==> r.mantissa % 10 != 0,
    {
        let mut m: u128 = self.mantissa;
        let mut s: u32 = self.scale;
        proof {
            assert((self.scale - s) as nat == 0);
            assert(pow10((self.scale - s) as nat) == 1);
        }
        while s > 0 && m % 10 == 0
            invariant
                s <= self.scale,
                m <= self.mantissa,
                self.mantissa < MANTISSA_LIMIT,
                self.mantissa as int == m as int * pow10((self.scale - s) as nat),
            decreases s,
        {
            proof {
                let d = (self.scale - s) as nat;
                vstd::arithmetic::div_mod::lemma_fundamental_div_mod(m as int, 10);
                assert(m as int == (m as int / 10) * 10);
                assert(((m as int / 10) * 10) * pow10(d) == (m as int / 10) * (10 * pow10(d)))
                    by (nonlinear_arith);
                assert(10 * pow10(d) == pow10(d + 1));
            }
            m = m / 10;
            s = s - 1;
        }
        Dec { negative: self.negative, mantissa: m, scale: s }
    }

    /// Rescales to exactly `target` fractional digits: padding with zeros on
    /// the way up (stopping early only at the edge of the 96-bit domain) and
    /// truncating, never rounding, on the way down.
    pub fn trunc_with_scale(&self, target: u32) -> (r: Dec)
        requires
            self.wf(),
            target <= MAX_SCALE,
        ensures
            r.wf(),
            r.negative == self.negative,
            self.scale >= target ==> r.scale == target && r.mantissa as int == self.mantissa
                as int / pow10((self.scale - target) as nat) as int,
            self.scale <= target ==> self.scale <= r.scale <= target && r.mantissa as int
                == self.mantissa as int * pow10((r.scale - self.scale) as nat),
            self.scale <= target && self.mantissa as int * pow10((target - self.scale) as nat)
                < MANTISSA_LIMIT ==> r.scale == target,
    {
        if self.scale > target {
            let mut m: u128 = self.mantissa;
            let mut s: u32 = self.scale;
            proof {
                assert(pow10(0) == 1);
                vstd::arithmetic::div_mod::lemma_div_basics(self.mantissa as int);
            }
            while s > target
                invariant
                    target <= s <= self.scale,
                    m <= self.mantissa,
                    self.mantissa < MANTISSA_LIMIT,
                    m as int == self.mantissa as int / pow10((self.scale - s) as nat) as int,
                decreases s,
            {
                proof {
                    let d = (self.scale - s) as nat;
                    lemma_pow10_monotone(0, d);
                    vstd::arithmetic::div_mod::lemma_div_denominator(
                        self.mantissa as int,
                        pow10(d) as int,
                        10,
                    );
                    assert(pow10(d) * 10 == 10 * pow10(d)) by (nonlinear_arith);
                    assert(10 * pow10(d) == pow10(d + 1));
                    vstd::arithmetic::div_mod::lemma_div_is_ordered_by_denominator(
                        self.mantissa as int,
                        pow10(d) as int,
                        pow10(d + 1) as int,
                    );
                    lemma_pow10_monotone(d, d + 1);
                }
                m = m / 10;
                s = s - 1;
            }
            Dec { negative: self.negative, mantissa: m, scale: s }
        } else {
            let mut m: u128 = self.mantissa;
            let mut s: u32 = self.scale;
            proof {
                assert((s - self.scale) as nat == 0);
                assert(pow10((s - self.scale) as nat) == 1);
                assert(m as int == self.mantissa as int * pow10((s - self.scale) as nat));
            }
            while s < target && m <= (MANTISSA_LIMIT - 1) / 10
                invariant
                    self.scale <= s <= target,
                    m < MANTISSA_LIMIT,
                    m as int == self.mantissa as int * pow10((s - self.scale) as nat),
                decreases target - s,
            {
                proof {
                    let d = (s - self.scale) as nat;
                    vstd::arithmetic::div_mod::lemma_fundamental_div_mod(
                        MANTISSA_LIMIT as int - 1,
                        10,
                    );
                    assert(m * 10 < MANTISSA_LIMIT);
                    assert((self.mantissa as int * pow10(d)) * 10 == self.mantissa as int * (10 * pow10(d)))
                        by (nonlinear_arith);
                    assert(10 * pow10(d) == pow10(d + 1));
                }
                m = m * 10;
                s = s + 1;
            }
            proof {
                assert(pow10(0) == 1);
                vstd::arithmetic::div_mod::lemma_div_basics(self.mantissa as int);
                if s < target {
                    vstd::arithmetic::div_mod::lemma_fundamental_div_mod(
                        MANTISSA_LIMIT as int - 1,
                        10,
                    );
                    assert(m * 10 >= MANTISSA_LIMIT);
                    let d = (s - self.scale) as nat;
                    let t = (target - self.scale) as nat;
                    lemma_pow10_adds(d, (t - d) as nat);
                    lemma_pow10_monotone(1, (t - d) as nat);
                    assert(self.mantissa as int * pow10(t) == m as int * pow10((t - d) as nat))
                        by (nonlinear_arith)
                        requires
                            pow10(t) == pow10(d) * pow10((t - d) as nat),
                            m as int == self.mantissa as int * pow10(d),
                    ;
                    assert(m as int * pow10((t - d) as nat) >= m as int * 10) by (nonlinear_arith)
                        requires
                            pow10((t - d) as nat) >= 10,
                    ;
                }
            }
            Dec { negative: self.negative, mantissa: m, scale: s }
        }
    }

    /// Exact product of two decimals, or `None` when the product's mantissa
    /// leaves the representable domain.
    pub fn checked_times(&self, other: &Dec) -> (r: Option<Dec>)
        requires
            self.wf(),
            other.wf(),
            self.scale + other.scale <= MAX_SCALE,
        ensures
            r is Some <==> (self.mantissa as int * other.mantissa as int) < MANTISSA_LIMIT,
            r matches Some(d) ==> d == (Dec {
                negative: self.negative != other.negative,
                mantissa: (self.mantissa as int * other.mantissa as int) as u128,
                scale: (self.scale + other.scale) as u32,
            }) && d.wf(),
    {
        match self.mantissa.checked_mul(other.mantissa) {
            Some(m) => {
                if m < MANTISSA_LIMIT {
                    Some(
                        Dec {
                            negative: self.negative != other.negative,
                            mantissa: m,
                            scale: self.scale + other.scale,
                        },
                    )
                } else {
                    None
                }
            },
            None => None,
        }
    }
}

pub proof fn lemma_pow10_28()
    ensures
        pow10(28) == 10000000000000000000000000000,
{
    reveal_with_fuel(pow10, 30);
}

/// Ten to the `e`, executable, within the decimal domain.
pub fn pow10_u128(e: u32) -> (r: u128)
    requires
        e <= MAX_SCALE,
    ensures
        r == pow10(e as nat),
        r >= 1,
{
    let mut r: u128 = 1;
    let mut i: u32 = 0;
    proof {
        assert(pow10(0) == 1);
    }
    while i < e
        invariant
            i <= e <= 28,
            r == pow10(i as nat),
        decreases e - i,
    {
        proof {
            lemma_pow10_28();
            lemma_pow10_monotone((i + 1) as nat, 28);
            assert(10 * pow10(i as nat) == pow10(i as nat + 1));
        }
        r = r * 10;
        i = i + 1;
    }
    proof {
        lemma_pow10_monotone(0, e as nat);
    }
    r
}

/// Exactly `width` decimal digits of `v`, leading zeros kept: the fractional
/// part of a rendered decimal.
pub open spec fn pad_str(v: nat, width: nat) -> Seq<char>
    decreases width,
{
    if width == 0 {
        Seq::empty()
    } else {
        pad_str(v / 10, (width - 1) as nat) + seq![digit_char(v % 10)]
    }
}

/// The human-readable rendering of a decimal: optional sign, integer part,
/// and exactly `scale` fractional digits.
pub open spec fn dec_render(d: Dec) -> Seq<char> {
    let sign: Seq<char> = if d.negative {
        seq!['-']
    } else {
        Seq::empty()
    };
    if d.scale == 0 {
        sign + dec_str(d.mantissa as nat)
    } else {
        sign + dec_str((d.mantissa as int / pow10(d.scale as nat) as int) as nat) + seq!['.']
            + pad_str((d.mantissa as int % pow10(d.scale as nat) as int) as nat, d.scale as nat)
    }
}

fn push_padded(s: &mut String, v: u128, width: u32)
    ensures
        final(s)@ == old(s)@ + pad_str(v as nat, width as nat),
    decreases width,
{
    if width == 0 {
        proof {
            assert(old(s)@ + pad_str(v as nat, 0) =~= old(s)@);
        }
        return ;
    }
    push_padded(s, v / 10, width - 1);
    push_decimal_value(s, v % 10);
    proof {
        assert(dec_str((v % 10) as nat) =~= seq![digit_char((v % 10) as nat)]);
        assert(old(s)@ + pad_str((v / 10) as nat, (width - 1) as nat) + dec_str((v % 10) as nat)
            =~= old(s)@ + pad_str(v as nat, width as nat));
    }
}

/// Appends the rendering of a decimal, for error messages that carry the
/// offending value.
pub fn push_dec_render(s: &mut String, d: Dec)
    requires
        d.wf(),
    ensures
        final(s)@ == old(s)@ + dec_render(d),
{
    let ghost sign: Seq<char> = if d.negative {
        seq!['-']
    } else {
        Seq::empty()
    };
    if d.negative {
        s.append("-");
        proof {
            reveal_strlit("-");
            assert("-"@ =~= seq!['-']);
        }
    }
    proof {
        assert(s@ =~= old(s)@ + sign);
    }
    if d.scale == 0 {
        push_decimal_value(s, d.mantissa);
        proof {
            assert(old(s)@ + sign + dec_str(d.mantissa as nat) =~= old(s)@ + dec_render(d));
        }
    } else {
        let p = pow10_u128(d.scale);
        push_decimal_value(s, d.mantissa / p);
        s.append(".");
        proof {
            reveal_strlit(".");
            assert("."@ =~= seq!['.']);
        }
        push_padded(s, d.mantissa % p, d.scale);
        proof {
            assert(old(s)@ + sign + dec_str((d.mantissa / p) as nat) + "."@ + pad_str(
                (d.mantissa % p) as nat,
                d.scale as nat,
            ) =~= old(s)@ + dec_render(d));
        }
    }
}

} // verus!
