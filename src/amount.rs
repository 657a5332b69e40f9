use vstd::prelude::*;
use vstd::arithmetic::div_mod::{lemma_div_multiples_vanish, lemma_mod_multiples_basic};

verus! {

/// Number of decimal digits kept after the point: an amount is a whole
/// number of millionths.
pub const FRACTION_DIGITS: u32 = 6;

/// Largest scale that a decimal parsed by `rust_decimal` can carry.
pub const MAX_DECIMAL_SCALE: u32 = 28;

pub open spec fn pow10(n: nat) -> int
    decreases n,
{
    if n == 0 {
        1
    } else {
        10 * pow10((n - 1) as nat)
    }
}

pub proof fn lemma_pow10_positive(n: nat)
    ensures
        pow10(n) >= 1,
    decreases n,
{
    if n > 0 {
        lemma_pow10_positive((n - 1) as nat);
    }
}

pub open spec fn fits_i128(v: int) -> bool {
    i128::MIN <= v <= i128::MAX
}

/// The exact value of `mantissa / 10^scale` in millionths, when it is a whole
/// number of millionths that fits the representation.
pub open spec fn units_of(mantissa: int, scale: nat) -> Option<int> {
    let v = if scale <= FRACTION_DIGITS {
        Some(mantissa * pow10((FRACTION_DIGITS - scale) as nat))
    } else if mantissa % pow10((scale - FRACTION_DIGITS) as nat) == 0 {
        Some(mantissa / pow10((scale - FRACTION_DIGITS) as nat))
    } else {
        None
    };
    match v {
        Some(u) => if fits_i128(u) { Some(u) } else { None },
        None => None,
    }
}

/// The text form of a decimal number as `rust_decimal` reads it, as
/// `(mantissa, scale)`; `None` where the text is not a decimal number.
pub uninterp spec fn decimal_of(s: Seq<char>) -> Option<(i128, u32)>;

/// Relies on `rust_decimal::Decimal::from_str` to read decimal text, and on
/// `Decimal::mantissa` and `Decimal::scale` to take the value apart. The scale
/// of a `Decimal` never exceeds 28.
#[verifier::external_body]
fn parse_decimal(s: &str) -> (r: Option<(i128, u32)>)
    ensures
        r == decimal_of(s@),
        r matches Some(p) ==> p.1 <= MAX_DECIMAL_SCALE,
{
    <rust_decimal::Decimal as std::str::FromStr>::from_str(s).ok().map(|d| (d.mantissa(), d.scale()))
}

/// The amount written as the decimal text `s`, where it is one.
pub open spec fn amount_of(s: Seq<char>) -> Option<int> {
    match decimal_of(s) {
        Some(p) => units_of(p.0 as int, p.1 as nat),
        None => None,
    }
}

/// The text that `rust_decimal` writes for `mantissa / 10^scale` with trailing
/// zeros removed; `None` where that is not a `Decimal`.
pub uninterp spec fn decimal_text_of(mantissa: i128, scale: u32) -> Option<Seq<char>>;

/// Relies on `rust_decimal::Decimal::try_from_i128_with_scale` to build the
/// decimal, and on `Decimal::normalize` and its `Display` to write it.
#[verifier::external_body]
fn decimal_text(mantissa: i128, scale: u32) -> (r: Option<String>)
    ensures
        r matches Some(t) ==> decimal_text_of(mantissa, scale) == Some(t@),
        r is None ==> decimal_text_of(mantissa, scale) is None,
{
    rust_decimal::Decimal::try_from_i128_with_scale(mantissa, scale).ok().map(
        |d| d.normalize().to_string(),
    )
}

/// A signed amount of money, held exactly as a whole number of millionths.
#[derive(PartialEq, Eq, Structural, Clone, Copy, Debug)]
pub struct Amount {
    pub units: i128,
}

impl View for Amount {
    type V = int;

    open spec fn view(&self) -> int {
        self.units as int
    }
}

proof fn lemma_pow10_28()
    ensures
        pow10(28) == 10000000000000000000000000000,
{
    reveal_with_fuel(pow10, 29);
}

fn pow10_exec(n: u32) -> (r: i128)
    requires
        n <= 28,
    ensures
        r as int == pow10(n as nat),
{
    let mut r: i128 = 1;
    let mut i: u32 = 0;
    while i < n
        invariant
            i <= n <= 28,
            r as int == pow10(i as nat),
        decreases n - i,
    {
        proof {
            lemma_pow10_monotone((i + 1) as nat, 28);
            lemma_pow10_28();
        }
        r = r * 10;
        i = i + 1;
    }
    r
}

pub proof fn lemma_pow10_monotone(a: nat, b: nat)
    requires
        a <= b,
    ensures
        1 <= pow10(a) <= pow10(b),
    decreases b,
{
    lemma_pow10_positive(a);
    if a < b {
        lemma_pow10_monotone(a, (b - 1) as nat);
    }
}

impl Amount {
    pub fn zero() -> (r: Amount)
        ensures
            r@ == 0,
    {
        Amount { units: 0 }
    }

    /// The amount as decimal text, as it is stored; `None` where it is too
    /// large to be written as a `Decimal`.
    pub fn to_text(&self) -> (r: Option<String>)
        ensures
            r matches Some(t) ==> decimal_text_of(self.units, FRACTION_DIGITS) == Some(t@),
            r is None ==> decimal_text_of(self.units, FRACTION_DIGITS) is None,
    {
        decimal_text(self.units, FRACTION_DIGITS)
    }

    /// Reads decimal text such as `87.32` or `-12.13`.
    pub fn parse(s: &str) -> (r: Option<Amount>)
        ensures
            r matches Some(a) ==> amount_of(s@) == Some(a@),
            r is None ==> amount_of(s@) is None,
    {
        match parse_decimal(s) {
            Some(p) => Amount::from_decimal(p.0, p.1),
            None => None,
        }
    }

    /// The amount `mantissa / 10^scale`, or `None` where it is not a whole
    /// number of millionths or does not fit.
    pub fn from_decimal(mantissa: i128, scale: u32) -> (r: Option<Amount>)
        requires
            scale <= MAX_DECIMAL_SCALE,
        ensures
            r matches Some(a) ==> units_of(mantissa as int, scale as nat) == Some(a@),
            r is None ==> units_of(mantissa as int, scale as nat) is None,
    {
        if scale <= FRACTION_DIGITS {
            let p = pow10_exec(FRACTION_DIGITS - scale);
            match mantissa.checked_mul(p) {
                Some(u) => Some(Amount { units: u }),
                None => None,
            }
        } else {
            let p = pow10_exec(scale - FRACTION_DIGITS);
            proof {
                lemma_pow10_positive((scale - FRACTION_DIGITS) as nat);
            }
            let magnitude: u128 = if mantissa >= 0 {
                mantissa as u128
            } else {
                ((-(mantissa + 1)) as u128) + 1
            };
            let pu = p as u128;
            let q = magnitude / pu;
            let rem = magnitude % pu;
            if rem != 0 {
                proof {
                    lemma_signed_divisibility(mantissa as int, magnitude as int, pu as int);
                }
                None
            } else {
                proof {
                    lemma_signed_divisibility(mantissa as int, magnitude as int, pu as int);
                }
                assert(q <= magnitude / 2) by (nonlinear_arith)
                    requires q == magnitude / pu, pu >= 10;
                let units: i128 = if mantissa >= 0 {
                    q as i128
                } else {
                    -(q as i128)
                };
                Some(Amount { units })
            }
        }
    }
}

proof fn lemma_signed_divisibility(m: int, mag: int, p: int)
    requires
        p >= 1,
        mag == if m >= 0 { m } else { -m },
    ensures
        (m % p == 0) <==> (mag % p == 0),
        mag % p == 0 ==> m / p == (if m >= 0 { mag / p } else { -(mag / p) }),
{
    let q = mag / p;
    vstd::arithmetic::div_mod::lemma_fundamental_div_mod(mag, p);
    if mag % p == 0 {
        if m >= 0 {
        } else {
            assert(m == (-q) * p) by (nonlinear_arith)
                requires mag == p * q + 0, m == -mag;
            lemma_mod_multiples_basic(-q, p);
            lemma_div_multiples_vanish(-q, p);
        }
    } else {
        if m < 0 {
            if m % p == 0 {
                vstd::arithmetic::div_mod::lemma_fundamental_div_mod(m, p);
                let k = m / p;
                assert(mag == (-k) * p) by (nonlinear_arith)
                    requires m == p * k + 0, mag == -m;
                lemma_mod_multiples_basic(-k, p);
            }
        }
    }
}

} // verus!
