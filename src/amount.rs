use vstd::prelude::*;

verus! {

/// Number of fractional decimal digits an `Amount` carries.
pub const SCALE_DIGITS: u32 = 4;

/// Powers of ten over the integers.
pub open spec fn pow10(n: nat) -> int
    decreases n,
{
    if n == 0 {
        1
    } else {
        10 * pow10((n - 1) as nat)
    }
}

/// An exact, non-negative fixed-point money amount, counted in ten-thousandths.
#[derive(Clone, Copy, Debug, PartialEq, Eq, Structural)]
pub struct Amount {
    pub units: u128,
}

/// The number of ten-thousandths a decimal `mantissa / 10^scale` stands for, when that
/// is a non-negative whole number.
pub open spec fn scaled_units(mantissa: int, scale: nat) -> Option<int> {
    if mantissa < 0 {
        None
    } else if scale <= SCALE_DIGITS {
        Some(mantissa * pow10((SCALE_DIGITS - scale) as nat))
    } else if mantissa % pow10((scale - SCALE_DIGITS) as nat) == 0 {
        Some(mantissa / pow10((scale - SCALE_DIGITS) as nat))
    } else {
        None
    }
}

/// The amount a decimal given as mantissa and scale stands for, if it is representable.
pub open spec fn amount_of_parts(parts: Option<(i128, u32)>) -> Option<Amount> {
    match parts {
        Some((m, s)) => match scaled_units(m as int, s as nat) {
            Some(u) => if u <= u128::MAX {
                Some(Amount { units: u as u128 })
            } else {
                None
            },
            None => None,
        },
        None => None,
    }
}

/// What `rust_decimal` reads from a decimal text: its mantissa and scale.
pub uninterp spec fn decimal_parts(text: Seq<char>) -> Option<(i128, u32)>;

/// Relies on `<rust_decimal::Decimal as FromStr>::from_str`, with `Decimal::mantissa` and
/// `Decimal::scale`: the parsed value is `mantissa / 10^scale`, and a scale never exceeds 28.
#[verifier::external_body]
fn parse_decimal(text: &str) -> (r: Option<(i128, u32)>)
    ensures
        r == decimal_parts(text@),
        r matches Some((m, s)) ==> s <= 28,
{
    match <rust_decimal::Decimal as core::str::FromStr>::from_str(text) {
        Ok(d) => Some((d.mantissa(), d.scale())),
        Err(_) => None,
    }
}

proof fn lemma_pow10_positive(n: nat)
    ensures
        pow10(n) >= 1,
    decreases n,
{
    if n > 0 {
        lemma_pow10_positive((n - 1) as nat);
    }
}

proof fn lemma_pow10_monotone(a: nat, b: nat)
    requires
        a <= b,
    ensures
        pow10(a) <= pow10(b),
    decreases b,
{
    if a < b {
        lemma_pow10_monotone(a, (b - 1) as nat);
        lemma_pow10_positive((b - 1) as nat);
    }
}

fn pow10_exec(n: u32) -> (r: u128)
    requires
        n <= 24,
    ensures
        r == pow10(n as nat),
{
    proof {
        lemma_pow10_monotone(n as nat, 24);
        reveal_with_fuel(pow10, 25);
        assert(pow10(24) == 1000000000000000000000000);
    }
    let mut r: u128 = 1;
    let mut i: u32 = 0;
    while i < n
        invariant
            i <= n,
            n <= 24,
            r == pow10(i as nat),
            pow10(n as nat) <= 1000000000000000000000000,
        decreases n - i,
    {
        proof {
            lemma_pow10_monotone((i + 1) as nat, n as nat);
        }
        r = r * 10;
        i = i + 1;
    }
    r
}

impl Amount {
    /// The zero amount.
    pub fn zero() -> (r: Amount)
        ensures
            r.units == 0,
    {
        Amount { units: 0 }
    }

    /// An amount of `units` ten-thousandths.
    pub fn from_units(units: u128) -> (r: Amount)
        ensures
            r.units == units,
    {
        Amount { units }
    }

    /// The amount `mantissa / 10^scale`, or `None` when it is negative, has more than four
    /// significant fractional digits, or does not fit.
    fn from_parts(mantissa: i128, scale: u32) -> (r: Option<Amount>)
        requires
            scale <= 28,
        ensures
            r == amount_of_parts(Some((mantissa, scale))),
    {
        if mantissa < 0 {
            return None;
        }
        let m = mantissa as u128;
        if scale <= SCALE_DIGITS {
            let factor = pow10_exec(SCALE_DIGITS - scale);
            match m.checked_mul(factor) {
                Some(u) => Some(Amount { units: u }),
                None => None,
            }
        } else {
            let divisor = pow10_exec(scale - SCALE_DIGITS);
            proof {
                lemma_pow10_positive((scale - SCALE_DIGITS) as nat);
            }
            if m % divisor == 0 {
                Some(Amount { units: m / divisor })
            } else {
                None
            }
        }
    }

    /// Reads a decimal text such as `"12.5"`; `None` when it is no decimal or the value is
    /// not representable as an amount.
    pub fn parse(text: &str) -> (r: Option<Amount>)
        ensures
            r == amount_of_parts(decimal_parts(text@)),
    {
        match parse_decimal(text) {
            Some((m, s)) => Amount::from_parts(m, s),
            None => None,
        }
    }
}

} // verus!
