use vstd::prelude::*;
use crate::digits::{decimal_digits, digit_byte, push_decimal, lemma_u32_digits_len};

verus! {

/// A temperature in tenths of a degree, in whatever units the appliance is set to.
///
/// The appliance reports and accepts temperatures with at most one fractional digit,
/// so a count of tenths holds every value exactly. Text with a sign, an exponent or
/// more than one fractional digit is no temperature, and a field holding it is malformed.
#[derive(Debug, Clone, Copy, PartialEq, Eq, Structural)]
pub struct Temperature {
    pub tenths: u32,
}

/// Decimal text of a temperature: whole degrees alone when the fraction is zero,
/// otherwise whole degrees, a point and the tenths digit (`65`, `64.3`).
pub open spec fn temperature_text(t: Temperature) -> Seq<u8> {
    let whole = (t.tenths / 10) as nat;
    let frac = (t.tenths % 10) as nat;
    if frac == 0 {
        decimal_digits(whole)
    } else {
        decimal_digits(whole).push(46u8).push(digit_byte(frac))
    }
}

/// The text of a temperature is one to twelve bytes long.
pub proof fn lemma_temperature_text_len(t: Temperature)
    ensures
        1 <= temperature_text(t).len() <= 12,
{
    lemma_u32_digits_len(t.tenths / 10);
}

/// Appends the decimal text of `t` to `out`.
pub fn push_temperature(out: &mut Vec<u8>, t: Temperature)
    ensures
        final(out)@ == old(out)@ + temperature_text(t),
{
    let whole = t.tenths / 10;
    let frac = t.tenths % 10;
    push_decimal(out, whole as u64);
    if frac != 0 {
        out.push(46u8);
        out.push(48u8 + frac as u8);
    }
    assert(final(out)@ =~= old(out)@ + temperature_text(t));
}

} // verus!
