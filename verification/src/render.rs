use vstd::prelude::*;

verus! {

/// The ASCII code of the digit zero.
pub const ASCII_ZERO: u8 = 48;

/// The ASCII code of the minus sign.
pub const ASCII_MINUS: u8 = 45;

/// The fixed prefix of the driver's output line: the ASCII bytes of the text
/// `Result: `, including the trailing space.
pub open spec fn spec_line_prefix() -> Seq<u8> {
    seq![82u8, 101u8, 115u8, 117u8, 108u8, 116u8, 58u8, 32u8]
}

/// The ASCII digits of `n`, most significant first.
pub open spec fn spec_decimal_digits(n: nat) -> Seq<u8>
    decreases n,
{
    if n < 10 {
        seq![(ASCII_ZERO + n) as u8]
    } else {
        spec_decimal_digits(n / 10).push((ASCII_ZERO + n % 10) as u8)
    }
}

/// The decimal rendering of `v`: a minus sign for negative values, then the
/// digits of the magnitude.
pub open spec fn spec_decimal(v: int) -> Seq<u8> {
    if v < 0 {
        seq![ASCII_MINUS] + spec_decimal_digits((-v) as nat)
    } else {
        spec_decimal_digits(v as nat)
    }
}

/// The exact text of the driver's output line for a result value, without the
/// trailing newline: the fixed prefix followed by the decimal rendering of
/// the value.
pub open spec fn spec_result_line(v: int) -> Seq<u8> {
    spec_line_prefix() + spec_decimal(v)
}

/// Append the decimal digits of `n`, most significant first.
fn push_decimal_digits(n: u32, out: &mut Vec<u8>)
    ensures
        final(out)@ == old(out)@ + spec_decimal_digits(n as nat),
    decreases n,
{
    if n >= 10 {
        push_decimal_digits(n / 10, out);
    }
    let digit = ASCII_ZERO + (n % 10) as u8;
    out.push(digit);
}

/// The decimal rendering of `value` as ASCII bytes.
pub fn render_decimal(value: i32) -> (out: Vec<u8>)
    ensures
        out@ == spec_decimal(value as int),
{
    let mut out: Vec<u8> = Vec::new();
    if value < 0 {
        out.push(ASCII_MINUS);
        let magnitude = (-(value as i64)) as u32;
        push_decimal_digits(magnitude, &mut out);
    } else {
        push_decimal_digits(value as u32, &mut out);
    }
    out
}

/// The driver's output line for `value` as ASCII bytes, without the trailing
/// newline.
pub fn render_result_line(value: i32) -> (out: Vec<u8>)
    ensures
        out@ == spec_result_line(value as int),
{
    let mut out: Vec<u8> = vec![82u8, 101u8, 115u8, 117u8, 108u8, 116u8, 58u8, 32u8];
    let mut digits = render_decimal(value);
    out.append(&mut digits);
    out
}

} // verus!
