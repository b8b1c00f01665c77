//! Rendering of one serial output line.
//!
//! Each reading goes to the host as the ASCII bytes
//! `"Temperature: X.XX °C\r\n"` (the degree sign is the two UTF-8 bytes
//! 0xC2 0xB0), with the temperature printed in degrees with two decimal
//! places from its centidegree value.  The line must fit the fixed packet
//! buffer; a line that would not fit is reported as an overflow, never
//! silently truncated, since a truncated reading could mislead the host.

use vstd::prelude::*;

verus! {

/// Size of the packet buffer a rendered line must fit, in bytes.
pub const LINE_CAPACITY: usize = 64;

/// The ASCII digit for one decimal digit value.
pub open spec fn digit_byte(d: int) -> u8 {
    (48 + d) as u8
}

/// Decimal digits of a number, most significant first, no leading zeros
/// (a lone zero for zero).
pub open spec fn dec_digits(n: nat) -> Seq<u8>
    decreases n,
{
    if n < 10 {
        seq![digit_byte(n as int)]
    } else {
        dec_digits(n / 10).push(digit_byte((n % 10) as int))
    }
}

/// The bytes of `"Temperature: "`.
pub open spec fn line_prefix() -> Seq<u8> {
    seq![84u8, 101u8, 109u8, 112u8, 101u8, 114u8, 97u8, 116u8, 117u8, 114u8, 101u8, 58u8, 32u8]
}

/// The bytes of `" °C\r\n"`.
pub open spec fn line_suffix() -> Seq<u8> {
    seq![32u8, 194u8, 176u8, 67u8, 13u8, 10u8]
}

/// A minus sign for a negative value, nothing otherwise.
pub open spec fn sign_part(t: int) -> Seq<u8> {
    if t < 0 {
        seq![45u8]
    } else {
        Seq::<u8>::empty()
    }
}

/// Magnitude of a value.
pub open spec fn magnitude(t: int) -> nat {
    if t < 0 {
        (-t) as nat
    } else {
        t as nat
    }
}

/// The two digits after the decimal point: hundredths, zero-padded.
pub open spec fn frac_part(f: nat) -> Seq<u8> {
    seq![digit_byte(f as int / 10), digit_byte(f as int % 10)]
}

/// The whole rendered line for a temperature in centidegrees.
pub open spec fn line_spec(t: int) -> Seq<u8> {
    line_prefix() + sign_part(t) + dec_digits(magnitude(t) / 100) + seq![46u8]
        + frac_part(magnitude(t) % 100) + line_suffix()
}

/// A rendered line would not fit its packet buffer.  This is a programmer
/// invariant violation, not a transient fault: the caller must halt, not
/// truncate.
#[derive(Clone, Copy, PartialEq, Eq, Structural, Debug)]
pub struct LineOverflow;

/// Append the decimal digits of `n`, most significant first.
fn push_decimal(out: &mut Vec<u8>, n: u32)
    ensures
        final(out)@ == old(out)@ + dec_digits(n as nat),
    decreases n,
{
    if n < 10 {
        let b: u8 = 48 + (n as u8);
        out.push(b);
        proof {
            assert(out@ =~= old(out)@ + dec_digits(n as nat));
        }
    } else {
        push_decimal(out, n / 10);
        let b: u8 = 48 + ((n % 10) as u8);
        out.push(b);
        proof {
            assert(out@ =~= old(out)@ + dec_digits(n as nat));
        }
    }
}

/// Render the line for a temperature in centidegrees, refusing any line
/// that would not fit a buffer of `capacity` bytes.  Success comes exactly
/// when the rendered line fits.
pub fn format_line(t: i32, capacity: usize) -> (r: Result<Vec<u8>, LineOverflow>)
    ensures
        r is Ok <==> line_spec(t as int).len() <= capacity,
        r matches Ok(v) ==> v@ == line_spec(t as int),
{
    let mut out: Vec<u8> = Vec::new();
    out.push(84);
    out.push(101);
    out.push(109);
    out.push(112);
    out.push(101);
    out.push(114);
    out.push(97);
    out.push(116);
    out.push(117);
    out.push(114);
    out.push(101);
    out.push(58);
    out.push(32);
    proof {
        assert(out@ =~= line_prefix());
    }
    if t < 0 {
        out.push(45);
    }
    proof {
        assert(out@ =~= line_prefix() + sign_part(t as int));
    }
    let mag: u32 = if t < 0 {
        (-(t as i64)) as u32
    } else {
        t as u32
    };
    assert(mag as nat == magnitude(t as int));
    push_decimal(&mut out, mag / 100);
    out.push(46);
    let f: u32 = mag % 100;
    out.push(48 + (f / 10) as u8);
    out.push(48 + (f % 10) as u8);
    out.push(32);
    out.push(194);
    out.push(176);
    out.push(67);
    out.push(13);
    out.push(10);
    proof {
        assert(out@ =~= line_spec(t as int));
    }
    if out.len() <= capacity {
        Ok(out)
    } else {
        Err(LineOverflow)
    }
}

/// Powers of ten.
pub open spec fn pow10(k: nat) -> nat
    decreases k,
{
    if k == 0 {
        1
    } else {
        10 * pow10((k - 1) as nat)
    }
}

/// A number below the k-th power of ten has at most k decimal digits.
pub proof fn lemma_dec_digits_len(n: nat, k: nat)
    requires
        k >= 1,
        n < pow10(k),
    ensures
        dec_digits(n).len() <= k,
    decreases k,
{
    if n < 10 {
    } else {
        assert(pow10(k) == 10 * pow10((k - 1) as nat));
        assert(k >= 2) by {
            if k == 1 {
                assert(pow10(1nat) == 10);
            }
        }
        assert(n / 10 < pow10((k - 1) as nat)) by (nonlinear_arith)
            requires
                n < 10 * pow10((k - 1) as nat),
        ;
        lemma_dec_digits_len(n / 10, (k - 1) as nat);
    }
}

/// Fixed-buffer adequacy law: for every temperature the device can carry,
/// the rendered line fits the 64-byte packet buffer, so the overflow path
/// is unreachable by legitimate runtime data.
pub proof fn lemma_line_fits(t: int)
    requires
        i32::MIN <= t <= i32::MAX,
    ensures
        line_spec(t).len() <= LINE_CAPACITY,
{
    reveal_with_fuel(pow10, 11);
    assert(pow10(10nat) == 10000000000);
    assert(magnitude(t) / 100 < pow10(10nat));
    lemma_dec_digits_len(magnitude(t) / 100, 10);
}

} // verus!
