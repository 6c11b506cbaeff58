//! Rendering numbers as text: upper-case hexadecimal with a minimum width,
//! decimal, and booleans.
use vstd::prelude::*;
use vstd::string::*;

verus! {

/// The digit characters, in value order.
pub open spec fn digit(d: nat) -> char {
    "0123456789ABCDEF"@[d as int]
}

/// `v` in upper-case hexadecimal, padded with zeros to at least `width`
/// digits (at least one digit in any case).
pub open spec fn hex_text(v: nat, width: nat) -> Seq<char>
    decreases v, width,
{
    if v < 16 && width <= 1 {
        seq![digit(v)]
    } else {
        hex_text(v / 16, if width > 0 {
            (width - 1) as nat
        } else {
            0
        }) + seq![digit(v % 16)]
    }
}

/// `v` in decimal, with no leading zeros.
pub open spec fn dec_text(v: nat) -> Seq<char>
    decreases v,
{
    if v < 10 {
        seq![digit(v)]
    } else {
        dec_text(v / 10) + seq![digit(v % 10)]
    }
}

/// `true` or `false`.
pub open spec fn bool_text(b: bool) -> Seq<char> {
    if b {
        "true"@
    } else {
        "false"@
    }
}

/// Append the digit of value `d` (below 16).
fn push_digit(s: &mut String, d: u32)
    requires
        d < 16,
    ensures
        final(s)@ == old(s)@ + seq![digit(d as nat)],
{
    let digits = "0123456789ABCDEF";
    proof {
        reveal_strlit("0123456789ABCDEF");
    }
    let one = digits.substring_ascii(d as usize, d as usize + 1);
    assert(one@ =~= seq![digit(d as nat)]);
    s.append(one);
}

/// Append `v` in upper-case hexadecimal, padded with zeros to at least
/// `width` digits.
pub fn push_hex(s: &mut String, v: u32, width: u32)
    ensures
        final(s)@ == old(s)@ + hex_text(v as nat, width as nat),
    decreases v, width,
{
    if v < 16 && width <= 1 {
        push_digit(s, v);
    } else {
        let w = if width > 0 {
            width - 1
        } else {
            0
        };
        push_hex(s, v / 16, w);
        push_digit(s, v % 16);
        assert(s@ =~= old(s)@ + hex_text(v as nat, width as nat));
    }
}

/// Append `v` in decimal.
pub fn push_dec(s: &mut String, v: u32)
    ensures
        final(s)@ == old(s)@ + dec_text(v as nat),
    decreases v,
{
    if v < 10 {
        push_digit(s, v);
    } else {
        push_dec(s, v / 10);
        push_digit(s, v % 10);
        assert(s@ =~= old(s)@ + dec_text(v as nat));
    }
}

/// Append `true` or `false`.
pub fn push_bool(s: &mut String, b: bool)
    ensures
        final(s)@ == old(s)@ + bool_text(b),
{
    if b {
        s.append("true");
    } else {
        s.append("false");
    }
}

} // verus!
