//! Numbers as text, for the disassembler and the trace.

use vstd::prelude::*;

verus! {

/// The numeral for a digit value below sixteen, upper case.
pub open spec fn digit(d: int) -> char {
    "0123456789ABCDEF"@[d]
}

/// `n` in decimal, without leading zeros.
pub open spec fn decimal(n: nat) -> Seq<char>
    decreases n,
{
    if n < 10 {
        seq![digit(n as int)]
    } else {
        decimal(n / 10).push(digit((n % 10) as int))
    }
}

/// `n` in upper-case hexadecimal, without leading zeros.
pub open spec fn hex(n: nat) -> Seq<char>
    decreases n,
{
    if n < 16 {
        seq![digit(n as int)]
    } else {
        hex(n / 16).push(digit((n % 16) as int))
    }
}

/// The low `width` hexadecimal digits of `n`, upper case, zeros included.
pub open spec fn hex_fixed(n: nat, width: nat) -> Seq<char>
    decreases width,
{
    if width == 0 {
        Seq::empty()
    } else {
        hex_fixed(n / 16, (width - 1) as nat).push(digit((n % 16) as int))
    }
}

/// A 32-bit word as eight hexadecimal digits.
pub open spec fn hex_word(word: u32) -> Seq<char> {
    hex_fixed(word as nat, 8)
}

/// The numeral for `d` as a string of one character.
fn digit_str(d: u32) -> (s: &'static str)
    requires
        d < 16,
    ensures
        s@ == seq![digit(d as int)],
{
    let all = "0123456789ABCDEF";
    proof {
        reveal_strlit("0123456789ABCDEF");
    }
    let i = d as usize;
    all.substring_ascii(i, i + 1)
}

/// Appends `n` in decimal.
pub fn push_decimal(out: &mut String, n: u32)
    ensures
        final(out)@ == old(out)@ + decimal(n as nat),
    decreases n,
{
    if n >= 10 {
        push_decimal(out, n / 10);
    }
    out.append(digit_str(n % 10));
}

/// Appends `n` in upper-case hexadecimal.
pub fn push_hex(out: &mut String, n: u32)
    ensures
        final(out)@ == old(out)@ + hex(n as nat),
    decreases n,
{
    if n >= 16 {
        push_hex(out, n / 16);
    }
    out.append(digit_str(n % 16));
}

/// Appends the low `width` hexadecimal digits of `n`.
pub fn push_hex_fixed(out: &mut String, n: u32, width: u32)
    ensures
        final(out)@ == old(out)@ + hex_fixed(n as nat, width as nat),
    decreases width,
{
    if width > 0 {
        push_hex_fixed(out, n / 16, width - 1);
        out.append(digit_str(n % 16));
    }
}

/// Appends `word` as eight hexadecimal digits.
pub fn push_hex_word(out: &mut String, word: u32)
    ensures
        final(out)@ == old(out)@ + hex_word(word),
{
    push_hex_fixed(out, word, 8);
}

} // verus!
