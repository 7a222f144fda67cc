//! Formatting of numbers as text for the request templates.

use vstd::prelude::*;

verus! {

/// Relies on String::push: appends exactly one character.
#[verifier::external_body]
pub fn push_char(s: &mut String, c: char)
    ensures
        final(s)@ == old(s)@ + seq![c],
{
    s.push(c);
}

/// Lowercase hexadecimal digit character for a value below 16.
pub open spec fn hex_char(n: u32) -> char
    recommends
        n < 16,
{
    if n < 10 {
        ((0x30 + n) as u8) as char
    } else {
        ((0x57 + n) as u8) as char
    }
}

/// The nibble of `v` at position `i`, counting from the most significant.
pub open spec fn nibble_of(v: u32, i: int) -> u32
    recommends
        0 <= i < 8,
{
    (v >> (((7 - i) * 4) as u32)) & 0xf
}

/// The eight lowercase hexadecimal digits of a `u32`.
pub open spec fn hex8_chars(v: u32) -> Seq<char> {
    Seq::new(8, |i: int| hex_char(nibble_of(v, i)))
}

/// Formats a group identifier as exactly eight lowercase hexadecimal digits.
#[verifier::loop_isolation(false)]
pub fn u32_to_hex8(v: u32) -> (r: String)
    ensures
        r@ == hex8_chars(v),
{
    let mut r = String::new();
    let mut i: usize = 0;
    while i < 8
        invariant
            i <= 8,
            r@ == hex8_chars(v).take(i as int),
        decreases 8 - i,
    {
        let sh: u32 = 28 - 4 * (i as u32);
        let nib: u32 = (v >> sh) & 0xf;
        proof {
            assert(nib < 16) by (bit_vector)
                requires
                    nib == (v >> sh) & 0xf,
            ;
            assert(((7 - i as int) * 4) as u32 == sh);
        }
        let c: char = if nib < 10 {
            ((0x30 + nib) as u8) as char
        } else {
            ((0x57 + nib) as u8) as char
        };
        push_char(&mut r, c);
        proof {
            assert(hex8_chars(v).take(i as int + 1) =~= hex8_chars(v).take(i as int) + seq![
                hex_char(nibble_of(v, i as int)),
            ]);
        }
        i = i + 1;
    }
    proof {
        assert(hex8_chars(v).take(8) =~= hex8_chars(v));
    }
    r
}

/// Decimal digit character for a value below 10.
pub open spec fn dec_char(n: int) -> char
    recommends
        0 <= n < 10,
{
    ((0x30 + n) as u8) as char
}

/// The decimal digits of a nonnegative number, most significant first.
pub open spec fn dec_chars_of(n: int) -> Seq<char>
    recommends
        n >= 0,
    decreases n,
{
    if n < 10 {
        seq![dec_char(n)]
    } else {
        dec_chars_of(n / 10) + seq![dec_char(n % 10)]
    }
}

/// Formats a length as its decimal digits.
pub fn usize_to_dec(n: usize) -> (r: String)
    ensures
        r@ == dec_chars_of(n as int),
    decreases n,
{
    if n < 10 {
        let mut s = String::new();
        push_char(&mut s, ((0x30 + n as u32) as u8) as char);
        proof {
            assert(s@ =~= dec_chars_of(n as int));
        }
        s
    } else {
        let mut s = usize_to_dec(n / 10);
        let d = n % 10;
        push_char(&mut s, ((0x30 + d as u32) as u8) as char);
        proof {
            assert(n as int / 10 == (n / 10) as int);
            assert(n as int % 10 == d as int);
            assert(s@ =~= dec_chars_of(n as int));
        }
        s
    }
}

} // verus!
