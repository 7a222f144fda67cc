//! Small byte-level helpers shared by the protocol and the parsers.

use vstd::prelude::*;

verus! {

/// The unsigned little-endian value of four bytes.
pub open spec fn u32_le_spec(b: Seq<u8>) -> int
    recommends
        b.len() == 4,
{
    b[0] + b[1] * 0x100 + b[2] * 0x10000 + b[3] * 0x1000000
}

/// Reads a four-byte little-endian group identifier as a `u32`.
pub fn as_u32_le(array: &[u8; 4]) -> (r: u32)
    ensures
        r == u32_le_spec(array@),
{
    (array[0] as u32)
        + (array[1] as u32) * 0x100
        + (array[2] as u32) * 0x10000
        + (array[3] as u32) * 0x1000000
}

/// ASCII hexadecimal digit (either case).
pub open spec fn is_hex_digit(b: u8) -> bool {
    (0x30 <= b && b <= 0x39) || (0x41 <= b && b <= 0x46) || (0x61 <= b && b <= 0x66)
}

/// Numeric value of an ASCII hexadecimal digit.
pub open spec fn hex_val(b: u8) -> u8
    recommends
        is_hex_digit(b),
{
    if 0x30 <= b && b <= 0x39 {
        (b - 0x30) as u8
    } else if 0x41 <= b && b <= 0x46 {
        ((b - 0x41) + 10) as u8
    } else {
        ((b - 0x61) + 10) as u8
    }
}

fn is_hex_digit_x(b: u8) -> (r: bool)
    ensures
        r == is_hex_digit(b),
{
    (0x30 <= b && b <= 0x39) || (0x41 <= b && b <= 0x46) || (0x61 <= b && b <= 0x66)
}

fn hex_val_x(b: u8) -> (r: u8)
    requires
        is_hex_digit(b),
    ensures
        r == hex_val(b),
        r <= 15,
{
    if 0x30 <= b && b <= 0x39 {
        b - 0x30
    } else if 0x41 <= b && b <= 0x46 {
        (b - 0x41) + 10
    } else {
        (b - 0x61) + 10
    }
}

/// Percent-decoding over bytes: `%` introduces exactly two hexadecimal
/// digits; every other byte stands for itself. Malformed escapes yield `None`.
pub open spec fn percent_decode_spec(s: Seq<u8>) -> Option<Seq<u8>>
    decreases s.len(),
{
    if s.len() == 0 {
        Some(Seq::empty())
    } else if s[0] == 0x25 {
        if s.len() >= 3 && is_hex_digit(s[1]) && is_hex_digit(s[2]) {
            match percent_decode_spec(s.skip(3)) {
                Some(rest) => Some(seq![((hex_val(s[1]) * 16 + hex_val(s[2])) as u8)] + rest),
                None => None,
            }
        } else {
            None
        }
    } else {
        match percent_decode_spec(s.skip(1)) {
            Some(rest) => Some(seq![s[0]] + rest),
            None => None,
        }
    }
}

/// Decodes percent-escapes in a header value; `None` on a malformed escape.
pub fn percent_decode(s: &[u8]) -> (r: Option<Vec<u8>>)
    ensures
        match r {
            Some(v) => percent_decode_spec(s@) == Some(v@),
            None => percent_decode_spec(s@) is None,
        },
{
    let mut out: Vec<u8> = Vec::new();
    let mut i: usize = 0;
    proof {
        assert(s@.skip(0) =~= s@);
        if let Some(rest) = percent_decode_spec(s@) {
            assert(Seq::<u8>::empty() + rest =~= rest);
        }
    }
    while i < s.len()
        invariant
            i <= s@.len(),
            percent_decode_spec(s@) == (match percent_decode_spec(s@.skip(i as int)) {
                Some(rest) => Some(out@ + rest),
                None => None::<Seq<u8>>,
            }),
        decreases s@.len() - i,
    {
        let b = s[i];
        if b == 0x25 {
            if s.len() - i >= 3 && is_hex_digit_x(s[i + 1]) && is_hex_digit_x(s[i + 2]) {
                let v = hex_val_x(s[i + 1]) * 16 + hex_val_x(s[i + 2]);
                proof {
                    assert(s@.skip(i as int).skip(3) =~= s@.skip(i as int + 3));
                    if let Some(rest) = percent_decode_spec(s@.skip(i as int + 3)) {
                        assert((out@ + seq![v]) + rest =~= out@ + (seq![v] + rest));
                    }
                }
                out.push(v);
                i = i + 3;
            } else {
                proof {
                    assert(percent_decode_spec(s@.skip(i as int)) is None);
                }
                return None;
            }
        } else {
            proof {
                assert(s@.skip(i as int).skip(1) =~= s@.skip(i as int + 1));
                if let Some(rest) = percent_decode_spec(s@.skip(i as int + 1)) {
                    assert((out@ + seq![b]) + rest =~= out@ + (seq![b] + rest));
                }
            }
            out.push(b);
            i = i + 1;
        }
    }
    proof {
        assert(s@.skip(i as int) =~= Seq::<u8>::empty());
        assert(out@ + Seq::<u8>::empty() =~= out@);
    }
    Some(out)
}

/// The pattern `pat` occurs in `h` at position `i`.
pub open spec fn matches_at(h: Seq<u8>, pat: Seq<u8>, i: int) -> bool {
    0 <= i && i + pat.len() <= h.len() && h.subrange(i, i + pat.len() as int) == pat
}

#[verifier::loop_isolation(false)]
fn slice_eq_at(h: &[u8], pat: &[u8], i: usize) -> (r: bool)
    requires
        i + pat@.len() <= h@.len(),
    ensures
        r == matches_at(h@, pat@, i as int),
{
    let hn = h.len();
    let mut k: usize = 0;
    while k < pat.len()
        invariant
            k <= pat@.len(),
            forall|j: int| 0 <= j < k ==> h@[i + j] == pat@[j],
        decreases pat@.len() - k,
    {
        if h[i + k] != pat[k] {
            proof {
                assert(h@.subrange(i as int, i + pat@.len() as int)[k as int] != pat@[k as int]);
            }
            return false;
        }
        k = k + 1;
    }
    proof {
        assert(h@.subrange(i as int, i + pat@.len() as int) =~= pat@);
    }
    true
}

/// Position of the first occurrence of `pat` in `h` at or after `from`.
pub open spec fn first_occurrence(h: Seq<u8>, pat: Seq<u8>, from: int) -> Option<int>
    recommends
        0 <= from,
        pat.len() >= 1,
    decreases h.len() - from,
{
    if from + pat.len() > h.len() || from < 0 || pat.len() < 1 {
        None
    } else if matches_at(h, pat, from) {
        Some(from)
    } else {
        first_occurrence(h, pat, from + 1)
    }
}

/// First occurrence of `pat` in `h` at or after `from`, if any.
#[verifier::loop_isolation(false)]
pub fn find_pattern(h: &[u8], pat: &[u8], from: usize) -> (r: Option<usize>)
    requires
        pat@.len() >= 1,
    ensures
        match r {
            Some(i) => first_occurrence(h@, pat@, from as int) == Some(i as int),
            None => first_occurrence(h@, pat@, from as int) is None,
        },
{
    if h.len() < pat.len() || from > h.len() - pat.len() {
        return None;
    }
    let last = h.len() - pat.len();
    let mut i: usize = from;
    while i <= last
        invariant
            from <= i <= last + 1,
            first_occurrence(h@, pat@, from as int) == first_occurrence(h@, pat@, i as int),
        decreases last + 1 - i,
    {
        if slice_eq_at(h, pat, i) {
            return Some(i);
        }
        i = i + 1;
    }
    None
}

/// A found occurrence is a match at or after the search start.
pub proof fn lemma_first_occurrence_some(h: Seq<u8>, pat: Seq<u8>, from: int, i: int)
    requires
        first_occurrence(h, pat, from) == Some(i),
    ensures
        from <= i && matches_at(h, pat, i),
    decreases h.len() - from,
{
    if !(from + pat.len() > h.len() || from < 0 || pat.len() < 1) {
        if !matches_at(h, pat, from) {
            lemma_first_occurrence_some(h, pat, from + 1, i);
        }
    }
}

/// ASCII decimal digit.
pub open spec fn is_digit(b: u8) -> bool {
    0x30 <= b && b <= 0x39
}

/// All bytes are ASCII decimal digits.
pub open spec fn all_digits(s: Seq<u8>) -> bool {
    forall|i: int| 0 <= i < s.len() ==> is_digit(#[trigger] s[i])
}

/// The value of an ASCII decimal numeral.
pub open spec fn dec_val(s: Seq<u8>) -> int
    decreases s.len(),
{
    if s.len() == 0 {
        0
    } else {
        dec_val(s.drop_last()) * 10 + (s.last() - 0x30)
    }
}

proof fn lemma_dec_val_nonneg(s: Seq<u8>)
    requires
        all_digits(s),
    ensures
        dec_val(s) >= 0,
    decreases s.len(),
{
    if s.len() > 0 {
        assert(all_digits(s.drop_last())) by {
            assert(forall|i: int| 0 <= i < s.len() - 1 ==> s.drop_last()[i] == #[trigger] s[i]);
        }
        lemma_dec_val_nonneg(s.drop_last());
    }
}

/// Parses an ASCII decimal numeral as a `u32`; `None` when the text is empty,
/// holds a non-digit, or its value does not fit.
pub fn parse_u32_dec(b: &[u8]) -> (r: Option<u32>)
    ensures
        match r {
            Some(v) => b@.len() > 0 && all_digits(b@) && v as int == dec_val(b@),
            None => b@.len() == 0 || !all_digits(b@) || dec_val(b@) > u32::MAX,
        },
{
    if b.len() == 0 {
        return None;
    }
    let mut acc: u64 = 0;
    let mut i: usize = 0;
    while i < b.len()
        invariant
            i <= b@.len(),
            all_digits(b@.take(i as int)),
            acc as int == dec_val(b@.take(i as int)),
            acc <= u32::MAX,
        decreases b@.len() - i,
    {
        let d = b[i];
        if !(0x30 <= d && d <= 0x39) {
            return None;
        }
        let next: u64 = acc * 10 + ((d - 0x30) as u64);
        proof {
            assert(b@.take(i as int + 1).drop_last() =~= b@.take(i as int));
            assert(b@.take(i as int + 1).last() == b@[i as int]);
            assert(all_digits(b@.take(i as int + 1)));
        }
        if next > 0xffff_ffff {
            proof {
                if all_digits(b@) {
                    lemma_dec_val_grows(b@, i as int + 1);
                }
            }
            return None;
        }
        acc = next;
        i = i + 1;
    }
    proof {
        assert(b@.take(i as int) =~= b@);
    }
    Some(acc as u32)
}

proof fn lemma_dec_val_grows(s: Seq<u8>, k: int)
    requires
        0 <= k <= s.len(),
        all_digits(s),
    ensures
        dec_val(s) >= dec_val(s.take(k)),
    decreases s.len() - k,
{
    if k < s.len() {
        lemma_dec_val_grows(s, k + 1);
        assert(s.take(k + 1).drop_last() =~= s.take(k));
        assert(s.take(k + 1).last() == s[k]);
        assert(all_digits(s.take(k))) by {
            assert(forall|i: int| 0 <= i < k ==> s.take(k)[i] == #[trigger] s[i]);
        }
        lemma_dec_val_nonneg(s.take(k));
        assert(dec_val(s.take(k + 1)) == dec_val(s.take(k)) * 10 + (s[k] - 0x30));
        assert(dec_val(s.take(k + 1)) >= dec_val(s.take(k)));
    } else {
        assert(s.take(k) =~= s);
    }
}

/// Byte-for-byte equality of two byte strings.
pub fn bytes_eq(a: &[u8], b: &[u8]) -> (r: bool)
    ensures
        r == (a@ == b@),
{
    if a.len() != b.len() {
        return false;
    }
    let mut i: usize = 0;
    while i < a.len()
        invariant
            a@.len() == b@.len(),
            i <= a@.len(),
            forall|j: int| 0 <= j < i ==> a@[j] == b@[j],
        decreases a@.len() - i,
    {
        if a[i] != b[i] {
            return false;
        }
        i = i + 1;
    }
    proof {
        assert(a@ =~= b@);
    }
    true
}

/// Concatenation of two byte strings.
pub fn concat_bytes(a: &[u8], b: &[u8]) -> (r: Vec<u8>)
    requires
        a@.len() + b@.len() <= usize::MAX,
    ensures
        r@ == a@ + b@,
{
    let mut out: Vec<u8> = Vec::new();
    let mut i: usize = 0;
    proof {
        assert(a@.take(0) =~= Seq::<u8>::empty());
    }
    while i < a.len()
        invariant
            i <= a@.len(),
            out@ == a@.take(i as int),
        decreases a@.len() - i,
    {
        out.push(a[i]);
        proof {
            assert(a@.take(i as int + 1) =~= a@.take(i as int) + seq![a@[i as int]]);
        }
        i = i + 1;
    }
    proof {
        assert(a@.take(a@.len() as int) =~= a@);
        assert(a@ + b@.take(0) =~= a@);
    }
    let mut k: usize = 0;
    while k < b.len()
        invariant
            k <= b@.len(),
            out@ == a@ + b@.take(k as int),
        decreases b@.len() - k,
    {
        out.push(b[k]);
        proof {
            assert((a@ + b@.take(k as int)) + seq![b@[k as int]] =~= a@ + b@.take(k as int + 1));
        }
        k = k + 1;
    }
    proof {
        assert(a@ + b@.take(b@.len() as int) =~= a@ + b@);
    }
    out
}

/// ASCII lower-casing of one byte.
pub open spec fn ascii_lower(b: u8) -> u8 {
    if 0x41 <= b && b <= 0x5a {
        (b + 0x20) as u8
    } else {
        b
    }
}

/// ASCII lower-casing of a byte sequence.
pub open spec fn lower_seq(s: Seq<u8>) -> Seq<u8> {
    s.map(|i: int, b: u8| ascii_lower(b))
}

/// Case-insensitive comparison of two ASCII byte strings.
pub fn eq_ignore_ascii_case(a: &[u8], b: &[u8]) -> (r: bool)
    ensures
        r == (lower_seq(a@) == lower_seq(b@)),
{
    if a.len() != b.len() {
        proof {
            assert(lower_seq(a@).len() != lower_seq(b@).len());
        }
        return false;
    }
    let mut i: usize = 0;
    while i < a.len()
        invariant
            a@.len() == b@.len(),
            i <= a@.len(),
            forall|j: int| 0 <= j < i ==> lower_seq(a@)[j] == lower_seq(b@)[j],
        decreases a@.len() - i,
    {
        let x = a[i];
        let y = b[i];
        let lx = if 0x41 <= x && x <= 0x5a { x + 0x20 } else { x };
        let ly = if 0x41 <= y && y <= 0x5a { y + 0x20 } else { y };
        if lx != ly {
            proof {
                assert(lower_seq(a@)[i as int] != lower_seq(b@)[i as int]);
            }
            return false;
        }
        i = i + 1;
    }
    proof {
        assert(lower_seq(a@) =~= lower_seq(b@));
    }
    true
}

/// `s` with every occurrence of `pat` removed, scanning left to right.
pub open spec fn strip_pat_spec(s: Seq<u8>, pat: Seq<u8>) -> Seq<u8>
    decreases s.len(),
    when pat.len() >= 1
{
    if s.len() == 0 {
        s
    } else if matches_at(s, pat, 0) {
        strip_pat_spec(s.skip(pat.len() as int), pat)
    } else {
        seq![s[0]] + strip_pat_spec(s.skip(1), pat)
    }
}

/// Removes every occurrence of `pat` from `s`, scanning left to right.
pub fn strip_pattern(s: &[u8], pat: &[u8]) -> (r: Vec<u8>)
    requires
        pat@.len() >= 1,
    ensures
        r@ == strip_pat_spec(s@, pat@),
{
    let mut out: Vec<u8> = Vec::new();
    let mut i: usize = 0;
    proof {
        assert(s@.skip(0) =~= s@);
        assert(Seq::<u8>::empty() + strip_pat_spec(s@, pat@) =~= strip_pat_spec(s@, pat@));
    }
    while i < s.len()
        invariant
            pat@.len() >= 1,
            i <= s@.len(),
            strip_pat_spec(s@, pat@) == out@ + strip_pat_spec(s@.skip(i as int), pat@),
        decreases s@.len() - i,
    {
        if s.len() - i >= pat.len() && slice_eq_at(s, pat, i) {
            proof {
                assert(s@.skip(i as int).subrange(0, pat@.len() as int) =~= s@.subrange(
                    i as int,
                    i + pat@.len() as int,
                ));
                assert(matches_at(s@.skip(i as int), pat@, 0));
                assert(s@.skip(i as int).skip(pat@.len() as int) =~= s@.skip(
                    i as int + pat@.len() as int,
                ));
            }
            i = i + pat.len();
        } else {
            proof {
                if s@.len() - i >= pat@.len() {
                    assert(s@.skip(i as int).subrange(0, pat@.len() as int) =~= s@.subrange(
                        i as int,
                        i + pat@.len() as int,
                    ));
                }
                assert(!matches_at(s@.skip(i as int), pat@, 0));
                assert(s@.skip(i as int).skip(1) =~= s@.skip(i as int + 1));
                assert((out@ + seq![s@[i as int]]) + strip_pat_spec(s@.skip(i as int + 1), pat@)
                    =~= out@ + (seq![s@[i as int]] + strip_pat_spec(s@.skip(i as int + 1), pat@)));
            }
            out.push(s[i]);
            i = i + 1;
        }
    }
    proof {
        assert(s@.skip(i as int) =~= Seq::<u8>::empty());
        assert(out@ + strip_pat_spec(Seq::<u8>::empty(), pat@) =~= out@);
    }
    out
}

} // verus!
