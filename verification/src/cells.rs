//! Lexical classification of one cell: blank, integer literal, or float
//! literal. The grammars are those of the standard numeric parsers: an
//! integer literal is an optional sign followed by decimal digits, with the
//! value held to the signed 64-bit range; a float literal is an optional
//! sign followed by `inf`, `infinity` or `nan` (case-insensitive) or by a
//! decimal number with an optional point and exponent. The float grammar is
//! purely lexical (out-of-range magnitudes still parse), so its checker is
//! implemented and verified here rather than delegated.

use vstd::prelude::*;
use vstd::string::StrSliceExecFns;

verus! {

/// Whether the character has the Unicode White_Space property; which
/// characters those are is left to the standard library.
pub uninterp spec fn is_white(c: char) -> bool;

/// Relies on char::is_whitespace: true exactly on characters with the
/// Unicode White_Space property.
#[verifier::external_body]
fn white_char(c: char) -> (r: bool)
    ensures
        r == is_white(c),
{
    c.is_whitespace()
}

/// A blank cell: every character is whitespace (so the empty cell is blank).
pub open spec fn blank_cell(s: Seq<char>) -> bool {
    forall|i: int| 0 <= i < s.len() ==> is_white(s[i])
}

pub fn cell_is_blank(s: &str) -> (r: bool)
    ensures
        r == blank_cell(s@),
{
    let n = s.unicode_len();
    for i in 0..n
        invariant
            n == s@.len(),
            forall|j: int| 0 <= j < i ==> is_white(s@[j]),
    {
        if !white_char(s.get_char(i)) {
            return false;
        }
    }
    true
}

/// An ASCII decimal digit.
pub open spec fn dec_digit(c: char) -> bool {
    ('0' as u32) <= (c as u32) && (c as u32) <= ('9' as u32)
}

/// One or more decimal digits, nothing else.
pub open spec fn all_digits(s: Seq<char>) -> bool {
    s.len() > 0 && forall|i: int| 0 <= i < s.len() ==> dec_digit(s[i])
}

/// The numeric value of a digit string (most significant digit first).
pub open spec fn digits_val(s: Seq<char>) -> int
    decreases s.len(),
{
    if s.len() == 0 {
        0
    } else {
        digits_val(s.drop_last()) * 10 + ((s.last() as u32) - ('0' as u32))
    }
}

/// The string with one leading `+` or `-` removed, if present.
pub open spec fn sign_stripped(s: Seq<char>) -> Seq<char> {
    if s.len() > 0 && (s[0] == '+' || s[0] == '-') {
        s.subrange(1, s.len() as int)
    } else {
        s
    }
}

/// An integer literal: an optional sign, then digits, the value within the
/// signed 64-bit range (the range is asymmetric: one more below zero).
pub open spec fn is_int_lit(s: Seq<char>) -> bool {
    let d = sign_stripped(s);
    &&& all_digits(d)
    &&& if s.len() > 0 && s[0] == '-' {
        digits_val(d) <= 0x8000_0000_0000_0000
    } else {
        digits_val(d) < 0x8000_0000_0000_0000
    }
}

/// Whether the string is an integer literal: sign and digits checked, the
/// value accumulated with a cap at the range bound so that long digit
/// strings never overflow.
pub fn is_int_text(s: &str) -> (r: bool)
    ensures
        r == is_int_lit(s@),
{
    let n = s.unicode_len();
    let neg = n > 0 && s.get_char(0) == '-';
    let start: usize = if n > 0 {
        let c0 = s.get_char(0);
        if c0 == '+' || c0 == '-' {
            1
        } else {
            0
        }
    } else {
        0
    };
    proof {
        assert(sign_stripped(s@) =~= s@.subrange(start as int, n as int));
    }
    if start == n {
        return false;
    }
    let bound: u64 = if neg {
        0x8000_0000_0000_0000
    } else {
        0x7FFF_FFFF_FFFF_FFFF
    };
    let ghost d_seq = s@.subrange(start as int, n as int);
    let mut val: u64 = 0;
    let mut over = false;
    let mut i = start;
    while i < n
        invariant
            start <= i <= n == s@.len(),
            start < n,
            d_seq == s@.subrange(start as int, n as int),
            sign_stripped(s@) == d_seq,
            neg == (s@.len() > 0 && s@[0] == '-'),
            bound == if neg {
                0x8000_0000_0000_0000u64
            } else {
                0x7FFF_FFFF_FFFF_FFFFu64
            },
            forall|j: int| start <= j < i ==> dec_digit(s@[j]),
            !over ==> val == digits_val(s@.subrange(start as int, i as int)) && val <= bound,
            over ==> digits_val(s@.subrange(start as int, i as int)) > bound,
        decreases n - i,
    {
        let c = s.get_char(i);
        let u = c as u32;
        if !(u >= ('0' as u32) && u <= ('9' as u32)) {
            proof {
                assert(d_seq[i - start] == s@[i as int]);
                assert(!dec_digit(d_seq[i - start]));
                assert(!all_digits(d_seq));
            }
            return false;
        }
        let d: u64 = (u - ('0' as u32)) as u64;
        proof {
            let next = s@.subrange(start as int, i + 1);
            assert(next.drop_last() =~= s@.subrange(start as int, i as int));
            assert(next.last() == s@[i as int]);
        }
        if !over {
            if val > (bound - d) / 10 {
                proof {
                    assert(10 * ((bound - d) as int / 10) >= (bound - d) - 9);
                }
                over = true;
            } else {
                proof {
                    assert(10 * ((bound - d) as int / 10) <= (bound - d) as int);
                }
                val = val * 10 + d;
            }
        }
        i += 1;
    }
    proof {
        assert forall|j: int| 0 <= j < d_seq.len() implies dec_digit(d_seq[j]) by {
            assert(d_seq[j] == s@[start + j]);
        }
    }
    !over
}

/// The character equals the given lower-case ASCII letter, in either case.
pub open spec fn ci_ch(c: char, lower: char) -> bool {
    c == lower || (c as u32) + 32 == (lower as u32)
}

fn ci_char(c: char, lower: char) -> (r: bool)
    ensures
        r == ci_ch(c, lower),
{
    c == lower || (c as u32) + 32 == (lower as u32)
}

/// The string spells the given lower-case word, case-insensitively.
pub open spec fn ci_word(s: Seq<char>, word: Seq<char>) -> bool {
    s.len() == word.len() && forall|i: int| 0 <= i < s.len() ==> ci_ch(s[i], word[i])
}

/// A mantissa: digits, optionally with one decimal point among them; a lone
/// point is not a mantissa.
pub open spec fn is_mantissa(s: Seq<char>) -> bool {
    all_digits(s) || exists|k: int|
        #![auto]
        0 <= k < s.len() && s[k] == '.' && s.len() > 1 && (forall|i: int|
            0 <= i < s.len() && i != k ==> dec_digit(s[i]))
}

/// An optional sign, then digits.
pub open spec fn is_signed_digits(s: Seq<char>) -> bool {
    all_digits(sign_stripped(s))
}

/// An exponent part: `e` or `E`, then an optionally signed digit string.
pub open spec fn is_exp_part(s: Seq<char>) -> bool {
    s.len() >= 2 && (s[0] == 'e' || s[0] == 'E') && is_signed_digits(
        s.subrange(1, s.len() as int),
    )
}

/// A decimal number: a mantissa, optionally followed by an exponent part.
pub open spec fn is_number(s: Seq<char>) -> bool {
    is_mantissa(s) || exists|k: int|
        #![auto]
        0 < k < s.len() && is_mantissa(s.subrange(0, k)) && is_exp_part(
            s.subrange(k, s.len() as int),
        )
}

/// A float literal: an optional sign, then `inf`, `infinity` or `nan` in any
/// case, or a decimal number.
pub open spec fn is_float_lit(s: Seq<char>) -> bool {
    let b = sign_stripped(s);
    ||| ci_word(b, "inf"@)
    ||| ci_word(b, "infinity"@)
    ||| ci_word(b, "nan"@)
    ||| is_number(b)
}

/// Every character of a mantissa is a digit or the decimal point.
proof fn lemma_mantissa_chars(t: Seq<char>, j: int)
    requires
        is_mantissa(t),
        0 <= j < t.len(),
    ensures
        t[j] == '.' || dec_digit(t[j]),
{
    if all_digits(t) {
    } else {
        let k = choose|k: int|
            #![auto]
            0 <= k < t.len() && t[k] == '.' && t.len() > 1 && (forall|i: int|
                0 <= i < t.len() && i != k ==> dec_digit(t[i]));
        if j == k {
        } else {
            assert(dec_digit(t[j]));
        }
    }
}

fn check_digits(s: &str, from: usize, to: usize) -> (r: bool)
    requires
        from <= to <= s@.len(),
    ensures
        r == all_digits(s@.subrange(from as int, to as int)),
{
    let ghost sub = s@.subrange(from as int, to as int);
    if from == to {
        return false;
    }
    let mut i = from;
    while i < to
        invariant
            from <= i <= to <= s@.len(),
            sub == s@.subrange(from as int, to as int),
            forall|j: int| from <= j < i ==> dec_digit(s@[j]),
        decreases to - i,
    {
        let c = s.get_char(i);
        if !((c as u32) >= ('0' as u32) && (c as u32) <= ('9' as u32)) {
            proof {
                assert(sub[i - from] == s@[i as int]);
            }
            return false;
        }
        i += 1;
    }
    proof {
        assert forall|j: int| 0 <= j < sub.len() implies dec_digit(sub[j]) by {
            assert(sub[j] == s@[from + j]);
        }
    }
    true
}

fn check_mantissa(s: &str, from: usize, to: usize) -> (r: bool)
    requires
        from <= to <= s@.len(),
    ensures
        r == is_mantissa(s@.subrange(from as int, to as int)),
{
    let ghost sub = s@.subrange(from as int, to as int);
    if from == to {
        return false;
    }
    let mut has_dot = false;
    let mut dot_at: usize = 0;
    let mut i = from;
    while i < to
        invariant
            from <= i <= to <= s@.len(),
            sub == s@.subrange(from as int, to as int),
            !has_dot ==> forall|j: int| from <= j < i ==> dec_digit(s@[j]),
            has_dot ==> from <= dot_at < i && s@[dot_at as int] == '.' && (forall|j: int|
                from <= j < i && j != dot_at ==> dec_digit(s@[j])),
        decreases to - i,
    {
        let c = s.get_char(i);
        if (c as u32) >= ('0' as u32) && (c as u32) <= ('9' as u32) {
            // a digit: fine anywhere
        } else if c == '.' {
            if has_dot {
                // a second point: no mantissa contains two
                proof {
                    if is_mantissa(sub) {
                        lemma_mantissa_chars(sub, dot_at - from);
                        lemma_mantissa_chars(sub, i - from);
                        if all_digits(sub) {
                            assert(dec_digit(sub[i - from]));
                        } else {
                            let k = choose|k: int|
                                #![auto]
                                0 <= k < sub.len() && sub[k] == '.' && sub.len() > 1 && (forall|
                                    i2: int,
                                |
                                    0 <= i2 < sub.len() && i2 != k ==> dec_digit(sub[i2]));
                            if k != dot_at - from {
                                assert(dec_digit(sub[dot_at - from]));
                            } else {
                                assert(dec_digit(sub[i - from]));
                            }
                        }
                    }
                }
                return false;
            }
            has_dot = true;
            dot_at = i;
        } else {
            // neither a digit nor the point: no mantissa holds this character
            proof {
                if is_mantissa(sub) {
                    lemma_mantissa_chars(sub, i - from);
                    assert(sub[i - from] == s@[i as int]);
                }
            }
            return false;
        }
        i += 1;
    }
    if !has_dot {
        proof {
            assert forall|j: int| 0 <= j < sub.len() implies dec_digit(sub[j]) by {
                assert(sub[j] == s@[from + j]);
            }
        }
        true
    } else if to - from == 1 {
        // the whole segment is a lone point
        proof {
            if is_mantissa(sub) {
                assert(sub[0] == '.');
                assert(!all_digits(sub));
            }
        }
        false
    } else {
        proof {
            let k = dot_at - from;
            assert(sub[k] == '.');
            assert forall|i2: int| 0 <= i2 < sub.len() && i2 != k implies dec_digit(sub[i2]) by {
                assert(sub[i2] == s@[from + i2]);
            }
            assert(is_mantissa(sub));
        }
        true
    }
}

fn check_exp(s: &str, from: usize, to: usize) -> (r: bool)
    requires
        from <= to <= s@.len(),
    ensures
        r == is_exp_part(s@.subrange(from as int, to as int)),
{
    let ghost sub = s@.subrange(from as int, to as int);
    if to - from < 2 {
        return false;
    }
    let c = s.get_char(from);
    if !(c == 'e' || c == 'E') {
        return false;
    }
    let c1 = s.get_char(from + 1);
    let dstart = if c1 == '+' || c1 == '-' {
        from + 2
    } else {
        from + 1
    };
    let r = check_digits(s, dstart, to);
    proof {
        let rest = sub.subrange(1, sub.len() as int);
        assert(rest =~= s@.subrange(from + 1, to as int));
        assert(rest[0] == s@[from + 1]);
        assert(sign_stripped(rest) =~= s@.subrange(dstart as int, to as int));
    }
    r
}

fn check_number(s: &str, from: usize) -> (r: bool)
    requires
        from <= s@.len(),
    ensures
        r == is_number(s@.subrange(from as int, s@.len() as int)),
{
    let n = s.unicode_len();
    let ghost sub = s@.subrange(from as int, n as int);
    // find the first exponent marker, if any
    let mut e_idx: usize = n;
    let mut i = from;
    while i < n
        invariant
            from <= i <= n == s@.len(),
            e_idx == n || (from <= e_idx < i && (s@[e_idx as int] == 'e' || s@[e_idx as int]
                == 'E')),
            forall|j: int|
                from <= j < i && j < e_idx ==> s@[j] != 'e' && s@[j] != 'E',
        decreases n - i,
    {
        if e_idx == n {
            let c = s.get_char(i);
            if c == 'e' || c == 'E' {
                e_idx = i;
            }
        }
        i += 1;
    }
    if e_idx == n {
        // no exponent marker anywhere: only the plain-mantissa form remains
        let r = check_mantissa(s, from, n);
        proof {
            if !r && is_number(sub) {
                let k = choose|k: int|
                    #![auto]
                    0 < k < sub.len() && is_mantissa(sub.subrange(0, k)) && is_exp_part(
                        sub.subrange(k, sub.len() as int),
                    );
                assert(sub.subrange(k, sub.len() as int)[0] == s@[from + k]);
            }
        }
        r
    } else if e_idx == from {
        // the segment starts with the marker: the mantissa would be empty
        proof {
            if is_mantissa(sub) {
                lemma_mantissa_chars(sub, 0);
                assert(sub[0] == s@[from as int]);
            }
            if is_number(sub) {
                let k = choose|k: int|
                    #![auto]
                    0 < k < sub.len() && is_mantissa(sub.subrange(0, k)) && is_exp_part(
                        sub.subrange(k, sub.len() as int),
                    );
                lemma_mantissa_chars(sub.subrange(0, k), 0);
                assert(sub.subrange(0, k)[0] == s@[from as int]);
            }
        }
        false
    } else {
        let ok_m = check_mantissa(s, from, e_idx);
        let ok_e = check_exp(s, e_idx, n);
        proof {
            let m = e_idx - from;
            assert(sub.subrange(0, m) =~= s@.subrange(from as int, e_idx as int));
            assert(sub.subrange(m, sub.len() as int) =~= s@.subrange(e_idx as int, n as int));
            // the whole segment is no plain mantissa: it holds the marker
            if is_mantissa(sub) {
                lemma_mantissa_chars(sub, m);
                assert(sub[m] == s@[e_idx as int]);
            }
            if ok_m && ok_e {
                assert(is_number(sub));
            }
            if is_number(sub) && !(ok_m && ok_e) {
                let k = choose|k: int|
                    #![auto]
                    0 < k < sub.len() && is_mantissa(sub.subrange(0, k)) && is_exp_part(
                        sub.subrange(k, sub.len() as int),
                    );
                assert(sub.subrange(k, sub.len() as int)[0] == s@[from + k]);
                // the split can only stand at the first marker
                if k < m {
                    assert(s@[from + k] != 'e' && s@[from + k] != 'E');
                } else if k > m {
                    lemma_mantissa_chars(sub.subrange(0, k), m);
                    assert(sub.subrange(0, k)[m] == s@[e_idx as int]);
                }
            }
        }
        ok_m && ok_e
    }
}

fn ci_word_at(s: &str, from: usize, word: &str) -> (r: bool)
    requires
        from <= s@.len(),
    ensures
        r == ci_word(s@.subrange(from as int, s@.len() as int), word@),
{
    let ghost sub = s@.subrange(from as int, s@.len() as int);
    let n = s.unicode_len();
    let m = word.unicode_len();
    if n - from != m {
        return false;
    }
    let mut i: usize = 0;
    while i < m
        invariant
            0 <= i <= m == word@.len(),
            from + m == n == s@.len(),
            sub == s@.subrange(from as int, s@.len() as int),
            forall|j: int| 0 <= j < i ==> ci_ch(s@[from + j], word@[j]),
        decreases m - i,
    {
        if !ci_char(s.get_char(from + i), word.get_char(i)) {
            proof {
                assert(sub[i as int] == s@[from + i]);
            }
            return false;
        }
        i += 1;
    }
    proof {
        assert forall|j: int| 0 <= j < sub.len() implies ci_ch(sub[j], word@[j]) by {
            assert(sub[j] == s@[from + j]);
        }
    }
    true
}

/// Whether the string is a float literal. The grammar is decided here, with
/// no value ever computed, so magnitude plays no part.
pub fn is_float_text(s: &str) -> (r: bool)
    ensures
        r == is_float_lit(s@),
{
    let n = s.unicode_len();
    let start: usize = if n > 0 {
        let c0 = s.get_char(0);
        if c0 == '+' || c0 == '-' {
            1
        } else {
            0
        }
    } else {
        0
    };
    proof {
        assert(sign_stripped(s@) =~= s@.subrange(start as int, s@.len() as int));
    }
    if ci_word_at(s, start, "inf") {
        return true;
    }
    if ci_word_at(s, start, "infinity") {
        return true;
    }
    if ci_word_at(s, start, "nan") {
        return true;
    }
    check_number(s, start)
}

/// How one cell is classified before counting: blank cells first, then
/// integer literals, then strings that are float literals only, then the
/// rest. A cell that parses as an integer is never counted as a float.
#[derive(Clone, Copy, PartialEq, Eq, Structural, Debug)]
pub enum CellClass {
    Blank,
    IntLit,
    FloatLit,
    Other,
}

/// The classification of one cell, in the order the tiers are tried.
pub open spec fn classify_spec(s: Seq<char>) -> CellClass {
    if blank_cell(s) {
        CellClass::Blank
    } else if is_int_lit(s) {
        CellClass::IntLit
    } else if is_float_lit(s) {
        CellClass::FloatLit
    } else {
        CellClass::Other
    }
}

pub fn classify(s: &str) -> (r: CellClass)
    ensures
        r == classify_spec(s@),
{
    if cell_is_blank(s) {
        CellClass::Blank
    } else if is_int_text(s) {
        CellClass::IntLit
    } else if is_float_text(s) {
        CellClass::FloatLit
    } else {
        CellClass::Other
    }
}

} // verus!
