//! Canonical JSON text for the service's own wire shapes.
//!
//! The job descriptors that the coordinator enqueues and the result records
//! that the worker surface stores are flat JSON objects of string and boolean
//! members. This module defines that canonical text exactly — escaping
//! included — and provides a verified encoder and a verified decoder for it.

use vstd::prelude::*;
use vstd::string::*;

verus! {

/// Appends one character to a `String`. Relies on `String::push` from std:
/// the documentation says it appends the given char to the end of the string.
pub assume_specification[ String::push ](s: &mut String, c: char)
    ensures
        final(s)@ == old(s)@.push(c),
;

/// The lowercase hexadecimal digit for a value below sixteen.
pub open spec fn spec_hex_digit(n: int) -> char {
    if n == 0 {
        '0'
    } else if n == 1 {
        '1'
    } else if n == 2 {
        '2'
    } else if n == 3 {
        '3'
    } else if n == 4 {
        '4'
    } else if n == 5 {
        '5'
    } else if n == 6 {
        '6'
    } else if n == 7 {
        '7'
    } else if n == 8 {
        '8'
    } else if n == 9 {
        '9'
    } else if n == 10 {
        'a'
    } else if n == 11 {
        'b'
    } else if n == 12 {
        'c'
    } else if n == 13 {
        'd'
    } else if n == 14 {
        'e'
    } else {
        'f'
    }
}

/// The value of a lowercase hexadecimal digit, or sixteen for any other
/// character.
pub open spec fn spec_hex_value(c: char) -> int {
    if c == '0' {
        0
    } else if c == '1' {
        1
    } else if c == '2' {
        2
    } else if c == '3' {
        3
    } else if c == '4' {
        4
    } else if c == '5' {
        5
    } else if c == '6' {
        6
    } else if c == '7' {
        7
    } else if c == '8' {
        8
    } else if c == '9' {
        9
    } else if c == 'a' {
        10
    } else if c == 'b' {
        11
    } else if c == 'c' {
        12
    } else if c == 'd' {
        13
    } else if c == 'e' {
        14
    } else if c == 'f' {
        15
    } else {
        16
    }
}

pub proof fn lemma_hex_digit_value(n: int)
    requires
        0 <= n < 16,
    ensures
        spec_hex_value(spec_hex_digit(n)) == n,
{
}

/// True for the control characters that the canonical text writes with a
/// short escape rather than a `\u00XX` escape.
pub open spec fn has_short_escape(c: char) -> bool {
    c == '\u{8}' || c == '\u{9}' || c == '\u{a}' || c == '\u{c}' || c == '\u{d}'
}

/// The canonical escape of one character inside a JSON string: quote and
/// backslash get a backslash, the common control characters their short
/// escapes, the remaining control characters a `\u00XX` escape, and every
/// other character stands for itself.
pub open spec fn esc_char(c: char) -> Seq<char> {
    if c == '"' {
        seq!['\\', '"']
    } else if c == '\\' {
        seq!['\\', '\\']
    } else if c == '\u{8}' {
        seq!['\\', 'b']
    } else if c == '\u{9}' {
        seq!['\\', 't']
    } else if c == '\u{a}' {
        seq!['\\', 'n']
    } else if c == '\u{c}' {
        seq!['\\', 'f']
    } else if c == '\u{d}' {
        seq!['\\', 'r']
    } else if (c as u32) < 0x20 {
        seq![
            '\\',
            'u',
            '0',
            '0',
            spec_hex_digit(c as u32 as int / 16),
            spec_hex_digit(c as u32 as int % 16),
        ]
    } else {
        seq![c]
    }
}

/// The canonical escape of a whole string body.
pub open spec fn esc_seq(s: Seq<char>) -> Seq<char>
    decreases s.len(),
{
    if s.len() == 0 {
        Seq::empty()
    } else {
        esc_char(s[0]) + esc_seq(s.drop_first())
    }
}

/// A quoted JSON string: the escaped body between two quotes.
pub open spec fn quoted(s: Seq<char>) -> Seq<char> {
    seq!['"'] + esc_seq(s) + seq!['"']
}

/// Escaping a string one character longer extends its escape by the escape of
/// that character.
pub proof fn lemma_esc_seq_take_step(s: Seq<char>, i: int)
    requires
        0 <= i < s.len(),
    ensures
        esc_seq(s.take(i + 1)) == esc_seq(s.take(i)) + esc_char(s[i]),
    decreases i,
{
    if i == 0 {
        assert(s.take(1) =~= seq![s[0]]);
        assert(s.take(1).drop_first() =~= Seq::<char>::empty());
        assert(s.take(0) =~= Seq::<char>::empty());
        assert(esc_seq(s.take(1)) =~= esc_char(s[0]) + esc_seq(Seq::<char>::empty()));
        assert(esc_seq(s.take(0)) + esc_char(s[0]) =~= esc_char(s[0]));
        assert(esc_seq(Seq::<char>::empty()) =~= Seq::<char>::empty());
        assert(esc_char(s[0]) + Seq::<char>::empty() =~= esc_char(s[0]));
    } else {
        let t = s.drop_first();
        lemma_esc_seq_take_step(t, i - 1);
        assert(s.take(i + 1).drop_first() =~= t.take(i));
        assert(s.take(i).drop_first() =~= t.take(i - 1));
        assert(s.take(i + 1)[0] == s[0]);
        assert(s.take(i)[0] == s[0]);
        assert(esc_seq(s.take(i + 1)) == esc_char(s[0]) + esc_seq(t.take(i)));
        assert(esc_seq(s.take(i)) == esc_char(s[0]) + esc_seq(t.take(i - 1)));
        assert(t[i - 1] == s[i]);
        assert(esc_seq(t.take(i)) == esc_seq(t.take(i - 1)) + esc_char(s[i]));
        assert(esc_char(s[0]) + (esc_seq(t.take(i - 1)) + esc_char(s[i])) =~= (esc_char(s[0])
            + esc_seq(t.take(i - 1))) + esc_char(s[i]));
    }
}

/// The lowercase hexadecimal digit for a value below sixteen.
pub fn hex_digit(n: u8) -> (r: char)
    requires
        n < 16,
    ensures
        r == spec_hex_digit(n as int),
{
    if n == 0 {
        '0'
    } else if n == 1 {
        '1'
    } else if n == 2 {
        '2'
    } else if n == 3 {
        '3'
    } else if n == 4 {
        '4'
    } else if n == 5 {
        '5'
    } else if n == 6 {
        '6'
    } else if n == 7 {
        '7'
    } else if n == 8 {
        '8'
    } else if n == 9 {
        '9'
    } else if n == 10 {
        'a'
    } else if n == 11 {
        'b'
    } else if n == 12 {
        'c'
    } else if n == 13 {
        'd'
    } else if n == 14 {
        'e'
    } else {
        'f'
    }
}

/// The value of a lowercase hexadecimal digit, or sixteen for any other
/// character.
pub fn hex_value(c: char) -> (r: u8)
    ensures
        r == spec_hex_value(c),
{
    if c == '0' {
        0
    } else if c == '1' {
        1
    } else if c == '2' {
        2
    } else if c == '3' {
        3
    } else if c == '4' {
        4
    } else if c == '5' {
        5
    } else if c == '6' {
        6
    } else if c == '7' {
        7
    } else if c == '8' {
        8
    } else if c == '9' {
        9
    } else if c == 'a' {
        10
    } else if c == 'b' {
        11
    } else if c == 'c' {
        12
    } else if c == 'd' {
        13
    } else if c == 'e' {
        14
    } else if c == 'f' {
        15
    } else {
        16
    }
}

/// Collects the characters of a string slice into a vector.
pub fn string_to_chars(s: &str) -> (r: Vec<char>)
    ensures
        r@ == s@,
{
    let n: usize = s.unicode_len();
    let mut r: Vec<char> = Vec::new();
    let mut i: usize = 0;
    while i < n
        invariant
            n == s@.len(),
            i <= n,
            r@ == s@.take(i as int),
        decreases n - i,
    {
        let c = s.get_char(i);
        r.push(c);
        proof {
            assert(r@ =~= s@.take(i + 1));
        }
        i = i + 1;
    }
    proof {
        assert(s@.take(n as int) =~= s@);
    }
    r
}

/// Builds a `String` from a vector of characters.
pub fn chars_to_string(v: &Vec<char>) -> (r: String)
    ensures
        r@ == v@,
{
    let mut r = String::new();
    let mut i: usize = 0;
    while i < v.len()
        invariant
            i <= v@.len(),
            r@ == v@.take(i as int),
        decreases v@.len() - i,
    {
        r.push(v[i]);
        proof {
            assert(r@ =~= v@.take(i + 1));
        }
        i = i + 1;
    }
    proof {
        assert(v@.take(v@.len() as int) =~= v@);
    }
    r
}

/// Appends the characters of a string slice to a character vector.
pub fn append_str_chars(out: &mut Vec<char>, s: &str)
    ensures
        final(out)@ == old(out)@ + s@,
{
    let n: usize = s.unicode_len();
    let mut i: usize = 0;
    while i < n
        invariant
            n == s@.len(),
            i <= n,
            out@ == old(out)@ + s@.take(i as int),
        decreases n - i,
    {
        let c = s.get_char(i);
        out.push(c);
        proof {
            assert(out@ =~= old(out)@ + s@.take(i + 1));
        }
        i = i + 1;
    }
    proof {
        assert(old(out)@ + s@.take(n as int) =~= old(out)@ + s@);
    }
}

/// Appends the canonical escape of one character.
pub fn push_escaped(out: &mut Vec<char>, c: char)
    ensures
        final(out)@ == old(out)@ + esc_char(c),
{
    if c == '"' {
        out.push('\\');
        out.push('"');
    } else if c == '\\' {
        out.push('\\');
        out.push('\\');
    } else if c == '\u{8}' {
        out.push('\\');
        out.push('b');
    } else if c == '\u{9}' {
        out.push('\\');
        out.push('t');
    } else if c == '\u{a}' {
        out.push('\\');
        out.push('n');
    } else if c == '\u{c}' {
        out.push('\\');
        out.push('f');
    } else if c == '\u{d}' {
        out.push('\\');
        out.push('r');
    } else if (c as u32) < 0x20 {
        let v: u32 = c as u32;
        out.push('\\');
        out.push('u');
        out.push('0');
        out.push('0');
        out.push(hex_digit((v / 16) as u8));
        out.push(hex_digit((v % 16) as u8));
    } else {
        out.push(c);
    }
    proof {
        assert(out@ =~= old(out)@ + esc_char(c));
    }
}

/// Appends the quoted, escaped form of a string value.
pub fn append_quoted(out: &mut Vec<char>, s: &String)
    ensures
        final(out)@ == old(out)@ + quoted(s@),
{
    let chars = string_to_chars(s.as_str());
    out.push('"');
    let ghost after_open = out@;
    let mut i: usize = 0;
    while i < chars.len()
        invariant
            chars@ == s@,
            i <= s@.len(),
            out@ == after_open + esc_seq(s@.take(i as int)),
            after_open == old(out)@.push('"'),
        decreases s@.len() - i,
    {
        push_escaped(out, chars[i]);
        proof {
            lemma_esc_seq_take_step(s@, i as int);
        }
        i = i + 1;
    }
    out.push('"');
    proof {
        assert(s@.take(s@.len() as int) =~= s@);
        assert(out@ =~= old(out)@ + quoted(s@));
    }
}

} // verus!

verus! {

/// The character a short escape stands for, if the escape letter is one the
/// canonical text uses.
pub open spec fn spec_short_unescape(c: char) -> Option<char> {
    if c == '"' {
        Some('"')
    } else if c == '\\' {
        Some('\\')
    } else if c == 'b' {
        Some('\u{8}')
    } else if c == 't' {
        Some('\u{9}')
    } else if c == 'n' {
        Some('\u{a}')
    } else if c == 'f' {
        Some('\u{c}')
    } else if c == 'r' {
        Some('\u{d}')
    } else {
        None
    }
}

/// The character a short escape stands for.
pub fn short_unescape(c: char) -> (r: Option<char>)
    ensures
        r == spec_short_unescape(c),
{
    if c == '"' {
        Some('"')
    } else if c == '\\' {
        Some('\\')
    } else if c == 'b' {
        Some('\u{8}')
    } else if c == 't' {
        Some('\u{9}')
    } else if c == 'n' {
        Some('\u{a}')
    } else if c == 'f' {
        Some('\u{c}')
    } else if c == 'r' {
        Some('\u{d}')
    } else {
        None
    }
}

/// Reads a JSON string body that starts at position `i`, just after the
/// opening quote, accepting exactly the escapes the canonical text writes.
/// Yields the decoded value and the position just after the closing quote.
pub open spec fn sp_str_body(s: Seq<char>, i: int) -> Option<(Seq<char>, int)>
    decreases s.len() - i
        when 0 <= i <= s.len()
{
    if i < 0 || i >= s.len() {
        None
    } else if s[i] == '"' {
        Some((Seq::empty(), i + 1))
    } else if s[i] == '\\' {
        if i + 1 >= s.len() {
            None
        } else if spec_short_unescape(s[i + 1]) is Some {
            match sp_str_body(s, i + 2) {
                Some((v, j)) => Some((seq![spec_short_unescape(s[i + 1])->0] + v, j)),
                None => None,
            }
        } else if s[i + 1] == 'u' {
            if i + 6 > s.len() {
                None
            } else if s[i + 2] != '0' || s[i + 3] != '0' {
                None
            } else if spec_hex_value(s[i + 4]) >= 16 || spec_hex_value(s[i + 5]) >= 16 {
                None
            } else {
                let code = spec_hex_value(s[i + 4]) * 16 + spec_hex_value(s[i + 5]);
                if code >= 0x20 || has_short_escape((code as u8) as char) || ((code as u8) as char)
                    as u32 != code {
                    None
                } else {
                    match sp_str_body(s, i + 6) {
                        Some((v, j)) => Some((seq![(code as u8) as char] + v, j)),
                        None => None,
                    }
                }
            }
        } else {
            None
        }
    } else if (s[i] as u32) < 0x20 {
        None
    } else {
        match sp_str_body(s, i + 1) {
            Some((v, j)) => Some((seq![s[i]] + v, j)),
            None => None,
        }
    }
}

/// A successful string-body read lands strictly past where it started and
/// within the text.
pub proof fn lemma_str_body_bounds(s: Seq<char>, i: int)
    requires
        0 <= i <= s.len(),
    ensures
        (sp_str_body(s, i) matches Some(p) ==> i < p.1 <= s.len()),
    decreases s.len() - i,
{
    if i < 0 || i >= s.len() {
    } else if s[i] == '"' {
    } else if s[i] == '\\' {
        if i + 1 >= s.len() {
        } else if spec_short_unescape(s[i + 1]) is Some {
            if sp_str_body(s, i + 2) is Some {
                lemma_str_body_bounds(s, i + 2);
            }
        } else if s[i + 1] == 'u' {
            if i + 6 <= s.len() && sp_str_body(s, i + 6) is Some {
                lemma_str_body_bounds(s, i + 6);
            }
        }
    } else if (s[i] as u32) < 0x20 {
    } else {
        if sp_str_body(s, i + 1) is Some {
            lemma_str_body_bounds(s, i + 1);
        }
    }
}

/// Reads a JSON string body starting at `i`, mirroring [`sp_str_body`].
pub fn str_body(s: &Vec<char>, i: usize) -> (r: Option<(Vec<char>, usize)>)
    requires
        i <= s@.len(),
    ensures
        (match r {
            Some(p) => sp_str_body(s@, i as int) == Some((p.0@, p.1 as int)) && i < p.1
                <= s@.len(),
            None => sp_str_body(s@, i as int) is None,
        }),
    decreases s@.len() - i,
{
    if i >= s.len() {
        return None;
    }
    let c = s[i];
    if c == '"' {
        let empty_value: Vec<char> = Vec::new();
        proof {
            assert(empty_value@ =~= Seq::<char>::empty());
        }
        return Some((empty_value, i + 1));
    }
    if c == '\\' {
        if i + 1 >= s.len() {
            return None;
        }
        let e = s[i + 1];
        match short_unescape(e) {
            Some(decoded) => {
                match str_body(s, i + 2) {
                    Some((mut v, j)) => {
                        v.insert(0, decoded);
                        proof {
                            assert(v@ =~= seq![decoded] + v@.drop_first());
                        }
                        Some((v, j))
                    },
                    None => None,
                }
            },
            None => {
                if e != 'u' {
                    return None;
                }
                if s.len() - i < 6 {
                    return None;
                }
                if s[i + 2] != '0' || s[i + 3] != '0' {
                    return None;
                }
                let hi = hex_value(s[i + 4]);
                let lo = hex_value(s[i + 5]);
                if hi >= 16 || lo >= 16 {
                    return None;
                }
                let code: u32 = hi as u32 * 16 + lo as u32;
                let decoded: char = (code as u8) as char;
                if code >= 0x20 {
                    return None;
                }
                if decoded == '\u{8}' || decoded == '\u{9}' || decoded == '\u{a}' || decoded
                    == '\u{c}' || decoded == '\u{d}' {
                    return None;
                }
                if decoded as u32 != code {
                    return None;
                }
                match str_body(s, i + 6) {
                    Some((mut v, j)) => {
                        v.insert(0, decoded);
                        proof {
                            assert(v@ =~= seq![decoded] + v@.drop_first());
                        }
                        Some((v, j))
                    },
                    None => None,
                }
            },
        }
    } else if (c as u32) < 0x20 {
        None
    } else {
        match str_body(s, i + 1) {
            Some((mut v, j)) => {
                v.insert(0, c);
                proof {
                    assert(v@ =~= seq![c] + v@.drop_first());
                }
                Some((v, j))
            },
            None => None,
        }
    }
}

/// The given literal stands in `s` at position `i`.
pub open spec fn sp_lit_at(s: Seq<char>, i: int, lit: Seq<char>) -> bool {
    0 <= i && i + lit.len() <= s.len() && s.subrange(i, i + lit.len()) == lit
}

/// Checks that a literal stands at position `i` and steps past it.
pub fn match_lit(s: &Vec<char>, i: usize, lit: &str) -> (r: Option<usize>)
    ensures
        (match r {
            Some(j) => sp_lit_at(s@, i as int, lit@) && j == i + lit@.len() && j <= s@.len(),
            None => !sp_lit_at(s@, i as int, lit@),
        }),
{
    let n: usize = lit.unicode_len();
    if i > s.len() {
        return None;
    }
    if n > s.len() - i {
        return None;
    }
    let end: usize = i + n;
    let mut k: usize = 0;
    while k < n
        invariant
            n == lit@.len(),
            end == i + n,
            end <= s@.len(),
            k <= n,
            s@.subrange(i as int, i + k) == lit@.take(k as int),
        decreases n - k,
    {
        if s[i + k] != lit.get_char(k) {
            proof {
                assert(!sp_lit_at(s@, i as int, lit@)) by {
                    if sp_lit_at(s@, i as int, lit@) {
                        assert(s@.subrange(i as int, i + n)[k as int] == lit@[k as int]);
                    }
                }
            }
            return None;
        }
        proof {
            assert(s@.subrange(i as int, i + k + 1) =~= lit@.take(k + 1));
        }
        k = k + 1;
    }
    proof {
        assert(lit@.take(n as int) =~= lit@);
    }
    Some(i + n)
}

/// Reading an escaped body back yields the value that was escaped: the decoder
/// accepts exactly what [`esc_seq`] wrote and stops at the closing quote.
pub proof fn lemma_str_body_complete(s: Seq<char>, i: int, v: Seq<char>)
    requires
        0 <= i,
        i + esc_seq(v).len() + 1 <= s.len(),
        s.subrange(i, i + esc_seq(v).len() + 1) == esc_seq(v) + seq!['"'],
    ensures
        sp_str_body(s, i) == Some((v, i + esc_seq(v).len() + 1)),
    decreases v.len(),
{
    let piece = esc_seq(v) + seq!['"'];
    if v.len() == 0 {
        assert(esc_seq(v) =~= Seq::<char>::empty());
        assert(s[i] == piece[0]);
        assert(s[i] == '"');
    } else {
        let c = v[0];
        let v1 = v.drop_first();
        let e = esc_char(c);
        assert(esc_seq(v) == e + esc_seq(v1));
        let el = e.len() as int;
        assert forall|k: int| 0 <= k < el implies s[i + k] == e[k] by {
            assert(piece[k] == s.subrange(i, i + esc_seq(v).len() + 1)[k]);
            assert(piece[k] == (e + esc_seq(v1))[k]);
        }
        assert(s.subrange(i + el, i + el + esc_seq(v1).len() + 1) =~= esc_seq(v1)
            + seq!['"']) by {
            assert forall|k: int| 0 <= k < esc_seq(v1).len() + 1 implies s[i + el + k] == (esc_seq(
                v1,
            ) + seq!['"'])[k] by {
                assert(piece[el + k] == s.subrange(i, i + esc_seq(v).len() + 1)[el + k]);
            }
        }
        lemma_str_body_complete(s, i + el, v1);
        if c == '"' || c == '\\' {
            assert(s[i] == '\\');
            assert(spec_short_unescape(s[i + 1]) == Some(c));
            assert(seq![c] + v1 =~= v);
        } else if has_short_escape(c) {
            assert(s[i] == '\\');
            assert(spec_short_unescape(s[i + 1]) == Some(c));
            assert(seq![c] + v1 =~= v);
        } else if (c as u32) < 0x20 {
            assert(s[i] == '\\');
            assert(s[i + 1] == 'u');
            assert(spec_short_unescape('u') is None);
            assert(s[i + 2] == '0');
            assert(s[i + 3] == '0');
            let hi = c as u32 as int / 16;
            let lo = c as u32 as int % 16;
            assert(s[i + 4] == spec_hex_digit(hi));
            assert(s[i + 5] == spec_hex_digit(lo));
            lemma_hex_digit_value(hi);
            lemma_hex_digit_value(lo);
            let code = spec_hex_value(s[i + 4]) * 16 + spec_hex_value(s[i + 5]);
            assert(code == c as u32 as int);
            assert(0 <= code < 0x20);
            assert((code as u8) as int == code);
            vstd::utf8::char_u32_cast(c, c as u32);
            assert((code as u8) as char == (c as u32) as char);
            assert((code as u8) as char == c);
            assert(((code as u8) as char) as u32 == code);
            assert(seq![c] + v1 =~= v);
        } else {
            assert(e =~= seq![c]);
            assert(e[0] == c);
            assert(s[i + 0] == e[0]);
            assert(s[i] == c);
            assert(seq![c] + v1 =~= v);
        }
    }
}

} // verus!

verus! {

pub proof fn lemma_hex_value_digit(c: char)
    requires
        spec_hex_value(c) < 16,
    ensures
        spec_hex_digit(spec_hex_value(c)) == c,
{
}

/// The decoder accepts only canonical text: whenever a string body is read,
/// the consumed characters are exactly the escape of the value it yields,
/// followed by the closing quote.
pub proof fn lemma_str_body_sound(s: Seq<char>, i: int)
    requires
        0 <= i <= s.len(),
    ensures
        (sp_str_body(s, i) matches Some(p) ==> i < p.1 <= s.len() && p.1 - i == esc_seq(p.0).len()
            + 1 && s.subrange(i, p.1) == esc_seq(p.0) + seq!['"']),
    decreases s.len() - i,
{
    lemma_str_body_bounds(s, i);
    if i >= s.len() {
    } else if s[i] == '"' {
        assert(esc_seq(Seq::<char>::empty()) =~= Seq::<char>::empty());
        assert(s.subrange(i, i + 1) =~= esc_seq(Seq::<char>::empty()) + seq!['"']);
    } else if s[i] == '\\' {
        if i + 1 >= s.len() {
        } else if spec_short_unescape(s[i + 1]) is Some {
            lemma_str_body_sound(s, i + 2);
            match sp_str_body(s, i + 2) {
                Some(p) => {
                    let v1 = p.0;
                    let j = p.1;
                    let c = spec_short_unescape(s[i + 1])->0;
                    let v = seq![c] + v1;
                    assert(v[0] == c);
                    assert(v.drop_first() =~= v1);
                    assert(esc_seq(v) == esc_char(c) + esc_seq(v1));
                    assert(esc_char(c) =~= seq![s[i], s[i + 1]]);
                    assert(s.subrange(i, i + 2) =~= seq![s[i], s[i + 1]]);
                    assert(s.subrange(i, j) =~= s.subrange(i, i + 2) + s.subrange(i + 2, j));
                    assert(s.subrange(i, j) =~= esc_seq(v) + seq!['"']);
                },
                None => {},
            }
        } else if s[i + 1] == 'u' {
            if i + 6 <= s.len() {
                lemma_str_body_sound(s, i + 6);
                let hi = spec_hex_value(s[i + 4]);
                let lo = spec_hex_value(s[i + 5]);
                let code = hi * 16 + lo;
                if s[i + 2] == '0' && s[i + 3] == '0' && hi < 16 && lo < 16 && code < 0x20
                    && !has_short_escape((code as u8) as char) && ((code as u8) as char) as u32
                    == code {
                    match sp_str_body(s, i + 6) {
                        Some(p) => {
                            let v1 = p.0;
                            let j = p.1;
                            let c = (code as u8) as char;
                            let v = seq![c] + v1;
                            assert(v[0] == c);
                            assert(v.drop_first() =~= v1);
                            assert(esc_seq(v) == esc_char(c) + esc_seq(v1));
                            lemma_hex_value_digit(s[i + 4]);
                            lemma_hex_value_digit(s[i + 5]);
                            assert(code / 16 == hi);
                            assert(code % 16 == lo);
                            assert(c as u32 as int / 16 == hi);
                            assert(c as u32 as int % 16 == lo);
                            assert(esc_char(c) =~= seq![
                                '\\',
                                'u',
                                '0',
                                '0',
                                s[i + 4],
                                s[i + 5],
                            ]);
                            assert(s.subrange(i, i + 6) =~= seq![
                                s[i],
                                s[i + 1],
                                s[i + 2],
                                s[i + 3],
                                s[i + 4],
                                s[i + 5],
                            ]);
                            assert(s.subrange(i, j) =~= s.subrange(i, i + 6) + s.subrange(
                                i + 6,
                                j,
                            ));
                            assert(s.subrange(i + 6, j) == esc_seq(v1) + seq!['"']);
                            assert(s.subrange(i, j) =~= esc_char(c) + (esc_seq(v1) + seq!['"']));
                            assert(esc_char(c) + (esc_seq(v1) + seq!['"']) =~= (esc_char(c)
                                + esc_seq(v1)) + seq!['"']);
                            assert(s.subrange(i, j) =~= esc_seq(v) + seq!['"']);
                        },
                        None => {},
                    }
                }
            }
        }
    } else if (s[i] as u32) < 0x20 {
    } else {
        lemma_str_body_sound(s, i + 1);
        match sp_str_body(s, i + 1) {
            Some(p) => {
                let v1 = p.0;
                let j = p.1;
                let c = s[i];
                let v = seq![c] + v1;
                assert(v[0] == c);
                assert(v.drop_first() =~= v1);
                assert(esc_seq(v) == esc_char(c) + esc_seq(v1));
                assert(esc_char(c) =~= seq![c]);
                assert(s.subrange(i, i + 1) =~= seq![c]);
                assert(s.subrange(i, j) =~= s.subrange(i, i + 1) + s.subrange(i + 1, j));
                assert(s.subrange(i, j) =~= esc_seq(v) + seq!['"']);
            },
            None => {},
        }
    }
}

} // verus!
