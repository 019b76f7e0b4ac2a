//! The text form of a pattern: whitespace-separated two-digit hex bytes,
//! with `??`, `?` or `**` standing for the wildcard byte.
use vstd::prelude::*;
use vstd::string::{StrSliceExecFns, StringExecFns};

use crate::pattern::PATTERN_WILDCARD;
use crate::scan::PatternScanError;

verus! {

/// Whitespace as `char::is_whitespace` takes it: the characters of the
/// Unicode `White_Space` property.
pub open spec fn is_space(c: char) -> bool {
    ('\u{9}' <= c <= '\u{D}') || c == ' ' || c == '\u{85}' || c == '\u{A0}' || c == '\u{1680}' || (
    '\u{2000}' <= c <= '\u{200A}') || c == '\u{2028}' || c == '\u{2029}' || c == '\u{202F}' || c == '\u{205F}'
        || c == '\u{3000}'
}

/// Splits `s` at runs of whitespace: the tokens already closed, and the one
/// still open at the end of `s` (empty if `s` ends in whitespace).
pub open spec fn split_ws(s: Seq<char>) -> (Seq<Seq<char>>, Seq<char>)
    decreases s.len(),
{
    if s.len() == 0 {
        (Seq::empty(), Seq::empty())
    } else {
        let (ts, cur) = split_ws(s.drop_last());
        if is_space(s.last()) {
            if cur.len() > 0 {
                (ts.push(cur), Seq::empty())
            } else {
                (ts, Seq::empty())
            }
        } else {
            (ts, cur.push(s.last()))
        }
    }
}

/// The whitespace-separated tokens of `s`.
pub open spec fn tokens(s: Seq<char>) -> Seq<Seq<char>> {
    let (ts, cur) = split_ws(s);
    if cur.len() > 0 {
        ts.push(cur)
    } else {
        ts
    }
}

pub open spec fn hex_value(c: char) -> Option<u8> {
    if '0' <= c <= '9' {
        Some((c as u32 - 48) as u8)
    } else if 'A' <= c <= 'F' {
        Some((c as u32 - 65 + 10) as u8)
    } else if 'a' <= c <= 'f' {
        Some((c as u32 - 97 + 10) as u8)
    } else {
        None
    }
}

/// How a token fails to be a byte.
pub enum TokenFault {
    InvalidDigit,
    TooLarge,
}

/// Reads hex digits left to right; the first fault met decides the error.
pub open spec fn read_hex(d: Seq<char>) -> Result<u8, TokenFault>
    decreases d.len(),
{
    if d.len() == 0 {
        Ok(0)
    } else {
        match read_hex(d.drop_last()) {
            Err(e) => Err(e),
            Ok(v) => match hex_value(d.last()) {
                None => Err(TokenFault::InvalidDigit),
                Some(x) => if v * 16 + x > 255 {
                    Err(TokenFault::TooLarge)
                } else {
                    Ok((v * 16 + x) as u8)
                },
            },
        }
    }
}

pub open spec fn is_wildcard_token(t: Seq<char>) -> bool {
    t == seq!['*', '*'] || t == seq!['?', '?'] || t == seq!['?']
}

/// One token: a wildcard token, or hex digits after an optional `+`.
pub open spec fn token_byte(t: Seq<char>) -> Result<u8, TokenFault> {
    if is_wildcard_token(t) {
        Ok(PATTERN_WILDCARD)
    } else {
        let d = if t.len() > 0 && t[0] == '+' { t.drop_first() } else { t };
        if d.len() == 0 {
            Err(TokenFault::InvalidDigit)
        } else {
            read_hex(d)
        }
    }
}

/// Reads tokens left to right; the first token that is no byte decides the error.
pub open spec fn parse_tokens(ts: Seq<Seq<char>>) -> Result<Seq<u8>, TokenFault>
    decreases ts.len(),
{
    if ts.len() == 0 {
        Ok(Seq::empty())
    } else {
        match parse_tokens(ts.drop_last()) {
            Err(e) => Err(e),
            Ok(p) => match token_byte(ts.last()) {
                Err(e) => Err(e),
                Ok(b) => Ok(p.push(b)),
            },
        }
    }
}

/// The pattern bytes that a pattern text denotes, or the fault that rejects it.
pub open spec fn parse_pattern(s: Seq<char>) -> Result<Seq<u8>, TokenFault> {
    parse_tokens(tokens(s))
}

pub open spec fn fault_message(f: TokenFault) -> Seq<char> {
    match f {
        TokenFault::InvalidDigit => "invalid digit found in string"@,
        TokenFault::TooLarge => "number too large to fit in target type"@,
    }
}

fn read_digit(c: char) -> (r: Option<u8>)
    ensures
        r == hex_value(c),
{
    if '0' <= c && c <= '9' {
        Some((c as u32 - 48) as u8)
    } else if 'A' <= c && c <= 'F' {
        Some((c as u32 - 65 + 10) as u8)
    } else if 'a' <= c && c <= 'f' {
        Some((c as u32 - 97 + 10) as u8)
    } else {
        None
    }
}

/// Reads the token `bytes[start..end]` (characters of the text).
fn read_token(bytes: &[char], start: usize, end: usize) -> (r: Result<u8, TokenFault>)
    requires
        start < end <= bytes.len(),
    ensures
        r == token_byte(bytes@.subrange(start as int, end as int)),
{
    let ghost t = bytes@.subrange(start as int, end as int);
    let len = end - start;
    if len == 2 && ((bytes[start] == '*' && bytes[start + 1] == '*') || (bytes[start] == '?'
        && bytes[start + 1] == '?')) {
        assert(is_wildcard_token(t)) by {
            if bytes@[start as int] == '*' {
                assert(t =~= seq!['*', '*']);
            } else {
                assert(t =~= seq!['?', '?']);
            }
        }
        return Ok(PATTERN_WILDCARD);
    }
    if len == 1 && bytes[start] == '?' {
        assert(t =~= seq!['?']);
        return Ok(PATTERN_WILDCARD);
    }
    assert(!is_wildcard_token(t)) by {
        if t == seq!['*', '*'] || t == seq!['?', '?'] {
            assert(t[0] == bytes@[start as int] && t[1] == bytes@[start + 1]);
        }
        if t == seq!['?'] {
            assert(t[0] == bytes@[start as int]);
        }
    }
    let first = if bytes[start] == '+' { start + 1 } else { start };
    let ghost d = bytes@.subrange(first as int, end as int);
    assert(d =~= (if t.len() > 0 && t[0] == '+' { t.drop_first() } else { t }));
    if first == end {
        return Err(TokenFault::InvalidDigit);
    }
    assert(token_byte(t) == read_hex(d));
    let mut acc: u8 = 0;
    let mut k: usize = first;
    while k < end
        invariant
            first <= k <= end <= bytes.len(),
            read_hex(bytes@.subrange(first as int, k as int)) == Ok::<u8, TokenFault>(acc),
            d == bytes@.subrange(first as int, end as int),
            token_byte(bytes@.subrange(start as int, end as int)) == read_hex(d),
        decreases end - k,
    {
        let ghost pre = bytes@.subrange(first as int, k as int);
        let ghost next = bytes@.subrange(first as int, k + 1);
        assert(next.drop_last() =~= pre);
        assert(next.last() == bytes@[k as int]);
        match read_digit(bytes[k]) {
            None => {
                assert(read_hex(d) == Err::<u8, TokenFault>(TokenFault::InvalidDigit)) by {
                    assert(d.subrange(0, (k + 1 - first) as int) =~= next);
                    lemma_read_hex_err_sticks(d, (k + 1 - first) as int);
                }
                return Err(TokenFault::InvalidDigit);
            },
            Some(x) => {
                if acc as u32 * 16 + x as u32 > 255 {
                    assert(read_hex(d) == Err::<u8, TokenFault>(TokenFault::TooLarge)) by {
                        assert(d.subrange(0, (k + 1 - first) as int) =~= next);
                        lemma_read_hex_err_sticks(d, (k + 1 - first) as int);
                    }
                    return Err(TokenFault::TooLarge);
                }
                acc = acc * 16 + x;
            },
        }
        k += 1;
    }
    assert(bytes@.subrange(first as int, end as int) =~= d);
    Ok(acc)
}

/// Once reading a prefix of `d` fails, reading all of `d` fails the same way.
proof fn lemma_read_hex_err_sticks(d: Seq<char>, len: int)
    requires
        0 <= len <= d.len(),
        read_hex(d.subrange(0, len)) is Err,
    ensures
        read_hex(d) == read_hex(d.subrange(0, len)),
    decreases d.len() - len,
{
    if len < d.len() {
        let longer = d.subrange(0, len + 1);
        assert(longer.drop_last() =~= d.subrange(0, len));
        lemma_read_hex_err_sticks(d, len + 1);
    } else {
        assert(d.subrange(0, len) =~= d);
    }
}

/// Once reading a prefix of the tokens fails, reading all of them fails the same way.
proof fn lemma_parse_err_sticks(ts: Seq<Seq<char>>, more: Seq<Seq<char>>)
    requires
        parse_tokens(ts) is Err,
    ensures
        parse_tokens(ts + more) == parse_tokens(ts),
    decreases more.len(),
{
    if more.len() == 0 {
        assert(ts + more =~= ts);
    } else {
        lemma_parse_err_sticks(ts, more.drop_last());
        assert((ts + more).drop_last() =~= ts + more.drop_last());
    }
}

/// Every token of `split_ws(s)` is non-empty and holds no whitespace; the
/// tokens of `s` extended by a byte follow from those of `s`.
proof fn lemma_split_step(s: Seq<char>, b: char)
    ensures
        split_ws(s.push(b)) == (if is_space(b) {
            if split_ws(s).1.len() > 0 {
                (split_ws(s).0.push(split_ws(s).1), Seq::<char>::empty())
            } else {
                (split_ws(s).0, Seq::<char>::empty())
            }
        } else {
            (split_ws(s).0, split_ws(s).1.push(b))
        }),
{
    assert(s.push(b).drop_last() =~= s);
}


pub open spec fn is_prefix<T>(a: Seq<T>, b: Seq<T>) -> bool {
    a.len() <= b.len() && b.subrange(0, a.len() as int) =~= a
}

/// The tokens closed within a prefix of `s` begin the tokens of `s`.
proof fn lemma_tokens_extend(s: Seq<char>, j: int)
    requires
        0 <= j <= s.len(),
    ensures
        is_prefix(split_ws(s.take(j)).0, tokens(s)),
    decreases s.len() - j,
{
    if j == s.len() {
        assert(s.take(j) =~= s);
        let (ts, cur) = split_ws(s);
        if cur.len() > 0 {
            assert(ts.push(cur).subrange(0, ts.len() as int) =~= ts);
        } else {
            assert(ts.subrange(0, ts.len() as int) =~= ts);
        }
    } else {
        lemma_tokens_extend(s, j + 1);
        lemma_split_step(s.take(j), s[j]);
        assert(s.take(j + 1) =~= s.take(j).push(s[j]));
        let a = split_ws(s.take(j)).0;
        let b = split_ws(s.take(j + 1)).0;
        let t = tokens(s);
        assert(b.subrange(0, a.len() as int) =~= a);
        assert(t.subrange(0, a.len() as int) =~= t.subrange(0, b.len() as int).subrange(0, a.len() as int));
    }
}

fn is_white(c: char) -> (r: bool)
    ensures
        r == is_space(c),
{
    ('\u{9}' <= c && c <= '\u{D}') || c == ' ' || c == '\u{85}' || c == '\u{A0}' || c == '\u{1680}' || (
    '\u{2000}' <= c && c <= '\u{200A}') || c == '\u{2028}' || c == '\u{2029}' || c == '\u{202F}' || c
        == '\u{205F}' || c == '\u{3000}'
}

/// Converts a pattern text into its bytes, the wildcard tokens becoming
/// the wildcard byte.
pub fn space_hex_to_bytes(text_hex: &str) -> (r: Result<Vec<u8>, PatternScanError>)
    ensures
        match parse_pattern(text_hex@) {
            Ok(p) => r matches Ok(v) && v@ == p,
            Err(f) => r matches Err(PatternScanError::Format(msg)) && msg@ == fault_message(f),
        },
{
    let n = text_hex.unicode_len();
    let mut chars: Vec<char> = Vec::new();
    let mut c: usize = 0;
    while c < n
        invariant
            c <= n,
            n == text_hex@.len(),
            chars@ == text_hex@.take(c as int),
        decreases n - c,
    {
        chars.push(text_hex.get_char(c));
        c += 1;
        assert(chars@ =~= text_hex@.take(c as int));
    }
    assert(chars@ =~= text_hex@);
    let bytes = chars.as_slice();
    let ghost s = bytes@;
    let mut out: Vec<u8> = Vec::new();
    let mut start: usize = 0;
    let mut i: usize = 0;
    while i < bytes.len()
        invariant
            s == bytes@,
            s == text_hex@,
            start <= i <= bytes.len(),
            split_ws(s.take(i as int)).1 == s.subrange(start as int, i as int),
            parse_tokens(split_ws(s.take(i as int)).0) == Ok::<Seq<u8>, TokenFault>(out@),
        decreases bytes.len() - i,
    {
        proof {
            lemma_split_step(s.take(i as int), s[i as int]);
            assert(s.take(i + 1) =~= s.take(i as int).push(s[i as int]));
        }
        let b = bytes[i];
        if is_white(b) {
            if start < i {
                let ghost ts = split_ws(s.take(i as int)).0;
                let ghost cur = split_ws(s.take(i as int)).1;
                assert(ts.push(cur).drop_last() =~= ts);
                match read_token(bytes, start, i) {
                    Ok(v) => {
                        out.push(v);
                    },
                    Err(f) => {
                        proof {
                            lemma_tokens_extend(s, i as int + 1);
                            let rest = tokens(s).subrange(ts.len() as int + 1, tokens(s).len() as int);
                            lemma_parse_err_sticks(ts.push(cur), rest);
                            assert(ts.push(cur) + rest =~= tokens(s));
                        }
                        return Err(PatternScanError::Format(fault_text(f)));
                    },
                }
            }
            start = i + 1;
        }
        i += 1;
    }
    assert(s.take(i as int) =~= s);
    if start < i {
        let ghost ts = split_ws(s).0;
        let ghost cur = split_ws(s).1;
        assert(ts.push(cur).drop_last() =~= ts);
        match read_token(bytes, start, i) {
            Ok(v) => {
                out.push(v);
            },
            Err(f) => {
                return Err(PatternScanError::Format(fault_text(f)));
            },
        }
    }
    Ok(out)
}


pub open spec fn hex_digits() -> Seq<char> {
    seq!['0', '1', '2', '3', '4', '5', '6', '7', '8', '9', 'A', 'B', 'C', 'D', 'E', 'F']
}

/// A byte as two upper-case hex digits.
pub open spec fn byte_hex(b: u8) -> Seq<char> {
    seq![hex_digits()[b as int / 16], hex_digits()[b as int % 16]]
}

/// Bytes as upper-case two-digit hex, separated by single spaces.
pub open spec fn space_hex(bytes: Seq<u8>) -> Seq<char>
    decreases bytes.len(),
{
    if bytes.len() == 0 {
        Seq::empty()
    } else if bytes.len() == 1 {
        byte_hex(bytes[0])
    } else {
        space_hex(bytes.drop_last()) + seq![' '] + byte_hex(bytes.last())
    }
}

fn hex_digit(n: u8) -> (r: &'static str)
    requires
        n < 16,
    ensures
        r@ == seq![hex_digits()[n as int]],
{
    let digits = "0123456789ABCDEF";
    proof {
        reveal_strlit("0123456789ABCDEF");
    }
    let r = digits.substring_char(n as usize, n as usize + 1);
    assert(r@ =~= seq![hex_digits()[n as int]]);
    r
}

/// Writes bytes as upper-case two-digit hex separated by spaces.
pub fn bytes_to_space_hex(bytes: &[u8]) -> (r: String)
    ensures
        r@ == space_hex(bytes@),
{
    let mut out = String::new();
    let mut i: usize = 0;
    while i < bytes.len()
        invariant
            i <= bytes.len(),
            out@ == space_hex(bytes@.take(i as int)),
        decreases bytes.len() - i,
    {
        let b = bytes[i];
        let ghost before = out@;
        if i > 0 {
            proof {
                reveal_strlit(" ");
            }
            out.append(" ");
        }
        out.append(hex_digit(b / 16));
        out.append(hex_digit(b % 16));
        proof {
            let t = bytes@.take(i + 1);
            assert(t.drop_last() =~= bytes@.take(i as int));
            if i == 0 {
                assert(out@ =~= byte_hex(b));
            } else {
                assert(out@ =~= before + seq![' '] + byte_hex(b));
            }
        }
        i += 1;
    }
    assert(bytes@.take(i as int) =~= bytes@);
    out
}

fn fault_text(f: TokenFault) -> (r: String)
    ensures
        r@ == fault_message(f),
{
    match f {
        TokenFault::InvalidDigit => String::from_str("invalid digit found in string"),
        TokenFault::TooLarge => String::from_str("number too large to fit in target type"),
    }
}

} // verus!
