//! Byte-pattern search with a wildcard byte (Boyer–Moore, bad-character rule).
use vstd::prelude::*;

verus! {

/// The byte that stands for "any byte" in a pattern.
pub const PATTERN_WILDCARD: u8 = 0xFF;

/// `pattern` agrees with `text` at start offset `i`: every pattern byte is
/// the wildcard or equals the text byte under it.
pub open spec fn matches_at(text: Seq<u8>, pattern: Seq<u8>, wildcard: u8, i: int) -> bool {
    &&& 0 <= i
    &&& i + pattern.len() <= text.len()
    &&& forall|k: int|
        0 <= k < pattern.len() ==> #[trigger] pattern[k] == wildcard || pattern[k] == text[i + k]
}

/// Every start offset at which `pattern` agrees with `text`.
pub open spec fn match_offsets(text: Seq<u8>, pattern: Seq<u8>, wildcard: u8) -> Set<int> {
    Set::new(|i: int| matches_at(text, pattern, wildcard, i))
}

/// Offset `i` is among the offsets in `r`.
pub open spec fn lists_offset(r: Seq<usize>, i: int) -> bool {
    exists|k: int| 0 <= k < r.len() && r[k] as int == i
}

pub open spec fn strictly_increasing(r: Seq<usize>) -> bool {
    forall|a: int, b: int| 0 <= a < b < r.len() ==> r[a] < r[b]
}

/// What a search for all matches reports: every match, each once, in
/// increasing order.
pub open spec fn reports_matches(text: Seq<u8>, pattern: Seq<u8>, wildcard: u8, r: Seq<usize>) -> bool {
    &&& strictly_increasing(r)
    &&& forall|k: int| 0 <= k < r.len() ==> matches_at(text, pattern, wildcard, #[trigger] r[k] as int)
    &&& forall|i: int| #[trigger] matches_at(text, pattern, wildcard, i) ==> lists_offset(r, i)
}

/// The wildcard bound: one more than the rightmost index of a wildcard in
/// the pattern, or 0 if it holds none. A wildcard agrees with every byte,
/// so no shift may carry it past a byte of the text.
pub open spec fn is_wildcard_bound(pattern: Seq<u8>, wildcard: u8, bound: usize) -> bool {
    &&& bound <= pattern.len()
    &&& bound > 0 ==> pattern[bound - 1] == wildcard
    &&& forall|idx: int| bound <= idx < pattern.len() ==> #[trigger] pattern[idx] != wildcard
}

/// The bad-character table: entry `b` is one more than the rightmost index
/// at which `b` stands as a concrete (non-wildcard) byte, or 0 if it never does.
pub open spec fn is_bad_character_table(pattern: Seq<u8>, wildcard: u8, table: Seq<usize>) -> bool {
    &&& table.len() == 256
    &&& forall|b: int| 0 <= b < 256 ==> #[trigger] table[b] <= pattern.len()
    &&& forall|b: int| 0 <= b < 256 && table[b] > 0 ==>
        pattern[#[trigger] table[b] - 1] == b && pattern[table[b] - 1] != wildcard
    &&& forall|b: int, idx: int| 0 <= b < 256 && #[trigger] table[b] <= idx < pattern.len() ==>
        #[trigger] pattern[idx] == wildcard || pattern[idx] != b
}


/// Without wildcard bytes in the pattern, a report of all matches lists
/// exactly the offsets at which the pattern's bytes appear verbatim.
pub proof fn search_is_exact_without_wildcards(
    text: Seq<u8>,
    pattern: Seq<u8>,
    wildcard: u8,
    r: Seq<usize>,
)
    requires
        reports_matches(text, pattern, wildcard, r),
        !pattern.contains(wildcard),
    ensures
        forall|i: int|
            #[trigger] lists_offset(r, i) <==> (0 <= i && i + pattern.len() <= text.len()
                && text.subrange(i, i + pattern.len()) == pattern),
{
    assert forall|i: int| #[trigger] lists_offset(r, i) <==> (0 <= i && i + pattern.len() <= text.len()
        && text.subrange(i, i + pattern.len()) == pattern) by {
        if lists_offset(r, i) {
            let k = choose|k: int| 0 <= k < r.len() && r[k] as int == i;
            assert(matches_at(text, pattern, wildcard, r[k] as int));
            assert forall|t: int| 0 <= t < pattern.len() implies text.subrange(i, i + pattern.len())[t]
                == pattern[t] by {
                if pattern[t] == wildcard {
                    assert(pattern.contains(wildcard));
                }
            }
            assert(text.subrange(i, i + pattern.len()) =~= pattern);
        }
        if 0 <= i && i + pattern.len() <= text.len() && text.subrange(i, i + pattern.len()) == pattern {
            assert forall|t: int| 0 <= t < pattern.len() implies #[trigger] pattern[t] == wildcard
                || pattern[t] == text[i + t] by {
                assert(text.subrange(i, i + pattern.len())[t] == text[i + t]);
            }
            assert(matches_at(text, pattern, wildcard, i));
        }
    }
}

/// Each reported match agrees with the text at every non-wildcard position
/// of the pattern.
pub proof fn reported_matches_agree_on_concrete_bytes(
    text: Seq<u8>,
    pattern: Seq<u8>,
    wildcard: u8,
    r: Seq<usize>,
)
    requires
        reports_matches(text, pattern, wildcard, r),
    ensures
        forall|k: int, t: int|
            #![trigger r[k], pattern[t]]
            0 <= k < r.len() && 0 <= t < pattern.len() && pattern[t] != wildcard ==> r[k] + t < text.len()
                && text[r[k] + t] == pattern[t],
{
    assert forall|k: int, t: int|
        #![trigger r[k], pattern[t]]
        0 <= k < r.len() && 0 <= t < pattern.len() && pattern[t] != wildcard implies r[k] + t < text.len()
            && text[r[k] + t] == pattern[t] by {
        assert(matches_at(text, pattern, wildcard, r[k] as int));
    }
}

fn build_bad_character_table(pattern: &[u8], wildcard: u8) -> (table: Vec<usize>)
    ensures
        is_bad_character_table(pattern@, wildcard, table@),
{
    let mut table: Vec<usize> = Vec::new();
    let mut b: usize = 0;
    while b < 256
        invariant
            b <= 256,
            table.len() == b,
            forall|k: int| 0 <= k < b ==> table@[k] == 0,
        decreases 256 - b,
    {
        table.push(0);
        b += 1;
    }
    let mut i: usize = 0;
    while i < pattern.len()
        invariant
            i <= pattern.len(),
            table.len() == 256,
            forall|c: int| 0 <= c < 256 ==> #[trigger] table@[c] <= i,
            forall|c: int| 0 <= c < 256 && table@[c] > 0 ==>
                pattern@[#[trigger] table@[c] - 1] == c && pattern@[table@[c] - 1] != wildcard,
            forall|c: int, idx: int| 0 <= c < 256 && #[trigger] table@[c] <= idx < i ==>
                #[trigger] pattern@[idx] == wildcard || pattern@[idx] != c,
        decreases pattern.len() - i,
    {
        let byte = pattern[i];
        if byte != wildcard {
            table.set(byte as usize, i + 1);
        }
        i += 1;
    }
    table
}

fn wildcard_bound(pattern: &[u8], wildcard: u8) -> (bound: usize)
    ensures
        is_wildcard_bound(pattern@, wildcard, bound),
{
    let mut i: usize = pattern.len();
    while i > 0 && pattern[i - 1] != wildcard
        invariant
            i <= pattern.len(),
            forall|idx: int| i <= idx < pattern.len() ==> #[trigger] pattern@[idx] != wildcard,
        decreases i,
    {
        i -= 1;
    }
    i
}

/// The shift after a mismatch at pattern index `j - 1`, `c` being the text
/// byte under it: `j - t` when that is above 1, else 1, where `t` is the
/// larger of `table[c]` and the wildcard bound.
fn bad_character_shift(table: &Vec<usize>, bound: usize, c: u8, j: usize) -> (shift: usize)
    requires
        table.len() == 256,
        j >= 1,
    ensures
        shift >= 1,
        shift <= j,
        shift > 1 ==> j - table@[c as int] >= shift && j - bound >= shift,
{
    let t = if table[c as usize] > bound { table[c as usize] } else { bound };
    if j > t && j - t > 1 {
        j - t
    } else {
        1
    }
}

/// Length of the longest suffix check: returns `j` such that the pattern
/// agrees with the text at window `i` on every index in `j..m`, and `j == 0`
/// or index `j - 1` mismatches.
fn scan_window(text: &[u8], pattern: &[u8], wildcard: u8, i: usize) -> (j: usize)
    requires
        i + pattern.len() <= text.len(),
    ensures
        j <= pattern.len(),
        forall|t: int| j <= t < pattern.len() ==>
            #[trigger] pattern@[t] == wildcard || pattern@[t] == text@[i + t],
        j > 0 ==> pattern@[j - 1] != wildcard && pattern@[j - 1] != text@[i + j - 1],
{
    let mut j: usize = pattern.len();
    while j > 0 && (pattern[j - 1] == wildcard || pattern[j - 1] == text[i + j - 1])
        invariant
            j <= pattern.len(),
            i + pattern.len() <= text.len(),
            forall|t: int| j <= t < pattern.len() ==>
                #[trigger] pattern@[t] == wildcard || pattern@[t] == text@[i + t],
        decreases j,
    {
        j -= 1;
    }
    j
}

/// After a mismatch at index `j - 1` of window `i`, no window from `i` up to,
/// not including, `i + shift` matches.
proof fn lemma_skip_sound(
    text: Seq<u8>,
    pattern: Seq<u8>,
    wildcard: u8,
    table: Seq<usize>,
    bound: usize,
    i: int,
    j: int,
    shift: int,
)
    requires
        is_bad_character_table(pattern, wildcard, table),
        is_wildcard_bound(pattern, wildcard, bound),
        1 <= j <= pattern.len(),
        0 <= i,
        i + pattern.len() <= text.len(),
        pattern[j - 1] != wildcard,
        pattern[j - 1] != text[i + j - 1],
        1 <= shift <= j,
        shift > 1 ==> j - table[text[i + j - 1] as int] >= shift && j - bound >= shift,
    ensures
        forall|q: int| i <= q < i + shift ==> !#[trigger] matches_at(text, pattern, wildcard, q),
{
    let c = text[i + j - 1];
    assert forall|q: int| i <= q < i + shift implies !#[trigger] matches_at(
        text,
        pattern,
        wildcard,
        q,
    ) by {
        let k = q - i;
        let idx = j - 1 - k;
        assert(0 <= idx < pattern.len());
        if k > 0 {
            assert(table[c as int] <= idx);
            assert(bound <= idx);
            assert(pattern[idx] != c);
            assert(pattern[idx] != wildcard);
        }
        assert(q + idx == i + j - 1);
        assert(!(pattern[idx] == wildcard || pattern[idx] == text[q + idx]));
    }
}

/// Every offset at which `pattern` is found in `text`, in increasing order;
/// overlapping matches are all reported.
pub fn boyer_moore_search_all(text: &[u8], pattern: &[u8], wildcard: u8) -> (r: Vec<usize>)
    ensures
        reports_matches(text@, pattern@, wildcard, r@),
{
    let table = build_bad_character_table(pattern, wildcard);
    let bound = wildcard_bound(pattern, wildcard);
    let mut matches: Vec<usize> = Vec::new();
    let m = pattern.len();
    let n = text.len();
    if m > n {
        return matches;
    }
    if m == 0 {
        let mut i: usize = 0;
        while i < n
            invariant
                i <= n,
                m == 0,
                matches@.len() == i,
                forall|k: int| 0 <= k < i ==> matches@[k] == k,
            decreases n - i,
        {
            matches.push(i);
            i += 1;
        }
        matches.push(n);
        assert forall|i: int| #[trigger] matches_at(text@, pattern@, wildcard, i) implies lists_offset(matches@, i) by {
            assert(matches@[i] as int == i);
        }
        return matches;
    }
    let mut i: usize = 0;
    while i <= n - m
        invariant
            1 <= m <= n,
            m == pattern.len(),
            n == text.len(),
            i <= n,
            is_bad_character_table(pattern@, wildcard, table@),
            is_wildcard_bound(pattern@, wildcard, bound),
            strictly_increasing(matches@),
            forall|k: int| 0 <= k < matches@.len() ==> matches@[k] < i,
            forall|k: int| 0 <= k < matches@.len() ==>
                matches_at(text@, pattern@, wildcard, #[trigger] matches@[k] as int),
            forall|q: int|
                0 <= q < i && #[trigger] matches_at(text@, pattern@, wildcard, q)
                    ==> lists_offset(matches@, q),
        decreases n - i,
    {
        let j = scan_window(text, pattern, wildcard, i);
        if j == 0 {
            assert(matches_at(text@, pattern@, wildcard, i as int));
            let ghost before = matches@;
            matches.push(i);
            assert forall|q: int|
                0 <= q < i + 1 && #[trigger] matches_at(text@, pattern@, wildcard, q)
                    implies lists_offset(matches@, q) by {
                if q < i {
                    let k = choose|k: int| 0 <= k < before.len() && before[k] as int == q;
                    assert(matches@[k] as int == q);
                } else {
                    assert(matches@[before.len() as int] as int == q);
                }
            }
            i += 1;
        } else {
            let shift = bad_character_shift(&table, bound, text[i + j - 1], j);
            proof {
                lemma_skip_sound(text@, pattern@, wildcard, table@, bound, i as int, j as int, shift as int);
            }
            i += shift;
        }
    }
    proof {
        assert forall|q: int| #[trigger] matches_at(text@, pattern@, wildcard, q) implies lists_offset(matches@, q) by {
            assert(q < i);
        }
    }
    matches
}

/// The first offset at which `pattern` is found in `text`, if any.
pub fn boyer_moore_search_first(text: &[u8], pattern: &[u8], wildcard: u8) -> (r: Option<usize>)
    ensures
        r matches Some(i) ==> matches_at(text@, pattern@, wildcard, i as int),
        match r {
            Some(i) => forall|q: int| 0 <= q < i ==> !#[trigger] matches_at(text@, pattern@, wildcard, q),
            None => forall|q: int| !#[trigger] matches_at(text@, pattern@, wildcard, q),
        },
{
    let table = build_bad_character_table(pattern, wildcard);
    let bound = wildcard_bound(pattern, wildcard);
    let m = pattern.len();
    let n = text.len();
    if m > n {
        return None;
    }
    if m == 0 {
        assert(matches_at(text@, pattern@, wildcard, 0));
        return Some(0);
    }
    let mut i: usize = 0;
    while i <= n - m
        invariant
            1 <= m <= n,
            m == pattern.len(),
            n == text.len(),
            i <= n,
            is_bad_character_table(pattern@, wildcard, table@),
            is_wildcard_bound(pattern@, wildcard, bound),
            forall|q: int| 0 <= q < i ==> !#[trigger] matches_at(text@, pattern@, wildcard, q),
        decreases n - i,
    {
        let j = scan_window(text, pattern, wildcard, i);
        if j == 0 {
            assert(matches_at(text@, pattern@, wildcard, i as int));
            return Some(i);
        }
        let shift = bad_character_shift(&table, bound, text[i + j - 1], j);
        proof {
            lemma_skip_sound(text@, pattern@, wildcard, table@, bound, i as int, j as int, shift as int);
        }
        i += shift;
    }
    None
}

} // verus!
