//! Scanning copies of the target's memory for a pattern: the first match,
//! all matches, or the one match that must be unique.
use vstd::prelude::*;


use crate::pattern::{
    boyer_moore_search_all, boyer_moore_search_first, matches_at, reports_matches,
    PATTERN_WILDCARD,
};

verus! {

/// First address of the range that a scan covers.
pub const SCAN_START: u64 = 0x140000000;

/// End (exclusive) of the addresses at which a scan window may start.
pub const SCAN_END: u64 = 0x143000000;

/// Distance between the starts of two consecutive windows.
pub const SCAN_STEP: u64 = 0x1000000;

/// Bytes read per window; windows overlap so that a match across a window
/// boundary is still seen.
pub const WINDOW_SIZE: usize = 0x1000100;

/// Why a scan or a pattern text gave no address.
#[derive(Debug)]
pub enum PatternScanError {
    /// No window holds the pattern.
    NotFound,
    /// The pattern was found more than once where one match was required.
    MultipleMatchesFound,
    /// The pattern text is malformed; the message says how.
    Format(String),
}

/// A copy of a stretch of the target's memory: its first address and its bytes.
pub struct MemoryWindow {
    pub base: u64,
    pub bytes: Vec<u8>,
}

/// Every window's addresses fit in 64 bits.
pub open spec fn windows_fit(ws: Seq<MemoryWindow>) -> bool {
    forall|w: int| 0 <= w < ws.len() ==> #[trigger] ws[w].base + ws[w].bytes@.len() <= u64::MAX
}

/// The pattern matches window `w` at offset `i`.
pub open spec fn is_hit(ws: Seq<MemoryWindow>, pattern: Seq<u8>, w: int, i: int) -> bool {
    0 <= w < ws.len() && matches_at(ws[w].bytes@, pattern, PATTERN_WILDCARD, i)
}

/// Scan order: by window, then by offset.
pub open spec fn hit_before(a: (int, int), b: (int, int)) -> bool {
    a.0 < b.0 || (a.0 == b.0 && a.1 < b.1)
}

/// `v` holds the addresses of `hits`, which are all the hits, in scan order.
pub open spec fn lists_hits(
    ws: Seq<MemoryWindow>,
    pattern: Seq<u8>,
    v: Seq<u64>,
    hits: Seq<(int, int)>,
) -> bool {
    &&& v.len() == hits.len()
    &&& forall|k: int| 0 <= k < hits.len() ==> is_hit(ws, pattern, #[trigger] hits[k].0, hits[k].1)
    &&& forall|k: int| 0 <= k < hits.len() ==> #[trigger] v[k] == ws[hits[k].0].base + hits[k].1
    &&& forall|a: int, b: int| 0 <= a < b < hits.len() ==> hit_before(hits[a], hits[b])
    &&& forall|w: int, i: int| #[trigger] is_hit(ws, pattern, w, i) ==> hits.contains((w, i))
}

/// `v` is what a scan for all matches reports over `ws`.
pub open spec fn scan_report(ws: Seq<MemoryWindow>, pattern: Seq<u8>, v: Seq<u64>) -> bool {
    exists|hits: Seq<(int, int)>| lists_hits(ws, pattern, v, hits)
}

/// Every address in `v` is `v[0]`: windows that overlap may report one
/// match twice, at the same address.
pub open spec fn all_same(v: Seq<u64>) -> bool {
    forall|k: int| 0 <= k < v.len() ==> #[trigger] v[k] == v[0]
}

/// `addr` moved by a signed `offset`, wrapping as 64-bit address arithmetic does.
pub open spec fn offset_address(addr: u64, offset: i64) -> u64 {
    ((addr as int + offset as int) % 0x1_0000_0000_0000_0000int) as u64
}

/// Search over a byte slice, and scans over copied memory windows.
pub struct PatternScan;

impl PatternScan {
    /// Every offset at which `pattern` is found in `text`.
    pub fn search(text: &[u8], pattern: &[u8], wildcard: u8) -> (r: Vec<usize>)
        ensures
            reports_matches(text@, pattern@, wildcard, r@),
    {
        boyer_moore_search_all(text, pattern, wildcard)
    }

    fn collect_hits(windows: &[MemoryWindow], pattern: &[u8]) -> (r: (Vec<u64>, Ghost<Seq<(int, int)>>))
        requires
            windows_fit(windows@),
        ensures
            lists_hits(windows@, pattern@, r.0@, r.1@),
    {
        let mut out: Vec<u64> = Vec::new();
        let ghost mut hits: Seq<(int, int)> = Seq::empty();
        let mut w: usize = 0;
        while w < windows.len()
            invariant
                w <= windows.len(),
                windows_fit(windows@),
                out@.len() == hits.len(),
                forall|k: int| 0 <= k < hits.len() ==> is_hit(windows@, pattern@, #[trigger] hits[k].0, hits[k].1),
                forall|k: int| 0 <= k < hits.len() ==> #[trigger] hits[k].0 < w,
                forall|k: int| 0 <= k < hits.len() ==>
                    #[trigger] out@[k] == windows@[hits[k].0].base + hits[k].1,
                forall|a: int, b: int| 0 <= a < b < hits.len() ==> hit_before(hits[a], hits[b]),
                forall|v: int, i: int|
                    v < w && #[trigger] is_hit(windows@, pattern@, v, i) ==> hits.contains((v, i)),
            decreases windows.len() - w,
        {
            let window = &windows[w];
            let found = boyer_moore_search_all(window.bytes.as_slice(), pattern, PATTERN_WILDCARD);
            let ghost start = hits;
            let mut k: usize = 0;
            while k < found.len()
                invariant
                    w < windows.len(),
                    window == &windows@[w as int],
                    windows_fit(windows@),
                    k <= found.len(),
                    reports_matches(window.bytes@, pattern@, PATTERN_WILDCARD, found@),
                    hits.len() == start.len() + k,
                    out@.len() == hits.len(),
                    hits.subrange(0, start.len() as int) == start,
                    forall|x: int| 0 <= x < k ==> #[trigger] hits[start.len() + x] == (w as int, found@[x] as int),
                    forall|x: int| 0 <= x < start.len() ==> #[trigger] start[x].0 < w,
                    forall|x: int| 0 <= x < hits.len() ==> is_hit(windows@, pattern@, #[trigger] hits[x].0, hits[x].1),
                    forall|x: int| 0 <= x < hits.len() ==> #[trigger] hits[x].0 <= w,
                    forall|x: int| 0 <= x < hits.len() ==>
                        #[trigger] out@[x] == windows@[hits[x].0].base + hits[x].1,
                    forall|a: int, b: int| 0 <= a < b < hits.len() ==> hit_before(hits[a], hits[b]),
                decreases found.len() - k,
            {
                let off = found[k];
                assert(matches_at(window.bytes@, pattern@, PATTERN_WILDCARD, found@[k as int] as int));
                let ghost old_hits = hits;
                proof {
                    hits = hits.push((w as int, off as int));
                    assert forall|a: int, b: int| 0 <= a < b < hits.len() implies hit_before(hits[a], hits[b]) by {
                        if b == hits.len() - 1 && a >= start.len() {
                            let x = a - start.len();
                            assert(old_hits[start.len() + x] == (w as int, found@[x] as int));
                            assert(found@[x] < found@[k as int]);
                        } else if b == hits.len() - 1 {
                            assert(hits[a] == start[a]);
                        } else {
                            assert(hits[a] == old_hits[a] && hits[b] == old_hits[b]);
                        }
                    }
                    assert(hits.subrange(0, start.len() as int) =~= start) by {
                        assert(old_hits.subrange(0, start.len() as int) == start);
                    }
                    assert forall|x: int| 0 <= x < hits.len() - 1 implies hits[x] == old_hits[x] by {}
                }
                out.push(window.base + off as u64);
                k += 1;
            }
            proof {
                assert forall|x: int| 0 <= x < hits.len() implies #[trigger] hits[x].0 < w + 1 by {
                    if x < start.len() {
                        assert(hits[x] == hits.subrange(0, start.len() as int)[x]);
                    }
                }
                {
                    assert forall|v: int, i: int| v < w + 1 && #[trigger] is_hit(windows@, pattern@, v, i)
                        implies hits.contains((v, i)) by {
                        if v < w {
                            let x = choose|x: int| 0 <= x < start.len() && start[x] == (v, i);
                            assert(hits[x] == hits.subrange(0, start.len() as int)[x]);
                            assert(hits[x] == (v, i));
                        } else {
                            assert(v == w);
                            assert(matches_at(window.bytes@, pattern@, PATTERN_WILDCARD, i));
                            let y = choose|y: int| 0 <= y < found@.len() && found@[y] as int == i;
                            assert(hits[start.len() + y] == (w as int, found@[y] as int));
                            assert(hits[start.len() + y] == (v, i));
                        }
                    }
                }
            }
            w += 1;
        }
        (out, Ghost(hits))
    }

    /// The address of the first match over `windows`, scanned in order.
    pub fn scan_first_in(windows: &[MemoryWindow], pattern: &[u8]) -> (r: Result<u64, PatternScanError>)
        requires
            windows_fit(windows@),
        ensures
            r matches Ok(a) ==> exists|w: int, i: int|
                #[trigger] is_hit(windows@, pattern@, w, i) && a == windows@[w].base + i
                    && (forall|v: int, j: int|
                        #[trigger] is_hit(windows@, pattern@, v, j) ==> !hit_before((v, j), (w, i))),
            r is Err ==> (r matches Err(PatternScanError::NotFound)),
            r is Err ==> forall|w: int, i: int| !#[trigger] is_hit(windows@, pattern@, w, i),
    {
        let mut w: usize = 0;
        while w < windows.len()
            invariant
                w <= windows.len(),
                windows_fit(windows@),
                forall|v: int, j: int| v < w ==> !#[trigger] is_hit(windows@, pattern@, v, j),
            decreases windows.len() - w,
        {
            let window = &windows[w];
            match boyer_moore_search_first(window.bytes.as_slice(), pattern, PATTERN_WILDCARD) {
                Some(i) => {
                    assert(is_hit(windows@, pattern@, w as int, i as int));
                    return Ok(window.base + i as u64);
                },
                None => {},
            }
            w += 1;
        }
        Err(PatternScanError::NotFound)
    }

    /// The addresses of all matches over `windows`, in scan order.
    pub fn scan_all_in(windows: &[MemoryWindow], pattern: &[u8]) -> (r: Result<Vec<u64>, PatternScanError>)
        requires
            windows_fit(windows@),
        ensures
            match r {
                Ok(v) => v@.len() > 0 && scan_report(windows@, pattern@, v@),
                Err(e) => e is NotFound && scan_report(windows@, pattern@, Seq::empty()),
            },
    {
        let (v, Ghost(hits)) = Self::collect_hits(windows, pattern);
        if v.len() == 0 {
            assert(v@ =~= Seq::<u64>::empty());
            Err(PatternScanError::NotFound)
        } else {
            Ok(v)
        }
    }

    /// The address of the one match over `windows`: the hits, counted by
    /// address, must be exactly one. A hit that two overlapping windows both
    /// hold counts once; no hit and two distinct addresses are errors.
    pub fn safe_scan_in(windows: &[MemoryWindow], pattern: &[u8]) -> (r: Result<u64, PatternScanError>)
        requires
            windows_fit(windows@),
        ensures
            exists|v: Seq<u64>| #[trigger] scan_report(windows@, pattern@, v) && match r {
                Ok(a) => v.len() > 0 && v[0] == a && all_same(v),
                Err(PatternScanError::NotFound) => v.len() == 0,
                Err(PatternScanError::MultipleMatchesFound) => v.len() > 0 && !all_same(v),
                Err(PatternScanError::Format(_)) => false,
            },
    {
        let (v, Ghost(hits)) = Self::collect_hits(windows, pattern);
        assert(scan_report(windows@, pattern@, v@));
        if v.len() == 0 {
            return Err(PatternScanError::NotFound);
        }
        let first = v[0];
        let mut k: usize = 1;
        while k < v.len()
            invariant
                1 <= k <= v.len(),
                first == v@[0],
                scan_report(windows@, pattern@, v@),
                forall|j: int| 0 <= j < k ==> v@[j] == first,
            decreases v.len() - k,
        {
            if v[k] != first {
                assert(!all_same(v@)) by {
                    assert(v@[k as int] != v@[0]);
                }
                return Err(PatternScanError::MultipleMatchesFound);
            }
            k += 1;
        }
        Ok(first)
    }
}

} // verus!
