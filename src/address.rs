//! Resolving signatures to addresses, and the cache that keeps each
//! resolved address for the life of the process.
use std::collections::HashMap;
use vstd::prelude::*;

use crate::hex::{parse_pattern, space_hex_to_bytes};
use crate::scan::{all_same, offset_address, scan_report, windows_fit, MemoryWindow, PatternScan, PatternScanError};

verus! {

/// What locates one address in the target: a stable identity, a readable
/// name, the pattern text, and the signed distance from the match to the
/// address. Two records never share an identity, even when their pattern
/// texts are equal.
pub struct AddressRecord {
    pub identity: u64,
    pub name: &'static str,
    pub pattern: &'static str,
    pub offset: i64,
}

/// What a resolution gives when the scan reports the matches `v`: the one
/// match address moved by `offset`, or the error for none or several
/// distinct addresses.
pub open spec fn resolution(v: Seq<u64>, offset: i64) -> Result<u64, PatternScanError> {
    if v.len() == 0 {
        Err(PatternScanError::NotFound)
    } else if all_same(v) {
        Ok(offset_address(v[0], offset))
    } else {
        Err(PatternScanError::MultipleMatchesFound)
    }
}

fn apply_offset(addr: u64, offset: i64) -> (r: u64)
    ensures
        r == offset_address(addr, offset),
{
    if offset >= 0 {
        let o = offset as u64;
        if addr <= u64::MAX - o {
            addr + o
        } else {
            addr - (u64::MAX - o) - 1
        }
    } else {
        let o = (-(offset + 1)) as u64 + 1;
        if addr >= o {
            addr - o
        } else {
            u64::MAX - (o - addr) + 1
        }
    }
}

/// The unique match of `pattern` over `windows`, moved by `offset`.
pub fn resolve_pattern(windows: &[MemoryWindow], pattern: &[u8], offset: i64) -> (r: Result<u64, PatternScanError>)
    requires
        windows_fit(windows@),
    ensures
        exists|v: Seq<u64>| #[trigger] scan_report(windows@, pattern@, v) && r == resolution(v, offset),
{
    match PatternScan::safe_scan_in(windows, pattern) {
        Ok(a) => Ok(apply_offset(a, offset)),
        Err(e) => Err(e),
    }
}

/// What resolving `record` over `ws` gives: a format error for a malformed
/// pattern text, else the resolution of the scan's report.
pub open spec fn record_outcome(record: AddressRecord, ws: Seq<MemoryWindow>, r: Result<u64, PatternScanError>) -> bool {
    match parse_pattern(record.pattern@) {
        Err(_) => r matches Err(PatternScanError::Format(_)),
        Ok(p) => exists|v: Seq<u64>| #[trigger] scan_report(ws, p, v) && r == resolution(v, record.offset),
    }
}

/// A match found at one address alone resolves to that address moved by
/// the record's offset (wrapping as addresses do).
pub proof fn unique_match_moves_by_offset(addr: u64, offset: i64)
    ensures
        resolution(seq![addr], offset) == Ok::<u64, PatternScanError>(offset_address(addr, offset)),
        0 <= addr as int + offset as int <= u64::MAX ==> offset_address(addr, offset) == addr as int + offset as int,
{
    assert(all_same(seq![addr]));
}

impl AddressRecord {
    /// The record's address over `windows`: its pattern text must parse, and
    /// must match at exactly one address.
    pub fn resolve(&self, windows: &[MemoryWindow]) -> (r: Result<u64, PatternScanError>)
        requires
            windows_fit(windows@),
        ensures
            record_outcome(*self, windows@, r),
    {
        let pattern = space_hex_to_bytes(self.pattern)?;
        resolve_pattern(windows, pattern.as_slice(), self.offset)
    }
}

/// The outcome of a cache lookup for `identity`: on a hit the cached
/// address and the cache unchanged; on a miss `resolved`, kept in the cache
/// when it is an address.
pub open spec fn lookup(
    cache: Map<u64, u64>,
    identity: u64,
    resolved: Result<u64, PatternScanError>,
) -> (Result<u64, PatternScanError>, Map<u64, u64>) {
    if cache.contains_key(identity) {
        (Ok(cache[identity]), cache)
    } else {
        match resolved {
            Ok(a) => (Ok(a), cache.insert(identity, a)),
            Err(e) => (Err(e), cache),
        }
    }
}

/// Addresses resolved so far, by record identity. An address is resolved
/// once and then served from here; a failed resolution is not kept.
pub struct AddressRepository {
    cache: HashMap<u64, u64>,
}

impl View for AddressRepository {
    type V = Map<u64, u64>;

    closed spec fn view(&self) -> Map<u64, u64> {
        self.cache@
    }
}

impl AddressRepository {
    pub fn new() -> (r: Self)
        ensures
            r@ == Map::<u64, u64>::empty(),
    {
        AddressRepository { cache: HashMap::new() }
    }

    /// The cached address of `identity`, if any.
    pub fn cached(&self, identity: u64) -> (r: Option<u64>)
        ensures
            r == (if self@.contains_key(identity) { Some(self@[identity]) } else { None::<u64> }),
    {
        match self.cache.get(&identity) {
            Some(a) => Some(*a),
            None => None,
        }
    }

    /// The address of `identity`: from the cache, or else from `resolve`,
    /// whose address is then cached. `resolve` runs only on a miss.
    pub fn get_address<F: Fn() -> Result<u64, PatternScanError>>(
        &mut self,
        identity: u64,
        resolve: F,
    ) -> (r: Result<u64, PatternScanError>)
        requires
            resolve.requires(()),
        ensures
            !old(self)@.contains_key(identity) ==> resolve.ensures((), r),
            (r, final(self)@) == lookup(old(self)@, identity, r),
    {
        match self.cache.get(&identity) {
            Some(a) => {
                return Ok(*a);
            },
            None => {},
        }
        let r = resolve();
        match r {
            Ok(a) => {
                self.cache.insert(identity, a);
                Ok(a)
            },
            Err(e) => Err(e),
        }
    }

    /// The address of `record` over the windows that `read` gives; `read`
    /// runs only when the address is not cached yet.
    pub fn get_record_address<F: Fn() -> Vec<MemoryWindow>>(
        &mut self,
        record: &AddressRecord,
        read: F,
    ) -> (r: Result<u64, PatternScanError>)
        requires
            read.requires(()),
            forall|ws: Vec<MemoryWindow>| read.ensures((), ws) ==> windows_fit(ws@),
        ensures
            (r, final(self)@) == lookup(old(self)@, record.identity, r),
            !old(self)@.contains_key(record.identity) ==> exists|ws: Vec<MemoryWindow>|
                read.ensures((), ws) && #[trigger] record_outcome(*record, ws@, r),
    {
        match self.cache.get(&record.identity) {
            Some(a) => {
                return Ok(*a);
            },
            None => {},
        }
        let windows = read();
        let r = record.resolve(windows.as_slice());
        assert(record_outcome(*record, windows@, r));
        match r {
            Ok(a) => {
                self.cache.insert(record.identity, a);
                Ok(a)
            },
            Err(e) => Err(e),
        }
    }
}

/// Once a lookup has given an address, the next lookup of the same identity
/// gives the same address and leaves the cache as it is, whatever the
/// resolver would have given.
pub proof fn second_lookup_hits_cache(
    cache: Map<u64, u64>,
    identity: u64,
    first: Result<u64, PatternScanError>,
    second: Result<u64, PatternScanError>,
)
    requires
        lookup(cache, identity, first).0 is Ok,
    ensures
        lookup(lookup(cache, identity, first).1, identity, second) == lookup(cache, identity, first),
{
}

} // verus!
