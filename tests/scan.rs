use std::cell::Cell;

use mhw_toolkit::address::{resolve_pattern, AddressRecord, AddressRepository};
use mhw_toolkit::records::monster;
use mhw_toolkit::scan::{MemoryWindow, PatternScan, PatternScanError};

fn window(base: u64, bytes: Vec<u8>) -> MemoryWindow {
    MemoryWindow { base, bytes }
}

#[test]
fn scan_first_returns_the_earliest_match() {
    let mut bytes = vec![0u8; 16];
    bytes[3] = 0xAB;
    bytes[4] = 0xCD;
    bytes[9] = 0xAB;
    bytes[10] = 0xCD;
    let ws = vec![window(0x1000, bytes)];
    assert_eq!(PatternScan::scan_first_in(&ws, &[0xAB, 0xCD]).ok(), Some(0x1003));
    let all = PatternScan::scan_all_in(&ws, &[0xAB, 0xCD]).ok().unwrap();
    assert_eq!(all, vec![0x1003, 0x1009]);
}

#[test]
fn scans_go_window_by_window() {
    let ws = vec![window(0x2000, vec![0, 7, 7]), window(0x1000, vec![7, 7, 0])];
    assert_eq!(PatternScan::scan_first_in(&ws, &[7, 7]).ok(), Some(0x2001));
    assert_eq!(PatternScan::scan_all_in(&ws, &[7, 7]).ok().unwrap(), vec![0x2001, 0x1000]);
    assert!(matches!(PatternScan::scan_first_in(&ws, &[9]), Err(PatternScanError::NotFound)));
    assert!(matches!(PatternScan::scan_all_in(&ws, &[9]), Err(PatternScanError::NotFound)));
}

#[test]
fn safe_scan_demands_exactly_one_match() {
    let one = vec![window(0x5000, vec![1, 2, 3, 4])];
    assert_eq!(PatternScan::safe_scan_in(&one, &[2, 3]).ok(), Some(0x5001));
    let none = vec![window(0x5000, vec![1, 2, 3, 4])];
    assert!(matches!(PatternScan::safe_scan_in(&none, &[3, 2]), Err(PatternScanError::NotFound)));
    let two = vec![window(0x5000, vec![2, 3, 2, 3])];
    assert!(matches!(
        PatternScan::safe_scan_in(&two, &[2, 3]),
        Err(PatternScanError::MultipleMatchesFound)
    ));
}

#[test]
fn negative_offset_moves_the_address_back() {
    let mut bytes = vec![0u8; 8];
    bytes[0] = 0xAA;
    bytes[1] = 0xBB;
    let ws = vec![window(0x1000, bytes)];
    assert_eq!(resolve_pattern(&ws, &[0xAA, 0xBB], -1).ok(), Some(0x0FFF));
    let record = AddressRecord { identity: 900, name: "test::Probe", pattern: "AA BB", offset: -1 };
    assert_eq!(record.resolve(&ws).ok(), Some(0x0FFF));
    assert_eq!(resolve_pattern(&ws, &[0xAA, 0xBB], 0x10).ok(), Some(0x1010));
}

#[test]
fn offsets_wrap_as_addresses_do() {
    let ws = vec![window(0, vec![0xAA])];
    assert_eq!(resolve_pattern(&ws, &[0xAA], -1).ok(), Some(u64::MAX));
}

#[test]
fn record_with_malformed_text_is_a_format_error() {
    let ws = vec![window(0x1000, vec![0xAA])];
    let record = AddressRecord { identity: 901, name: "test::Bad", pattern: "AA XY", offset: 0 };
    assert!(matches!(record.resolve(&ws), Err(PatternScanError::Format(_))));
}

#[test]
fn record_data_is_kept() {
    let r = monster::Ctor::record();
    assert_eq!(r.pattern, "4C 89 B3 10 76 00 00");
    assert_eq!(r.offset, -60);
    assert_ne!(r.identity, monster::Dtor::record().identity);
}

#[test]
fn cache_resolves_each_identity_once() {
    let mut repo = AddressRepository::new();
    let calls = Cell::new(0u32);
    let resolver = || {
        calls.set(calls.get() + 1);
        Ok(0x1400_1234)
    };
    assert_eq!(repo.get_address(7, &resolver).ok(), Some(0x1400_1234));
    assert_eq!(repo.get_address(7, &resolver).ok(), Some(0x1400_1234));
    assert_eq!(calls.get(), 1);
    assert_eq!(repo.cached(7), Some(0x1400_1234));
    assert_eq!(repo.cached(8), None);
}

#[test]
fn cache_keeps_no_failure() {
    let mut repo = AddressRepository::new();
    let calls = Cell::new(0u32);
    let failing = || {
        calls.set(calls.get() + 1);
        Err(PatternScanError::NotFound)
    };
    assert!(matches!(repo.get_address(3, &failing), Err(PatternScanError::NotFound)));
    assert_eq!(repo.cached(3), None);
    assert_eq!(repo.get_address(3, || Ok(0x99)).ok(), Some(0x99));
    assert_eq!(repo.get_address(3, &failing).ok(), Some(0x99));
    assert_eq!(calls.get(), 1);
}

#[test]
fn record_address_reads_memory_only_on_a_miss() {
    let mut repo = AddressRepository::new();
    let reads = Cell::new(0u32);
    let read = || {
        reads.set(reads.get() + 1);
        vec![MemoryWindow { base: 0x4000, bytes: vec![0x4C, 0x89, 0xB3, 0x10, 0x76, 0x00, 0x00] }]
    };
    let record = AddressRecord { identity: 902, name: "test::Ctor", pattern: "4C 89 B3 10 76 00 00", offset: -60 };
    assert_eq!(repo.get_record_address(&record, &read).ok(), Some(0x4000 - 60));
    assert_eq!(repo.get_record_address(&record, &read).ok(), Some(0x4000 - 60));
    assert_eq!(reads.get(), 1);
}

#[test]
fn a_match_in_a_window_overlap_counts_once() {
    let mut first = vec![0u8; 0x20];
    first[0x18] = 0xAB;
    first[0x19] = 0xCD;
    let mut second = vec![0u8; 0x20];
    second[0x08] = 0xAB;
    second[0x09] = 0xCD;
    let ws = vec![window(0x1000, first), window(0x1010, second), window(0x1020, vec![0u8; 0x20])];
    assert_eq!(PatternScan::scan_all_in(&ws, &[0xAB, 0xCD]).ok().unwrap(), vec![0x1018, 0x1018]);
    assert_eq!(PatternScan::safe_scan_in(&ws, &[0xAB, 0xCD]).ok(), Some(0x1018));
    assert_eq!(resolve_pattern(&ws, &[0xAB, 0xCD], -8).ok(), Some(0x1010));
}

#[test]
fn two_wildcard_matches_are_ambiguous() {
    let ws = vec![window(0x100, vec![0xAA, 0x01, 0xCC, 0xAA, 0x02, 0xCC])];
    assert!(matches!(
        PatternScan::safe_scan_in(&ws, &[0xAA, 0xFF, 0xCC]),
        Err(PatternScanError::MultipleMatchesFound)
    ));
}
