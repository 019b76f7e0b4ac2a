use mhw_toolkit::hex::{bytes_to_space_hex, space_hex_to_bytes};
use mhw_toolkit::pattern::{boyer_moore_search_all, boyer_moore_search_first, PATTERN_WILDCARD};
use mhw_toolkit::scan::{PatternScan, PatternScanError};

fn hex(s: &str) -> Vec<u8> {
    space_hex_to_bytes(s).unwrap()
}

#[test]
fn test_space_hex_to_bytes() {
    assert!(hex("03 4C 8B F2 48") == [0x03, 0x4C, 0x8B, 0xF2, 0x48]);
    assert!(hex("03 4C 8B F2 48 ** 48") == [0x03, 0x4C, 0x8B, 0xF2, 0x48, 0xFF, 0x48]);
}

#[test]
fn test_bm() {
    let text = hex("03 4C 8B F2 48 8D 4A 70 45 33 C0 48 8D 15 5F 90 D7 03 E8 CA EC 06 01 49 8B CE E8 62 09 7C 00 89 84 24 C0 00 00 00 48 8B 7B 08 45 0F 57 D2 41 B9 01 00 00 00 4C 8B 87 B0 76 00 00 4D 85 C0 0F 84 CE 00 00 00 41 F6 40 0C 0E 0F 84 C3 00 00 00 41 8B 80 14 1D 00 00 0F 57 F6 49 63 90 5C 22 00 00 F3 48 0F 2A F0 85 D2 7E 5A 49 8B 88 70 1D 00 00 32 C0 48 85 C9 74 09 80 79 1C 08 0F 93 C0 EB 17 49 8B 88 78 1D 00 00 48 85 C9 74 0B 80 79 20 08 0F B6 C0 41 0F 43 C1 84 C0 48 8B 05 29 80 E5 03 74 0E 0F B6 8C 02 77 30 00 00 66 0F 6E C1 EB 0C 0F B6 94 02 53 30 00 00 66 0F 6E C2 0F 5B C0 F3 0F 58 F0 49 8B C8 E8 66 E4 F5 00 8B C0 0F 57 C0 F3 48 0F 2A C0 48 8B 43 08 48 8B 90 B0 76 00 00 F3 0F 58 F0 48 85 D2 74 06 F6 42 0C 0E 75 03 49 8B D7 B9 01 00 00 00 E8 D5 BF FA 00 48 8B 7B 08");
    let pattern = hex("F3 48 0F 2A F0 85 ** 7E ** 49 8B ** ** ** 00 00 ** C0 48 85 ** 74");
    let wildcard = 0xFF;

    let matches = boyer_moore_search_all(&text, &pattern, wildcard);
    assert!(matches.len() == 1);
    for &match_pos in &matches {
        println!("Pattern found at position: {}", match_pos);
    }
}

#[test]
fn test_bm2() {
    let text = hex("45 33 C0 48 8D 81 08 10 00 00 48 8D 15 B7 FF AA 00 66 44 89 01 48 3B D0 74 0A 44 89 81 04 10 00 00 44 88 00");
    let pattern = hex("81 08 10 00 00 48");
    let wildcard = 0xFF;

    let matches = boyer_moore_search_all(&text, &pattern, wildcard);
    assert!(matches.len() == 1);
    for &match_pos in &matches {
        println!("Pattern found at position: {}", match_pos);
    }
}

#[test]
fn search_matches_brute_force_without_wildcards() {
    let text: Vec<u8> = vec![1, 2, 1, 2, 1, 3, 1, 2, 1, 2, 1, 2, 5, 1, 2];
    for pattern in [vec![1u8, 2], vec![1, 2, 1], vec![2, 1, 3], vec![5], vec![9, 9], vec![1, 2, 1, 2, 1]] {
        let expected: Vec<usize> = (0..=text.len() - pattern.len())
            .filter(|&i| text[i..i + pattern.len()] == pattern[..])
            .collect();
        assert_eq!(PatternScan::search(&text, &pattern, PATTERN_WILDCARD), expected);
    }
}

#[test]
fn wildcard_matches_agree_on_concrete_bytes() {
    let text: Vec<u8> = vec![0x10, 0xAA, 0x01, 0xCC, 0xAA, 0x02, 0xCC, 0xAA, 0xCC, 0xCC];
    let pattern = vec![0xAA, 0xFF, 0xCC];
    let found = PatternScan::search(&text, &pattern, PATTERN_WILDCARD);
    assert!(!found.is_empty());
    for &i in &found {
        for (k, &p) in pattern.iter().enumerate() {
            if p != 0xFF {
                assert_eq!(text[i + k], p);
            }
        }
    }
}

#[test]
fn overlapping_matches_are_all_reported() {
    assert_eq!(boyer_moore_search_all(&[0xAA, 0xAA, 0xAA], &[0xAA, 0xAA], 0xFF), vec![0, 1]);
}

#[test]
fn text_pattern_with_wildcard_parses_and_matches() {
    let pattern = hex("AA ?? CC");
    assert_eq!(pattern, vec![0xAA, PATTERN_WILDCARD, 0xCC]);
    let text = [0xAA, 0xBB, 0xCC, 0x22];
    assert_eq!(boyer_moore_search_all(&text, &pattern, PATTERN_WILDCARD), vec![0]);
    let text = [0x11, 0x22, 0xAA, 0x00, 0xCC];
    assert_eq!(boyer_moore_search_all(&text, &pattern, PATTERN_WILDCARD), vec![2]);
}

#[test]
fn text_pattern_with_wildcard_finds_one_match() {
    let pattern = hex("AA ?? CC");
    assert_eq!(pattern, vec![0xAA, PATTERN_WILDCARD, 0xCC]);
    let text = [0x11, 0xAA, 0xBB, 0xCC, 0x22];
    assert_eq!(boyer_moore_search_all(&text, &pattern, PATTERN_WILDCARD), vec![1]);
    assert_eq!(boyer_moore_search_first(&text, &pattern, PATTERN_WILDCARD), Some(1));
}

#[test]
fn wildcard_search_matches_brute_force() {
    let text: Vec<u8> = vec![1, 9, 3, 1, 2, 3, 1, 7, 3, 4, 1, 1, 3, 3];
    for pattern in [vec![1u8, 0xFF, 3], vec![0xFF, 3], vec![3, 0xFF], vec![1, 0xFF, 0xFF, 1], vec![0xFF, 0xFF, 0xFF]] {
        let expected: Vec<usize> = (0..=text.len() - pattern.len())
            .filter(|&i| pattern.iter().enumerate().all(|(k, &p)| p == 0xFF || text[i + k] == p))
            .collect();
        assert_eq!(PatternScan::search(&text, &pattern, PATTERN_WILDCARD), expected);
    }
}

#[test]
fn pattern_text_splits_at_unicode_whitespace() {
    assert_eq!(hex("AA\u{A0}BB\u{3000}??"), vec![0xAA, 0xBB, 0xFF]);
    assert!(matches!(space_hex_to_bytes("AA\u{200B}BB"), Err(PatternScanError::Format(_))));
}

#[test]
fn search_edge_cases() {
    assert_eq!(boyer_moore_search_all(&[1, 2], &[], 0xFF), vec![0, 1, 2]);
    assert_eq!(boyer_moore_search_all(&[1, 2], &[1, 2, 3], 0xFF), Vec::<usize>::new());
    assert_eq!(boyer_moore_search_all(&[7, 8, 9], &[0xFF, 0xFF], 0xFF), vec![0, 1]);
    assert_eq!(boyer_moore_search_first(&[1, 2], &[1, 2, 3], 0xFF), None);
    assert_eq!(boyer_moore_search_first(&[5, 1, 2, 1, 2], &[1, 2], 0xFF), Some(1));
    assert_eq!(boyer_moore_search_first(&[5, 6], &[1], 0xFF), None);
}

#[test]
fn pattern_text_rejects_malformed_tokens() {
    match space_hex_to_bytes("AA ZZ") {
        Err(PatternScanError::Format(msg)) => assert_eq!(msg, "invalid digit found in string"),
        _ => panic!("expected a format error"),
    }
    match space_hex_to_bytes("AA 1FF") {
        Err(PatternScanError::Format(msg)) => assert_eq!(msg, "number too large to fit in target type"),
        _ => panic!("expected a format error"),
    }
    assert!(matches!(space_hex_to_bytes("+"), Err(PatternScanError::Format(_))));
}

#[test]
fn pattern_text_accepts_all_wildcard_spellings() {
    assert_eq!(hex(" ? ?? **\t0a\n+F 00FF "), vec![0xFF, 0xFF, 0xFF, 0x0A, 0x0F, 0xFF]);
    assert_eq!(hex(""), Vec::<u8>::new());
}

#[test]
fn bytes_print_as_spaced_hex() {
    assert_eq!(bytes_to_space_hex(&[0x03, 0x4C, 0xFF, 0x0A]), "03 4C FF 0A");
    assert_eq!(bytes_to_space_hex(&[]), "");
}
