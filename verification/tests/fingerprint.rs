use furse::api_calls::fingerprint_calls::{strip_skipped, FINGERPRINT_SEED};
use furse::cf_fingerprint;

/// MurmurHash2, 32 bits, bytes read in little-endian order: written out here
/// to hold the library's results against.
fn murmur2_by_hand(data: &[u8], seed: u32) -> u32 {
    const M: u32 = 0x5bd1_e995;
    let mut h = seed ^ (data.len() as u32);
    let mut chunks = data.chunks_exact(4);
    for chunk in &mut chunks {
        let mut k = u32::from_le_bytes([chunk[0], chunk[1], chunk[2], chunk[3]]);
        k = k.wrapping_mul(M);
        k ^= k >> 24;
        k = k.wrapping_mul(M);
        h = h.wrapping_mul(M) ^ k;
    }
    let rest = chunks.remainder();
    if !rest.is_empty() {
        let mut tail = 0u32;
        for (i, byte) in rest.iter().enumerate() {
            tail |= (*byte as u32) << (8 * i);
        }
        h = (h ^ tail).wrapping_mul(M);
    }
    h ^= h >> 13;
    h = h.wrapping_mul(M);
    h ^ (h >> 15)
}

fn without_skipped(bytes: &[u8]) -> Vec<u8> {
    let mut kept = Vec::new();
    for byte in bytes {
        if !matches!(*byte, 9 | 10 | 13 | 32) {
            kept.push(*byte);
        }
    }
    kept
}

#[test]
fn the_seed_is_one() {
    assert_eq!(FINGERPRINT_SEED, 1);
}

#[test]
fn fingerprint_of_nothing_is_the_hash_of_the_empty_buffer() {
    assert_eq!(cf_fingerprint(b""), 1540447798);
    assert_eq!(cf_fingerprint(b""), murmur2::murmur2(b"", 1) as usize);
}

#[test]
fn fingerprint_of_nothing_but_skipped_bytes_is_that_of_nothing() {
    assert_eq!(cf_fingerprint(b" \t\r\n"), 1540447798);
    assert_eq!(cf_fingerprint(b"\n"), cf_fingerprint(b""));
}

#[test]
fn fingerprints_of_known_contents() {
    assert_eq!(cf_fingerprint(b"a"), 626045324);
    assert_eq!(cf_fingerprint(b"b"), 754329161);
    assert_eq!(cf_fingerprint(b"abc"), 1621425345);
    assert_eq!(cf_fingerprint(b"Hello, World!"), 1961219979);
    assert_eq!(cf_fingerprint(b"HelloWorld"), 1756117720);
    assert_eq!(
        cf_fingerprint(b"The quick brown fox jumps over the lazy dog"),
        3751777527
    );
}

#[test]
fn fingerprint_of_every_byte_value() {
    let all: Vec<u8> = (0..=255).collect();
    assert_eq!(cf_fingerprint(&all), 2094645347);
}

#[test]
fn different_contents_have_different_fingerprints() {
    assert_ne!(cf_fingerprint(b"a"), cf_fingerprint(b"b"));
    assert_ne!(cf_fingerprint(b"ab"), cf_fingerprint(b"ba"));
}

#[test]
fn the_same_contents_have_the_same_fingerprint_on_every_call() {
    let contents = b"some file contents\r\nwith two lines".to_vec();
    let first = cf_fingerprint(&contents);
    for _ in 0..10 {
        assert_eq!(cf_fingerprint(&contents), first);
    }
    assert_eq!(cf_fingerprint(&contents.clone()), first);
}

#[test]
fn skipped_bytes_do_not_change_the_fingerprint() {
    assert_eq!(cf_fingerprint(b"abc"), cf_fingerprint(b"a b\nc\r"));
    assert_eq!(cf_fingerprint(b"abc"), cf_fingerprint(b"abc "));
    assert_eq!(cf_fingerprint(b"a b\nc\r"), cf_fingerprint(b"abc "));
    assert_eq!(cf_fingerprint(b"abc"), cf_fingerprint(b"\t\ta\r\n\r\nb    c"));
}

#[test]
fn a_skipped_byte_put_in_at_any_place_changes_nothing() {
    let contents = b"fingerprint".to_vec();
    let expected = cf_fingerprint(&contents);
    for skipped in [9u8, 10, 13, 32] {
        for at in 0..=contents.len() {
            let mut longer = contents.clone();
            longer.insert(at, skipped);
            assert_eq!(cf_fingerprint(&longer), expected);
        }
    }
}

#[test]
fn other_control_bytes_are_hashed() {
    for kept in [0u8, 8, 11, 12, 14, 31, 33, 160] {
        assert_ne!(cf_fingerprint(&[b'a', kept, b'b']), cf_fingerprint(b"ab"));
    }
}

#[test]
fn the_order_of_the_bytes_matters() {
    assert_ne!(cf_fingerprint(b"abcd efgh"), cf_fingerprint(b"efgh abcd"));
}

#[test]
fn fingerprint_fits_in_32_bits() {
    let all: Vec<u8> = (0..=255).collect();
    for contents in [&b""[..], &b"a"[..], &b"abc"[..], &all[..]] {
        assert!(cf_fingerprint(contents) as u64 <= u32::MAX as u64);
    }
}

#[test]
fn fingerprint_is_murmur2_of_the_kept_bytes_under_seed_one() {
    let all: Vec<u8> = (0..=255).collect();
    let samples: [&[u8]; 7] = [
        b"",
        b"a",
        b"ab",
        b"abc",
        b"abcd",
        b"a b\tc\rd\ne f",
        &all,
    ];
    for sample in samples {
        let kept = without_skipped(sample);
        assert_eq!(cf_fingerprint(sample), murmur2_by_hand(&kept, 1) as usize);
        assert_eq!(cf_fingerprint(sample), murmur2::murmur2(&kept, 1) as usize);
    }
}

#[test]
fn bytes_are_dropped_one_by_one_whatever_text_they_spell() {
    // U+2020 is E2 80 A0 in UTF-8; a 0x20 between its bytes is dropped like
    // any other
    assert_eq!(strip_skipped(&[0xE2, 0x20, 0x80, 0xA0]), vec![0xE2, 0x80, 0xA0]);
    assert_eq!(
        cf_fingerprint(&[0xE2, 0x20, 0x80, 0xA0]),
        cf_fingerprint(&[0xE2, 0x80, 0xA0])
    );
}

#[test]
fn strip_skipped_keeps_the_other_bytes_in_order() {
    assert_eq!(strip_skipped(b""), Vec::<u8>::new());
    assert_eq!(strip_skipped(b" \t\r\n"), Vec::<u8>::new());
    assert_eq!(strip_skipped(b"abc"), b"abc".to_vec());
    assert_eq!(strip_skipped(b"a b\tc\rd\ne"), b"abcde".to_vec());
    assert_eq!(strip_skipped(b"  a  "), b"a".to_vec());
    let all: Vec<u8> = (0..=255).collect();
    let kept = strip_skipped(&all);
    assert_eq!(kept.len(), 252);
    assert_eq!(kept, without_skipped(&all));
    assert_eq!(&kept[..12], &[0, 1, 2, 3, 4, 5, 6, 7, 8, 11, 12, 14]);
}
