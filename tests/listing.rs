use wholesum::algorithm::algorithm_from_name;
use wholesum::hashfile::{HashEntry, HashFile, ParseError};
use wholesum::pipeline::resolve_algorithm;
use wholesum::{Algorithm, Mode};

const HEX64: &str = "ba7816bf8f01cfea414140de5dae2223b00361a396177a9cb410ff61f20015ad";

fn lines(text: &[&str]) -> Vec<String> {
    text.iter().map(|l| l.to_string()).collect()
}

#[test]
fn three_field_line_with_binary_marker() {
    let line = format!("sha2-256 {} *somefile", HEX64);
    let e = HashEntry::parse_line(&line).unwrap();
    assert_eq!(e.algorithm, Some(Algorithm::Sha2_256));
    assert_eq!(e.mode, Mode::Binary);
    assert_eq!(e.file, "somefile");
    assert_eq!(e.hash, HEX64);
}

#[test]
fn two_field_line_is_text_mode_without_algorithm() {
    let line = format!("{} file.txt", HEX64);
    let e = HashEntry::parse_line(&line).unwrap();
    assert_eq!(e.algorithm, None);
    assert_eq!(e.mode, Mode::Text);
    assert_eq!(e.file, "file.txt");
    assert_eq!(e.hash, HEX64);
}

#[test]
fn surrounding_and_repeated_whitespace_is_ignored() {
    let e = HashEntry::parse_line("  md5 \t abc   \t*x.bin  \r").unwrap();
    assert_eq!(e.algorithm, Some(Algorithm::Md5));
    assert_eq!(e.hash, "abc");
    assert_eq!(e.mode, Mode::Binary);
    assert_eq!(e.file, "x.bin");
}

#[test]
fn tokens_after_the_path_are_not_read() {
    let e = HashEntry::parse_line("sha1 abc path extra more").unwrap();
    assert_eq!(e.algorithm, Some(Algorithm::Sha1));
    assert_eq!(e.file, "path");
}

#[test]
fn only_one_star_is_stripped() {
    let e = HashEntry::parse_line("abc **p").unwrap();
    assert_eq!(e.mode, Mode::Binary);
    assert_eq!(e.file, "*p");
}

#[test]
fn single_token_line_is_a_format_error() {
    assert_eq!(HashEntry::parse_line(HEX64).unwrap_err(), ParseError::Format);
}

#[test]
fn empty_line_is_a_format_error() {
    assert_eq!(HashEntry::parse_line("").unwrap_err(), ParseError::Format);
    assert_eq!(HashEntry::parse_line("   ").unwrap_err(), ParseError::Format);
}

#[test]
fn bare_star_path_is_a_format_error() {
    assert_eq!(HashEntry::parse_line("abc *").unwrap_err(), ParseError::Format);
}

#[test]
fn unknown_algorithm_is_rejected() {
    let line = format!("sha256 {} file", HEX64);
    assert_eq!(HashEntry::parse_line(&line).unwrap_err(), ParseError::UnknownAlgorithm);
    let upper = format!("SHA2-256 {} file", HEX64);
    assert_eq!(HashEntry::parse_line(&upper).unwrap_err(), ParseError::UnknownAlgorithm);
}

#[test]
fn listing_keeps_entries_in_order() {
    let f = HashFile::parse(&lines(&["abc a.txt", "md5 def *b.bin"])).unwrap();
    assert!(f.algorithm.is_none());
    assert_eq!(f.entries.len(), 2);
    assert_eq!(f.entries[0].file, "a.txt");
    assert_eq!(f.entries[1].file, "b.bin");
    assert_eq!(f.entries[1].algorithm, Some(Algorithm::Md5));
}

#[test]
fn empty_listing_has_no_entries() {
    let f = HashFile::parse(&Vec::new()).unwrap();
    assert!(f.entries.is_empty());
}

#[test]
fn malformed_line_fails_whole_listing() {
    let l = lines(&["abc a.txt", "def b.txt", "ghi c.txt", "lonely", "jkl d.txt"]);
    assert_eq!(HashFile::parse(&l).unwrap_err(), ParseError::Format);
}

#[test]
fn first_bad_line_decides_the_error() {
    let l = lines(&["abc a.txt", "nope abc a.txt", "lonely"]);
    assert_eq!(HashFile::parse(&l).unwrap_err(), ParseError::UnknownAlgorithm);
}

#[test]
fn fallback_resolves_to_blake3() {
    let e = HashEntry::parse_line("abc file.txt").unwrap();
    let f = HashFile { algorithm: None, entries: vec![e] };
    assert_eq!(resolve_algorithm(f.entries[0].algorithm, f.algorithm), Algorithm::Blake3);
}

#[test]
fn fallback_chain_prefers_entry_then_listing() {
    assert_eq!(resolve_algorithm(None, Some(Algorithm::Md5)), Algorithm::Md5);
    assert_eq!(resolve_algorithm(Some(Algorithm::Sha1), Some(Algorithm::Md5)), Algorithm::Sha1);
    assert_eq!(resolve_algorithm(Some(Algorithm::Sha1), None), Algorithm::Sha1);
}

#[test]
fn names_resolve_back_to_their_algorithm() {
    let cases = [
        ("blake3", Algorithm::Blake3),
        ("blake2s", Algorithm::Blake2s),
        ("sha3-512", Algorithm::Sha3_512),
        ("sha2-224", Algorithm::Sha2_224),
        ("fsb-160", Algorithm::Fsb160),
        ("groestl-384", Algorithm::Groestl384),
        ("ripemd320", Algorithm::Ripemd320),
        ("shabal-192", Algorithm::Shabal192),
        ("streebog-256", Algorithm::Streebog256),
        ("ascon-a", Algorithm::AsconA),
        ("belt", Algorithm::BelT),
        ("jh-224", Algorithm::Jh224),
        ("skein-1024", Algorithm::Skein1024),
        ("gost94", Algorithm::Gost94),
    ];
    for (name, alg) in cases {
        assert_eq!(alg.name(), name);
        assert_eq!(algorithm_from_name(name), Some(alg));
    }
    assert_eq!(algorithm_from_name("fsb512"), None);
    assert_eq!(algorithm_from_name(""), None);
}

#[test]
fn default_algorithm_and_mode() {
    assert_eq!(Algorithm::default(), Algorithm::Blake3);
    assert_eq!(Mode::default(), Mode::Text);
    assert_eq!(Mode::Text.marker(), " ");
    assert_eq!(Mode::Binary.marker(), "*");
}

#[test]
fn whitespace_matches_std_for_every_char() {
    for c in (0u32..=0x10ffff).filter_map(char::from_u32) {
        let s = format!("a{}b", c);
        let n = wholesum::text::split_tokens(&s).len();
        assert_eq!(n == 2, c.is_whitespace(), "U+{:04X}", c as u32);
    }
}

#[test]
fn from_str_follows_the_line_rules() {
    let e: HashEntry = format!("sha2-256 {} *somefile", HEX64).parse().unwrap();
    assert_eq!(e.algorithm, Some(Algorithm::Sha2_256));
    assert_eq!(e.mode, Mode::Binary);
    assert_eq!(e.file, "somefile");
    assert_eq!(e.hash, HEX64);
    assert_eq!(HEX64.parse::<HashEntry>().unwrap_err(), ParseError::Format);
    assert_eq!("Blake3 ab f".parse::<HashEntry>().unwrap_err(), ParseError::UnknownAlgorithm);
    assert_eq!("SHA2-256".parse::<Algorithm>(), Err(ParseError::UnknownAlgorithm));
    assert_eq!("fsb-512".parse::<Algorithm>(), Ok(Algorithm::Fsb512));
}

#[test]
fn star_changes_only_the_mode() {
    let a = HashEntry::parse_line("md5 abc path").unwrap();
    let b = HashEntry::parse_line("md5 abc *path").unwrap();
    assert_eq!((a.algorithm, &a.hash, &a.file), (b.algorithm, &b.hash, &b.file));
    assert_eq!((a.mode, b.mode), (Mode::Text, Mode::Binary));
}
