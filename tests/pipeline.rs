use wholesum::algorithm::algorithm_from_name;
use wholesum::hashfile::{HashEntry, HashFile};
use wholesum::pipeline::{collect_digests, hash_report, verify_report, Outcome};
use wholesum::text::{split_tokens, text_le_exec, to_hex};
use wholesum::{Algorithm, Mode};

fn all_algorithms() -> Vec<(Algorithm, usize)> {
    vec![
        (Algorithm::Blake3, 32),
        (Algorithm::Blake2s, 32),
        (Algorithm::Blake2b, 64),
        (Algorithm::Sha3_512, 64),
        (Algorithm::Sha3_384, 48),
        (Algorithm::Sha3_256, 32),
        (Algorithm::Sha3_224, 28),
        (Algorithm::Sha2_512, 64),
        (Algorithm::Sha2_384, 48),
        (Algorithm::Sha2_256, 32),
        (Algorithm::Sha2_224, 28),
        (Algorithm::Sha1, 20),
        (Algorithm::Md5, 16),
        (Algorithm::Fsb512, 64),
        (Algorithm::Fsb384, 48),
        (Algorithm::Fsb256, 32),
        (Algorithm::Fsb224, 28),
        (Algorithm::Fsb160, 20),
        (Algorithm::Gost94, 32),
        (Algorithm::Groestl512, 64),
        (Algorithm::Groestl384, 48),
        (Algorithm::Groestl256, 32),
        (Algorithm::Groestl224, 28),
        (Algorithm::Md4, 16),
        (Algorithm::Md2, 16),
        (Algorithm::Ripemd320, 40),
        (Algorithm::Ripemd256, 32),
        (Algorithm::Ripemd160, 20),
        (Algorithm::Shabal512, 64),
        (Algorithm::Shabal384, 48),
        (Algorithm::Shabal256, 32),
        (Algorithm::Shabal224, 28),
        (Algorithm::Shabal192, 24),
        (Algorithm::Sm3, 32),
        (Algorithm::Streebog512, 64),
        (Algorithm::Streebog256, 32),
        (Algorithm::Tiger, 24),
        (Algorithm::Whirlpool, 64),
        (Algorithm::Ascon, 32),
        (Algorithm::AsconA, 32),
        (Algorithm::BelT, 32),
        (Algorithm::Jh512, 64),
        (Algorithm::Jh384, 48),
        (Algorithm::Jh256, 32),
        (Algorithm::Jh224, 28),
        (Algorithm::Skein1024, 128),
        (Algorithm::Skein512, 64),
        (Algorithm::Skein256, 32),
    ]
}

#[test]
fn digest_width_is_twice_output_size() {
    let all = all_algorithms();
    assert_eq!(all.len(), 48);
    for (alg, size) in all {
        let hex = alg.hash_bytes(b"abc");
        assert_eq!(hex.len(), 2 * size, "{}", alg.name());
        assert!(hex.chars().all(|c| c.is_ascii_hexdigit() && !c.is_ascii_uppercase()));
    }
}

#[test]
fn known_digests_of_abc() {
    assert_eq!(
        Algorithm::Sha2_256.hash_bytes(b"abc"),
        "ba7816bf8f01cfea414140de5dae2223b00361a396177a9cb410ff61f20015ad"
    );
    assert_eq!(Algorithm::Md5.hash_bytes(b"abc"), "900150983cd24fb0d6963f7d28e17f72");
    assert_eq!(Algorithm::Sha1.hash_bytes(b"abc"), "a9993e364706816aba3e25717850c26c9cd0d89d");
    assert_eq!(Algorithm::Blake3.hash_bytes(b"abc"), blake3::hash(b"abc").to_hex().to_string());
}

#[test]
fn known_digests_of_empty_input() {
    assert_eq!(Algorithm::Md5.hash_bytes(b""), "d41d8cd98f00b204e9800998ecf8427e");
    assert_eq!(
        Algorithm::Sha2_256.hash_bytes(b""),
        "e3b0c44298fc1c149afbf4c8996fb92427ae41e4649b934ca495991b7852b855"
    );
}

#[test]
fn hashing_twice_gives_the_same_digest() {
    for (alg, _) in all_algorithms() {
        assert_eq!(alg.hash_bytes(b"some file contents"), alg.hash_bytes(b"some file contents"));
    }
}

#[test]
fn hex_rendering_is_lowercase_and_padded() {
    assert_eq!(to_hex(&[0x00, 0x0f, 0xa5, 0xff]), "000fa5ff");
    assert_eq!(to_hex(&[]), "");
}

#[test]
fn tokens_split_on_whitespace() {
    assert_eq!(split_tokens(" a  bc\td "), vec!["a", "bc", "d"]);
    assert!(split_tokens("   ").is_empty());
}

#[test]
fn text_order_is_bytewise() {
    assert!(text_le_exec("B", "a"));
    assert!(!text_le_exec("a", "B"));
    assert!(text_le_exec("ab", "abc"));
    assert!(text_le_exec("ab", "ab"));
    assert!(!text_le_exec("b", "ab"));
}

fn item(path: &str, o: Outcome) -> (String, Outcome) {
    (path.to_string(), o)
}

fn digest(d: &str) -> Outcome {
    Outcome::Digest(d.to_string())
}

#[test]
fn results_are_sorted_by_path_whatever_the_input_order() {
    let a = vec![item("b", digest("02")), item("a", digest("01")), item("c", digest("03"))];
    let b = vec![item("c", digest("03")), item("b", digest("02")), item("a", digest("01"))];
    let ra = collect_digests(&a).unwrap();
    let rb = collect_digests(&b).unwrap();
    assert_eq!(ra, rb);
    let paths: Vec<&str> = ra.iter().map(|(p, _)| p.as_str()).collect();
    assert_eq!(paths, vec!["a", "b", "c"]);
}

#[test]
fn sort_is_bytewise_not_by_components() {
    let a = vec![item("a/b", digest("1")), item("a.b", digest("2")), item("a", digest("3"))];
    let r = collect_digests(&a).unwrap();
    let paths: Vec<&str> = r.iter().map(|(p, _)| p.as_str()).collect();
    assert_eq!(paths, vec!["a", "a.b", "a/b"]);
}

#[test]
fn directories_are_skipped() {
    let items = vec![
        item("dir", Outcome::Directory),
        item("x", digest("aa")),
        item("other_dir", Outcome::Directory),
        item("y", digest("bb")),
    ];
    let r = collect_digests(&items).unwrap();
    assert_eq!(r.len(), 2);
    assert!(r.iter().all(|(p, _)| p != "dir" && p != "other_dir"));
}

#[test]
fn only_directories_give_no_records() {
    let items = vec![item("d", Outcome::Directory)];
    assert!(collect_digests(&items).unwrap().is_empty());
}

#[test]
fn first_failure_fails_the_batch() {
    let items = vec![
        item("x", digest("aa")),
        item("d", Outcome::Directory),
        item("bad", Outcome::Failed),
        item("worse", Outcome::Failed),
    ];
    assert_eq!(collect_digests(&items), Err(2));
}

#[test]
fn hash_report_lines() {
    let recs = vec![("a.txt".to_string(), "abcd".to_string()), ("b".to_string(), "ef".to_string())];
    assert_eq!(hash_report(Algorithm::Md5, false, Mode::Text, &recs), "abcd  a.txt\nef  b\n");
    assert_eq!(hash_report(Algorithm::Md5, false, Mode::Binary, &recs), "abcd *a.txt\nef *b\n");
    assert_eq!(
        hash_report(Algorithm::Sha2_256, true, Mode::Text, &recs),
        "sha2-256 abcd  a.txt\nsha2-256 ef  b\n"
    );
}

#[test]
fn mode_changes_only_the_marker() {
    let d = Algorithm::Blake3.hash_bytes(b"x");
    let recs = vec![("f".to_string(), d.clone())];
    let text = hash_report(Algorithm::Blake3, false, Mode::Text, &recs);
    let binary = hash_report(Algorithm::Blake3, false, Mode::Binary, &recs);
    assert_eq!(text.replacen(" f", "*f", 1), binary);
    assert!(text.starts_with(&d) && binary.starts_with(&d));
}

fn listing(lines: &[&str]) -> HashFile {
    let l: Vec<String> = lines.iter().map(|s| s.to_string()).collect();
    HashFile::parse(&l).unwrap()
}

#[test]
fn verify_reports_ok_then_err_after_mutation() {
    let content = b"known content\n";
    let hex = blake3::hash(content).to_hex().to_string();
    let f = listing(&[&format!("{} a.txt", hex)]);
    assert!(f.check(0, content));
    assert_eq!(verify_report(&f, &vec![true]), "a.txt OK\n");
    assert!(!f.check(0, b"changed content\n"));
    assert_eq!(verify_report(&f, &vec![false]), "a.txt ERR\n");
}

#[test]
fn verify_uses_the_entry_algorithm() {
    let f = listing(&["md5 900150983cd24fb0d6963f7d28e17f72 x", "900150983cd24fb0d6963f7d28e17f72 y"]);
    assert!(f.check(0, b"abc"));
    assert!(!f.check(1, b"abc"));
}

#[test]
fn verify_report_pads_paths_to_the_widest() {
    let f = listing(&["aa a", "bb long_name", "cc mid"]);
    let r = verify_report(&f, &vec![true, false, true]);
    assert_eq!(r, "a         OK\nlong_name ERR\nmid       OK\n");
}

#[test]
fn verify_report_of_empty_listing_is_empty() {
    let f = listing(&[]);
    assert_eq!(verify_report(&f, &vec![]), "");
}

#[test]
fn every_name_resolves_back() {
    for (alg, _) in all_algorithms() {
        assert_eq!(algorithm_from_name(alg.name()), Some(alg));
        assert_eq!(alg.name().parse::<Algorithm>(), Ok(alg));
    }
}

#[test]
fn entries_parse_through_from_str() {
    let e: HashEntry = "sha3-256 abc *f".parse().unwrap();
    assert_eq!(e.algorithm, Some(Algorithm::Sha3_256));
    assert_eq!(e.file, "f");
    assert!("nope".parse::<Algorithm>().is_err());
}

#[test]
fn recorded_digest_is_compared_verbatim() {
    let f = listing(&["ABCD a", "abcd b"]);
    assert!(!f.matches_digest(0, &"abcd".to_string()));
    assert!(f.matches_digest(1, &"abcd".to_string()));
    assert!(!f.matches_digest(1, &"abcd0".to_string()));
}
