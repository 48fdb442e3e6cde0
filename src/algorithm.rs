//! The registry of digest algorithms and the output mode.
use crate::primitives;
use crate::text::{hex_text, text_eq, to_hex};
use vstd::prelude::*;

verus! {

/// Whether output lines mark a path as text (`' '`) or binary (`'*'`).
/// The mode never changes a digest.
#[derive(Debug, Clone, Copy, PartialEq, Eq, Structural)]
pub enum Mode {
    Text,
    Binary,
}

impl Default for Mode {
    fn default() -> (r: Mode)
        ensures
            r == Mode::Text,
    {
        Mode::Text
    }
}

impl Mode {
    /// The character that precedes a path in an output line.
    pub open spec fn spec_marker(self) -> char {
        match self {
            Mode::Text => ' ',
            Mode::Binary => '*',
        }
    }

    /// The marker as text of one character.
    pub fn marker(self) -> (r: &'static str)
        ensures
            r@ == seq![self.spec_marker()],
    {
        match self {
            Mode::Text => {
                proof {
                    reveal_strlit(" ");
                }
                " "
            },
            Mode::Binary => {
                proof {
                    reveal_strlit("*");
                }
                "*"
            },
        }
    }
}

/// A named digest algorithm, each backed by exactly one digest primitive.
/// Common and strong algorithms come first, rare and weak ones last.
#[derive(Debug, Clone, Copy, PartialEq, Eq, Structural)]
pub enum Algorithm {
    Blake3,
    Blake2s,
    Blake2b,
    Sha3_512,
    Sha3_384,
    Sha3_256,
    Sha3_224,
    Sha2_512,
    Sha2_384,
    Sha2_256,
    Sha2_224,
    Sha1,
    Md5,
    Fsb512,
    Fsb384,
    Fsb256,
    Fsb224,
    Fsb160,
    Gost94,
    Groestl512,
    Groestl384,
    Groestl256,
    Groestl224,
    Md4,
    Md2,
    Ripemd320,
    Ripemd256,
    Ripemd160,
    Shabal512,
    Shabal384,
    Shabal256,
    Shabal224,
    Shabal192,
    Sm3,
    Streebog512,
    Streebog256,
    Tiger,
    Whirlpool,
    Ascon,
    AsconA,
    BelT,
    Jh512,
    Jh384,
    Jh256,
    Jh224,
    Skein1024,
    Skein512,
    Skein256,
}

impl Default for Algorithm {
    fn default() -> (r: Algorithm)
        ensures
            r == Algorithm::Blake3,
    {
        Algorithm::Blake3
    }
}

/// The digest of `data` under `alg`, as lowercase hexadecimal text.
pub open spec fn hex_digest(alg: Algorithm, data: Seq<u8>) -> Seq<char> {
    hex_text(alg.digest_of(data))
}

/// Hashing the same contents with the same algorithm gives the same digest
/// text every time.
pub proof fn lemma_digest_deterministic(alg: Algorithm, first: Seq<u8>, second: Seq<u8>)
    requires
        first == second,
    ensures
        hex_digest(alg, first) == hex_digest(alg, second),
{
}

impl Algorithm {
    /// The canonical name: lowercase, words joined by hyphens.
    pub open spec fn spec_name(self) -> Seq<char> {
        match self {
            Algorithm::Blake3 => "blake3"@,
            Algorithm::Blake2s => "blake2s"@,
            Algorithm::Blake2b => "blake2b"@,
            Algorithm::Sha3_512 => "sha3-512"@,
            Algorithm::Sha3_384 => "sha3-384"@,
            Algorithm::Sha3_256 => "sha3-256"@,
            Algorithm::Sha3_224 => "sha3-224"@,
            Algorithm::Sha2_512 => "sha2-512"@,
            Algorithm::Sha2_384 => "sha2-384"@,
            Algorithm::Sha2_256 => "sha2-256"@,
            Algorithm::Sha2_224 => "sha2-224"@,
            Algorithm::Sha1 => "sha1"@,
            Algorithm::Md5 => "md5"@,
            Algorithm::Fsb512 => "fsb-512"@,
            Algorithm::Fsb384 => "fsb-384"@,
            Algorithm::Fsb256 => "fsb-256"@,
            Algorithm::Fsb224 => "fsb-224"@,
            Algorithm::Fsb160 => "fsb-160"@,
            Algorithm::Gost94 => "gost94"@,
            Algorithm::Groestl512 => "groestl-512"@,
            Algorithm::Groestl384 => "groestl-384"@,
            Algorithm::Groestl256 => "groestl-256"@,
            Algorithm::Groestl224 => "groestl-224"@,
            Algorithm::Md4 => "md4"@,
            Algorithm::Md2 => "md2"@,
            Algorithm::Ripemd320 => "ripemd320"@,
            Algorithm::Ripemd256 => "ripemd256"@,
            Algorithm::Ripemd160 => "ripemd160"@,
            Algorithm::Shabal512 => "shabal-512"@,
            Algorithm::Shabal384 => "shabal-384"@,
            Algorithm::Shabal256 => "shabal-256"@,
            Algorithm::Shabal224 => "shabal-224"@,
            Algorithm::Shabal192 => "shabal-192"@,
            Algorithm::Sm3 => "sm3"@,
            Algorithm::Streebog512 => "streebog-512"@,
            Algorithm::Streebog256 => "streebog-256"@,
            Algorithm::Tiger => "tiger"@,
            Algorithm::Whirlpool => "whirlpool"@,
            Algorithm::Ascon => "ascon"@,
            Algorithm::AsconA => "ascon-a"@,
            Algorithm::BelT => "belt"@,
            Algorithm::Jh512 => "jh-512"@,
            Algorithm::Jh384 => "jh-384"@,
            Algorithm::Jh256 => "jh-256"@,
            Algorithm::Jh224 => "jh-224"@,
            Algorithm::Skein1024 => "skein-1024"@,
            Algorithm::Skein512 => "skein-512"@,
            Algorithm::Skein256 => "skein-256"@,
        }
    }

    /// The algorithm's canonical lowercase, hyphenated name.
    pub fn name(self) -> (r: &'static str)
        ensures
            r@ == self.spec_name(),
    {
        match self {
            Algorithm::Blake3 => "blake3",
            Algorithm::Blake2s => "blake2s",
            Algorithm::Blake2b => "blake2b",
            Algorithm::Sha3_512 => "sha3-512",
            Algorithm::Sha3_384 => "sha3-384",
            Algorithm::Sha3_256 => "sha3-256",
            Algorithm::Sha3_224 => "sha3-224",
            Algorithm::Sha2_512 => "sha2-512",
            Algorithm::Sha2_384 => "sha2-384",
            Algorithm::Sha2_256 => "sha2-256",
            Algorithm::Sha2_224 => "sha2-224",
            Algorithm::Sha1 => "sha1",
            Algorithm::Md5 => "md5",
            Algorithm::Fsb512 => "fsb-512",
            Algorithm::Fsb384 => "fsb-384",
            Algorithm::Fsb256 => "fsb-256",
            Algorithm::Fsb224 => "fsb-224",
            Algorithm::Fsb160 => "fsb-160",
            Algorithm::Gost94 => "gost94",
            Algorithm::Groestl512 => "groestl-512",
            Algorithm::Groestl384 => "groestl-384",
            Algorithm::Groestl256 => "groestl-256",
            Algorithm::Groestl224 => "groestl-224",
            Algorithm::Md4 => "md4",
            Algorithm::Md2 => "md2",
            Algorithm::Ripemd320 => "ripemd320",
            Algorithm::Ripemd256 => "ripemd256",
            Algorithm::Ripemd160 => "ripemd160",
            Algorithm::Shabal512 => "shabal-512",
            Algorithm::Shabal384 => "shabal-384",
            Algorithm::Shabal256 => "shabal-256",
            Algorithm::Shabal224 => "shabal-224",
            Algorithm::Shabal192 => "shabal-192",
            Algorithm::Sm3 => "sm3",
            Algorithm::Streebog512 => "streebog-512",
            Algorithm::Streebog256 => "streebog-256",
            Algorithm::Tiger => "tiger",
            Algorithm::Whirlpool => "whirlpool",
            Algorithm::Ascon => "ascon",
            Algorithm::AsconA => "ascon-a",
            Algorithm::BelT => "belt",
            Algorithm::Jh512 => "jh-512",
            Algorithm::Jh384 => "jh-384",
            Algorithm::Jh256 => "jh-256",
            Algorithm::Jh224 => "jh-224",
            Algorithm::Skein1024 => "skein-1024",
            Algorithm::Skein512 => "skein-512",
            Algorithm::Skein256 => "skein-256",
        }
    }

    /// The size in bytes of the algorithm's digest.
    pub open spec fn output_size(self) -> nat {
        match self {
            Algorithm::Blake3 => 32,
            Algorithm::Blake2s => 32,
            Algorithm::Blake2b => 64,
            Algorithm::Sha3_512 => 64,
            Algorithm::Sha3_384 => 48,
            Algorithm::Sha3_256 => 32,
            Algorithm::Sha3_224 => 28,
            Algorithm::Sha2_512 => 64,
            Algorithm::Sha2_384 => 48,
            Algorithm::Sha2_256 => 32,
            Algorithm::Sha2_224 => 28,
            Algorithm::Sha1 => 20,
            Algorithm::Md5 => 16,
            Algorithm::Fsb512 => 64,
            Algorithm::Fsb384 => 48,
            Algorithm::Fsb256 => 32,
            Algorithm::Fsb224 => 28,
            Algorithm::Fsb160 => 20,
            Algorithm::Gost94 => 32,
            Algorithm::Groestl512 => 64,
            Algorithm::Groestl384 => 48,
            Algorithm::Groestl256 => 32,
            Algorithm::Groestl224 => 28,
            Algorithm::Md4 => 16,
            Algorithm::Md2 => 16,
            Algorithm::Ripemd320 => 40,
            Algorithm::Ripemd256 => 32,
            Algorithm::Ripemd160 => 20,
            Algorithm::Shabal512 => 64,
            Algorithm::Shabal384 => 48,
            Algorithm::Shabal256 => 32,
            Algorithm::Shabal224 => 28,
            Algorithm::Shabal192 => 24,
            Algorithm::Sm3 => 32,
            Algorithm::Streebog512 => 64,
            Algorithm::Streebog256 => 32,
            Algorithm::Tiger => 24,
            Algorithm::Whirlpool => 64,
            Algorithm::Ascon => 32,
            Algorithm::AsconA => 32,
            Algorithm::BelT => 32,
            Algorithm::Jh512 => 64,
            Algorithm::Jh384 => 48,
            Algorithm::Jh256 => 32,
            Algorithm::Jh224 => 28,
            Algorithm::Skein1024 => 128,
            Algorithm::Skein512 => 64,
            Algorithm::Skein256 => 32,
        }
    }

    /// The digest of `data` under this algorithm.
    pub open spec fn digest_of(self, data: Seq<u8>) -> Seq<u8> {
        match self {
            Algorithm::Blake3 => primitives::blake3_of(data),
            Algorithm::Blake2s => primitives::blake2s_of(data),
            Algorithm::Blake2b => primitives::blake2b_of(data),
            Algorithm::Sha3_512 => primitives::sha3_512_of(data),
            Algorithm::Sha3_384 => primitives::sha3_384_of(data),
            Algorithm::Sha3_256 => primitives::sha3_256_of(data),
            Algorithm::Sha3_224 => primitives::sha3_224_of(data),
            Algorithm::Sha2_512 => primitives::sha2_512_of(data),
            Algorithm::Sha2_384 => primitives::sha2_384_of(data),
            Algorithm::Sha2_256 => primitives::sha2_256_of(data),
            Algorithm::Sha2_224 => primitives::sha2_224_of(data),
            Algorithm::Sha1 => primitives::sha1_of(data),
            Algorithm::Md5 => primitives::md5_of(data),
            Algorithm::Fsb512 => primitives::fsb512_of(data),
            Algorithm::Fsb384 => primitives::fsb384_of(data),
            Algorithm::Fsb256 => primitives::fsb256_of(data),
            Algorithm::Fsb224 => primitives::fsb224_of(data),
            Algorithm::Fsb160 => primitives::fsb160_of(data),
            Algorithm::Gost94 => primitives::gost94_of(data),
            Algorithm::Groestl512 => primitives::groestl512_of(data),
            Algorithm::Groestl384 => primitives::groestl384_of(data),
            Algorithm::Groestl256 => primitives::groestl256_of(data),
            Algorithm::Groestl224 => primitives::groestl224_of(data),
            Algorithm::Md4 => primitives::md4_of(data),
            Algorithm::Md2 => primitives::md2_of(data),
            Algorithm::Ripemd320 => primitives::ripemd320_of(data),
            Algorithm::Ripemd256 => primitives::ripemd256_of(data),
            Algorithm::Ripemd160 => primitives::ripemd160_of(data),
            Algorithm::Shabal512 => primitives::shabal512_of(data),
            Algorithm::Shabal384 => primitives::shabal384_of(data),
            Algorithm::Shabal256 => primitives::shabal256_of(data),
            Algorithm::Shabal224 => primitives::shabal224_of(data),
            Algorithm::Shabal192 => primitives::shabal192_of(data),
            Algorithm::Sm3 => primitives::sm3_of(data),
            Algorithm::Streebog512 => primitives::streebog512_of(data),
            Algorithm::Streebog256 => primitives::streebog256_of(data),
            Algorithm::Tiger => primitives::tiger_of(data),
            Algorithm::Whirlpool => primitives::whirlpool_of(data),
            Algorithm::Ascon => primitives::ascon_of(data),
            Algorithm::AsconA => primitives::ascon_a_of(data),
            Algorithm::BelT => primitives::belt_of(data),
            Algorithm::Jh512 => primitives::jh512_of(data),
            Algorithm::Jh384 => primitives::jh384_of(data),
            Algorithm::Jh256 => primitives::jh256_of(data),
            Algorithm::Jh224 => primitives::jh224_of(data),
            Algorithm::Skein1024 => primitives::skein1024_of(data),
            Algorithm::Skein512 => primitives::skein512_of(data),
            Algorithm::Skein256 => primitives::skein256_of(data),
        }
    }

    /// Computes the binary digest of `data` with the primitive registered for this algorithm.
    pub fn digest(self, data: &[u8]) -> (r: Vec<u8>)
        ensures
            r@ == self.digest_of(data@),
            r@.len() == self.output_size(),
    {
        match self {
            Algorithm::Blake3 => primitives::blake3(data),
            Algorithm::Blake2s => primitives::blake2s(data),
            Algorithm::Blake2b => primitives::blake2b(data),
            Algorithm::Sha3_512 => primitives::sha3_512(data),
            Algorithm::Sha3_384 => primitives::sha3_384(data),
            Algorithm::Sha3_256 => primitives::sha3_256(data),
            Algorithm::Sha3_224 => primitives::sha3_224(data),
            Algorithm::Sha2_512 => primitives::sha2_512(data),
            Algorithm::Sha2_384 => primitives::sha2_384(data),
            Algorithm::Sha2_256 => primitives::sha2_256(data),
            Algorithm::Sha2_224 => primitives::sha2_224(data),
            Algorithm::Sha1 => primitives::sha1(data),
            Algorithm::Md5 => primitives::md5(data),
            Algorithm::Fsb512 => primitives::fsb512(data),
            Algorithm::Fsb384 => primitives::fsb384(data),
            Algorithm::Fsb256 => primitives::fsb256(data),
            Algorithm::Fsb224 => primitives::fsb224(data),
            Algorithm::Fsb160 => primitives::fsb160(data),
            Algorithm::Gost94 => primitives::gost94(data),
            Algorithm::Groestl512 => primitives::groestl512(data),
            Algorithm::Groestl384 => primitives::groestl384(data),
            Algorithm::Groestl256 => primitives::groestl256(data),
            Algorithm::Groestl224 => primitives::groestl224(data),
            Algorithm::Md4 => primitives::md4(data),
            Algorithm::Md2 => primitives::md2(data),
            Algorithm::Ripemd320 => primitives::ripemd320(data),
            Algorithm::Ripemd256 => primitives::ripemd256(data),
            Algorithm::Ripemd160 => primitives::ripemd160(data),
            Algorithm::Shabal512 => primitives::shabal512(data),
            Algorithm::Shabal384 => primitives::shabal384(data),
            Algorithm::Shabal256 => primitives::shabal256(data),
            Algorithm::Shabal224 => primitives::shabal224(data),
            Algorithm::Shabal192 => primitives::shabal192(data),
            Algorithm::Sm3 => primitives::sm3(data),
            Algorithm::Streebog512 => primitives::streebog512(data),
            Algorithm::Streebog256 => primitives::streebog256(data),
            Algorithm::Tiger => primitives::tiger(data),
            Algorithm::Whirlpool => primitives::whirlpool(data),
            Algorithm::Ascon => primitives::ascon(data),
            Algorithm::AsconA => primitives::ascon_a(data),
            Algorithm::BelT => primitives::belt(data),
            Algorithm::Jh512 => primitives::jh512(data),
            Algorithm::Jh384 => primitives::jh384(data),
            Algorithm::Jh256 => primitives::jh256(data),
            Algorithm::Jh224 => primitives::jh224(data),
            Algorithm::Skein1024 => primitives::skein1024(data),
            Algorithm::Skein512 => primitives::skein512(data),
            Algorithm::Skein256 => primitives::skein256(data),
        }
    }


    /// The digest of `data` as lowercase hexadecimal text, two digits per
    /// digest byte: no padding and no truncation.
    pub fn hash_bytes(self, data: &[u8]) -> (r: String)
        ensures
            r@ == hex_digest(self, data@),
            r@.len() == 2 * self.output_size(),
    {
        let d = self.digest(data);
        to_hex(d.as_slice())
    }
}

impl std::str::FromStr for Algorithm {
    type Err = crate::hashfile::ParseError;

    fn from_str(s: &str) -> (r: Result<Algorithm, crate::hashfile::ParseError>)
        ensures
            match r {
                Ok(a) => algorithm_named(s@) == Some(a),
                Err(e) => algorithm_named(s@) is None && e == crate::hashfile::ParseError::UnknownAlgorithm,
            },
    {
        match algorithm_from_name(s) {
            Some(a) => Ok(a),
            None => Err(crate::hashfile::ParseError::UnknownAlgorithm),
        }
    }
}

/// Every algorithm, in declaration order.
pub open spec fn all_algorithms() -> Seq<Algorithm> {
    seq![
        Algorithm::Blake3,
        Algorithm::Blake2s,
        Algorithm::Blake2b,
        Algorithm::Sha3_512,
        Algorithm::Sha3_384,
        Algorithm::Sha3_256,
        Algorithm::Sha3_224,
        Algorithm::Sha2_512,
        Algorithm::Sha2_384,
        Algorithm::Sha2_256,
        Algorithm::Sha2_224,
        Algorithm::Sha1,
        Algorithm::Md5,
        Algorithm::Fsb512,
        Algorithm::Fsb384,
        Algorithm::Fsb256,
        Algorithm::Fsb224,
        Algorithm::Fsb160,
        Algorithm::Gost94,
        Algorithm::Groestl512,
        Algorithm::Groestl384,
        Algorithm::Groestl256,
        Algorithm::Groestl224,
        Algorithm::Md4,
        Algorithm::Md2,
        Algorithm::Ripemd320,
        Algorithm::Ripemd256,
        Algorithm::Ripemd160,
        Algorithm::Shabal512,
        Algorithm::Shabal384,
        Algorithm::Shabal256,
        Algorithm::Shabal224,
        Algorithm::Shabal192,
        Algorithm::Sm3,
        Algorithm::Streebog512,
        Algorithm::Streebog256,
        Algorithm::Tiger,
        Algorithm::Whirlpool,
        Algorithm::Ascon,
        Algorithm::AsconA,
        Algorithm::BelT,
        Algorithm::Jh512,
        Algorithm::Jh384,
        Algorithm::Jh256,
        Algorithm::Jh224,
        Algorithm::Skein1024,
        Algorithm::Skein512,
        Algorithm::Skein256,
    ]
}

/// The first algorithm of `list` whose canonical name is `s`.
pub open spec fn first_named(list: Seq<Algorithm>, s: Seq<char>) -> Option<Algorithm>
    decreases list.len(),
{
    if list.len() == 0 {
        None
    } else if list[0].spec_name() == s {
        Some(list[0])
    } else {
        first_named(list.drop_first(), s)
    }
}

/// The algorithm whose canonical name is `s`, if any.
pub open spec fn algorithm_named(s: Seq<char>) -> Option<Algorithm> {
    first_named(all_algorithms(), s)
}

proof fn lemma_first_named(list: Seq<Algorithm>, s: Seq<char>)
    ensures
        first_named(list, s) matches Some(a) ==> a.spec_name() == s && list.contains(a),
        first_named(list, s) is None ==> forall|i: int| 0 <= i < list.len() ==> (#[trigger] list[i]).spec_name() != s,
    decreases list.len(),
{
    if list.len() > 0 {
        lemma_first_named(list.drop_first(), s);
        if first_named(list, s) is Some && list[0].spec_name() != s {
            let a = first_named(list, s)->0;
            let j = choose|j: int| 0 <= j < list.drop_first().len() && list.drop_first()[j] == a;
            assert(list[j + 1] == a);
        }
        if first_named(list, s) is None {
            assert forall|i: int| 0 <= i < list.len() implies (#[trigger] list[i]).spec_name() != s by {
                if i > 0 {
                    assert(list[i] == list.drop_first()[i - 1]);
                }
            }
        }
    }
}

/// Every algorithm is listed.
pub proof fn lemma_all_listed(a: Algorithm)
    ensures
        all_algorithms().contains(a),
{
    match a {
        Algorithm::Blake3 => assert(all_algorithms()[0] == a),
        Algorithm::Blake2s => assert(all_algorithms()[1] == a),
        Algorithm::Blake2b => assert(all_algorithms()[2] == a),
        Algorithm::Sha3_512 => assert(all_algorithms()[3] == a),
        Algorithm::Sha3_384 => assert(all_algorithms()[4] == a),
        Algorithm::Sha3_256 => assert(all_algorithms()[5] == a),
        Algorithm::Sha3_224 => assert(all_algorithms()[6] == a),
        Algorithm::Sha2_512 => assert(all_algorithms()[7] == a),
        Algorithm::Sha2_384 => assert(all_algorithms()[8] == a),
        Algorithm::Sha2_256 => assert(all_algorithms()[9] == a),
        Algorithm::Sha2_224 => assert(all_algorithms()[10] == a),
        Algorithm::Sha1 => assert(all_algorithms()[11] == a),
        Algorithm::Md5 => assert(all_algorithms()[12] == a),
        Algorithm::Fsb512 => assert(all_algorithms()[13] == a),
        Algorithm::Fsb384 => assert(all_algorithms()[14] == a),
        Algorithm::Fsb256 => assert(all_algorithms()[15] == a),
        Algorithm::Fsb224 => assert(all_algorithms()[16] == a),
        Algorithm::Fsb160 => assert(all_algorithms()[17] == a),
        Algorithm::Gost94 => assert(all_algorithms()[18] == a),
        Algorithm::Groestl512 => assert(all_algorithms()[19] == a),
        Algorithm::Groestl384 => assert(all_algorithms()[20] == a),
        Algorithm::Groestl256 => assert(all_algorithms()[21] == a),
        Algorithm::Groestl224 => assert(all_algorithms()[22] == a),
        Algorithm::Md4 => assert(all_algorithms()[23] == a),
        Algorithm::Md2 => assert(all_algorithms()[24] == a),
        Algorithm::Ripemd320 => assert(all_algorithms()[25] == a),
        Algorithm::Ripemd256 => assert(all_algorithms()[26] == a),
        Algorithm::Ripemd160 => assert(all_algorithms()[27] == a),
        Algorithm::Shabal512 => assert(all_algorithms()[28] == a),
        Algorithm::Shabal384 => assert(all_algorithms()[29] == a),
        Algorithm::Shabal256 => assert(all_algorithms()[30] == a),
        Algorithm::Shabal224 => assert(all_algorithms()[31] == a),
        Algorithm::Shabal192 => assert(all_algorithms()[32] == a),
        Algorithm::Sm3 => assert(all_algorithms()[33] == a),
        Algorithm::Streebog512 => assert(all_algorithms()[34] == a),
        Algorithm::Streebog256 => assert(all_algorithms()[35] == a),
        Algorithm::Tiger => assert(all_algorithms()[36] == a),
        Algorithm::Whirlpool => assert(all_algorithms()[37] == a),
        Algorithm::Ascon => assert(all_algorithms()[38] == a),
        Algorithm::AsconA => assert(all_algorithms()[39] == a),
        Algorithm::BelT => assert(all_algorithms()[40] == a),
        Algorithm::Jh512 => assert(all_algorithms()[41] == a),
        Algorithm::Jh384 => assert(all_algorithms()[42] == a),
        Algorithm::Jh256 => assert(all_algorithms()[43] == a),
        Algorithm::Jh224 => assert(all_algorithms()[44] == a),
        Algorithm::Skein1024 => assert(all_algorithms()[45] == a),
        Algorithm::Skein512 => assert(all_algorithms()[46] == a),
        Algorithm::Skein256 => assert(all_algorithms()[47] == a),
    }
}

/// A name resolves to an algorithm that bears it, and to none exactly when no
/// algorithm bears it.
pub proof fn lemma_algorithm_named(s: Seq<char>)
    ensures
        algorithm_named(s) matches Some(a) ==> a.spec_name() == s,
        algorithm_named(s) is None <==> forall|a: Algorithm| a.spec_name() != s,
{
    lemma_first_named(all_algorithms(), s);
    if algorithm_named(s) is None {
        assert forall|a: Algorithm| a.spec_name() != s by {
            lemma_all_listed(a);
            let i = choose|i: int| 0 <= i < all_algorithms().len() && all_algorithms()[i] == a;
            assert(all_algorithms()[i].spec_name() != s);
        }
    }
}

/// Resolves an algorithm name (case-sensitive, canonical form).
pub fn algorithm_from_name(s: &str) -> (r: Option<Algorithm>)
    ensures
        r == algorithm_named(s@),
{
    let all = [
        Algorithm::Blake3,
        Algorithm::Blake2s,
        Algorithm::Blake2b,
        Algorithm::Sha3_512,
        Algorithm::Sha3_384,
        Algorithm::Sha3_256,
        Algorithm::Sha3_224,
        Algorithm::Sha2_512,
        Algorithm::Sha2_384,
        Algorithm::Sha2_256,
        Algorithm::Sha2_224,
        Algorithm::Sha1,
        Algorithm::Md5,
        Algorithm::Fsb512,
        Algorithm::Fsb384,
        Algorithm::Fsb256,
        Algorithm::Fsb224,
        Algorithm::Fsb160,
        Algorithm::Gost94,
        Algorithm::Groestl512,
        Algorithm::Groestl384,
        Algorithm::Groestl256,
        Algorithm::Groestl224,
        Algorithm::Md4,
        Algorithm::Md2,
        Algorithm::Ripemd320,
        Algorithm::Ripemd256,
        Algorithm::Ripemd160,
        Algorithm::Shabal512,
        Algorithm::Shabal384,
        Algorithm::Shabal256,
        Algorithm::Shabal224,
        Algorithm::Shabal192,
        Algorithm::Sm3,
        Algorithm::Streebog512,
        Algorithm::Streebog256,
        Algorithm::Tiger,
        Algorithm::Whirlpool,
        Algorithm::Ascon,
        Algorithm::AsconA,
        Algorithm::BelT,
        Algorithm::Jh512,
        Algorithm::Jh384,
        Algorithm::Jh256,
        Algorithm::Jh224,
        Algorithm::Skein1024,
        Algorithm::Skein512,
        Algorithm::Skein256,
    ];
    assert(all@ =~= all_algorithms());
    assert(all@.subrange(0, all@.len() as int) =~= all@);
    let mut i: usize = 0;
    while i < all.len()
        invariant
            all@ == all_algorithms(),
            i <= all@.len(),
            algorithm_named(s@) == first_named(all@.subrange(i as int, all@.len() as int), s@),
        decreases all@.len() - i,
    {
        let ghost rest = all@.subrange(i as int, all@.len() as int);
        assert(rest.drop_first() =~= all@.subrange(i + 1, all@.len() as int));
        let a = all[i];
        if text_eq(s, a.name()) {
            return Some(a);
        }
        i = i + 1;
    }
    None
}

} // verus!
