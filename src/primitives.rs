//! The digest primitives of the outside hash crates, one per algorithm.
//!
//! Each digest is a function of the input bytes alone; its value is named by an
//! uninterpreted spec function, and its length is the output size that the
//! hash type declares.
use digest::Digest;
use vstd::prelude::*;

verus! {
pub uninterp spec fn blake3_of(data: Seq<u8>) -> Seq<u8>;
pub uninterp spec fn blake2s_of(data: Seq<u8>) -> Seq<u8>;
pub uninterp spec fn blake2b_of(data: Seq<u8>) -> Seq<u8>;
pub uninterp spec fn sha3_512_of(data: Seq<u8>) -> Seq<u8>;
pub uninterp spec fn sha3_384_of(data: Seq<u8>) -> Seq<u8>;
pub uninterp spec fn sha3_256_of(data: Seq<u8>) -> Seq<u8>;
pub uninterp spec fn sha3_224_of(data: Seq<u8>) -> Seq<u8>;
pub uninterp spec fn sha2_512_of(data: Seq<u8>) -> Seq<u8>;
pub uninterp spec fn sha2_384_of(data: Seq<u8>) -> Seq<u8>;
pub uninterp spec fn sha2_256_of(data: Seq<u8>) -> Seq<u8>;
pub uninterp spec fn sha2_224_of(data: Seq<u8>) -> Seq<u8>;
pub uninterp spec fn sha1_of(data: Seq<u8>) -> Seq<u8>;
pub uninterp spec fn md5_of(data: Seq<u8>) -> Seq<u8>;
pub uninterp spec fn fsb512_of(data: Seq<u8>) -> Seq<u8>;
pub uninterp spec fn fsb384_of(data: Seq<u8>) -> Seq<u8>;
pub uninterp spec fn fsb256_of(data: Seq<u8>) -> Seq<u8>;
pub uninterp spec fn fsb224_of(data: Seq<u8>) -> Seq<u8>;
pub uninterp spec fn fsb160_of(data: Seq<u8>) -> Seq<u8>;
pub uninterp spec fn gost94_of(data: Seq<u8>) -> Seq<u8>;
pub uninterp spec fn groestl512_of(data: Seq<u8>) -> Seq<u8>;
pub uninterp spec fn groestl384_of(data: Seq<u8>) -> Seq<u8>;
pub uninterp spec fn groestl256_of(data: Seq<u8>) -> Seq<u8>;
pub uninterp spec fn groestl224_of(data: Seq<u8>) -> Seq<u8>;
pub uninterp spec fn md4_of(data: Seq<u8>) -> Seq<u8>;
pub uninterp spec fn md2_of(data: Seq<u8>) -> Seq<u8>;
pub uninterp spec fn ripemd320_of(data: Seq<u8>) -> Seq<u8>;
pub uninterp spec fn ripemd256_of(data: Seq<u8>) -> Seq<u8>;
pub uninterp spec fn ripemd160_of(data: Seq<u8>) -> Seq<u8>;
pub uninterp spec fn shabal512_of(data: Seq<u8>) -> Seq<u8>;
pub uninterp spec fn shabal384_of(data: Seq<u8>) -> Seq<u8>;
pub uninterp spec fn shabal256_of(data: Seq<u8>) -> Seq<u8>;
pub uninterp spec fn shabal224_of(data: Seq<u8>) -> Seq<u8>;
pub uninterp spec fn shabal192_of(data: Seq<u8>) -> Seq<u8>;
pub uninterp spec fn sm3_of(data: Seq<u8>) -> Seq<u8>;
pub uninterp spec fn streebog512_of(data: Seq<u8>) -> Seq<u8>;
pub uninterp spec fn streebog256_of(data: Seq<u8>) -> Seq<u8>;
pub uninterp spec fn tiger_of(data: Seq<u8>) -> Seq<u8>;
pub uninterp spec fn whirlpool_of(data: Seq<u8>) -> Seq<u8>;
pub uninterp spec fn ascon_of(data: Seq<u8>) -> Seq<u8>;
pub uninterp spec fn ascon_a_of(data: Seq<u8>) -> Seq<u8>;
pub uninterp spec fn belt_of(data: Seq<u8>) -> Seq<u8>;
pub uninterp spec fn jh512_of(data: Seq<u8>) -> Seq<u8>;
pub uninterp spec fn jh384_of(data: Seq<u8>) -> Seq<u8>;
pub uninterp spec fn jh256_of(data: Seq<u8>) -> Seq<u8>;
pub uninterp spec fn jh224_of(data: Seq<u8>) -> Seq<u8>;
pub uninterp spec fn skein1024_of(data: Seq<u8>) -> Seq<u8>;
pub uninterp spec fn skein512_of(data: Seq<u8>) -> Seq<u8>;
pub uninterp spec fn skein256_of(data: Seq<u8>) -> Seq<u8>;

/// Relies on `blake3::hash`: the BLAKE3 digest of the bytes, `OUT_LEN` (32) bytes long.
#[verifier::external_body]
pub(crate) fn blake3(data: &[u8]) -> (r: Vec<u8>)
    ensures
        r@ == blake3_of(data@),
        r@.len() == 32,
{
    blake3::hash(data).as_bytes().to_vec()
}

/// Relies on `Digest::digest` of `blake2::Blake2s256`: the digest of the bytes, whose length is
/// the type's `OutputSize` (32 bytes).
#[verifier::external_body]
pub(crate) fn blake2s(data: &[u8]) -> (r: Vec<u8>)
    ensures
        r@ == blake2s_of(data@),
        r@.len() == 32,
{
    <blake2::Blake2s256 as Digest>::digest(data).to_vec()
}

/// Relies on `Digest::digest` of `blake2::Blake2b512`: the digest of the bytes, whose length is
/// the type's `OutputSize` (64 bytes).
#[verifier::external_body]
pub(crate) fn blake2b(data: &[u8]) -> (r: Vec<u8>)
    ensures
        r@ == blake2b_of(data@),
        r@.len() == 64,
{
    <blake2::Blake2b512 as Digest>::digest(data).to_vec()
}

/// Relies on `Digest::digest` of `sha3::Sha3_512`: the digest of the bytes, whose length is
/// the type's `OutputSize` (64 bytes).
#[verifier::external_body]
pub(crate) fn sha3_512(data: &[u8]) -> (r: Vec<u8>)
    ensures
        r@ == sha3_512_of(data@),
        r@.len() == 64,
{
    <sha3::Sha3_512 as Digest>::digest(data).to_vec()
}

/// Relies on `Digest::digest` of `sha3::Sha3_384`: the digest of the bytes, whose length is
/// the type's `OutputSize` (48 bytes).
#[verifier::external_body]
pub(crate) fn sha3_384(data: &[u8]) -> (r: Vec<u8>)
    ensures
        r@ == sha3_384_of(data@),
        r@.len() == 48,
{
    <sha3::Sha3_384 as Digest>::digest(data).to_vec()
}

/// Relies on `Digest::digest` of `sha3::Sha3_256`: the digest of the bytes, whose length is
/// the type's `OutputSize` (32 bytes).
#[verifier::external_body]
pub(crate) fn sha3_256(data: &[u8]) -> (r: Vec<u8>)
    ensures
        r@ == sha3_256_of(data@),
        r@.len() == 32,
{
    <sha3::Sha3_256 as Digest>::digest(data).to_vec()
}

/// Relies on `Digest::digest` of `sha3::Sha3_224`: the digest of the bytes, whose length is
/// the type's `OutputSize` (28 bytes).
#[verifier::external_body]
pub(crate) fn sha3_224(data: &[u8]) -> (r: Vec<u8>)
    ensures
        r@ == sha3_224_of(data@),
        r@.len() == 28,
{
    <sha3::Sha3_224 as Digest>::digest(data).to_vec()
}

/// Relies on `Digest::digest` of `sha2::Sha512`: the digest of the bytes, whose length is
/// the type's `OutputSize` (64 bytes).
#[verifier::external_body]
pub(crate) fn sha2_512(data: &[u8]) -> (r: Vec<u8>)
    ensures
        r@ == sha2_512_of(data@),
        r@.len() == 64,
{
    <sha2::Sha512 as Digest>::digest(data).to_vec()
}

/// Relies on `Digest::digest` of `sha2::Sha384`: the digest of the bytes, whose length is
/// the type's `OutputSize` (48 bytes).
#[verifier::external_body]
pub(crate) fn sha2_384(data: &[u8]) -> (r: Vec<u8>)
    ensures
        r@ == sha2_384_of(data@),
        r@.len() == 48,
{
    <sha2::Sha384 as Digest>::digest(data).to_vec()
}

/// Relies on `Digest::digest` of `sha2::Sha256`: the digest of the bytes, whose length is
/// the type's `OutputSize` (32 bytes).
#[verifier::external_body]
pub(crate) fn sha2_256(data: &[u8]) -> (r: Vec<u8>)
    ensures
        r@ == sha2_256_of(data@),
        r@.len() == 32,
{
    <sha2::Sha256 as Digest>::digest(data).to_vec()
}

/// Relies on `Digest::digest` of `sha2::Sha224`: the digest of the bytes, whose length is
/// the type's `OutputSize` (28 bytes).
#[verifier::external_body]
pub(crate) fn sha2_224(data: &[u8]) -> (r: Vec<u8>)
    ensures
        r@ == sha2_224_of(data@),
        r@.len() == 28,
{
    <sha2::Sha224 as Digest>::digest(data).to_vec()
}

/// Relies on `Digest::digest` of `sha1::Sha1`: the digest of the bytes, whose length is
/// the type's `OutputSize` (20 bytes).
#[verifier::external_body]
pub(crate) fn sha1(data: &[u8]) -> (r: Vec<u8>)
    ensures
        r@ == sha1_of(data@),
        r@.len() == 20,
{
    <sha1::Sha1 as Digest>::digest(data).to_vec()
}

/// Relies on `Digest::digest` of `md5::Md5 (package md-5)`: the digest of the bytes, whose length is
/// the type's `OutputSize` (16 bytes).
#[verifier::external_body]
pub(crate) fn md5(data: &[u8]) -> (r: Vec<u8>)
    ensures
        r@ == md5_of(data@),
        r@.len() == 16,
{
    <md5::Md5 as Digest>::digest(data).to_vec()
}

/// Relies on `Digest::digest` of `fsb::Fsb512`: the digest of the bytes, whose length is
/// the type's `OutputSize` (64 bytes).
#[verifier::external_body]
pub(crate) fn fsb512(data: &[u8]) -> (r: Vec<u8>)
    ensures
        r@ == fsb512_of(data@),
        r@.len() == 64,
{
    <fsb::Fsb512 as Digest>::digest(data).to_vec()
}

/// Relies on `Digest::digest` of `fsb::Fsb384`: the digest of the bytes, whose length is
/// the type's `OutputSize` (48 bytes).
#[verifier::external_body]
pub(crate) fn fsb384(data: &[u8]) -> (r: Vec<u8>)
    ensures
        r@ == fsb384_of(data@),
        r@.len() == 48,
{
    <fsb::Fsb384 as Digest>::digest(data).to_vec()
}

/// Relies on `Digest::digest` of `fsb::Fsb256`: the digest of the bytes, whose length is
/// the type's `OutputSize` (32 bytes).
#[verifier::external_body]
pub(crate) fn fsb256(data: &[u8]) -> (r: Vec<u8>)
    ensures
        r@ == fsb256_of(data@),
        r@.len() == 32,
{
    <fsb::Fsb256 as Digest>::digest(data).to_vec()
}

/// Relies on `Digest::digest` of `fsb::Fsb224`: the digest of the bytes, whose length is
/// the type's `OutputSize` (28 bytes).
#[verifier::external_body]
pub(crate) fn fsb224(data: &[u8]) -> (r: Vec<u8>)
    ensures
        r@ == fsb224_of(data@),
        r@.len() == 28,
{
    <fsb::Fsb224 as Digest>::digest(data).to_vec()
}

/// Relies on `Digest::digest` of `fsb::Fsb160`: the digest of the bytes, whose length is
/// the type's `OutputSize` (20 bytes).
#[verifier::external_body]
pub(crate) fn fsb160(data: &[u8]) -> (r: Vec<u8>)
    ensures
        r@ == fsb160_of(data@),
        r@.len() == 20,
{
    <fsb::Fsb160 as Digest>::digest(data).to_vec()
}

/// Relies on `Digest::digest` of `gost94::Gost94Test`: the digest of the bytes, whose length is
/// the type's `OutputSize` (32 bytes).
#[verifier::external_body]
pub(crate) fn gost94(data: &[u8]) -> (r: Vec<u8>)
    ensures
        r@ == gost94_of(data@),
        r@.len() == 32,
{
    <gost94::Gost94Test as Digest>::digest(data).to_vec()
}

/// Relies on `Digest::digest` of `groestl::Groestl512`: the digest of the bytes, whose length is
/// the type's `OutputSize` (64 bytes).
#[verifier::external_body]
pub(crate) fn groestl512(data: &[u8]) -> (r: Vec<u8>)
    ensures
        r@ == groestl512_of(data@),
        r@.len() == 64,
{
    <groestl::Groestl512 as Digest>::digest(data).to_vec()
}

/// Relies on `Digest::digest` of `groestl::Groestl384`: the digest of the bytes, whose length is
/// the type's `OutputSize` (48 bytes).
#[verifier::external_body]
pub(crate) fn groestl384(data: &[u8]) -> (r: Vec<u8>)
    ensures
        r@ == groestl384_of(data@),
        r@.len() == 48,
{
    <groestl::Groestl384 as Digest>::digest(data).to_vec()
}

/// Relies on `Digest::digest` of `groestl::Groestl256`: the digest of the bytes, whose length is
/// the type's `OutputSize` (32 bytes).
#[verifier::external_body]
pub(crate) fn groestl256(data: &[u8]) -> (r: Vec<u8>)
    ensures
        r@ == groestl256_of(data@),
        r@.len() == 32,
{
    <groestl::Groestl256 as Digest>::digest(data).to_vec()
}

/// Relies on `Digest::digest` of `groestl::Groestl224`: the digest of the bytes, whose length is
/// the type's `OutputSize` (28 bytes).
#[verifier::external_body]
pub(crate) fn groestl224(data: &[u8]) -> (r: Vec<u8>)
    ensures
        r@ == groestl224_of(data@),
        r@.len() == 28,
{
    <groestl::Groestl224 as Digest>::digest(data).to_vec()
}

/// Relies on `Digest::digest` of `md4::Md4`: the digest of the bytes, whose length is
/// the type's `OutputSize` (16 bytes).
#[verifier::external_body]
pub(crate) fn md4(data: &[u8]) -> (r: Vec<u8>)
    ensures
        r@ == md4_of(data@),
        r@.len() == 16,
{
    <md4::Md4 as Digest>::digest(data).to_vec()
}

/// Relies on `Digest::digest` of `md2::Md2`: the digest of the bytes, whose length is
/// the type's `OutputSize` (16 bytes).
#[verifier::external_body]
pub(crate) fn md2(data: &[u8]) -> (r: Vec<u8>)
    ensures
        r@ == md2_of(data@),
        r@.len() == 16,
{
    <md2::Md2 as Digest>::digest(data).to_vec()
}

/// Relies on `Digest::digest` of `ripemd::Ripemd320`: the digest of the bytes, whose length is
/// the type's `OutputSize` (40 bytes).
#[verifier::external_body]
pub(crate) fn ripemd320(data: &[u8]) -> (r: Vec<u8>)
    ensures
        r@ == ripemd320_of(data@),
        r@.len() == 40,
{
    <ripemd::Ripemd320 as Digest>::digest(data).to_vec()
}

/// Relies on `Digest::digest` of `ripemd::Ripemd256`: the digest of the bytes, whose length is
/// the type's `OutputSize` (32 bytes).
#[verifier::external_body]
pub(crate) fn ripemd256(data: &[u8]) -> (r: Vec<u8>)
    ensures
        r@ == ripemd256_of(data@),
        r@.len() == 32,
{
    <ripemd::Ripemd256 as Digest>::digest(data).to_vec()
}

/// Relies on `Digest::digest` of `ripemd::Ripemd160`: the digest of the bytes, whose length is
/// the type's `OutputSize` (20 bytes).
#[verifier::external_body]
pub(crate) fn ripemd160(data: &[u8]) -> (r: Vec<u8>)
    ensures
        r@ == ripemd160_of(data@),
        r@.len() == 20,
{
    <ripemd::Ripemd160 as Digest>::digest(data).to_vec()
}

/// Relies on `Digest::digest` of `shabal::Shabal512`: the digest of the bytes, whose length is
/// the type's `OutputSize` (64 bytes).
#[verifier::external_body]
pub(crate) fn shabal512(data: &[u8]) -> (r: Vec<u8>)
    ensures
        r@ == shabal512_of(data@),
        r@.len() == 64,
{
    <shabal::Shabal512 as Digest>::digest(data).to_vec()
}

/// Relies on `Digest::digest` of `shabal::Shabal384`: the digest of the bytes, whose length is
/// the type's `OutputSize` (48 bytes).
#[verifier::external_body]
pub(crate) fn shabal384(data: &[u8]) -> (r: Vec<u8>)
    ensures
        r@ == shabal384_of(data@),
        r@.len() == 48,
{
    <shabal::Shabal384 as Digest>::digest(data).to_vec()
}

/// Relies on `Digest::digest` of `shabal::Shabal256`: the digest of the bytes, whose length is
/// the type's `OutputSize` (32 bytes).
#[verifier::external_body]
pub(crate) fn shabal256(data: &[u8]) -> (r: Vec<u8>)
    ensures
        r@ == shabal256_of(data@),
        r@.len() == 32,
{
    <shabal::Shabal256 as Digest>::digest(data).to_vec()
}

/// Relies on `Digest::digest` of `shabal::Shabal224`: the digest of the bytes, whose length is
/// the type's `OutputSize` (28 bytes).
#[verifier::external_body]
pub(crate) fn shabal224(data: &[u8]) -> (r: Vec<u8>)
    ensures
        r@ == shabal224_of(data@),
        r@.len() == 28,
{
    <shabal::Shabal224 as Digest>::digest(data).to_vec()
}

/// Relies on `Digest::digest` of `shabal::Shabal192`: the digest of the bytes, whose length is
/// the type's `OutputSize` (24 bytes).
#[verifier::external_body]
pub(crate) fn shabal192(data: &[u8]) -> (r: Vec<u8>)
    ensures
        r@ == shabal192_of(data@),
        r@.len() == 24,
{
    <shabal::Shabal192 as Digest>::digest(data).to_vec()
}

/// Relies on `Digest::digest` of `sm3::Sm3`: the digest of the bytes, whose length is
/// the type's `OutputSize` (32 bytes).
#[verifier::external_body]
pub(crate) fn sm3(data: &[u8]) -> (r: Vec<u8>)
    ensures
        r@ == sm3_of(data@),
        r@.len() == 32,
{
    <sm3::Sm3 as Digest>::digest(data).to_vec()
}

/// Relies on `Digest::digest` of `streebog::Streebog512`: the digest of the bytes, whose length is
/// the type's `OutputSize` (64 bytes).
#[verifier::external_body]
pub(crate) fn streebog512(data: &[u8]) -> (r: Vec<u8>)
    ensures
        r@ == streebog512_of(data@),
        r@.len() == 64,
{
    <streebog::Streebog512 as Digest>::digest(data).to_vec()
}

/// Relies on `Digest::digest` of `streebog::Streebog256`: the digest of the bytes, whose length is
/// the type's `OutputSize` (32 bytes).
#[verifier::external_body]
pub(crate) fn streebog256(data: &[u8]) -> (r: Vec<u8>)
    ensures
        r@ == streebog256_of(data@),
        r@.len() == 32,
{
    <streebog::Streebog256 as Digest>::digest(data).to_vec()
}

/// Relies on `Digest::digest` of `tiger::Tiger`: the digest of the bytes, whose length is
/// the type's `OutputSize` (24 bytes).
#[verifier::external_body]
pub(crate) fn tiger(data: &[u8]) -> (r: Vec<u8>)
    ensures
        r@ == tiger_of(data@),
        r@.len() == 24,
{
    <tiger::Tiger as Digest>::digest(data).to_vec()
}

/// Relies on `Digest::digest` of `whirlpool::Whirlpool`: the digest of the bytes, whose length is
/// the type's `OutputSize` (64 bytes).
#[verifier::external_body]
pub(crate) fn whirlpool(data: &[u8]) -> (r: Vec<u8>)
    ensures
        r@ == whirlpool_of(data@),
        r@.len() == 64,
{
    <whirlpool::Whirlpool as Digest>::digest(data).to_vec()
}

/// Relies on `Digest::digest` of `ascon_hash::AsconHash`: the digest of the bytes, whose length is
/// the type's `OutputSize` (32 bytes).
#[verifier::external_body]
pub(crate) fn ascon(data: &[u8]) -> (r: Vec<u8>)
    ensures
        r@ == ascon_of(data@),
        r@.len() == 32,
{
    <ascon_hash::AsconHash as Digest>::digest(data).to_vec()
}

/// Relies on `Digest::digest` of `ascon_hash::AsconAHash`: the digest of the bytes, whose length is
/// the type's `OutputSize` (32 bytes).
#[verifier::external_body]
pub(crate) fn ascon_a(data: &[u8]) -> (r: Vec<u8>)
    ensures
        r@ == ascon_a_of(data@),
        r@.len() == 32,
{
    <ascon_hash::AsconAHash as Digest>::digest(data).to_vec()
}

/// Relies on `Digest::digest` of `belt_hash::BeltHash`: the digest of the bytes, whose length is
/// the type's `OutputSize` (32 bytes).
#[verifier::external_body]
pub(crate) fn belt(data: &[u8]) -> (r: Vec<u8>)
    ensures
        r@ == belt_of(data@),
        r@.len() == 32,
{
    <belt_hash::BeltHash as Digest>::digest(data).to_vec()
}

/// Relies on `Digest::digest` of `jh::Jh512`: the digest of the bytes, whose length is
/// the type's `OutputSize` (64 bytes).
#[verifier::external_body]
pub(crate) fn jh512(data: &[u8]) -> (r: Vec<u8>)
    ensures
        r@ == jh512_of(data@),
        r@.len() == 64,
{
    <jh::Jh512 as Digest>::digest(data).to_vec()
}

/// Relies on `Digest::digest` of `jh::Jh384`: the digest of the bytes, whose length is
/// the type's `OutputSize` (48 bytes).
#[verifier::external_body]
pub(crate) fn jh384(data: &[u8]) -> (r: Vec<u8>)
    ensures
        r@ == jh384_of(data@),
        r@.len() == 48,
{
    <jh::Jh384 as Digest>::digest(data).to_vec()
}

/// Relies on `Digest::digest` of `jh::Jh256`: the digest of the bytes, whose length is
/// the type's `OutputSize` (32 bytes).
#[verifier::external_body]
pub(crate) fn jh256(data: &[u8]) -> (r: Vec<u8>)
    ensures
        r@ == jh256_of(data@),
        r@.len() == 32,
{
    <jh::Jh256 as Digest>::digest(data).to_vec()
}

/// Relies on `Digest::digest` of `jh::Jh224`: the digest of the bytes, whose length is
/// the type's `OutputSize` (28 bytes).
#[verifier::external_body]
pub(crate) fn jh224(data: &[u8]) -> (r: Vec<u8>)
    ensures
        r@ == jh224_of(data@),
        r@.len() == 28,
{
    <jh::Jh224 as Digest>::digest(data).to_vec()
}

/// Relies on `Digest::digest` of `skein::Skein1024`: the digest of the bytes, whose length is
/// the type's `OutputSize` (128 bytes).
#[verifier::external_body]
pub(crate) fn skein1024(data: &[u8]) -> (r: Vec<u8>)
    ensures
        r@ == skein1024_of(data@),
        r@.len() == 128,
{
    <skein::Skein1024 as Digest>::digest(data).to_vec()
}

/// Relies on `Digest::digest` of `skein::Skein512`: the digest of the bytes, whose length is
/// the type's `OutputSize` (64 bytes).
#[verifier::external_body]
pub(crate) fn skein512(data: &[u8]) -> (r: Vec<u8>)
    ensures
        r@ == skein512_of(data@),
        r@.len() == 64,
{
    <skein::Skein512 as Digest>::digest(data).to_vec()
}

/// Relies on `Digest::digest` of `skein::Skein256`: the digest of the bytes, whose length is
/// the type's `OutputSize` (32 bytes).
#[verifier::external_body]
pub(crate) fn skein256(data: &[u8]) -> (r: Vec<u8>)
    ensures
        r@ == skein256_of(data@),
        r@.len() == 32,
{
    <skein::Skein256 as Digest>::digest(data).to_vec()
}

} // verus!
