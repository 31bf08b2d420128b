//! Node identity key material: an entropy-derived mnemonic, an Ed25519
//! key pair taken from the mnemonic's seed, and a hashed, prefixed
//! wallet address.
//!
//! The derivations (mnemonic words, seed, public key, digest) run in
//! their outside crates and are named, not restated; everything that
//! strings them together — which bytes feed which step, the hex and
//! prefix handling, the shape of the results — is proved.

use vstd::prelude::*;
use vstd::string::StringExecFns;
use vstd::utf8::encode_utf8;
use vstd::slice::slice_subrange;
use sha2::Digest;

verus! {

/// The lowercase hex digit for the value `d`.
pub open spec fn spec_hex_digit(d: nat) -> char
    recommends
        d < 16,
{
    if d < 10 {
        ((48 + d) as u8) as char
    } else {
        ((87 + d) as u8) as char
    }
}

/// The lowercase hex rendering of `bs`: two digits per byte, high
/// nibble first.
pub open spec fn spec_hex_of(bs: Seq<u8>) -> Seq<char>
    decreases bs.len(),
{
    if bs.len() == 0 {
        Seq::<char>::empty()
    } else {
        spec_hex_of(bs.drop_last()).push(spec_hex_digit((bs.last() >> 4) as nat)).push(
            spec_hex_digit((bs.last() & 0x0f) as nat),
        )
    }
}

/// Relies on `hex::encode`: lowercase hex, exactly two digits for each
/// input byte, high nibble first.
#[verifier::external_body]
fn hex_encode(bytes: &[u8]) -> (r: String)
    ensures
        r@ == spec_hex_of(bytes@),
{
    hex::encode(bytes)
}

/// The SHA-256 digest of `data`, named after `sha2`'s implementation.
pub uninterp spec fn spec_sha256(data: Seq<u8>) -> Seq<u8>;

/// Relies on `sha2::Sha256` through the `Digest` trait: the digest
/// depends on the input bytes alone and is 32 bytes long.
#[verifier::external_body]
fn sha256_digest(data: &[u8]) -> (r: Vec<u8>)
    ensures
        r@ == spec_sha256(data@),
        r@.len() == 32,
{
    sha2::Sha256::digest(data).to_vec()
}

/// The English mnemonic word list derived from `entropy`, named after
/// `bip39`'s derivation.
pub uninterp spec fn spec_mnemonic_words(entropy: Seq<u8>) -> Seq<char>;

/// Relies on `bip39::Mnemonic::from_entropy` and its `Display` form:
/// the space-joined word list is derived from the entropy alone;
/// entropy of 16, 20, 24, 28 or 32 bytes is accepted, every other
/// length refused.
#[verifier::external_body]
fn mnemonic_from_entropy(entropy: &[u8]) -> (r: Option<String>)
    ensures
        r is Some <==> (entropy@.len() % 4 == 0 && 16 <= entropy@.len() <= 32),
        r matches Some(words) ==> words@ == spec_mnemonic_words(entropy@),
{
    bip39::Mnemonic::from_entropy(entropy).ok().map(|m| m.to_string())
}

/// The 64-byte seed of a parsed English mnemonic with an empty
/// passphrase, named after `bip39`'s derivation.
pub uninterp spec fn spec_seed_of_words(words: Seq<char>) -> Seq<u8>;

/// Relies on `bip39::Mnemonic::parse_in` and `to_seed`: a parsed
/// English mnemonic's seed under the empty passphrase depends on the
/// words alone and is 64 bytes; an invalid phrase is refused.
#[verifier::external_body]
fn seed_from_mnemonic(words: &str) -> (r: Option<Vec<u8>>)
    ensures
        r matches Some(seed) ==> seed@ == spec_seed_of_words(words@) && seed@.len() == 64,
{
    bip39::Mnemonic::parse_in(bip39::Language::English, words).ok().map(
        |m| m.to_seed("").to_vec(),
    )
}

/// The Ed25519 verifying key of a 32-byte secret, named after
/// `ed25519_dalek`'s derivation.
pub uninterp spec fn spec_ed25519_public_key(secret: Seq<u8>) -> Seq<u8>;

/// Relies on `ed25519_dalek::SigningKey::from_bytes`, `verifying_key`
/// and `VerifyingKey::to_bytes`: the verifying key is derived from the
/// 32 secret bytes alone and is 32 bytes long.
#[verifier::external_body]
fn ed25519_public_key(secret: &[u8]) -> (r: Vec<u8>)
    requires
        secret@.len() == 32,
    ensures
        r@ == spec_ed25519_public_key(secret@),
        r@.len() == 32,
{
    let bytes: [u8; 32] = secret.try_into().unwrap();
    let key = ed25519_dalek::SigningKey::from_bytes(&bytes);
    key.verifying_key().to_bytes().to_vec()
}

/// What `str::to_lowercase` returns, named: it depends on the
/// characters alone.
pub uninterp spec fn spec_lowercase(s: Seq<char>) -> Seq<char>;

/// Relies on `str::to_lowercase`: the result depends on the characters
/// alone.
#[verifier::external_body]
fn to_lowercase(s: &str) -> (r: String)
    ensures
        r@ == spec_lowercase(s@),
{
    s.to_lowercase()
}

/// Relies on `rand::rngs::OsRng` (`RngCore::fill_bytes`): 32 bytes
/// from the operating system's randomness; nothing is promised of
/// their values.
#[verifier::external_body]
fn random_entropy_32() -> (r: Vec<u8>)
    ensures
        r@.len() == 32,
{
    let mut bytes = vec![0u8; 32];
    rand::RngCore::fill_bytes(&mut rand::rngs::OsRng, &mut bytes);
    bytes
}

/// The wallet-address suffix of a public key rendered as text: the
/// first twenty bytes of its SHA-256 digest, in lowercase hex.
pub open spec fn spec_address_of(pk_text: Seq<char>) -> Seq<char> {
    spec_hex_of(spec_sha256(encode_utf8(pk_text)).take(20))
}

/// Derive the address suffix of `public_key`: hash its text, keep the
/// first twenty digest bytes, render them in hex.
pub fn generate_address(public_key: &str) -> (r: String)
    ensures
        r@ == spec_address_of(public_key@),
{
    let digest = sha256_digest(public_key.as_bytes());
    let first = slice_subrange(digest.as_slice(), 0, 20);
    let r = hex_encode(first);
    proof {
        assert(first@ =~= spec_sha256(encode_utf8(public_key@)).take(20));
    }
    r
}

/// The three derived strings of one key pair agree with one mnemonic:
/// the public key is the hex of the Ed25519 key of the seed's first
/// half, the private key is the hex of that half itself, and the
/// address is the lowercased prefix followed by the public key text's
/// hashed suffix.
pub open spec fn spec_key_pair(
    words: Seq<char>,
    prefix: Seq<char>,
    public_key: Seq<char>,
    private_key: Seq<char>,
    address: Seq<char>,
) -> bool {
    let secret = spec_seed_of_words(words).take(32);
    &&& public_key == spec_hex_of(spec_ed25519_public_key(secret))
    &&& private_key == spec_hex_of(secret)
    &&& address == spec_lowercase(prefix) + spec_address_of(public_key)
}

/// Recover the key pair and address of a known mnemonic phrase:
/// `(public key, private key, address)`. `None` when the phrase is not
/// a valid English mnemonic.
pub fn generate_key_pair_from_mnemonic(mnemonic_phrase: &str, prefix: &str) -> (r: Option<
    (String, String, String),
>)
    ensures
        r matches Some((pk, sk, addr)) ==> spec_key_pair(
            mnemonic_phrase@,
            prefix@,
            pk@,
            sk@,
            addr@,
        ),
{
    let seed = match seed_from_mnemonic(mnemonic_phrase) {
        Some(s) => s,
        None => {
            return None;
        },
    };
    let secret = slice_subrange(seed.as_slice(), 0, 32);
    let pk_bytes = ed25519_public_key(secret);
    let public_key = hex_encode(pk_bytes.as_slice());
    let private_key = hex_encode(secret);
    let suffix = generate_address(public_key.as_str());
    let mut address = to_lowercase(prefix);
    address.append(suffix.as_str());
    proof {
        assert(secret@ =~= spec_seed_of_words(mnemonic_phrase@).take(32));
    }
    Some((public_key, private_key, address))
}

/// Generate a fresh key pair with a prefixed address: `(public key,
/// private key, mnemonic phrase, address)`, every part derived from 32
/// bytes of fresh entropy.
pub fn generate_key_pair_with_prefix(prefix: &str) -> (r: Option<(String, String, String, String)>)
    ensures
        r matches Some((pk, sk, words, addr)) ==> (exists|e: Seq<u8>|
            e.len() == 32 && words@ == spec_mnemonic_words(e)) && spec_key_pair(
            words@,
            prefix@,
            pk@,
            sk@,
            addr@,
        ),
{
    let entropy = random_entropy_32();
    let words = match mnemonic_from_entropy(entropy.as_slice()) {
        Some(w) => w,
        None => {
            return None;
        },
    };
    proof {
        assert(entropy@.len() == 32 && words@ == spec_mnemonic_words(entropy@));
    }
    match generate_key_pair_from_mnemonic(words.as_str(), prefix) {
        Some((pk, sk, addr)) => Some((pk, sk, words, addr)),
        None => None,
    }
}

} // verus!
