use vstd::prelude::*;
use alloy::signers::SignerSync;
use crate::types::Address;

verus! {

/// The keccak-256 digest of a byte string: a pure function of its input,
/// computed by the outside hash implementation and never restated here.
pub uninterp spec fn keccak_of(data: Seq<u8>) -> Seq<u8>;

/// Relies on alloy's `keccak256`: the digest is 32 bytes and depends on the
/// input bytes alone.
#[verifier::external_body]
pub fn keccak256_bytes(data: &Vec<u8>) -> (r: Vec<u8>)
    ensures
        r@ == keccak_of(data@),
        r@.len() == 32,
{
    alloy::primitives::keccak256(data.as_slice()).as_slice().to_vec()
}

/// The wallet's signing capability: an alloy local private-key signer held
/// opaquely. Verus sees nothing inside; every use goes through the trusted
/// wrappers below.
#[verifier::external_body]
pub struct WalletSigner {
    inner: alloy::signers::local::PrivateKeySigner,
}

/// Whether a string is a well-formed hex private key: a deterministic
/// function of the string, decided by the outside parser and never restated
/// here.
pub uninterp spec fn key_ok(key: Seq<char>) -> bool;

/// Relies on alloy's `PrivateKeySigner::from_str`: hex-decodes the key and
/// builds the signer; which strings parse depends on the characters alone.
#[verifier::external_body]
pub fn parse_private_key(key: &str) -> (r: Option<WalletSigner>)
    ensures
        r is Some <==> key_ok(key@),
{
    <alloy::signers::local::PrivateKeySigner as core::str::FromStr>::from_str(key).ok().map(
        |inner| WalletSigner { inner },
    )
}

/// Relies on alloy's `LocalSigner::address`: returns the signer's 20-byte
/// account address, converted to this crate's split representation.
#[verifier::external_body]
pub fn signer_address(signer: &WalletSigner) -> (r: Address)
{
    let bytes = signer.inner.address().0;
    let mut hi4 = [0u8; 4];
    hi4.copy_from_slice(&bytes[0..4]);
    let mut lo16 = [0u8; 16];
    lo16.copy_from_slice(&bytes[4..20]);
    Address { hi: u32::from_be_bytes(hi4), lo: u128::from_be_bytes(lo16) }
}

/// Relies on alloy's `SignerSync::sign_hash_sync` for a local key: signs a
/// 32-byte digest, returning the 65-byte (r, s, v) encoding on success. The
/// signature depends on the opaque key, so only its length is stated.
#[verifier::external_body]
pub fn sign_digest(
    signer: &WalletSigner,
    digest: &Vec<u8>,
) -> (r: Option<Vec<u8>>)
    requires
        digest@.len() == 32,
    ensures
        r matches Some(sig) ==> sig@.len() == 65,
{
    let hash = alloy::primitives::B256::from_slice(digest.as_slice());
    signer.inner.sign_hash_sync(&hash).ok().map(|sig| sig.as_bytes().to_vec())
}

/// Relies on chrono's `Utc::now().timestamp()`: the current unix second.
/// The clock's reading is outside this crate's control, so nothing is
/// promised of the value.
#[verifier::external_body]
pub fn now_unix() -> (r: i64)
{
    chrono::Utc::now().timestamp()
}

/// Whether a string parses as a URL: a deterministic function of the string,
/// decided by the outside parser and never restated here.
pub uninterp spec fn url_ok(host: Seq<char>) -> bool;

/// Relies on url's `Url::parse`: whether the configured host is a parseable
/// URL; which strings parse depends on the characters alone.
#[verifier::external_body]
pub fn host_is_valid(host: &str) -> (r: bool)
    ensures
        r == url_ok(host@),
{
    url::Url::parse(host).is_ok()
}

} // verus!
