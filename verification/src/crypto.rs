use vstd::prelude::*;
use vstd::string::StrSliceExecFns;
use vstd::string::StringSliceAdditionalSpecFns;
use crate::types::{Address, OrderRecord};
use crate::wrappers::{keccak_of, keccak256_bytes};

verus! {

pub open spec fn pow256(e: nat) -> nat
    decreases e,
{
    if e == 0 {
        1
    } else {
        256 * pow256((e - 1) as nat)
    }
}

/// Byte `k` (counting from the least significant) of a 128-bit value.
pub open spec fn byte_at(x: u128, k: nat) -> u8 {
    ((x as int / pow256(k) as int) % 256) as u8
}

/// The 16-byte big-endian encoding of a 128-bit value.
pub open spec fn be16(x: u128) -> Seq<u8> {
    Seq::new(16, |i: int| byte_at(x, (15 - i) as nat))
}

/// A 32-byte ABI word, given as its high and low 128-bit halves.
pub open spec fn word(hi: u128, lo: u128) -> Seq<u8> {
    be16(hi) + be16(lo)
}

/// The word encoding of a 160-bit address: 12 zero bytes, then the address.
pub open spec fn addr_word(a: Address) -> Seq<u8> {
    word(a.hi as u128, a.lo)
}

/// The ABI encoding of the order record's fields, one 32-byte word each, in
/// the order of the typed-data type string.
pub open spec fn order_words(o: OrderRecord) -> Seq<u8> {
    word(0, o.salt as u128) + addr_word(o.maker) + addr_word(o.signer) + addr_word(o.taker) + word(
        o.token_id.hi,
        o.token_id.lo,
    ) + word(0, o.maker_amount) + word(0, o.taker_amount) + word(0, o.expiration as u128) + word(
        0,
        o.nonce as u128,
    ) + word(0, o.fee_rate_bps as u128) + word(0, o.side.as_u8_spec() as u128) + word(
        0,
        o.signature_type.as_u8_spec() as u128,
    )
}

/// The canonical typed-data signing digest of an order record, bound to the
/// protocol name and version, the chain id, and the verifying contract. This
/// binding is what prevents a signature from being replayed against another
/// contract, chain, or negative-risk pool.
pub open spec fn order_digest_spec(o: OrderRecord, chain_id: u64, contract: Address) -> Seq<u8> {
    let th_order = keccak_of(
        "Order(uint256 salt,address maker,address signer,address taker,uint256 tokenId,uint256 makerAmount,uint256 takerAmount,uint256 expiration,uint256 nonce,uint256 feeRateBps,uint8 side,uint8 signatureType)".spec_bytes(),
    );
    let th_domain = keccak_of(
        "EIP712Domain(string name,string version,uint256 chainId,address verifyingContract)".spec_bytes(),
    );
    let h_name = keccak_of("Polymarket CTF Exchange".spec_bytes());
    let h_version = keccak_of("1".spec_bytes());
    let domain_sep = keccak_of(
        th_domain + h_name + h_version + word(0, chain_id as u128) + addr_word(contract),
    );
    let struct_hash = keccak_of(th_order + order_words(o));
    keccak_of(seq![25u8, 1u8] + domain_sep + struct_hash)
}

proof fn lemma_pow256_positive(e: nat)
    ensures
        pow256(e) >= 1,
    decreases e,
{
    if e > 0 {
        lemma_pow256_positive((e - 1) as nat);
    }
}

/// Appends the 16-byte big-endian encoding of `x`.
fn push_be16(buf: &mut Vec<u8>, x: u128)
    ensures
        final(buf)@ == old(buf)@ + be16(x),
{
    let mut tmp: Vec<u8> = Vec::new();
    let mut y: u128 = x;
    let mut i: usize = 0;
    proof {
        assert(pow256(0) == 1);
        vstd::arithmetic::div_mod::lemma_div_basics(x as int);
    }
    while i < 16
        invariant
            i <= 16,
            tmp@.len() == i,
            y as int == x as int / pow256(i as nat) as int,
            forall|k: int| 0 <= k < i ==> tmp@[k] == byte_at(x, k as nat),
        decreases 16 - i,
    {
        proof {
            let e = i as nat;
            lemma_pow256_positive(e);
            vstd::arithmetic::div_mod::lemma_div_denominator(x as int, pow256(e) as int, 256);
            assert(pow256(e) * 256 == 256 * pow256(e)) by (nonlinear_arith);
            assert(256 * pow256(e) == pow256(e + 1));
        }
        tmp.push((y % 256) as u8);
        y = y / 256;
        i = i + 1;
    }
    let mut j: usize = 0;
    proof {
        assert(buf@ + be16(x).take(0) =~= buf@);
    }
    while j < 16
        invariant
            j <= 16,
            tmp@.len() == 16,
            forall|k: int| 0 <= k < 16 ==> tmp@[k] == byte_at(x, k as nat),
            buf@ == old(buf)@ + be16(x).take(j as int),
        decreases 16 - j,
    {
        buf.push(tmp[15 - j]);
        proof {
            assert(be16(x)[j as int] == byte_at(x, (15 - j) as nat));
            assert(old(buf)@ + be16(x).take(j as int) + seq![byte_at(x, (15 - j) as nat)]
                =~= old(buf)@ + be16(x).take(j + 1));
        }
        j = j + 1;
    }
    proof {
        assert(be16(x).take(16) =~= be16(x));
    }
}

/// Appends one 32-byte ABI word given as two 128-bit halves.
fn push_word(buf: &mut Vec<u8>, hi: u128, lo: u128)
    ensures
        final(buf)@ == old(buf)@ + word(hi, lo),
{
    push_be16(buf, hi);
    push_be16(buf, lo);
    proof {
        assert(old(buf)@ + be16(hi) + be16(lo) =~= old(buf)@ + word(hi, lo));
    }
}

/// Appends a whole byte string.
fn push_bytes(buf: &mut Vec<u8>, src: &Vec<u8>)
    ensures
        final(buf)@ == old(buf)@ + src@,
{
    let mut i: usize = 0;
    proof {
        assert(buf@ =~= old(buf)@ + src@.take(0));
    }
    while i < src.len()
        invariant
            i <= src@.len(),
            buf@ == old(buf)@ + src@.take(i as int),
        decreases src@.len() - i,
    {
        buf.push(src[i]);
        proof {
            assert(old(buf)@ + src@.take(i as int) + seq![src@[i as int]] =~= old(buf)@ + src@.take(
                i + 1,
            ));
        }
        i = i + 1;
    }
    proof {
        assert(src@.take(src@.len() as int) =~= src@);
    }
}

/// The typed-data encoding of an order: the type hash followed by each field
/// as one 32-byte word.
fn encode_order(o: &OrderRecord, type_hash: &Vec<u8>) -> (r: Vec<u8>)
    ensures
        r@ == type_hash@ + order_words(*o),
{
    let mut buf: Vec<u8> = Vec::new();
    proof {
        assert(buf@ =~= Seq::<u8>::empty());
    }
    push_bytes(&mut buf, type_hash);
    push_word(&mut buf, 0, o.salt as u128);
    push_word(&mut buf, o.maker.hi as u128, o.maker.lo);
    push_word(&mut buf, o.signer.hi as u128, o.signer.lo);
    push_word(&mut buf, o.taker.hi as u128, o.taker.lo);
    push_word(&mut buf, o.token_id.hi, o.token_id.lo);
    push_word(&mut buf, 0, o.maker_amount);
    push_word(&mut buf, 0, o.taker_amount);
    push_word(&mut buf, 0, o.expiration as u128);
    push_word(&mut buf, 0, o.nonce as u128);
    push_word(&mut buf, 0, o.fee_rate_bps as u128);
    push_word(&mut buf, 0, o.side.as_u8() as u128);
    push_word(&mut buf, 0, o.signature_type.as_u8() as u128);
    proof {
        assert(buf@ =~= type_hash@ + order_words(*o));
    }
    buf
}

/// The typed-data encoding of the signing domain: domain type hash, hashed
/// protocol name, hashed version, chain id word, verifying contract word.
fn encode_domain(
    domain_type_hash: &Vec<u8>,
    name_hash: &Vec<u8>,
    version_hash: &Vec<u8>,
    chain_id: u64,
    contract: Address,
) -> (r: Vec<u8>)
    ensures
        r@ == domain_type_hash@ + name_hash@ + version_hash@ + word(0, chain_id as u128)
            + addr_word(contract),
{
    let mut buf: Vec<u8> = Vec::new();
    proof {
        assert(buf@ =~= Seq::<u8>::empty());
    }
    push_bytes(&mut buf, domain_type_hash);
    push_bytes(&mut buf, name_hash);
    push_bytes(&mut buf, version_hash);
    push_word(&mut buf, 0, chain_id as u128);
    push_word(&mut buf, contract.hi as u128, contract.lo);
    proof {
        assert(buf@ =~= domain_type_hash@ + name_hash@ + version_hash@ + word(0, chain_id as u128)
            + addr_word(contract));
    }
    buf
}

/// Computes the canonical typed-data signing digest of an order record under
/// the protocol's domain. Recomputed per order: the digest depends on the
/// chain id and the (negative-risk-dependent) verifying contract.
pub fn order_signing_digest(o: &OrderRecord, chain_id: u64, contract: Address) -> (r: Vec<u8>)
    ensures
        r@ == order_digest_spec(*o, chain_id, contract),
        r@.len() == 32,
{
    let order_type: Vec<u8> =
        "Order(uint256 salt,address maker,address signer,address taker,uint256 tokenId,uint256 makerAmount,uint256 takerAmount,uint256 expiration,uint256 nonce,uint256 feeRateBps,uint8 side,uint8 signatureType)".as_bytes_vec();
    let domain_type: Vec<u8> =
        "EIP712Domain(string name,string version,uint256 chainId,address verifyingContract)".as_bytes_vec();
    let name: Vec<u8> = "Polymarket CTF Exchange".as_bytes_vec();
    let version: Vec<u8> = "1".as_bytes_vec();
    let th_order = keccak256_bytes(&order_type);
    let th_domain = keccak256_bytes(&domain_type);
    let h_name = keccak256_bytes(&name);
    let h_version = keccak256_bytes(&version);
    let domain_enc = encode_domain(&th_domain, &h_name, &h_version, chain_id, contract);
    let domain_sep = keccak256_bytes(&domain_enc);
    let struct_enc = encode_order(o, &th_order);
    let struct_hash = keccak256_bytes(&struct_enc);
    let mut input: Vec<u8> = Vec::new();
    input.push(25);
    input.push(1);
    push_bytes(&mut input, &domain_sep);
    push_bytes(&mut input, &struct_hash);
    proof {
        assert(input@ =~= seq![25u8, 1u8] + domain_sep@ + struct_hash@);
    }
    keccak256_bytes(&input)
}

/// The verifying exchange contract for a chain and negative-risk flag, or
/// `None` for an unmapped pair. Only Polygon mainnet is mapped: the standard
/// exchange and the negative-risk exchange deployments.
pub open spec fn contract_config_spec(chain_id: u64, neg_risk: bool) -> Option<Address> {
    if chain_id == 137 && !neg_risk {
        Some(Address { hi: 0x4bFb41d5, lo: 0xB3570DeFd03C39a9A4D8dE6Bd8B8982E })
    } else if chain_id == 137 && neg_risk {
        Some(Address { hi: 0xC5d563A3, lo: 0x6AE78145C45a50134d48A1215220f80a })
    } else {
        None
    }
}

pub fn contract_config(chain_id: u64, neg_risk: bool) -> (r: Option<Address>)
    ensures
        r == contract_config_spec(chain_id, neg_risk),
{
    if chain_id == 137 {
        if neg_risk {
            Some(Address { hi: 0xC5d563A3, lo: 0x6AE78145C45a50134d48A1215220f80a })
        } else {
            Some(Address { hi: 0x4bFb41d5, lo: 0xB3570DeFd03C39a9A4D8dE6Bd8B8982E })
        }
    } else {
        None
    }
}

} // verus!
