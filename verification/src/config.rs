use vstd::prelude::*;
use vstd::string::{StrSliceExecFns, StringExecFns};
use crate::error::{dec_str, push_decimal_value, Error};
use crate::policy::HotPathPolicies;
use crate::types::{
    parse_signature_type_spec, trim_lead, trim_trail, Address, SignatureType, SignatureTypeInput,
};
use crate::wrappers::{host_is_valid, url_ok};

verus! {

/// The single supported chain selector: Polygon mainnet.
pub const POLYGON: u64 = 137;

/// Raw signing values typically passed from app-level bot config.
#[derive(Clone, Debug)]
pub struct RawHotPathSigningConfig {
    pub private_key: String,
    pub signature_type: String,
    pub funder: String,
}

/// Hot-path bootstrap configuration. Immutable after construction; `new`
/// rejects every unacceptable combination up front.
#[derive(Clone, Debug)]
pub struct HotPathConfig {
    pub host: String,
    pub chain_id: u64,
    pub private_key: String,
    pub signature_type: SignatureType,
    pub funder: Address,
    pub nonce: Option<u32>,
    pub policies: HotPathPolicies,
}

/// When a configuration is acceptable: the one supported chain, a proxy-class
/// signature mode, a non-zero funder, and fully fixed policies.
pub open spec fn config_acceptable(
    chain_id: u64,
    signature_type: SignatureType,
    funder: Address,
    policies: HotPathPolicies,
) -> bool {
    chain_id == POLYGON && !(signature_type is Eoa) && funder != Address::zero_spec()
        && policies.all_fixed()
}

/// The message of the first violated configuration rule, or `None` when the
/// configuration is accepted: unsupported chain (naming the chain id), EOA
/// signature mode, zero funder, then the first unresolvable policy slot.
pub open spec fn config_error_message(
    chain_id: u64,
    signature_type: SignatureType,
    funder: Address,
    policies: HotPathPolicies,
) -> Option<Seq<char>> {
    if chain_id != POLYGON {
        Some("hotpath currently supports Polygon only, got chain_id="@ + dec_str(chain_id as nat))
    } else if signature_type is Eoa {
        Some("hotpath config expects proxy signatures (Proxy/GnosisSafe), got Eoa"@)
    } else if funder == Address::zero_spec() {
        Some("hotpath config requires non-zero funder for proxy signatures"@)
    } else {
        policies.policies_error_message()
    }
}

/// EOA signature mode is rejected at configuration time whatever the other
/// fields hold — in particular for every non-zero funder.
pub proof fn lemma_eoa_always_rejected(chain_id: u64, funder: Address, policies: HotPathPolicies)
    ensures
        !config_acceptable(chain_id, SignatureType::Eoa, funder, policies),
{
}

pub open spec fn is_hex_digit(c: char) -> bool {
    ('0' <= c && c <= '9') || ('a' <= c && c <= 'f') || ('A' <= c && c <= 'F')
}

pub open spec fn hex_val(c: char) -> u8 {
    match c {
        '0' => 0,
        '1' => 1,
        '2' => 2,
        '3' => 3,
        '4' => 4,
        '5' => 5,
        '6' => 6,
        '7' => 7,
        '8' => 8,
        '9' => 9,
        'a' => 10,
        'b' => 11,
        'c' => 12,
        'd' => 13,
        'e' => 14,
        'f' => 15,
        'A' => 10,
        'B' => 11,
        'C' => 12,
        'D' => 13,
        'E' => 14,
        'F' => 15,
        _ => 0,
    }
}

/// The digits of a hex literal, with an optional `0x` / `0X` prefix stripped.
pub open spec fn hex_digits(s: Seq<char>) -> Seq<char> {
    if s.len() >= 2 && s[0] == '0' && (s[1] == 'x' || s[1] == 'X') {
        s.skip(2)
    } else {
        s
    }
}

/// A well-formed 20-byte address literal: exactly 40 hex digits.
pub open spec fn valid_hex_address(s: Seq<char>) -> bool {
    let d = hex_digits(s);
    d.len() == 40 && (forall|i: int| 0 <= i < 40 ==> is_hex_digit(d[i]))
}

/// The number written by a big-endian string of hex digits.
pub open spec fn hex_fold(d: Seq<char>) -> nat
    decreases d.len(),
{
    if d.len() == 0 {
        0
    } else {
        (16 * hex_fold(d.drop_last()) + hex_val(d.last())) as nat
    }
}

/// The address written by a hex literal: the first eight digits are the high
/// half, the remaining thirty-two the low half. Meaningful when the literal
/// is a well-formed address.
pub open spec fn parsed_funder(s: Seq<char>) -> Address {
    Address {
        hi: hex_fold(hex_digits(s).take(8)) as u32,
        lo: hex_fold(hex_digits(s).skip(8)) as u128,
    }
}

pub open spec fn pow16(e: nat) -> nat
    decreases e,
{
    if e == 0 {
        1
    } else {
        16 * pow16((e - 1) as nat)
    }
}

proof fn lemma_pow16_monotone(a: nat, b: nat)
    requires
        a <= b,
    ensures
        pow16(a) <= pow16(b),
        pow16(a) >= 1,
    decreases b,
{
    if b == 0 {
    } else if a == b {
        lemma_pow16_monotone((a - 1) as nat, (b - 1) as nat);
    } else {
        lemma_pow16_monotone(a, (b - 1) as nat);
    }
}

proof fn lemma_pow16_values()
    ensures
        pow16(8) == 0x1_0000_0000,
        pow16(32) == 0x1_0000_0000_0000_0000_0000_0000_0000_0000,
{
    reveal_with_fuel(pow16, 34);
}

proof fn lemma_hex_fold_bound(d: Seq<char>)
    requires
        forall|k: int| 0 <= k < d.len() ==> is_hex_digit(d[k]),
    ensures
        hex_fold(d) < pow16(d.len()),
    decreases d.len(),
{
    if d.len() == 0 {
    } else {
        assert(forall|k: int|
            0 <= k < d.drop_last().len() ==> is_hex_digit(#[trigger] d.drop_last()[k]));
        lemma_hex_fold_bound(d.drop_last());
        assert(is_hex_digit(d.last()));
        assert(hex_val(d.last()) < 16);
    }
}

fn hex_digit_value(c: char) -> (r: Option<u8>)
    ensures
        r is Some <==> is_hex_digit(c),
        r matches Some(v) ==> v == hex_val(c) && v < 16,
{
    match c {
        '0' => Some(0),
        '1' => Some(1),
        '2' => Some(2),
        '3' => Some(3),
        '4' => Some(4),
        '5' => Some(5),
        '6' => Some(6),
        '7' => Some(7),
        '8' => Some(8),
        '9' => Some(9),
        'a' => Some(10),
        'b' => Some(11),
        'c' => Some(12),
        'd' => Some(13),
        'e' => Some(14),
        'f' => Some(15),
        'A' => Some(10),
        'B' => Some(11),
        'C' => Some(12),
        'D' => Some(13),
        'E' => Some(14),
        'F' => Some(15),
        _ => None,
    }
}

/// Parses a 20-byte on-chain address from its hex literal (optionally
/// `0x`-prefixed), exactly 40 digits.
pub fn parse_address(s: &str) -> (r: Result<Address, Error>)
    ensures
        r is Ok <==> valid_hex_address(s@),
        r matches Ok(a) ==> a == parsed_funder(s@),
        r matches Err(e) ==> e is Validation && e.message_spec() == "invalid funder address"@,
{
    let n: usize = s.unicode_len();
    let off: usize = if n >= 2 && s.get_char(0) == '0' && (s.get_char(1) == 'x' || s.get_char(1)
        == 'X') {
        2
    } else {
        0
    };
    proof {
        assert(hex_digits(s@) =~= s@.skip(off as int));
    }
    if n - off != 40 {
        return Err(Error::validation("invalid funder address"));
    }
    let ghost d = hex_digits(s@);
    let mut hi: u32 = 0;
    let mut i: usize = 0;
    proof {
        assert(d.take(0) =~= Seq::<char>::empty());
        assert(pow16(0) == 1);
    }
    while i < 8
        invariant
            i <= 8,
            off + 40 == n,
            n == s@.len(),
            d == hex_digits(s@),
            d =~= s@.skip(off as int),
            d.len() == 40,
            hi == hex_fold(d.take(i as int)),
            hi < pow16(i as nat),
            forall|k: int| 0 <= k < i ==> is_hex_digit(d[k]),
        decreases 8 - i,
    {
        let c = s.get_char(off + i);
        proof {
            assert(d[i as int] == s@[off + i]);
            assert(d.take(i + 1).drop_last() =~= d.take(i as int));
            assert(d.take(i + 1).last() == d[i as int]);
            lemma_pow16_values();
            lemma_pow16_monotone((i + 1) as nat, 8);
        }
        let v = match hex_digit_value(c) {
            Some(v) => v,
            None => {
                proof {
                    assert(!is_hex_digit(d[i as int]));
                }
                return Err(Error::validation("invalid funder address"));
            },
        };
        hi = hi * 16 + (v as u32);
        i = i + 1;
    }
    let mut lo: u128 = 0;
    let mut j: usize = 0;
    proof {
        assert(d.subrange(8, 8) =~= Seq::<char>::empty());
    }
    while j < 32
        invariant
            j <= 32,
            off + 40 == n,
            n == s@.len(),
            d == hex_digits(s@),
            d =~= s@.skip(off as int),
            d.len() == 40,
            lo == hex_fold(d.subrange(8, 8 + j as int)),
            lo < pow16(j as nat),
            forall|k: int| 0 <= k < 8 ==> is_hex_digit(d[k]),
            forall|k: int| 8 <= k < 8 + j ==> is_hex_digit(d[k]),
            hi == hex_fold(d.take(8)),
        decreases 32 - j,
    {
        let c = s.get_char(off + 8 + j);
        proof {
            assert(d[8 + j as int] == s@[off + 8 + j]);
            assert(d.subrange(8, 8 + (j + 1)).drop_last() =~= d.subrange(8, 8 + j as int));
            assert(d.subrange(8, 8 + (j + 1)).last() == d[8 + j as int]);
            lemma_pow16_values();
            lemma_pow16_monotone((j + 1) as nat, 32);
        }
        let v = match hex_digit_value(c) {
            Some(v) => v,
            None => {
                proof {
                    assert(!is_hex_digit(d[8 + j as int]));
                }
                return Err(Error::validation("invalid funder address"));
            },
        };
        lo = lo * 16 + (v as u128);
        j = j + 1;
    }
    proof {
        assert(d.subrange(8, 40) =~= d.skip(8));
        assert(valid_hex_address(s@));
        lemma_pow16_values();
    }
    Ok(Address { hi, lo })
}

impl HotPathConfig {
    /// Validates and freezes a configuration: exactly one supported chain,
    /// proxy-class signatures with a non-zero funder, and fixed policies.
    pub fn new(
        host: String,
        chain_id: u64,
        private_key: String,
        signature_type: SignatureType,
        funder: Address,
        nonce: Option<u32>,
        policies: HotPathPolicies,
    ) -> (r: Result<HotPathConfig, Error>)
        ensures
            r is Ok <==> config_acceptable(chain_id, signature_type, funder, policies),
            r matches Ok(c) ==> c == (HotPathConfig {
                host,
                chain_id,
                private_key,
                signature_type,
                funder,
                nonce,
                policies,
            }),
            r matches Err(e) ==> e is Validation && config_error_message(
                chain_id,
                signature_type,
                funder,
                policies,
            ) == Some(e.message_spec()),
    {
        if chain_id != POLYGON {
            let mut m = String::from_str("hotpath currently supports Polygon only, got chain_id=");
            push_decimal_value(&mut m, chain_id as u128);
            proof {
                assert(m@ =~= "hotpath currently supports Polygon only, got chain_id="@ + dec_str(
                    chain_id as nat,
                ));
            }
            return Err(Error::Validation(m));
        }
        if matches!(signature_type, SignatureType::Eoa) {
            return Err(
                Error::validation(
                    "hotpath config expects proxy signatures (Proxy/GnosisSafe), got Eoa",
                ),
            );
        }
        if funder.is_zero() {
            return Err(
                Error::validation("hotpath config requires non-zero funder for proxy signatures"),
            );
        }
        match policies.validate() {
            Ok(_) => (),
            Err(e) => {
                return Err(e);
            },
        }
        Ok(
            HotPathConfig {
                host,
                chain_id,
                private_key,
                signature_type,
                funder,
                nonce,
                policies,
            },
        )
    }

    /// Builds a configuration from raw app-level strings: the host must be a
    /// parseable URL, the signature type a recognised token, and the funder a
    /// hex address; the parsed values must then form an acceptable
    /// configuration. Nonce starts unset.
    pub fn from_raw(
        host: &str,
        chain_id: u64,
        raw: RawHotPathSigningConfig,
        policies: HotPathPolicies,
    ) -> (r: Result<HotPathConfig, Error>)
        ensures
            r is Ok <==> (url_ok(host@) && valid_hex_address(raw.funder@) && (
            parse_signature_type_spec(raw.signature_type@) matches Some(t) && config_acceptable(
                chain_id,
                t.into_signature_type_spec(),
                parsed_funder(raw.funder@),
                policies,
            ))),
            r matches Ok(c) ==> {
                &&& c.host@ == host@
                &&& c.chain_id == chain_id
                &&& c.private_key == raw.private_key
                &&& c.nonce is None
                &&& c.policies == policies
                &&& parse_signature_type_spec(raw.signature_type@) matches Some(t)
                    && c.signature_type == t.into_signature_type_spec()
                &&& c.funder == parsed_funder(raw.funder@)
            },
            r matches Err(e) ==> e is Validation,
            !url_ok(host@) ==> (r matches Err(e) && e.message_spec() == "invalid host URL"@),
            url_ok(host@) && parse_signature_type_spec(raw.signature_type@) is None ==> (
            r matches Err(e) && e.message_spec() == "invalid signature_type `"@ + trim_trail(
                trim_lead(raw.signature_type@),
            ) + "`; expected one of: eoa|proxy|gnosis"@),
            url_ok(host@) && parse_signature_type_spec(raw.signature_type@) is Some
                && !valid_hex_address(raw.funder@) ==> (r matches Err(e) && e.message_spec()
                == "invalid funder address"@),
    {
        if !host_is_valid(host) {
            return Err(Error::validation("invalid host URL"));
        }
        let signature_type = match SignatureTypeInput::parse(raw.signature_type.as_str()) {
            Ok(inp) => inp.into_signature_type(),
            Err(e) => {
                return Err(e);
            },
        };
        let funder = match parse_address(raw.funder.as_str()) {
            Ok(a) => a,
            Err(e) => {
                return Err(e);
            },
        };
        let host_string = host.to_owned();
        HotPathConfig::new(
            host_string,
            chain_id,
            raw.private_key,
            signature_type,
            funder,
            None,
            policies,
        )
    }
}

} // verus!
