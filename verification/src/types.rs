use vstd::prelude::*;
use crate::decimal::Dec;
use crate::error::Error;
use vstd::string::{StrSliceExecFns, StringExecFns};

verus! {

/// A 160-bit on-chain account address, split into a high 32-bit and a low
/// 128-bit half (big-endian order). The unverified edge converts the caller's
/// 20-byte address into this form and back.
#[derive(Clone, Copy, Debug, PartialEq, Eq, Structural)]
pub struct Address {
    pub hi: u32,
    pub lo: u128,
}

impl Address {
    pub open spec fn zero_spec() -> Address {
        Address { hi: 0, lo: 0 }
    }

    pub fn zero() -> (r: Address)
        ensures
            r == Address::zero_spec(),
    {
        Address { hi: 0, lo: 0 }
    }

    pub fn is_zero(&self) -> (r: bool)
        ensures
            r == (*self == Address::zero_spec()),
    {
        self.hi == 0 && self.lo == 0
    }
}

/// A 256-bit instrument token identifier, split into two 128-bit halves
/// (big-endian order). Carried through the pipeline untouched.
#[derive(Clone, Copy, Debug, PartialEq, Eq, Structural)]
pub struct TokenId {
    pub hi: u128,
    pub lo: u128,
}

#[derive(Clone, Copy, Debug, PartialEq, Eq, Structural)]
pub enum Side {
    Buy,
    Sell,
}

impl Side {
    pub open spec fn as_u8_spec(self) -> u8 {
        match self {
            Side::Buy => 0,
            Side::Sell => 1,
        }
    }

    pub fn as_u8(&self) -> (r: u8)
        ensures
            r == self.as_u8_spec(),
    {
        match self {
            Side::Buy => 0,
            Side::Sell => 1,
        }
    }
}

/// Order lifetime: good-till-cancelled, good-till-date, fill-or-kill,
/// fill-and-kill.
#[derive(Clone, Copy, Debug, PartialEq, Eq, Structural)]
pub enum OrderType {
    GTC,
    GTD,
    FOK,
    FAK,
}

#[derive(Clone, Copy, Debug, PartialEq, Eq, Structural)]
pub enum SignatureType {
    Eoa,
    Proxy,
    GnosisSafe,
}

impl SignatureType {
    pub open spec fn as_u8_spec(self) -> u8 {
        match self {
            SignatureType::Eoa => 0,
            SignatureType::Proxy => 1,
            SignatureType::GnosisSafe => 2,
        }
    }

    pub fn as_u8(&self) -> (r: u8)
        ensures
            r == self.as_u8_spec(),
    {
        match self {
            SignatureType::Eoa => 0,
            SignatureType::Proxy => 1,
            SignatureType::GnosisSafe => 2,
        }
    }
}

/// The minimum price increment of an instrument; it also fixes the decimal
/// precision of valid prices.
#[derive(Clone, Copy, Debug, PartialEq, Eq, Structural)]
pub enum TickSize {
    Tenth,
    Hundredth,
    Thousandth,
    TenThousandth,
}

impl TickSize {
    /// The number of fractional digits of the tick: the tick is 10^-decimals.
    pub open spec fn decimals_spec(self) -> u32 {
        match self {
            TickSize::Tenth => 1,
            TickSize::Hundredth => 2,
            TickSize::Thousandth => 3,
            TickSize::TenThousandth => 4,
        }
    }

    pub fn decimals(&self) -> (r: u32)
        ensures
            r == self.decimals_spec(),
    {
        match self {
            TickSize::Tenth => 1,
            TickSize::Hundredth => 2,
            TickSize::Thousandth => 3,
            TickSize::TenThousandth => 4,
        }
    }

    pub fn as_decimal(&self) -> (d: Dec)
        ensures
            d == (Dec { negative: false, mantissa: 1, scale: self.decimals_spec() }),
            d.wf(),
    {
        Dec { negative: false, mantissa: 1, scale: self.decimals() }
    }
}

/// API credentials issued by the exchange, scoped to one wallet.
#[derive(Clone, Debug, PartialEq, Eq)]
pub struct Credentials {
    pub key: String,
    pub secret: String,
    pub passphrase: String,
}

impl Credentials {
    pub fn key(&self) -> (r: &String)
        ensures
            r == &self.key,
    {
        &self.key
    }
}

/// The whitespace characters the parser strips, the character set of
/// `char::is_whitespace`.
pub open spec fn is_space_char(c: char) -> bool {
    c == ' ' || c == '\t' || c == '\n' || c == '\u{B}' || c == '\u{C}' || c == '\r' || c
        == '\u{85}' || c == '\u{A0}' || c == '\u{1680}' || c == '\u{2000}' || c == '\u{2001}' || c
        == '\u{2002}' || c == '\u{2003}' || c == '\u{2004}' || c == '\u{2005}' || c == '\u{2006}'
        || c == '\u{2007}' || c == '\u{2008}' || c == '\u{2009}' || c == '\u{200A}' || c
        == '\u{2028}' || c == '\u{2029}' || c == '\u{202F}' || c == '\u{205F}' || c == '\u{3000}'
}

/// ASCII letters folded to lower case; every other character unchanged.
pub open spec fn lower_char(c: char) -> char {
    match c {
        'A' => 'a',
        'B' => 'b',
        'C' => 'c',
        'D' => 'd',
        'E' => 'e',
        'F' => 'f',
        'G' => 'g',
        'H' => 'h',
        'I' => 'i',
        'J' => 'j',
        'K' => 'k',
        'L' => 'l',
        'M' => 'm',
        'N' => 'n',
        'O' => 'o',
        'P' => 'p',
        'Q' => 'q',
        'R' => 'r',
        'S' => 's',
        'T' => 't',
        'U' => 'u',
        'V' => 'v',
        'W' => 'w',
        'X' => 'x',
        'Y' => 'y',
        'Z' => 'z',
        _ => c,
    }
}

pub open spec fn trim_lead(s: Seq<char>) -> Seq<char>
    decreases s.len(),
{
    if s.len() == 0 {
        s
    } else if is_space_char(s[0]) {
        trim_lead(s.drop_first())
    } else {
        s
    }
}

pub open spec fn trim_trail(s: Seq<char>) -> Seq<char>
    decreases s.len(),
{
    if s.len() == 0 {
        s
    } else if is_space_char(s.last()) {
        trim_trail(s.drop_last())
    } else {
        s
    }
}

/// The canonical form a configuration token is matched in: surrounding
/// whitespace stripped, ASCII letters folded to lower case.
pub open spec fn canon_chars(s: Seq<char>) -> Seq<char> {
    trim_trail(trim_lead(s)).map(|i: int, c: char| lower_char(c))
}

/// Signature type parser for config-style string inputs.
#[derive(Clone, Copy, Debug, Eq, PartialEq, Structural)]
pub enum SignatureTypeInput {
    Eoa,
    Proxy,
    GnosisSafe,
}

pub open spec fn parse_signature_type_spec(s: Seq<char>) -> Option<SignatureTypeInput> {
    let c = canon_chars(s);
    if c == seq!['0'] || c == seq!['e', 'o', 'a'] {
        Some(SignatureTypeInput::Eoa)
    } else if c == seq!['1'] || c == seq!['p', 'r', 'o', 'x', 'y'] {
        Some(SignatureTypeInput::Proxy)
    } else if c == seq!['2'] || c == seq!['g', 'n', 'o', 's', 'i', 's'] || c == seq![
        'g',
        'n',
        'o',
        's',
        'i',
        's',
        '_',
        's',
        'a',
        'f',
        'e',
    ] || c == seq!['g', 'n', 'o', 's', 'i', 's', 's', 'a', 'f', 'e'] || c == seq![
        's',
        'a',
        'f',
        'e',
    ] {
        Some(SignatureTypeInput::GnosisSafe)
    } else {
        None
    }
}

proof fn lemma_trim_lead_is_subrange(s: Seq<char>, lo: int)
    requires
        0 <= lo <= s.len(),
        forall|k: int| 0 <= k < lo ==> is_space_char(s[k]),
        lo < s.len() ==> !is_space_char(s[lo]),
    ensures
        trim_lead(s) == s.subrange(lo, s.len() as int),
    decreases lo,
{
    if lo == 0 {
        assert(trim_lead(s) =~= s.subrange(0, s.len() as int));
    } else {
        let t = s.drop_first();
        assert(is_space_char(s[0]));
        lemma_trim_lead_is_subrange(t, lo - 1);
        assert(t.subrange(lo - 1, t.len() as int) =~= s.subrange(lo, s.len() as int));
    }
}

proof fn lemma_trim_trail_is_subrange(s: Seq<char>, hi: int)
    requires
        0 <= hi <= s.len(),
        forall|k: int| hi <= k < s.len() ==> is_space_char(s[k]),
        hi > 0 ==> !is_space_char(s[hi - 1]),
    ensures
        trim_trail(s) == s.subrange(0, hi),
    decreases s.len() - hi,
{
    if hi == s.len() {
        if s.len() == 0 {
            assert(trim_trail(s) =~= s.subrange(0, hi));
        } else {
            assert(!is_space_char(s.last()));
            assert(trim_trail(s) =~= s.subrange(0, hi));
        }
    } else {
        let t = s.drop_last();
        assert(is_space_char(s.last()));
        lemma_trim_trail_is_subrange(t, hi);
        assert(t.subrange(0, hi) =~= s.subrange(0, hi));
    }
}

fn is_space_exec(c: char) -> (r: bool)
    ensures
        r == is_space_char(c),
{
    c == ' ' || c == '\t' || c == '\n' || c == '\u{B}' || c == '\u{C}' || c == '\r' || c
        == '\u{85}' || c == '\u{A0}' || c == '\u{1680}' || c == '\u{2000}' || c == '\u{2001}' || c
        == '\u{2002}' || c == '\u{2003}' || c == '\u{2004}' || c == '\u{2005}' || c == '\u{2006}'
        || c == '\u{2007}' || c == '\u{2008}' || c == '\u{2009}' || c == '\u{200A}' || c
        == '\u{2028}' || c == '\u{2029}' || c == '\u{202F}' || c == '\u{205F}' || c == '\u{3000}'
}

fn lower_exec(c: char) -> (r: char)
    ensures
        r == lower_char(c),
{
    match c {
        'A' => 'a',
        'B' => 'b',
        'C' => 'c',
        'D' => 'd',
        'E' => 'e',
        'F' => 'f',
        'G' => 'g',
        'H' => 'h',
        'I' => 'i',
        'J' => 'j',
        'K' => 'k',
        'L' => 'l',
        'M' => 'm',
        'N' => 'n',
        'O' => 'o',
        'P' => 'p',
        'Q' => 'q',
        'R' => 'r',
        'S' => 's',
        'T' => 't',
        'U' => 'u',
        'V' => 'v',
        'W' => 'w',
        'X' => 'x',
        'Y' => 'y',
        'Z' => 'z',
        _ => c,
    }
}

/// Compares a character vector with a pattern.
fn chars_eq(a: &Vec<char>, pat: &Vec<char>) -> (r: bool)
    ensures
        r == (a@ == pat@),
{
    if a.len() != pat.len() {
        proof {
            assert(a@.len() != pat@.len());
        }
        return false;
    }
    let mut i: usize = 0;
    while i < a.len()
        invariant
            i <= a@.len(),
            a@.len() == pat@.len(),
            forall|k: int| 0 <= k < i ==> a@[k] == pat@[k],
        decreases a@.len() - i,
    {
        if a[i] != pat[i] {
            return false;
        }
        i = i + 1;
    }
    proof {
        assert(a@ =~= pat@);
    }
    true
}

impl SignatureTypeInput {
    /// Parses a config-style token, ignoring surrounding whitespace and ASCII
    /// letter case.
    pub fn parse(value: &str) -> (r: Result<SignatureTypeInput, Error>)
        ensures
            r matches Ok(v) ==> parse_signature_type_spec(value@) == Some(v),
            r is Err <==> parse_signature_type_spec(value@) is None,
            r matches Err(e) ==> e is Validation && e.message_spec()
                == "invalid signature_type `"@ + trim_trail(trim_lead(value@))
                + "`; expected one of: eoa|proxy|gnosis"@,
    {
        let n: usize = value.unicode_len();
        let mut lo: usize = 0;
        while lo < n && is_space_exec(value.get_char(lo))
            invariant
                lo <= n,
                n == value@.len(),
                forall|k: int| 0 <= k < lo ==> is_space_char(value@[k]),
            decreases n - lo,
        {
            lo = lo + 1;
        }
        let mut hi: usize = n;
        while hi > lo && is_space_exec(value.get_char(hi - 1))
            invariant
                lo <= hi <= n,
                n == value@.len(),
                forall|k: int| 0 <= k < lo ==> is_space_char(value@[k]),
                lo < n ==> !is_space_char(value@[lo as int]),
                forall|k: int| hi <= k < n ==> is_space_char(value@[k]),
            decreases hi,
        {
            hi = hi - 1;
        }
        let mut c: Vec<char> = Vec::new();
        let mut i: usize = lo;
        while i < hi
            invariant
                lo <= i <= hi <= n,
                n == value@.len(),
                c@ == value@.subrange(lo as int, i as int).map(|j: int, ch: char| lower_char(ch)),
            decreases hi - i,
        {
            let low = lower_exec(value.get_char(i));
            c.push(low);
            proof {
                assert(value@.subrange(lo as int, i + 1).map(|j: int, ch: char| lower_char(ch))
                    =~= value@.subrange(lo as int, i as int).map(
                    |j: int, ch: char| lower_char(ch),
                ).push(lower_char(value@[i as int])));
            }
            i = i + 1;
        }
        proof {
            assert(value@.subrange(lo as int, lo as int).map(|j: int, ch: char| lower_char(ch))
                =~= Seq::<char>::empty());
            lemma_trim_lead_is_subrange(value@, lo as int);
            let s1 = value@.subrange(lo as int, n as int);
            lemma_trim_trail_is_subrange(s1, hi - lo);
            assert(s1.subrange(0, hi - lo) =~= value@.subrange(lo as int, hi as int));
            assert(canon_chars(value@) == value@.subrange(lo as int, hi as int).map(
                |j: int, ch: char| lower_char(ch),
            ));
            assert(c@ == canon_chars(value@));
        }
        let p_zero: Vec<char> = vec!['0'];
        let p_eoa: Vec<char> = vec!['e', 'o', 'a'];
        let p_one: Vec<char> = vec!['1'];
        let p_proxy: Vec<char> = vec!['p', 'r', 'o', 'x', 'y'];
        let p_two: Vec<char> = vec!['2'];
        let p_gnosis: Vec<char> = vec!['g', 'n', 'o', 's', 'i', 's'];
        let p_gnosis_us: Vec<char> = vec!['g', 'n', 'o', 's', 'i', 's', '_', 's', 'a', 'f', 'e'];
        let p_gnosissafe: Vec<char> = vec!['g', 'n', 'o', 's', 'i', 's', 's', 'a', 'f', 'e'];
        let p_safe: Vec<char> = vec!['s', 'a', 'f', 'e'];
        proof {
            assert(p_zero@ =~= seq!['0']);
            assert(p_eoa@ =~= seq!['e', 'o', 'a']);
            assert(p_one@ =~= seq!['1']);
            assert(p_proxy@ =~= seq!['p', 'r', 'o', 'x', 'y']);
            assert(p_two@ =~= seq!['2']);
            assert(p_gnosis@ =~= seq!['g', 'n', 'o', 's', 'i', 's']);
            assert(p_gnosis_us@ =~= seq!['g', 'n', 'o', 's', 'i', 's', '_', 's', 'a', 'f', 'e']);
            assert(p_gnosissafe@ =~= seq!['g', 'n', 'o', 's', 'i', 's', 's', 'a', 'f', 'e']);
            assert(p_safe@ =~= seq!['s', 'a', 'f', 'e']);
        }
        if chars_eq(&c, &p_zero) || chars_eq(&c, &p_eoa) {
            Ok(SignatureTypeInput::Eoa)
        } else if chars_eq(&c, &p_one) || chars_eq(&c, &p_proxy) {
            Ok(SignatureTypeInput::Proxy)
        } else if chars_eq(&c, &p_two) || chars_eq(&c, &p_gnosis) || chars_eq(&c, &p_gnosis_us)
            || chars_eq(&c, &p_gnosissafe) || chars_eq(&c, &p_safe) {
            Ok(SignatureTypeInput::GnosisSafe)
        } else {
            let token: &str = value.substring_char(lo, hi);
            let mut m = String::from_str("invalid signature_type `");
            m.append(token);
            m.append("`; expected one of: eoa|proxy|gnosis");
            proof {
                assert(trim_trail(trim_lead(value@)) == value@.subrange(lo as int, hi as int));
                assert(m@ =~= "invalid signature_type `"@ + trim_trail(trim_lead(value@))
                    + "`; expected one of: eoa|proxy|gnosis"@);
            }
            Err(Error::Validation(m))
        }
    }

    pub fn into_signature_type(self) -> (r: SignatureType)
        ensures
            r == self.into_signature_type_spec(),
    {
        match self {
            SignatureTypeInput::Eoa => SignatureType::Eoa,
            SignatureTypeInput::Proxy => SignatureType::Proxy,
            SignatureTypeInput::GnosisSafe => SignatureType::GnosisSafe,
        }
    }

    pub open spec fn into_signature_type_spec(self) -> SignatureType {
        match self {
            SignatureTypeInput::Eoa => SignatureType::Eoa,
            SignatureTypeInput::Proxy => SignatureType::Proxy,
            SignatureTypeInput::GnosisSafe => SignatureType::GnosisSafe,
        }
    }
}

impl core::str::FromStr for SignatureTypeInput {
    type Err = Error;

    fn from_str(s: &str) -> Result<SignatureTypeInput, Error> {
        SignatureTypeInput::parse(s)
    }
}

/// Input values for a single limit order.
#[derive(Clone, Debug)]
pub struct LimitOrderRequest {
    pub token_id: TokenId,
    pub side: Side,
    pub price: Dec,
    pub size: Dec,
    pub nonce: Option<u64>,
    /// Expiration as unix seconds; `None` means no expiration.
    pub expiration: Option<i64>,
    pub taker: Option<Address>,
    pub order_type: Option<OrderType>,
    pub post_only: Option<bool>,
}

impl LimitOrderRequest {
    pub fn new(token_id: TokenId, side: Side, price: Dec, size: Dec) -> (r: LimitOrderRequest)
        ensures
            r == (LimitOrderRequest {
                token_id,
                side,
                price,
                size,
                nonce: None,
                expiration: None,
                taker: None,
                order_type: None,
                post_only: None,
            }),
    {
        LimitOrderRequest {
            token_id,
            side,
            price,
            size,
            nonce: None,
            expiration: None,
            taker: None,
            order_type: None,
            post_only: None,
        }
    }
}

/// Per-order overrides on top of fixed hot-path defaults.
#[derive(Clone, Copy, Debug, Default)]
pub struct LimitOrderOverrides {
    pub tick_size: Option<TickSize>,
    pub neg_risk: Option<bool>,
    pub fee_rate_bps: Option<u32>,
    pub timestamp: Option<i64>,
}

impl LimitOrderOverrides {
    pub fn with_tick_size(self, tick_size: TickSize) -> (r: LimitOrderOverrides)
        ensures
            r == (LimitOrderOverrides { tick_size: Some(tick_size), ..self }),
    {
        LimitOrderOverrides { tick_size: Some(tick_size), ..self }
    }

    pub fn with_neg_risk(self, neg_risk: bool) -> (r: LimitOrderOverrides)
        ensures
            r == (LimitOrderOverrides { neg_risk: Some(neg_risk), ..self }),
    {
        LimitOrderOverrides { neg_risk: Some(neg_risk), ..self }
    }

    pub fn with_fee_rate_bps(self, fee_rate_bps: u32) -> (r: LimitOrderOverrides)
        ensures
            r == (LimitOrderOverrides { fee_rate_bps: Some(fee_rate_bps), ..self }),
    {
        LimitOrderOverrides { fee_rate_bps: Some(fee_rate_bps), ..self }
    }

    pub fn with_timestamp(self, timestamp: i64) -> (r: LimitOrderOverrides)
        ensures
            r == (LimitOrderOverrides { timestamp: Some(timestamp), ..self }),
    {
        LimitOrderOverrides { timestamp: Some(timestamp), ..self }
    }
}

/// The fully resolved, exchange-native order record: what gets hashed and
/// signed. Immutable once built.
#[derive(Clone, Copy, Debug, PartialEq, Eq, Structural)]
pub struct OrderRecord {
    pub salt: u64,
    pub maker: Address,
    pub signer: Address,
    pub taker: Address,
    pub token_id: TokenId,
    pub maker_amount: u128,
    pub taker_amount: u128,
    pub expiration: u64,
    pub nonce: u64,
    pub fee_rate_bps: u32,
    pub side: Side,
    pub signature_type: SignatureType,
}

/// An order record together with its signature and submission metadata: the
/// wire payload for submission.
#[derive(Clone, Debug)]
pub struct SignedOrder {
    pub order: OrderRecord,
    /// 65-byte ECDSA signature (r, s, v) over the order's typed-data hash.
    pub signature: Vec<u8>,
    pub order_type: OrderType,
    /// The credential key owning the submission.
    pub owner: String,
    pub post_only: Option<bool>,
}

} // verus!
