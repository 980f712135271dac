use hotpath::bootstrap::{classify_create_outcome, BootstrapStep};
use hotpath::client::{resolve_timestamp, HotPathClient};
use hotpath::codec::{to_fixed_u128, to_ieee_754_int};
use hotpath::config::{parse_address, HotPathConfig, RawHotPathSigningConfig, POLYGON};
use hotpath::crypto::{contract_config, order_signing_digest};
use hotpath::decimal::Dec;
use hotpath::error::{Error, ErrorKind};
use hotpath::order::build_order;
use hotpath::policy::{FixedOrFetch, HotPathPolicies, TimePolicy};
use hotpath::types::{
    Address, Credentials, LimitOrderOverrides, LimitOrderRequest, OrderType, Side, SignatureType,
    SignatureTypeInput, TickSize, TokenId,
};

fn dec(negative: bool, mantissa: u128, scale: u32) -> Dec {
    Dec::new(negative, mantissa, scale).expect("decimal in range")
}

fn fixed_policies() -> HotPathPolicies {
    HotPathPolicies {
        tick_size: FixedOrFetch::Fixed(TickSize::Hundredth),
        neg_risk: FixedOrFetch::Fixed(false),
        fee_rate_bps: FixedOrFetch::Fixed(0),
        time: TimePolicy::Fixed,
    }
}

fn funder() -> Address {
    Address { hi: 0x11111111, lo: 0x22222222222222222222222222222222 }
}

fn wallet_address() -> Address {
    Address { hi: 0x33333333, lo: 0x44444444444444444444444444444444 }
}

fn request(price: Dec, size: Dec, side: Side) -> LimitOrderRequest {
    LimitOrderRequest::new(TokenId { hi: 0, lo: 1234 }, side, price, size)
}

fn creds() -> Credentials {
    Credentials {
        key: "api-key".to_string(),
        secret: "api-secret".to_string(),
        passphrase: "api-pass".to_string(),
    }
}

// Well-known local development key, never used on any real network.
const TEST_KEY: &str = "0xac0974bec39a17e36ba4a6b4d238ff944bacb478cbed5efcae784d7bf4f2ff80";

fn client() -> HotPathClient {
    let config = HotPathConfig::new(
        "https://clob.example.com".to_string(),
        POLYGON,
        TEST_KEY.to_string(),
        SignatureType::Proxy,
        funder(),
        None,
        fixed_policies(),
    )
    .expect("config accepted");
    HotPathClient::with_credentials(config, creds()).expect("client built")
}

#[test]
fn fixed_point_of_whole_size() {
    // 10.00 becomes ten units of the six-decimal settlement asset.
    let r = to_fixed_u128(dec(false, 1000, 2)).unwrap();
    assert_eq!(r, 10_000_000);
}

#[test]
fn fixed_point_truncates_never_rounds() {
    // 1.2345678 truncates to 1.234567, discarding the eighth digit.
    let r = to_fixed_u128(dec(false, 12345678, 7)).unwrap();
    assert_eq!(r, 1_234_567);
}

#[test]
fn fixed_point_idempotent_at_six_digits() {
    let first = to_fixed_u128(dec(false, 123_456_789, 6)).unwrap();
    assert_eq!(first, 123_456_789);
    let again = to_fixed_u128(dec(false, first, 6)).unwrap();
    assert_eq!(again, first);
}

#[test]
fn fixed_point_rejects_negative() {
    let e = to_fixed_u128(dec(true, 1, 0)).unwrap_err();
    assert_eq!(e.kind(), ErrorKind::Validation);
    assert!(e.message().contains("negative"));
    assert!(e.message().contains("-1"));
    let e = to_fixed_u128(dec(true, 25, 1)).unwrap_err();
    assert!(e.message().contains("-2.5"));
}

#[test]
fn salt_mask_bounds() {
    assert_eq!(to_ieee_754_int(u64::MAX), (1u64 << 53) - 1);
    assert_eq!(to_ieee_754_int(0), 0);
    assert_eq!(to_ieee_754_int(1 << 53), 0);
}

#[test]
fn salt_never_exceeds_53_bits() {
    for _ in 0..10_000 {
        let seed: u64 = rand::random();
        assert!(to_ieee_754_int(seed) <= (1u64 << 53) - 1);
    }
}

#[test]
fn build_example_buy_amounts() {
    // price 0.55, size 10.00, tick 0.01, buy: taker is the size, maker is
    // price times size truncated to four digits, both in fixed point.
    let req = request(dec(false, 55, 2), dec(false, 1000, 2), Side::Buy);
    let o = build_order(
        &req,
        TickSize::Hundredth,
        0,
        funder(),
        wallet_address(),
        SignatureType::Proxy,
        7,
    )
    .unwrap();
    assert_eq!(o.taker_amount, 10_000_000);
    assert_eq!(o.maker_amount, 5_500_000);
    assert_eq!(o.salt, 7);
    assert_eq!(o.maker, funder());
    assert_eq!(o.signer, wallet_address());
    assert_eq!(o.side, Side::Buy);
}

#[test]
fn build_sell_swaps_amounts() {
    let req = request(dec(false, 55, 2), dec(false, 1000, 2), Side::Sell);
    let o = build_order(
        &req,
        TickSize::Hundredth,
        0,
        funder(),
        wallet_address(),
        SignatureType::Proxy,
        7,
    )
    .unwrap();
    assert_eq!(o.maker_amount, 10_000_000);
    assert_eq!(o.taker_amount, 5_500_000);
}

#[test]
fn build_rejects_expiration_without_gtd() {
    let mut req = request(dec(false, 55, 2), dec(false, 1000, 2), Side::Buy);
    req.expiration = Some(1_700_000_000);
    let e = build_order(
        &req,
        TickSize::Hundredth,
        0,
        funder(),
        wallet_address(),
        SignatureType::Proxy,
        7,
    )
    .unwrap_err();
    assert!(e.message().contains("GTD"));
}

#[test]
fn build_accepts_expiration_with_gtd() {
    let mut req = request(dec(false, 55, 2), dec(false, 1000, 2), Side::Buy);
    req.expiration = Some(1_700_000_000);
    req.order_type = Some(OrderType::GTD);
    let o = build_order(
        &req,
        TickSize::Hundredth,
        0,
        funder(),
        wallet_address(),
        SignatureType::Proxy,
        7,
    )
    .unwrap();
    assert_eq!(o.expiration, 1_700_000_000);
}

#[test]
fn build_rejects_post_only_for_fok() {
    let mut req = request(dec(false, 55, 2), dec(false, 1000, 2), Side::Buy);
    req.order_type = Some(OrderType::FOK);
    req.post_only = Some(true);
    let e = build_order(
        &req,
        TickSize::Hundredth,
        0,
        funder(),
        wallet_address(),
        SignatureType::Proxy,
        7,
    )
    .unwrap_err();
    assert!(e.message().contains("postOnly"));
}

#[test]
fn build_rejects_oversized_lot_scale() {
    let req = request(dec(false, 55, 2), dec(false, 12345, 3), Side::Buy);
    let e = build_order(
        &req,
        TickSize::Hundredth,
        0,
        funder(),
        wallet_address(),
        SignatureType::Proxy,
        7,
    )
    .unwrap_err();
    assert!(e.message().contains("lot size"));
    assert!(e.message().contains("size 12.345 has 3 decimal places"));
}

#[test]
fn build_rejects_negative_price_and_zero_size() {
    let req = request(dec(true, 55, 2), dec(false, 1000, 2), Side::Buy);
    let e = build_order(
        &req,
        TickSize::Hundredth,
        0,
        funder(),
        wallet_address(),
        SignatureType::Proxy,
        7,
    )
    .unwrap_err();
    assert!(e.message().contains("negative price -0.55"));

    let req = request(dec(false, 55, 2), dec(false, 0, 0), Side::Buy);
    let e = build_order(
        &req,
        TickSize::Hundredth,
        0,
        funder(),
        wallet_address(),
        SignatureType::Proxy,
        7,
    )
    .unwrap_err();
    assert!(e.message().contains("size"));
}

#[test]
fn build_price_boundaries() {
    // exactly the tick and exactly one minus the tick succeed
    for mantissa in [1u128, 99] {
        let req = request(dec(false, mantissa, 2), dec(false, 1000, 2), Side::Buy);
        assert!(build_order(
            &req,
            TickSize::Hundredth,
            0,
            funder(),
            wallet_address(),
            SignatureType::Proxy,
            7,
        )
        .is_ok());
    }
    // below the tick and above one minus the tick fail
    for (mantissa, scale) in [(0u128, 0u32), (1, 0)] {
        let req = request(dec(false, mantissa, scale), dec(false, 1000, 2), Side::Buy);
        let e = build_order(
            &req,
            TickSize::Hundredth,
            0,
            funder(),
            wallet_address(),
            SignatureType::Proxy,
            7,
        )
        .unwrap_err();
        assert!(e.message().contains("too small or too large"));
        assert!(e.message().contains("0.01"));
    }
}

#[test]
fn build_rejects_price_scale_beyond_tick() {
    let req = request(dec(false, 555, 3), dec(false, 1000, 2), Side::Buy);
    let e = build_order(
        &req,
        TickSize::Hundredth,
        0,
        funder(),
        wallet_address(),
        SignatureType::Proxy,
        7,
    )
    .unwrap_err();
    assert!(e.message().contains("price 0.555 has 3 decimal places"));
    assert!(e.message().contains("tick size's 2"));
}

#[test]
fn decimal_normalize_and_trunc() {
    let d = dec(false, 55000, 4); // 5.5000
    let n = d.normalize();
    assert_eq!(n.mantissa(), 55);
    assert_eq!(n.scale(), 1);
    let t = n.trunc_with_scale(6);
    assert_eq!(t.mantissa(), 5_500_000);
    assert_eq!(t.scale(), 6);
    let down = dec(false, 12345678, 7).trunc_with_scale(6);
    assert_eq!(down.mantissa(), 1_234_567);
}

#[test]
fn decimal_checked_times() {
    let p = dec(false, 55, 2).checked_times(&dec(false, 1000, 2)).unwrap();
    assert_eq!(p.mantissa(), 55_000);
    assert_eq!(p.scale(), 4);
    assert!(!p.is_sign_negative());
}

#[test]
fn parse_signature_type_tokens() {
    assert_eq!(SignatureTypeInput::parse("eoa").unwrap(), SignatureTypeInput::Eoa);
    assert_eq!(SignatureTypeInput::parse("0").unwrap(), SignatureTypeInput::Eoa);
    assert_eq!(SignatureTypeInput::parse(" EOA ").unwrap(), SignatureTypeInput::Eoa);
    assert_eq!(
        SignatureTypeInput::parse("\u{00A0}eoa\u{2003}").unwrap(),
        SignatureTypeInput::Eoa
    );
    assert_eq!(SignatureTypeInput::parse("Proxy").unwrap(), SignatureTypeInput::Proxy);
    assert_eq!(SignatureTypeInput::parse("1").unwrap(), SignatureTypeInput::Proxy);
    assert_eq!(SignatureTypeInput::parse("gnosis_safe").unwrap(), SignatureTypeInput::GnosisSafe);
    assert_eq!(SignatureTypeInput::parse("GnosisSafe").unwrap(), SignatureTypeInput::GnosisSafe);
    assert_eq!(SignatureTypeInput::parse("safe").unwrap(), SignatureTypeInput::GnosisSafe);
    assert_eq!(SignatureTypeInput::parse("2").unwrap(), SignatureTypeInput::GnosisSafe);
    let e = SignatureTypeInput::parse("bogus").unwrap_err();
    assert!(e.message().contains("signature_type"));
    assert!(e.message().contains("`bogus`"));
    let e = SignatureTypeInput::parse("  Bogus Token ").unwrap_err();
    assert!(e.message().contains("`Bogus Token`"));
    assert_eq!(
        SignatureTypeInput::Proxy.into_signature_type(),
        SignatureType::Proxy
    );
}

#[test]
fn overrides_builders() {
    let o = LimitOrderOverrides::default()
        .with_tick_size(TickSize::Thousandth)
        .with_neg_risk(true)
        .with_fee_rate_bps(25)
        .with_timestamp(42);
    assert_eq!(o.tick_size, Some(TickSize::Thousandth));
    assert_eq!(o.neg_risk, Some(true));
    assert_eq!(o.fee_rate_bps, Some(25));
    assert_eq!(o.timestamp, Some(42));
}

#[test]
fn policy_resolution() {
    let p = fixed_policies();
    assert_eq!(p.default_tick_size().unwrap(), TickSize::Hundredth);
    assert!(!p.default_neg_risk().unwrap());
    assert_eq!(p.default_fee_rate_bps().unwrap(), 0);
    assert!(p.validate().is_ok());

    let bad = HotPathPolicies { tick_size: FixedOrFetch::FetchAndCache, ..fixed_policies() };
    let e = bad.default_tick_size().unwrap_err();
    assert!(e.message().contains("tick_size policy FetchAndCache"));
    let e = bad.validate().unwrap_err();
    assert!(e.message().contains("tick_size policy FetchAndCache"));

    let bad_time = HotPathPolicies { time: TimePolicy::FetchAndCache, ..fixed_policies() };
    assert!(bad_time.validate().is_err());
    assert!(TimePolicy::FetchAndCache.ensure_supported().is_err());
    assert!(TimePolicy::Fixed.ensure_supported().is_ok());
}

#[test]
fn config_rejects_eoa_with_funder() {
    let e = HotPathConfig::new(
        "https://clob.example.com".to_string(),
        POLYGON,
        TEST_KEY.to_string(),
        SignatureType::Eoa,
        funder(),
        None,
        fixed_policies(),
    )
    .unwrap_err();
    assert!(e.message().contains("Eoa"));
}

#[test]
fn config_rejects_zero_funder_and_wrong_chain() {
    let e = HotPathConfig::new(
        "https://clob.example.com".to_string(),
        POLYGON,
        TEST_KEY.to_string(),
        SignatureType::Proxy,
        Address { hi: 0, lo: 0 },
        None,
        fixed_policies(),
    )
    .unwrap_err();
    assert!(e.message().contains("funder"));

    let e = HotPathConfig::new(
        "https://clob.example.com".to_string(),
        1,
        TEST_KEY.to_string(),
        SignatureType::Proxy,
        funder(),
        None,
        fixed_policies(),
    )
    .unwrap_err();
    assert!(e.message().contains("Polygon"));
    assert!(e.message().contains("got chain_id=1"));
}

#[test]
fn sign_rejects_unmapped_chain_contract() {
    // a hand-built config can carry a chain the contract table does not map;
    // the signing path then fails naming the pair
    let config = HotPathConfig {
        host: "https://clob.example.com".to_string(),
        chain_id: 80002,
        private_key: TEST_KEY.to_string(),
        signature_type: SignatureType::Proxy,
        funder: funder(),
        nonce: None,
        policies: fixed_policies(),
    };
    let c = HotPathClient::with_credentials(config, creds()).expect("client built");
    let req = request(dec(false, 55, 2), dec(false, 1000, 2), Side::Buy);
    let e = c
        .sign_limit_order(&req, LimitOrderOverrides::default(), 1)
        .unwrap_err();
    assert!(e.message().contains("chain_id=80002"));
    assert!(e.message().contains("neg_risk=false"));
}

#[test]
fn parse_address_round_trips_known_contract() {
    let a = parse_address("0x4bFb41d5B3570DeFd03C39a9A4D8dE6Bd8B8982E").unwrap();
    assert_eq!(a.hi, 0x4bFb41d5);
    assert_eq!(a.lo, 0xB3570DeFd03C39a9A4D8dE6Bd8B8982E);
    let b = parse_address("4bFb41d5B3570DeFd03C39a9A4D8dE6Bd8B8982E").unwrap();
    assert_eq!(a, b);
    assert!(parse_address("0x123").is_err());
    assert!(parse_address("0xZZFb41d5B3570DeFd03C39a9A4D8dE6Bd8B8982E").is_err());
}

#[test]
fn from_raw_builds_and_rejects() {
    let raw = RawHotPathSigningConfig {
        private_key: TEST_KEY.to_string(),
        signature_type: "proxy".to_string(),
        funder: "0x4bFb41d5B3570DeFd03C39a9A4D8dE6Bd8B8982E".to_string(),
    };
    let c = HotPathConfig::from_raw("https://clob.example.com", POLYGON, raw, fixed_policies())
        .unwrap();
    assert_eq!(c.signature_type, SignatureType::Proxy);
    assert_eq!(c.funder.hi, 0x4bFb41d5);
    assert_eq!(c.funder.lo, 0xB3570DeFd03C39a9A4D8dE6Bd8B8982E);
    assert_eq!(c.nonce, None);

    let raw = RawHotPathSigningConfig {
        private_key: TEST_KEY.to_string(),
        signature_type: "proxy".to_string(),
        funder: "0x4bFb41d5B3570DeFd03C39a9A4D8dE6Bd8B8982E".to_string(),
    };
    let e = HotPathConfig::from_raw("not a url", POLYGON, raw, fixed_policies()).unwrap_err();
    assert!(e.message().contains("host"));
}

#[test]
fn contract_table_known_pairs() {
    assert!(contract_config(137, false).is_some());
    assert!(contract_config(137, true).is_some());
    assert_ne!(contract_config(137, false), contract_config(137, true));
    assert!(contract_config(1, false).is_none());
}

#[test]
fn bootstrap_falls_back_on_status_409() {
    // simulated "create" endpoint answering a 409-class status
    let create: Result<Credentials, Error> = Err(Error::status(409, "already registered"));
    let step = classify_create_outcome(create);
    assert!(matches!(step, BootstrapStep::TryDerive));
    // the simulated "derive" endpoint answers with valid credentials
    let derived: Result<Credentials, Error> = Ok(creds());
    assert_eq!(derived.unwrap(), creds());
}

#[test]
fn bootstrap_propagates_transport_failures() {
    let create: Result<Credentials, Error> = Err(Error::transport("connection reset"));
    match classify_create_outcome(create) {
        BootstrapStep::Fail(e) => {
            assert_eq!(e.kind(), ErrorKind::Transport);
            assert!(e.message().contains("connection reset"));
        }
        _ => panic!("a transport failure must not reach the derive fallback"),
    }
    let create: Result<Credentials, Error> = Ok(creds());
    assert!(matches!(classify_create_outcome(create), BootstrapStep::Done(_)));
}

#[test]
fn resolve_timestamp_override_and_policy() {
    assert_eq!(resolve_timestamp(TimePolicy::FetchAndCache, Some(99)).unwrap(), 99);
    assert_eq!(resolve_timestamp(TimePolicy::Fixed, Some(7)).unwrap(), 7);
    assert!(resolve_timestamp(TimePolicy::Fixed, None).unwrap() > 1_600_000_000);
    let e = resolve_timestamp(TimePolicy::FetchAndCache, None).unwrap_err();
    assert!(e.message().contains("FetchAndCache"));
}

#[test]
fn validate_funder_signature_rules() {
    let e = HotPathClient::validate_funder_signature(SignatureType::Eoa, funder()).unwrap_err();
    assert!(e.message().contains("Eoa"));
    let e = HotPathClient::validate_funder_signature(
        SignatureType::Proxy,
        Address { hi: 0, lo: 0 },
    )
    .unwrap_err();
    assert!(e.message().contains("zero funder"));
    assert!(HotPathClient::validate_funder_signature(SignatureType::GnosisSafe, funder()).is_ok());
}

#[test]
fn digest_is_a_32_byte_hash_bound_to_inputs() {
    let req = request(dec(false, 55, 2), dec(false, 1000, 2), Side::Buy);
    let o = build_order(
        &req,
        TickSize::Hundredth,
        0,
        funder(),
        wallet_address(),
        SignatureType::Proxy,
        7,
    )
    .unwrap();
    let contract = contract_config(137, false).unwrap();
    let d1 = order_signing_digest(&o, 137, contract);
    assert_eq!(d1.len(), 32);
    // changing the negative-risk pool changes the verifying contract and the digest
    let other = contract_config(137, true).unwrap();
    let d2 = order_signing_digest(&o, 137, other);
    assert_ne!(d1, d2);
    // changing the chain id changes the digest as well
    let d3 = order_signing_digest(&o, 80002, contract);
    assert_ne!(d1, d3);
}

#[test]
fn with_credentials_rejects_bad_private_key() {
    let config = HotPathConfig::new(
        "https://clob.example.com".to_string(),
        POLYGON,
        "not-a-key".to_string(),
        SignatureType::Proxy,
        funder(),
        None,
        fixed_policies(),
    )
    .expect("config accepted");
    match HotPathClient::with_credentials(config, creds()) {
        Ok(_) => panic!("a malformed private key must be rejected"),
        Err(e) => assert!(e.message().contains("private key")),
    }
}

#[test]
fn signature_type_from_str_trait() {
    let v: SignatureTypeInput = "proxy".parse().expect("parses");
    assert_eq!(v, SignatureTypeInput::Proxy);
}

#[test]
fn client_signs_limit_order() {
    let c = client();
    let req = request(dec(false, 55, 2), dec(false, 1000, 2), Side::Buy);
    let signed = c
        .sign_limit_order(&req, LimitOrderOverrides::default(), 0xDEAD_BEEF_DEAD_BEEF)
        .unwrap();
    assert_eq!(signed.signature.len(), 65);
    assert!(signed.order.salt <= (1u64 << 53) - 1);
    assert_eq!(signed.order.taker_amount, 10_000_000);
    assert_eq!(signed.order.maker_amount, 5_500_000);
    assert_eq!(signed.order.maker, funder());
    assert_eq!(signed.order.signer, c.address());
    assert_eq!(signed.owner, "api-key".to_string());
    assert_eq!(signed.order_type, OrderType::GTC);
    assert_eq!(signed.post_only, Some(false));
}

#[test]
fn client_rejects_gtc_expiration_and_replaces_credentials() {
    let mut c = client();
    let mut req = request(dec(false, 55, 2), dec(false, 1000, 2), Side::Buy);
    req.expiration = Some(1_700_000_000);
    let e = c
        .sign_limit_order(&req, LimitOrderOverrides::default(), 1)
        .unwrap_err();
    assert!(e.message().contains("GTD"));

    let next = Credentials {
        key: "rotated".to_string(),
        secret: "s2".to_string(),
        passphrase: "p2".to_string(),
    };
    c.set_credentials(next.clone());
    assert_eq!(c.credentials(), &next);
}
