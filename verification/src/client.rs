use vstd::prelude::*;
use crate::config::HotPathConfig;
use crate::crypto::{contract_config, contract_config_spec, order_signing_digest};
use crate::error::{dec_str, push_decimal_value, Error};
use vstd::string::StringExecFns;
use crate::order::{
    build_error_message, build_order, effective_order_type, effective_post_only,
    order_matches_request,
};
use crate::policy::{FixedOrFetch, HotPathPolicies, TimePolicy};
use crate::types::{
    Address, Credentials, LimitOrderOverrides, LimitOrderRequest, OrderType, SignatureType,
    SignedOrder, TickSize,
};
use crate::wrappers::{
    key_ok, now_unix, parse_private_key, sign_digest, signer_address, WalletSigner,
};

verus! {

/// Resolves the timestamp used for authentication headers: a per-call
/// override wins outright, deliberately bypassing policy validation (the
/// lower-level submission entry point lets callers supply pre-fixed
/// timestamps); otherwise the fixed time policy reads the local wall clock,
/// and the unimplemented fetch-and-cache policy fails loudly.
pub fn resolve_timestamp(policy: TimePolicy, override_timestamp: Option<i64>) -> (r: Result<
    i64,
    Error,
>)
    ensures
        override_timestamp matches Some(ts) ==> r == Ok::<i64, Error>(ts),
        override_timestamp is None && policy is FetchAndCache ==> (r matches Err(e) && e
            is Validation && e.message_spec()
            == "time policy FetchAndCache is not implemented in hotpath yet"@),
        override_timestamp is None && policy is Fixed ==> r is Ok,
{
    if let Some(ts) = override_timestamp {
        return Ok(ts);
    }
    match policy {
        TimePolicy::Fixed => Ok(now_unix()),
        TimePolicy::FetchAndCache => Err(
            Error::validation("time policy FetchAndCache is not implemented in hotpath yet"),
        ),
    }
}

/// The error produced for a chain and negative-risk pool with no deployed
/// exchange contract, naming both inputs.
pub open spec fn unmapped_contract_message(chain_id: u64, neg_risk: bool) -> Seq<char> {
    "no exchange contract is configured for chain_id="@ + dec_str(chain_id as nat)
        + ", neg_risk="@ + (if neg_risk {
        "true"@
    } else {
        "false"@
    })
}

/// The tick size an order will be built with: the per-order override, else
/// the fixed policy default; `None` when the policy slot is unresolvable.
pub open spec fn resolved_tick_size(
    policies: HotPathPolicies,
    overrides: LimitOrderOverrides,
) -> Option<TickSize> {
    match overrides.tick_size {
        Some(t) => Some(t),
        None => match policies.tick_size {
            FixedOrFetch::Fixed(v) => Some(v),
            FixedOrFetch::FetchAndCache => None,
        },
    }
}

pub open spec fn resolved_neg_risk(
    policies: HotPathPolicies,
    overrides: LimitOrderOverrides,
) -> Option<bool> {
    match overrides.neg_risk {
        Some(v) => Some(v),
        None => match policies.neg_risk {
            FixedOrFetch::Fixed(v) => Some(v),
            FixedOrFetch::FetchAndCache => None,
        },
    }
}

pub open spec fn resolved_fee_rate_bps(
    policies: HotPathPolicies,
    overrides: LimitOrderOverrides,
) -> Option<u32> {
    match overrides.fee_rate_bps {
        Some(v) => Some(v),
        None => match policies.fee_rate_bps {
            FixedOrFetch::Fixed(v) => Some(v),
            FixedOrFetch::FetchAndCache => None,
        },
    }
}

/// The verified core of the hot-path client: wallet, configuration and
/// credentials, and the build-validate-sign pipeline. The network transport
/// around it lives outside this crate and exchanges plain values with it.
pub struct HotPathClient {
    host: String,
    chain_id: u64,
    nonce: Option<u32>,
    signer: WalletSigner,
    address: Address,
    signature_type: SignatureType,
    funder: Address,
    policies: HotPathPolicies,
    credentials: Credentials,
}

impl HotPathClient {
    /// Construction-time invariant: proxy-class signatures with a non-zero
    /// funder.
    pub closed spec fn wf(self) -> bool {
        !(self.signature_type is Eoa) && self.funder != Address::zero_spec()
    }

    pub closed spec fn spec_chain_id(self) -> u64 {
        self.chain_id
    }

    pub closed spec fn spec_credentials(self) -> Credentials {
        self.credentials
    }

    pub closed spec fn spec_policies(self) -> HotPathPolicies {
        self.policies
    }

    pub closed spec fn spec_funder(self) -> Address {
        self.funder
    }

    pub closed spec fn spec_signature_type(self) -> SignatureType {
        self.signature_type
    }

    pub closed spec fn spec_address(self) -> Address {
        self.address
    }

    pub closed spec fn spec_host(self) -> Seq<char> {
        self.host@
    }

    pub closed spec fn spec_nonce(self) -> Option<u32> {
        self.nonce
    }

    /// EOA signature mode cannot carry a funder, and proxy-class modes need a
    /// non-zero funder.
    pub fn validate_funder_signature(signature_type: SignatureType, funder: Address) -> (r: Result<
        (),
        Error,
    >)
        ensures
            r is Ok <==> (!(signature_type is Eoa) && funder != Address::zero_spec()),
            r matches Err(e) ==> e is Validation,
            signature_type is Eoa ==> (r matches Err(e) && e.message_spec()
                == "Cannot have a funder address with an Eoa signature type"@),
            !(signature_type is Eoa) && funder == Address::zero_spec() ==> (r matches Err(e)
                && e.message_spec()
                == "Cannot have a zero funder address with a proxy signature type"@),
    {
        if matches!(signature_type, SignatureType::Eoa) {
            return Err(
                Error::validation("Cannot have a funder address with an Eoa signature type"),
            );
        }
        if funder.is_zero() {
            return Err(
                Error::validation("Cannot have a zero funder address with a proxy signature type"),
            );
        }
        Ok(())
    }

    /// Creates a hot-path client core from already known credentials.
    pub fn with_credentials(config: HotPathConfig, credentials: Credentials) -> (r: Result<
        HotPathClient,
        Error,
    >)
        ensures
            r matches Ok(c) ==> {
                &&& c.wf()
                &&& c.spec_host() == config.host@
                &&& c.spec_chain_id() == config.chain_id
                &&& c.spec_nonce() == config.nonce
                &&& c.spec_signature_type() == config.signature_type
                &&& c.spec_funder() == config.funder
                &&& c.spec_policies() == config.policies
                &&& c.spec_credentials() == credentials
            },
            r is Ok <==> key_ok(config.private_key@) && !(config.signature_type is Eoa)
                && config.funder != Address::zero_spec(),
            r matches Err(e) ==> e is Validation,
            !key_ok(config.private_key@) ==> (r matches Err(e) && e.message_spec()
                == "invalid private key"@),
    {
        let signer = match parse_private_key(config.private_key.as_str()) {
            Some(s) => s,
            None => {
                return Err(Error::validation("invalid private key"));
            },
        };
        match Self::validate_funder_signature(config.signature_type, config.funder) {
            Ok(_) => (),
            Err(e) => {
                return Err(e);
            },
        }
        let address = signer_address(&signer);
        Ok(
            HotPathClient {
                host: config.host,
                chain_id: config.chain_id,
                nonce: config.nonce,
                signer,
                address,
                signature_type: config.signature_type,
                funder: config.funder,
                policies: config.policies,
                credentials,
            },
        )
    }

    /// The wallet's account address.
    pub fn address(&self) -> (r: Address)
        ensures
            r == self.spec_address(),
    {
        self.address
    }

    pub fn credentials(&self) -> (r: &Credentials)
        ensures
            *r == self.spec_credentials(),
    {
        &self.credentials
    }

    pub fn host(&self) -> (r: &String)
        ensures
            r@ == self.spec_host(),
    {
        &self.host
    }

    pub fn chain_id(&self) -> (r: u64)
        ensures
            r == self.spec_chain_id(),
    {
        self.chain_id
    }

    pub fn nonce(&self) -> (r: Option<u32>)
        ensures
            r == self.spec_nonce(),
    {
        self.nonce
    }

    pub fn time_policy(&self) -> (r: TimePolicy)
        ensures
            r == self.spec_policies().time,
    {
        self.policies.time
    }

    /// The wallet signing capability, for the authentication headers the
    /// transport layer builds.
    pub fn wallet(&self) -> (r: &WalletSigner) {
        &self.signer
    }

    /// Atomically replaces the held credentials, the recovery action after a
    /// credential refresh. The one mutable slot of the client.
    pub fn set_credentials(&mut self, credentials: Credentials)
        ensures
            final(self).spec_credentials() == credentials,
            final(self).spec_host() == old(self).spec_host(),
            final(self).spec_chain_id() == old(self).spec_chain_id(),
            final(self).spec_nonce() == old(self).spec_nonce(),
            final(self).spec_signature_type() == old(self).spec_signature_type(),
            final(self).spec_funder() == old(self).spec_funder(),
            final(self).spec_policies() == old(self).spec_policies(),
            final(self).spec_address() == old(self).spec_address(),
            old(self).wf() ==> final(self).wf(),
    {
        self.credentials = credentials;
    }

    /// Builds and signs a limit order: resolve policies, build the order
    /// record, bind it to the signing domain for this chain and negative-risk
    /// pool, and sign its canonical digest.
    pub fn sign_limit_order(
        &self,
        request: &LimitOrderRequest,
        overrides: LimitOrderOverrides,
        seed: u64,
    ) -> (r: Result<SignedOrder, Error>)
        requires
            request.price.wf(),
            request.size.wf(),
        ensures
            r matches Err(e) ==> e is Validation,
            resolved_tick_size(self.spec_policies(), overrides) is None ==> r is Err,
            resolved_neg_risk(self.spec_policies(), overrides) is None ==> r is Err,
            resolved_fee_rate_bps(self.spec_policies(), overrides) is None ==> r is Err,
            resolved_tick_size(self.spec_policies(), overrides) matches Some(tick) ==> (
            resolved_neg_risk(self.spec_policies(), overrides) is Some ==> (resolved_fee_rate_bps(
                self.spec_policies(),
                overrides,
            ) is Some ==> (build_error_message(*request, tick.decimals_spec()) matches Some(m)
                ==> (r matches Err(e) && e.message_spec() == m)))),
            resolved_tick_size(self.spec_policies(), overrides) matches Some(tick) ==> (
            resolved_neg_risk(self.spec_policies(), overrides) matches Some(neg) ==> (
            resolved_fee_rate_bps(self.spec_policies(), overrides) is Some ==> (
            build_error_message(*request, tick.decimals_spec()) is None ==> ((
            contract_config_spec(self.spec_chain_id(), neg) is None ==> (r matches Err(e)
                && e.message_spec() == unmapped_contract_message(self.spec_chain_id(), neg)))
                && (contract_config_spec(self.spec_chain_id(), neg) is Some ==> (r is Ok || (
            r matches Err(e) && e.message_spec() == "signing the order digest failed"@))))))),
            r matches Ok(s) ==> {
                &&& resolved_tick_size(self.spec_policies(), overrides) matches Some(tick)
                    && build_error_message(*request, tick.decimals_spec()) is None
                &&& resolved_fee_rate_bps(self.spec_policies(), overrides) matches Some(fee)
                    && order_matches_request(
                    s.order,
                    *request,
                    fee,
                    self.spec_funder(),
                    self.spec_address(),
                    self.spec_signature_type(),
                    seed,
                )
                &&& resolved_neg_risk(self.spec_policies(), overrides) matches Some(neg)
                    && contract_config_spec(self.spec_chain_id(), neg) is Some
                &&& s.signature@.len() == 65
                &&& s.order_type == effective_order_type(*request)
                &&& s.post_only == Some(effective_post_only(*request))
                &&& s.owner == self.spec_credentials().key
            },
    {
        let tick_size = match overrides.tick_size {
            Some(t) => t,
            None => match self.policies.default_tick_size() {
                Ok(t) => t,
                Err(e) => {
                    return Err(e);
                },
            },
        };
        let neg_risk = match overrides.neg_risk {
            Some(v) => v,
            None => match self.policies.default_neg_risk() {
                Ok(v) => v,
                Err(e) => {
                    return Err(e);
                },
            },
        };
        let fee_rate_bps = match overrides.fee_rate_bps {
            Some(v) => v,
            None => match self.policies.default_fee_rate_bps() {
                Ok(v) => v,
                Err(e) => {
                    return Err(e);
                },
            },
        };
        let order = match build_order(
            request,
            tick_size,
            fee_rate_bps,
            self.funder,
            self.address,
            self.signature_type,
            seed,
        ) {
            Ok(o) => o,
            Err(e) => {
                return Err(e);
            },
        };
        let order_type = match request.order_type {
            Some(t) => t,
            None => OrderType::GTC,
        };
        let post_only = match request.post_only {
            Some(p) => p,
            None => false,
        };
        let contract = match contract_config(self.chain_id, neg_risk) {
            Some(a) => a,
            None => {
                let mut m = String::from_str("no exchange contract is configured for chain_id=");
                push_decimal_value(&mut m, self.chain_id as u128);
                m.append(", neg_risk=");
                if neg_risk {
                    m.append("true");
                } else {
                    m.append("false");
                }
                proof {
                    assert(m@ =~= unmapped_contract_message(self.spec_chain_id(), neg_risk));
                }
                return Err(Error::Validation(m));
            },
        };
        let digest = order_signing_digest(&order, self.chain_id, contract);
        let signature = match sign_digest(&self.signer, &digest) {
            Some(s) => s,
            None => {
                return Err(Error::validation("signing the order digest failed"));
            },
        };
        Ok(
            SignedOrder {
                order,
                signature,
                order_type,
                owner: self.credentials.key().clone(),
                post_only: Some(post_only),
            },
        )
    }
}

} // verus!
