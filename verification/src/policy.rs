use vstd::prelude::*;
use vstd::string::StringExecFns;
use crate::error::Error;
use crate::types::TickSize;

verus! {

/// Policy wrapper for values that can either be fixed or fetched and cached.
///
/// `FetchAndCache` is modeled for future expansion, but only `Fixed` is
/// currently implemented: resolving a fetch-and-cache slot is a loud
/// configuration error, never a silent approximation.
#[derive(Clone, Copy, Debug)]
pub enum FixedOrFetch<T> {
    Fixed(T),
    FetchAndCache,
}

impl<T: Copy> FixedOrFetch<T> {
    /// Resolves the slot, failing with an error naming `field` when the slot
    /// is the unimplemented fetch-and-cache mode.
    pub fn resolve_fixed(self, field: &str) -> (r: Result<T, Error>)
        ensures
            self matches FixedOrFetch::Fixed(v) ==> r == Ok::<T, Error>(v),
            self is FetchAndCache ==> (r matches Err(e) && e is Validation && e.message_spec()
                == field@ + " policy FetchAndCache is not implemented in hotpath yet"@),
    {
        match self {
            FixedOrFetch::Fixed(value) => Ok(value),
            FixedOrFetch::FetchAndCache => Err(
                Error::Validation(
                    String::from_str(field).concat(
                        " policy FetchAndCache is not implemented in hotpath yet",
                    ),
                ),
            ),
        }
    }
}

/// Time policy used for authentication header timestamps.
///
/// `Fixed` means the local unix wall clock is used; `FetchAndCache` (asking
/// the exchange for its time) is not implemented.
#[derive(Clone, Copy, Debug, PartialEq, Eq, Structural)]
pub enum TimePolicy {
    Fixed,
    FetchAndCache,
}

impl TimePolicy {
    pub fn ensure_supported(self) -> (r: Result<(), Error>)
        ensures
            r is Ok <==> self is Fixed,
            r matches Err(e) ==> e is Validation && e.message_spec()
                == "time policy FetchAndCache is not implemented in hotpath yet"@,
    {
        match self {
            TimePolicy::Fixed => Ok(()),
            TimePolicy::FetchAndCache => Err(
                Error::validation("time policy FetchAndCache is not implemented in hotpath yet"),
            ),
        }
    }
}

/// Defaults used by the hot-path order flow: one slot per policy, each either
/// fixed or (unimplemented) fetch-and-cache.
#[derive(Clone, Copy, Debug)]
pub struct HotPathPolicies {
    pub tick_size: FixedOrFetch<TickSize>,
    pub neg_risk: FixedOrFetch<bool>,
    pub fee_rate_bps: FixedOrFetch<u32>,
    pub time: TimePolicy,
}

impl HotPathPolicies {
    /// All four slots resolve without network activity.
    pub open spec fn all_fixed(self) -> bool {
        self.time is Fixed && self.tick_size is Fixed && self.neg_risk is Fixed
            && self.fee_rate_bps is Fixed
    }

    pub fn default_tick_size(self) -> (r: Result<TickSize, Error>)
        ensures
            self.tick_size matches FixedOrFetch::Fixed(v) ==> r == Ok::<TickSize, Error>(v),
            self.tick_size is FetchAndCache ==> (r matches Err(e) && e is Validation
                && e.message_spec() == "tick_size"@
                + " policy FetchAndCache is not implemented in hotpath yet"@),
    {
        self.tick_size.resolve_fixed("tick_size")
    }

    pub fn default_neg_risk(self) -> (r: Result<bool, Error>)
        ensures
            self.neg_risk matches FixedOrFetch::Fixed(v) ==> r == Ok::<bool, Error>(v),
            self.neg_risk is FetchAndCache ==> (r matches Err(e) && e is Validation
                && e.message_spec() == "neg_risk"@
                + " policy FetchAndCache is not implemented in hotpath yet"@),
    {
        self.neg_risk.resolve_fixed("neg_risk")
    }

    pub fn default_fee_rate_bps(self) -> (r: Result<u32, Error>)
        ensures
            self.fee_rate_bps matches FixedOrFetch::Fixed(v) ==> r == Ok::<u32, Error>(v),
            self.fee_rate_bps is FetchAndCache ==> (r matches Err(e) && e is Validation
                && e.message_spec() == "fee_rate_bps"@
                + " policy FetchAndCache is not implemented in hotpath yet"@),
    {
        self.fee_rate_bps.resolve_fixed("fee_rate_bps")
    }

    /// The message of the first unresolvable policy slot, checked in the
    /// order time, tick size, negative risk, fee rate.
    pub open spec fn policies_error_message(self) -> Option<Seq<char>> {
        if self.time is FetchAndCache {
            Some("time policy FetchAndCache is not implemented in hotpath yet"@)
        } else if self.tick_size is FetchAndCache {
            Some("tick_size"@ + " policy FetchAndCache is not implemented in hotpath yet"@)
        } else if self.neg_risk is FetchAndCache {
            Some("neg_risk"@ + " policy FetchAndCache is not implemented in hotpath yet"@)
        } else if self.fee_rate_bps is FetchAndCache {
            Some("fee_rate_bps"@ + " policy FetchAndCache is not implemented in hotpath yet"@)
        } else {
            None
        }
    }

    /// Eagerly resolves every slot, so that a misconfigured policy is caught
    /// at construction time rather than on the first order.
    pub fn validate(self) -> (r: Result<(), Error>)
        ensures
            r is Ok <==> self.all_fixed(),
            r matches Err(e) ==> e is Validation && self.policies_error_message() == Some(
                e.message_spec(),
            ),
    {
        match self.time.ensure_supported() {
            Ok(_) => (),
            Err(e) => {
                return Err(e);
            },
        }
        match self.default_tick_size() {
            Ok(_) => (),
            Err(e) => {
                return Err(e);
            },
        }
        match self.default_neg_risk() {
            Ok(_) => (),
            Err(e) => {
                return Err(e);
            },
        }
        match self.default_fee_rate_bps() {
            Ok(_) => (),
            Err(e) => {
                return Err(e);
            },
        }
        Ok(())
    }
}

} // verus!
