use vstd::prelude::*;

use crate::error::AdapterError;
use crate::host::HostView;
use crate::venue::{identify_result, identify_venue, Venue};

verus! {

/// An unbonding period, in blocks or in seconds.
#[derive(Debug, Clone, Copy, PartialEq, Eq, Structural)]
pub enum Duration {
    Height(u64),
    Time(u64),
}

/// A query about a staking position held with `provider`.
#[derive(Debug, Clone, PartialEq, Eq)]
pub enum StakingQueryMsg {
    Info { provider: String, staking_token: String },
    Staked {
        provider: String,
        staking_token: String,
        staker_address: String,
        unbonding_period: Option<Duration>,
    },
    Unbonding { provider: String, staking_token: String, staker_address: String },
    RewardTokens { provider: String, staking_token: String },
}

/// A local provider bound to a staking token, before its state is fetched.
#[derive(Debug, Clone, PartialEq, Eq)]
pub struct ProviderHandle {
    pub provider: Venue,
    pub staking_token: String,
}

/// A provider whose staking target has been fetched from the directory.
/// Only a hydrated provider can be queried.
#[derive(Debug, Clone, PartialEq, Eq)]
pub struct HydratedProvider {
    pub provider: Venue,
    pub staking_token: String,
    /// What the directory resolved the staking token to.
    pub staking_target: String,
}

/// The read to run against a hydrated provider.
#[derive(Debug, Clone, PartialEq, Eq)]
pub enum StakingRead {
    Info,
    Staked { staker: String, unbonding_period: Option<Duration> },
    Unbonding { staker: String },
    RewardTokens,
}

/// A read, ready to be answered from the provider's state.
#[derive(Debug, Clone, PartialEq, Eq)]
pub struct ProviderQuery {
    pub provider: HydratedProvider,
    pub read: StakingRead,
}

impl StakingQueryMsg {
    pub open spec fn provider_name(self) -> String {
        match self {
            StakingQueryMsg::Info { provider, .. } => provider,
            StakingQueryMsg::Staked { provider, .. } => provider,
            StakingQueryMsg::Unbonding { provider, .. } => provider,
            StakingQueryMsg::RewardTokens { provider, .. } => provider,
        }
    }

    pub open spec fn token(self) -> String {
        match self {
            StakingQueryMsg::Info { staking_token, .. } => staking_token,
            StakingQueryMsg::Staked { staking_token, .. } => staking_token,
            StakingQueryMsg::Unbonding { staking_token, .. } => staking_token,
            StakingQueryMsg::RewardTokens { staking_token, .. } => staking_token,
        }
    }

    /// The read this query asks for.
    pub open spec fn read(self) -> StakingRead {
        match self {
            StakingQueryMsg::Info { .. } => StakingRead::Info,
            StakingQueryMsg::Staked { staker_address, unbonding_period, .. } => StakingRead::Staked {
                staker: staker_address,
                unbonding_period,
            },
            StakingQueryMsg::Unbonding { staker_address, .. } => StakingRead::Unbonding {
                staker: staker_address,
            },
            StakingQueryMsg::RewardTokens { .. } => StakingRead::RewardTokens,
        }
    }
}

impl StakingRead {
    /// Whether the read names a staker whose address the host must accept.
    pub open spec fn staker_ok(self, host: HostView) -> bool {
        match self {
            StakingRead::Staked { staker, .. } => host.accepts(staker@),
            StakingRead::Unbonding { staker } => host.accepts(staker@),
            _ => true,
        }
    }
}

/// Whether `handle` can be hydrated: its staking token has a directory entry.
pub open spec fn hydrate_ok(handle: ProviderHandle, host: HostView) -> bool {
    host.directory.lookup(handle.staking_token@) is Some
}

/// Why a query fails, if it does. A remote provider is refused before the
/// directory is consulted.
pub open spec fn query_error(msg: StakingQueryMsg, host: HostView) -> Option<AdapterError> {
    match identify_result(msg.provider_name()@) {
        Err(e) => Some(e),
        Ok(v) => if v.spec_is_remote() {
            Some(AdapterError::RemoteQueryUnsupported)
        } else if host.directory.lookup(msg.token()@) is None {
            Some(AdapterError::AssetResolutionFailed)
        } else if !msg.read().staker_ok(host) {
            Some(AdapterError::AddressValidationFailed)
        } else {
            None
        },
    }
}

/// `q` is the read `msg` asks for, on its provider hydrated from the directory.
pub open spec fn query_answer(msg: StakingQueryMsg, host: HostView, q: ProviderQuery) -> bool {
    &&& q.provider.provider == identify_result(msg.provider_name()@)->Ok_0
    &&& q.provider.staking_token == msg.token()
    &&& host.directory.lookup(msg.token()@) == Some(q.provider.staking_target@)
    &&& q.read == msg.read()
}

/// A local provider for `provider`, refusing unknown and remote venues.
pub fn resolve_local_provider(provider: &String, staking_token: String) -> (r: Result<
    ProviderHandle,
    AdapterError,
>)
    ensures
        identify_result(provider@) is Err ==> r == Err::<ProviderHandle, _>(
            identify_result(provider@)->Err_0,
        ),
        identify_result(provider@) is Ok && identify_result(provider@)->Ok_0.spec_is_remote()
            ==> r == Err::<ProviderHandle, _>(AdapterError::RemoteQueryUnsupported),
        identify_result(provider@) is Ok && !identify_result(provider@)->Ok_0.spec_is_remote()
            ==> r == Ok::<_, AdapterError>(
            ProviderHandle { provider: identify_result(provider@)->Ok_0, staking_token },
        ),
{
    let venue = identify_venue(provider)?;
    if venue.is_remote() {
        Err(AdapterError::RemoteQueryUnsupported)
    } else {
        Ok(ProviderHandle { provider: venue, staking_token })
    }
}

impl ProviderHandle {
    /// Fetches the provider's staking target from the directory.
    pub fn hydrate(self, host: &HostView) -> (r: Result<HydratedProvider, AdapterError>)
        ensures
            r is Ok == hydrate_ok(self, *host),
            r is Err ==> r->Err_0 == AdapterError::AssetResolutionFailed,
            r is Ok ==> r->Ok_0.provider == self.provider && r->Ok_0.staking_token
                == self.staking_token && host.directory.lookup(self.staking_token@) == Some(
                r->Ok_0.staking_target@,
            ),
    {
        match host.directory.lookup_denom(&self.staking_token) {
            Some(target) => Ok(
                HydratedProvider {
                    provider: self.provider,
                    staking_token: self.staking_token,
                    staking_target: target,
                },
            ),
            None => Err(AdapterError::AssetResolutionFailed),
        }
    }
}

impl HydratedProvider {
    /// Pairs the provider with a read, once any staker address is accepted.
    pub fn query(self, read: StakingRead, host: &HostView) -> (r: Result<
        ProviderQuery,
        AdapterError,
    >)
        ensures
            r is Ok == read.staker_ok(*host),
            r is Err ==> r->Err_0 == AdapterError::AddressValidationFailed,
            r is Ok ==> r->Ok_0 == (ProviderQuery { provider: self, read }),
    {
        let ok = match &read {
            StakingRead::Staked { staker, .. } => host.validate_address(staker),
            StakingRead::Unbonding { staker } => host.validate_address(staker),
            _ => true,
        };
        if ok {
            Ok(ProviderQuery { provider: self, read })
        } else {
            Err(AdapterError::AddressValidationFailed)
        }
    }
}

/// Handles a staking query: classifies the provider, refuses remote ones,
/// hydrates a local one and returns the read to run on it.
pub fn query_handler(msg: StakingQueryMsg, host: &HostView) -> (r: Result<
    ProviderQuery,
    AdapterError,
>)
    ensures
        r is Err <==> query_error(msg, *host) is Some,
        r is Err ==> r->Err_0 == query_error(msg, *host)->0,
        r is Ok ==> query_answer(msg, *host, r->Ok_0),
{
    let (provider, staking_token, read) = match msg {
        StakingQueryMsg::Info { provider, staking_token } => (
            provider,
            staking_token,
            StakingRead::Info,
        ),
        StakingQueryMsg::Staked { provider, staking_token, staker_address, unbonding_period } => (
            provider,
            staking_token,
            StakingRead::Staked { staker: staker_address, unbonding_period },
        ),
        StakingQueryMsg::Unbonding { provider, staking_token, staker_address } => (
            provider,
            staking_token,
            StakingRead::Unbonding { staker: staker_address },
        ),
        StakingQueryMsg::RewardTokens { provider, staking_token } => (
            provider,
            staking_token,
            StakingRead::RewardTokens,
        ),
    };
    let handle = resolve_local_provider(&provider, staking_token)?;
    let hydrated = handle.hydrate(host)?;
    hydrated.query(read, host)
}

/// A query aimed at a remote provider is refused with
/// `RemoteQueryUnsupported`, whatever its kind; the refusal does not depend
/// on the directory or on any other host state, so no hydration is attempted.
pub proof fn lemma_remote_query_refused(msg: StakingQueryMsg, host: HostView, other: HostView)
    requires
        identify_result(msg.provider_name()@) is Ok,
        identify_result(msg.provider_name()@)->Ok_0.spec_is_remote(),
    ensures
        query_error(msg, host) == Some(AdapterError::RemoteQueryUnsupported),
        query_error(msg, host) == query_error(msg, other),
{
}

} // verus!
