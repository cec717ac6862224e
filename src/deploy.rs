use vstd::prelude::*;

verus! {

/// The id under which the tendermint staking adapter is registered.
pub const TENDERMINT_STAKING: &'static str = "abstract:tendermint-staking";

/// The name of the tendermint staking adapter's compiled contract artifact.
pub const TENDERMINT_STAKING_WASM: &'static str = "abstract_tendermint_staking_adapter";

/// Deployment handle of the tendermint staking adapter: what a deployer needs
/// to register and upload it.
#[derive(Debug, Clone, PartialEq, Eq)]
pub struct TMintStakingAdapter {
    pub id: String,
}

impl TMintStakingAdapter {
    pub fn new() -> (r: TMintStakingAdapter)
        ensures
            r.id@ == TENDERMINT_STAKING@,
    {
        TMintStakingAdapter { id: TENDERMINT_STAKING.to_owned() }
    }

    /// The artifact to look up in the workspace's artifacts directory.
    pub fn wasm(&self) -> (r: String)
        ensures
            r@ == TENDERMINT_STAKING_WASM@,
    {
        TENDERMINT_STAKING_WASM.to_owned()
    }
}

} // verus!
