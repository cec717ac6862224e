use vstd::prelude::*;

use crate::asset::{AnsAsset, Coin};
use crate::error::AdapterError;
use crate::fee::{update_fee, updated_fee, FeeConfig};
use crate::host::HostView;
use crate::venue::{identify_result, identify_venue, Venue};

verus! {

/// How many delivery attempts the messaging layer may make for a remote action.
pub const ACTION_RETRIES: u8 = 3;

/// The route on which remote chains report back to this adapter.
pub const DEX_CALLBACK_ROUTE: &'static str = "abstract:dex";

/// A trading action. Prices and spreads are fixed-point values with eighteen
/// decimal places.
#[derive(Debug, Clone, PartialEq, Eq)]
pub enum DexAction {
    ProvideLiquidity { assets: Vec<AnsAsset>, max_spread: Option<u128> },
    ProvideLiquiditySymmetric { offer_asset: AnsAsset, paired_assets: Vec<String> },
    WithdrawLiquidity { lp_token: String, amount: u128 },
    Swap {
        offer_asset: AnsAsset,
        ask_asset: String,
        max_spread: Option<u128>,
        belief_price: Option<u128>,
    },
    CustomSwap {
        offer_assets: Vec<AnsAsset>,
        ask_assets: Vec<AnsAsset>,
        max_spread: Option<u128>,
    },
}

/// A message to the adapter.
#[derive(Debug, Clone, PartialEq, Eq)]
pub enum DexExecuteMsg {
    Action { dex: String, action: DexAction },
    UpdateFee { swap_fee: Option<u128>, recipient_account: Option<u32> },
}

/// Lets a remote chain report completion to the contract that asked.
#[derive(Debug, Clone, PartialEq, Eq)]
pub struct CallbackInfo {
    pub id: String,
    pub receiver: String,
}

/// A message the adapter emits.
#[derive(Debug, Clone, PartialEq, Eq)]
pub enum OutMsg {
    /// Runs `action` on a local venue through the caller's proxy.
    ProxyExecute { venue: Venue, action: DexAction },
    /// Moves `coins` to `chain` over the cross-chain token channel.
    Ics20Transfer { chain: String, coins: Vec<Coin> },
    /// Asks `chain` to run `action`, with the given callback and delivery budget.
    HostAction {
        chain: String,
        action: DexAction,
        callback: Option<CallbackInfo>,
        retries: u8,
    },
}

/// The symbolic assets a remote action consumes, which must travel with it.
pub open spec fn transfer_plan(action: DexAction) -> Result<Seq<AnsAsset>, AdapterError> {
    match action {
        DexAction::ProvideLiquidity { assets, .. } => Ok(assets@),
        DexAction::ProvideLiquiditySymmetric { .. } => Err(
            AdapterError::UnsupportedCrossDomainAction,
        ),
        DexAction::WithdrawLiquidity { lp_token, amount } => Ok(
            seq![AnsAsset { name: lp_token, amount }],
        ),
        DexAction::Swap { offer_asset, .. } => Ok(seq![offer_asset]),
        DexAction::CustomSwap { offer_assets, .. } => Ok(offer_assets@),
    }
}

/// Why a remote dispatch of `action` fails, if it does.
pub open spec fn remote_error(action: DexAction, host: HostView) -> Option<AdapterError> {
    match transfer_plan(action) {
        Err(e) => Some(e),
        Ok(plan) => if host.directory.resolves_all(plan) {
            None
        } else {
            Some(AdapterError::AssetResolutionFailed)
        },
    }
}

/// The callback a remote action carries: one naming the sender when the
/// sender holds code, none for a plain wallet.
pub open spec fn callback_matches(cb: Option<CallbackInfo>, host: HostView) -> bool {
    if host.sender_has_code {
        cb is Some && cb->0.id@ == DEX_CALLBACK_ROUTE@ && cb->0.receiver == host.sender
    } else {
        cb is None
    }
}

/// `msgs` are the transfer of the resolved assets to `chain` followed by the
/// action envelope for it.
pub open spec fn remote_messages(
    chain: Seq<char>,
    action: DexAction,
    host: HostView,
    msgs: Seq<OutMsg>,
) -> bool {
    &&& msgs.len() == 2
    &&& match msgs[0] {
        OutMsg::Ics20Transfer { chain: c, coins } => c@ == chain && host.directory.resolved_as(
            transfer_plan(action)->Ok_0,
            coins@,
        ),
        _ => false,
    }
    &&& match msgs[1] {
        OutMsg::HostAction { chain: c, action: a, callback, retries } => c@ == chain && a == action
            && callback_matches(callback, host) && retries == ACTION_RETRIES,
        _ => false,
    }
}

fn copy_assets(assets: &Vec<AnsAsset>) -> (r: Vec<AnsAsset>)
    ensures
        r@ == assets@,
{
    let mut out: Vec<AnsAsset> = Vec::new();
    let mut i: usize = 0;
    while i < assets.len()
        invariant
            i <= assets@.len(),
            out@ == assets@.subrange(0, i as int),
        decreases assets@.len() - i,
    {
        out.push(assets[i].duplicate());
        i = i + 1;
        assert(out@ == assets@.subrange(0, i as int));
    }
    assert(assets@.subrange(0, assets@.len() as int) == assets@);
    out
}

/// The symbolic assets that must be transferred ahead of `action` on a
/// remote chain.
pub fn assets_to_transfer(action: &DexAction) -> (r: Result<Vec<AnsAsset>, AdapterError>)
    ensures
        r is Ok == transfer_plan(*action) is Ok,
        r is Ok ==> r->Ok_0@ == transfer_plan(*action)->Ok_0,
        r is Err ==> r->Err_0 == transfer_plan(*action)->Err_0,
{
    match action {
        DexAction::ProvideLiquidity { assets, .. } => Ok(copy_assets(assets)),
        DexAction::ProvideLiquiditySymmetric { .. } => Err(
            AdapterError::UnsupportedCrossDomainAction,
        ),
        DexAction::WithdrawLiquidity { lp_token, amount } => {
            let v: Vec<AnsAsset> = vec![AnsAsset::new(lp_token.clone(), *amount)];
            Ok(v)
        },
        DexAction::Swap { offer_asset, .. } => {
            let v: Vec<AnsAsset> = vec![offer_asset.duplicate()];
            Ok(v)
        },
        DexAction::CustomSwap { offer_assets, .. } => Ok(copy_assets(offer_assets)),
    }
}

/// Resolves the assets `action` consumes into coins.
pub fn resolve_assets_to_transfer(action: &DexAction, host: &HostView) -> (r: Result<
    Vec<Coin>,
    AdapterError,
>)
    ensures
        r is Err <==> remote_error(*action, *host) is Some,
        r is Err ==> r->Err_0 == remote_error(*action, *host)->0,
        r is Ok ==> host.directory.resolved_as(transfer_plan(*action)->Ok_0, r->Ok_0@),
{
    let plan = assets_to_transfer(action)?;
    host.directory.resolve_all(&plan)
}

/// The callback for the sender, when it can receive one.
fn callback_for(host: &HostView) -> (r: Option<CallbackInfo>)
    ensures
        callback_matches(r, *host),
{
    if host.sender_has_code {
        Some(CallbackInfo { id: DEX_CALLBACK_ROUTE.to_owned(), receiver: host.sender.clone() })
    } else {
        None
    }
}

/// Forwards `action` to the remote chain `chain`: the transfer of every asset
/// it consumes, then the action itself. Nothing is emitted on an error.
pub fn handle_ibc_request(chain: String, action: DexAction, host: &HostView) -> (r: Result<
    Vec<OutMsg>,
    AdapterError,
>)
    ensures
        r is Err <==> remote_error(action, *host) is Some,
        r is Err ==> r->Err_0 == remote_error(action, *host)->0,
        r is Ok ==> remote_messages(chain@, action, *host, r->Ok_0@),
{
    let coins = resolve_assets_to_transfer(&action, host)?;
    let callback = callback_for(host);
    let transfer = OutMsg::Ics20Transfer { chain: chain.clone(), coins };
    let envelope = OutMsg::HostAction { chain, action, callback, retries: ACTION_RETRIES };
    let msgs: Vec<OutMsg> = vec![transfer, envelope];
    Ok(msgs)
}

/// `msgs` is the single proxy execution of `action` on the local `venue`.
pub open spec fn local_messages(venue: Venue, action: DexAction, msgs: Seq<OutMsg>) -> bool {
    msgs.len() == 1 && msgs[0] == (OutMsg::ProxyExecute { venue, action })
}

/// Runs `action` on a local venue: one message through the caller's proxy.
pub fn handle_local_request(venue: Venue, action: DexAction) -> (r: Vec<OutMsg>)
    ensures
        local_messages(venue, action, r@),
{
    let msgs: Vec<OutMsg> = vec![OutMsg::ProxyExecute { venue, action }];
    msgs
}

/// Why `msg` fails, if it does.
pub open spec fn execute_error(msg: DexExecuteMsg, host: HostView, fee: FeeConfig) -> Option<
    AdapterError,
> {
    match msg {
        DexExecuteMsg::Action { dex, action } => match identify_result(dex@) {
            Err(e) => Some(e),
            Ok(v) => if v.spec_is_remote() {
                remote_error(action, host)
            } else {
                None
            },
        },
        DexExecuteMsg::UpdateFee { swap_fee, recipient_account } => match updated_fee(
            fee,
            host,
            swap_fee,
            recipient_account,
        ) {
            Err(e) => Some(e),
            Ok(_) => None,
        },
    }
}

/// What a successful `msg` emits and leaves as the fee configuration.
pub open spec fn execute_effect(
    msg: DexExecuteMsg,
    host: HostView,
    fee: FeeConfig,
    msgs: Seq<OutMsg>,
    new_fee: FeeConfig,
) -> bool {
    match msg {
        DexExecuteMsg::Action { dex, action } => {
            &&& new_fee == fee
            &&& if identify_result(dex@)->Ok_0.spec_is_remote() {
                remote_messages(dex@, action, host, msgs)
            } else {
                local_messages(identify_result(dex@)->Ok_0, action, msgs)
            }
        },
        DexExecuteMsg::UpdateFee { swap_fee, recipient_account } => {
            &&& msgs.len() == 0
            &&& new_fee == updated_fee(fee, host, swap_fee, recipient_account)->Ok_0
        },
    }
}

/// Handles one message to the adapter. An action is forwarded to its venue's
/// chain when the venue is remote and run through the proxy otherwise; a fee
/// update changes the stored configuration. On an error no message is emitted
/// and the fee configuration is unchanged.
pub fn execute_handler(msg: DexExecuteMsg, host: &HostView, fee: &mut FeeConfig) -> (r: Result<
    Vec<OutMsg>,
    AdapterError,
>)
    ensures
        r is Err <==> execute_error(msg, *host, *old(fee)) is Some,
        r is Err ==> r->Err_0 == execute_error(msg, *host, *old(fee))->0 && *final(fee) == *old(fee),
        r is Ok ==> execute_effect(msg, *host, *old(fee), r->Ok_0@, *final(fee)),
{
    match msg {
        DexExecuteMsg::Action { dex, action } => {
            let venue = identify_venue(&dex)?;
            if venue.is_remote() {
                handle_ibc_request(dex, action, host)
            } else {
                Ok(handle_local_request(venue, action))
            }
        },
        DexExecuteMsg::UpdateFee { swap_fee, recipient_account } => {
            update_fee(fee, host, swap_fee, recipient_account)?;
            Ok(Vec::new())
        },
    }
}

/// A successful remote action emits exactly one transfer message, carrying
/// one coin for each asset the action consumes, and it comes before the
/// action envelope.
pub proof fn lemma_remote_dispatch_transfers_first(
    dex: String,
    action: DexAction,
    host: HostView,
    fee: FeeConfig,
    msgs: Seq<OutMsg>,
    new_fee: FeeConfig,
)
    requires
        identify_result(dex@) is Ok,
        identify_result(dex@)->Ok_0.spec_is_remote(),
        execute_error(DexExecuteMsg::Action { dex, action }, host, fee) is None,
        execute_effect(DexExecuteMsg::Action { dex, action }, host, fee, msgs, new_fee),
    ensures
        msgs.len() == 2,
        msgs[0] is Ics20Transfer,
        msgs[1] is HostAction,
        transfer_plan(action) is Ok,
        match msgs[0] {
            OutMsg::Ics20Transfer { coins, .. } => coins@.len() == transfer_plan(action)->Ok_0.len(),
            _ => false,
        },
{
}

/// Symmetric liquidity provision aimed at a remote venue always fails with
/// `UnsupportedCrossDomainAction`, so nothing is emitted.
pub proof fn lemma_remote_symmetric_refused(
    dex: String,
    offer_asset: AnsAsset,
    paired_assets: Vec<String>,
    host: HostView,
    fee: FeeConfig,
)
    requires
        identify_result(dex@) is Ok,
        identify_result(dex@)->Ok_0.spec_is_remote(),
    ensures
        execute_error(
            DexExecuteMsg::Action {
                dex,
                action: DexAction::ProvideLiquiditySymmetric { offer_asset, paired_assets },
            },
            host,
            fee,
        ) == Some(AdapterError::UnsupportedCrossDomainAction),
{
}

/// A fee update sent by anyone but the owning proxy fails with
/// `Unauthorized`; the handler then leaves the configuration as it was.
pub proof fn lemma_fee_update_needs_proxy(
    swap_fee: Option<u128>,
    recipient_account: Option<u32>,
    host: HostView,
    fee: FeeConfig,
)
    requires
        !host.sender_is_proxy,
    ensures
        execute_error(DexExecuteMsg::UpdateFee { swap_fee, recipient_account }, host, fee) == Some(
            AdapterError::Unauthorized,
        ),
{
}

} // verus!
