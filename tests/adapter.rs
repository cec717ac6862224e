use venue_adapter::asset::{AnsAsset, Coin, DirectoryEntry, NameDirectory};
use venue_adapter::deploy::TMintStakingAdapter;
use venue_adapter::dex::{
    execute_handler, CallbackInfo, DexAction, DexExecuteMsg, OutMsg, ACTION_RETRIES,
};
use venue_adapter::error::AdapterError;
use venue_adapter::fee::{FeeConfig, FEE_SHARE_ONE};
use venue_adapter::host::{AccountEntry, AccountRegistry, HostView};
use venue_adapter::staking::{
    query_handler, Duration, HydratedProvider, ProviderQuery, StakingQueryMsg, StakingRead,
};
use venue_adapter::venue::{identify_venue, Venue};

fn entry(name: &str, denom: &str) -> DirectoryEntry {
    DirectoryEntry { name: name.to_string(), denom: denom.to_string() }
}

fn host(sender: &str, has_code: bool, is_proxy: bool) -> HostView {
    HostView {
        sender: sender.to_string(),
        sender_has_code: has_code,
        sender_is_proxy: is_proxy,
        directory: NameDirectory {
            entries: vec![
                entry("tokenA", "ibc/AAA"),
                entry("tokenB", "ibc/BBB"),
                entry("LP-A-B", "factory/lp-a-b"),
                entry("tokenA", "ibc/shadowed"),
            ],
        },
        accounts: AccountRegistry {
            entries: vec![
                AccountEntry { id: 7, proxy: "proxy7".to_string() },
                AccountEntry { id: 9, proxy: "bad proxy".to_string() },
            ],
        },
        valid_addresses: vec!["staker1".to_string(), "proxy7".to_string()],
    }
}

fn fee() -> FeeConfig {
    FeeConfig { share: FEE_SHARE_ONE / 100, recipient: "treasury".to_string() }
}

fn asset(name: &str, amount: u128) -> AnsAsset {
    AnsAsset { name: name.to_string(), amount }
}

fn swap(name: &str, amount: u128) -> DexAction {
    DexAction::Swap {
        offer_asset: asset(name, amount),
        ask_asset: "tokenB".to_string(),
        max_spread: None,
        belief_price: None,
    }
}

fn action(dex: &str, action: DexAction) -> DexExecuteMsg {
    DexExecuteMsg::Action { dex: dex.to_string(), action }
}

#[test]
fn registry_classifies_venues() {
    assert_eq!(identify_venue(&"astroport".to_string()), Ok(Venue::Astroport));
    assert_eq!(identify_venue(&"osmosis".to_string()), Ok(Venue::Osmosis));
    assert!(Venue::Osmosis.is_remote());
    assert!(!Venue::Wyndex.is_remote());
    assert_eq!(identify_venue(&"unknown-dex".to_string()), Err(AdapterError::VenueNotSupported));
}

#[test]
fn local_swap_emits_one_proxy_message() {
    let mut f = fee();
    let r = execute_handler(action("astroport", swap("tokenA", 100)), &host("wallet", false, false), &mut f);
    assert_eq!(
        r,
        Ok(vec![OutMsg::ProxyExecute { venue: Venue::Astroport, action: swap("tokenA", 100) }])
    );
    assert_eq!(f, fee());
}

#[test]
fn remote_withdraw_from_wallet_transfers_then_acts() {
    let mut f = fee();
    let withdraw = DexAction::WithdrawLiquidity { lp_token: "LP-A-B".to_string(), amount: 50 };
    let r = execute_handler(action("osmosis", withdraw.clone()), &host("wallet", false, false), &mut f);
    assert_eq!(
        r,
        Ok(vec![
            OutMsg::Ics20Transfer {
                chain: "osmosis".to_string(),
                coins: vec![Coin { denom: "factory/lp-a-b".to_string(), amount: 50 }],
            },
            OutMsg::HostAction {
                chain: "osmosis".to_string(),
                action: withdraw,
                callback: None,
                retries: ACTION_RETRIES,
            },
        ])
    );
}

#[test]
fn remote_swap_from_contract_carries_callback() {
    let mut f = fee();
    let r = execute_handler(action("osmosis", swap("tokenA", 100)), &host("contract1", true, false), &mut f)
        .unwrap();
    assert_eq!(r.len(), 2);
    assert_eq!(
        r[0],
        OutMsg::Ics20Transfer {
            chain: "osmosis".to_string(),
            coins: vec![Coin { denom: "ibc/AAA".to_string(), amount: 100 }],
        }
    );
    assert_eq!(
        r[1],
        OutMsg::HostAction {
            chain: "osmosis".to_string(),
            action: swap("tokenA", 100),
            callback: Some(CallbackInfo {
                id: "abstract:dex".to_string(),
                receiver: "contract1".to_string(),
            }),
            retries: 3,
        }
    );
}

#[test]
fn remote_provide_liquidity_transfers_every_asset() {
    let mut f = fee();
    let provide = DexAction::ProvideLiquidity {
        assets: vec![asset("tokenA", 10), asset("tokenB", 20)],
        max_spread: None,
    };
    let r = execute_handler(action("osmosis", provide), &host("wallet", false, false), &mut f).unwrap();
    assert_eq!(r.len(), 2);
    match &r[0] {
        OutMsg::Ics20Transfer { coins, .. } => assert_eq!(
            coins,
            &vec![
                Coin { denom: "ibc/AAA".to_string(), amount: 10 },
                Coin { denom: "ibc/BBB".to_string(), amount: 20 },
            ]
        ),
        other => panic!("expected a transfer first, got {:?}", other),
    }
    assert!(matches!(r[1], OutMsg::HostAction { .. }));
}

#[test]
fn remote_custom_swap_transfers_offer_assets_only() {
    let mut f = fee();
    let custom = DexAction::CustomSwap {
        offer_assets: vec![asset("tokenB", 5)],
        ask_assets: vec![asset("tokenA", 1)],
        max_spread: Some(FEE_SHARE_ONE / 10),
    };
    let r = execute_handler(action("osmosis", custom), &host("wallet", false, false), &mut f).unwrap();
    assert_eq!(
        r[0],
        OutMsg::Ics20Transfer {
            chain: "osmosis".to_string(),
            coins: vec![Coin { denom: "ibc/BBB".to_string(), amount: 5 }],
        }
    );
}

#[test]
fn remote_symmetric_liquidity_is_refused() {
    let mut f = fee();
    let sym = DexAction::ProvideLiquiditySymmetric {
        offer_asset: asset("tokenA", 10),
        paired_assets: vec!["tokenB".to_string()],
    };
    let r = execute_handler(action("osmosis", sym), &host("wallet", false, true), &mut f);
    assert_eq!(r, Err(AdapterError::UnsupportedCrossDomainAction));
    assert_eq!(f, fee());
}

#[test]
fn local_symmetric_liquidity_is_executed() {
    let mut f = fee();
    let sym = DexAction::ProvideLiquiditySymmetric {
        offer_asset: asset("tokenA", 10),
        paired_assets: vec!["tokenB".to_string()],
    };
    let r = execute_handler(action("wyndex", sym.clone()), &host("wallet", false, false), &mut f);
    assert_eq!(r, Ok(vec![OutMsg::ProxyExecute { venue: Venue::Wyndex, action: sym }]));
}

#[test]
fn remote_action_with_unknown_asset_emits_nothing() {
    let mut f = fee();
    let r = execute_handler(action("osmosis", swap("tokenZ", 1)), &host("wallet", false, false), &mut f);
    assert_eq!(r, Err(AdapterError::AssetResolutionFailed));
}

#[test]
fn unknown_venue_is_refused() {
    let mut f = fee();
    let r = execute_handler(action("nowhere", swap("tokenA", 1)), &host("wallet", false, false), &mut f);
    assert_eq!(r, Err(AdapterError::VenueNotSupported));
}

#[test]
fn directory_first_entry_wins() {
    let h = host("wallet", false, false);
    let c = h.directory.resolve(&asset("tokenA", 3)).unwrap();
    assert_eq!(c, Coin { denom: "ibc/AAA".to_string(), amount: 3 });
    assert_eq!(h.directory.resolve(&asset("nothing", 3)), Err(AdapterError::AssetResolutionFailed));
}

fn update(swap_fee: Option<u128>, recipient_account: Option<u32>) -> DexExecuteMsg {
    DexExecuteMsg::UpdateFee { swap_fee, recipient_account }
}

#[test]
fn fee_update_of_share_only_keeps_recipient() {
    let mut f = fee();
    let r = execute_handler(update(Some(FEE_SHARE_ONE / 20), None), &host("proxy", false, true), &mut f);
    assert_eq!(r, Ok(vec![]));
    assert_eq!(f, FeeConfig { share: FEE_SHARE_ONE / 20, recipient: "treasury".to_string() });
}

#[test]
fn fee_update_of_recipient_only_keeps_share() {
    let mut f = fee();
    let r = execute_handler(update(None, Some(7)), &host("proxy", false, true), &mut f);
    assert_eq!(r, Ok(vec![]));
    assert_eq!(f, FeeConfig { share: FEE_SHARE_ONE / 100, recipient: "proxy7".to_string() });
}

#[test]
fn fee_update_of_both_fields() {
    let mut f = fee();
    let r = execute_handler(update(Some(0), Some(7)), &host("proxy", false, true), &mut f);
    assert_eq!(r, Ok(vec![]));
    assert_eq!(f, FeeConfig { share: 0, recipient: "proxy7".to_string() });
}

#[test]
fn empty_fee_update_is_a_noop() {
    let mut f = fee();
    let r = execute_handler(update(None, None), &host("proxy", false, true), &mut f);
    assert_eq!(r, Ok(vec![]));
    assert_eq!(f, fee());
}

#[test]
fn fee_update_by_stranger_is_unauthorized() {
    let mut f = fee();
    let r = execute_handler(update(Some(0), Some(7)), &host("stranger", false, false), &mut f);
    assert_eq!(r, Err(AdapterError::Unauthorized));
    assert_eq!(f, fee());
}

#[test]
fn fee_share_of_one_is_out_of_range() {
    let mut f = fee();
    let r = execute_handler(update(Some(FEE_SHARE_ONE), None), &host("proxy", false, true), &mut f);
    assert_eq!(r, Err(AdapterError::FeeRangeInvalid));
    assert_eq!(f, fee());
    let r = execute_handler(update(Some(FEE_SHARE_ONE - 1), None), &host("proxy", false, true), &mut f);
    assert_eq!(r, Ok(vec![]));
    assert_eq!(f.share, FEE_SHARE_ONE - 1);
}

#[test]
fn fee_update_with_unknown_account_changes_nothing() {
    let mut f = fee();
    let r = execute_handler(update(Some(0), Some(8)), &host("proxy", false, true), &mut f);
    assert_eq!(r, Err(AdapterError::AccountNotFound));
    assert_eq!(f, fee());
}

#[test]
fn fee_recipient_with_rejected_address_changes_nothing() {
    let mut f = fee();
    let r = execute_handler(update(Some(0), Some(9)), &host("proxy", false, true), &mut f);
    assert_eq!(r, Err(AdapterError::AddressValidationFailed));
    assert_eq!(f, fee());
}

fn hydrated(provider: Venue, token: &str, target: &str) -> HydratedProvider {
    HydratedProvider {
        provider,
        staking_token: token.to_string(),
        staking_target: target.to_string(),
    }
}

#[test]
fn remote_provider_queries_are_refused() {
    let h = host("wallet", false, false);
    let msgs = vec![
        StakingQueryMsg::Info { provider: "osmosis".to_string(), staking_token: "missing".to_string() },
        StakingQueryMsg::Staked {
            provider: "osmosis".to_string(),
            staking_token: "LP-A-B".to_string(),
            staker_address: "not valid".to_string(),
            unbonding_period: None,
        },
        StakingQueryMsg::Unbonding {
            provider: "osmosis".to_string(),
            staking_token: "LP-A-B".to_string(),
            staker_address: "staker1".to_string(),
        },
        StakingQueryMsg::RewardTokens {
            provider: "osmosis".to_string(),
            staking_token: "LP-A-B".to_string(),
        },
    ];
    for m in msgs {
        assert_eq!(query_handler(m, &h), Err(AdapterError::RemoteQueryUnsupported));
    }
}

#[test]
fn local_info_query_is_hydrated() {
    let h = host("wallet", false, false);
    let m = StakingQueryMsg::Info { provider: "astroport".to_string(), staking_token: "LP-A-B".to_string() };
    assert_eq!(
        query_handler(m, &h),
        Ok(ProviderQuery {
            provider: hydrated(Venue::Astroport, "LP-A-B", "factory/lp-a-b"),
            read: StakingRead::Info,
        })
    );
}

#[test]
fn local_staked_query_validates_staker() {
    let h = host("wallet", false, false);
    let m = StakingQueryMsg::Staked {
        provider: "junoswap".to_string(),
        staking_token: "LP-A-B".to_string(),
        staker_address: "staker1".to_string(),
        unbonding_period: Some(Duration::Time(86400)),
    };
    assert_eq!(
        query_handler(m, &h),
        Ok(ProviderQuery {
            provider: hydrated(Venue::Junoswap, "LP-A-B", "factory/lp-a-b"),
            read: StakingRead::Staked {
                staker: "staker1".to_string(),
                unbonding_period: Some(Duration::Time(86400)),
            },
        })
    );
    let bad = StakingQueryMsg::Unbonding {
        provider: "junoswap".to_string(),
        staking_token: "LP-A-B".to_string(),
        staker_address: "staker2".to_string(),
    };
    assert_eq!(query_handler(bad, &h), Err(AdapterError::AddressValidationFailed));
}

#[test]
fn local_reward_query_with_unknown_token_fails() {
    let h = host("wallet", false, false);
    let m = StakingQueryMsg::RewardTokens {
        provider: "terraswap".to_string(),
        staking_token: "LP-X-Y".to_string(),
    };
    assert_eq!(query_handler(m, &h), Err(AdapterError::AssetResolutionFailed));
    let unknown = StakingQueryMsg::RewardTokens {
        provider: "nowhere".to_string(),
        staking_token: "LP-A-B".to_string(),
    };
    assert_eq!(query_handler(unknown, &h), Err(AdapterError::VenueNotSupported));
}

#[test]
fn tendermint_staking_deployment_names() {
    let a = TMintStakingAdapter::new();
    assert_eq!(a.id, "abstract:tendermint-staking");
    assert_eq!(a.wasm(), "abstract_tendermint_staking_adapter");
}
