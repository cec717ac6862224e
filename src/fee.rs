use vstd::prelude::*;

use crate::error::AdapterError;
use crate::host::HostView;

verus! {

/// A whole share, in the fixed-point units of `FeeConfig::share`
/// (eighteen decimal places).
pub const FEE_SHARE_ONE: u128 = 1_000_000_000_000_000_000;

/// The swap fee: the share taken, in units of `FEE_SHARE_ONE`, and who receives it.
#[derive(Debug, Clone, PartialEq, Eq)]
pub struct FeeConfig {
    pub share: u128,
    pub recipient: String,
}

/// A share is accepted when it is below one whole (100%).
pub open spec fn share_in_range(share: u128) -> bool {
    share < FEE_SHARE_ONE
}

/// The fee configuration after an update, or the error that refuses it.
pub open spec fn updated_fee(
    old: FeeConfig,
    host: HostView,
    swap_fee: Option<u128>,
    recipient_account: Option<u32>,
) -> Result<FeeConfig, AdapterError> {
    if !host.sender_is_proxy {
        Err(AdapterError::Unauthorized)
    } else if swap_fee is Some && !share_in_range(swap_fee->0) {
        Err(AdapterError::FeeRangeInvalid)
    } else if recipient_account is Some && host.accounts.proxy_of(recipient_account->0) is None {
        Err(AdapterError::AccountNotFound)
    } else if recipient_account is Some && !host.accepts(
        host.accounts.proxy_of(recipient_account->0)->0@,
    ) {
        Err(AdapterError::AddressValidationFailed)
    } else {
        Ok(
            FeeConfig {
                share: match swap_fee {
                    Some(s) => s,
                    None => old.share,
                },
                recipient: match recipient_account {
                    Some(id) => host.accounts.proxy_of(id)->0,
                    None => old.recipient,
                },
            },
        )
    }
}

/// Applies a fee update. Either every requested field is changed or, on an
/// error, the configuration is left as it was.
pub fn update_fee(
    fee: &mut FeeConfig,
    host: &HostView,
    swap_fee: Option<u128>,
    recipient_account: Option<u32>,
) -> (r: Result<(), AdapterError>)
    ensures
        updated_fee(*old(fee), *host, swap_fee, recipient_account) is Ok ==> r is Ok && *final(fee)
            == updated_fee(*old(fee), *host, swap_fee, recipient_account)->Ok_0,
        updated_fee(*old(fee), *host, swap_fee, recipient_account) is Err ==> r == Err::<(), _>(
            updated_fee(*old(fee), *host, swap_fee, recipient_account)->Err_0,
        ) && *final(fee) == *old(fee),
{
    if !host.sender_is_proxy {
        return Err(AdapterError::Unauthorized);
    }
    if let Some(s) = swap_fee {
        if s >= FEE_SHARE_ONE {
            return Err(AdapterError::FeeRangeInvalid);
        }
    }
    let new_recipient: Option<String> = match recipient_account {
        Some(id) => match host.accounts.proxy_address(id) {
            Some(addr) => {
                if !host.validate_address(&addr) {
                    return Err(AdapterError::AddressValidationFailed);
                }
                Some(addr)
            },
            None => {
                return Err(AdapterError::AccountNotFound);
            },
        },
        None => None,
    };
    if let Some(s) = swap_fee {
        fee.share = s;
    }
    if let Some(addr) = new_recipient {
        fee.recipient = addr;
    }
    Ok(())
}

/// Each field of a fee update is independent: without a new share the share
/// is kept, without a new recipient the recipient is kept, and an update
/// from the owning proxy that names neither succeeds and changes nothing.
pub proof fn lemma_partial_fee_update(
    old: FeeConfig,
    host: HostView,
    swap_fee: Option<u128>,
    recipient_account: Option<u32>,
)
    ensures
        swap_fee is None && updated_fee(old, host, swap_fee, recipient_account) is Ok ==> updated_fee(
            old,
            host,
            swap_fee,
            recipient_account,
        )->Ok_0.share == old.share,
        recipient_account is None && updated_fee(old, host, swap_fee, recipient_account) is Ok
            ==> updated_fee(old, host, swap_fee, recipient_account)->Ok_0.recipient == old.recipient,
        swap_fee is None && recipient_account is None && host.sender_is_proxy ==> updated_fee(
            old,
            host,
            swap_fee,
            recipient_account,
        ) == Ok::<FeeConfig, AdapterError>(old),
{
}

} // verus!
