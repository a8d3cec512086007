use vstd::prelude::*;

use crate::error::{ErrorCode, NormalResult};
use crate::pubkey::empty_key;
use crate::state::market::{Market, MarketStatus};
use crate::state::vault::Vault;

verus! {

/// The amount check of a deposit into a vault: nothing can be deposited without an amount.
pub fn validate_vault_deposit_amount(amount: u128) -> (r: NormalResult<()>)
    ensures
        r == (if amount == 0 { Err::<(), ErrorCode>(ErrorCode::LiquidityZero) } else { Ok::<(), ErrorCode>(()) }),
{
    if amount == 0 {
        return Err(ErrorCode::LiquidityZero);
    }
    Ok(())
}

/// Creates vault `vault_index` in a market; refused while the market is being initialized.
pub fn handle_initialize_vault(
    market: &Market,
    vault_pubkey: [u8; 32],
    vault_index: u16,
    token_vault_collateral: [u8; 32],
) -> (r: NormalResult<Vault>)
    ensures
        market.status == MarketStatus::Initialized ==> r == Err::<Vault, ErrorCode>(ErrorCode::MarketBeingInitialized),
        market.status != MarketStatus::Initialized ==> (r matches Ok(v) && {
            &&& v.pubkey == vault_pubkey
            &&& v.authority@ == empty_key()
            &&& v.delegate@ == empty_key()
            &&& v.vault == token_vault_collateral
            &&& v.vault_index == vault_index
            &&& v.market_index == market.market_index
            &&& v.status == 0
            &&& v.last_active_slot == 0
            &&& !v.idle
            &&& v.liquidity_balance == 0
            &&& v.collateralization_ratio == 0
            &&& v.synthetic_tokens_minted == 0
            &&& v.liquidation_margin_freed == 0
        }),
{
    if market.status == MarketStatus::Initialized {
        return Err(ErrorCode::MarketBeingInitialized);
    }
    Ok(Vault {
        pubkey: vault_pubkey,
        authority: [0u8; 32],
        delegate: [0u8; 32],
        config: [0u8; 32],
        vault: token_vault_collateral,
        vault_index,
        market_index: market.market_index,
        status: 0,
        last_active_slot: 0,
        idle: false,
        liquidity_balance: 0,
        collateralization_ratio: 0,
        synthetic_tokens_minted: 0,
        liquidation_margin_freed: 0,
        next_liquidation_id: 0,
        token_program: 0,
    })
}

pub fn handle_update_vault_delegate(vault: &mut Vault, delegate: [u8; 32])
    ensures
        *final(vault) == (Vault { delegate, ..*old(vault) }),
{
    vault.delegate = delegate;
}

} // verus!
