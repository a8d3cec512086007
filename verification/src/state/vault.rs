use vstd::prelude::*;

use crate::error::{ErrorCode, NormalResult};
use crate::state::user::{lemma_status_bits, next_id, spec_is_bankrupt, spec_is_being_liquidated, spec_is_reduce_only};

verus! {

/// Status flags of a vault, one bit each.
#[derive(Clone, Copy, PartialEq, Eq, Debug, Structural)]
pub enum VaultStatus {
    BeingLiquidated,
    Bankrupt,
    ReduceOnly,
}

impl VaultStatus {
    pub open spec fn spec_bit(self) -> u8 {
        match self {
            VaultStatus::BeingLiquidated => 1,
            VaultStatus::Bankrupt => 2,
            VaultStatus::ReduceOnly => 4,
        }
    }

    pub fn bit(self) -> (r: u8)
        ensures
            r == self.spec_bit(),
    {
        match self {
            VaultStatus::BeingLiquidated => 1,
            VaultStatus::Bankrupt => 2,
            VaultStatus::ReduceOnly => 4,
        }
    }
}

/// A collateral vault against which synthetic tokens are minted.
#[derive(Clone, Copy, Debug)]
pub struct Vault {
    /// The address of the vault. It is a pda of the market index
    pub pubkey: [u8; 32],
    /// The owner/authority of the account
    pub authority: [u8; 32],
    /// An address that can control the account on the authority's behalf; can't withdraw
    pub delegate: [u8; 32],
    /// The global Vault Config account
    pub config: [u8; 32],
    /// The token account storing the vault's deposits (collateral)
    pub vault: [u8; 32],
    pub vault_index: u16,
    pub market_index: u16,
    /// Whether the vault is active, being liquidated or bankrupt
    pub status: u8,
    /// The last slot a vault was active. Used to determine if a vault is idle
    pub last_active_slot: u64,
    /// Off-chain keeper bots can ignore vaults that are idle
    pub idle: bool,
    /// The total balance lent to the AMM for liquidity
    pub liquidity_balance: u64,
    /// the ratio of collateral value to debt value
    pub collateralization_ratio: u64,
    /// the debt created by minting synthetic against the collateral.
    pub synthetic_tokens_minted: u64,
    /// The amount of margin freed during liquidation
    pub liquidation_margin_freed: u64,
    /// The next liquidation id to be used for the vault
    pub next_liquidation_id: u16,
    pub token_program: u8,
}

impl Vault {
    pub fn is_being_liquidated(&self) -> (r: bool)
        ensures
            r == spec_is_being_liquidated(self.status),
    {
        proof {
            lemma_status_bits(self.status);
        }
        self.status & (VaultStatus::BeingLiquidated.bit() | VaultStatus::Bankrupt.bit()) > 0
    }

    pub fn is_bankrupt(&self) -> (r: bool)
        ensures
            r == spec_is_bankrupt(self.status),
    {
        self.status & VaultStatus::Bankrupt.bit() > 0
    }

    pub fn is_reduce_only(&self) -> (r: bool)
        ensures
            r == spec_is_reduce_only(self.status),
    {
        self.status & VaultStatus::ReduceOnly.bit() > 0
    }

    pub fn add_user_status(&mut self, status: VaultStatus)
        ensures
            *final(self) == (Vault { status: old(self).status | status.spec_bit(), ..*old(self) }),
    {
        self.status = self.status | status.bit();
    }

    pub fn remove_user_status(&mut self, status: VaultStatus)
        ensures
            *final(self) == (Vault { status: old(self).status & !status.spec_bit(), ..*old(self) }),
    {
        self.status = self.status & !status.bit();
    }

    /// Puts the vault into liquidation and hands out a new liquidation id; a vault already being
    /// liquidated keeps its liquidation and gets its id back.
    pub fn enter_liquidation(&mut self, slot: u64) -> (r: NormalResult<u16>)
        ensures
            spec_is_being_liquidated(old(self).status) ==> *final(self) == *old(self) && r == (
                if old(self).next_liquidation_id == 0 { Err(ErrorCode::MathError) } else { Ok((old(self).next_liquidation_id - 1) as u16) }),
            !spec_is_being_liquidated(old(self).status) ==> r == Ok::<u16, ErrorCode>(old(self).next_liquidation_id)
                && *final(self) == (Vault {
                    status: old(self).status | 1u8,
                    liquidation_margin_freed: 0,
                    last_active_slot: slot,
                    next_liquidation_id: next_id(old(self).next_liquidation_id),
                    ..*old(self)
                }),
            spec_is_being_liquidated(final(self).status),
    {
        if self.is_being_liquidated() {
            if self.next_liquidation_id == 0 {
                return Err(ErrorCode::MathError);
            }
            return Ok(self.next_liquidation_id - 1);
        }
        self.add_user_status(VaultStatus::BeingLiquidated);
        self.liquidation_margin_freed = 0;
        self.last_active_slot = slot;
        let current_id = self.next_liquidation_id;
        self.next_liquidation_id = if current_id == u16::MAX { 1 } else { current_id + 1 };
        proof {
            lemma_status_bits(old(self).status);
        }
        Ok(current_id)
    }

    pub fn exit_liquidation(&mut self)
        ensures
            *final(self) == (Vault { status: (old(self).status & !1u8) & !2u8, liquidation_margin_freed: 0, ..*old(self) }),
            !spec_is_being_liquidated(final(self).status),
            spec_is_reduce_only(final(self).status) == spec_is_reduce_only(old(self).status),
    {
        self.remove_user_status(VaultStatus::BeingLiquidated);
        self.remove_user_status(VaultStatus::Bankrupt);
        self.liquidation_margin_freed = 0;
        proof {
            lemma_status_bits(old(self).status);
        }
    }

    pub fn enter_bankruptcy(&mut self)
        ensures
            *final(self) == (Vault { status: (old(self).status & !1u8) | 2u8, ..*old(self) }),
            spec_is_bankrupt(final(self).status),
            spec_is_being_liquidated(final(self).status),
    {
        self.remove_user_status(VaultStatus::BeingLiquidated);
        self.add_user_status(VaultStatus::Bankrupt);
        proof {
            lemma_status_bits(old(self).status);
        }
    }

    pub fn exit_bankruptcy(&mut self)
        ensures
            *final(self) == (Vault { status: (old(self).status & !1u8) & !2u8, liquidation_margin_freed: 0, ..*old(self) }),
            !spec_is_being_liquidated(final(self).status),
            !spec_is_bankrupt(final(self).status),
    {
        self.remove_user_status(VaultStatus::BeingLiquidated);
        self.remove_user_status(VaultStatus::Bankrupt);
        self.liquidation_margin_freed = 0;
        proof {
            lemma_status_bits(old(self).status);
        }
    }

    pub fn update_last_active_slot(&mut self, slot: u64)
        ensures
            *final(self) == (Vault {
                last_active_slot: if spec_is_being_liquidated(old(self).status) { old(self).last_active_slot } else { slot },
                idle: false,
                ..*old(self)
            }),
    {
        if !self.is_being_liquidated() {
            self.last_active_slot = slot;
        }
        self.idle = false;
    }

    pub fn update_reduce_only_status(&mut self, reduce_only: bool) -> (r: NormalResult<()>)
        ensures
            r is Ok,
            *final(self) == (Vault {
                status: if reduce_only { old(self).status | 4u8 } else { old(self).status & !4u8 },
                ..*old(self)
            }),
            spec_is_reduce_only(final(self).status) == reduce_only,
            spec_is_being_liquidated(final(self).status) == spec_is_being_liquidated(old(self).status),
    {
        if reduce_only {
            self.add_user_status(VaultStatus::ReduceOnly);
        } else {
            self.remove_user_status(VaultStatus::ReduceOnly);
        }
        proof {
            lemma_status_bits(old(self).status);
        }
        Ok(())
    }
}

} // verus!
