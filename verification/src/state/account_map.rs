use vstd::prelude::*;

use std::collections::BTreeMap;

use crate::error::{ErrorCode, NormalResult};
use crate::pubkey::{read_u16_le, spec_u16_le, starts_with_discriminator};
use crate::state::market_set::MarketSet;

verus! {

broadcast use {vstd::laws_cmp::group_laws_cmp, vstd::std_specs::btree::group_btree_axioms};

/// What the logic reads of an account passed to an instruction.
#[derive(Clone, Debug)]
pub struct AccountView {
    pub data: Vec<u8>,
    pub is_writable: bool,
    /// Whether the account loads as an account of the program (owner and discriminator)
    pub loads: bool,
}

/// The size of a market account.
pub const MARKET_ACCOUNT_SIZE: usize = 1216;
/// Where a market account holds its market index.
pub const MARKET_INDEX_OFFSET: usize = 684;
/// Where a vault account holds its vault index; a vault account holds at least the index.
pub const VAULT_INDEX_OFFSET: usize = 1160;
/// The market of the quote asset.
pub const QUOTE_SPOT_MARKET_INDEX: u16 = 0;

/// How an account list is read: the size an account must have, where its index is, and
/// whether the mutability is checked before the account is loaded.
#[derive(Clone, Copy, PartialEq, Eq, Debug, Structural)]
pub struct AccountLayout {
    pub size: usize,
    pub index_offset: usize,
    pub mutability_first: bool,
}

pub open spec fn layout_ok(layout: AccountLayout) -> bool {
    layout.size >= layout.index_offset + 2 && layout.size >= 8
}

/// Whether an account is of the kind: large enough and with the kind's discriminator.
pub open spec fn is_kind(account: AccountView, layout: AccountLayout, discriminator: Seq<u8>) -> bool {
    account.data@.len() >= layout.size && account.data@.subrange(0, 8) == discriminator
}

/// Reads the accounts of a kind from position `i` on, until one is not of the kind: each index
/// may come once, and an index that must be writable must come writable. The map gives the
/// position of each index's account; the number is where reading stopped.
pub open spec fn spec_load_accounts(
    accounts: Seq<AccountView>,
    i: int,
    map: Map<u16, usize>,
    writable: Set<u16>,
    layout: AccountLayout,
    discriminator: Seq<u8>,
) -> NormalResult<(Map<u16, usize>, int)>
    decreases accounts.len() - i,
{
    if i < 0 || i >= accounts.len() || !is_kind(accounts[i], layout, discriminator) {
        Ok((map, i))
    } else {
        let account = accounts[i];
        let index = spec_u16_le(account.data@, layout.index_offset as int);
        let wrong_mutability = writable.contains(index) && !account.is_writable;
        if map.contains_key(index) {
            Err(ErrorCode::InvalidMarketAccount)
        } else if layout.mutability_first && wrong_mutability {
            Err(ErrorCode::MarketWrongMutability)
        } else if !account.loads {
            Err(ErrorCode::InvalidMarketAccount)
        } else if wrong_mutability {
            Err(ErrorCode::MarketWrongMutability)
        } else {
            spec_load_accounts(accounts, i + 1, map.insert(index, i as usize), writable, layout, discriminator)
        }
    }
}

/// Loads the accounts of a kind from `start` on (see `spec_load_accounts`).
fn load_accounts(
    accounts: &Vec<AccountView>,
    start: usize,
    writable: &MarketSet,
    layout: AccountLayout,
    discriminator: &[u8; 8],
) -> (r: NormalResult<(BTreeMap<u16, usize>, usize)>)
    requires
        layout_ok(layout),
    ensures
        match spec_load_accounts(accounts@, start as int, Map::empty(), writable@, layout, discriminator@) {
            Ok((map, next)) => r matches Ok((m, n)) && m@ == map && n == next,
            Err(e) => r == Err::<(BTreeMap<u16, usize>, usize), ErrorCode>(e),
        },
{
    let mut map: BTreeMap<u16, usize> = BTreeMap::new();
    let mut i: usize = start;
    while i < accounts.len()
        invariant
            layout_ok(layout),
            start <= i,
            spec_load_accounts(accounts@, start as int, Map::empty(), writable@, layout, discriminator@)
                == spec_load_accounts(accounts@, i as int, map@, writable@, layout, discriminator@),
        decreases accounts.len() - i,
    {
        let account = &accounts[i];
        let data = account.data.as_slice();
        if data.len() < layout.size || !starts_with_discriminator(data, discriminator) {
            return Ok((map, i));
        }
        let index = read_u16_le(data, layout.index_offset);
        if map.contains_key(&index) {
            return Err(ErrorCode::InvalidMarketAccount);
        }
        let wrong_mutability = writable.contains(&index) && !account.is_writable;
        if layout.mutability_first && wrong_mutability {
            return Err(ErrorCode::MarketWrongMutability);
        }
        if !account.loads {
            return Err(ErrorCode::InvalidMarketAccount);
        }
        if wrong_mutability {
            return Err(ErrorCode::MarketWrongMutability);
        }
        map.insert(index, i);
        i = i + 1;
    }
    Ok((map, i))
}

/// Reads one account of a kind; refused when it is not of the kind, does not load, or its
/// writability is not the one asked for.
pub open spec fn spec_load_one(
    account: AccountView,
    must_be_writable: bool,
    layout: AccountLayout,
    discriminator: Seq<u8>,
) -> NormalResult<u16> {
    if !is_kind(account, layout, discriminator) {
        Err(ErrorCode::CouldNotLoadMarketData)
    } else if !account.loads {
        Err(ErrorCode::InvalidMarketAccount)
    } else if must_be_writable != account.is_writable {
        Err(ErrorCode::MarketWrongMutability)
    } else {
        Ok(spec_u16_le(account.data@, layout.index_offset as int))
    }
}

fn load_one_account(account: &AccountView, must_be_writable: bool, layout: AccountLayout, discriminator: &[u8; 8]) -> (r: NormalResult<u16>)
    requires
        layout_ok(layout),
    ensures
        r == spec_load_one(*account, must_be_writable, layout, discriminator@),
{
    let data = account.data.as_slice();
    if data.len() < layout.size || !starts_with_discriminator(data, discriminator) {
        return Err(ErrorCode::CouldNotLoadMarketData);
    }
    let index = read_u16_le(data, layout.index_offset);
    if !account.loads {
        return Err(ErrorCode::InvalidMarketAccount);
    }
    if must_be_writable != account.is_writable {
        return Err(ErrorCode::MarketWrongMutability);
    }
    Ok(index)
}

/// Reads the first `n` accounts, each of which must be of the kind and load (and be writable
/// when asked); a later account of an index replaces an earlier one.
pub open spec fn spec_load_multiple(
    accounts: Seq<AccountView>,
    n: int,
    must_be_writable: bool,
    layout: AccountLayout,
    discriminator: Seq<u8>,
) -> NormalResult<(Map<u16, usize>, Set<u16>)>
    decreases n,
{
    if n <= 0 {
        Ok((Map::empty(), Set::empty()))
    } else {
        match spec_load_multiple(accounts, n - 1, must_be_writable, layout, discriminator) {
            Err(e) => Err(e),
            Ok((map, writable)) => {
                let account = accounts[n - 1];
                if !is_kind(account, layout, discriminator) {
                    Err(ErrorCode::CouldNotLoadMarketData)
                } else if !account.loads {
                    Err(ErrorCode::InvalidMarketAccount)
                } else if must_be_writable && !account.is_writable {
                    Err(ErrorCode::MarketWrongMutability)
                } else {
                    let index = spec_u16_le(account.data@, layout.index_offset as int);
                    Ok((map.insert(index, (n - 1) as usize), if must_be_writable { writable.insert(index) } else { writable }))
                }
            },
        }
    }
}

proof fn lemma_load_multiple_err(
    accounts: Seq<AccountView>,
    n: int,
    m: int,
    must_be_writable: bool,
    layout: AccountLayout,
    discriminator: Seq<u8>,
)
    requires
        0 <= n <= m,
        spec_load_multiple(accounts, n, must_be_writable, layout, discriminator) is Err,
    ensures
        spec_load_multiple(accounts, m, must_be_writable, layout, discriminator)
            == spec_load_multiple(accounts, n, must_be_writable, layout, discriminator),
    decreases m - n,
{
    if m > n {
        lemma_load_multiple_err(accounts, n, m - 1, must_be_writable, layout, discriminator);
    }
}

fn load_multiple_accounts(
    accounts: &Vec<AccountView>,
    must_be_writable: bool,
    layout: AccountLayout,
    discriminator: &[u8; 8],
) -> (r: NormalResult<(BTreeMap<u16, usize>, MarketSet)>)
    requires
        layout_ok(layout),
    ensures
        match spec_load_multiple(accounts@, accounts@.len() as int, must_be_writable, layout, discriminator@) {
            Ok((map, writable)) => r matches Ok((m, w)) && m@ == map && w@ == writable,
            Err(e) => r == Err::<(BTreeMap<u16, usize>, MarketSet), ErrorCode>(e),
        },
{
    let mut map: BTreeMap<u16, usize> = BTreeMap::new();
    let mut writable = MarketSet::new();
    let mut i: usize = 0;
    while i < accounts.len()
        invariant
            layout_ok(layout),
            i <= accounts.len(),
            spec_load_multiple(accounts@, i as int, must_be_writable, layout, discriminator@)
                == Ok::<(Map<u16, usize>, Set<u16>), ErrorCode>((map@, writable@)),
        decreases accounts.len() - i,
    {
        let account = &accounts[i];
        let data = account.data.as_slice();
        if data.len() < layout.size || !starts_with_discriminator(data, discriminator) {
            proof {
                lemma_load_multiple_err(accounts@, i + 1, accounts@.len() as int, must_be_writable, layout, discriminator@);
            }
            return Err(ErrorCode::CouldNotLoadMarketData);
        }
        let index = read_u16_le(data, layout.index_offset);
        if !account.loads {
            proof {
                lemma_load_multiple_err(accounts@, i + 1, accounts@.len() as int, must_be_writable, layout, discriminator@);
            }
            return Err(ErrorCode::InvalidMarketAccount);
        }
        if must_be_writable {
            writable.insert(index);
        }
        if must_be_writable && !account.is_writable {
            proof {
                lemma_load_multiple_err(accounts@, i + 1, accounts@.len() as int, must_be_writable, layout, discriminator@);
            }
            return Err(ErrorCode::MarketWrongMutability);
        }
        map.insert(index, i);
        i = i + 1;
    }
    Ok((map, writable))
}

pub open spec fn market_layout() -> AccountLayout {
    AccountLayout { size: MARKET_ACCOUNT_SIZE, index_offset: MARKET_INDEX_OFFSET, mutability_first: false }
}

pub open spec fn vault_layout() -> AccountLayout {
    AccountLayout { size: (VAULT_INDEX_OFFSET + 2) as usize, index_offset: VAULT_INDEX_OFFSET, mutability_first: true }
}

/// The market accounts of an instruction: the position of each market's account in the
/// account list, and the markets that may be written.
pub struct MarketMap {
    pub markets: BTreeMap<u16, usize>,
    pub writable_markets: MarketSet,
}

impl MarketMap {
    /// The position of a market's account.
    pub fn get_ref(&self, market_index: &u16) -> (r: NormalResult<usize>)
        ensures
            self.markets@.contains_key(*market_index) ==> r == Ok::<usize, ErrorCode>(self.markets@[*market_index]),
            !self.markets@.contains_key(*market_index) ==> r == Err::<usize, ErrorCode>(ErrorCode::MarketNotFound),
    {
        match self.markets.get(market_index) {
            Some(position) => Ok(*position),
            None => Err(ErrorCode::MarketNotFound),
        }
    }

    /// The position of a market's account, for writing: the market must be writable.
    pub fn get_ref_mut(&self, market_index: &u16) -> (r: NormalResult<usize>)
        ensures
            !self.writable_markets@.contains(*market_index) ==> r == Err::<usize, ErrorCode>(ErrorCode::MarketWrongMutability),
            self.writable_markets@.contains(*market_index) && self.markets@.contains_key(*market_index)
                ==> r == Ok::<usize, ErrorCode>(self.markets@[*market_index]),
            self.writable_markets@.contains(*market_index) && !self.markets@.contains_key(*market_index)
                ==> r == Err::<usize, ErrorCode>(ErrorCode::MarketNotFound),
    {
        if !self.writable_markets.contains(market_index) {
            return Err(ErrorCode::MarketWrongMutability);
        }
        self.get_ref(market_index)
    }

    /// The position of the quote market's account.
    pub fn get_quote_market(&self) -> (r: NormalResult<usize>)
        ensures
            self.markets@.contains_key(QUOTE_SPOT_MARKET_INDEX) ==> r == Ok::<usize, ErrorCode>(self.markets@[QUOTE_SPOT_MARKET_INDEX]),
            !self.markets@.contains_key(QUOTE_SPOT_MARKET_INDEX) ==> r == Err::<usize, ErrorCode>(ErrorCode::MarketNotFound),
    {
        self.get_ref(&QUOTE_SPOT_MARKET_INDEX)
    }

    /// The position of the quote market's account, for writing.
    pub fn get_quote_market_mut(&self) -> (r: NormalResult<usize>)
        ensures
            !self.writable_markets@.contains(QUOTE_SPOT_MARKET_INDEX) ==> r == Err::<usize, ErrorCode>(ErrorCode::MarketWrongMutability),
            self.writable_markets@.contains(QUOTE_SPOT_MARKET_INDEX) && self.markets@.contains_key(QUOTE_SPOT_MARKET_INDEX)
                ==> r == Ok::<usize, ErrorCode>(self.markets@[QUOTE_SPOT_MARKET_INDEX]),
            self.writable_markets@.contains(QUOTE_SPOT_MARKET_INDEX) && !self.markets@.contains_key(QUOTE_SPOT_MARKET_INDEX)
                ==> r == Err::<usize, ErrorCode>(ErrorCode::MarketNotFound),
    {
        self.get_ref_mut(&QUOTE_SPOT_MARKET_INDEX)
    }

    /// Reads the market accounts that come from position `start` on, up to the first account
    /// that is not a market; returns the map and where reading stopped.
    pub fn load(writable_markets: &MarketSet, accounts: &Vec<AccountView>, start: usize, discriminator: &[u8; 8]) -> (r: NormalResult<(MarketMap, usize)>)
        ensures
            match spec_load_accounts(accounts@, start as int, Map::empty(), writable_markets@, market_layout(), discriminator@) {
                Ok((map, next)) => r matches Ok((m, n)) && m.markets@ == map && m.writable_markets@ == writable_markets@ && n == next,
                Err(e) => r is Err && r->Err_0 == e,
            },
    {
        let layout = AccountLayout { size: MARKET_ACCOUNT_SIZE, index_offset: MARKET_INDEX_OFFSET, mutability_first: false };
        let (markets, next) = load_accounts(accounts, start, writable_markets, layout, discriminator)?;
        Ok((MarketMap { markets, writable_markets: writable_markets.clone() }, next))
    }

    /// A map of one market account, writable exactly when asked.
    pub fn load_one(account: &AccountView, must_be_writable: bool, discriminator: &[u8; 8]) -> (r: NormalResult<MarketMap>)
        ensures
            match spec_load_one(*account, must_be_writable, market_layout(), discriminator@) {
                Ok(index) => r matches Ok(m) && m.markets@ == map![index => 0usize]
                    && m.writable_markets@ == (if must_be_writable { set![index] } else { Set::empty() }),
                Err(e) => r is Err && r->Err_0 == e,
            },
    {
        let layout = AccountLayout { size: MARKET_ACCOUNT_SIZE, index_offset: MARKET_INDEX_OFFSET, mutability_first: false };
        let index = load_one_account(account, must_be_writable, layout, discriminator)?;
        let mut markets: BTreeMap<u16, usize> = BTreeMap::new();
        markets.insert(index, 0);
        let mut writable_markets = MarketSet::new();
        if must_be_writable {
            writable_markets.insert(index);
        }
        proof {
            assert(markets@ =~= map![index => 0usize]);
            assert(writable_markets@ =~= (if must_be_writable { set![index] } else { Set::empty() }));
        }
        Ok(MarketMap { markets, writable_markets })
    }

    /// A map of several market accounts, all writable when asked.
    pub fn load_multiple(accounts: &Vec<AccountView>, must_be_writable: bool, discriminator: &[u8; 8]) -> (r: NormalResult<MarketMap>)
        ensures
            match spec_load_multiple(accounts@, accounts@.len() as int, must_be_writable, market_layout(), discriminator@) {
                Ok((map, writable)) => r matches Ok(m) && m.markets@ == map && m.writable_markets@ == writable,
                Err(e) => r is Err && r->Err_0 == e,
            },
    {
        let layout = AccountLayout { size: MARKET_ACCOUNT_SIZE, index_offset: MARKET_INDEX_OFFSET, mutability_first: false };
        let (markets, writable_markets) = load_multiple_accounts(accounts, must_be_writable, layout, discriminator)?;
        Ok(MarketMap { markets, writable_markets })
    }
}

/// The vault accounts of an instruction: the position of each vault's account.
pub struct VaultMap {
    pub vaults: BTreeMap<u16, usize>,
}

impl VaultMap {
    /// The position of a vault's account.
    pub fn get_ref(&self, vault_index: &u16) -> (r: NormalResult<usize>)
        ensures
            self.vaults@.contains_key(*vault_index) ==> r == Ok::<usize, ErrorCode>(self.vaults@[*vault_index]),
            !self.vaults@.contains_key(*vault_index) ==> r == Err::<usize, ErrorCode>(ErrorCode::VaultNotFound),
    {
        match self.vaults.get(vault_index) {
            Some(position) => Ok(*position),
            None => Err(ErrorCode::VaultNotFound),
        }
    }

    /// The position of a vault's account, for writing.
    pub fn get_ref_mut(&self, vault_index: &u16) -> (r: NormalResult<usize>)
        ensures
            self.vaults@.contains_key(*vault_index) ==> r == Ok::<usize, ErrorCode>(self.vaults@[*vault_index]),
            !self.vaults@.contains_key(*vault_index) ==> r == Err::<usize, ErrorCode>(ErrorCode::VaultNotFound),
    {
        self.get_ref(vault_index)
    }

    /// Reads the vault accounts that come from position `start` on, up to the first account
    /// that is not a vault; returns the map and where reading stopped.
    pub fn load(writable_vaults: &MarketSet, accounts: &Vec<AccountView>, start: usize, discriminator: &[u8; 8]) -> (r: NormalResult<(VaultMap, usize)>)
        ensures
            match spec_load_accounts(accounts@, start as int, Map::empty(), writable_vaults@, vault_layout(), discriminator@) {
                Ok((map, next)) => r matches Ok((m, n)) && m.vaults@ == map && n == next,
                Err(e) => r is Err && r->Err_0 == e,
            },
    {
        let layout = AccountLayout { size: VAULT_INDEX_OFFSET + 2, index_offset: VAULT_INDEX_OFFSET, mutability_first: true };
        let (vaults, next) = load_accounts(accounts, start, writable_vaults, layout, discriminator)?;
        Ok((VaultMap { vaults }, next))
    }

    /// A map of one vault account, writable exactly when asked.
    pub fn load_one(account: &AccountView, must_be_writable: bool, discriminator: &[u8; 8]) -> (r: NormalResult<VaultMap>)
        ensures
            match spec_load_one(*account, must_be_writable, vault_layout(), discriminator@) {
                Ok(index) => r matches Ok(m) && m.vaults@ == map![index => 0usize],
                Err(e) => r is Err && r->Err_0 == e,
            },
    {
        let layout = AccountLayout { size: VAULT_INDEX_OFFSET + 2, index_offset: VAULT_INDEX_OFFSET, mutability_first: true };
        let index = load_one_account(account, must_be_writable, layout, discriminator)?;
        let mut vaults: BTreeMap<u16, usize> = BTreeMap::new();
        vaults.insert(index, 0);
        proof {
            assert(vaults@ =~= map![index => 0usize]);
        }
        Ok(VaultMap { vaults })
    }

    /// A map of several vault accounts, all writable when asked.
    pub fn load_multiple(accounts: &Vec<AccountView>, must_be_writable: bool, discriminator: &[u8; 8]) -> (r: NormalResult<VaultMap>)
        ensures
            match spec_load_multiple(accounts@, accounts@.len() as int, must_be_writable, vault_layout(), discriminator@) {
                Ok((map, _)) => r matches Ok(m) && m.vaults@ == map,
                Err(e) => r is Err && r->Err_0 == e,
            },
    {
        let layout = AccountLayout { size: VAULT_INDEX_OFFSET + 2, index_offset: VAULT_INDEX_OFFSET, mutability_first: true };
        let (vaults, _) = load_multiple_accounts(accounts, must_be_writable, layout, discriminator)?;
        Ok(VaultMap { vaults })
    }
}

} // verus!
