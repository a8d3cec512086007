use vstd::prelude::*;

use std::collections::BTreeSet;

verus! {

broadcast use vstd::laws_cmp::group_laws_cmp;

/// The set of market (or vault) indexes whose accounts an instruction may write.
pub type MarketSet = BTreeSet<u16>;

/// Index that a fixed list of vault indexes uses to mark an empty slot.
pub const EMPTY_VAULT_SLOT: u16 = 100;

/// The writable set that holds one market.
pub fn get_writable_market_set(market_index: u16) -> (r: MarketSet)
    ensures
        r@ == set![market_index],
{
    let mut writable_markets = MarketSet::new();
    writable_markets.insert(market_index);
    writable_markets
}

/// The writable set that holds each of the given markets.
pub fn get_writable_market_set_from_many(market_indexes: Vec<u16>) -> (r: MarketSet)
    ensures
        r@ == market_indexes@.to_set(),
{
    let mut writable_markets = MarketSet::new();
    let mut i: usize = 0;
    while i < market_indexes.len()
        invariant
            i <= market_indexes.len(),
            writable_markets@ == market_indexes@.subrange(0, i as int).to_set(),
        decreases market_indexes.len() - i,
    {
        proof {
            lemma_prefix_to_set_push(market_indexes@, i as int);
        }
        writable_markets.insert(market_indexes[i]);
        i = i + 1;
    }
    proof {
        assert(market_indexes@.subrange(0, i as int) =~= market_indexes@);
    }
    writable_markets
}

/// The writable set that holds one vault.
pub fn get_writable_vault_set(vault_index: u16) -> (r: MarketSet)
    ensures
        r@ == set![vault_index],
{
    let mut writable_vaults = MarketSet::new();
    writable_vaults.insert(vault_index);
    writable_vaults
}

/// The writable set that holds each of the given vaults.
pub fn get_writable_vault_set_from_vec(vault_indexes: &[u16]) -> (r: MarketSet)
    ensures
        r@ == vault_indexes@.to_set(),
{
    let mut writable_vaults = MarketSet::new();
    let mut i: usize = 0;
    while i < vault_indexes.len()
        invariant
            i <= vault_indexes.len(),
            writable_vaults@ == vault_indexes@.subrange(0, i as int).to_set(),
        decreases vault_indexes.len() - i,
    {
        proof {
            lemma_prefix_to_set_push(vault_indexes@, i as int);
        }
        writable_vaults.insert(vault_indexes[i]);
        i = i + 1;
    }
    proof {
        assert(vault_indexes@.subrange(0, i as int) =~= vault_indexes@);
    }
    writable_vaults
}

/// The set of the vault indexes in a fixed list, leaving out the slots marked empty.
pub open spec fn spec_market_set_from_list(vault_indexes: Seq<u16>) -> Set<u16> {
    vault_indexes.to_set().remove(EMPTY_VAULT_SLOT)
}

/// The set that holds each vault of the list but the empty slots.
pub fn get_market_set_from_list(vault_indexes: [u16; 5]) -> (r: MarketSet)
    ensures
        r@ == spec_market_set_from_list(vault_indexes@),
        !r@.contains(EMPTY_VAULT_SLOT),
{
    let mut writable_vaults = MarketSet::new();
    let mut i: usize = 0;
    while i < 5
        invariant
            i <= 5,
            vault_indexes@.len() == 5,
            writable_vaults@ == spec_market_set_from_list(vault_indexes@.subrange(0, i as int)),
        decreases 5 - i,
    {
        proof {
            lemma_prefix_to_set_push(vault_indexes@, i as int);
        }
        let vault_index = vault_indexes[i];
        if vault_index != EMPTY_VAULT_SLOT {
            writable_vaults.insert(vault_index);
        }
        proof {
            assert(spec_market_set_from_list(vault_indexes@.subrange(0, i + 1))
                =~= (if vault_index == EMPTY_VAULT_SLOT { spec_market_set_from_list(vault_indexes@.subrange(0, i as int)) }
                    else { spec_market_set_from_list(vault_indexes@.subrange(0, i as int)).insert(vault_index) }));
        }
        i = i + 1;
    }
    proof {
        assert(vault_indexes@.subrange(0, 5) =~= vault_indexes@);
    }
    writable_vaults
}

proof fn lemma_prefix_to_set_push(s: Seq<u16>, i: int)
    requires
        0 <= i < s.len(),
    ensures
        s.subrange(0, i + 1).to_set() == s.subrange(0, i).to_set().insert(s[i]),
{
    assert(s.subrange(0, i + 1) =~= s.subrange(0, i).push(s[i]));
    s.subrange(0, i).lemma_push_to_set_commute(s[i]);
}

} // verus!
