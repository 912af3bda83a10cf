//! The next unused nonce of every account, handed out one at a time.
use vstd::prelude::*;
use dashmap::DashMap;

verus! {

#[verifier::external_type_specification]
#[verifier::external_body]
#[verifier::reject_recursive_types(K)]
#[verifier::reject_recursive_types(V)]
#[verifier::reject_recursive_types(S)]
pub struct ExDashMap<K, V, S>(DashMap<K, V, S>);

/// The map from account to next nonce.
pub type NonceTable = DashMap<u32, u64>;

/// The key-value pairs that a nonce table holds.
pub uninterp spec fn nonce_entries(m: NonceTable) -> Map<u32, u64>;

/// Relies on `DashMap::with_capacity`, which makes an empty map.
#[verifier::external_body]
fn new_table(capacity: usize) -> (r: NonceTable)
    ensures
        nonce_entries(r).dom().is_empty(),
{
    DashMap::with_capacity(capacity)
}

/// Relies on `DashMap::insert`, which maps `key` to `value`, replacing any
/// earlier value, and leaves the other keys alone.
#[verifier::external_body]
fn table_insert(m: &mut NonceTable, key: u32, value: u64)
    ensures
        nonce_entries(*final(m)) == nonce_entries(*old(m)).insert(key, value),
{
    m.insert(key, value);
}

/// Relies on `DashMap::get`, which finds the value stored under `key`.
#[verifier::external_body]
fn table_get(m: &NonceTable, key: u32) -> (r: Option<u64>)
    ensures
        r == (if nonce_entries(*m).contains_key(key) {
            Some(nonce_entries(*m)[key])
        } else {
            None::<u64>
        }),
{
    m.get(&key).map(|entry| *entry.value())
}

/// The nonce pool of accounts `0..num_accounts`. Every account starts at
/// nonce 0, and a claim hands out the account's next nonce and moves past
/// it, so each account's nonces are handed out as 0, 1, 2, ... with no
/// repeat and no gap.
pub struct NonceMap {
    table: NonceTable,
    num_accounts: u32,
    claimed: Ghost<Map<u32, Seq<u64>>>,
}

impl NonceMap {
    /// The next nonce of each account.
    pub closed spec fn next_nonces(&self) -> Map<u32, u64> {
        nonce_entries(self.table)
    }

    /// The nonces handed out so far for each account, in the order given.
    pub closed spec fn history(&self) -> Map<u32, Seq<u64>> {
        self.claimed@
    }

    pub closed spec fn accounts(&self) -> u32 {
        self.num_accounts
    }

    pub closed spec fn wf(&self) -> bool {
        &&& forall|a: u32| #[trigger]
            self.next_nonces().contains_key(a) <==> a < self.num_accounts
        &&& forall|a: u32| #[trigger] self.claimed@.contains_key(a) <==> a < self.num_accounts
        &&& forall|a: u32|
            a < self.num_accounts ==> #[trigger] self.claimed@[a].len() == self.next_nonces()[a]
        &&& forall|a: u32, i: int|
            a < self.num_accounts && 0 <= i < self.claimed@[a].len() ==> #[trigger] self.claimed@[a][i]
                == i
    }

    /// Accounts `0..num_accounts`, each with nothing claimed yet.
    pub fn new(num_accounts: u32) -> (r: NonceMap)
        ensures
            r.wf(),
            r.accounts() == num_accounts,
            forall|a: u32| a < num_accounts ==> #[trigger] r.next_nonces()[a] == 0,
            forall|a: u32| a < num_accounts ==> #[trigger] r.history()[a].len() == 0,
    {
        let mut table = new_table(num_accounts as usize);
        let mut i: u32 = 0;
        while i < num_accounts
            invariant
                i <= num_accounts,
                forall|a: u32| #[trigger] nonce_entries(table).contains_key(a) <==> a < i,
                forall|a: u32| a < i ==> #[trigger] nonce_entries(table)[a] == 0,
            decreases num_accounts - i,
        {
            table_insert(&mut table, i, 0);
            i = i + 1;
        }
        let ghost claimed = Map::new(|a: u32| a < num_accounts, |a: u32| Seq::<u64>::empty());
        NonceMap { table, num_accounts, claimed: Ghost(claimed) }
    }

    pub fn num_accounts(&self) -> (r: u32)
        ensures
            r == self.accounts(),
    {
        self.num_accounts
    }

    /// The next nonce that `account` would be handed.
    pub fn nonce_of(&self, account: u32) -> (r: u64)
        requires
            self.wf(),
            account < self.accounts(),
        ensures
            r == self.next_nonces()[account],
    {
        table_get(&self.table, account).unwrap()
    }

    /// Hands out the next nonce of `account` and moves past it. Returns
    /// `None`, changing nothing, only when the account has used every nonce
    /// below `u64::MAX`.
    pub fn claim(&mut self, account: u32) -> (r: Option<u64>)
        requires
            old(self).wf(),
            account < old(self).accounts(),
        ensures
            final(self).wf(),
            final(self).accounts() == old(self).accounts(),
            old(self).next_nonces()[account] == u64::MAX ==> r is None && *final(self) == *old(self),
            old(self).next_nonces()[account] < u64::MAX ==> {
                &&& r == Some(old(self).next_nonces()[account])
                &&& final(self).next_nonces() == old(self).next_nonces().insert(
                    account,
                    (old(self).next_nonces()[account] + 1) as u64,
                )
                &&& final(self).history() == old(self).history().insert(
                    account,
                    old(self).history()[account].push(old(self).next_nonces()[account]),
                )
            },
    {
        let current = table_get(&self.table, account).unwrap();
        if current == u64::MAX {
            return None;
        }
        table_insert(&mut self.table, account, current + 1);
        let ghost old_claimed = self.claimed@;
        self.claimed = Ghost(old_claimed.insert(account, old_claimed[account].push(current)));
        assert forall|a: u32, i: int|
            a < self.num_accounts && 0 <= i < self.claimed@[a].len() implies #[trigger] self.claimed@[a][i]
            == i by {
            if a != account {
                assert(self.claimed@[a] == old_claimed[a]);
            } else if i < old_claimed[a].len() {
                assert(self.claimed@[a][i] == old_claimed[a][i]);
            }
        }
        Some(current)
    }
}

/// Every account's handed-out nonces are exactly `0, 1, ..., n - 1` in
/// order, where `n` is its next nonce: none repeats and none is skipped.
pub proof fn lemma_claimed_nonces_gap_free(m: &NonceMap, account: u32)
    requires
        m.wf(),
        account < m.accounts(),
    ensures
        m.history()[account].len() == m.next_nonces()[account],
        forall|i: int| 0 <= i < m.history()[account].len() ==> #[trigger] m.history()[account][i] == i,
        m.history()[account].no_duplicates(),
{
    let h = m.history()[account];
    assert forall|i: int, j: int| 0 <= i < h.len() && 0 <= j < h.len() && i != j implies h[i]
        != h[j] by {
        assert(h[i] == i);
        assert(h[j] == j);
    }
}

} // verus!
