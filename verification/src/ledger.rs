//! The vault ledger: every change of a balance goes through this module.
//!
//! A balance is credited with a checked addition and debited only when it
//! holds enough, so no operation creates value or lets a balance go negative.

use vstd::prelude::*;
use crate::account::AccountId;
use crate::error::ClawnchError;
use crate::state::{FeeVault, StakingVault, TokenTreasury};

verus! {

/// Adds `amount` to `balance`; fails with `Overflow` exactly when the sum
/// does not fit in 64 bits.
pub fn checked_credit(balance: u64, amount: u64) -> (after: Result<u64, ClawnchError>)
    ensures
        match after {
            Ok(b) => b == balance + amount,
            Err(e) => e == ClawnchError::Overflow && balance + amount > u64::MAX,
        },
{
    if amount > u64::MAX - balance {
        Err(ClawnchError::Overflow)
    } else {
        Ok(balance + amount)
    }
}

/// Takes `amount` from `balance`; fails with `InsufficientBalance` exactly
/// when `amount` exceeds `balance`.
pub fn checked_debit(balance: u64, amount: u64) -> (after: Result<u64, ClawnchError>)
    ensures
        match after {
            Ok(b) => b == balance - amount,
            Err(e) => e == ClawnchError::InsufficientBalance && amount > balance,
        },
{
    if amount > balance {
        Err(ClawnchError::InsufficientBalance)
    } else {
        Ok(balance - amount)
    }
}

/// The balance that the map `m` gives to `id`: an account that was never
/// touched holds nothing.
pub open spec fn balance_in(m: Map<AccountId, u64>, id: AccountId) -> nat {
    if m.contains_key(id) {
        m[id] as nat
    } else {
        0
    }
}

/// Whether `amount` can be added to the balance of `id`.
pub open spec fn can_credit(m: Map<AccountId, u64>, id: AccountId, amount: nat) -> bool {
    balance_in(m, id) + amount <= u64::MAX
}

/// The balances after `amount` was added to that of `id`.
pub open spec fn credited(m: Map<AccountId, u64>, id: AccountId, amount: nat) -> Map<
    AccountId,
    u64,
> {
    m.insert(id, (balance_in(m, id) + amount) as u64)
}

/// Whether `amount` can be taken from the balance of `id`.
pub open spec fn can_debit(m: Map<AccountId, u64>, id: AccountId, amount: nat) -> bool {
    amount <= balance_in(m, id)
}

/// The balances after `amount` was taken from that of `id`.
pub open spec fn debited(m: Map<AccountId, u64>, id: AccountId, amount: nat) -> Map<
    AccountId,
    u64,
> {
    m.insert(id, (balance_in(m, id) - amount) as u64)
}

/// One account of the ledger.
#[derive(Clone, Copy, Debug)]
struct LedgerEntry {
    id: AccountId,
    balance: u64,
}

/// A store of token balances, keyed by account.
///
/// Its view is the map from each account that was ever written to its
/// balance. No account occurs twice in the store.
#[derive(Debug)]
pub struct VaultLedger {
    entries: Vec<LedgerEntry>,
}

spec fn holds(s: Seq<LedgerEntry>, id: AccountId) -> bool {
    exists|i: int| 0 <= i < s.len() && s[i].id == id
}

spec fn place(s: Seq<LedgerEntry>, id: AccountId) -> int {
    choose|i: int| 0 <= i < s.len() && s[i].id == id
}

spec fn distinct(s: Seq<LedgerEntry>) -> bool {
    forall|i: int, j: int| 0 <= i < j < s.len() ==> s[i].id != s[j].id
}

spec fn entries_map(s: Seq<LedgerEntry>) -> Map<AccountId, u64> {
    Map::new(|id: AccountId| holds(s, id), |id: AccountId| s[place(s, id)].balance)
}

proof fn lemma_entry_in_map(s: Seq<LedgerEntry>, i: int)
    requires
        distinct(s),
        0 <= i < s.len(),
    ensures
        entries_map(s).contains_key(s[i].id),
        entries_map(s)[s[i].id] == s[i].balance,
{
    assert(holds(s, s[i].id));
    let p: int = place(s, s[i].id);
    assert(p == i);
}

proof fn lemma_absent_from_map(s: Seq<LedgerEntry>, id: AccountId)
    requires
        forall|i: int| 0 <= i < s.len() ==> s[i].id != id,
    ensures
        !entries_map(s).contains_key(id),
{
}

proof fn lemma_update_entry(s: Seq<LedgerEntry>, i: int, balance: u64)
    requires
        distinct(s),
        0 <= i < s.len(),
    ensures
        distinct(s.update(i, LedgerEntry { id: s[i].id, balance })),
        entries_map(s.update(i, LedgerEntry { id: s[i].id, balance })) == entries_map(s).insert(
            s[i].id,
            balance,
        ),
{
    let t: Seq<LedgerEntry> = s.update(i, LedgerEntry { id: s[i].id, balance });
    assert(distinct(t));
    assert forall|id: AccountId| holds(t, id) == holds(s, id) by {
        if holds(s, id) {
            let p: int = place(s, id);
            assert(t[p].id == id);
        }
        if holds(t, id) {
            let p: int = place(t, id);
            assert(s[p].id == id);
        }
    }
    assert forall|id: AccountId| #[trigger] holds(t, id) implies entries_map(t)[id]
        == entries_map(s).insert(s[i].id, balance)[id] by {
        let p: int = place(t, id);
        lemma_entry_in_map(t, p);
        if id != s[i].id {
            lemma_entry_in_map(s, p);
        }
    }
    assert(entries_map(t) =~= entries_map(s).insert(s[i].id, balance));
}

proof fn lemma_push_entry(s: Seq<LedgerEntry>, e: LedgerEntry)
    requires
        distinct(s),
        forall|i: int| 0 <= i < s.len() ==> s[i].id != e.id,
    ensures
        distinct(s.push(e)),
        entries_map(s.push(e)) == entries_map(s).insert(e.id, e.balance),
{
    let t: Seq<LedgerEntry> = s.push(e);
    assert(distinct(t));
    assert(t[s.len() as int].id == e.id);
    assert forall|id: AccountId| holds(t, id) == (holds(s, id) || id == e.id) by {
        if holds(s, id) {
            let p: int = place(s, id);
            assert(t[p].id == id);
        }
        if holds(t, id) && id != e.id {
            let p: int = place(t, id);
            assert(s[p].id == id);
        }
    }
    assert forall|id: AccountId| #[trigger] holds(t, id) implies entries_map(t)[id]
        == entries_map(s).insert(e.id, e.balance)[id] by {
        let p: int = place(t, id);
        lemma_entry_in_map(t, p);
        if id != e.id {
            lemma_entry_in_map(s, p);
        }
    }
    assert(entries_map(t) =~= entries_map(s).insert(e.id, e.balance));
}

impl View for VaultLedger {
    type V = Map<AccountId, u64>;

    closed spec fn view(&self) -> Map<AccountId, u64> {
        entries_map(self.entries@)
    }
}

impl Clone for VaultLedger {
    fn clone(&self) -> (copy: Self)
        ensures
            copy@ == self@,
    {
        proof {
            use_type_invariant(self);
        }
        let mut entries: Vec<LedgerEntry> = Vec::new();
        let mut i: usize = 0;
        while i < self.entries.len()
            invariant
                i <= self.entries@.len(),
                entries@ == self.entries@.subrange(0, i as int),
            decreases self.entries@.len() - i,
        {
            entries.push(self.entries[i]);
            i += 1;
        }
        assert(entries@ =~= self.entries@);
        VaultLedger { entries }
    }
}

impl VaultLedger {
    #[verifier::type_invariant]
    spec fn well_formed(self) -> bool {
        distinct(self.entries@)
    }

    /// A ledger in which no account holds anything.
    pub fn new() -> (ledger: VaultLedger)
        ensures
            ledger@ == Map::<AccountId, u64>::empty(),
    {
        let ledger = VaultLedger { entries: Vec::new() };
        assert(ledger@ =~= Map::<AccountId, u64>::empty());
        ledger
    }

    fn find(&self, id: AccountId) -> (found: Option<usize>)
        ensures
            match found {
                Some(i) => i < self.entries@.len() && self.entries@[i as int].id == id,
                None => forall|i: int| 0 <= i < self.entries@.len() ==> self.entries@[i].id != id,
            },
    {
        let mut i: usize = 0;
        while i < self.entries.len()
            invariant
                i <= self.entries@.len(),
                forall|j: int| 0 <= j < i ==> self.entries@[j].id != id,
            decreases self.entries@.len() - i,
        {
            if self.entries[i].id == id {
                return Some(i);
            }
            i += 1;
        }
        None
    }

    /// Reads the balance of `id`; an account that was never written holds 0.
    pub fn get_balance(&self, id: AccountId) -> (balance: u64)
        ensures
            balance == balance_in(self@, id),
    {
        proof {
            use_type_invariant(self);
        }
        match self.find(id) {
            Some(i) => {
                proof {
                    lemma_entry_in_map(self.entries@, i as int);
                }
                self.entries[i].balance
            },
            None => {
                proof {
                    lemma_absent_from_map(self.entries@, id);
                }
                0
            },
        }
    }

    /// Writes the balance of `id` and leaves every other account as it was.
    pub fn set_balance(&mut self, id: AccountId, balance: u64)
        ensures
            final(self)@ == old(self)@.insert(id, balance),
    {
        proof {
            use_type_invariant(&*self);
        }
        let found: Option<usize> = self.find(id);
        let mut entries: Vec<LedgerEntry> = Vec::new();
        std::mem::swap(&mut entries, &mut self.entries);
        match found {
            Some(i) => {
                proof {
                    lemma_update_entry(entries@, i as int, balance);
                }
                entries[i] = LedgerEntry { id, balance };
            },
            None => {
                proof {
                    lemma_push_entry(entries@, LedgerEntry { id, balance });
                }
                entries.push(LedgerEntry { id, balance });
            },
        }
        self.entries = entries;
    }

    /// Adds `amount` to the balance of `id`.
    ///
    /// Fails with `Overflow`, and changes nothing, exactly when the new
    /// balance would not fit in 64 bits.
    pub fn credit(&mut self, id: AccountId, amount: u64) -> (done: Result<(), ClawnchError>)
        ensures
            match done {
                Ok(_) => can_credit(old(self)@, id, amount as nat) && final(self)@ == credited(
                    old(self)@,
                    id,
                    amount as nat,
                ),
                Err(e) => e == ClawnchError::Overflow && !can_credit(old(self)@, id, amount as nat)
                    && final(self)@ == old(self)@,
            },
    {
        let balance: u64 = self.get_balance(id);
        match checked_credit(balance, amount) {
            Ok(after) => {
                self.set_balance(id, after);
                Ok(())
            },
            Err(e) => Err(e),
        }
    }

    /// Takes `amount` from the balance of `id`.
    ///
    /// Fails with `InsufficientBalance`, and changes nothing, exactly when the
    /// account holds less than `amount`.
    pub fn debit(&mut self, id: AccountId, amount: u64) -> (done: Result<(), ClawnchError>)
        ensures
            match done {
                Ok(_) => can_debit(old(self)@, id, amount as nat) && final(self)@ == debited(
                    old(self)@,
                    id,
                    amount as nat,
                ),
                Err(e) => e == ClawnchError::InsufficientBalance && !can_debit(
                    old(self)@,
                    id,
                    amount as nat,
                ) && final(self)@ == old(self)@,
            },
    {
        let balance: u64 = self.get_balance(id);
        match checked_debit(balance, amount) {
            Ok(after) => {
                self.set_balance(id, after);
                Ok(())
            },
            Err(e) => Err(e),
        }
    }
}

impl FeeVault {
    /// Adds `amount` to the vault; fails with `Overflow`, and changes
    /// nothing, exactly when the balance would not fit in 64 bits.
    pub fn credit(&mut self, amount: u64) -> (done: Result<(), ClawnchError>)
        ensures
            match done {
                Ok(_) => old(self).balance + amount <= u64::MAX && *final(self) == (FeeVault {
                    balance: (old(self).balance + amount) as u64,
                    ..*old(self)
                }),
                Err(e) => e == ClawnchError::Overflow && old(self).balance + amount > u64::MAX
                    && *final(self) == *old(self),
            },
    {
        match checked_credit(self.balance, amount) {
            Ok(after) => {
                self.balance = after;
                Ok(())
            },
            Err(e) => Err(e),
        }
    }
}

impl TokenTreasury {
    /// Adds `amount` to the treasury; fails with `Overflow`, and changes
    /// nothing, exactly when the balance would not fit in 64 bits.
    pub fn credit(&mut self, amount: u64) -> (done: Result<(), ClawnchError>)
        ensures
            match done {
                Ok(_) => old(self).balance + amount <= u64::MAX && *final(self) == (TokenTreasury {
                    balance: (old(self).balance + amount) as u64,
                    ..*old(self)
                }),
                Err(e) => e == ClawnchError::Overflow && old(self).balance + amount > u64::MAX
                    && *final(self) == *old(self),
            },
    {
        match checked_credit(self.balance, amount) {
            Ok(after) => {
                self.balance = after;
                Ok(())
            },
            Err(e) => Err(e),
        }
    }

    /// Takes `amount` from the treasury; fails with
    /// `InsufficientTreasuryBalance`, and changes nothing, exactly when the
    /// treasury holds less than `amount`. The balance is never clamped.
    pub fn debit(&mut self, amount: u64) -> (done: Result<(), ClawnchError>)
        ensures
            match done {
                Ok(_) => amount <= old(self).balance && *final(self) == (TokenTreasury {
                    balance: (old(self).balance - amount) as u64,
                    ..*old(self)
                }),
                Err(e) => e == ClawnchError::InsufficientTreasuryBalance && amount > old(
                    self,
                ).balance && *final(self) == *old(self),
            },
    {
        if amount > self.balance {
            Err(ClawnchError::InsufficientTreasuryBalance)
        } else {
            self.balance = self.balance - amount;
            Ok(())
        }
    }

    /// Takes `amount` from the treasury to pay a staker; fails with
    /// `InsufficientTreasuryForRewards`, and changes nothing, exactly when the
    /// treasury holds less than `amount`. There is no partial payout.
    pub fn pay_reward(&mut self, amount: u64) -> (done: Result<(), ClawnchError>)
        ensures
            match done {
                Ok(_) => amount <= old(self).balance && *final(self) == (TokenTreasury {
                    balance: (old(self).balance - amount) as u64,
                    ..*old(self)
                }),
                Err(e) => e == ClawnchError::InsufficientTreasuryForRewards && amount > old(
                    self,
                ).balance && *final(self) == *old(self),
            },
    {
        if amount > self.balance {
            Err(ClawnchError::InsufficientTreasuryForRewards)
        } else {
            self.balance = self.balance - amount;
            Ok(())
        }
    }
}

impl StakingVault {
    /// Adds `amount` to the principal and sets the clock to `now`; fails with
    /// `Overflow`, and changes nothing, exactly when the principal would not
    /// fit in 64 bits.
    pub fn deposit(&mut self, amount: u64, now: i64) -> (done: Result<(), ClawnchError>)
        ensures
            match done {
                Ok(_) => old(self).staked_amount + amount <= u64::MAX && *final(self) == old(
                    self,
                ).after_stake(amount, now),
                Err(e) => e == ClawnchError::Overflow && old(self).staked_amount + amount
                    > u64::MAX && *final(self) == *old(self),
            },
    {
        match checked_credit(self.staked_amount, amount) {
            Ok(after) => {
                self.staked_amount = after;
                self.last_update = now;
                Ok(())
            },
            Err(e) => Err(e),
        }
    }

    /// Empties the vault, sets the clock to `now` and hands back the
    /// principal that it held.
    pub fn withdraw(&mut self, now: i64) -> (principal: u64)
        ensures
            principal == old(self).staked_amount,
            *final(self) == old(self).after_unstake(now),
    {
        let principal: u64 = self.staked_amount;
        self.staked_amount = 0;
        self.last_update = now;
        principal
    }
}

} // verus!
