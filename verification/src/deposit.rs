//! Crediting deposits against a vault's balances.
//!
//! The host moves the funds first and credits the vault's counters only when
//! that move succeeded; a deposit in an asset the vault has not whitelisted
//! is rejected before any counter changes.

use vstd::prelude::*;

use crate::errors::ErrorVault;
use crate::vault_account::{mints_distinct, AssetType, SplTokenBalance, VaultAccount};

verus! {

/// The balance the vault records for the given mint: the first matching
/// entry's balance, zero where no entry carries the mint.
pub open spec fn spl_balance_of(s: Seq<SplTokenBalance>, mint: u64) -> int
    decreases s.len(),
{
    if s.len() == 0 {
        0
    } else if s[0].mint == mint {
        s[0].balance as int
    } else {
        spl_balance_of(s.drop_first(), mint)
    }
}

/// Whether some entry of the list carries the given mint.
pub open spec fn has_mint(s: Seq<SplTokenBalance>, mint: u64) -> bool {
    exists|k: int| 0 <= k < s.len() && s[k].mint == mint
}

/// A list without the mint records a zero balance for it.
proof fn lemma_spl_balance_absent(s: Seq<SplTokenBalance>, mint: u64)
    requires
        forall|k: int| 0 <= k < s.len() ==> s[k].mint != mint,
    ensures
        spl_balance_of(s, mint) == 0,
    decreases s.len(),
{
    if s.len() > 0 {
        lemma_spl_balance_absent(s.drop_first(), mint);
    }
}

/// Appending an entry with a fresh mint records that entry's balance for its
/// mint and leaves every other mint's balance as it was.
proof fn lemma_spl_balance_push(s: Seq<SplTokenBalance>, e: SplTokenBalance)
    requires
        forall|k: int| 0 <= k < s.len() ==> s[k].mint != e.mint,
    ensures
        spl_balance_of(s.push(e), e.mint) == e.balance,
        forall|m: u64| m != e.mint ==> spl_balance_of(s.push(e), m) == spl_balance_of(s, m),
    decreases s.len(),
{
    if s.len() == 0 {
        assert(s.push(e).drop_first() =~= Seq::<SplTokenBalance>::empty());
        assert forall|m: u64| m != e.mint implies spl_balance_of(s.push(e), m) == spl_balance_of(
            s,
            m,
        ) by {
            assert(spl_balance_of(s.push(e).drop_first(), m) == 0);
        }
    } else {
        assert(s.push(e).drop_first() =~= s.drop_first().push(e));
        lemma_spl_balance_push(s.drop_first(), e);
        assert forall|m: u64| m != e.mint implies spl_balance_of(s.push(e), m) == spl_balance_of(
            s,
            m,
        ) by {
            assert(spl_balance_of(s.drop_first().push(e), m) == spl_balance_of(s.drop_first(), m));
        }
    }
}

/// The first entry that carries a mint records the mint's balance.
proof fn lemma_spl_balance_first(s: Seq<SplTokenBalance>, k: int, mint: u64)
    requires
        0 <= k < s.len(),
        forall|j: int| 0 <= j < k ==> s[j].mint != mint,
        s[k].mint == mint,
    ensures
        spl_balance_of(s, mint) == s[k].balance,
    decreases s.len(),
{
    if k > 0 {
        lemma_spl_balance_first(s.drop_first(), k - 1, mint);
    }
}

/// Replacing the first entry that carries a mint records the replacement's
/// balance for that mint and leaves every other mint's balance as it was.
proof fn lemma_spl_balance_update(s: Seq<SplTokenBalance>, k: int, e: SplTokenBalance)
    requires
        0 <= k < s.len(),
        forall|j: int| 0 <= j < k ==> s[j].mint != e.mint,
        s[k].mint == e.mint,
    ensures
        spl_balance_of(s.update(k, e), e.mint) == e.balance,
        forall|m: u64| m != e.mint ==> spl_balance_of(s.update(k, e), m) == spl_balance_of(s, m),
    decreases s.len(),
{
    if k == 0 {
        assert(s.update(0, e).drop_first() =~= s.drop_first());
    } else {
        assert(s.update(k, e).drop_first() =~= s.drop_first().update(k - 1, e));
        lemma_spl_balance_update(s.drop_first(), k - 1, e);
        assert forall|m: u64| m != e.mint implies spl_balance_of(s.update(k, e), m)
            == spl_balance_of(s, m) by {
            assert(spl_balance_of(s.drop_first().update(k - 1, e), m) == spl_balance_of(
                s.drop_first(),
                m,
            ));
        }
    }
}

impl VaultAccount {
    /// Credits a native-asset deposit.  The native asset must be
    /// whitelisted; on success the total balance grows by the amount and the
    /// deposit timestamp becomes `now`.
    pub fn deposit_sol(&mut self, amount: u64, now: i64) -> (r: Result<(), ErrorVault>)
        requires
            old(self).wf(),
            old(self).total_balance + amount <= u64::MAX,
        ensures
            match r {
                Ok(()) => {
                    &&& old(self).whitelisted_assets@.contains(AssetType::SOL)
                    &&& *final(self) == (VaultAccount {
                        total_balance: (old(self).total_balance + amount) as u64,
                        last_deposit_ts: now,
                        ..*old(self)
                    })
                    &&& final(self).wf()
                },
                Err(e) => {
                    &&& *final(self) == *old(self)
                    &&& e == ErrorVault::AssetNotWhitelisted
                    &&& !old(self).whitelisted_assets@.contains(AssetType::SOL)
                },
            },
    {
        if !crate::vault_account::whitelist_contains(&self.whitelisted_assets, AssetType::SOL) {
            return Err(ErrorVault::AssetNotWhitelisted);
        }
        self.total_balance = self.total_balance + amount;
        self.last_deposit_ts = now;
        Ok(())
    }

    /// Credits a token deposit against the entry for its mint, opening the
    /// entry where none exists.  The token must be whitelisted; on success
    /// the mint's recorded balance grows by the amount, every other mint's
    /// balance stays, and the deposit timestamp becomes `now`.
    pub fn deposit_spl_token(&mut self, mint: u64, amount: u64, now: i64) -> (r: Result<
        (),
        ErrorVault,
    >)
        requires
            old(self).wf(),
            spl_balance_of(old(self).spl_balances@, mint) + amount <= u64::MAX,
        ensures
            match r {
                Ok(()) => {
                    &&& old(self).whitelisted_assets@.contains(AssetType::SPLToken { mint })
                    &&& spl_balance_of(final(self).spl_balances@, mint) == spl_balance_of(
                        old(self).spl_balances@,
                        mint,
                    ) + amount
                    &&& forall|m: u64|
                        m != mint ==> spl_balance_of(final(self).spl_balances@, m)
                            == spl_balance_of(old(self).spl_balances@, m)
                    &&& (!has_mint(old(self).spl_balances@, mint) ==> final(self).spl_balances@
                        == old(self).spl_balances@.push(SplTokenBalance { mint, balance: amount }))
                    &&& (has_mint(old(self).spl_balances@, mint) ==> exists|k: int|
                        {
                            &&& 0 <= k < old(self).spl_balances@.len()
                            &&& old(self).spl_balances@[k].mint == mint
                            &&& final(self).spl_balances@ == old(self).spl_balances@.update(
                                k,
                                SplTokenBalance {
                                    mint,
                                    balance: (old(self).spl_balances@[k].balance + amount) as u64,
                                },
                            )
                        })
                    &&& *final(self) == (VaultAccount {
                        spl_balances: final(self).spl_balances,
                        last_deposit_ts: now,
                        ..*old(self)
                    })
                    &&& final(self).wf()
                },
                Err(e) => {
                    &&& *final(self) == *old(self)
                    &&& e == ErrorVault::AssetNotWhitelisted
                    &&& !old(self).whitelisted_assets@.contains(AssetType::SPLToken { mint })
                },
            },
    {
        if !crate::vault_account::whitelist_contains(
            &self.whitelisted_assets,
            AssetType::SPLToken { mint },
        ) {
            return Err(ErrorVault::AssetNotWhitelisted);
        }
        let n = self.spl_balances.len();
        let mut i: usize = 0;
        while i < n
            invariant
                *self == *old(self),
                old(self).wf(),
                old(self).whitelisted_assets@.contains(AssetType::SPLToken { mint }),
                spl_balance_of(old(self).spl_balances@, mint) + amount <= u64::MAX,
                i <= n,
                n == self.spl_balances@.len(),
                forall|k: int| 0 <= k < i ==> old(self).spl_balances@[k].mint != mint,
            decreases n - i,
        {
            if self.spl_balances[i].mint == mint {
                proof {
                    lemma_spl_balance_first(self.spl_balances@, i as int, mint);
                }
                let entry = SplTokenBalance {
                    mint,
                    balance: self.spl_balances[i].balance + amount,
                };
                proof {
                    lemma_spl_balance_update(self.spl_balances@, i as int, entry);
                }
                let ghost orig = self.spl_balances@;
                self.spl_balances.set(i, entry);
                self.last_deposit_ts = now;
                proof {
                    assert forall|p: int, q: int|
                        0 <= p < q < orig.update(i as int, entry).len() implies orig.update(
                        i as int,
                        entry,
                    )[p].mint != orig.update(i as int, entry)[q].mint by {
                        assert(mints_distinct(orig));
                        assert(orig[i as int].mint == mint);
                    }
                }
                return Ok(());
            }
            i = i + 1;
        }
        let entry = SplTokenBalance { mint, balance: amount };
        proof {
            lemma_spl_balance_absent(self.spl_balances@, mint);
            lemma_spl_balance_push(self.spl_balances@, entry);
        }
        let ghost orig = self.spl_balances@;
        self.spl_balances.push(entry);
        self.last_deposit_ts = now;
        proof {
            assert forall|p: int, q: int|
                0 <= p < q < orig.push(entry).len() implies orig.push(entry)[p].mint != orig.push(
                entry,
            )[q].mint by {
                assert(mints_distinct(orig));
            }
        }
        Ok(())
    }
}

} // verus!
