//! The vault-embedded member roster and its allocation sums.

use vstd::prelude::*;

use crate::errors::ErrorVault;
use crate::vault_account::{AllocationType, VaultAccount};

verus! {

/// A member as the vault embeds it: a payout recipient with either a
/// percentage allocation in basis points or fixed per-asset amounts, a role
/// label and an active flag.
#[derive(Clone, Debug)]
pub struct MemberSplit {
    pub wallet: u64,
    pub allocation_bps: Option<u16>,
    pub sol_payment_allocation: Option<u16>,
    pub spl_token_allocation: Option<u16>,
    pub role: String,
    pub is_active: bool,
    pub metadata_uri: Option<String>,
}

/// A member's declared percentage allocation, zero where none is set.
pub open spec fn member_bps(m: MemberSplit) -> int {
    match m.allocation_bps {
        Some(b) => b as int,
        None => 0,
    }
}

/// What an active member contributes to the percentage total: its allocation
/// in basis points, zero when it is inactive or has none set.
pub open spec fn member_active_bps(m: MemberSplit) -> int {
    if m.is_active {
        member_bps(m)
    } else {
        0
    }
}

/// The percentage total of the active roster, in basis points.
pub open spec fn sum_active_bps(s: Seq<MemberSplit>) -> int
    decreases s.len(),
{
    if s.len() == 0 {
        0
    } else {
        sum_active_bps(s.drop_last()) + member_active_bps(s.last())
    }
}

/// What a member contributes when an edit re-validates the whole roster:
/// its allocation in basis points, with one basis point standing in where
/// none is set.
pub open spec fn member_edit_bps(m: MemberSplit) -> int {
    match m.allocation_bps {
        Some(b) => b as int,
        None => 1,
    }
}

/// The re-validation total over the whole roster, active or not.
pub open spec fn sum_edit_bps(s: Seq<MemberSplit>) -> int
    decreases s.len(),
{
    if s.len() == 0 {
        0
    } else {
        sum_edit_bps(s.drop_last()) + member_edit_bps(s.last())
    }
}

/// A member's fixed native-asset allocation, zero where none is set.
pub open spec fn member_fixed_sol(m: MemberSplit) -> int {
    match m.sol_payment_allocation {
        Some(a) => a as int,
        None => 0,
    }
}

/// The roster's total of fixed native-asset allocations.
pub open spec fn sum_fixed_sol(s: Seq<MemberSplit>) -> int
    decreases s.len(),
{
    if s.len() == 0 {
        0
    } else {
        sum_fixed_sol(s.drop_last()) + member_fixed_sol(s.last())
    }
}

/// A member's fixed token allocation, zero where none is set.
pub open spec fn member_fixed_spl(m: MemberSplit) -> int {
    match m.spl_token_allocation {
        Some(a) => a as int,
        None => 0,
    }
}

/// The roster's total of fixed token allocations.
pub open spec fn sum_fixed_spl(s: Seq<MemberSplit>) -> int
    decreases s.len(),
{
    if s.len() == 0 {
        0
    } else {
        sum_fixed_spl(s.drop_last()) + member_fixed_spl(s.last())
    }
}

/// A prefix of the roster never contributes more to the percentage total
/// than the whole roster: every contribution is nonnegative.
pub proof fn lemma_sum_active_bps_prefix(s: Seq<MemberSplit>, i: int)
    requires
        0 <= i <= s.len(),
    ensures
        sum_active_bps(s.take(i)) <= sum_active_bps(s),
    decreases s.len() - i,
{
    if i == s.len() {
        assert(s.take(i) =~= s);
    } else {
        assert(s.take(i + 1).drop_last() =~= s.take(i));
        lemma_sum_active_bps_prefix(s, i + 1);
    }
}

/// The same prefix bound for the re-validation total.
pub proof fn lemma_sum_edit_bps_prefix(s: Seq<MemberSplit>, i: int)
    requires
        0 <= i <= s.len(),
    ensures
        sum_edit_bps(s.take(i)) <= sum_edit_bps(s),
    decreases s.len() - i,
{
    if i == s.len() {
        assert(s.take(i) =~= s);
    } else {
        assert(s.take(i + 1).drop_last() =~= s.take(i));
        lemma_sum_edit_bps_prefix(s, i + 1);
    }
}

/// The same prefix bound for the fixed native-asset total.
pub proof fn lemma_sum_fixed_sol_prefix(s: Seq<MemberSplit>, i: int)
    requires
        0 <= i <= s.len(),
    ensures
        sum_fixed_sol(s.take(i)) <= sum_fixed_sol(s),
    decreases s.len() - i,
{
    if i == s.len() {
        assert(s.take(i) =~= s);
    } else {
        assert(s.take(i + 1).drop_last() =~= s.take(i));
        lemma_sum_fixed_sol_prefix(s, i + 1);
    }
}

/// The same prefix bound for the fixed token total.
pub proof fn lemma_sum_fixed_spl_prefix(s: Seq<MemberSplit>, i: int)
    requires
        0 <= i <= s.len(),
    ensures
        sum_fixed_spl(s.take(i)) <= sum_fixed_spl(s),
    decreases s.len() - i,
{
    if i == s.len() {
        assert(s.take(i) =~= s);
    } else {
        assert(s.take(i + 1).drop_last() =~= s.take(i));
        lemma_sum_fixed_spl_prefix(s, i + 1);
    }
}

/// The active percentage total never exceeds the re-validation total: the
/// latter counts every member and gives the unset at least one basis point.
pub proof fn lemma_sum_active_le_edit(s: Seq<MemberSplit>)
    ensures
        sum_active_bps(s) <= sum_edit_bps(s),
    decreases s.len(),
{
    if s.len() > 0 {
        lemma_sum_active_le_edit(s.drop_last());
    }
}

/// Removing a member takes exactly its own contribution out of the
/// percentage total.
pub proof fn lemma_sum_active_bps_remove(s: Seq<MemberSplit>, i: int)
    requires
        0 <= i < s.len(),
    ensures
        sum_active_bps(s.remove(i)) == sum_active_bps(s) - member_active_bps(s[i]),
    decreases s.len(),
{
    if i == s.len() - 1 {
        assert(s.remove(i) =~= s.drop_last());
    } else {
        assert(s.remove(i).drop_last() =~= s.drop_last().remove(i));
        assert(s.remove(i).last() == s.last());
        lemma_sum_active_bps_remove(s.drop_last(), i);
    }
}

/// Whether some member of the roster has the given wallet.
pub open spec fn roster_has_wallet(s: Seq<MemberSplit>, wallet: u64) -> bool {
    exists|k: int| 0 <= k < s.len() && s[k].wallet == wallet
}

/// Finds the first roster entry with the given wallet.
fn find_wallet(v: &Vec<MemberSplit>, wallet: u64) -> (r: Option<usize>)
    ensures
        match r {
            Some(i) => {
                &&& i < v@.len()
                &&& v@[i as int].wallet == wallet
                &&& forall|j: int| 0 <= j < i ==> v@[j].wallet != wallet
            },
            None => !roster_has_wallet(v@, wallet),
        },
{
    let n = v.len();
    let mut i: usize = 0;
    while i < n
        invariant
            i <= n,
            n == v@.len(),
            forall|j: int| 0 <= j < i ==> v@[j].wallet != wallet,
        decreases n - i,
    {
        if v[i].wallet == wallet {
            return Some(i);
        }
        i = i + 1;
    }
    None
}

impl VaultAccount {
    /// Admits a member to the roster.  A wallet already present is rejected;
    /// under the percentage policy the active roster's allocations together
    /// with the newcomer's must stay within 10000 basis points.  Under the
    /// fixed policy the fixed token and native totals, though absolute
    /// amounts rather than percentages, are deliberately held to the same
    /// 10000 ceiling: the cap bounds what a roster can promise regardless of
    /// policy.
    #[verifier::loop_isolation(false)]
    pub fn add_member(&mut self, new_member: MemberSplit) -> (r: Result<(), ErrorVault>)
        requires
            old(self).wf(),
        ensures
            match r {
                Ok(()) => {
                    &&& !roster_has_wallet(old(self).members@, new_member.wallet)
                    &&& (old(self).allocation_type is AllocationPerBps ==> sum_active_bps(
                        old(self).members@,
                    ) + member_bps(new_member) <= 10000)
                    &&& (old(self).allocation_type is AllocationSpecify ==> sum_fixed_spl(
                        old(self).members@,
                    ) + member_fixed_spl(new_member) <= 10000 && sum_fixed_sol(old(self).members@)
                        + member_fixed_sol(new_member) <= 10000)
                    &&& final(self).members@ == old(self).members@.push(new_member)
                    &&& *final(self) == (VaultAccount {
                        members: final(self).members,
                        ..*old(self)
                    })
                    &&& final(self).wf()
                },
                Err(e) => {
                    &&& *final(self) == *old(self)
                    &&& if roster_has_wallet(old(self).members@, new_member.wallet) {
                        e == ErrorVault::MemberAlreadyExists
                    } else {
                        &&& e == ErrorVault::AllocationExceeded
                        &&& (old(self).allocation_type is AllocationPerBps && sum_active_bps(
                            old(self).members@,
                        ) + member_bps(new_member) > 10000) || (old(
                            self,
                        ).allocation_type is AllocationSpecify && (sum_fixed_spl(
                            old(self).members@,
                        ) + member_fixed_spl(new_member) > 10000 || sum_fixed_sol(
                            old(self).members@,
                        ) + member_fixed_sol(new_member) > 10000))
                    }
                },
            },
    {
        if find_wallet(&self.members, new_member.wallet).is_some() {
            return Err(ErrorVault::MemberAlreadyExists);
        }
        let n = self.members.len();
        match self.allocation_type {
            AllocationType::AllocationPerBps => {
                let mut acc: u64 = 0;
                let mut j: usize = 0;
                while j < n
                    invariant
                        *self == *old(self),
                        old(self).wf(),
                        self.allocation_type is AllocationPerBps,
                        j <= n,
                        n == self.members@.len(),
                        acc == sum_active_bps(self.members@.take(j as int)),
                        acc <= 10000,
                    decreases n - j,
                {
                    let m = &self.members[j];
                    let w: u64 = if m.is_active {
                        match m.allocation_bps {
                            Some(b) => b as u64,
                            None => 0u64,
                        }
                    } else {
                        0u64
                    };
                    proof {
                        assert(self.members@.take(j + 1).drop_last() =~= self.members@.take(
                            j as int,
                        ));
                        lemma_sum_active_bps_prefix(self.members@, j + 1);
                    }
                    acc = acc + w;
                    j = j + 1;
                }
                proof {
                    assert(self.members@.take(n as int) =~= self.members@);
                }
                let extra: u64 = match new_member.allocation_bps {
                    Some(b) => b as u64,
                    None => 0u64,
                };
                if acc + extra > 10000 {
                    return Err(ErrorVault::AllocationExceeded);
                }
            },
            AllocationType::AllocationSpecify => {
                let mut acc: u64 = 0;
                let mut j: usize = 0;
                while j < n
                    invariant
                        *self == *old(self),
                        self.allocation_type is AllocationSpecify,
                        j <= n,
                        n == self.members@.len(),
                        acc == sum_fixed_spl(self.members@.take(j as int)),
                        acc <= 10000,
                    decreases n - j,
                {
                    let w: u64 = match self.members[j].spl_token_allocation {
                        Some(a) => a as u64,
                        None => 0u64,
                    };
                    proof {
                        assert(self.members@.take(j + 1).drop_last() =~= self.members@.take(
                            j as int,
                        ));
                    }
                    acc = acc + w;
                    j = j + 1;
                    if acc > 10000 {
                        proof {
                            lemma_sum_fixed_spl_prefix(self.members@, j as int);
                        }
                        return Err(ErrorVault::AllocationExceeded);
                    }
                }
                proof {
                    assert(self.members@.take(n as int) =~= self.members@);
                }
                let extra_spl: u64 = match new_member.spl_token_allocation {
                    Some(a) => a as u64,
                    None => 0u64,
                };
                if acc + extra_spl > 10000 {
                    return Err(ErrorVault::AllocationExceeded);
                }
                let mut acc_sol: u64 = 0;
                let mut j2: usize = 0;
                while j2 < n
                    invariant
                        *self == *old(self),
                        self.allocation_type is AllocationSpecify,
                        j2 <= n,
                        n == self.members@.len(),
                        acc_sol == sum_fixed_sol(self.members@.take(j2 as int)),
                        acc_sol <= 10000,
                    decreases n - j2,
                {
                    let w: u64 = match self.members[j2].sol_payment_allocation {
                        Some(a) => a as u64,
                        None => 0u64,
                    };
                    proof {
                        assert(self.members@.take(j2 + 1).drop_last() =~= self.members@.take(
                            j2 as int,
                        ));
                    }
                    acc_sol = acc_sol + w;
                    j2 = j2 + 1;
                    if acc_sol > 10000 {
                        proof {
                            lemma_sum_fixed_sol_prefix(self.members@, j2 as int);
                        }
                        return Err(ErrorVault::AllocationExceeded);
                    }
                }
                proof {
                    assert(self.members@.take(n as int) =~= self.members@);
                }
                let extra_sol: u64 = match new_member.sol_payment_allocation {
                    Some(a) => a as u64,
                    None => 0u64,
                };
                if acc_sol + extra_sol > 10000 {
                    return Err(ErrorVault::AllocationExceeded);
                }
            },
        }
        proof {
            assert(self.members@.push(new_member).drop_last() =~= self.members@);
        }
        self.members.push(new_member);
        Ok(())
    }

    /// Replaces the roster entry for a wallet and re-validates the whole
    /// roster's percentage total, counting one basis point for every member
    /// without an explicit allocation.  A wallet not on the roster, or a
    /// total over the cap, leaves the vault unchanged.
    #[verifier::loop_isolation(false)]
    pub fn edit_member(&mut self, wallet: u64, updated: MemberSplit) -> (r: Result<
        (),
        ErrorVault,
    >)
        requires
            old(self).wf(),
        ensures
            match r {
                Ok(()) => {
                    &&& exists|k: int|
                        {
                            &&& 0 <= k < old(self).members@.len()
                            &&& old(self).members@[k].wallet == wallet
                            &&& forall|j: int| 0 <= j < k ==> old(self).members@[j].wallet != wallet
                            &&& final(self).members@ == old(self).members@.update(k, updated)
                            &&& sum_edit_bps(old(self).members@.update(k, updated)) <= 10000
                        }
                    &&& *final(self) == (VaultAccount {
                        members: final(self).members,
                        ..*old(self)
                    })
                    &&& final(self).wf()
                },
                Err(e) => {
                    &&& *final(self) == *old(self)
                    &&& if !roster_has_wallet(old(self).members@, wallet) {
                        e == ErrorVault::MemberNotFound
                    } else {
                        &&& e == ErrorVault::AllocationExceeded
                        &&& exists|k: int|
                            {
                                &&& 0 <= k < old(self).members@.len()
                                &&& old(self).members@[k].wallet == wallet
                                &&& forall|j: int|
                                    0 <= j < k ==> old(self).members@[j].wallet != wallet
                                &&& sum_edit_bps(old(self).members@.update(k, updated)) > 10000
                            }
                    }
                },
            },
    {
        let idx = match find_wallet(&self.members, wallet) {
            Some(i) => i,
            None => {
                return Err(ErrorVault::MemberNotFound);
            },
        };
        let ghost target = self.members@.update(idx as int, updated);
        let n = self.members.len();
        let mut acc: u64 = 0;
        let mut j: usize = 0;
        while j < n
            invariant
                *self == *old(self),
                old(self).wf(),
                idx < n,
                n == self.members@.len(),
                self.members@[idx as int].wallet == wallet,
                forall|k: int| 0 <= k < idx ==> self.members@[k].wallet != wallet,
                target == self.members@.update(idx as int, updated),
                j <= n,
                acc == sum_edit_bps(target.take(j as int)),
                acc <= 10000,
            decreases n - j,
        {
            let w: u64 = if j == idx {
                match updated.allocation_bps {
                    Some(b) => b as u64,
                    None => 1u64,
                }
            } else {
                match self.members[j].allocation_bps {
                    Some(b) => b as u64,
                    None => 1u64,
                }
            };
            proof {
                assert(target.take(j + 1).drop_last() =~= target.take(j as int));
            }
            acc = acc + w;
            j = j + 1;
            if acc > 10000 {
                proof {
                    lemma_sum_edit_bps_prefix(target, j as int);
                }
                return Err(ErrorVault::AllocationExceeded);
            }
        }
        proof {
            assert(target.take(n as int) =~= target);
            lemma_sum_active_le_edit(target);
        }
        self.members.set(idx, updated);
        Ok(())
    }

    /// Strikes the roster entry for a wallet; a wallet not on the roster
    /// leaves the vault unchanged.  Removal only shrinks the allocation
    /// totals, so no re-validation is needed.
    pub fn remove_member(&mut self, wallet: u64) -> (r: Result<(), ErrorVault>)
        requires
            old(self).wf(),
        ensures
            match r {
                Ok(()) => {
                    &&& exists|k: int|
                        {
                            &&& 0 <= k < old(self).members@.len()
                            &&& old(self).members@[k].wallet == wallet
                            &&& forall|j: int| 0 <= j < k ==> old(self).members@[j].wallet != wallet
                            &&& final(self).members@ == old(self).members@.remove(k)
                        }
                    &&& *final(self) == (VaultAccount {
                        members: final(self).members,
                        ..*old(self)
                    })
                    &&& final(self).wf()
                },
                Err(e) => {
                    &&& *final(self) == *old(self)
                    &&& e == ErrorVault::MemberNotFound
                    &&& !roster_has_wallet(old(self).members@, wallet)
                },
            },
    {
        match find_wallet(&self.members, wallet) {
            Some(i) => {
                proof {
                    lemma_sum_active_bps_remove(self.members@, i as int);
                }
                self.members.remove(i);
                Ok(())
            },
            None => Err(ErrorVault::MemberNotFound),
        }
    }
}

} // verus!
