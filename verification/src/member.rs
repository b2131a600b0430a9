//! Members kept as records of their own, and batch admission of members.

use vstd::prelude::*;
use vstd::string::StrSliceExecFns;

use crate::errors::ErrorVault;

verus! {

/// A member as an independent record referencing its vault: a payout
/// recipient with an optional percentage allocation and optional fixed
/// per-asset amounts.
#[derive(Clone, Debug)]
pub struct Member {
    pub vault: u64,
    pub wallet: u64,
    pub allocation_bps: Option<u16>,
    pub sol_payment_allocation: Option<u64>,
    pub spl_token_allocation: Option<u64>,
    pub role: String,
    pub is_active: bool,
    pub metadata_uri: Option<String>,
}

impl Member {
    /// A member record's invariant: the percentage allocation stays within
    /// 10000 basis points and the strings within their length caps.
    pub open spec fn wf(self) -> bool {
        &&& (self.allocation_bps matches Some(b) ==> b <= 10000)
        &&& self.role@.len() <= 16
        &&& (self.metadata_uri matches Some(u) ==> u@.len() <= 200)
    }

    /// Admits a member: the role and metadata URI are held to their length
    /// caps and a declared percentage allocation to 10000 basis points.
    /// A new member starts active.
    pub fn add(
        vault: u64,
        wallet: u64,
        role: String,
        allocation_bps: Option<u16>,
        sol_payment_allocation: Option<u64>,
        spl_token_allocation: Option<u64>,
        metadata_uri: Option<String>,
    ) -> (r: Result<Member, ErrorVault>)
        ensures
            match r {
                Ok(m) => {
                    &&& role@.len() <= 16
                    &&& (metadata_uri matches Some(u) ==> u@.len() <= 200)
                    &&& (allocation_bps matches Some(b) ==> b <= 10000)
                    &&& m == (Member {
                        vault,
                        wallet,
                        allocation_bps,
                        sol_payment_allocation,
                        spl_token_allocation,
                        role,
                        is_active: true,
                        metadata_uri,
                    })
                    &&& m.wf()
                },
                Err(e) => {
                    if role@.len() > 16 {
                        e == ErrorVault::RoleTooLong
                    } else if metadata_uri matches Some(u) && u@.len() > 200 {
                        e == ErrorVault::MetadataUriTooLong
                    } else {
                        e == ErrorVault::InvalidAllocationBps && (allocation_bps matches Some(b)
                            && b > 10000)
                    }
                },
            },
    {
        if role.as_str().unicode_len() > 16 {
            return Err(ErrorVault::RoleTooLong);
        }
        if let Some(uri) = &metadata_uri {
            if uri.as_str().unicode_len() > 200 {
                return Err(ErrorVault::MetadataUriTooLong);
            }
        }
        if let Some(bps) = allocation_bps {
            if bps > 10000 {
                return Err(ErrorVault::InvalidAllocationBps);
            }
        }
        Ok(
            Member {
                vault,
                wallet,
                allocation_bps,
                sol_payment_allocation,
                spl_token_allocation,
                role,
                is_active: true,
                metadata_uri,
            },
        )
    }

    /// Replaces the percentage allocation; one above 10000 basis points is
    /// rejected and leaves the member unchanged.
    pub fn update_allocation(&mut self, allocation_bps: Option<u16>) -> (r: Result<
        (),
        ErrorVault,
    >)
        requires
            old(self).wf(),
        ensures
            match r {
                Ok(()) => {
                    &&& (allocation_bps matches Some(b) ==> b <= 10000)
                    &&& *final(self) == (Member { allocation_bps, ..*old(self) })
                    &&& final(self).wf()
                },
                Err(e) => {
                    &&& *final(self) == *old(self)
                    &&& e == ErrorVault::InvalidAllocationBps
                    &&& (allocation_bps matches Some(b) && b > 10000)
                },
            },
    {
        if let Some(bps) = allocation_bps {
            if bps > 10000 {
                return Err(ErrorVault::InvalidAllocationBps);
            }
        }
        self.allocation_bps = allocation_bps;
        Ok(())
    }

    /// Replaces both fixed per-asset allocations.
    pub fn update_payment_allocations(
        &mut self,
        sol_allocation: Option<u64>,
        spl_allocation: Option<u64>,
    )
        requires
            old(self).wf(),
        ensures
            *final(self) == (Member {
                sol_payment_allocation: sol_allocation,
                spl_token_allocation: spl_allocation,
                ..*old(self)
            }),
            final(self).wf(),
    {
        self.sol_payment_allocation = sol_allocation;
        self.spl_token_allocation = spl_allocation;
    }

    /// Flips the active flag.
    pub fn toggle_active_status(&mut self)
        requires
            old(self).wf(),
        ensures
            *final(self) == (Member { is_active: !old(self).is_active, ..*old(self) }),
            final(self).wf(),
    {
        self.is_active = !self.is_active;
    }
}

/// Checks that a proposed payout destination is the member's registered
/// wallet; any other account is rejected.
pub fn require_member_wallet(member: &Member, wallet: u64) -> (r: Result<(), ErrorVault>)
    ensures
        match r {
            Ok(()) => wallet == member.wallet,
            Err(e) => e == ErrorVault::InvalidMemberWallet && wallet != member.wallet,
        },
{
    if wallet != member.wallet {
        return Err(ErrorVault::InvalidMemberWallet);
    }
    Ok(())
}

/// One member of an incoming batch.
#[derive(Clone, Debug)]
pub struct MemberData {
    pub wallet: u64,
    pub role: String,
    pub allocation_bps: Option<u16>,
    pub sol_payment_allocation: Option<u64>,
    pub spl_token_allocation: Option<u64>,
    pub metadata_uri: Option<String>,
}

/// A batch member's declared percentage allocation, zero where none is set.
pub open spec fn data_bps(m: MemberData) -> int {
    match m.allocation_bps {
        Some(b) => b as int,
        None => 0,
    }
}

/// The declared percentage total of an incoming batch.
pub open spec fn sum_data_bps(s: Seq<MemberData>) -> int
    decreases s.len(),
{
    if s.len() == 0 {
        0
    } else {
        sum_data_bps(s.drop_last()) + data_bps(s.last())
    }
}

/// The prefix bound for the batch total: every contribution is nonnegative.
pub proof fn lemma_sum_data_bps_prefix(s: Seq<MemberData>, i: int)
    requires
        0 <= i <= s.len(),
    ensures
        sum_data_bps(s.take(i)) <= sum_data_bps(s),
    decreases s.len() - i,
{
    if i == s.len() {
        assert(s.take(i) =~= s);
    } else {
        assert(s.take(i + 1).drop_last() =~= s.take(i));
        lemma_sum_data_bps_prefix(s, i + 1);
    }
}

/// What is wrong with one batch member, if anything: an overlong role, then
/// an overlong metadata URI, then an allocation over 10000 basis points.
pub open spec fn member_data_error(m: MemberData) -> Option<ErrorVault> {
    if m.role@.len() > 16 {
        Some(ErrorVault::RoleTooLong)
    } else if m.metadata_uri matches Some(u) && u@.len() > 200 {
        Some(ErrorVault::MetadataUriTooLong)
    } else if m.allocation_bps matches Some(b) && b > 10000 {
        Some(ErrorVault::InvalidAllocationBps)
    } else {
        None
    }
}

/// Validates an incoming batch of members: the batch's declared percentage
/// allocations may sum to at most 10000 basis points, counted over the
/// batch alone, and every member must respect the role, metadata URI and
/// allocation caps.  The first violation decides the error.
#[verifier::loop_isolation(false)]
pub fn bulk_add_members(members_data: &Vec<MemberData>) -> (r: Result<(), ErrorVault>)
    ensures
        match r {
            Ok(()) => {
                &&& sum_data_bps(members_data@) <= 10000
                &&& forall|k: int|
                    0 <= k < members_data@.len() ==> member_data_error(members_data@[k]) is None
            },
            Err(e) => {
                ||| (sum_data_bps(members_data@) > 10000 && e == ErrorVault::TotalAllocationExceeded)
                ||| (sum_data_bps(members_data@) <= 10000 && exists|k: int|
                    0 <= k < members_data@.len() && member_data_error(members_data@[k]) == Some(e)
                        && (forall|j: int|
                        0 <= j < k ==> member_data_error(members_data@[j]) is None))
            },
        },
{
    let n = members_data.len();
    let mut acc: u64 = 0;
    let mut i: usize = 0;
    while i < n
        invariant
            i <= n,
            acc == sum_data_bps(members_data@.take(i as int)),
            acc <= 10000,
        decreases n - i,
    {
        let w: u64 = match members_data[i].allocation_bps {
            Some(b) => b as u64,
            None => 0u64,
        };
        proof {
            assert(members_data@.take(i + 1).drop_last() =~= members_data@.take(i as int));
        }
        acc = acc + w;
        i = i + 1;
        if acc > 10000 {
            proof {
                lemma_sum_data_bps_prefix(members_data@, i as int);
            }
            return Err(ErrorVault::TotalAllocationExceeded);
        }
    }
    proof {
        assert(members_data@.take(n as int) =~= members_data@);
    }
    let mut k: usize = 0;
    while k < n
        invariant
            k <= n,
            forall|j: int| 0 <= j < k ==> member_data_error(members_data@[j]) is None,
        decreases n - k,
    {
        let m = &members_data[k];
        if m.role.as_str().unicode_len() > 16 {
            return Err(ErrorVault::RoleTooLong);
        }
        if let Some(uri) = &m.metadata_uri {
            if uri.as_str().unicode_len() > 200 {
                return Err(ErrorVault::MetadataUriTooLong);
            }
        }
        if let Some(bps) = m.allocation_bps {
            if bps > 10000 {
                return Err(ErrorVault::InvalidAllocationBps);
            }
        }
        k = k + 1;
    }
    Ok(())
}

} // verus!
