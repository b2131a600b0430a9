//! Engine-wide laws, stated over the spec functions that the operations'
//! contracts use.

use vstd::prelude::*;

use crate::payout::{bps_portion, lemma_bps_portion_bounds, sum_amounts, sum_fees, PayoutData};
use crate::roster::sum_active_bps;
use crate::vault_account::VaultAccount;

verus! {

/// Under the percentage policy, every well-formed vault keeps its active
/// members' allocations within 10000 basis points.  Creation establishes
/// well-formedness over an empty roster, and every accepted roster mutation
/// requires it of the vault it is given and ensures it of the vault it
/// leaves, so the cap holds after any sequence of accepted operations.
pub proof fn lemma_roster_cap_invariant(v: VaultAccount)
    requires
        v.wf(),
        v.allocation_type is AllocationPerBps,
    ensures
        sum_active_bps(v.members@) <= 10000,
{
}

/// A deposit followed by a payout of the same amount conserves value modulo
/// the fee.  Depositing credits the vault with `amount`; the payout debits
/// the vault by `amount`, routes the fee to the treasury and the net to the
/// member.  The vault's balance returns to its starting point, fee and net
/// are each nonnegative and add back up to `amount`, and the three balances
/// together grow by exactly the deposited amount.
pub proof fn lemma_deposit_then_payout_conserves(
    vault0: int,
    treasury0: int,
    member0: int,
    amount: int,
    fee_bps: int,
)
    requires
        0 <= amount,
        0 <= fee_bps <= 10000,
    ensures
        ({
            let fee = bps_portion(amount, fee_bps);
            let net = amount - fee;
            let vault_after = (vault0 + amount) - amount;
            let treasury_after = treasury0 + fee;
            let member_after = member0 + net;
            &&& vault_after == vault0
            &&& 0 <= fee <= amount
            &&& 0 <= net <= amount
            &&& fee + net == amount
            &&& vault_after + treasury_after + member_after == vault0 + treasury0 + member0
                + amount
        }),
{
    lemma_bps_portion_bounds(amount, fee_bps);
}

/// An empty bulk run declares nothing and owes nothing: its amount and fee
/// totals are both zero, so processing it debits no balance and moves no
/// fee.
pub proof fn lemma_empty_bulk_totals(fee_bps: int)
    ensures
        sum_amounts(Seq::<PayoutData>::empty()) == 0,
        sum_fees(Seq::<PayoutData>::empty(), fee_bps) == 0,
{
}

} // verus!
