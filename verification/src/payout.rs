//! Fee arithmetic and the payout executor.
//!
//! Every payout splits into a service fee for the treasury and a net amount
//! for the member; the vault's balance is debited by the whole amount.  The
//! functions here compute the split and commit the ledger effects; the host
//! performs the two transfers that each returned outcome calls for, inside
//! the same atomic operation.

use vstd::prelude::*;

use crate::config::GlobalConfig;
use crate::errors::ErrorVault;
use crate::member::Member;
use crate::payout_batch::PayrollBatch;
use crate::vault_account::{AssetType, PayoutSchedule, VaultAccount};

verus! {

/// The basis-point share of an amount: `floor(amount * bps / 10000)`.
/// With `bps <= 10000` the share never exceeds the amount; the truncation
/// remainder stays where the amount came from.
pub open spec fn bps_portion(amount: int, bps: int) -> int {
    amount * bps / 10000
}

/// The basis-point share of a nonnegative amount lies between zero and the
/// amount itself.
pub proof fn lemma_bps_portion_bounds(amount: int, bps: int)
    by (nonlinear_arith)
    requires
        0 <= amount,
        0 <= bps <= 10000,
    ensures
        0 <= bps_portion(amount, bps) <= amount,
{
}

/// Computes `floor(amount * bps / 10000)` without overflow by widening to
/// 128 bits.
fn portion(amount: u64, bps: u16) -> (r: u64)
    requires
        bps <= 10000,
    ensures
        r == bps_portion(amount as int, bps as int),
        r <= amount,
{
    proof {
        lemma_bps_portion_bounds(amount as int, bps as int);
        assert((amount as int) * (bps as int) <= u128::MAX) by (nonlinear_arith)
            requires
                amount <= u64::MAX,
                bps <= 10000,
        ;
    }
    let wide: u128 = (amount as u128) * (bps as u128);
    let q: u128 = wide / 10000;
    q as u64
}

/// Splits an amount into the protocol service fee and the net payout:
/// `fee == floor(amount * fee_bps / 10000)` and `fee + net == amount`.
pub fn compute_fee(amount: u64, fee_bps: u16) -> (r: (u64, u64))
    requires
        fee_bps <= 10000,
    ensures
        r.0 == bps_portion(amount as int, fee_bps as int),
        r.0 <= amount,
        r.1 == amount - r.0,
        r.0 + r.1 == amount,
{
    let fee = portion(amount, fee_bps);
    (fee, amount - fee)
}

/// The transfers one payout calls for: the whole amount debited from the
/// vault, of which the service fee goes to the treasury and the net amount
/// to the member.
#[derive(Clone, Copy, Debug, PartialEq, Eq, Structural)]
pub struct PayoutOutcome {
    pub amount: u64,
    pub service_fee: u64,
    pub net_amount: u64,
}

/// Pays one member out of a batch.  The batch must still be open and the
/// vault's balance must cover the amount; the fee rate in effect in the
/// configuration at call time decides the split.
pub fn process_sol_payout(
    vault: &mut VaultAccount,
    batch: &mut PayrollBatch,
    config: &GlobalConfig,
    amount: u64,
) -> (r: Result<PayoutOutcome, ErrorVault>)
    requires
        old(vault).wf(),
        config.wf(),
        old(batch).payout_count < u32::MAX,
    ensures
        match r {
            Ok(out) => {
                &&& !old(batch).finalized
                &&& amount <= old(vault).total_balance
                &&& out.amount == amount
                &&& out.service_fee == bps_portion(amount as int, config.default_fee_bps as int)
                &&& out.net_amount == amount - out.service_fee
                &&& out.service_fee + out.net_amount == amount
                &&& *final(vault) == (VaultAccount {
                    total_balance: (old(vault).total_balance - amount) as u64,
                    ..*old(vault)
                })
                &&& *final(batch) == (PayrollBatch {
                    payout_count: (old(batch).payout_count + 1) as u32,
                    ..*old(batch)
                })
                &&& final(vault).wf()
            },
            Err(e) => {
                &&& *final(vault) == *old(vault)
                &&& *final(batch) == *old(batch)
                &&& if old(batch).finalized {
                    e == ErrorVault::BatchAlreadyFinalized
                } else {
                    e == ErrorVault::InsufficientBalance && amount > old(vault).total_balance
                }
            },
        },
{
    if batch.finalized {
        return Err(ErrorVault::BatchAlreadyFinalized);
    }
    let (service_fee, net_amount) = compute_fee(amount, config.default_fee_bps);
    if vault.total_balance < amount {
        return Err(ErrorVault::InsufficientBalance);
    }
    vault.total_balance = vault.total_balance - amount;
    batch.payout_count = batch.payout_count + 1;
    Ok(PayoutOutcome { amount, service_fee, net_amount })
}

/// Whether the vault has a schedule and it is switched on.
pub open spec fn schedule_on(v: VaultAccount) -> bool {
    v.payout_schedule matches Some(s) && s.active
}

/// Whether the schedule's next due time has been reached.
pub open spec fn schedule_due(v: VaultAccount, now: i64) -> bool {
    v.payout_schedule matches Some(s) && now >= s.next_payout_ts
}

/// How much a scheduled payout owes the member: the basis-point share of
/// the vault's balance where a percentage allocation is set, else the fixed
/// native-asset allocation, else nothing can be resolved.
pub open spec fn scheduled_amount(v: VaultAccount, m: Member) -> Option<int> {
    match m.allocation_bps {
        Some(b) => Some(bps_portion(v.total_balance as int, b as int)),
        None => match m.sol_payment_allocation {
            Some(f) => Some(f as int),
            None => None,
        },
    }
}

/// Pays a member on the vault's schedule.  The schedule must be set and on,
/// the due time reached and the member active; the amount is resolved from
/// the member's allocation; on success the next due time advances by
/// exactly one interval.  A rejected call leaves the vault, its schedule
/// included, unchanged.
pub fn process_scheduled_payout(
    vault: &mut VaultAccount,
    member: &Member,
    config: &GlobalConfig,
    now: i64,
) -> (r: Result<PayoutOutcome, ErrorVault>)
    requires
        old(vault).wf(),
        member.wf(),
        config.wf(),
        old(vault).payout_schedule matches Some(s) ==> s.next_payout_ts + s.interval
            <= i64::MAX,
    ensures
        match r {
            Ok(out) => {
                &&& schedule_on(*old(vault))
                &&& schedule_due(*old(vault), now)
                &&& member.is_active
                &&& scheduled_amount(*old(vault), *member) == Some(out.amount as int)
                &&& out.amount <= old(vault).total_balance
                &&& out.service_fee == bps_portion(
                    out.amount as int,
                    config.default_fee_bps as int,
                )
                &&& out.net_amount == out.amount - out.service_fee
                &&& out.service_fee + out.net_amount == out.amount
                &&& (old(vault).payout_schedule matches Some(s) && *final(vault) == (VaultAccount {
                    total_balance: (old(vault).total_balance - out.amount) as u64,
                    payout_schedule: Some(PayoutSchedule {
                        next_payout_ts: (s.next_payout_ts + s.interval) as i64,
                        ..s
                    }),
                    ..*old(vault)
                }))
                &&& final(vault).wf()
            },
            Err(e) => {
                &&& *final(vault) == *old(vault)
                &&& if !schedule_on(*old(vault)) {
                    e == ErrorVault::PayoutScheduleNotActive
                } else if !schedule_due(*old(vault), now) {
                    e == ErrorVault::PayoutTimeNotReached
                } else if !member.is_active {
                    e == ErrorVault::MemberNotActive
                } else if scheduled_amount(*old(vault), *member) is None {
                    e == ErrorVault::InvalidAllocationBps
                } else {
                    e == ErrorVault::InsufficientBalance && (scheduled_amount(
                        *old(vault),
                        *member,
                    ) matches Some(a) && a > old(vault).total_balance)
                }
            },
        },
{
    let sched = match vault.payout_schedule {
        Some(s) => s,
        None => {
            return Err(ErrorVault::PayoutScheduleNotActive);
        },
    };
    if !sched.active {
        return Err(ErrorVault::PayoutScheduleNotActive);
    }
    if now < sched.next_payout_ts {
        return Err(ErrorVault::PayoutTimeNotReached);
    }
    if !member.is_active {
        return Err(ErrorVault::MemberNotActive);
    }
    let payout_amount: u64 = match member.allocation_bps {
        Some(b) => portion(vault.total_balance, b),
        None => match member.sol_payment_allocation {
            Some(f) => f,
            None => {
                return Err(ErrorVault::InvalidAllocationBps);
            },
        },
    };
    let (service_fee, net_amount) = compute_fee(payout_amount, config.default_fee_bps);
    if vault.total_balance < payout_amount {
        return Err(ErrorVault::InsufficientBalance);
    }
    vault.total_balance = vault.total_balance - payout_amount;
    vault.payout_schedule = Some(
        PayoutSchedule {
            interval: sched.interval,
            next_payout_ts: sched.next_payout_ts + sched.interval,
            active: sched.active,
        },
    );
    Ok(PayoutOutcome { amount: payout_amount, service_fee, net_amount })
}

/// One requested payout of a bulk run.
#[derive(Clone, Copy, Debug, PartialEq, Eq, Structural)]
pub struct PayoutData {
    pub member: u64,
    pub amount: u64,
    pub asset_type: AssetType,
}

/// The declared amounts of a bulk run, summed.
pub open spec fn sum_amounts(s: Seq<PayoutData>) -> int
    decreases s.len(),
{
    if s.len() == 0 {
        0
    } else {
        sum_amounts(s.drop_last()) + s.last().amount as int
    }
}

/// The service fees of a bulk run, summed at the given fee rate.
pub open spec fn sum_fees(s: Seq<PayoutData>, fee_bps: int) -> int
    decreases s.len(),
{
    if s.len() == 0 {
        0
    } else {
        sum_fees(s.drop_last(), fee_bps) + bps_portion(s.last().amount as int, fee_bps)
    }
}

/// A prefix of a bulk run never declares more than the whole run.
pub proof fn lemma_sum_amounts_prefix(s: Seq<PayoutData>, i: int)
    requires
        0 <= i <= s.len(),
    ensures
        sum_amounts(s.take(i)) <= sum_amounts(s),
    decreases s.len() - i,
{
    if i == s.len() {
        assert(s.take(i) =~= s);
    } else {
        assert(s.take(i + 1).drop_last() =~= s.take(i));
        lemma_sum_amounts_prefix(s, i + 1);
    }
}

/// The total the host must move for a bulk run: the whole declared amount
/// out of the vault, of which the summed fee goes to the treasury once.
#[derive(Clone, Copy, Debug, PartialEq, Eq, Structural)]
pub struct BulkOutcome {
    pub total_amount: u64,
    pub total_service_fee: u64,
}

/// Processes a bulk payout run in two phases: first the declared amounts
/// and their fees are summed without touching any state, then the whole run
/// is rejected if the vault's balance does not cover the total; only then
/// is the balance debited once and the batch's count bumped by the run's
/// length.  An empty run changes nothing and owes nothing.  The per-member
/// transfers are not part of this aggregate path.
#[verifier::loop_isolation(false)]
pub fn bulk_process_payouts(
    vault: &mut VaultAccount,
    batch: &mut PayrollBatch,
    config: &GlobalConfig,
    payout_data: &Vec<PayoutData>,
) -> (r: Result<BulkOutcome, ErrorVault>)
    requires
        old(vault).wf(),
        config.wf(),
        sum_amounts(payout_data@) <= u64::MAX,
        old(batch).payout_count + payout_data@.len() <= u32::MAX,
    ensures
        match r {
            Ok(out) => {
                &&& !old(batch).finalized
                &&& out.total_amount == sum_amounts(payout_data@)
                &&& out.total_service_fee == sum_fees(payout_data@, config.default_fee_bps as int)
                &&& out.total_service_fee <= out.total_amount
                &&& out.total_amount <= old(vault).total_balance
                &&& *final(vault) == (VaultAccount {
                    total_balance: (old(vault).total_balance - out.total_amount) as u64,
                    ..*old(vault)
                })
                &&& *final(batch) == (PayrollBatch {
                    payout_count: (old(batch).payout_count + payout_data@.len()) as u32,
                    ..*old(batch)
                })
                &&& final(vault).wf()
            },
            Err(e) => {
                &&& *final(vault) == *old(vault)
                &&& *final(batch) == *old(batch)
                &&& if old(batch).finalized {
                    e == ErrorVault::BatchAlreadyFinalized
                } else {
                    e == ErrorVault::InsufficientBalance && sum_amounts(payout_data@) > old(
                        vault,
                    ).total_balance
                }
            },
        },
{
    if batch.finalized {
        return Err(ErrorVault::BatchAlreadyFinalized);
    }
    let n = payout_data.len();
    let mut total_amount: u64 = 0;
    let mut total_fee: u64 = 0;
    let mut i: usize = 0;
    while i < n
        invariant
            i <= n,
            total_amount == sum_amounts(payout_data@.take(i as int)),
            total_fee == sum_fees(payout_data@.take(i as int), config.default_fee_bps as int),
            total_fee <= total_amount,
        decreases n - i,
    {
        let (fee, _net) = compute_fee(payout_data[i].amount, config.default_fee_bps);
        proof {
            assert(payout_data@.take(i + 1).drop_last() =~= payout_data@.take(i as int));
            lemma_sum_amounts_prefix(payout_data@, i + 1);
        }
        total_amount = total_amount + payout_data[i].amount;
        total_fee = total_fee + fee;
        i = i + 1;
    }
    proof {
        assert(payout_data@.take(n as int) =~= payout_data@);
    }
    if vault.total_balance < total_amount {
        return Err(ErrorVault::InsufficientBalance);
    }
    vault.total_balance = vault.total_balance - total_amount;
    batch.payout_count = batch.payout_count + (n as u32);
    Ok(BulkOutcome { total_amount, total_service_fee: total_fee })
}

} // verus!
