//! The payroll batch: a finalizable ledger of one payout run.

use vstd::prelude::*;

use crate::config::GlobalConfig;
use crate::errors::ErrorVault;
use crate::payout::{bps_portion, compute_fee};

verus! {

/// One payout run against a vault.  The service fee is frozen at creation
/// from the fee rate then in effect; each processed payout bumps the count;
/// finalization is terminal.
#[derive(Clone, Copy, Debug, PartialEq, Eq, Structural)]
pub struct PayrollBatch {
    pub vault: u64,
    pub batch_id: u64,
    pub timestamp: i64,
    pub total_amount: u64,
    pub service_fee: u64,
    pub payout_count: u32,
    pub finalized: bool,
}

/// Opens a payroll batch for the vault, not yet finalized and with no payout
/// counted, freezing the service fee computed from the declared total and
/// the configuration's fee rate at creation time.
pub fn create_payroll_batch(
    config: &GlobalConfig,
    vault: u64,
    batch_id: u64,
    total_amount: u64,
    now: i64,
) -> (b: PayrollBatch)
    requires
        config.wf(),
    ensures
        b == (PayrollBatch {
            vault,
            batch_id,
            timestamp: now,
            total_amount,
            service_fee: b.service_fee,
            payout_count: 0u32,
            finalized: false,
        }),
        b.service_fee == bps_portion(total_amount as int, config.default_fee_bps as int),
        b.service_fee <= total_amount,
{
    let (service_fee, _net) = compute_fee(total_amount, config.default_fee_bps);
    PayrollBatch {
        vault,
        batch_id,
        timestamp: now,
        total_amount,
        service_fee,
        payout_count: 0,
        finalized: false,
    }
}

impl PayrollBatch {
    /// Closes the batch for good.  The first call succeeds and sets the
    /// flag; any further call fails and changes nothing, and a finalized
    /// batch accepts no further payout.
    pub fn finalize(&mut self) -> (r: Result<(), ErrorVault>)
        ensures
            match r {
                Ok(()) => {
                    &&& !old(self).finalized
                    &&& *final(self) == (PayrollBatch { finalized: true, ..*old(self) })
                },
                Err(e) => {
                    &&& *final(self) == *old(self)
                    &&& e == ErrorVault::BatchAlreadyFinalized
                    &&& old(self).finalized
                },
            },
    {
        if self.finalized {
            return Err(ErrorVault::BatchAlreadyFinalized);
        }
        self.finalized = true;
        Ok(())
    }
}

} // verus!
