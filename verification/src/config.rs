//! The deployment-wide configuration: fee rate, fee recipient, vault counter.

use vstd::prelude::*;

use crate::errors::ErrorVault;

verus! {

/// The singleton configuration of a deployment.  It names the controller that
/// may change it, the treasury that collects service fees, the default fee
/// rate in basis points, and the counter from which vault identifiers are
/// issued.  Account identifiers are plain `u64` handles; the host maps them
/// one-to-one onto its own keys.
#[derive(Clone, Copy, Debug, PartialEq, Eq, Structural)]
pub struct GlobalConfig {
    pub owner: u64,
    pub treasury: u64,
    pub default_fee_bps: u16,
    pub next_company_id: u64,
}

impl GlobalConfig {
    /// The configuration's invariant: the fee rate never exceeds 100%.
    pub open spec fn wf(self) -> bool {
        self.default_fee_bps <= 10000
    }

    /// Replaces the fee-recipient account.
    pub fn update_treasury(&mut self, new_treasury: u64)
        ensures
            *final(self) == (GlobalConfig { treasury: new_treasury, ..*old(self) }),
    {
        self.treasury = new_treasury;
    }

    /// Replaces the default fee rate; a rate above 10000 basis points is
    /// rejected and leaves the configuration unchanged.
    pub fn update_default_fee(&mut self, new_fee_bps: u16) -> (r: Result<(), ErrorVault>)
        requires
            old(self).wf(),
        ensures
            match r {
                Ok(()) => {
                    &&& new_fee_bps <= 10000
                    &&& *final(self) == (GlobalConfig {
                        default_fee_bps: new_fee_bps,
                        ..*old(self)
                    })
                },
                Err(e) => {
                    &&& e == ErrorVault::InvalidFeeBps
                    &&& new_fee_bps > 10000
                    &&& *final(self) == *old(self)
                },
            },
            final(self).wf(),
    {
        if new_fee_bps > 10000 {
            return Err(ErrorVault::InvalidFeeBps);
        }
        self.default_fee_bps = new_fee_bps;
        Ok(())
    }
}

/// Checks that a proposed fee destination is the configured treasury; any
/// other account is rejected.
pub fn require_treasury(config: &GlobalConfig, treasury: u64) -> (r: Result<(), ErrorVault>)
    ensures
        match r {
            Ok(()) => treasury == config.treasury,
            Err(e) => e == ErrorVault::InvalidTreasury && treasury != config.treasury,
        },
{
    if treasury != config.treasury {
        return Err(ErrorVault::InvalidTreasury);
    }
    Ok(())
}

/// Creates the singleton configuration, with the vault counter at its first
/// value.  A default fee rate above 10000 basis points is rejected.
pub fn initialize_global_config(
    owner: u64,
    treasury: u64,
    default_fee_bps: u16,
) -> (r: Result<GlobalConfig, ErrorVault>)
    ensures
        match r {
            Ok(c) => {
                &&& default_fee_bps <= 10000
                &&& c == (GlobalConfig { owner, treasury, default_fee_bps, next_company_id: 1 })
                &&& c.wf()
            },
            Err(e) => {
                &&& e == ErrorVault::InvalidFeeBps
                &&& default_fee_bps > 10000
            },
        },
{
    if default_fee_bps > 10000 {
        return Err(ErrorVault::InvalidFeeBps);
    }
    Ok(GlobalConfig { owner, treasury, default_fee_bps, next_company_id: 1 })
}

} // verus!
