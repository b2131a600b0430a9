//! The vault: an owner-controlled custody record holding balances and
//! distribution rules.

use vstd::prelude::*;
use vstd::string::StrSliceExecFns;

use crate::config::GlobalConfig;
use crate::errors::ErrorVault;
use crate::roster::{sum_active_bps, MemberSplit};

verus! {

/// The informational kind of a vault.
#[derive(Clone, Copy, Debug, PartialEq, Eq, Structural)]
pub enum VaultType {
    Company,
    Organization,
    Individuals,
    Divisions,
}

/// An asset kind a vault can hold: the native asset, or a token named by its
/// mint.  Account identifiers are plain `u64` handles; the host maps them
/// one-to-one onto its own keys.
#[derive(Clone, Copy, Debug, PartialEq, Eq, Structural)]
pub enum AssetType {
    SOL,
    SPLToken { mint: u64 },
}

/// How a vault's balance is partitioned among members: by percentage of the
/// balance, or by fixed per-asset amounts.
#[derive(Clone, Copy, Debug, PartialEq, Eq, Structural)]
pub enum AllocationType {
    AllocationPerBps,
    AllocationSpecify,
}

/// One token balance the vault holds, keyed by the token's mint.
#[derive(Clone, Copy, Debug, PartialEq, Eq, Structural)]
pub struct SplTokenBalance {
    pub mint: u64,
    pub balance: u64,
}

/// A recurring payout cadence: due every `interval` seconds from
/// `next_payout_ts`, gated by the `active` flag.
#[derive(Clone, Copy, Debug, PartialEq, Eq, Structural)]
pub struct PayoutSchedule {
    pub interval: i64,
    pub next_payout_ts: i64,
    pub active: bool,
}

impl PayoutSchedule {
    /// A schedule's invariant: the cadence is a positive number of seconds.
    pub open spec fn wf(self) -> bool {
        self.interval > 0
    }
}

/// No asset kind appears twice.
pub open spec fn assets_distinct(s: Seq<AssetType>) -> bool {
    forall|i: int, j: int| 0 <= i < j < s.len() ==> s[i] != s[j]
}

/// No token balance entry repeats a mint.
pub open spec fn mints_distinct(s: Seq<SplTokenBalance>) -> bool {
    forall|i: int, j: int| 0 <= i < j < s.len() ==> s[i].mint != s[j].mint
}

/// The aggregate root: a vault owned by a single controller, with its
/// whitelist of asset kinds, its embedded member roster, its balances and
/// its optional payout schedule.
#[derive(Clone, Debug)]
pub struct VaultAccount {
    pub owner: u64,
    pub name: String,
    pub vault_type: VaultType,
    pub whitelisted_assets: Vec<AssetType>,
    pub members: Vec<MemberSplit>,
    pub payout_schedule: Option<PayoutSchedule>,
    pub total_balance: u64,
    pub required_balance: u64,
    pub required_spl_balance: u64,
    pub last_deposit_ts: i64,
    pub allocation_type: AllocationType,
    pub metadata_uri: Option<String>,
    pub code_claim: Option<String>,
    pub spl_balances: Vec<SplTokenBalance>,
    pub sol_balance: u64,
}

impl VaultAccount {
    /// The vault's invariant, established at creation and preserved by every
    /// accepted mutation:
    /// the name and metadata URI respect their length caps; the whitelist
    /// holds at most three asset kinds, none twice; a configured schedule is
    /// well formed; under the percentage policy the active roster's
    /// allocations sum to at most 10000 basis points; and no token balance
    /// entry repeats a mint.
    pub open spec fn wf(self) -> bool {
        &&& self.name@.len() <= 32
        &&& (self.metadata_uri matches Some(u) ==> u@.len() <= 200)
        &&& self.whitelisted_assets@.len() <= 3
        &&& assets_distinct(self.whitelisted_assets@)
        &&& (self.payout_schedule matches Some(s) ==> s.wf())
        &&& (self.allocation_type is AllocationPerBps ==> sum_active_bps(self.members@)
            <= 10000)
        &&& mints_distinct(self.spl_balances@)
    }

    /// Replaces the payout schedule wholesale, or removes it.
    pub fn update_payout_schedule(&mut self, schedule: Option<PayoutSchedule>)
        requires
            old(self).wf(),
            schedule matches Some(s) ==> s.wf(),
        ensures
            final(self).payout_schedule == schedule,
            *final(self) == (VaultAccount {
                payout_schedule: schedule,
                ..*old(self)
            }),
            final(self).wf(),
    {
        self.payout_schedule = schedule;
    }

    /// Installs a payout schedule.
    pub fn configure_payout_schedule(&mut self, schedule: PayoutSchedule)
        requires
            old(self).wf(),
            schedule.wf(),
        ensures
            *final(self) == (VaultAccount {
                payout_schedule: Some(schedule),
                ..*old(self)
            }),
            final(self).wf(),
    {
        self.payout_schedule = Some(schedule);
    }

    /// Whitelists a further asset kind.  A vault already holding three
    /// asset kinds, or already holding this one, is left unchanged.
    pub fn add_whitelisted_asset(&mut self, asset: AssetType) -> (r: Result<(), ErrorVault>)
        requires
            old(self).wf(),
        ensures
            match r {
                Ok(()) => {
                    &&& old(self).whitelisted_assets@.len() < 3
                    &&& !old(self).whitelisted_assets@.contains(asset)
                    &&& final(self).whitelisted_assets@ == old(self).whitelisted_assets@.push(
                        asset,
                    )
                    &&& *final(self) == (VaultAccount {
                        whitelisted_assets: final(self).whitelisted_assets,
                        ..*old(self)
                    })
                    &&& final(self).wf()
                },
                Err(e) => {
                    &&& *final(self) == *old(self)
                    &&& if old(self).whitelisted_assets@.len() >= 3 {
                        e == ErrorVault::TooManyAssets
                    } else {
                        e == ErrorVault::AssetAlreadyWhitelisted
                            && old(self).whitelisted_assets@.contains(asset)
                    }
                },
            },
    {
        if self.whitelisted_assets.len() >= 3 {
            return Err(ErrorVault::TooManyAssets);
        }
        if whitelist_contains(&self.whitelisted_assets, asset) {
            return Err(ErrorVault::AssetAlreadyWhitelisted);
        }
        self.whitelisted_assets.push(asset);
        Ok(())
    }

    /// Strikes an asset kind from the whitelist; a kind that is not on it
    /// leaves the vault unchanged.
    pub fn remove_whitelisted_asset(&mut self, asset: AssetType)
        requires
            old(self).wf(),
        ensures
            !old(self).whitelisted_assets@.contains(asset) ==> *final(self) == *old(self),
            old(self).whitelisted_assets@.contains(asset) ==> exists|k: int|
                0 <= k < old(self).whitelisted_assets@.len()
                    && old(self).whitelisted_assets@[k] == asset
                    && final(self).whitelisted_assets@ == old(self).whitelisted_assets@.remove(k),
            !final(self).whitelisted_assets@.contains(asset),
            *final(self) == (VaultAccount {
                whitelisted_assets: final(self).whitelisted_assets,
                ..*old(self)
            }),
            final(self).wf(),
    {
        let n = self.whitelisted_assets.len();
        let mut i: usize = 0;
        while i < n
            invariant
                *self == *old(self),
                old(self).wf(),
                i <= n,
                n == self.whitelisted_assets@.len(),
                forall|k: int| 0 <= k < i ==> old(self).whitelisted_assets@[k] != asset,
            decreases n - i,
        {
            if self.whitelisted_assets[i] == asset {
                let ghost orig = old(self).whitelisted_assets@;
                self.whitelisted_assets.remove(i);
                proof {
                    orig.remove_ensures(i as int);
                    assert(assets_distinct(orig));
                    assert forall|k: int| 0 <= k < orig.remove(i as int).len() implies orig.remove(
                        i as int,
                    )[k] != asset by {
                        if k >= i {
                            assert(orig.remove(i as int)[k] == orig[k + 1]);
                        }
                    }
                    assert forall|j: int, k: int|
                        0 <= j < k < orig.remove(i as int).len() implies orig.remove(i as int)[j]
                        != orig.remove(i as int)[k] by {
                        if k < i {
                        } else if j < i {
                            assert(orig.remove(i as int)[k] == orig[k + 1]);
                        } else {
                            assert(orig.remove(i as int)[j] == orig[j + 1]);
                            assert(orig.remove(i as int)[k] == orig[k + 1]);
                        }
                    }
                }
                return ;
            }
            i = i + 1;
        }
    }
}

/// Whether the whitelist already carries the given asset kind.
pub fn whitelist_contains(v: &Vec<AssetType>, asset: AssetType) -> (b: bool)
    ensures
        b == v@.contains(asset),
{
    let mut i: usize = 0;
    while i < v.len()
        invariant
            i <= v@.len(),
            forall|k: int| 0 <= k < i ==> v@[k] != asset,
        decreases v@.len() - i,
    {
        if v[i] == asset {
            return true;
        }
        i = i + 1;
    }
    false
}

/// Creates a vault for `owner`, consuming one vault identifier from the
/// configuration.  The name and metadata URI are held to their length caps,
/// and the initial whitelist to its size and uniqueness caps; a rejected
/// request leaves the configuration's counter unchanged.  Balances start at
/// zero and the roster empty; `now` becomes the deposit timestamp.
pub fn create_vault(
    config: &mut GlobalConfig,
    owner: u64,
    name: String,
    vault_type: VaultType,
    whitelisted_assets: Vec<AssetType>,
    payout_schedule: Option<PayoutSchedule>,
    allocation_type: AllocationType,
    metadata_uri: Option<String>,
    code_claim: Option<String>,
    now: i64,
) -> (r: Result<VaultAccount, ErrorVault>)
    requires
        old(config).next_company_id < u64::MAX,
        payout_schedule matches Some(s) ==> s.wf(),
    ensures
        match r {
            Ok(v) => {
                &&& name@.len() <= 32
                &&& (metadata_uri matches Some(u) ==> u@.len() <= 200)
                &&& whitelisted_assets@.len() <= 3
                &&& assets_distinct(whitelisted_assets@)
                &&& v == (VaultAccount {
                    owner,
                    name,
                    vault_type,
                    whitelisted_assets,
                    members: v.members,
                    payout_schedule,
                    total_balance: 0u64,
                    required_balance: 0u64,
                    required_spl_balance: 0u64,
                    last_deposit_ts: now,
                    allocation_type,
                    metadata_uri,
                    code_claim,
                    spl_balances: v.spl_balances,
                    sol_balance: 0u64,
                })
                &&& v.members@.len() == 0
                &&& v.spl_balances@.len() == 0
                &&& v.wf()
                &&& *final(config) == (GlobalConfig {
                    next_company_id: (old(config).next_company_id + 1) as u64,
                    ..*old(config)
                })
            },
            Err(e) => {
                &&& *final(config) == *old(config)
                &&& if name@.len() > 32 {
                    e == ErrorVault::NameTooLong
                } else if metadata_uri matches Some(u) && u@.len() > 200 {
                    e == ErrorVault::MetadataUriTooLong
                } else if whitelisted_assets@.len() > 3 {
                    e == ErrorVault::TooManyAssets
                } else {
                    e == ErrorVault::AssetAlreadyWhitelisted && !assets_distinct(
                        whitelisted_assets@,
                    )
                }
            },
        },
{
    if name.as_str().unicode_len() > 32 {
        return Err(ErrorVault::NameTooLong);
    }
    if let Some(uri) = &metadata_uri {
        if uri.as_str().unicode_len() > 200 {
            return Err(ErrorVault::MetadataUriTooLong);
        }
    }
    if whitelisted_assets.len() > 3 {
        return Err(ErrorVault::TooManyAssets);
    }
    if has_duplicate_asset(&whitelisted_assets) {
        return Err(ErrorVault::AssetAlreadyWhitelisted);
    }
    config.next_company_id = config.next_company_id + 1;
    Ok(
        VaultAccount {
            owner,
            name,
            vault_type,
            whitelisted_assets,
            members: Vec::new(),
            payout_schedule,
            total_balance: 0,
            required_balance: 0,
            required_spl_balance: 0,
            last_deposit_ts: now,
            allocation_type,
            metadata_uri,
            code_claim,
            spl_balances: Vec::new(),
            sol_balance: 0,
        },
    )
}

/// Whether any asset kind appears twice in the list.
fn has_duplicate_asset(v: &Vec<AssetType>) -> (b: bool)
    ensures
        b == !assets_distinct(v@),
{
    let n = v.len();
    let mut i: usize = 0;
    while i < n
        invariant
            i <= n,
            n == v@.len(),
            forall|p: int, q: int| 0 <= p < q < v@.len() && p < i ==> v@[p] != v@[q],
        decreases n - i,
    {
        let mut j: usize = i + 1;
        while j < n
            invariant
                i < j <= n,
                n == v@.len(),
                forall|q: int| i < q < j ==> v@[i as int] != v@[q],
            decreases n - j,
        {
            if v[i] == v[j] {
                return true;
            }
            j = j + 1;
        }
        i = i + 1;
    }
    false
}

} // verus!
