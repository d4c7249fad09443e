//! The keys under which values are stored.

use vstd::prelude::*;
use crate::principal::Principal;
use crate::store::StoreKey;

verus! {

/// The key of a quota: the contract it is for and the delegate it is
/// granted to.
#[derive(Clone, Copy, Debug, PartialEq, Eq, Structural, Hash)]
pub struct DelegateKey {
    pub contract: Principal,
    pub minter: Principal,
}

/// The key of a consumption record: the quota's key, the epoch length that
/// the quota had when the record was written, and the epoch.
#[derive(Clone, Copy, Debug, PartialEq, Eq, Structural, Hash)]
pub struct QuotaKey {
    pub contract: Principal,
    pub minter: Principal,
    pub epoch_length: u32,
    pub epoch: u32,
}

/// The address of a stored value, for a host that keeps all values in one
/// keyed storage.
#[derive(Clone, Copy, Debug, PartialEq, Eq, Structural, Hash)]
pub enum StorageKey {
    /// The administrator. The value is a principal.
    Admin,
    /// A quota, by contract and delegate. The value is a `MinterConfig`.
    Minter(Principal, Principal),
    /// A consumption record, by contract, delegate, epoch length and epoch.
    /// The value is a `MinterStats`.
    MinterStats(Principal, Principal, u32, u32),
}

impl StoreKey for DelegateKey {
    fn same(&self, other: &Self) -> (same: bool) {
        self.contract == other.contract && self.minter == other.minter
    }
}

impl StoreKey for QuotaKey {
    fn same(&self, other: &Self) -> (same: bool) {
        self.contract == other.contract && self.minter == other.minter && self.epoch_length
            == other.epoch_length && self.epoch == other.epoch
    }
}

impl DelegateKey {
    /// Where a host with keyed storage keeps this quota.
    pub open spec fn spec_storage_key(self) -> StorageKey {
        StorageKey::Minter(self.contract, self.minter)
    }

    /// Where a host with keyed storage keeps this quota.
    #[verifier::when_used_as_spec(spec_storage_key)]
    pub fn storage_key(self) -> (key: StorageKey)
        ensures
            key == self.spec_storage_key(),
    {
        StorageKey::Minter(self.contract, self.minter)
    }
}

impl QuotaKey {
    /// Where a host with keyed storage keeps this record.
    pub open spec fn spec_storage_key(self) -> StorageKey {
        StorageKey::MinterStats(self.contract, self.minter, self.epoch_length, self.epoch)
    }

    /// Where a host with keyed storage keeps this record.
    #[verifier::when_used_as_spec(spec_storage_key)]
    pub fn storage_key(self) -> (key: StorageKey)
        ensures
            key == self.spec_storage_key(),
    {
        StorageKey::MinterStats(self.contract, self.minter, self.epoch_length, self.epoch)
    }

    /// The quota that this record counts against.
    pub open spec fn delegate(self) -> DelegateKey {
        DelegateKey { contract: self.contract, minter: self.minter }
    }
}

} // verus!
