//! What passes between a flow and its host.
//!
//! A flow never touches storage, a clock or a signature. In every state but
//! the last it names one call that its host is to make, and it moves on when
//! the host hands back the reply to that call. A reply that does not answer
//! the pending call leaves the flow where it is.

use vstd::prelude::*;
use crate::config::{MinterConfig, MinterStats};
use crate::keys::{DelegateKey, QuotaKey, StorageKey};
use crate::principal::Principal;

verus! {

/// What a flow asks of its host.
#[derive(Clone, Copy, Debug, PartialEq, Eq)]
pub enum HostCall {
    /// Check that `signer` has signed for a mint of exactly this amount to
    /// this recipient on this contract.
    VerifyAuth { signer: Principal, contract: Principal, to: Principal, amount: i128 },
    /// Check that `signer` has signed for the invocation that is under way.
    VerifyInvocation { signer: Principal },
    /// Read who the administrator is.
    ReadAdmin,
    /// Read the quota stored for `delegate`.
    ReadConfig { delegate: DelegateKey },
    /// Read the current tick.
    ReadTick,
    /// Read the consumption record stored under `key`.
    ReadStats { key: QuotaKey },
    /// Store `admin` as the administrator.
    WriteAdmin { admin: Principal },
    /// Store `config` as the quota of `delegate`.
    WriteConfig { delegate: DelegateKey, config: MinterConfig },
    /// Store `stats` under `key`, to stay alive for `expire_after` ticks
    /// from the current one.
    WriteStats { key: QuotaKey, stats: MinterStats, expire_after: u32 },
    /// Issue `amount` to `to` on `contract`.
    Issue { contract: Principal, to: Principal, amount: i128 },
}

impl HostCall {
    /// The call changes nothing: it checks a signature or reads.
    pub open spec fn reads(self) -> bool {
        match self {
            HostCall::VerifyAuth { .. } => true,
            HostCall::VerifyInvocation { .. } => true,
            HostCall::ReadAdmin => true,
            HostCall::ReadConfig { .. } => true,
            HostCall::ReadTick => true,
            HostCall::ReadStats { .. } => true,
            HostCall::WriteAdmin { .. } => false,
            HostCall::WriteConfig { .. } => false,
            HostCall::WriteStats { .. } => false,
            HostCall::Issue { .. } => false,
        }
    }

    /// The key of the stored value that the call reads or writes, for a
    /// host that keeps all values in one keyed storage; `None` for a call
    /// that is about no stored value.
    pub open spec fn spec_storage_key(self) -> Option<StorageKey> {
        match self {
            HostCall::ReadAdmin => Some(StorageKey::Admin),
            HostCall::WriteAdmin { .. } => Some(StorageKey::Admin),
            HostCall::ReadConfig { delegate } => Some(delegate.spec_storage_key()),
            HostCall::WriteConfig { delegate, .. } => Some(delegate.spec_storage_key()),
            HostCall::ReadStats { key } => Some(key.spec_storage_key()),
            HostCall::WriteStats { key, .. } => Some(key.spec_storage_key()),
            _ => None,
        }
    }

    /// The key of the stored value that the call reads or writes.
    #[verifier::when_used_as_spec(spec_storage_key)]
    pub fn storage_key(self) -> (key: Option<StorageKey>)
        ensures
            key == self.spec_storage_key(),
    {
        match self {
            HostCall::ReadAdmin => Some(StorageKey::Admin),
            HostCall::WriteAdmin { .. } => Some(StorageKey::Admin),
            HostCall::ReadConfig { delegate } => Some(delegate.storage_key()),
            HostCall::WriteConfig { delegate, .. } => Some(delegate.storage_key()),
            HostCall::ReadStats { key } => Some(key.storage_key()),
            HostCall::WriteStats { key, .. } => Some(key.storage_key()),
            _ => None,
        }
    }
}

/// What a host hands back.
#[derive(Clone, Copy, Debug, PartialEq, Eq)]
pub enum HostReply {
    /// Whether the signature check confirmed the signer.
    AuthVerified(bool),
    /// The administrator.
    Admin(Principal),
    /// The stored quota, or `None` where there is none.
    Config(Option<MinterConfig>),
    /// The current tick.
    Tick(u32),
    /// The stored consumption record, or `None` where there is none.
    Stats(Option<MinterStats>),
    /// The value has been stored.
    Stored,
    /// Whether the issuance took place.
    Issued(bool),
}

} // verus!
