//! A lock in front of a mint: an administrator may mint without bound, a
//! delegate only against the quota registered for it, counted per epoch.
//!
//! The crate does no I/O. Each of its flows walks one request from receipt
//! to its end and names, step by step, what it needs from its host: a
//! signature check, a stored value, the current tick, the issuance itself.
//! [`MintFlow`] is the flow of a mint, [`Lookup`] the walk to a delegate's
//! quota, [`AdminFlow`] the flow of a change by the administrator.
//! [`Contract`] is a host that keeps everything in memory and serves these
//! flows from its own stores; the module `laws` states what holds of it in
//! every state.

pub mod admin;
pub mod clock;
pub mod config;
pub mod contract;
pub mod error;
pub mod flow;
pub mod host;
pub mod issuance;
pub mod keys;
pub mod laws;
pub mod ledger;
pub mod lookup;
pub mod principal;
pub mod registry;
pub mod store;

pub use crate::admin::{AdminAction, AdminFlow};
pub use crate::clock::{epoch_index, ticks_to_epoch_end};
pub use crate::contract::{Contract, ContractState};
pub use crate::config::{recorded, MinterConfig, MinterStats};
pub use crate::error::{Error, Rejection};
pub use crate::flow::{quota_rule, MintFlow, MintRequest, Route};
pub use crate::host::{HostCall, HostReply};
pub use crate::issuance::{Issuance, IssuanceLog, MintInterface};
pub use crate::keys::{DelegateKey, QuotaKey, StorageKey};
pub use crate::ledger::{QuotaEntry, QuotaLedger};
pub use crate::lookup::{quota_key, Lookup};
pub use crate::principal::{Principal, PrincipalKind};
pub use crate::registry::DelegateRegistry;
pub use crate::store::{KeyedStore, Slot, StoreKey};
