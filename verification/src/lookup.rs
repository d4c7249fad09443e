//! The walk from a delegate to its quota.

use vstd::prelude::*;
use crate::clock::{epoch_index, spec_epoch_index};
use crate::config::{recorded, spec_recorded, MinterConfig, MinterStats};
use crate::error::Error;
use crate::host::{HostCall, HostReply};
use crate::keys::{DelegateKey, QuotaKey};
use crate::principal::Principal;

verus! {

/// The walk from a delegate to its quota and to what it has consumed in the
/// current epoch. A mint on the delegate's path makes this walk, and so does
/// a query about a delegate.
#[derive(Clone, Copy, Debug, PartialEq, Eq)]
pub enum Lookup {
    /// Waiting for the quota of the delegate.
    AwaitConfig { delegate: DelegateKey },
    /// Waiting for the current tick.
    AwaitTick { delegate: DelegateKey, config: MinterConfig },
    /// Waiting for the consumption record of the current epoch.
    AwaitStats { config: MinterConfig, key: QuotaKey, tick: u32 },
    /// The walk is over: the delegate has the quota `config`, the tick
    /// `tick` lies in epoch `key.epoch`, and `stats` is consumed in it.
    Found { config: MinterConfig, key: QuotaKey, tick: u32, stats: MinterStats },
    /// The walk is over: no quota is registered for the delegate.
    Unregistered,
}

/// The key of the consumption record that a delegate with the quota
/// `config` is charged on at `tick`.
pub open spec fn spec_quota_key(delegate: DelegateKey, config: MinterConfig, tick: u32)
    -> QuotaKey {
    QuotaKey {
        contract: delegate.contract,
        minter: delegate.minter,
        epoch_length: config.epoch_length,
        epoch: spec_epoch_index(tick, config.epoch_length) as u32,
    }
}

/// Computes the key of the consumption record that a delegate with the
/// quota `config` is charged on at `tick`.
pub fn quota_key(delegate: DelegateKey, config: MinterConfig, tick: u32) -> (key: QuotaKey)
    requires
        config.wf(),
    ensures
        key == spec_quota_key(delegate, config, tick),
{
    QuotaKey {
        contract: delegate.contract,
        minter: delegate.minter,
        epoch_length: config.epoch_length,
        epoch: epoch_index(tick, config.epoch_length),
    }
}

impl Lookup {
    /// What the walk has gathered fits together: the quota is usable, and
    /// the record's key is the one that the quota and the tick give.
    pub open spec fn wf(self) -> bool {
        match self {
            Lookup::AwaitConfig { .. } => true,
            Lookup::AwaitTick { config, .. } => config.wf(),
            Lookup::AwaitStats { config, key, tick } => config.wf() && key == spec_quota_key(
                key.delegate(),
                config,
                tick,
            ),
            Lookup::Found { config, key, tick, .. } => config.wf() && key == spec_quota_key(
                key.delegate(),
                config,
                tick,
            ),
            Lookup::Unregistered => true,
        }
    }

    /// The delegate that the walk is about, while the walk is under way.
    pub open spec fn delegate(self) -> DelegateKey {
        match self {
            Lookup::AwaitConfig { delegate } => delegate,
            Lookup::AwaitTick { delegate, .. } => delegate,
            Lookup::AwaitStats { key, .. } => key.delegate(),
            Lookup::Found { key, .. } => key.delegate(),
            Lookup::Unregistered => arbitrary(),
        }
    }

    /// The walk is over.
    pub open spec fn done(self) -> bool {
        self is Found || self is Unregistered
    }

    /// The call that the walk waits for.
    pub open spec fn spec_pending(self) -> Option<HostCall> {
        match self {
            Lookup::AwaitConfig { delegate } => Some(HostCall::ReadConfig { delegate }),
            Lookup::AwaitTick { .. } => Some(HostCall::ReadTick),
            Lookup::AwaitStats { key, .. } => Some(HostCall::ReadStats { key }),
            Lookup::Found { .. } => None,
            Lookup::Unregistered => None,
        }
    }

    /// Whether the walk can take `reply`: a quota that is handed in must
    /// have epochs of at least one tick.
    pub open spec fn fits(self, reply: HostReply) -> bool {
        match (self, reply) {
            (Lookup::AwaitConfig { .. }, HostReply::Config(Some(config))) => config.wf(),
            _ => true,
        }
    }

    /// Where the walk stands after `reply`.
    pub open spec fn spec_step(self, reply: HostReply) -> Lookup {
        match (self, reply) {
            (Lookup::AwaitConfig { delegate }, HostReply::Config(Some(config))) => {
                Lookup::AwaitTick { delegate, config }
            },
            (Lookup::AwaitConfig { .. }, HostReply::Config(None)) => Lookup::Unregistered,
            (Lookup::AwaitTick { delegate, config }, HostReply::Tick(tick)) => Lookup::AwaitStats {
                config,
                key: spec_quota_key(delegate, config, tick),
                tick,
            },
            (Lookup::AwaitStats { config, key, tick }, HostReply::Stats(stored)) => Lookup::Found {
                config,
                key,
                tick,
                stats: spec_recorded(stored),
            },
            _ => self,
        }
    }

    /// The number of replies that the walk still needs.
    pub open spec fn rank(self) -> nat {
        match self {
            Lookup::AwaitConfig { .. } => 3,
            Lookup::AwaitTick { .. } => 2,
            Lookup::AwaitStats { .. } => 1,
            Lookup::Found { .. } => 0,
            Lookup::Unregistered => 0,
        }
    }

    /// What the walk has found, once it is over: the quota, the epoch and
    /// what is consumed in it, or that the delegate is not registered.
    pub open spec fn spec_outcome(self) -> Option<Result<(MinterConfig, u32, MinterStats), Error>> {
        match self {
            Lookup::Found { config, key, stats, .. } => Some(Ok((config, key.epoch, stats))),
            Lookup::Unregistered => Some(Err(Error::NotAuthorizedMinter)),
            _ => None,
        }
    }

    /// Starts the walk for `minter` on `contract`.
    pub fn begin(contract: Principal, minter: Principal) -> (lookup: Lookup)
        ensures
            lookup == (Lookup::AwaitConfig { delegate: DelegateKey { contract, minter } }),
            lookup.wf(),
    {
        Lookup::AwaitConfig { delegate: DelegateKey { contract, minter } }
    }

    /// The call that the host is to make next; `None` once the walk is over.
    pub fn pending(&self) -> (call: Option<HostCall>)
        ensures
            call == self.spec_pending(),
            call is None <==> self.done(),
    {
        match *self {
            Lookup::AwaitConfig { delegate } => Some(HostCall::ReadConfig { delegate }),
            Lookup::AwaitTick { .. } => Some(HostCall::ReadTick),
            Lookup::AwaitStats { key, .. } => Some(HostCall::ReadStats { key }),
            Lookup::Found { .. } => None,
            Lookup::Unregistered => None,
        }
    }

    /// Tells whether `step` may be called with `reply`.
    pub fn accepts(&self, reply: &HostReply) -> (fits: bool)
        ensures
            fits == self.fits(*reply),
    {
        match (*self, *reply) {
            (Lookup::AwaitConfig { .. }, HostReply::Config(Some(config))) => config.epoch_length
                > 0,
            _ => true,
        }
    }

    /// Takes the host's reply and moves on. A reply that does not answer
    /// the pending call changes nothing.
    pub fn step(self, reply: HostReply) -> (next: Lookup)
        requires
            self.wf(),
            self.fits(reply),
        ensures
            next == self.spec_step(reply),
            next.wf(),
            next != self ==> next.rank() < self.rank(),
    {
        match (self, reply) {
            (Lookup::AwaitConfig { delegate }, HostReply::Config(Some(config))) => {
                Lookup::AwaitTick { delegate, config }
            },
            (Lookup::AwaitConfig { .. }, HostReply::Config(None)) => Lookup::Unregistered,
            (Lookup::AwaitTick { delegate, config }, HostReply::Tick(tick)) => Lookup::AwaitStats {
                config,
                key: quota_key(delegate, config, tick),
                tick,
            },
            (Lookup::AwaitStats { config, key, tick }, HostReply::Stats(stored)) => Lookup::Found {
                config,
                key,
                tick,
                stats: recorded(stored),
            },
            _ => self,
        }
    }

    /// What the walk has found; `None` while it is under way.
    pub fn outcome(&self) -> (found: Option<Result<(MinterConfig, u32, MinterStats), Error>>)
        ensures
            found == self.spec_outcome(),
            found is Some <==> self.done(),
    {
        match *self {
            Lookup::Found { config, key, stats, .. } => Some(Ok((config, key.epoch, stats))),
            Lookup::Unregistered => Some(Err(Error::NotAuthorizedMinter)),
            _ => None,
        }
    }
}

} // verus!
