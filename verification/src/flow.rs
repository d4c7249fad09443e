//! The authorization flow: one mint request from its receipt to its end.

use vstd::prelude::*;
use crate::clock::{spec_ticks_to_epoch_end, ticks_to_epoch_end};
use crate::config::{recorded, MinterConfig, MinterStats};
use crate::error::{Error, Rejection};
use crate::host::{HostCall, HostReply};
use crate::keys::{DelegateKey, QuotaKey};
use crate::lookup::Lookup;
use crate::principal::Principal;

verus! {

/// A request to mint `amount` to `to` on `contract`, made in the name of
/// `minter`.
#[derive(Clone, Copy, Debug, PartialEq, Eq)]
pub struct MintRequest {
    pub contract: Principal,
    pub minter: Principal,
    pub to: Principal,
    pub amount: i128,
}

/// The way on which a request was let through.
#[derive(Clone, Copy, Debug, PartialEq, Eq)]
pub enum Route {
    /// The administrator mints: no quota applies and nothing is recorded.
    Authority,
    /// A delegate mints: `stats` is what the delegate has consumed in the
    /// epoch of `key` once this request is counted in.
    Delegate { key: QuotaKey, stats: MinterStats },
}

/// What the quota rule says of a delegate that has consumed `consumed` and
/// asks for `amount` more, against the quota `config`: the record to store,
/// or that the request is turned down.
///
/// The rule lets a request through when the consumption that it leads to
/// reaches the limit, and turns it down while the consumption stays below.
pub open spec fn spec_quota_rule(config: MinterConfig, consumed: MinterStats, amount: i128)
    -> Result<MinterStats, Error> {
    let projected = consumed.consumed_limit + amount;
    if projected < config.limit {
        Err(Error::DailyLimitInsufficient)
    } else {
        Ok(MinterStats { consumed_limit: projected as i128 })
    }
}

/// Applies the quota rule.
pub fn quota_rule(config: MinterConfig, consumed: MinterStats, amount: i128) -> (verdict: Result<
    MinterStats,
    Error,
>)
    requires
        i128::MIN <= consumed.consumed_limit + amount <= i128::MAX,
    ensures
        verdict == spec_quota_rule(config, consumed, amount),
{
    let projected: i128 = consumed.consumed_limit + amount;
    if projected < config.limit {
        Err(Error::DailyLimitInsufficient)
    } else {
        Ok(MinterStats { consumed_limit: projected })
    }
}

/// One mint request on its way through the lock.
#[derive(Clone, Copy, Debug, PartialEq, Eq)]
pub enum MintFlow {
    /// The request has come in. Waiting for the signature check.
    Received { request: MintRequest },
    /// The signature is confirmed and the amount is not negative. Waiting
    /// for the administrator, to tell which path the request takes.
    Authenticated { request: MintRequest },
    /// The minter is a delegate. Waiting for the walk to its quota.
    DelegatePath { request: MintRequest, lookup: Lookup },
    /// The quota rule has let the request through. Waiting for the new
    /// consumption record to be stored.
    Charging { request: MintRequest, key: QuotaKey, stats: MinterStats, expire_after: u32 },
    /// The request is authorized, and what it consumes is recorded. Waiting
    /// for the issuance.
    Committed { request: MintRequest, route: Route },
    /// The issuance has taken place.
    Settled { request: MintRequest, route: Route },
    /// The request has failed. Nothing that it has stored may be kept.
    Rejected { reason: Rejection },
}

impl MintFlow {
    /// What the flow has gathered fits together.
    pub open spec fn wf(self) -> bool {
        match self {
            MintFlow::Received { .. } => true,
            MintFlow::Authenticated { request } => request.amount >= 0,
            MintFlow::DelegatePath { request, lookup } => {
                &&& request.amount >= 0
                &&& lookup.wf()
                &&& !lookup.done()
                &&& lookup.delegate() == DelegateKey {
                    contract: request.contract,
                    minter: request.minter,
                }
            },
            MintFlow::Charging { request, .. } => request.amount >= 0,
            MintFlow::Committed { request, .. } => request.amount >= 0,
            MintFlow::Settled { request, .. } => request.amount >= 0,
            MintFlow::Rejected { .. } => true,
        }
    }

    /// The flow is over.
    pub open spec fn done(self) -> bool {
        self is Settled || self is Rejected
    }

    /// The host has been asked to issue, and has answered.
    pub open spec fn issuance_tried(self) -> bool {
        match self {
            MintFlow::Settled { .. } => true,
            MintFlow::Rejected { reason } => reason == Rejection::IssuanceFailed,
            _ => false,
        }
    }

    /// The call that the flow waits for.
    pub open spec fn spec_pending(self) -> Option<HostCall> {
        match self {
            MintFlow::Received { request } => Some(
                HostCall::VerifyAuth {
                    signer: request.minter,
                    contract: request.contract,
                    to: request.to,
                    amount: request.amount,
                },
            ),
            MintFlow::Authenticated { .. } => Some(HostCall::ReadAdmin),
            MintFlow::DelegatePath { lookup, .. } => lookup.spec_pending(),
            MintFlow::Charging { key, stats, expire_after, .. } => Some(
                HostCall::WriteStats { key, stats, expire_after },
            ),
            MintFlow::Committed { request, .. } => Some(
                HostCall::Issue {
                    contract: request.contract,
                    to: request.to,
                    amount: request.amount,
                },
            ),
            MintFlow::Settled { .. } => None,
            MintFlow::Rejected { .. } => None,
        }
    }

    /// Whether the flow can take `reply`: a quota that is handed in must be
    /// usable, and what the delegate has consumed plus the amount asked for
    /// must be a number that a record can hold.
    pub open spec fn fits(self, reply: HostReply) -> bool {
        match self {
            MintFlow::DelegatePath { request, lookup } => {
                &&& lookup.fits(reply)
                &&& lookup.spec_step(reply) matches Lookup::Found { stats, .. }
                    ==> stats.consumed_limit + request.amount <= i128::MAX
            },
            _ => true,
        }
    }

    /// Where the flow stands after `reply`.
    pub open spec fn spec_step(self, reply: HostReply) -> MintFlow {
        match (self, reply) {
            (MintFlow::Received { request }, HostReply::AuthVerified(confirmed)) => {
                if !confirmed {
                    MintFlow::Rejected { reason: Rejection::Unauthenticated }
                } else if request.amount < 0 {
                    MintFlow::Rejected { reason: Rejection::Refused(Error::NegativeAmount) }
                } else {
                    MintFlow::Authenticated { request }
                }
            },
            (MintFlow::Authenticated { request }, HostReply::Admin(admin)) => {
                if admin == request.minter {
                    MintFlow::Committed { request, route: Route::Authority }
                } else {
                    MintFlow::DelegatePath {
                        request,
                        lookup: Lookup::AwaitConfig {
                            delegate: DelegateKey {
                                contract: request.contract,
                                minter: request.minter,
                            },
                        },
                    }
                }
            },
            (MintFlow::DelegatePath { request, lookup }, _) => {
                match lookup.spec_step(reply) {
                    Lookup::Unregistered => MintFlow::Rejected {
                        reason: Rejection::Refused(Error::NotAuthorizedMinter),
                    },
                    Lookup::Found { config, key, tick, stats } => {
                        match spec_quota_rule(config, stats, request.amount) {
                            Ok(stats) => MintFlow::Charging {
                                request,
                                key,
                                stats,
                                expire_after: spec_ticks_to_epoch_end(tick, config.epoch_length) as u32,
                            },
                            Err(error) => MintFlow::Rejected { reason: Rejection::Refused(error) },
                        }
                    },
                    next => MintFlow::DelegatePath { request, lookup: next },
                }
            },
            (MintFlow::Charging { request, key, stats, .. }, HostReply::Stored) => {
                MintFlow::Committed { request, route: Route::Delegate { key, stats } }
            },
            (MintFlow::Committed { request, route }, HostReply::Issued(issued)) => {
                if issued {
                    MintFlow::Settled { request, route }
                } else {
                    MintFlow::Rejected { reason: Rejection::IssuanceFailed }
                }
            },
            _ => self,
        }
    }

    /// The number of replies that the flow needs at most before it is over.
    pub open spec fn rank(self) -> nat {
        match self {
            MintFlow::Received { .. } => 8,
            MintFlow::Authenticated { .. } => 7,
            MintFlow::DelegatePath { lookup, .. } => 3 + lookup.rank(),
            MintFlow::Charging { .. } => 2,
            MintFlow::Committed { .. } => 1,
            MintFlow::Settled { .. } => 0,
            MintFlow::Rejected { .. } => 0,
        }
    }

    /// How the flow has ended, once it is over.
    pub open spec fn spec_outcome(self) -> Option<Result<(), Rejection>> {
        match self {
            MintFlow::Settled { .. } => Some(Ok(())),
            MintFlow::Rejected { reason } => Some(Err(reason)),
            _ => None,
        }
    }

    /// Takes a request in.
    pub fn receive(request: MintRequest) -> (flow: MintFlow)
        ensures
            flow == (MintFlow::Received { request }),
            flow.wf(),
    {
        MintFlow::Received { request }
    }

    /// The call that the host is to make next; `None` once the flow is over.
    pub fn pending(&self) -> (call: Option<HostCall>)
        requires
            self.wf(),
        ensures
            call == self.spec_pending(),
            call is None <==> self.done(),
    {
        match *self {
            MintFlow::Received { request } => Some(
                HostCall::VerifyAuth {
                    signer: request.minter,
                    contract: request.contract,
                    to: request.to,
                    amount: request.amount,
                },
            ),
            MintFlow::Authenticated { .. } => Some(HostCall::ReadAdmin),
            MintFlow::DelegatePath { lookup, .. } => lookup.pending(),
            MintFlow::Charging { key, stats, expire_after, .. } => Some(
                HostCall::WriteStats { key, stats, expire_after },
            ),
            MintFlow::Committed { request, .. } => Some(
                HostCall::Issue {
                    contract: request.contract,
                    to: request.to,
                    amount: request.amount,
                },
            ),
            MintFlow::Settled { .. } => None,
            MintFlow::Rejected { .. } => None,
        }
    }

    /// Tells whether `step` may be called with `reply`.
    pub fn accepts(&self, reply: &HostReply) -> (fits: bool)
        requires
            self.wf(),
        ensures
            fits == self.fits(*reply),
    {
        match *self {
            MintFlow::DelegatePath { request, lookup } => {
                if !lookup.accepts(reply) {
                    false
                } else {
                    match (lookup, *reply) {
                        (Lookup::AwaitStats { .. }, HostReply::Stats(stored)) => {
                            recorded(stored).consumed_limit <= i128::MAX - request.amount
                        },
                        _ => true,
                    }
                }
            },
            _ => true,
        }
    }

    /// Takes the host's reply and moves on. A reply that does not answer
    /// the pending call changes nothing.
    pub fn step(self, reply: HostReply) -> (next: MintFlow)
        requires
            self.wf(),
            self.fits(reply),
        ensures
            next == self.spec_step(reply),
            next.wf(),
            next != self ==> next.rank() < self.rank(),
    {
        match (self, reply) {
            (MintFlow::Received { request }, HostReply::AuthVerified(confirmed)) => {
                if !confirmed {
                    MintFlow::Rejected { reason: Rejection::Unauthenticated }
                } else if request.amount < 0 {
                    MintFlow::Rejected { reason: Rejection::Refused(Error::NegativeAmount) }
                } else {
                    MintFlow::Authenticated { request }
                }
            },
            (MintFlow::Authenticated { request }, HostReply::Admin(admin)) => {
                if admin == request.minter {
                    MintFlow::Committed { request, route: Route::Authority }
                } else {
                    MintFlow::DelegatePath {
                        request,
                        lookup: Lookup::begin(request.contract, request.minter),
                    }
                }
            },
            (MintFlow::DelegatePath { request, lookup }, _) => {
                match lookup.step(reply) {
                    Lookup::Unregistered => MintFlow::Rejected {
                        reason: Rejection::Refused(Error::NotAuthorizedMinter),
                    },
                    Lookup::Found { config, key, tick, stats } => {
                        match quota_rule(config, stats, request.amount) {
                            Ok(stats) => MintFlow::Charging {
                                request,
                                key,
                                stats,
                                expire_after: ticks_to_epoch_end(tick, config.epoch_length),
                            },
                            Err(error) => MintFlow::Rejected { reason: Rejection::Refused(error) },
                        }
                    },
                    next => MintFlow::DelegatePath { request, lookup: next },
                }
            },
            (MintFlow::Charging { request, key, stats, .. }, HostReply::Stored) => {
                MintFlow::Committed { request, route: Route::Delegate { key, stats } }
            },
            (MintFlow::Committed { request, route }, HostReply::Issued(issued)) => {
                if issued {
                    MintFlow::Settled { request, route }
                } else {
                    MintFlow::Rejected { reason: Rejection::IssuanceFailed }
                }
            },
            _ => self,
        }
    }

    /// How the flow has ended; `None` while it is under way.
    pub fn outcome(&self) -> (ended: Option<Result<(), Rejection>>)
        ensures
            ended == self.spec_outcome(),
            ended is Some <==> self.done(),
    {
        match *self {
            MintFlow::Settled { .. } => Some(Ok(())),
            MintFlow::Rejected { reason } => Some(Err(reason)),
            _ => None,
        }
    }
}

} // verus!
