//! The lock with its state in memory: the administrator, the delegate
//! registry and the quota ledger, and a host that serves a flow from them.

use vstd::prelude::*;
use vstd::pervasive::unreached;
use crate::clock::{lemma_epoch_bounds, spec_epoch_end, spec_ticks_to_epoch_end};
use crate::config::{MinterConfig, MinterStats};
use crate::error::{Error, Rejection};
use crate::admin::{AdminAction, AdminFlow};
use crate::flow::{spec_quota_rule, MintFlow, MintRequest, Route};
use crate::host::{HostCall, HostReply};
use crate::lookup::{spec_quota_key, Lookup};
use crate::issuance::{Issuance, MintInterface};
use crate::keys::{DelegateKey, QuotaKey};
use crate::ledger::{
    alive_at, entry_of, lemma_restore_undoes_commit, stats_at, QuotaEntry, QuotaLedger,
};
use crate::principal::Principal;
use crate::registry::{quota_of, quotas_usable, DelegateRegistry};

verus! {

/// What the lock has stored.
pub struct ContractState {
    /// The administrator.
    pub admin: Principal,
    /// The quota of each delegate on each target contract.
    pub quotas: Map<DelegateKey, MinterConfig>,
    /// What each delegate has consumed, by epoch, with the expiry of each
    /// record.
    pub consumed: Map<QuotaKey, QuotaEntry>,
}

impl ContractState {
    /// What a query about `minter` on `contract` returns at `tick`: the
    /// quota, the current epoch and what is consumed in it.
    pub open spec fn minter_info(self, tick: u32, contract: Principal, minter: Principal) -> Result<
        (MinterConfig, u32, MinterStats),
        Error,
    > {
        match quota_of(self.quotas, contract, minter) {
            None => Err(Error::NotAuthorizedMinter),
            Some(config) => {
                let key = spec_quota_key(DelegateKey { contract, minter }, config, tick);
                Ok((config, key.epoch, stats_at(self.consumed, key, tick)))
            },
        }
    }

    /// The verdict on `request` at `tick`, where the signature check has
    /// confirmed `caller`.
    ///
    /// A request that `caller` has not signed is not authenticated. Of the
    /// others, one for a negative amount is refused. The administrator then
    /// goes through whatever is registered or consumed. Anyone else needs a
    /// quota, and goes through if the quota rule lets the request pass.
    pub open spec fn verdict(self, tick: u32, caller: Principal, request: MintRequest) -> Result<
        Route,
        Rejection,
    > {
        if caller != request.minter {
            Err(Rejection::Unauthenticated)
        } else if request.amount < 0 {
            Err(Rejection::Refused(Error::NegativeAmount))
        } else if request.minter == self.admin {
            Ok(Route::Authority)
        } else {
            match self.minter_info(tick, request.contract, request.minter) {
                Err(error) => Err(Rejection::Refused(error)),
                Ok((config, _, stats)) => match spec_quota_rule(config, stats, request.amount) {
                    Err(error) => Err(Rejection::Refused(error)),
                    Ok(charged) => Ok(
                        Route::Delegate {
                            key: spec_quota_key(
                                DelegateKey { contract: request.contract, minter: request.minter },
                                config,
                                tick,
                            ),
                            stats: charged,
                        },
                    ),
                },
            }
        }
    }

    /// Whether the consumption that `request` leads to at `tick` is a number
    /// that a record can hold. This is asked only of a request that gets as
    /// far as the quota rule.
    pub open spec fn chargeable(self, tick: u32, caller: Principal, request: MintRequest) -> bool {
        caller == request.minter && request.amount >= 0 && request.minter != self.admin ==> (
        self.minter_info(tick, request.contract, request.minter) matches Ok((_, _, stats))
            ==> stats.consumed_limit + request.amount <= i128::MAX)
    }

    /// The state once a request that went through on `route` at `tick` is
    /// recorded: on the delegate's path the new record, kept until the end
    /// of the epoch; on the administrator's path nothing.
    pub open spec fn charged(self, route: Route, tick: u32) -> ContractState {
        match route {
            Route::Authority => self,
            Route::Delegate { key, stats } => ContractState {
                consumed: self.consumed.insert(
                    key,
                    QuotaEntry { stats, expires_at: spec_epoch_end(tick, key.epoch_length) as u64 },
                ),
                ..self
            },
        }
    }

    /// How a request ends: as the verdict says where that is a rejection,
    /// and otherwise by whether the issuance took place, which `issued`
    /// tells.
    pub open spec fn mint_outcome(
        self,
        tick: u32,
        caller: Principal,
        request: MintRequest,
        issued: bool,
    ) -> Result<(), Rejection> {
        match self.verdict(tick, caller, request) {
            Err(rejection) => Err(rejection),
            Ok(_) => if issued {
                Ok(())
            } else {
                Err(Rejection::IssuanceFailed)
            },
        }
    }

    /// The state after a request: the state with the request's consumption
    /// recorded where the request went through and the issuance took place,
    /// and the state as it was in every other case.
    pub open spec fn after_mint(
        self,
        tick: u32,
        caller: Principal,
        request: MintRequest,
        issued: bool,
    ) -> ContractState {
        match self.verdict(tick, caller, request) {
            Err(_) => self,
            Ok(route) => if issued {
                self.charged(route, tick)
            } else {
                self
            },
        }
    }

    /// Whether `caller` may do what only the administrator may.
    pub open spec fn admits(self, caller: Principal) -> bool {
        caller == self.admin
    }

    /// How a call that only the administrator may make ends for `caller`.
    pub open spec fn admin_outcome(self, caller: Principal) -> Result<(), Rejection> {
        if self.admits(caller) {
            Ok(())
        } else {
            Err(Rejection::Unauthenticated)
        }
    }

    /// The state with `new_admin` as the administrator.
    pub open spec fn with_admin(self, new_admin: Principal) -> ContractState {
        ContractState { admin: new_admin, ..self }
    }

    /// The state with `config` as the quota of `minter` on `contract`.
    pub open spec fn with_quota(self, contract: Principal, minter: Principal, config: MinterConfig)
        -> ContractState {
        ContractState {
            quotas: self.quotas.insert(DelegateKey { contract, minter }, config),
            ..self
        }
    }

    /// The state after `action`, asked for by `caller`: the change is made
    /// where `caller` is the administrator, and nothing is changed where not.
    pub open spec fn after_admin(self, caller: Principal, action: AdminAction) -> ContractState {
        if self.admits(caller) {
            match action {
                AdminAction::SetAdmin { new_admin } => self.with_admin(new_admin),
                AdminAction::SetMinter { delegate, config } => self.with_quota(
                    delegate.contract,
                    delegate.minter,
                    config,
                ),
            }
        } else {
            self
        }
    }

    /// What a host that stores this state replies to `call` at `tick`,
    /// where the signature check confirms `caller` and `issued` tells
    /// whether an issuance takes place.
    pub open spec fn reply(self, call: HostCall, tick: u32, caller: Principal, issued: bool)
        -> HostReply {
        match call {
            HostCall::VerifyAuth { signer, .. } => HostReply::AuthVerified(caller == signer),
            HostCall::VerifyInvocation { signer } => HostReply::AuthVerified(caller == signer),
            HostCall::ReadAdmin => HostReply::Admin(self.admin),
            HostCall::ReadConfig { delegate } => HostReply::Config(
                quota_of(self.quotas, delegate.contract, delegate.minter),
            ),
            HostCall::ReadTick => HostReply::Tick(tick),
            HostCall::ReadStats { key } => HostReply::Stats(alive_at(self.consumed, key, tick)),
            HostCall::WriteAdmin { .. } => HostReply::Stored,
            HostCall::WriteConfig { .. } => HostReply::Stored,
            HostCall::WriteStats { .. } => HostReply::Stored,
            HostCall::Issue { .. } => HostReply::Issued(issued),
        }
    }

    /// What a host that stored this state stores once it has made `call`
    /// at `tick`.
    pub open spec fn served(self, call: HostCall, tick: u32) -> ContractState {
        match call {
            HostCall::WriteAdmin { admin } => self.with_admin(admin),
            HostCall::WriteConfig { delegate, config } => self.with_quota(
                delegate.contract,
                delegate.minter,
                config,
            ),
            HostCall::WriteStats { key, stats, expire_after } => ContractState {
                consumed: self.consumed.insert(
                    key,
                    QuotaEntry { stats, expires_at: (tick + expire_after) as u64 },
                ),
                ..self
            },
            _ => self,
        }
    }
}

/// The lock, with everything that it stores held in memory.
pub struct Contract {
    admin: Principal,
    registry: DelegateRegistry,
    ledger: QuotaLedger,
}

impl View for Contract {
    type V = ContractState;

    /// What the lock has stored.
    closed spec fn view(&self) -> ContractState {
        ContractState { admin: self.admin, quotas: self.registry@, consumed: self.ledger@ }
    }
}

/// Where a query stands with respect to the state that it reads.
spec fn lookup_on_track(
    lookup: Lookup,
    state: ContractState,
    tick: u32,
    contract: Principal,
    minter: Principal,
) -> bool {
    let delegate = DelegateKey { contract, minter };
    match lookup {
        Lookup::AwaitConfig { delegate: held } => held == delegate,
        Lookup::AwaitTick { delegate: held, config } => held == delegate && quota_of(
            state.quotas,
            contract,
            minter,
        ) == Some(config),
        Lookup::AwaitStats { config, key, tick: seen } => {
            &&& quota_of(state.quotas, contract, minter) == Some(config)
            &&& seen == tick
            &&& key == spec_quota_key(delegate, config, tick)
        },
        Lookup::Found { config, key, tick: seen, stats } => {
            &&& quota_of(state.quotas, contract, minter) == Some(config)
            &&& seen == tick
            &&& key == spec_quota_key(delegate, config, tick)
            &&& stats == stats_at(state.consumed, key, tick)
        },
        Lookup::Unregistered => quota_of(state.quotas, contract, minter) is None,
    }
}

/// What has to be put back if the request fails after its record was
/// stored: nothing on the administrator's path, the entry that the record
/// replaced on the delegate's.
spec fn undo_for(route: Route, before: ContractState) -> Option<(QuotaKey, Option<QuotaEntry>)> {
    match route {
        Route::Authority => None,
        Route::Delegate { key, .. } => Some((key, entry_of(before.consumed, key))),
    }
}

/// Where a flow stands with respect to the state `before` that it started
/// from, the state `now`, and what has been issued.
spec fn flow_on_track(
    flow: MintFlow,
    now: ContractState,
    before: ContractState,
    issued: Seq<Issuance>,
    issued_before: Seq<Issuance>,
    undo: Option<(QuotaKey, Option<QuotaEntry>)>,
    tick: u32,
    caller: Principal,
    request: MintRequest,
) -> bool {
    let verdict = before.verdict(tick, caller, request);
    let untouched = now == before && issued == issued_before && undo is None;
    match flow {
        MintFlow::Received { request: held } => held == request && untouched,
        MintFlow::Authenticated { request: held } => {
            &&& held == request
            &&& caller == request.minter
            &&& untouched
        },
        MintFlow::DelegatePath { request: held, lookup } => {
            &&& held == request
            &&& caller == request.minter
            &&& request.minter != before.admin
            &&& untouched
            &&& lookup_on_track(lookup, before, tick, request.contract, request.minter)
        },
        MintFlow::Charging { request: held, key, stats, expire_after } => {
            &&& held == request
            &&& verdict == Ok::<Route, Rejection>(Route::Delegate { key, stats })
            &&& expire_after == spec_ticks_to_epoch_end(tick, key.epoch_length)
            &&& untouched
        },
        MintFlow::Committed { request: held, route } => {
            &&& held == request
            &&& verdict == Ok::<Route, Rejection>(route)
            &&& now == before.charged(route, tick)
            &&& issued == issued_before
            &&& undo == undo_for(route, before)
        },
        MintFlow::Settled { request: held, route } => {
            &&& held == request
            &&& verdict == Ok::<Route, Rejection>(route)
            &&& now == before.charged(route, tick)
            &&& issued == issued_before.push(Issuance { to: request.to, amount: request.amount })
        },
        MintFlow::Rejected { reason } => {
            if reason == Rejection::IssuanceFailed {
                &&& verdict matches Ok(route)
                &&& now == before.charged(route, tick)
                &&& issued == issued_before
                &&& undo == undo_for(route, before)
            } else {
                verdict == Err::<Route, Rejection>(reason) && untouched
            }
        },
    }
}

impl Contract {
    /// The lock is in order: its stores are, and every quota is usable.
    pub closed spec fn wf(&self) -> bool {
        &&& self.registry.wf()
        &&& self.ledger.wf()
    }

    /// What `wf` says of the stored quotas.
    pub proof fn lemma_wf_quotas(&self)
        requires
            self.wf(),
        ensures
            quotas_usable(self@.quotas),
    {
        self.registry.lemma_wf_quotas();
    }

    /// Sets the lock up with `admin` as its administrator, no delegate and
    /// nothing consumed.
    pub fn __constructor(admin: Principal) -> (contract: Contract)
        ensures
            contract.wf(),
            contract@ == (ContractState {
                admin,
                quotas: Map::<DelegateKey, MinterConfig>::empty(),
                consumed: Map::<QuotaKey, QuotaEntry>::empty(),
            }),
    {
        Contract { admin, registry: DelegateRegistry::new(), ledger: QuotaLedger::new() }
    }

    /// The administrator.
    pub fn admin(&self) -> (admin: Principal)
        ensures
            admin == self@.admin,
    {
        self.admin
    }

    /// Hands the administration over to `new_admin`. Only the administrator
    /// can do so: `caller` is whom the signature check has confirmed.
    pub fn set_admin(&mut self, caller: Principal, new_admin: Principal) -> (done: Result<
        (),
        Rejection,
    >)
        requires
            old(self).wf(),
        ensures
            final(self).wf(),
            done == old(self)@.admin_outcome(caller),
            final(self)@ == (if old(self)@.admits(caller) {
                old(self)@.with_admin(new_admin)
            } else {
                old(self)@
            }),
    {
        self.administer(caller, AdminAction::SetAdmin { new_admin })
    }

    /// Grants `minter` the quota `config` on `contract`, in place of any
    /// quota that it had there. Only the administrator can do so: `caller`
    /// is whom the signature check has confirmed.
    pub fn set_minter(
        &mut self,
        caller: Principal,
        contract: Principal,
        minter: Principal,
        config: MinterConfig,
    ) -> (done: Result<(), Rejection>)
        requires
            old(self).wf(),
            config.wf(),
        ensures
            final(self).wf(),
            done == old(self)@.admin_outcome(caller),
            final(self)@ == (if old(self)@.admits(caller) {
                old(self)@.with_quota(contract, minter, config)
            } else {
                old(self)@
            }),
    {
        self.administer(
            caller,
            AdminAction::SetMinter { delegate: DelegateKey { contract, minter }, config },
        )
    }

    /// Serves a call that reads.
    fn serve(&self, call: HostCall, tick: u32, caller: Principal) -> (reply: HostReply)
        requires
            self.wf(),
            call.reads(),
        ensures
            reply == self@.reply(call, tick, caller, false),
            reply matches HostReply::Config(Some(config)) ==> config.wf(),
    {
        match call {
            HostCall::VerifyAuth { signer, .. } => HostReply::AuthVerified(caller == signer),
            HostCall::VerifyInvocation { signer } => HostReply::AuthVerified(caller == signer),
            HostCall::ReadAdmin => HostReply::Admin(self.admin),
            HostCall::ReadConfig { delegate } => HostReply::Config(
                self.registry.lookup(delegate.contract, delegate.minter),
            ),
            HostCall::ReadTick => HostReply::Tick(tick),
            HostCall::ReadStats { key } => HostReply::Stats(self.ledger.find(key, tick)),
            _ => unreached(),
        }
    }

    /// Takes `action` through its flow, with the signature of `caller`.
    fn administer(&mut self, caller: Principal, action: AdminAction) -> (done: Result<
        (),
        Rejection,
    >)
        requires
            old(self).wf(),
            action matches AdminAction::SetMinter { config, .. } ==> config.wf(),
        ensures
            final(self).wf(),
            done == old(self)@.admin_outcome(caller),
            final(self)@ == old(self)@.after_admin(caller, action),
    {
        let mut flow = AdminFlow::receive(action);
        loop
            invariant
                self.wf(),
                action matches AdminAction::SetMinter { config, .. } ==> config.wf(),
                match flow {
                    AdminFlow::Received { action: held } => held == action && self@ == old(self)@,
                    AdminFlow::Identified { action: held, admin } => held == action && admin
                        == old(self)@.admin && self@ == old(self)@,
                    AdminFlow::Authorized { action: held } => held == action && old(
                        self,
                    )@.admits(caller) && self@ == old(self)@,
                    AdminFlow::Done => old(self)@.admits(caller) && self@ == old(
                        self,
                    )@.after_admin(caller, action),
                    AdminFlow::Rejected { reason } => reason == Rejection::Unauthenticated && !old(
                        self,
                    )@.admits(caller) && self@ == old(self)@,
                },
            decreases flow.rank(),
        {
            let reply = match flow.pending() {
                None => {
                    return flow.outcome().unwrap();
                },
                Some(HostCall::WriteAdmin { admin }) => {
                    self.admin = admin;
                    HostReply::Stored
                },
                Some(HostCall::WriteConfig { delegate, config }) => {
                    self.registry.register(delegate.contract, delegate.minter, config);
                    HostReply::Stored
                },
                Some(call) => self.serve(call, 0, caller),
            };
            flow = flow.step(reply);
        }
    }

    /// The quota of `minter` on `contract`, the epoch that `tick` lies in,
    /// and what the delegate has consumed in that epoch.
    pub fn minter(&self, tick: u32, contract: Principal, minter: Principal) -> (info: Result<
        (MinterConfig, u32, MinterStats),
        Error,
    >)
        requires
            self.wf(),
        ensures
            info == self@.minter_info(tick, contract, minter),
            info matches Ok((config, _, _)) ==> config.wf(),
    {
        let mut lookup = Lookup::begin(contract, minter);
        loop
            invariant
                self.wf(),
                lookup.wf(),
                lookup_on_track(lookup, self@, tick, contract, minter),
            decreases lookup.rank(),
        {
            match lookup.pending() {
                None => {
                    return lookup.outcome().unwrap();
                },
                Some(call) => {
                    let reply = self.serve(call, tick, minter);
                    lookup = lookup.step(reply);
                },
            }
        }
    }

    /// Takes a request to mint `amount` to `to` on `contract` in the name of
    /// `minter` through the lock, at `tick`. `caller` is whom the signature
    /// check has confirmed for this request, and `token` is the contract on
    /// which the issuance takes place.
    ///
    /// The request is authorized as `verdict` says. Once it is, its
    /// consumption is recorded and `token` is called, once. If the issuance
    /// fails there, the record is taken back: a request that does not end
    /// in `Ok` leaves no trace.
    pub fn mint<I: MintInterface>(
        &mut self,
        token: &mut I,
        tick: u32,
        caller: Principal,
        contract: Principal,
        minter: Principal,
        to: Principal,
        amount: i128,
    ) -> (outcome: Result<(), Rejection>)
        requires
            old(self).wf(),
            old(self)@.chargeable(tick, caller, MintRequest { contract, minter, to, amount }),
        ensures
            final(self).wf(),
            outcome == old(self)@.mint_outcome(
                tick,
                caller,
                MintRequest { contract, minter, to, amount },
                old(token).issues(to, amount),
            ),
            final(self)@ == old(self)@.after_mint(
                tick,
                caller,
                MintRequest { contract, minter, to, amount },
                old(token).issues(to, amount),
            ),
            final(token).issued() == (if outcome is Ok {
                old(token).issued().push(Issuance { to, amount })
            } else {
                old(token).issued()
            }),
            old(self)@.verdict(tick, caller, MintRequest { contract, minter, to, amount }) is Err
                ==> *final(token) == *old(token),
    {
        let request = MintRequest { contract, minter, to, amount };
        let ghost before = self@;
        let ghost issued_before = token.issued();
        let mut flow = MintFlow::receive(request);
        let mut undo: Option<(QuotaKey, Option<QuotaEntry>)> = None;
        proof {
            self.lemma_wf_quotas();
        }
        loop
            invariant
                self.wf(),
                flow.wf(),
                request == (MintRequest { contract, minter, to, amount }),
                before == old(self)@,
                issued_before == old(token).issued(),
                !flow.issuance_tried() ==> *token == *old(token),
                flow.issuance_tried() ==> (flow is Settled <==> old(token).issues(to, amount)),
                before.chargeable(tick, caller, request),
                quotas_usable(before.quotas),
                flow_on_track(
                    flow,
                    self@,
                    before,
                    token.issued(),
                    issued_before,
                    undo,
                    tick,
                    caller,
                    request,
                ),
            decreases flow.rank(),
        {
            let reply = match flow.pending() {
                None => {
                    let outcome = flow.outcome().unwrap();
                    if let Err(Rejection::IssuanceFailed) = outcome {
                        if let Some((key, previous)) = undo {
                            proof {
                                lemma_restore_undoes_commit(
                                    before.consumed,
                                    key,
                                    self@.consumed[key],
                                );
                            }
                            self.ledger.restore(key, previous);
                        }
                    }
                    return outcome;
                },
                Some(HostCall::WriteStats { key, stats, expire_after }) => {
                    undo = Some((key, self.ledger.entry(key)));
                    self.ledger.commit(key, stats, tick, expire_after);
                    HostReply::Stored
                },
                Some(HostCall::Issue { to, amount, .. }) => HostReply::Issued(
                    token.mint(to, amount),
                ),
                Some(call) => self.serve(call, tick, caller),
            };
            proof {
                if let MintFlow::DelegatePath { lookup: Lookup::AwaitStats { config, .. }, .. } = flow {
                    lemma_epoch_bounds(tick, config.epoch_length);
                }
                if let MintFlow::Charging { key, .. } = flow {
                    lemma_epoch_bounds(tick, key.epoch_length);
                }
            }
            flow = flow.step(reply);
        }
    }
}

} // verus!
