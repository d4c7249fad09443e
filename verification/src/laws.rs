//! What holds of the lock in every state.
//!
//! Each law is stated over the functions in which the contracts of
//! `Contract` describe its calls: `verdict`, `mint_outcome` and `after_mint`
//! for a mint, `admits`, `admin_outcome`, `with_admin` and `with_quota` for
//! the calls of the administrator, `minter_info` for a query. The last three
//! laws carry all of this over to any host that serves the flows from what
//! it has stored, as `reply` and `served` describe it.

use vstd::prelude::*;
use crate::clock::{
    lemma_epoch_bounds, spec_epoch_end, spec_epoch_index, spec_ticks_to_epoch_end,
};
use crate::config::{MinterConfig, MinterStats};
use crate::contract::ContractState;
use crate::error::{Error, Rejection};
use crate::admin::{AdminAction, AdminFlow};
use crate::flow::{MintFlow, MintRequest, Route};
use crate::host::{HostCall, HostReply};
use crate::lookup::{spec_quota_key, Lookup};
use crate::keys::DelegateKey;
use crate::ledger::{alive_at, stats_at};
use crate::registry::{quota_of, quotas_usable};
use crate::principal::Principal;

verus! {

/// A request that is rejected leaves the state as it was, whatever the
/// reason: the signature, the amount, the quota, or an issuance that did
/// not take place.
pub proof fn law_rejection_leaves_no_trace(
    state: ContractState,
    tick: u32,
    caller: Principal,
    request: MintRequest,
    issued: bool,
)
    requires
        state.mint_outcome(tick, caller, request, issued) is Err,
    ensures
        state.after_mint(tick, caller, request, issued) == state,
{
}

/// A signed request for a negative amount is refused as `NegativeAmount`,
/// in every state and at every tick, and the state stays as it was.
pub proof fn law_negative_amount_is_refused(
    state: ContractState,
    tick: u32,
    request: MintRequest,
    issued: bool,
)
    requires
        request.amount < 0,
    ensures
        state.mint_outcome(tick, request.minter, request, issued) == Err::<(), Rejection>(
            Rejection::Refused(Error::NegativeAmount),
        ),
        state.after_mint(tick, request.minter, request, issued) == state,
{
}

/// A request that the signature check does not confirm is not looked at any
/// further: it ends as `Unauthenticated`, whatever it asks for.
pub proof fn law_unsigned_request_is_unauthenticated(
    state: ContractState,
    tick: u32,
    caller: Principal,
    request: MintRequest,
    issued: bool,
)
    requires
        caller != request.minter,
    ensures
        state.mint_outcome(tick, caller, request, issued) == Err::<(), Rejection>(
            Rejection::Unauthenticated,
        ),
        state.after_mint(tick, caller, request, issued) == state,
{
}

/// Who is not the administrator and has no quota on the target contract is
/// refused as `NotAuthorizedMinter`.
pub proof fn law_unregistered_delegate_is_refused(
    state: ContractState,
    tick: u32,
    request: MintRequest,
    issued: bool,
)
    requires
        request.amount >= 0,
        request.minter != state.admin,
        quota_of(state.quotas, request.contract, request.minter) is None,
    ensures
        state.mint_outcome(tick, request.minter, request, issued) == Err::<(), Rejection>(
            Rejection::Refused(Error::NotAuthorizedMinter),
        ),
        state.after_mint(tick, request.minter, request, issued) == state,
{
}

/// Once a quota is registered for a delegate, the quota rule alone decides
/// on its requests: one goes through exactly when what the delegate has
/// consumed in the epoch, plus the amount, reaches the limit. It is then
/// never refused as `NotAuthorizedMinter`.
pub proof fn law_registered_delegate_meets_the_quota_rule(
    state: ContractState,
    tick: u32,
    request: MintRequest,
    config: MinterConfig,
)
    requires
        config.wf(),
        request.amount >= 0,
        request.minter != state.admin,
    ensures
        ({
            let registered = state.with_quota(request.contract, request.minter, config);
            let key = spec_quota_key(
                DelegateKey { contract: request.contract, minter: request.minter },
                config,
                tick,
            );
            let consumed = stats_at(state.consumed, key, tick);
            let projected = consumed.consumed_limit + request.amount;
            &&& registered.verdict(tick, request.minter, request) is Ok <==> projected
                >= config.limit
            &&& projected < config.limit ==> registered.verdict(tick, request.minter, request)
                == Err::<Route, Rejection>(Rejection::Refused(Error::DailyLimitInsufficient))
            &&& projected >= config.limit ==> registered.mint_outcome(
                tick,
                request.minter,
                request,
                true,
            ) == Ok::<(), Rejection>(())
        }),
{
}

/// The administrator mints any amount from zero up without a quota: the
/// verdict does not depend on what is registered or consumed, and nothing
/// is recorded.
pub proof fn law_authority_is_unbounded(
    state: ContractState,
    other: ContractState,
    tick: u32,
    other_tick: u32,
    request: MintRequest,
)
    requires
        request.amount >= 0,
        request.minter == state.admin,
        other.admin == state.admin,
    ensures
        state.verdict(tick, request.minter, request) == Ok::<Route, Rejection>(Route::Authority),
        other.verdict(other_tick, request.minter, request) == state.verdict(
            tick,
            request.minter,
            request,
        ),
        state.mint_outcome(tick, request.minter, request, true) == Ok::<(), Rejection>(()),
        state.after_mint(tick, request.minter, request, true) == state,
{
}

/// On the administrator's way the flow asks its host for the signature
/// check, for the administrator and for the issuance, and for nothing else:
/// no quota and no consumption record is read or written.
pub proof fn law_authority_path_reads_no_quota(request: MintRequest)
    requires
        request.amount >= 0,
    ensures
        ({
            let received = MintFlow::Received { request };
            let authenticated = received.spec_step(HostReply::AuthVerified(true));
            let committed = authenticated.spec_step(HostReply::Admin(request.minter));
            let settled = committed.spec_step(HostReply::Issued(true));
            &&& received.spec_pending() == Some(
                HostCall::VerifyAuth {
                    signer: request.minter,
                    contract: request.contract,
                    to: request.to,
                    amount: request.amount,
                },
            )
            &&& authenticated.spec_pending() == Some(HostCall::ReadAdmin)
            &&& committed == (MintFlow::Committed { request, route: Route::Authority })
            &&& committed.spec_pending() == Some(
                HostCall::Issue {
                    contract: request.contract,
                    to: request.to,
                    amount: request.amount,
                },
            )
            &&& settled.spec_outcome() == Some(Ok::<(), Rejection>(()))
        }),
{
}

/// What a delegate has consumed in an epoch never shrinks: a request that
/// goes through records at least what was recorded before.
pub proof fn law_consumption_never_shrinks(
    state: ContractState,
    tick: u32,
    caller: Principal,
    request: MintRequest,
)
    requires
        state.chargeable(tick, caller, request),
    ensures
        state.verdict(tick, caller, request) matches Ok(Route::Delegate { key, stats })
            ==> stats.consumed_limit == stats_at(state.consumed, key, tick).consumed_limit
            + request.amount && stats.consumed_limit >= stats_at(
            state.consumed,
            key,
            tick,
        ).consumed_limit,
{
}

/// Two ticks of one epoch end their epoch at the same tick, so a record
/// that is kept for `spec_ticks_to_epoch_end` ticks, counted from the tick
/// at which it is written, is alive at every tick of that epoch.
pub proof fn law_ticks_of_one_epoch_share_its_end(tick: u32, other: u32, epoch_length: u32)
    requires
        epoch_length > 0,
        spec_epoch_index(tick, epoch_length) == spec_epoch_index(other, epoch_length),
    ensures
        spec_epoch_end(tick, epoch_length) == spec_epoch_end(other, epoch_length),
        other < tick + spec_ticks_to_epoch_end(tick, epoch_length),
{
    lemma_epoch_bounds(other, epoch_length);
}

/// The record of a request that went through can be read at every tick of
/// the epoch in which it was written: it does not expire before that epoch
/// ends.
pub proof fn law_record_outlives_its_epoch(
    state: ContractState,
    tick: u32,
    caller: Principal,
    request: MintRequest,
    later: u32,
)
    requires
        quotas_usable(state.quotas),
        state.verdict(tick, caller, request) is Ok,
    ensures
        state.verdict(tick, caller, request) matches Ok(Route::Delegate { key, stats })
            ==> (spec_epoch_index(later, key.epoch_length) == key.epoch ==> alive_at(
            state.after_mint(tick, caller, request, true).consumed,
            key,
            later,
        ) == Some(stats)),
{
    if let Ok(Route::Delegate { key, stats }) = state.verdict(tick, caller, request) {
        let config = quota_of(state.quotas, request.contract, request.minter).unwrap();
        assert(state.quotas.dom().contains(
            DelegateKey { contract: request.contract, minter: request.minter },
        ));
        assert(config.wf());
        lemma_epoch_bounds(tick, config.epoch_length);
        if spec_epoch_index(later, key.epoch_length) == key.epoch {
            lemma_epoch_bounds(later, config.epoch_length);
        }
    }
}

/// Two requests of one delegate that go through in one epoch add up: after
/// the second, the delegate has consumed what it had consumed before the
/// first, and both amounts.
pub proof fn law_mints_accumulate(
    state: ContractState,
    first_tick: u32,
    second_tick: u32,
    first: MintRequest,
    second: MintRequest,
)
    requires
        quotas_usable(state.quotas),
        first.contract == second.contract,
        first.minter == second.minter,
        first.minter != state.admin,
        state.chargeable(first_tick, first.minter, first),
        state.mint_outcome(first_tick, first.minter, first, true) is Ok,
        state.after_mint(first_tick, first.minter, first, true).chargeable(
            second_tick,
            second.minter,
            second,
        ),
        state.after_mint(first_tick, first.minter, first, true).mint_outcome(
            second_tick,
            second.minter,
            second,
            true,
        ) is Ok,
        state.minter_info(first_tick, first.contract, first.minter) matches Ok((config, epoch, _))
            && spec_epoch_index(second_tick, config.epoch_length) == epoch,
    ensures
        ({
            let between = state.after_mint(first_tick, first.minter, first, true);
            let after = between.after_mint(second_tick, second.minter, second, true);
            &&& state.minter_info(first_tick, first.contract, first.minter) matches Ok(
                (_, _, before),
            )
            &&& after.minter_info(second_tick, first.contract, first.minter) matches Ok(
                (_, _, consumed),
            )
            &&& consumed.consumed_limit == before.consumed_limit + first.amount + second.amount
        }),
{
    let between = state.after_mint(first_tick, first.minter, first, true);
    let delegate = DelegateKey { contract: first.contract, minter: first.minter };
    let config = quota_of(state.quotas, first.contract, first.minter).unwrap();
    assert(state.quotas.dom().contains(delegate));
    assert(config.wf());
    let key = spec_quota_key(delegate, config, first_tick);
    lemma_epoch_bounds(first_tick, config.epoch_length);
    lemma_epoch_bounds(second_tick, config.epoch_length);
    assert(spec_quota_key(delegate, config, second_tick) == key);
    assert(between.quotas == state.quotas);
    assert(between.consumed.dom().contains(key));
}

/// What is consumed in one epoch does not count in another: a request that
/// goes through at one tick changes nothing of what is read at a tick of
/// another epoch, and so a later request of the delegate there gets the
/// verdict that it would have got without the first. Where nothing was
/// recorded for that other epoch, what is read there is still zero.
pub proof fn law_epochs_are_independent(
    state: ContractState,
    tick: u32,
    request: MintRequest,
    other_tick: u32,
    next: MintRequest,
)
    requires
        quotas_usable(state.quotas),
        state.verdict(tick, request.minter, request) is Ok,
        state.minter_info(tick, request.contract, request.minter) matches Ok((config, epoch, _))
            && spec_epoch_index(other_tick, config.epoch_length) != epoch,
        next.contract == request.contract,
        next.minter == request.minter,
    ensures
        ({
            let after = state.after_mint(tick, request.minter, request, true);
            let key = spec_quota_key(
                DelegateKey { contract: request.contract, minter: request.minter },
                quota_of(state.quotas, request.contract, request.minter).unwrap(),
                other_tick,
            );
            &&& after.minter_info(other_tick, request.contract, request.minter)
                == state.minter_info(other_tick, request.contract, request.minter)
            &&& after.verdict(other_tick, next.minter, next) == state.verdict(
                other_tick,
                next.minter,
                next,
            )
            &&& alive_at(state.consumed, key, other_tick) is None ==> (after.minter_info(
                other_tick,
                request.contract,
                request.minter,
            ) matches Ok((_, _, consumed)) && consumed == MinterStats::zero())
        }),
{
    let delegate = DelegateKey { contract: request.contract, minter: request.minter };
    let config = quota_of(state.quotas, request.contract, request.minter).unwrap();
    assert(state.quotas.dom().contains(delegate));
    assert(config.wf());
    lemma_epoch_bounds(tick, config.epoch_length);
    lemma_epoch_bounds(other_tick, config.epoch_length);
    assert(spec_quota_key(delegate, config, other_tick) != spec_quota_key(delegate, config, tick));
}

/// The administration changes hands only through its holder: a call by
/// anyone else is not authenticated and changes nothing. After a handover,
/// what only the administrator may do is open to the new administrator, and
/// to nobody else.
pub proof fn law_admin_handover(state: ContractState, caller: Principal, new_admin: Principal)
    ensures
        state.admits(state.admin),
        !state.admits(caller) ==> state.admin_outcome(caller) == Err::<(), Rejection>(
            Rejection::Unauthenticated,
        ),
        state.with_admin(new_admin).admin == new_admin,
        state.with_admin(new_admin).admits(caller) <==> caller == new_admin,
        state.with_admin(new_admin).admin_outcome(caller) is Ok <==> caller == new_admin,
        state.with_admin(new_admin).quotas == state.quotas,
        state.with_admin(new_admin).consumed == state.consumed,
{
}

/// A quota that was registered reads back as it was written, field by
/// field, and the quotas of all other delegates stay as they were.
pub proof fn law_registered_quota_reads_back(
    state: ContractState,
    tick: u32,
    contract: Principal,
    minter: Principal,
    config: MinterConfig,
    other: DelegateKey,
)
    ensures
        quota_of(state.with_quota(contract, minter, config).quotas, contract, minter) == Some(
            config,
        ),
        state.with_quota(contract, minter, config).minter_info(tick, contract, minter) matches Ok(
            (read, _, _),
        ) && read.limit == config.limit && read.epoch_length == config.epoch_length,
        other != (DelegateKey { contract, minter }) ==> quota_of(
            state.with_quota(contract, minter, config).quotas,
            other.contract,
            other.minter,
        ) == quota_of(state.quotas, other.contract, other.minter),
{
}

/// Where a mint flow and the state of its host stand once the host has
/// served the flow for at most `steps` calls, replying as `reply` says and
/// storing as `served` says.
pub open spec fn mint_run(
    flow: MintFlow,
    state: ContractState,
    tick: u32,
    caller: Principal,
    issued: bool,
    steps: nat,
) -> (MintFlow, ContractState)
    decreases steps,
{
    match flow.spec_pending() {
        Some(call) if steps > 0 => mint_run(
            flow.spec_step(state.reply(call, tick, caller, issued)),
            state.served(call, tick),
            tick,
            caller,
            issued,
            (steps - 1) as nat,
        ),
        _ => (flow, state),
    }
}

/// Whatever host serves a mint flow from what it has stored gets the
/// verdict on the request: within eight calls the flow is over, it ends as
/// `mint_outcome` says, and the host has stored what `charged` says where
/// the request was let through, and nothing where it was not. A host that
/// then discards what a failed request has stored arrives at `after_mint`.
pub proof fn law_flow_ends_as_the_verdict_says(
    state: ContractState,
    tick: u32,
    caller: Principal,
    request: MintRequest,
    issued: bool,
)
    requires
        quotas_usable(state.quotas),
        state.chargeable(tick, caller, request),
    ensures
        ({
            let (end, stored) = mint_run(
                MintFlow::Received { request },
                state,
                tick,
                caller,
                issued,
                8,
            );
            &&& end.spec_outcome() == Some(state.mint_outcome(tick, caller, request, issued))
            &&& stored == match state.verdict(tick, caller, request) {
                Ok(route) => state.charged(route, tick),
                Err(_) => state,
            }
            &&& end is Settled ==> stored == state.after_mint(tick, caller, request, issued)
        }),
{
    reveal_with_fuel(mint_run, 9);
    let delegate = DelegateKey { contract: request.contract, minter: request.minter };
    if caller == request.minter && request.amount >= 0 && request.minter != state.admin {
        if let Some(config) = quota_of(state.quotas, request.contract, request.minter) {
            assert(state.quotas.dom().contains(delegate));
            assert(config.wf());
            lemma_epoch_bounds(tick, config.epoch_length);
        }
    }
}

/// Where a walk stands once a host with the state `state` has served it
/// for at most `steps` calls.
pub open spec fn lookup_run(lookup: Lookup, state: ContractState, tick: u32, steps: nat) -> Lookup
    decreases steps,
{
    match lookup.spec_pending() {
        Some(call) if steps > 0 => lookup_run(
            lookup.spec_step(state.reply(call, tick, state.admin, false)),
            state,
            tick,
            (steps - 1) as nat,
        ),
        _ => lookup,
    }
}

/// Whatever host serves a walk from what it has stored gets what
/// `minter_info` says: within three calls the walk is over, with the quota,
/// the epoch of the tick and what is consumed in it, or with
/// `NotAuthorizedMinter` where no quota is registered.
pub proof fn law_walk_ends_as_the_query_says(
    state: ContractState,
    tick: u32,
    contract: Principal,
    minter: Principal,
)
    ensures
        lookup_run(
            Lookup::AwaitConfig { delegate: DelegateKey { contract, minter } },
            state,
            tick,
            3,
        ).spec_outcome() == Some(state.minter_info(tick, contract, minter)),
{
    reveal_with_fuel(lookup_run, 4);
}

/// Where an administrator's flow and the state of its host stand once the
/// host has served the flow for at most `steps` calls.
pub open spec fn admin_run(flow: AdminFlow, state: ContractState, caller: Principal, steps: nat)
    -> (AdminFlow, ContractState)
    decreases steps,
{
    match flow.spec_pending() {
        Some(call) if steps > 0 => admin_run(
            flow.spec_step(state.reply(call, 0, caller, false)),
            state.served(call, 0),
            caller,
            (steps - 1) as nat,
        ),
        _ => (flow, state),
    }
}

/// Whatever host serves an administrator's flow from what it has stored
/// makes the change exactly where the administrator has signed: within
/// three calls the flow is over, it ends as `admin_outcome` says, and the
/// host has stored what `after_admin` says.
pub proof fn law_admin_flow_ends_as_the_state_says(
    state: ContractState,
    caller: Principal,
    action: AdminAction,
)
    ensures
        ({
            let (end, stored) = admin_run(AdminFlow::Received { action }, state, caller, 3);
            &&& end.spec_outcome() == Some(state.admin_outcome(caller))
            &&& stored == state.after_admin(caller, action)
        }),
{
    reveal_with_fuel(admin_run, 4);
}

} // verus!
