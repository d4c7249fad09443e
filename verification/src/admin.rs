//! What only the administrator may do, as a flow.

use vstd::prelude::*;
use crate::config::MinterConfig;
use crate::error::Rejection;
use crate::host::{HostCall, HostReply};
use crate::keys::DelegateKey;
use crate::principal::Principal;

verus! {

/// A change that only the administrator may make.
#[derive(Clone, Copy, Debug, PartialEq, Eq)]
pub enum AdminAction {
    /// Hand the administration over to `new_admin`.
    SetAdmin { new_admin: Principal },
    /// Grant `delegate` the quota `config`, in place of any that it has.
    SetMinter { delegate: DelegateKey, config: MinterConfig },
}

impl AdminAction {
    /// The call that makes the change.
    pub open spec fn write(self) -> HostCall {
        match self {
            AdminAction::SetAdmin { new_admin } => HostCall::WriteAdmin { admin: new_admin },
            AdminAction::SetMinter { delegate, config } => HostCall::WriteConfig {
                delegate,
                config,
            },
        }
    }
}

/// One change by the administrator on its way: whoever is the administrator
/// when the change comes in has to have signed for it.
#[derive(Clone, Copy, Debug, PartialEq, Eq)]
pub enum AdminFlow {
    /// The change has come in. Waiting for the administrator.
    Received { action: AdminAction },
    /// Waiting for the signature check on the administrator.
    Identified { action: AdminAction, admin: Principal },
    /// The administrator has signed. Waiting for the change to be stored.
    Authorized { action: AdminAction },
    /// The change is stored.
    Done,
    /// The administrator has not signed. Nothing is changed.
    Rejected { reason: Rejection },
}

impl AdminFlow {
    /// The flow is over.
    pub open spec fn done(self) -> bool {
        self is Done || self is Rejected
    }

    /// The call that the flow waits for.
    pub open spec fn spec_pending(self) -> Option<HostCall> {
        match self {
            AdminFlow::Received { .. } => Some(HostCall::ReadAdmin),
            AdminFlow::Identified { admin, .. } => Some(HostCall::VerifyInvocation { signer: admin }),
            AdminFlow::Authorized { action } => Some(action.write()),
            AdminFlow::Done => None,
            AdminFlow::Rejected { .. } => None,
        }
    }

    /// Where the flow stands after `reply`.
    pub open spec fn spec_step(self, reply: HostReply) -> AdminFlow {
        match (self, reply) {
            (AdminFlow::Received { action }, HostReply::Admin(admin)) => AdminFlow::Identified {
                action,
                admin,
            },
            (AdminFlow::Identified { action, .. }, HostReply::AuthVerified(confirmed)) => {
                if confirmed {
                    AdminFlow::Authorized { action }
                } else {
                    AdminFlow::Rejected { reason: Rejection::Unauthenticated }
                }
            },
            (AdminFlow::Authorized { .. }, HostReply::Stored) => AdminFlow::Done,
            _ => self,
        }
    }

    /// The number of replies that the flow needs at most before it is over.
    pub open spec fn rank(self) -> nat {
        match self {
            AdminFlow::Received { .. } => 3,
            AdminFlow::Identified { .. } => 2,
            AdminFlow::Authorized { .. } => 1,
            AdminFlow::Done => 0,
            AdminFlow::Rejected { .. } => 0,
        }
    }

    /// How the flow has ended, once it is over.
    pub open spec fn spec_outcome(self) -> Option<Result<(), Rejection>> {
        match self {
            AdminFlow::Done => Some(Ok(())),
            AdminFlow::Rejected { reason } => Some(Err(reason)),
            _ => None,
        }
    }

    /// Takes a change in.
    pub fn receive(action: AdminAction) -> (flow: AdminFlow)
        ensures
            flow == (AdminFlow::Received { action }),
    {
        AdminFlow::Received { action }
    }

    /// The call that the host is to make next; `None` once the flow is over.
    pub fn pending(&self) -> (call: Option<HostCall>)
        ensures
            call == self.spec_pending(),
            call is None <==> self.done(),
    {
        match *self {
            AdminFlow::Received { .. } => Some(HostCall::ReadAdmin),
            AdminFlow::Identified { admin, .. } => Some(HostCall::VerifyInvocation { signer: admin }),
            AdminFlow::Authorized { action } => match action {
                AdminAction::SetAdmin { new_admin } => Some(
                    HostCall::WriteAdmin { admin: new_admin },
                ),
                AdminAction::SetMinter { delegate, config } => Some(
                    HostCall::WriteConfig { delegate, config },
                ),
            },
            AdminFlow::Done => None,
            AdminFlow::Rejected { .. } => None,
        }
    }

    /// Takes the host's reply and moves on. A reply that does not answer
    /// the pending call changes nothing.
    pub fn step(self, reply: HostReply) -> (next: AdminFlow)
        ensures
            next == self.spec_step(reply),
            next != self ==> next.rank() < self.rank(),
    {
        match (self, reply) {
            (AdminFlow::Received { action }, HostReply::Admin(admin)) => AdminFlow::Identified {
                action,
                admin,
            },
            (AdminFlow::Identified { action, .. }, HostReply::AuthVerified(confirmed)) => {
                if confirmed {
                    AdminFlow::Authorized { action }
                } else {
                    AdminFlow::Rejected { reason: Rejection::Unauthenticated }
                }
            },
            (AdminFlow::Authorized { .. }, HostReply::Stored) => AdminFlow::Done,
            _ => self,
        }
    }

    /// How the flow has ended; `None` while it is under way.
    pub fn outcome(&self) -> (ended: Option<Result<(), Rejection>>)
        ensures
            ended == self.spec_outcome(),
            ended is Some <==> self.done(),
    {
        match *self {
            AdminFlow::Done => Some(Ok(())),
            AdminFlow::Rejected { reason } => Some(Err(reason)),
            _ => None,
        }
    }
}

} // verus!
