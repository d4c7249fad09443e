//! The issuance: the one effect that a mint request is after.

use vstd::prelude::*;
use crate::principal::Principal;

verus! {

/// One act of issuing: `amount` to `to`.
#[derive(Clone, Copy, Debug, PartialEq, Eq, Structural)]
pub struct Issuance {
    pub to: Principal,
    pub amount: i128,
}

/// The contract that mints. The lock calls it once for a request that it has
/// let through, and never for another.
pub trait MintInterface {
    /// Everything that was issued through this interface, oldest first.
    spec fn issued(&self) -> Seq<Issuance>;

    /// Whether an issuance of `amount` to `to` would take place now.
    spec fn issues(&self, to: Principal, amount: i128) -> bool;

    /// Issues `amount` to `to`, and says whether that took place. An
    /// issuance that did not take place leaves no trace.
    fn mint(&mut self, to: Principal, amount: i128) -> (done: bool)
        ensures
            done == old(self).issues(to, amount),
            done ==> final(self).issued() == old(self).issued().push(Issuance { to, amount }),
            !done ==> final(self).issued() == old(self).issued(),
    ;
}

/// A mint that keeps a list of what it has issued, up to a fixed number of
/// entries. Once the list is full it issues no more.
pub struct IssuanceLog {
    entries: Vec<Issuance>,
    capacity: usize,
}

impl View for IssuanceLog {
    type V = Seq<Issuance>;

    /// What the log has issued, oldest first.
    closed spec fn view(&self) -> Seq<Issuance> {
        self.entries@
    }
}

impl IssuanceLog {
    /// The number of entries that the log takes.
    pub closed spec fn spec_capacity(&self) -> usize {
        self.capacity
    }

    /// A log without entries that takes up to `capacity` of them.
    pub fn with_capacity(capacity: usize) -> (log: IssuanceLog)
        ensures
            log@ == Seq::<Issuance>::empty(),
            log.spec_capacity() == capacity,
    {
        IssuanceLog { entries: Vec::new(), capacity }
    }

    /// The number of entries that the log takes.
    #[verifier::when_used_as_spec(spec_capacity)]
    pub fn capacity(&self) -> (capacity: usize)
        ensures
            capacity == self.spec_capacity(),
    {
        self.capacity
    }

    /// What the log has issued, oldest first.
    pub fn entries(&self) -> (entries: &Vec<Issuance>)
        ensures
            entries@ == self@,
    {
        &self.entries
    }
}

impl MintInterface for IssuanceLog {
    open spec fn issued(&self) -> Seq<Issuance> {
        self@
    }

    /// The log issues while it has room.
    open spec fn issues(&self, to: Principal, amount: i128) -> bool {
        self@.len() < self.spec_capacity()
    }

    fn mint(&mut self, to: Principal, amount: i128) -> (done: bool)
        ensures
            final(self).spec_capacity() == old(self).spec_capacity(),
    {
        if self.entries.len() < self.capacity {
            self.entries.push(Issuance { to, amount });
            true
        } else {
            false
        }
    }
}

} // verus!
