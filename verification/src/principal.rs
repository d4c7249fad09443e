//! Principals: the parties that sign, hold quota and receive value.

use vstd::prelude::*;
use vstd::bytes::{
    lemma_auto_spec_u128_to_from_le_bytes, spec_u128_to_le_bytes, u128_from_le_bytes,
    u128_to_le_bytes,
};
use vstd::slice::slice_subrange;

verus! {

/// What a principal's key identifies.
#[derive(Clone, Copy, Debug, PartialEq, Eq, Structural, Hash)]
pub enum PrincipalKind {
    /// An account, identified by its public key.
    Account,
    /// A contract, identified by the hash it was deployed under.
    Contract,
}

/// An identity: a kind and a key of 32 bytes. Two principals are the same
/// party exactly when their kind and every byte of their key agree.
#[derive(Clone, Copy, Debug, PartialEq, Eq, Structural, Hash)]
pub struct Principal {
    pub kind: PrincipalKind,
    /// The first 16 bytes of the key, the first byte lowest.
    pub head: u128,
    /// The last 16 bytes of the key, the first of them lowest.
    pub tail: u128,
}

impl Principal {
    /// The key, byte by byte.
    pub open spec fn spec_key(self) -> Seq<u8> {
        spec_u128_to_le_bytes(self.head) + spec_u128_to_le_bytes(self.tail)
    }

    /// The account whose key is made of `head` and `tail`.
    pub fn account(head: u128, tail: u128) -> (p: Principal)
        ensures
            p == (Principal { kind: PrincipalKind::Account, head, tail }),
    {
        Principal { kind: PrincipalKind::Account, head, tail }
    }

    /// The contract whose hash is made of `head` and `tail`.
    pub fn contract(head: u128, tail: u128) -> (p: Principal)
        ensures
            p == (Principal { kind: PrincipalKind::Contract, head, tail }),
    {
        Principal { kind: PrincipalKind::Contract, head, tail }
    }

    /// The principal of kind `kind` with the key `key`; `None` where `key`
    /// is not 32 bytes long.
    pub fn from_key(kind: PrincipalKind, key: &[u8]) -> (found: Option<Principal>)
        ensures
            found is Some <==> key@.len() == 32,
            found matches Some(p) ==> p.kind == kind && p.spec_key() == key@,
    {
        if key.len() != 32 {
            return None;
        }
        let head = u128_from_le_bytes(slice_subrange(key, 0, 16));
        let tail = u128_from_le_bytes(slice_subrange(key, 16, 32));
        let p = Principal { kind, head, tail };
        proof {
            lemma_auto_spec_u128_to_from_le_bytes();
            assert(spec_u128_to_le_bytes(head) == key@.subrange(0, 16));
            assert(spec_u128_to_le_bytes(tail) == key@.subrange(16, 32));
            assert(p.spec_key() =~= key@);
        }
        Some(p)
    }

    /// The 32 bytes of the key.
    pub fn key(&self) -> (key: Vec<u8>)
        ensures
            key@ == self.spec_key(),
            key@.len() == 32,
    {
        let mut key = u128_to_le_bytes(self.head);
        let mut rest = u128_to_le_bytes(self.tail);
        key.append(&mut rest);
        key
    }
}

/// A key names one principal of a kind: two principals of one kind with the
/// same bytes are the same.
pub proof fn lemma_key_names_one_principal(p: Principal, q: Principal)
    requires
        p.kind == q.kind,
        p.spec_key() == q.spec_key(),
    ensures
        p == q,
{
    lemma_auto_spec_u128_to_from_le_bytes();
    let (a, b) = (spec_u128_to_le_bytes(p.head), spec_u128_to_le_bytes(p.tail));
    let (c, d) = (spec_u128_to_le_bytes(q.head), spec_u128_to_le_bytes(q.tail));
    assert(a.len() == 16 && b.len() == 16 && c.len() == 16 && d.len() == 16);
    assert(a =~= (a + b).subrange(0, 16));
    assert(c =~= (c + d).subrange(0, 16));
    assert(b =~= (a + b).subrange(16, 32));
    assert(d =~= (c + d).subrange(16, 32));
}

} // verus!
