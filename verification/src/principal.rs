//! The caller's identity: `candid::Principal`, and the little this crate
//! takes on trust about it.
//!
//! A principal is carried through the verified code as an opaque value. Two
//! things are asked of it: whether two principals are the same, and whether a
//! principal is the anonymous one. Both rest on `principal_eq` and
//! `anonymous_principal`, which call into `candid` and whose contracts are
//! stated, not proved.

use candid::Principal;
use vstd::prelude::*;

verus! {

/// `candid::Principal`, whose fields stay hidden from the verifier.
#[verifier::external_type_specification]
#[verifier::external_body]
pub struct ExPrincipal(candid::Principal);

/// The bytes that a principal holds, as `Principal::as_slice` hands them out:
/// between 0 and 29 of them.
pub uninterp spec fn principal_bytes(p: Principal) -> Seq<u8>;

/// The anonymous principal is the one whose only byte is `0x04`.
pub open spec fn is_anonymous(p: Principal) -> bool {
    principal_bytes(p) == seq![4u8]
}

/// Calls `==` on two principals (`PartialEq::eq`, derived in `ic_principal`
/// over the length and the zero-padded buffer).
///
/// Trusted: the result is `true` exactly when the two are the same value, which
/// is exactly when they hold the same bytes.
#[verifier::external_body]
pub(crate) fn principal_eq(a: &Principal, b: &Principal) -> (same: bool)
    ensures
        same == (*a == *b),
        same == (principal_bytes(*a) == principal_bytes(*b)),
{
    a == b
}

/// Calls `Principal::anonymous`.
///
/// Trusted: the principal that comes back holds the single byte `0x04`.
#[verifier::external_body]
pub(crate) fn anonymous_principal() -> (p: Principal)
    ensures
        principal_bytes(p) == seq![4u8],
{
    Principal::anonymous()
}

/// Whether `p` is the anonymous principal.
pub fn is_anonymous_principal(p: &Principal) -> (anonymous: bool)
    ensures
        anonymous == is_anonymous(*p),
{
    let sentinel = anonymous_principal();
    principal_eq(p, &sentinel)
}

/// Whether `p` occurs in `list`.
pub fn principal_in(list: &Vec<Principal>, p: &Principal) -> (found: bool)
    ensures
        found == list@.contains(*p),
{
    let mut i: usize = 0;
    while i < list.len()
        invariant
            i <= list.len(),
            forall|j: int| 0 <= j < i ==> list@[j] != *p,
        decreases list.len() - i,
    {
        if principal_eq(&list[i], p) {
            return true;
        }
        i += 1;
    }
    false
}

/// A copy of `list`, element by element.
pub fn copy_principals(list: &Vec<Principal>) -> (copy: Vec<Principal>)
    ensures
        copy@ == list@,
{
    let mut copy: Vec<Principal> = Vec::new();
    let mut i: usize = 0;
    while i < list.len()
        invariant
            i <= list.len(),
            copy@ == list@.subrange(0, i as int),
        decreases list.len() - i,
    {
        copy.push(list[i]);
        i += 1;
    }
    copy
}

} // verus!
