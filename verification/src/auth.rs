//! Who may execute orders.
//!
//! The owner may, and so may every account whose name carries the solver tag.

use crate::error::VaultError;
use vstd::prelude::*;

verus! {

/// The tag that marks an account name as a solver's.
pub open spec fn solver_tag() -> Seq<char> {
    seq!['s', 'o', 'l', 'v', 'e', 'r']
}

/// `needle` occurs in `hay` at offset `at`.
pub open spec fn occurs_at(hay: Seq<char>, needle: Seq<char>, at: int) -> bool {
    &&& 0 <= at
    &&& at + needle.len() <= hay.len()
    &&& hay.subrange(at, at + needle.len()) == needle
}

/// `needle` occurs somewhere in `hay` as a contiguous run.
pub open spec fn contains_run(hay: Seq<char>, needle: Seq<char>) -> bool {
    exists|at: int| occurs_at(hay, needle, at)
}

/// The rule for executing orders: the owner, or a name that carries the tag.
pub open spec fn authorized(caller: Seq<char>, owner: Seq<char>) -> bool {
    caller == owner || contains_run(caller, solver_tag())
}

/// Whether `caller`, with `attached` units of the native asset attached to
/// the call, can have a public key registered for a vault that `owner` owns:
/// exactly one unit must be attached, and only the owner can ask.
pub open spec fn key_registration_check(
    caller: Seq<char>,
    owner: Seq<char>,
    attached: nat,
) -> Result<(), VaultError> {
    if attached != 1 {
        Err(VaultError::InvalidInput)
    } else if caller != owner {
        Err(VaultError::Unauthorized)
    } else {
        Ok(())
    }
}

/// The characters of a string, in order.
pub fn chars_of(text: &str) -> (out: Vec<char>)
    ensures
        out@ == text@,
{
    broadcast use vstd::string::group_string_axioms;

    let mut out: Vec<char> = Vec::new();
    for c in it: text.chars()
        invariant
            it.seq() == text@,
            out@ == it.seq().take(it.index()),
    {
        out.push(c);
    }
    out
}

/// Whether `needle` stands in `hay` at offset `at`.
fn matches_at(hay: &Vec<char>, needle: &Vec<char>, at: usize) -> (found: bool)
    requires
        at + needle.len() <= hay.len(),
    ensures
        found == occurs_at(hay@, needle@, at as int),
{
    let mut j: usize = 0;
    while j < needle.len()
        invariant
            j <= needle.len(),
            at + needle.len() <= hay.len(),
            forall|k: int| 0 <= k < j ==> hay@[at + k] == needle@[k],
        decreases needle.len() - j,
    {
        if hay[at + j] != needle[j] {
            assert(hay@.subrange(at as int, at + needle.len())[j as int] != needle@[j as int]);
            return false;
        }
        j += 1;
    }
    assert(hay@.subrange(at as int, at + needle.len()) =~= needle@);
    true
}

/// Whether `needle` occurs in `hay` as a contiguous run.
pub fn contains_chars(hay: &Vec<char>, needle: &Vec<char>) -> (found: bool)
    ensures
        found == contains_run(hay@, needle@),
{
    if needle.len() > hay.len() {
        return false;
    }
    let last: usize = hay.len() - needle.len();
    let mut at: usize = 0;
    loop
        invariant
            at <= last,
            last == hay.len() - needle.len(),
            forall|k: int| 0 <= k < at ==> !occurs_at(hay@, needle@, k),
        decreases last - at,
    {
        if matches_at(hay, needle, at) {
            return true;
        }
        if at == last {
            return false;
        }
        at += 1;
    }
}

/// Whether `caller` may execute orders of a vault that `owner` owns.
pub fn is_authorized_solver(caller: &String, owner: &String) -> (allowed: bool)
    ensures
        allowed == authorized(caller@, owner@),
{
    if *caller == *owner {
        return true;
    }
    let tag: Vec<char> = vec!['s', 'o', 'l', 'v', 'e', 'r'];
    assert(tag@ =~= solver_tag());
    let name = chars_of(caller.as_str());
    contains_chars(&name, &tag)
}

/// Accepts `caller` as the owner, or rejects them with `Unauthorized`.
pub fn require_owner(caller: &String, owner: &String) -> (outcome: Result<(), VaultError>)
    ensures
        caller@ == owner@ ==> outcome == Ok::<(), VaultError>(()),
        caller@ != owner@ ==> outcome == Err::<(), VaultError>(VaultError::Unauthorized),
{
    if *caller == *owner {
        Ok(())
    } else {
        Err(VaultError::Unauthorized)
    }
}

/// Decides whether `caller` may have a public key registered for a vault
/// that `owner` owns. The call must carry exactly one unit of the native
/// asset, else it is rejected with `InvalidInput`; a caller other than the
/// owner is rejected with `Unauthorized`.
pub fn check_key_registration(
    caller: &String,
    owner: &String,
    attached_deposit: u128,
) -> (outcome: Result<(), VaultError>)
    ensures
        outcome == key_registration_check(caller@, owner@, attached_deposit as nat),
{
    if attached_deposit != 1 {
        return Err(VaultError::InvalidInput);
    }
    require_owner(caller, owner)
}

} // verus!
