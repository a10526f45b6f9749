//! Reference names and the messages recorded with reference updates and
//! merge commits.

use vstd::prelude::*;
use crate::oid::ObjectId;
use crate::text::push_str;

verus! {

/// The full name of a local branch.
pub open spec fn branch_ref_spec(branch: Seq<char>) -> Seq<char> {
    "refs/heads/"@ + branch
}

pub fn branch_ref(branch: &str) -> (r: String)
    ensures
        r@ == branch_ref_spec(branch@),
{
    let mut out = String::new();
    push_str(&mut out, "refs/heads/");
    push_str(&mut out, branch);
    assert(out@ =~= branch_ref_spec(branch@));
    out
}

/// The log message of a fast-forward of reference `name` to `target`.
pub open spec fn fast_forward_message_spec(name: Seq<char>, target: ObjectId) -> Seq<char> {
    "Fast-Forward: Setting "@ + name + " to id: "@ + target.hex()
}

pub fn fast_forward_message(name: &str, target: &ObjectId) -> (r: String)
    ensures
        r@ == fast_forward_message_spec(name@, *target),
{
    let mut out = String::new();
    push_str(&mut out, "Fast-Forward: Setting ");
    push_str(&mut out, name);
    push_str(&mut out, " to id: ");
    target.push_hex_to(&mut out);
    assert(out@ =~= fast_forward_message_spec(name@, *target));
    out
}

/// The log message of the creation of branch `branch` at `target`.
pub open spec fn create_branch_message_spec(branch: Seq<char>, target: ObjectId) -> Seq<char> {
    "Setting "@ + branch + " to "@ + target.hex()
}

pub fn create_branch_message(branch: &str, target: &ObjectId) -> (r: String)
    ensures
        r@ == create_branch_message_spec(branch@, *target),
{
    let mut out = String::new();
    push_str(&mut out, "Setting ");
    push_str(&mut out, branch);
    push_str(&mut out, " to ");
    target.push_hex_to(&mut out);
    assert(out@ =~= create_branch_message_spec(branch@, *target));
    out
}

/// The message of the commit that merges `remote` into `local`.
pub open spec fn merge_message_spec(local: ObjectId, remote: ObjectId) -> Seq<char> {
    "Merge: "@ + remote.hex() + " into "@ + local.hex()
}

pub fn merge_message(local: &ObjectId, remote: &ObjectId) -> (r: String)
    ensures
        r@ == merge_message_spec(*local, *remote),
{
    let mut out = String::new();
    push_str(&mut out, "Merge: ");
    remote.push_hex_to(&mut out);
    push_str(&mut out, " into ");
    local.push_hex_to(&mut out);
    assert(out@ =~= merge_message_spec(*local, *remote));
    out
}

} // verus!
