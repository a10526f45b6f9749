//! Rules for copying a working tree into the disk image.

use vstd::prelude::*;
use vstd::string::*;

verus! {

/// Entries whose name starts with a dot are not copied.
pub open spec fn is_hidden_spec(name: Seq<char>) -> bool {
    name.len() > 0 && name[0] == '.'
}

pub fn is_hidden(name: &str) -> (r: bool)
    ensures
        r == is_hidden_spec(name@),
{
    if name.unicode_len() == 0 {
        false
    } else {
        name.get_char(0) == '.'
    }
}

} // verus!
