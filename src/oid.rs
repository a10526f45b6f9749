//! Object identifiers of the version-control backend.

use vstd::prelude::*;
use crate::text::{hex_digits, push_hex};

verus! {

/// The content hash that names a commit or a tree: its twenty bytes read
/// big-endian as eight, eight and four bytes.
#[derive(Clone, Copy, Debug, PartialEq, Eq, Structural)]
pub struct ObjectId {
    pub hi: u64,
    pub mid: u64,
    pub lo: u32,
}

impl ObjectId {
    pub fn from_parts(hi: u64, mid: u64, lo: u32) -> (r: ObjectId)
        ensures
            r.hi == hi,
            r.mid == mid,
            r.lo == lo,
    {
        ObjectId { hi, mid, lo }
    }

    /// The forty-digit lower-case hexadecimal form.
    pub open spec fn hex(&self) -> Seq<char> {
        hex_digits(self.hi as nat, 16) + hex_digits(self.mid as nat, 16) + hex_digits(self.lo as nat, 8)
    }

    /// Appends the hexadecimal form.
    pub fn push_hex_to(&self, out: &mut String)
        ensures
            final(out)@ == old(out)@ + self.hex(),
    {
        let ghost start = out@;
        push_hex(out, self.hi, 16);
        push_hex(out, self.mid, 16);
        push_hex(out, self.lo as u64, 8);
        assert(out@ =~= start + self.hex());
    }

    /// The hexadecimal form.
    pub fn to_hex(&self) -> (r: String)
        ensures
            r@ == self.hex(),
    {
        let mut out = String::new();
        self.push_hex_to(&mut out);
        assert(out@ =~= self.hex());
        out
    }
}

} // verus!
