//! The document tree and the capability that turns it into markup.

use vstd::prelude::*;
use vstd::utf8::valid_utf8;

pub mod elements;

verus! {

/// What every element of a document can do: give its markup.
pub trait BuildXML {
    /// The markup of the element and of everything below it.
    spec fn markup(&self) -> Seq<u8>;

    /// Serialises the element. The element is left as it was, the same
    /// element always gives the same bytes, and the bytes are valid UTF-8.
    fn build(&self) -> (out: Vec<u8>)
        ensures
            out@ == self.markup(),
            valid_utf8(out@),
    ;
}

} // verus!
