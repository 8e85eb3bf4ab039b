//! Plain enumerations that elements carry.

use crate::markup::is_plain;
use crate::markup::lemma_encode_ascii;
use vstd::prelude::*;
use vstd::utf8::encode_utf8;

verus! {

/// The kinds of break that a run can hold.
#[derive(Clone, Copy, Debug, PartialEq, Eq, Structural)]
pub enum BreakType {
    /// Continue on the next page.
    Page,
    /// Continue in the next column.
    Column,
    /// Continue on the next line.
    TextWrapping,
}

impl BreakType {
    /// The value that stands for the kind in markup.
    pub open spec fn name(self) -> Seq<char> {
        match self {
            BreakType::Page => "page"@,
            BreakType::Column => "column"@,
            BreakType::TextWrapping => "textWrapping"@,
        }
    }

    /// The value that stands for the kind in markup, as a string slice.
    pub fn as_str(self) -> (s: &'static str)
        ensures
            s@ == self.name(),
    {
        match self {
            BreakType::Page => "page",
            BreakType::Column => "column",
            BreakType::TextWrapping => "textWrapping",
        }
    }
}

/// The value that stands for a kind of break is plain ASCII.
pub proof fn lemma_break_type_plain(kind: BreakType)
    ensures
        is_plain(encode_utf8(kind.name())),
{
    reveal_strlit("page");
    reveal_strlit("column");
    reveal_strlit("textWrapping");
    lemma_encode_ascii(kind.name());
}

} // verus!
