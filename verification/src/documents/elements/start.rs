//! The number at which a numbering starts.

use crate::documents::BuildXML;
use crate::decimal::decimal;
use crate::decimal::lemma_decimal_sound;
use crate::decimal::lemma_decimal_valid_utf8;
use crate::markup::lemma_value_marker_valid_utf8;
use crate::markup::attribute;
use crate::markup::is_single_tag;
use crate::markup::lemma_attribute_plain;
use crate::markup::lemma_encode_ascii;
use crate::markup::lemma_marker_shape;
use crate::markup::lemma_self_closing_single;
use crate::markup::lemma_tag_name_plain;
use crate::markup::start_markup;
use crate::markup::Tag;
use crate::xml_builder::XMLBuilder;
use vstd::prelude::*;
use vstd::utf8::encode_utf8;

verus! {

/// The number at which a numbering starts.
#[derive(Debug, Clone)]
pub struct Start {
    val: usize,
}

impl View for Start {
    type V = nat;

    closed spec fn view(&self) -> nat {
        self.val as nat
    }
}

impl Start {
    /// A start marker with the given number.
    pub fn new(val: usize) -> (s: Start)
        ensures
            s@ == val,
    {
        Start { val }
    }
}

impl BuildXML for Start {
    open spec fn markup(&self) -> Seq<u8> {
        start_markup(self@)
    }

    fn build(&self) -> (out: Vec<u8>) {
        proof {
            lemma_decimal_valid_utf8(self@);
            lemma_value_marker_valid_utf8(Tag::Start, decimal(self@));
        }
        XMLBuilder::new().start(self.val).build()
    }
}

/// A start marker is serialised as `<w:start w:val="` followed by its number
/// in decimal and `" />`, whatever the number.
pub proof fn lemma_start_markup(s: Start)
    ensures
        s.markup() == encode_utf8("<w:start w:val=\""@) + decimal(s@) + encode_utf8("\" />"@),
{
    lemma_marker_shape(Tag::Start.name(), "w:val"@, decimal(s@));
    reveal_strlit("<");
    reveal_strlit("w:start");
    reveal_strlit(" ");
    reveal_strlit("w:val");
    reveal_strlit("=\"");
    reveal_strlit("<w:start w:val=\"");
    assert("<"@ + "w:start"@ + " "@ + "w:val"@ + "=\""@ =~= "<w:start w:val=\""@);
}

/// A start marker is a single self-closing tag: it never has a close tag of
/// its own.
pub proof fn lemma_start_single_tag(s: Start)
    ensures
        is_single_tag(s.markup()),
{
    reveal_strlit("w:val");
    lemma_encode_ascii("w:val"@);
    lemma_decimal_sound(s@);
    lemma_tag_name_plain(Tag::Start);
    lemma_attribute_plain("w:val"@, decimal(s@));
    lemma_self_closing_single(Tag::Start.name(), attribute("w:val"@, decimal(s@)));
}

} // verus!
