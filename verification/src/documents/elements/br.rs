//! A break inside a run.

use crate::documents::BuildXML;
use crate::markup::attribute;
use crate::markup::break_markup;
use crate::markup::is_single_tag;
use crate::markup::lemma_attribute_plain;
use crate::markup::lemma_attribute_valid_utf8;
use crate::markup::lemma_self_closing_valid_utf8;
use crate::markup::lemma_encode_ascii;
use crate::markup::lemma_marker_shape;
use crate::markup::lemma_self_closing_single;
use crate::markup::lemma_tag_name_plain;
use crate::markup::Tag;
use crate::types::lemma_break_type_plain;
use crate::types::BreakType;
use crate::xml_builder::XMLBuilder;
use vstd::prelude::*;
use vstd::utf8::encode_utf8;
use vstd::utf8::encode_utf8_valid_utf8;

verus! {

/// A break of one of the kinds of `BreakType`.
#[derive(Debug, Clone)]
pub struct Break {
    break_type: BreakType,
}

impl View for Break {
    type V = BreakType;

    closed spec fn view(&self) -> BreakType {
        self.break_type
    }
}

impl Break {
    /// A break of the given kind.
    pub fn new(break_type: BreakType) -> (b: Break)
        ensures
            b@ == break_type,
    {
        Break { break_type }
    }
}

impl BuildXML for Break {
    open spec fn markup(&self) -> Seq<u8> {
        break_markup(self@)
    }

    fn build(&self) -> (out: Vec<u8>) {
        proof {
            let value = encode_utf8(self@.name());
            encode_utf8_valid_utf8(self@.name());
            lemma_attribute_valid_utf8("w:type"@, value);
            lemma_self_closing_valid_utf8(Tag::Break.name(), attribute("w:type"@, value));
        }
        XMLBuilder::new().br(self.break_type).build()
    }
}

/// A break is serialised as `<w:br w:type="`, the value that stands for its
/// kind, and `" />`.
pub proof fn lemma_break_markup(b: Break)
    ensures
        b.markup() == encode_utf8("<w:br w:type=\""@) + encode_utf8(b@.name()) + encode_utf8(
            "\" />"@,
        ),
{
    lemma_marker_shape(Tag::Break.name(), "w:type"@, encode_utf8(b@.name()));
    reveal_strlit("<");
    reveal_strlit("w:br");
    reveal_strlit(" ");
    reveal_strlit("w:type");
    reveal_strlit("=\"");
    reveal_strlit("<w:br w:type=\"");
    assert("<"@ + "w:br"@ + " "@ + "w:type"@ + "=\""@ =~= "<w:br w:type=\""@);
}

/// A break is a single self-closing tag: it never has a close tag of its own.
pub proof fn lemma_break_single_tag(b: Break)
    ensures
        is_single_tag(b.markup()),
{
    reveal_strlit("w:type");
    lemma_encode_ascii("w:type"@);
    lemma_break_type_plain(b@);
    lemma_tag_name_plain(Tag::Break);
    lemma_attribute_plain("w:type"@, encode_utf8(b@.name()));
    lemma_self_closing_single(
        Tag::Break.name(),
        attribute("w:type"@, encode_utf8(b@.name())),
    );
}

} // verus!
