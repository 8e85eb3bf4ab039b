//! A tab inside a run.

use crate::documents::BuildXML;
use crate::markup::is_single_tag;
use crate::markup::lemma_plain_marker_shape;
use crate::markup::lemma_plain_marker_valid_utf8;
use crate::markup::lemma_self_closing_single;
use crate::markup::lemma_tag_name_plain;
use crate::markup::tab_markup;
use crate::markup::Tag;
use crate::xml_builder::XMLBuilder;
use vstd::prelude::*;
use vstd::utf8::encode_utf8;

verus! {

/// A tab. It carries nothing.
#[derive(Debug, Clone)]
pub struct Tab {}

impl Tab {
    /// A tab.
    pub fn new() -> (t: Tab)
        ensures
            t.markup() == tab_markup(),
    {
        Tab {  }
    }
}

impl BuildXML for Tab {
    open spec fn markup(&self) -> Seq<u8> {
        tab_markup()
    }

    fn build(&self) -> (out: Vec<u8>) {
        proof {
            lemma_plain_marker_valid_utf8(Tag::Tab);
        }
        XMLBuilder::new().tab().build()
    }
}

/// A tab is serialised as `<w:tab />`.
pub proof fn lemma_tab_markup(t: Tab)
    ensures
        t.markup() == encode_utf8("<w:tab />"@),
{
    lemma_plain_marker_shape(Tag::Tab.name());
    reveal_strlit("<");
    reveal_strlit("w:tab");
    reveal_strlit(" />");
    reveal_strlit("<w:tab />");
    assert("<"@ + "w:tab"@ + " />"@ =~= "<w:tab />"@);
}

/// A tab is a single self-closing tag: it never has a close tag of its own.
pub proof fn lemma_tab_single_tag(t: Tab)
    ensures
        is_single_tag(t.markup()),
{
    lemma_tag_name_plain(Tag::Tab);
    lemma_self_closing_single(Tag::Tab.name(), Seq::empty());
}

} // verus!
