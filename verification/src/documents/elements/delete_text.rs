//! A piece of deleted text inside a run.

use crate::documents::BuildXML;
use crate::markup::delete_text_markup;
use crate::markup::lemma_preserved_text_shape;
use crate::markup::lemma_preserved_text_valid_utf8;
use crate::markup::Tag;
use crate::xml_builder::XMLBuilder;
use vstd::prelude::*;
use vstd::utf8::encode_utf8;

verus! {

/// A piece of text that was deleted. Its white space is always kept.
#[derive(Debug, Clone)]
pub struct DeleteText {
    text: String,
}

impl View for DeleteText {
    type V = Seq<char>;

    closed spec fn view(&self) -> Seq<char> {
        self.text@
    }
}

impl DeleteText {
    /// A piece of deleted text with the given payload.
    pub fn new(text: &str) -> (t: DeleteText)
        ensures
            t@ == text@,
    {
        DeleteText { text: text.to_owned() }
    }
}

impl BuildXML for DeleteText {
    open spec fn markup(&self) -> Seq<u8> {
        delete_text_markup(self@)
    }

    fn build(&self) -> (out: Vec<u8>) {
        proof {
            lemma_preserved_text_valid_utf8(Tag::DeleteText, self@);
        }
        XMLBuilder::new().delete_text(self.text.as_str()).build()
    }
}

/// A piece of deleted text is serialised as its payload between
/// `<w:delText xml:space="preserve">` and `</w:delText>`: the request to keep white
/// space is there whatever the payload is, the empty one included.
pub proof fn lemma_delete_text_markup(t: DeleteText)
    ensures
        t.markup() == encode_utf8("<w:delText xml:space=\"preserve\">"@) + encode_utf8(t@) + encode_utf8(
            "</w:delText>"@,
        ),
{
    lemma_preserved_text_shape(Tag::DeleteText, t@);
    reveal_strlit("<");
    reveal_strlit("w:delText");
    reveal_strlit(" xml:space=\"preserve\">");
    reveal_strlit("</");
    reveal_strlit(">");
    reveal_strlit("<w:delText xml:space=\"preserve\">");
    reveal_strlit("</w:delText>");
    assert("<"@ + "w:delText"@ + " xml:space=\"preserve\">"@ =~= "<w:delText xml:space=\"preserve\">"@);
    assert("</"@ + "w:delText"@ + ">"@ =~= "</w:delText>"@);
}

} // verus!
