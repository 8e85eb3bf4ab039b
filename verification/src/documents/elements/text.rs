//! A piece of text inside a run.

use crate::documents::BuildXML;
use crate::markup::text_markup;
use crate::markup::lemma_preserved_text_shape;
use crate::markup::lemma_preserved_text_valid_utf8;
use crate::markup::Tag;
use crate::xml_builder::XMLBuilder;
use vstd::prelude::*;
use vstd::utf8::encode_utf8;

verus! {

/// A piece of text. Its white space is always kept.
#[derive(Debug, Clone)]
pub struct Text {
    text: String,
}

impl View for Text {
    type V = Seq<char>;

    closed spec fn view(&self) -> Seq<char> {
        self.text@
    }
}

impl Text {
    /// A piece of text with the given payload.
    pub fn new(text: &str) -> (t: Text)
        ensures
            t@ == text@,
    {
        Text { text: text.to_owned() }
    }
}

impl BuildXML for Text {
    open spec fn markup(&self) -> Seq<u8> {
        text_markup(self@)
    }

    fn build(&self) -> (out: Vec<u8>) {
        proof {
            lemma_preserved_text_valid_utf8(Tag::Text, self@);
        }
        XMLBuilder::new().text(self.text.as_str()).build()
    }
}

/// A piece of text is serialised as its payload between
/// `<w:t xml:space="preserve">` and `</w:t>`: the request to keep white
/// space is there whatever the payload is, the empty one included.
pub proof fn lemma_text_markup(t: Text)
    ensures
        t.markup() == encode_utf8("<w:t xml:space=\"preserve\">"@) + encode_utf8(t@) + encode_utf8(
            "</w:t>"@,
        ),
{
    lemma_preserved_text_shape(Tag::Text, t@);
    reveal_strlit("<");
    reveal_strlit("w:t");
    reveal_strlit(" xml:space=\"preserve\">");
    reveal_strlit("</");
    reveal_strlit(">");
    reveal_strlit("<w:t xml:space=\"preserve\">");
    reveal_strlit("</w:t>");
    assert("<"@ + "w:t"@ + " xml:space=\"preserve\">"@ =~= "<w:t xml:space=\"preserve\">"@);
    assert("</"@ + "w:t"@ + ">"@ =~= "</w:t>"@);
}

} // verus!
