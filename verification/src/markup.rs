//! The vocabulary of the markup: element names, attribute keys, and the byte
//! sequences that tags are made of.
//!
//! Markup is modelled as a `Seq<u8>`. Fixed pieces of text are written as the
//! UTF-8 encoding of a string literal, so that the literal can be read off the
//! definition.

use crate::decimal::decimal;
use crate::types::BreakType;
use vstd::prelude::*;
use vstd::utf8::encode_utf8;
use vstd::utf8::is_ascii_chars;
use vstd::utf8::encode_utf8_valid_utf8;
use vstd::utf8::is_ascii_chars_encode_utf8;
use vstd::utf8::valid_utf8;
use vstd::utf8::valid_utf8_concat;

verus! {

/// The elements that the builder can emit.
#[derive(Clone, Copy, Debug, PartialEq, Eq, Structural)]
pub enum Tag {
    Run,
    RunProperty,
    Text,
    DeleteText,
    Tab,
    Break,
    Start,
    Size,
    SizeCs,
    Color,
    Highlight,
    Bold,
    BoldCs,
    Italic,
    ItalicCs,
}

impl Tag {
    /// The qualified name of the element, prefix included.
    pub open spec fn name(self) -> Seq<char> {
        match self {
            Tag::Run => "w:r"@,
            Tag::RunProperty => "w:rPr"@,
            Tag::Text => "w:t"@,
            Tag::DeleteText => "w:delText"@,
            Tag::Tab => "w:tab"@,
            Tag::Break => "w:br"@,
            Tag::Start => "w:start"@,
            Tag::Size => "w:sz"@,
            Tag::SizeCs => "w:szCs"@,
            Tag::Color => "w:color"@,
            Tag::Highlight => "w:highlight"@,
            Tag::Bold => "w:b"@,
            Tag::BoldCs => "w:bCs"@,
            Tag::Italic => "w:i"@,
            Tag::ItalicCs => "w:iCs"@,
        }
    }

    /// The qualified name of the element as a string slice.
    pub fn as_str(self) -> (s: &'static str)
        ensures
            s@ == self.name(),
    {
        match self {
            Tag::Run => "w:r",
            Tag::RunProperty => "w:rPr",
            Tag::Text => "w:t",
            Tag::DeleteText => "w:delText",
            Tag::Tab => "w:tab",
            Tag::Break => "w:br",
            Tag::Start => "w:start",
            Tag::Size => "w:sz",
            Tag::SizeCs => "w:szCs",
            Tag::Color => "w:color",
            Tag::Highlight => "w:highlight",
            Tag::Bold => "w:b",
            Tag::BoldCs => "w:bCs",
            Tag::Italic => "w:i",
            Tag::ItalicCs => "w:iCs",
        }
    }
}

/// One attribute as it stands in a tag: a space, the key, and the value
/// between double quotes. The value is taken as it is.
pub open spec fn attribute(key: Seq<char>, value: Seq<u8>) -> Seq<u8> {
    encode_utf8(" "@) + encode_utf8(key) + encode_utf8("=\""@) + value + encode_utf8("\""@)
}

/// A single tag that opens and closes the element at once.
pub open spec fn self_closing(name: Seq<char>, attributes: Seq<u8>) -> Seq<u8> {
    encode_utf8("<"@) + encode_utf8(name) + attributes + encode_utf8(" />"@)
}

/// An open tag, the body, and the matching close tag.
pub open spec fn enclosed(name: Seq<char>, attributes: Seq<u8>, body: Seq<u8>) -> Seq<u8> {
    encode_utf8("<"@) + encode_utf8(name) + attributes + encode_utf8(">"@) + body + encode_utf8(
        "</"@,
    ) + encode_utf8(name) + encode_utf8(">"@)
}

/// What an element that was opened and then closed amounts to: with neither
/// an attribute nor a child it is a single self-closing tag, otherwise an
/// open tag, the children in the order in which they were added, and a close
/// tag.
pub open spec fn closed_element(
    name: Seq<char>,
    attributes: Seq<u8>,
    has_children: bool,
    body: Seq<u8>,
) -> Seq<u8> {
    if attributes.len() == 0 && !has_children {
        self_closing(name, attributes)
    } else {
        enclosed(name, attributes, body)
    }
}

/// A marker without attributes.
pub open spec fn plain_marker(tag: Tag) -> Seq<u8> {
    self_closing(tag.name(), Seq::empty())
}

/// A marker whose only attribute is `w:val`.
pub open spec fn value_marker(tag: Tag, value: Seq<u8>) -> Seq<u8> {
    self_closing(tag.name(), attribute("w:val"@, value))
}

/// An element that holds text. It always asks the reader to keep the white
/// space of the payload, whatever the payload is.
pub open spec fn preserved_text(tag: Tag, payload: Seq<char>) -> Seq<u8> {
    enclosed(
        tag.name(),
        attribute("xml:space"@, encode_utf8("preserve"@)),
        encode_utf8(payload),
    )
}

/// The markup of a piece of text.
pub open spec fn text_markup(payload: Seq<char>) -> Seq<u8> {
    preserved_text(Tag::Text, payload)
}

/// The markup of a piece of deleted text.
pub open spec fn delete_text_markup(payload: Seq<char>) -> Seq<u8> {
    preserved_text(Tag::DeleteText, payload)
}

/// The markup of a tab.
pub open spec fn tab_markup() -> Seq<u8> {
    plain_marker(Tag::Tab)
}

/// The markup of a break of the given kind.
pub open spec fn break_markup(kind: BreakType) -> Seq<u8> {
    self_closing(Tag::Break.name(), attribute("w:type"@, encode_utf8(kind.name())))
}

/// The markup of the number at which a numbering starts.
pub open spec fn start_markup(val: nat) -> Seq<u8> {
    value_marker(Tag::Start, decimal(val))
}

/// The markup of a font size.
pub open spec fn size_markup(val: nat) -> Seq<u8> {
    value_marker(Tag::Size, decimal(val))
}

/// The markup of a font size for complex scripts.
pub open spec fn size_cs_markup(val: nat) -> Seq<u8> {
    value_marker(Tag::SizeCs, decimal(val))
}

/// The markup of a text colour.
pub open spec fn color_markup(value: Seq<char>) -> Seq<u8> {
    value_marker(Tag::Color, encode_utf8(value))
}

/// The markup of a highlight colour.
pub open spec fn highlight_markup(value: Seq<char>) -> Seq<u8> {
    value_marker(Tag::Highlight, encode_utf8(value))
}

/// The byte that begins a tag, `<`.
pub const TAG_BEGIN: u8 = 60;

/// The byte that ends a tag, `>`.
pub const TAG_END: u8 = 62;

/// True when no byte of `bytes` begins or ends a tag.
pub open spec fn is_plain(bytes: Seq<u8>) -> bool {
    forall|i: int| 0 <= i < bytes.len() ==> #[trigger] bytes[i] != TAG_BEGIN && bytes[i] != TAG_END
}

/// True when `markup` is one self-closing tag and nothing else: it begins
/// with `<`, ends with ` />`, and holds no other `<` or `>`. So it holds no
/// close tag.
pub open spec fn is_single_tag(markup: Seq<u8>) -> bool {
    &&& markup.len() >= 4
    &&& markup[0] == TAG_BEGIN
    &&& markup.last() == TAG_END
    &&& markup.subrange(markup.len() - 3, markup.len() as int) == encode_utf8(" />"@)
    &&& is_plain(markup.subrange(1, markup.len() - 1))
}

/// Encoding text piece by piece gives the encoding of the whole.
pub proof fn lemma_encode_concat(a: Seq<char>, b: Seq<char>)
    ensures
        encode_utf8(a + b) == encode_utf8(a) + encode_utf8(b),
    decreases a.len(),
{
    if a.len() == 0 {
        assert(a + b =~= b);
        assert(encode_utf8(a) + encode_utf8(b) =~= encode_utf8(b));
    } else {
        lemma_encode_concat(a.drop_first(), b);
        assert((a + b).drop_first() =~= a.drop_first() + b);
        assert((a + b)[0] == a[0]);
        assert(encode_utf8(a + b) =~= encode_utf8(a) + encode_utf8(b));
    }
}

/// ASCII text is encoded as one byte for each character, the character's
/// code.
pub proof fn lemma_encode_ascii(s: Seq<char>)
    requires
        is_ascii_chars(s),
    ensures
        encode_utf8(s) == Seq::new(s.len(), |i: int| s[i] as u8),
{
    is_ascii_chars_encode_utf8(s);
    assert(encode_utf8(s) =~= Seq::new(s.len(), |i: int| s[i] as u8));
}

/// A marker with one attribute, read as text: everything up to the value,
/// the value, and the end of the tag.
pub proof fn lemma_marker_shape(name: Seq<char>, key: Seq<char>, value: Seq<u8>)
    ensures
        self_closing(name, attribute(key, value)) == encode_utf8(
            "<"@ + name + " "@ + key + "=\""@,
        ) + value + encode_utf8("\" />"@),
{
    lemma_encode_concat("<"@ + name + " "@ + key, "=\""@);
    lemma_encode_concat("<"@ + name + " "@, key);
    lemma_encode_concat("<"@ + name, " "@);
    lemma_encode_concat("<"@, name);
    reveal_strlit("\"");
    reveal_strlit(" />");
    reveal_strlit("\" />");
    assert("\""@ + " />"@ =~= "\" />"@);
    lemma_encode_concat("\""@, " />"@);
    assert(self_closing(name, attribute(key, value)) =~= encode_utf8("<"@) + encode_utf8(name)
        + encode_utf8(" "@) + encode_utf8(key) + encode_utf8("=\""@) + value + (encode_utf8(
        "\""@,
    ) + encode_utf8(" />"@)));
}

/// A marker without attributes, read as text.
pub proof fn lemma_plain_marker_shape(name: Seq<char>)
    ensures
        self_closing(name, Seq::empty()) == encode_utf8("<"@ + name + " />"@),
{
    lemma_encode_concat("<"@ + name, " />"@);
    lemma_encode_concat("<"@, name);
    assert(self_closing(name, Seq::empty()) =~= encode_utf8("<"@) + encode_utf8(name)
        + encode_utf8(" />"@));
}

/// An element without attributes, read as text: the open tag, the body, and
/// the close tag.
pub proof fn lemma_enclosed_shape(name: Seq<char>, body: Seq<u8>)
    ensures
        enclosed(name, Seq::empty(), body) == encode_utf8("<"@ + name + ">"@) + body + encode_utf8(
            "</"@ + name + ">"@,
        ),
{
    lemma_encode_concat("<"@ + name, ">"@);
    lemma_encode_concat("<"@, name);
    lemma_encode_concat("</"@ + name, ">"@);
    lemma_encode_concat("</"@, name);
    assert(enclosed(name, Seq::empty(), body) =~= encode_utf8("<"@) + encode_utf8(name)
        + encode_utf8(">"@) + body + (encode_utf8("</"@) + encode_utf8(name) + encode_utf8(">"@)));
}

/// An element that holds text, read as text: the open tag with the request to
/// keep white space, the payload, and the close tag.
pub proof fn lemma_preserved_text_shape(tag: Tag, payload: Seq<char>)
    ensures
        preserved_text(tag, payload) == encode_utf8(
            "<"@ + tag.name() + " xml:space=\"preserve\">"@,
        ) + encode_utf8(payload) + encode_utf8("</"@ + tag.name() + ">"@),
{
    let name = tag.name();
    reveal_strlit(" ");
    reveal_strlit("xml:space");
    reveal_strlit("=\"");
    reveal_strlit("preserve");
    reveal_strlit("\"");
    reveal_strlit(">");
    reveal_strlit(" xml:space=\"preserve\">");
    let pieces = " "@ + "xml:space"@ + "=\""@ + "preserve"@ + "\""@ + ">"@;
    assert(pieces =~= " xml:space=\"preserve\">"@);
    lemma_encode_concat(" "@ + "xml:space"@ + "=\""@ + "preserve"@ + "\""@, ">"@);
    lemma_encode_concat(" "@ + "xml:space"@ + "=\""@ + "preserve"@, "\""@);
    lemma_encode_concat(" "@ + "xml:space"@ + "=\""@, "preserve"@);
    lemma_encode_concat(" "@ + "xml:space"@, "=\""@);
    lemma_encode_concat(" "@, "xml:space"@);
    lemma_encode_concat("<"@ + name, pieces);
    lemma_encode_concat("<"@, name);
    lemma_encode_concat("</"@ + name, ">"@);
    lemma_encode_concat("</"@, name);
    assert(preserved_text(tag, payload) =~= encode_utf8("<"@) + encode_utf8(name) + (encode_utf8(
        " "@,
    ) + encode_utf8("xml:space"@) + encode_utf8("=\""@) + encode_utf8("preserve"@) + encode_utf8(
        "\""@,
    ) + encode_utf8(">"@)) + encode_utf8(payload) + (encode_utf8("</"@) + encode_utf8(name)
        + encode_utf8(">"@)));
}

/// An attribute is never empty.
pub proof fn lemma_attribute_nonempty(key: Seq<char>, value: Seq<u8>)
    ensures
        attribute(key, value).len() >= 4,
{
    reveal_strlit(" ");
    reveal_strlit("=\"");
    reveal_strlit("\"");
    lemma_encode_ascii(" "@);
    lemma_encode_ascii("=\""@);
    lemma_encode_ascii("\""@);
}

/// An attribute whose value is valid UTF-8 is valid UTF-8.
pub proof fn lemma_attribute_valid_utf8(key: Seq<char>, value: Seq<u8>)
    requires
        valid_utf8(value),
    ensures
        valid_utf8(attribute(key, value)),
{
    encode_utf8_valid_utf8(" "@);
    encode_utf8_valid_utf8(key);
    encode_utf8_valid_utf8("=\""@);
    encode_utf8_valid_utf8("\""@);
    let a = encode_utf8(" "@) + encode_utf8(key);
    valid_utf8_concat(encode_utf8(" "@), encode_utf8(key));
    valid_utf8_concat(a, encode_utf8("=\""@));
    valid_utf8_concat(a + encode_utf8("=\""@), value);
    valid_utf8_concat(a + encode_utf8("=\""@) + value, encode_utf8("\""@));
}

/// A self-closing tag whose attributes are valid UTF-8 is valid UTF-8.
pub proof fn lemma_self_closing_valid_utf8(name: Seq<char>, attributes: Seq<u8>)
    requires
        valid_utf8(attributes),
    ensures
        valid_utf8(self_closing(name, attributes)),
{
    encode_utf8_valid_utf8("<"@);
    encode_utf8_valid_utf8(name);
    encode_utf8_valid_utf8(" />"@);
    let a = encode_utf8("<"@) + encode_utf8(name);
    valid_utf8_concat(encode_utf8("<"@), encode_utf8(name));
    valid_utf8_concat(a, attributes);
    valid_utf8_concat(a + attributes, encode_utf8(" />"@));
}

/// An element whose attributes and body are valid UTF-8 is valid UTF-8.
pub proof fn lemma_enclosed_valid_utf8(name: Seq<char>, attributes: Seq<u8>, body: Seq<u8>)
    requires
        valid_utf8(attributes),
        valid_utf8(body),
    ensures
        valid_utf8(enclosed(name, attributes, body)),
{
    encode_utf8_valid_utf8("<"@);
    encode_utf8_valid_utf8(name);
    encode_utf8_valid_utf8(">"@);
    encode_utf8_valid_utf8("</"@);
    let a = encode_utf8("<"@) + encode_utf8(name);
    valid_utf8_concat(encode_utf8("<"@), encode_utf8(name));
    valid_utf8_concat(a, attributes);
    let b = a + attributes + encode_utf8(">"@);
    valid_utf8_concat(a + attributes, encode_utf8(">"@));
    valid_utf8_concat(b, body);
    valid_utf8_concat(b + body, encode_utf8("</"@));
    valid_utf8_concat(b + body + encode_utf8("</"@), encode_utf8(name));
    valid_utf8_concat(b + body + encode_utf8("</"@) + encode_utf8(name), encode_utf8(">"@));
}

/// An element that holds text is valid UTF-8.
pub proof fn lemma_preserved_text_valid_utf8(tag: Tag, payload: Seq<char>)
    ensures
        valid_utf8(preserved_text(tag, payload)),
{
    encode_utf8_valid_utf8("preserve"@);
    encode_utf8_valid_utf8(payload);
    lemma_attribute_valid_utf8("xml:space"@, encode_utf8("preserve"@));
    lemma_enclosed_valid_utf8(
        tag.name(),
        attribute("xml:space"@, encode_utf8("preserve"@)),
        encode_utf8(payload),
    );
}

/// A marker without attributes is valid UTF-8.
pub proof fn lemma_plain_marker_valid_utf8(tag: Tag)
    ensures
        valid_utf8(plain_marker(tag)),
{
    lemma_self_closing_valid_utf8(tag.name(), Seq::empty());
}

/// A marker whose value is valid UTF-8 is valid UTF-8.
pub proof fn lemma_value_marker_valid_utf8(tag: Tag, value: Seq<u8>)
    requires
        valid_utf8(value),
    ensures
        valid_utf8(value_marker(tag, value)),
{
    lemma_attribute_valid_utf8("w:val"@, value);
    lemma_self_closing_valid_utf8(tag.name(), attribute("w:val"@, value));
}

/// The name of every element is plain ASCII.
pub proof fn lemma_tag_name_plain(tag: Tag)
    ensures
        is_plain(encode_utf8(tag.name())),
{
    reveal_strlit("w:r");
    reveal_strlit("w:rPr");
    reveal_strlit("w:t");
    reveal_strlit("w:delText");
    reveal_strlit("w:tab");
    reveal_strlit("w:br");
    reveal_strlit("w:start");
    reveal_strlit("w:sz");
    reveal_strlit("w:szCs");
    reveal_strlit("w:color");
    reveal_strlit("w:highlight");
    reveal_strlit("w:b");
    reveal_strlit("w:bCs");
    reveal_strlit("w:i");
    reveal_strlit("w:iCs");
    lemma_encode_ascii(tag.name());
}

/// An attribute with a plain key and a plain value is plain.
pub proof fn lemma_attribute_plain(key: Seq<char>, value: Seq<u8>)
    requires
        is_plain(encode_utf8(key)),
        is_plain(value),
    ensures
        is_plain(attribute(key, value)),
{
    reveal_strlit(" ");
    reveal_strlit("=\"");
    reveal_strlit("\"");
    lemma_encode_ascii(" "@);
    lemma_encode_ascii("=\""@);
    lemma_encode_ascii("\""@);
}

/// A self-closing tag with a plain name and plain attributes is one tag and
/// nothing else.
pub proof fn lemma_self_closing_single(name: Seq<char>, attributes: Seq<u8>)
    requires
        is_plain(encode_utf8(name)),
        is_plain(attributes),
    ensures
        is_single_tag(self_closing(name, attributes)),
{
    reveal_strlit("<");
    reveal_strlit(" />");
    lemma_encode_ascii("<"@);
    lemma_encode_ascii(" />"@);
    let m = self_closing(name, attributes);
    assert(m.subrange(m.len() - 3, m.len() as int) =~= encode_utf8(" />"@));
}

} // verus!
