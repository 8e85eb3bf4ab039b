//! The emitter that turns one element into markup.
//!
//! A builder goes through `Unopened`, `Opened` and `Closed` for an element
//! that can hold children, or from `Unopened` straight to `SelfClosed` for a
//! marker that only carries attributes. The finished bytes can be taken from
//! a builder in one of the two last states only.

use crate::decimal::decimal;
use crate::decimal::write_decimal;
use crate::markup::attribute;
use crate::markup::break_markup;
use crate::markup::closed_element;
use crate::markup::color_markup;
use crate::markup::delete_text_markup;
use crate::markup::highlight_markup;
use crate::markup::lemma_attribute_nonempty;
use crate::markup::plain_marker;
use crate::markup::preserved_text;
use crate::markup::self_closing;
use crate::markup::size_cs_markup;
use crate::markup::size_markup;
use crate::markup::start_markup;
use crate::markup::tab_markup;
use crate::markup::text_markup;
use crate::markup::value_marker;
use crate::markup::Tag;
use crate::types::BreakType;
use vstd::prelude::*;
use vstd::utf8::encode_utf8;

verus! {

/// How far a builder has come.
#[derive(Clone, Copy, Debug, PartialEq, Eq, Structural)]
pub enum BuilderState {
    /// Nothing was emitted yet.
    Unopened,
    /// An element was begun and takes children.
    Opened,
    /// The element that was begun is complete.
    Closed,
    /// A marker was emitted as one self-closing tag.
    SelfClosed,
}

/// Accumulates the markup of a single element.
pub struct XMLBuilder {
    state: BuilderState,
    tag: Option<Tag>,
    has_attribute: bool,
    has_child: bool,
    out: Vec<u8>,
    attributes: Ghost<Seq<u8>>,
    body: Ghost<Seq<u8>>,
}

/// Appends `bytes` to `out`.
fn push_bytes(out: &mut Vec<u8>, bytes: &[u8])
    ensures
        final(out)@ == old(out)@ + bytes@,
{
    let mut i: usize = 0;
    while i < bytes.len()
        invariant
            i <= bytes.len(),
            out@ == old(out)@ + bytes@.take(i as int),
        decreases bytes.len() - i,
    {
        out.push(bytes[i]);
        assert(bytes@.take(i + 1) =~= bytes@.take(i as int).push(bytes@[i as int]));
        i += 1;
    }
    assert(bytes@.take(i as int) =~= bytes@);
}

/// Appends the UTF-8 bytes of `text` to `out`.
fn push_str(out: &mut Vec<u8>, text: &str)
    ensures
        final(out)@ == old(out)@ + encode_utf8(text@),
{
    push_bytes(out, text.as_bytes());
}

impl XMLBuilder {
    /// The state of the builder.
    pub closed spec fn state(&self) -> BuilderState {
        self.state
    }

    /// The element that was begun, if any.
    pub closed spec fn tag(&self) -> Option<Tag> {
        self.tag
    }

    /// The attributes of the element that was begun, as they stand in its tag.
    pub closed spec fn attributes(&self) -> Seq<u8> {
        self.attributes@
    }

    /// True once a child was added, even an empty one.
    pub closed spec fn has_children(&self) -> bool {
        self.has_child
    }

    /// The children added so far, one after the other.
    pub closed spec fn body(&self) -> Seq<u8> {
        self.body@
    }

    /// The bytes emitted so far.
    pub closed spec fn output(&self) -> Seq<u8> {
        self.out@
    }

    #[verifier::type_invariant]
    spec fn inv(&self) -> bool {
        &&& self.has_attribute <==> self.attributes@.len() > 0
        &&& !self.has_child ==> self.body@.len() == 0
        &&& match self.state {
            BuilderState::Unopened => {
                &&& self.tag is None
                &&& self.out@.len() == 0
                &&& self.attributes@.len() == 0
                &&& !self.has_child
            },
            BuilderState::Opened => {
                &&& self.tag is Some
                &&& self.out@ == encode_utf8("<"@) + encode_utf8(self.tag->0.name())
                    + self.attributes@ + if self.has_child {
                    encode_utf8(">"@) + self.body@
                } else {
                    Seq::<u8>::empty()
                }
            },
            BuilderState::Closed => {
                &&& self.tag is Some
                &&& self.out@ == closed_element(
                    self.tag->0.name(),
                    self.attributes@,
                    self.has_child,
                    self.body@,
                )
            },
            BuilderState::SelfClosed => {
                &&& self.tag is Some
                &&& !self.has_child
                &&& self.out@ == self_closing(self.tag->0.name(), self.attributes@)
            },
        }
    }

    /// A builder that has emitted nothing.
    pub fn new() -> (b: XMLBuilder)
        ensures
            b.state() == BuilderState::Unopened,
            b.output() == Seq::<u8>::empty(),
    {
        XMLBuilder {
            state: BuilderState::Unopened,
            tag: None,
            has_attribute: false,
            has_child: false,
            out: Vec::new(),
            attributes: Ghost(Seq::empty()),
            body: Ghost(Seq::empty()),
        }
    }

    /// Begins the element `tag`: emits `<` and its name.
    fn open(self, tag: Tag) -> (b: XMLBuilder)
        requires
            self.state() == BuilderState::Unopened,
        ensures
            b.state() == BuilderState::Opened,
            b.tag() == Some(tag),
            b.attributes() == Seq::<u8>::empty(),
            !b.has_children(),
            b.body() == Seq::<u8>::empty(),
    {
        proof {
            use_type_invariant(&self);
        }
        let XMLBuilder { state: _, tag: _, has_attribute, has_child, mut out, attributes, body } =
            self;
        push_str(&mut out, "<");
        push_str(&mut out, tag.as_str());
        assert(out@ =~= encode_utf8("<"@) + encode_utf8(tag.name()) + attributes@
            + Seq::<u8>::empty());
        assert(attributes@ =~= Seq::<u8>::empty());
        assert(body@ =~= Seq::<u8>::empty());
        XMLBuilder {
            state: BuilderState::Opened,
            tag: Some(tag),
            has_attribute,
            has_child,
            out,
            attributes,
            body,
        }
    }

    /// Adds the attribute `key` with `value` to the tag that was begun. The
    /// value goes between double quotes as it is.
    fn attr(self, key: &str, value: &[u8]) -> (b: XMLBuilder)
        requires
            self.state() == BuilderState::Opened,
            !self.has_children(),
        ensures
            b.state() == BuilderState::Opened,
            b.tag() == self.tag(),
            b.attributes() == self.attributes() + attribute(key@, value@),
            !b.has_children(),
            b.body() == Seq::<u8>::empty(),
    {
        proof {
            use_type_invariant(&self);
            lemma_attribute_nonempty(key@, value@);
        }
        let XMLBuilder { state, tag, has_attribute: _, has_child, mut out, attributes, body } =
            self;
        let ghost before = out@;
        push_str(&mut out, " ");
        push_str(&mut out, key);
        push_str(&mut out, "=\"");
        push_bytes(&mut out, value);
        push_str(&mut out, "\"");
        assert(out@ =~= before + attribute(key@, value@));
        assert(body@ =~= Seq::<u8>::empty());
        let ghost extended = attributes@ + attribute(key@, value@);
        assert(out@ =~= encode_utf8("<"@) + encode_utf8(tag->0.name()) + extended
            + Seq::<u8>::empty());
        XMLBuilder {
            state,
            tag,
            has_attribute: true,
            has_child,
            out,
            attributes: Ghost(extended),
            body,
        }
    }

    /// Completes a marker: emits the end of a self-closing tag.
    fn end_marker(self) -> (b: XMLBuilder)
        requires
            self.state() == BuilderState::Opened,
            !self.has_children(),
        ensures
            b.state() == BuilderState::SelfClosed,
            b.tag() == self.tag(),
            b.output() == self_closing(self.tag()->0.name(), self.attributes()),
    {
        proof {
            use_type_invariant(&self);
        }
        let XMLBuilder { state: _, tag, has_attribute, has_child, mut out, attributes, body } =
            self;
        push_str(&mut out, " />");
        assert(out@ =~= self_closing(tag->0.name(), attributes@));
        XMLBuilder {
            state: BuilderState::SelfClosed,
            tag,
            has_attribute,
            has_child,
            out,
            attributes,
            body,
        }
    }

    /// Appends the markup of one child to the element that was begun. Children
    /// come out in the order of the calls.
    pub fn add_child(self, child: &[u8]) -> (b: XMLBuilder)
        requires
            self.state() == BuilderState::Opened,
        ensures
            b.state() == BuilderState::Opened,
            b.tag() == self.tag(),
            b.attributes() == self.attributes(),
            b.has_children(),
            b.body() == self.body() + child@,
    {
        proof {
            use_type_invariant(&self);
        }
        let XMLBuilder { state, tag, has_attribute, has_child, mut out, attributes, body } = self;
        if !has_child {
            push_str(&mut out, ">");
        }
        push_bytes(&mut out, child);
        let ghost extended = body@ + child@;
        assert(out@ =~= encode_utf8("<"@) + encode_utf8(tag->0.name()) + attributes@ + (
        encode_utf8(">"@) + extended));
        XMLBuilder {
            state,
            tag,
            has_attribute,
            has_child: true,
            out,
            attributes,
            body: Ghost(extended),
        }
    }

    /// Completes the element that was begun. With neither an attribute nor a
    /// child the element becomes one self-closing tag; otherwise the close tag
    /// follows the children.
    pub fn close(self) -> (b: XMLBuilder)
        requires
            self.state() == BuilderState::Opened,
        ensures
            b.state() == BuilderState::Closed,
            b.tag() == self.tag(),
            b.output() == closed_element(
                self.tag()->0.name(),
                self.attributes(),
                self.has_children(),
                self.body(),
            ),
    {
        proof {
            use_type_invariant(&self);
        }
        let XMLBuilder { state: _, tag, has_attribute, has_child, mut out, attributes, body } =
            self;
        let name = match tag {
            Some(t) => t.as_str(),
            None => "",
        };
        if !has_child && !has_attribute {
            push_str(&mut out, " />");
        } else {
            if !has_child {
                push_str(&mut out, ">");
            }
            push_str(&mut out, "</");
            push_str(&mut out, name);
            push_str(&mut out, ">");
        }
        assert(out@ =~= closed_element(tag->0.name(), attributes@, has_child, body@));
        XMLBuilder {
            state: BuilderState::Closed,
            tag,
            has_attribute,
            has_child,
            out,
            attributes,
            body,
        }
    }

    /// Emits a marker without attributes.
    fn marker(self, tag: Tag) -> (b: XMLBuilder)
        requires
            self.state() == BuilderState::Unopened,
        ensures
            b.state() == BuilderState::SelfClosed,
            b.output() == plain_marker(tag),
    {
        self.open(tag).end_marker()
    }

    /// Emits a marker whose only attribute is `w:val`.
    fn marker_with_value(self, tag: Tag, value: &[u8]) -> (b: XMLBuilder)
        requires
            self.state() == BuilderState::Unopened,
        ensures
            b.state() == BuilderState::SelfClosed,
            b.output() == value_marker(tag, value@),
    {
        let b = self.open(tag).attr("w:val", value);
        assert(b.attributes() =~= attribute("w:val"@, value@));
        b.end_marker()
    }

    /// Emits a marker whose only attribute is `w:val`, with a number for its
    /// value.
    fn marker_with_number(self, tag: Tag, val: usize) -> (b: XMLBuilder)
        requires
            self.state() == BuilderState::Unopened,
        ensures
            b.state() == BuilderState::SelfClosed,
            b.output() == value_marker(tag, decimal(val as nat)),
    {
        let mut digits: Vec<u8> = Vec::new();
        write_decimal(&mut digits, val);
        assert(digits@ =~= decimal(val as nat));
        self.marker_with_value(tag, digits.as_slice())
    }

    /// Emits an element that holds `payload` and asks for its white space to
    /// be kept.
    fn text_element(self, tag: Tag, payload: &str) -> (b: XMLBuilder)
        requires
            self.state() == BuilderState::Unopened,
        ensures
            b.state() == BuilderState::Closed,
            b.output() == preserved_text(tag, payload@),
    {
        let opened = self.open(tag).attr("xml:space", "preserve".as_bytes());
        let filled = opened.add_child(payload.as_bytes());
        proof {
            let space = attribute("xml:space"@, encode_utf8("preserve"@));
            lemma_attribute_nonempty("xml:space"@, encode_utf8("preserve"@));
            assert(filled.attributes() =~= space);
            assert(filled.body() =~= encode_utf8(payload@));
        }
        filled.close()
    }

    /// Begins a run.
    pub fn open_run(self) -> (b: XMLBuilder)
        requires
            self.state() == BuilderState::Unopened,
        ensures
            b.state() == BuilderState::Opened,
            b.tag() == Some(Tag::Run),
            b.attributes() == Seq::<u8>::empty(),
            !b.has_children(),
            b.body() == Seq::<u8>::empty(),
    {
        self.open(Tag::Run)
    }

    /// Begins the properties of a run.
    pub fn open_run_property(self) -> (b: XMLBuilder)
        requires
            self.state() == BuilderState::Unopened,
        ensures
            b.state() == BuilderState::Opened,
            b.tag() == Some(Tag::RunProperty),
            b.attributes() == Seq::<u8>::empty(),
            !b.has_children(),
            b.body() == Seq::<u8>::empty(),
    {
        self.open(Tag::RunProperty)
    }

    /// Emits a piece of text.
    pub fn text(self, text: &str) -> (b: XMLBuilder)
        requires
            self.state() == BuilderState::Unopened,
        ensures
            b.state() == BuilderState::Closed,
            b.output() == text_markup(text@),
    {
        self.text_element(Tag::Text, text)
    }

    /// Emits a piece of deleted text.
    pub fn delete_text(self, text: &str) -> (b: XMLBuilder)
        requires
            self.state() == BuilderState::Unopened,
        ensures
            b.state() == BuilderState::Closed,
            b.output() == delete_text_markup(text@),
    {
        self.text_element(Tag::DeleteText, text)
    }

    /// Emits a tab.
    pub fn tab(self) -> (b: XMLBuilder)
        requires
            self.state() == BuilderState::Unopened,
        ensures
            b.state() == BuilderState::SelfClosed,
            b.output() == tab_markup(),
    {
        self.marker(Tag::Tab)
    }

    /// Emits a break of the given kind.
    pub fn br(self, kind: BreakType) -> (b: XMLBuilder)
        requires
            self.state() == BuilderState::Unopened,
        ensures
            b.state() == BuilderState::SelfClosed,
            b.output() == break_markup(kind),
    {
        let b = self.open(Tag::Break).attr("w:type", kind.as_str().as_bytes());
        assert(b.attributes() =~= attribute("w:type"@, encode_utf8(kind.name())));
        b.end_marker()
    }

    /// Emits the number at which a numbering starts.
    pub fn start(self, val: usize) -> (b: XMLBuilder)
        requires
            self.state() == BuilderState::Unopened,
        ensures
            b.state() == BuilderState::SelfClosed,
            b.output() == start_markup(val as nat),
    {
        self.marker_with_number(Tag::Start, val)
    }

    /// Emits a font size.
    pub fn sz(self, val: usize) -> (b: XMLBuilder)
        requires
            self.state() == BuilderState::Unopened,
        ensures
            b.state() == BuilderState::SelfClosed,
            b.output() == size_markup(val as nat),
    {
        self.marker_with_number(Tag::Size, val)
    }

    /// Emits a font size for complex scripts.
    pub fn sz_cs(self, val: usize) -> (b: XMLBuilder)
        requires
            self.state() == BuilderState::Unopened,
        ensures
            b.state() == BuilderState::SelfClosed,
            b.output() == size_cs_markup(val as nat),
    {
        self.marker_with_number(Tag::SizeCs, val)
    }

    /// Emits a text colour.
    pub fn color(self, value: &str) -> (b: XMLBuilder)
        requires
            self.state() == BuilderState::Unopened,
        ensures
            b.state() == BuilderState::SelfClosed,
            b.output() == color_markup(value@),
    {
        self.marker_with_value(Tag::Color, value.as_bytes())
    }

    /// Emits a highlight colour.
    pub fn highlight(self, value: &str) -> (b: XMLBuilder)
        requires
            self.state() == BuilderState::Unopened,
        ensures
            b.state() == BuilderState::SelfClosed,
            b.output() == highlight_markup(value@),
    {
        self.marker_with_value(Tag::Highlight, value.as_bytes())
    }

    /// Emits the marker for bold type.
    pub fn b(self) -> (b: XMLBuilder)
        requires
            self.state() == BuilderState::Unopened,
        ensures
            b.state() == BuilderState::SelfClosed,
            b.output() == plain_marker(Tag::Bold),
    {
        self.marker(Tag::Bold)
    }

    /// Emits the marker for bold type in complex scripts.
    pub fn b_cs(self) -> (b: XMLBuilder)
        requires
            self.state() == BuilderState::Unopened,
        ensures
            b.state() == BuilderState::SelfClosed,
            b.output() == plain_marker(Tag::BoldCs),
    {
        self.marker(Tag::BoldCs)
    }

    /// Emits the marker for italic type.
    pub fn i(self) -> (b: XMLBuilder)
        requires
            self.state() == BuilderState::Unopened,
        ensures
            b.state() == BuilderState::SelfClosed,
            b.output() == plain_marker(Tag::Italic),
    {
        self.marker(Tag::Italic)
    }

    /// Emits the marker for italic type in complex scripts.
    pub fn i_cs(self) -> (b: XMLBuilder)
        requires
            self.state() == BuilderState::Unopened,
        ensures
            b.state() == BuilderState::SelfClosed,
            b.output() == plain_marker(Tag::ItalicCs),
    {
        self.marker(Tag::ItalicCs)
    }

    /// The finished markup.
    pub fn build(self) -> (out: Vec<u8>)
        requires
            self.state() == BuilderState::Closed || self.state() == BuilderState::SelfClosed,
        ensures
            out@ == self.output(),
    {
        self.out
    }
}

} // verus!
