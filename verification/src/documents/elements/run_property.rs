//! The character formatting of a run.

use crate::documents::BuildXML;
use crate::markup::closed_element;
use crate::markup::color_markup;
use crate::decimal::decimal;
use crate::decimal::lemma_decimal_valid_utf8;
use crate::markup::highlight_markup;
use crate::markup::lemma_enclosed_valid_utf8;
use crate::markup::lemma_plain_marker_valid_utf8;
use crate::markup::lemma_self_closing_valid_utf8;
use crate::markup::lemma_value_marker_valid_utf8;
use crate::markup::plain_marker;
use crate::markup::size_cs_markup;
use crate::markup::size_markup;
use crate::markup::Tag;
use crate::xml_builder::BuilderState;
use crate::xml_builder::XMLBuilder;
use vstd::prelude::*;
use vstd::utf8::encode_utf8;
use vstd::utf8::encode_utf8_valid_utf8;
use vstd::utf8::valid_utf8;
use vstd::utf8::valid_utf8_concat;

verus! {

/// The character formatting of a run. Each property is either unset or set;
/// setting one twice keeps the later value.
#[derive(Debug, Clone)]
pub struct RunProperty {
    sz: Option<usize>,
    color: Option<String>,
    highlight: Option<String>,
    bold: bool,
    italic: bool,
}

/// The formatting as plain values.
pub ghost struct RunPropertyView {
    /// The font size, if one was set.
    pub size: Option<nat>,
    /// The text colour, if one was set.
    pub color: Option<Seq<char>>,
    /// The highlight colour, if one was set.
    pub highlight: Option<Seq<char>>,
    /// Whether bold type was asked for.
    pub bold: bool,
    /// Whether italic type was asked for.
    pub italic: bool,
}

impl RunPropertyView {
    /// The formatting with nothing set.
    pub open spec fn empty() -> RunPropertyView {
        RunPropertyView { size: None, color: None, highlight: None, bold: false, italic: false }
    }

    /// True when at least one property is set.
    pub open spec fn is_set(self) -> bool {
        self.size is Some || self.color is Some || self.highlight is Some || self.bold
            || self.italic
    }

    /// The markers of the font size: none when it is unset, otherwise the size
    /// and the same size for complex scripts.
    pub open spec fn size_part(self) -> Seq<u8> {
        match self.size {
            Some(v) => size_markup(v) + size_cs_markup(v),
            None => Seq::empty(),
        }
    }

    /// The marker of the text colour, if it is set.
    pub open spec fn color_part(self) -> Seq<u8> {
        match self.color {
            Some(c) => color_markup(c),
            None => Seq::empty(),
        }
    }

    /// The marker of the highlight colour, if it is set.
    pub open spec fn highlight_part(self) -> Seq<u8> {
        match self.highlight {
            Some(c) => highlight_markup(c),
            None => Seq::empty(),
        }
    }

    /// The markers of bold type, for plain and for complex scripts, if it is
    /// set.
    pub open spec fn bold_part(self) -> Seq<u8> {
        if self.bold {
            plain_marker(Tag::Bold) + plain_marker(Tag::BoldCs)
        } else {
            Seq::empty()
        }
    }

    /// The markers of italic type, for plain and for complex scripts, if it is
    /// set.
    pub open spec fn italic_part(self) -> Seq<u8> {
        if self.italic {
            plain_marker(Tag::Italic) + plain_marker(Tag::ItalicCs)
        } else {
            Seq::empty()
        }
    }

    /// The markers of all properties that are set, in their fixed order:
    /// size, colour, highlight, bold, italic.
    pub open spec fn body(self) -> Seq<u8> {
        self.size_part() + self.color_part() + self.highlight_part() + self.bold_part()
            + self.italic_part()
    }
}

/// The markup of the formatting: one self-closing tag when nothing is set,
/// otherwise the markers between an open and a close tag.
pub open spec fn run_property_markup(p: RunPropertyView) -> Seq<u8> {
    closed_element(Tag::RunProperty.name(), Seq::empty(), p.is_set(), p.body())
}

/// The markup of the formatting is valid UTF-8, whatever is set.
pub proof fn lemma_run_property_markup_valid_utf8(p: RunPropertyView)
    ensures
        valid_utf8(p.body()),
        valid_utf8(run_property_markup(p)),
{
    if let Some(v) = p.size {
        lemma_decimal_valid_utf8(v);
        lemma_value_marker_valid_utf8(Tag::Size, decimal(v));
        lemma_value_marker_valid_utf8(Tag::SizeCs, decimal(v));
        valid_utf8_concat(size_markup(v), size_cs_markup(v));
    }
    if let Some(c) = p.color {
        encode_utf8_valid_utf8(c);
        lemma_value_marker_valid_utf8(Tag::Color, encode_utf8(c));
    }
    if let Some(c) = p.highlight {
        encode_utf8_valid_utf8(c);
        lemma_value_marker_valid_utf8(Tag::Highlight, encode_utf8(c));
    }
    lemma_plain_marker_valid_utf8(Tag::Bold);
    lemma_plain_marker_valid_utf8(Tag::BoldCs);
    valid_utf8_concat(plain_marker(Tag::Bold), plain_marker(Tag::BoldCs));
    lemma_plain_marker_valid_utf8(Tag::Italic);
    lemma_plain_marker_valid_utf8(Tag::ItalicCs);
    valid_utf8_concat(plain_marker(Tag::Italic), plain_marker(Tag::ItalicCs));
    valid_utf8_concat(p.size_part(), p.color_part());
    valid_utf8_concat(p.size_part() + p.color_part(), p.highlight_part());
    valid_utf8_concat(p.size_part() + p.color_part() + p.highlight_part(), p.bold_part());
    valid_utf8_concat(
        p.size_part() + p.color_part() + p.highlight_part() + p.bold_part(),
        p.italic_part(),
    );
    lemma_self_closing_valid_utf8(Tag::RunProperty.name(), Seq::empty());
    lemma_enclosed_valid_utf8(Tag::RunProperty.name(), Seq::empty(), p.body());
}

impl View for RunProperty {
    type V = RunPropertyView;

    closed spec fn view(&self) -> RunPropertyView {
        RunPropertyView {
            size: match self.sz {
                Some(v) => Some(v as nat),
                None => None,
            },
            color: match self.color {
                Some(c) => Some(c@),
                None => None,
            },
            highlight: match self.highlight {
                Some(c) => Some(c@),
                None => None,
            },
            bold: self.bold,
            italic: self.italic,
        }
    }
}

impl RunProperty {
    /// The formatting with nothing set.
    pub fn new() -> (p: RunProperty)
        ensures
            p@ == RunPropertyView::empty(),
    {
        RunProperty { sz: None, color: None, highlight: None, bold: false, italic: false }
    }

    /// Sets the font size.
    pub fn size(self, size: usize) -> (p: RunProperty)
        ensures
            p@ == (RunPropertyView { size: Some(size as nat), ..self@ }),
    {
        RunProperty {
            sz: Some(size),
            color: self.color,
            highlight: self.highlight,
            bold: self.bold,
            italic: self.italic,
        }
    }

    /// Sets the text colour.
    pub fn color(self, color: &str) -> (p: RunProperty)
        ensures
            p@ == (RunPropertyView { color: Some(color@), ..self@ }),
    {
        RunProperty {
            sz: self.sz,
            color: Some(color.to_owned()),
            highlight: self.highlight,
            bold: self.bold,
            italic: self.italic,
        }
    }

    /// Sets the highlight colour.
    pub fn highlight(self, color: &str) -> (p: RunProperty)
        ensures
            p@ == (RunPropertyView { highlight: Some(color@), ..self@ }),
    {
        RunProperty {
            sz: self.sz,
            color: self.color,
            highlight: Some(color.to_owned()),
            bold: self.bold,
            italic: self.italic,
        }
    }

    /// Asks for bold type.
    pub fn bold(self) -> (p: RunProperty)
        ensures
            p@ == (RunPropertyView { bold: true, ..self@ }),
    {
        RunProperty {
            sz: self.sz,
            color: self.color,
            highlight: self.highlight,
            bold: true,
            italic: self.italic,
        }
    }

    /// Asks for italic type.
    pub fn italic(self) -> (p: RunProperty)
        ensures
            p@ == (RunPropertyView { italic: true, ..self@ }),
    {
        RunProperty {
            sz: self.sz,
            color: self.color,
            highlight: self.highlight,
            bold: self.bold,
            italic: true,
        }
    }
}

/// True when `after` is `before` with `part` appended to its children, and
/// counts as having children if `before` did or if `added` is true.
pub open spec fn extended_by(
    before: XMLBuilder,
    after: XMLBuilder,
    part: Seq<u8>,
    added: bool,
) -> bool {
    &&& after.state() == BuilderState::Opened
    &&& after.tag() == before.tag()
    &&& after.attributes() == before.attributes()
    &&& after.body() == before.body() + part
    &&& after.has_children() == (before.has_children() || added)
}

impl RunProperty {
    /// Adds the markers of the font size to `b`, if it is set.
    fn emit_size(&self, b: XMLBuilder) -> (r: XMLBuilder)
        requires
            b.state() == BuilderState::Opened,
        ensures
            extended_by(b, r, self@.size_part(), self@.size is Some),
    {
        match self.sz {
            Some(v) => {
                let first = b.add_child(XMLBuilder::new().sz(v).build().as_slice());
                let second = first.add_child(XMLBuilder::new().sz_cs(v).build().as_slice());
                assert(second.body() =~= b.body() + self@.size_part());
                second
            },
            None => {
                assert(b.body() =~= b.body() + self@.size_part());
                b
            },
        }
    }

    /// Adds the marker of the text colour to `b`, if it is set.
    fn emit_color(&self, b: XMLBuilder) -> (r: XMLBuilder)
        requires
            b.state() == BuilderState::Opened,
        ensures
            extended_by(b, r, self@.color_part(), self@.color is Some),
    {
        match &self.color {
            Some(c) => b.add_child(XMLBuilder::new().color(c.as_str()).build().as_slice()),
            None => {
                assert(b.body() =~= b.body() + self@.color_part());
                b
            },
        }
    }

    /// Adds the marker of the highlight colour to `b`, if it is set.
    fn emit_highlight(&self, b: XMLBuilder) -> (r: XMLBuilder)
        requires
            b.state() == BuilderState::Opened,
        ensures
            extended_by(b, r, self@.highlight_part(), self@.highlight is Some),
    {
        match &self.highlight {
            Some(c) => b.add_child(XMLBuilder::new().highlight(c.as_str()).build().as_slice()),
            None => {
                assert(b.body() =~= b.body() + self@.highlight_part());
                b
            },
        }
    }

    /// Adds the markers of bold type to `b`, if it is set.
    fn emit_bold(&self, b: XMLBuilder) -> (r: XMLBuilder)
        requires
            b.state() == BuilderState::Opened,
        ensures
            extended_by(b, r, self@.bold_part(), self@.bold),
    {
        if self.bold {
            let first = b.add_child(XMLBuilder::new().b().build().as_slice());
            let second = first.add_child(XMLBuilder::new().b_cs().build().as_slice());
            assert(second.body() =~= b.body() + self@.bold_part());
            second
        } else {
            assert(b.body() =~= b.body() + self@.bold_part());
            b
        }
    }

    /// Adds the markers of italic type to `b`, if it is set.
    fn emit_italic(&self, b: XMLBuilder) -> (r: XMLBuilder)
        requires
            b.state() == BuilderState::Opened,
        ensures
            extended_by(b, r, self@.italic_part(), self@.italic),
    {
        if self.italic {
            let first = b.add_child(XMLBuilder::new().i().build().as_slice());
            let second = first.add_child(XMLBuilder::new().i_cs().build().as_slice());
            assert(second.body() =~= b.body() + self@.italic_part());
            second
        } else {
            assert(b.body() =~= b.body() + self@.italic_part());
            b
        }
    }
}

impl Default for RunProperty {
    fn default() -> (p: RunProperty)
        ensures
            p@ == RunPropertyView::empty(),
    {
        RunProperty::new()
    }
}

impl BuildXML for RunProperty {
    open spec fn markup(&self) -> Seq<u8> {
        run_property_markup(self@)
    }

    fn build(&self) -> (out: Vec<u8>) {
        proof {
            lemma_run_property_markup_valid_utf8(self@);
        }
        let b = XMLBuilder::new().open_run_property();
        let b = self.emit_size(b);
        let b = self.emit_color(b);
        let b = self.emit_highlight(b);
        let b = self.emit_bold(b);
        let b = self.emit_italic(b);
        assert(b.body() =~= self@.body());
        b.close().build()
    }
}

} // verus!
