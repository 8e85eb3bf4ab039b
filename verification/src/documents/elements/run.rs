//! A run: inline content that shares one set of character formatting.

use crate::documents::elements::br::Break;
use crate::documents::elements::delete_text::DeleteText;
use crate::documents::elements::run_property::run_property_markup;
use crate::documents::elements::run_property::RunProperty;
use crate::documents::elements::run_property::RunPropertyView;
use crate::documents::elements::tab::Tab;
use crate::documents::elements::text::Text;
use crate::documents::BuildXML;
use crate::markup::break_markup;
use crate::markup::delete_text_markup;
use crate::markup::enclosed;
use crate::markup::lemma_enclosed_shape;
use crate::markup::lemma_enclosed_valid_utf8;
use crate::markup::lemma_encode_concat;
use crate::markup::lemma_plain_marker_shape;
use crate::markup::tab_markup;
use crate::markup::text_markup;
use crate::markup::Tag;
use crate::types::BreakType;
use crate::xml_builder::BuilderState;
use crate::xml_builder::XMLBuilder;
use vstd::prelude::*;
use vstd::utf8::encode_utf8;
use vstd::utf8::valid_utf8;
use vstd::utf8::valid_utf8_concat;

verus! {

/// What a run can hold.
#[derive(Debug, Clone)]
pub enum RunChild {
    Text(Text),
    DeleteText(DeleteText),
    Tab(Tab),
    Break(Break),
}

/// A child of a run as plain values.
pub ghost enum RunChildView {
    /// Text with its payload.
    Text(Seq<char>),
    /// Deleted text with its payload.
    DeleteText(Seq<char>),
    /// A tab.
    Tab,
    /// A break of the given kind.
    Break(BreakType),
}

/// A run as plain values: its formatting and its children in the order in
/// which they were added.
pub ghost struct RunView {
    pub property: RunPropertyView,
    pub children: Seq<RunChildView>,
}

impl RunView {
    /// The run without formatting and without children.
    pub open spec fn empty() -> RunView {
        RunView { property: RunPropertyView::empty(), children: Seq::empty() }
    }

    /// The run with `child` added behind the children it has.
    pub open spec fn with_child(self, child: RunChildView) -> RunView {
        RunView { children: self.children.push(child), ..self }
    }

    /// The run with its formatting replaced.
    pub open spec fn with_property(self, property: RunPropertyView) -> RunView {
        RunView { property, ..self }
    }
}

/// One step in the construction of a run.
pub ghost enum RunOp {
    /// Add text with the given payload.
    AddText(Seq<char>),
    /// Add deleted text with the given payload.
    AddDeleteText(Seq<char>),
    /// Add a tab.
    AddTab,
    /// Add a break of the given kind.
    AddBreak(BreakType),
    /// Set the font size.
    Size(nat),
    /// Set the text colour.
    Color(Seq<char>),
    /// Set the highlight colour.
    Highlight(Seq<char>),
    /// Ask for bold type.
    Bold,
    /// Ask for italic type.
    Italic,
}

impl RunView {
    /// The run after one step of construction.
    pub open spec fn apply(self, op: RunOp) -> RunView {
        match op {
            RunOp::AddText(payload) => self.with_child(RunChildView::Text(payload)),
            RunOp::AddDeleteText(payload) => self.with_child(RunChildView::DeleteText(payload)),
            RunOp::AddTab => self.with_child(RunChildView::Tab),
            RunOp::AddBreak(kind) => self.with_child(RunChildView::Break(kind)),
            RunOp::Size(size) => self.with_property(
                RunPropertyView { size: Some(size), ..self.property },
            ),
            RunOp::Color(color) => self.with_property(
                RunPropertyView { color: Some(color), ..self.property },
            ),
            RunOp::Highlight(color) => self.with_property(
                RunPropertyView { highlight: Some(color), ..self.property },
            ),
            RunOp::Bold => self.with_property(RunPropertyView { bold: true, ..self.property }),
            RunOp::Italic => self.with_property(RunPropertyView { italic: true, ..self.property }),
        }
    }

    /// The run after the steps `ops`, taken from first to last.
    pub open spec fn apply_all(self, ops: Seq<RunOp>) -> RunView
        decreases ops.len(),
    {
        if ops.len() == 0 {
            self
        } else {
            self.apply_all(ops.drop_last()).apply(ops.last())
        }
    }
}

/// The markup of one child of a run.
pub open spec fn run_child_markup(child: RunChildView) -> Seq<u8> {
    match child {
        RunChildView::Text(payload) => text_markup(payload),
        RunChildView::DeleteText(payload) => delete_text_markup(payload),
        RunChildView::Tab => tab_markup(),
        RunChildView::Break(kind) => break_markup(kind),
    }
}

/// The markup of the children of a run, one after the other.
pub open spec fn children_markup(children: Seq<RunChildView>) -> Seq<u8>
    decreases children.len(),
{
    if children.len() == 0 {
        Seq::empty()
    } else {
        children_markup(children.drop_last()) + run_child_markup(children.last())
    }
}

/// The markup of a run: the formatting first, then the children, between the
/// open and the close tag of the run.
pub open spec fn run_markup(run: RunView) -> Seq<u8> {
    enclosed(
        Tag::Run.name(),
        Seq::empty(),
        run_property_markup(run.property) + children_markup(run.children),
    )
}

impl View for RunChild {
    type V = RunChildView;

    open spec fn view(&self) -> RunChildView {
        match self {
            RunChild::Text(t) => RunChildView::Text(t@),
            RunChild::DeleteText(t) => RunChildView::DeleteText(t@),
            RunChild::Tab(_) => RunChildView::Tab,
            RunChild::Break(b) => RunChildView::Break(b@),
        }
    }
}

impl BuildXML for RunChild {
    open spec fn markup(&self) -> Seq<u8> {
        run_child_markup(self@)
    }

    fn build(&self) -> (out: Vec<u8>) {
        match self {
            RunChild::Text(t) => t.build(),
            RunChild::DeleteText(t) => t.build(),
            RunChild::Tab(t) => t.build(),
            RunChild::Break(t) => t.build(),
        }
    }
}

/// A run. Children are only ever added behind those that are there.
#[derive(Debug, Clone)]
pub struct Run {
    run_property: RunProperty,
    children: Vec<RunChild>,
}

impl View for Run {
    type V = RunView;

    closed spec fn view(&self) -> RunView {
        RunView {
            property: self.run_property@,
            children: self.children@.map_values(|c: RunChild| c@),
        }
    }
}

impl Default for Run {
    fn default() -> (r: Run)
        ensures
            r@ == RunView::empty(),
    {
        let run_property = RunProperty::new();
        let r = Run { run_property, children: Vec::new() };
        assert(r@.children =~= Seq::empty());
        r
    }
}

impl Run {
    /// The run without formatting and without children.
    pub fn new() -> (r: Run)
        ensures
            r@ == RunView::empty(),
    {
        Run::default()
    }

    /// Adds `child` behind the children of the run.
    fn add_child(self, child: RunChild) -> (r: Run)
        ensures
            r@ == self@.with_child(child@),
    {
        let Run { run_property, mut children } = self;
        children.push(child);
        let r = Run { run_property, children };
        assert(r@.children =~= self@.children.push(child@));
        r
    }

    /// Adds a piece of text behind the children of the run.
    pub fn add_text(self, text: &str) -> (r: Run)
        ensures
            r@ == self@.apply(RunOp::AddText(text@)),
    {
        self.add_child(RunChild::Text(Text::new(text)))
    }

    /// Adds a piece of deleted text behind the children of the run.
    pub fn add_delete_text(self, text: &str) -> (r: Run)
        ensures
            r@ == self@.apply(RunOp::AddDeleteText(text@)),
    {
        self.add_child(RunChild::DeleteText(DeleteText::new(text)))
    }

    /// Adds a tab behind the children of the run.
    pub fn add_tab(self) -> (r: Run)
        ensures
            r@ == self@.apply(RunOp::AddTab),
    {
        self.add_child(RunChild::Tab(Tab::new()))
    }

    /// Adds a break of the given kind behind the children of the run.
    pub fn add_break(self, break_type: BreakType) -> (r: Run)
        ensures
            r@ == self@.apply(RunOp::AddBreak(break_type)),
    {
        self.add_child(RunChild::Break(Break::new(break_type)))
    }

    /// Sets the font size. The children stay as they are.
    pub fn size(self, size: usize) -> (r: Run)
        ensures
            r@ == self@.apply(RunOp::Size(size as nat)),
    {
        Run { run_property: self.run_property.size(size), children: self.children }
    }

    /// Sets the text colour. The children stay as they are.
    pub fn color(self, color: &str) -> (r: Run)
        ensures
            r@ == self@.apply(RunOp::Color(color@)),
    {
        Run { run_property: self.run_property.color(color), children: self.children }
    }

    /// Sets the highlight colour. The children stay as they are.
    pub fn highlight(self, color: &str) -> (r: Run)
        ensures
            r@ == self@.apply(RunOp::Highlight(color@)),
    {
        Run { run_property: self.run_property.highlight(color), children: self.children }
    }

    /// Asks for bold type. The children stay as they are.
    pub fn bold(self) -> (r: Run)
        ensures
            r@ == self@.apply(RunOp::Bold),
    {
        Run { run_property: self.run_property.bold(), children: self.children }
    }

    /// Asks for italic type. The children stay as they are.
    pub fn italic(self) -> (r: Run)
        ensures
            r@ == self@.apply(RunOp::Italic),
    {
        Run { run_property: self.run_property.italic(), children: self.children }
    }
}

impl BuildXML for Run {
    open spec fn markup(&self) -> Seq<u8> {
        run_markup(self@)
    }

    fn build(&self) -> (out: Vec<u8>) {
        let ghost run = self@;
        let property = self.run_property.build();
        let mut b = XMLBuilder::new().open_run().add_child(property.as_slice());
        proof {
            valid_utf8_concat(Seq::empty(), property@);
        }
        assert(b.body() =~= run_property_markup(run.property) + children_markup(
            run.children.take(0),
        ));
        let mut i: usize = 0;
        while i < self.children.len()
            invariant
                i <= self.children.len(),
                run == self@,
                b.state() == BuilderState::Opened,
                b.tag() == Some(Tag::Run),
                b.attributes() == Seq::<u8>::empty(),
                b.has_children(),
                valid_utf8(b.body()),
                b.body() == run_property_markup(run.property) + children_markup(
                    run.children.take(i as int),
                ),
            decreases self.children.len() - i,
        {
            let child = self.children[i].build();
            proof {
                valid_utf8_concat(b.body(), child@);
            }
            b = b.add_child(child.as_slice());
            proof {
                let next = run.children.take(i + 1);
                assert(next.drop_last() =~= run.children.take(i as int));
                assert(next.last() == self.children@[i as int]@);
                assert(b.body() =~= run_property_markup(run.property) + children_markup(next));
            }
            i += 1;
        }
        assert(run.children.take(i as int) =~= run.children);
        proof {
            lemma_enclosed_valid_utf8(Tag::Run.name(), Seq::empty(), b.body());
        }
        b.close().build()
    }
}

/// A run without formatting and without children is serialised as
/// `<w:r><w:rPr /></w:r>`: the open and close tag always hold at least the
/// tag of the formatting.
pub proof fn lemma_empty_run_markup(r: Run)
    requires
        r@ == RunView::empty(),
    ensures
        r.markup() == encode_utf8("<w:r><w:rPr /></w:r>"@),
{
    let property = run_property_markup(RunPropertyView::empty());
    lemma_plain_marker_shape(Tag::RunProperty.name());
    lemma_enclosed_shape(Tag::Run.name(), property + children_markup(Seq::empty()));
    assert(property + children_markup(Seq::empty()) =~= property);
    reveal_strlit("<");
    reveal_strlit(">");
    reveal_strlit("</");
    reveal_strlit(" />");
    reveal_strlit("w:r");
    reveal_strlit("w:rPr");
    reveal_strlit("<w:r><w:rPr /></w:r>");
    let open = "<"@ + "w:r"@ + ">"@;
    let inner = "<"@ + "w:rPr"@ + " />"@;
    let close = "</"@ + "w:r"@ + ">"@;
    assert(open + inner + close =~= "<w:r><w:rPr /></w:r>"@);
    lemma_encode_concat(open + inner, close);
    lemma_encode_concat(open, inner);
}

/// The markup of two rows of children, one behind the other, is the markup of
/// the first row followed by the markup of the second.
pub proof fn lemma_children_markup_concat(first: Seq<RunChildView>, second: Seq<RunChildView>)
    ensures
        children_markup(first + second) == children_markup(first) + children_markup(second),
    decreases second.len(),
{
    if second.len() == 0 {
        assert(first + second =~= first);
        assert(children_markup(first) + children_markup(second) =~= children_markup(first));
    } else {
        lemma_children_markup_concat(first, second.drop_last());
        assert((first + second).drop_last() =~= first + second.drop_last());
        assert((first + second).last() == second.last());
        assert(children_markup(first + second) =~= children_markup(first) + children_markup(
            second,
        ));
    }
}

/// A run is serialised as `<w:r>`, its formatting, its children in the order
/// in which they were added, and `</w:r>`, with nothing in between.
pub proof fn lemma_run_markup(r: Run)
    ensures
        r.markup() == encode_utf8("<w:r>"@) + run_property_markup(r@.property) + children_markup(
            r@.children,
        ) + encode_utf8("</w:r>"@),
{
    let body = run_property_markup(r@.property) + children_markup(r@.children);
    lemma_enclosed_shape(Tag::Run.name(), body);
    reveal_strlit("<");
    reveal_strlit(">");
    reveal_strlit("</");
    reveal_strlit("w:r");
    reveal_strlit("<w:r>");
    reveal_strlit("</w:r>");
    assert("<"@ + "w:r"@ + ">"@ =~= "<w:r>"@);
    assert("</"@ + "w:r"@ + ">"@ =~= "</w:r>"@);
    assert(r.markup() =~= encode_utf8("<w:r>"@) + run_property_markup(r@.property)
        + children_markup(r@.children) + encode_utf8("</w:r>"@));
}

/// Adding a child changes the markup of a run in one place only: the bytes of
/// the new child go between the children that were there and the close tag.
pub proof fn lemma_child_added_last(before: Run, after: Run, child: RunChildView)
    requires
        after@ == before@.with_child(child),
    ensures
        before.markup() == encode_utf8("<w:r>"@) + run_property_markup(before@.property)
            + children_markup(before@.children) + encode_utf8("</w:r>"@),
        after.markup() == encode_utf8("<w:r>"@) + run_property_markup(before@.property)
            + children_markup(before@.children) + run_child_markup(child) + encode_utf8(
            "</w:r>"@,
        ),
{
    lemma_run_markup(before);
    lemma_run_markup(after);
    assert(after@.children.drop_last() =~= before@.children);
    assert(after.markup() =~= encode_utf8("<w:r>"@) + run_property_markup(before@.property)
        + children_markup(before@.children) + run_child_markup(child) + encode_utf8("</w:r>"@));
}

/// A run with the children `a`, `b` and `c`, added in that order, holds the
/// bytes of `a`, then those of `b`, then those of `c`, between its formatting
/// and its close tag, whatever kinds the three are of.
pub proof fn lemma_three_children_in_order(
    r: Run,
    a: RunChildView,
    b: RunChildView,
    c: RunChildView,
)
    requires
        r@.children == seq![a, b, c],
    ensures
        r.markup() == encode_utf8("<w:r>"@) + run_property_markup(r@.property) + run_child_markup(
            a,
        ) + run_child_markup(b) + run_child_markup(c) + encode_utf8("</w:r>"@),
{
    lemma_run_markup(r);
    let abc = seq![a, b, c];
    let ab = seq![a, b];
    let only_a = seq![a];
    assert(abc.drop_last() =~= ab);
    assert(ab.drop_last() =~= only_a);
    assert(only_a.drop_last() =~= Seq::<RunChildView>::empty());
    assert(children_markup(Seq::<RunChildView>::empty()) =~= Seq::<u8>::empty());
    assert(children_markup(only_a) =~= run_child_markup(a));
    assert(children_markup(ab) =~= run_child_markup(a) + run_child_markup(b));
    assert(children_markup(abc) =~= run_child_markup(a) + run_child_markup(b) + run_child_markup(
        c,
    ));
    assert(r.markup() =~= encode_utf8("<w:r>"@) + run_property_markup(r@.property)
        + run_child_markup(a) + run_child_markup(b) + run_child_markup(c) + encode_utf8(
        "</w:r>"@,
    ));
}

/// No step of construction removes or reorders children: those that a run
/// has stay where they are, in front of any that are added.
pub proof fn lemma_children_only_grow(run: RunView, ops: Seq<RunOp>)
    ensures
        run.children.is_prefix_of(run.apply_all(ops).children),
    decreases ops.len(),
{
    if ops.len() > 0 {
        lemma_children_only_grow(run, ops.drop_last());
    }
}

/// Two runs that were made by the same steps, each from a run of its own
/// without formatting and without children, are serialised to the same bytes.
pub proof fn lemma_same_steps_same_markup(first: Run, second: Run, ops: Seq<RunOp>)
    requires
        first@ == RunView::empty().apply_all(ops),
        second@ == RunView::empty().apply_all(ops),
    ensures
        first.markup() == second.markup(),
{
}

} // verus!
