//! The bridge to the `railroad` crate, which lays out and paints the nodes.
//!
//! The items at the top of this file call into the engine and state what the
//! call gives: one constructor of the engine each, but for the one that
//! embeds the style sheet, which builds the `style` element and adds it.
//! Below them the tree of nodes is lowered to the engine's nodes, children
//! first, and the document is put together.

use vstd::prelude::*;
use crate::railroad::node::{Node, NodeView, views, lemma_children_views};

verus! {

/// A node of the rendering engine, of whatever kind.
///
/// The engine's nodes are trait objects of a trait of its own, so the handle
/// is opaque: the contracts speak of it through [`depicts`] alone.
#[verifier::external_body]
pub struct EngineNode {
    inner: Box<dyn railroad::Node>,
}

/// A document of the rendering engine: one root node and the elements that
/// are written before it.
#[verifier::external_body]
pub struct EngineDiagram {
    inner: railroad::Diagram<Box<dyn railroad::Node>>,
}

/// What an engine node was built to depict.
pub uninterp spec fn depicts(node: EngineNode) -> NodeView;

/// What the root node of an engine document was built to depict.
pub uninterp spec fn document_root(document: EngineDiagram) -> NodeView;

/// How many copies of the engine's default style sheet a document holds.
pub uninterp spec fn document_sheets(document: EngineDiagram) -> nat;

/// The text that the engine writes for a document with the given root and
/// the given number of default style sheets.
pub uninterp spec fn rendered(root: NodeView, sheets: nat) -> Seq<char>;

/// What a run of engine nodes depicts, in order.
pub open spec fn depictions(nodes: Seq<EngineNode>) -> Seq<NodeView> {
    Seq::new(nodes.len(), |i: int| depicts(nodes[i]))
}

/// `railroad::Terminal::new`: a token box with the given label.
#[verifier::external_body]
fn engine_terminal(label: &str) -> (node: EngineNode)
    ensures
        depicts(node) == NodeView::Terminal(label@),
{
    EngineNode { inner: Box::new(railroad::Terminal::new(label.to_owned())) }
}

/// `railroad::NonTerminal::new`: a reference box with the given label.
#[verifier::external_body]
fn engine_nonterminal(label: &str) -> (node: EngineNode)
    ensures
        depicts(node) == NodeView::NonTerminal(label@),
{
    EngineNode { inner: Box::new(railroad::NonTerminal::new(label.to_owned())) }
}

/// `railroad::Comment::new`: an annotation with the given text.
#[verifier::external_body]
fn engine_comment(text: &str) -> (node: EngineNode)
    ensures
        depicts(node) == NodeView::Comment(text@),
{
    EngineNode { inner: Box::new(railroad::Comment::new(text.to_owned())) }
}

/// `railroad::Start`: the marker that opens a track.
#[verifier::external_body]
fn engine_start() -> (node: EngineNode)
    ensures
        depicts(node) == NodeView::Start,
{
    EngineNode { inner: Box::new(railroad::Start) }
}

/// `railroad::End`: the marker that closes a track.
#[verifier::external_body]
fn engine_end() -> (node: EngineNode)
    ensures
        depicts(node) == NodeView::End,
{
    EngineNode { inner: Box::new(railroad::End) }
}

/// `railroad::Empty`: a plain piece of track.
#[verifier::external_body]
fn engine_empty() -> (node: EngineNode)
    ensures
        depicts(node) == NodeView::Empty,
{
    EngineNode { inner: Box::new(railroad::Empty) }
}

/// `railroad::Sequence::new`: the children in the order given.
#[verifier::external_body]
fn engine_sequence(children: Vec<EngineNode>) -> (node: EngineNode)
    ensures
        depicts(node) == NodeView::Sequence(depictions(children@)),
{
    let inner: Vec<Box<dyn railroad::Node>> = children.into_iter().map(|c| c.inner).collect();
    EngineNode { inner: Box::new(railroad::Sequence::new(inner)) }
}

/// `railroad::Choice::new`: the alternatives in the order given.
#[verifier::external_body]
fn engine_choice(children: Vec<EngineNode>) -> (node: EngineNode)
    ensures
        depicts(node) == NodeView::Choice(depictions(children@)),
{
    let inner: Vec<Box<dyn railroad::Node>> = children.into_iter().map(|c| c.inner).collect();
    EngineNode { inner: Box::new(railroad::Choice::new(inner)) }
}

/// `railroad::VerticalGrid::new`: the children below one another, in the
/// order given.
#[verifier::external_body]
fn engine_stack(children: Vec<EngineNode>) -> (node: EngineNode)
    ensures
        depicts(node) == NodeView::Stack(depictions(children@)),
{
    let inner: Vec<Box<dyn railroad::Node>> = children.into_iter().map(|c| c.inner).collect();
    EngineNode { inner: Box::new(railroad::VerticalGrid::new(inner)) }
}

/// `railroad::Optional::new`: the given node with a path that skips it.
#[verifier::external_body]
fn engine_optional(inner: EngineNode) -> (node: EngineNode)
    ensures
        depicts(node) == NodeView::Optional(Box::new(depicts(inner))),
{
    EngineNode { inner: Box::new(railroad::Optional::new(inner.inner)) }
}

/// `railroad::Repeat::new`: the first node repeated, the second on the way
/// back.
#[verifier::external_body]
fn engine_repeat(inner: EngineNode, separator: EngineNode) -> (node: EngineNode)
    ensures
        depicts(node) == NodeView::Repeat(Box::new(depicts(inner)), Box::new(depicts(separator))),
{
    EngineNode { inner: Box::new(railroad::Repeat::new(inner.inner, separator.inner)) }
}

/// `railroad::LabeledBox::new`: the first node in a box, the second as its
/// label.
#[verifier::external_body]
fn engine_labeled(inner: EngineNode, label: EngineNode) -> (node: EngineNode)
    ensures
        depicts(node) == NodeView::Labeled(Box::new(depicts(inner)), Box::new(depicts(label))),
{
    EngineNode { inner: Box::new(railroad::LabeledBox::new(inner.inner, label.inner)) }
}

/// `railroad::Diagram::new`: a document around the given root, with no style
/// sheet.
#[verifier::external_body]
fn engine_diagram(root: EngineNode) -> (document: EngineDiagram)
    ensures
        document_root(document) == depicts(root),
        document_sheets(document) == 0,
{
    EngineDiagram { inner: railroad::Diagram::new(root.inner) }
}

/// `railroad::Diagram::add_element`, handed a `style` element of type
/// `text/css` whose text is `railroad::DEFAULT_CSS`: the document holds one
/// default style sheet more, and its root is untouched.
#[verifier::external_body]
fn engine_add_default_sheet(document: &mut EngineDiagram)
    ensures
        document_root(*final(document)) == document_root(*old(document)),
        document_sheets(*final(document)) == document_sheets(*old(document)) + 1,
{
    let sheet = railroad::svg::Element::new("style").set("type", "text/css");
    document.inner.add_element(sheet.text(railroad::DEFAULT_CSS));
}

/// `ToString::to_string` on a `railroad::Diagram`: the text of the document,
/// which depends on its root and its style sheets alone.
#[verifier::external_body]
fn engine_text(document: &EngineDiagram) -> (text: String)
    ensures
        text@ == rendered(document_root(*document), document_sheets(*document)),
{
    document.inner.to_string()
}

/// Builds the engine node that depicts `node`, children first.
pub fn lower(node: &Node) -> (engine: EngineNode)
    ensures
        depicts(engine) == node@,
    decreases node,
{
    match node {
        Node::Terminal(label) => engine_terminal(label.as_str()),
        Node::NonTerminal(label) => engine_nonterminal(label.as_str()),
        Node::Comment(text) => engine_comment(text.as_str()),
        Node::Start => engine_start(),
        Node::End => engine_end(),
        Node::Empty => engine_empty(),
        Node::Sequence(children) => {
            let lowered = lower_all(children);
            proof {
                lemma_children_views(*children);
                assert(depictions(lowered@) =~= views(children@));
            }
            engine_sequence(lowered)
        },
        Node::Choice(children) => {
            let lowered = lower_all(children);
            proof {
                lemma_children_views(*children);
                assert(depictions(lowered@) =~= views(children@));
            }
            engine_choice(lowered)
        },
        Node::Optional(inner) => engine_optional(lower(inner)),
        Node::Repeat(inner, separator) => {
            let first = lower(inner);
            let second = lower(separator);
            engine_repeat(first, second)
        },
        Node::Labeled(inner, label) => {
            let first = lower(inner);
            let second = lower(label);
            engine_labeled(first, second)
        },
        Node::Stack(children) => {
            let lowered = lower_all(children);
            proof {
                lemma_children_views(*children);
                assert(depictions(lowered@) =~= views(children@));
            }
            engine_stack(lowered)
        },
    }
}

/// Builds the engine nodes that depict `nodes`, in order.
pub fn lower_all(nodes: &Vec<Node>) -> (engines: Vec<EngineNode>)
    ensures
        engines@.len() == nodes@.len(),
        forall|i: int| 0 <= i < nodes@.len() ==> depicts(#[trigger] engines@[i]) == nodes@[i]@,
    decreases nodes,
{
    let mut engines: Vec<EngineNode> = Vec::with_capacity(nodes.len());
    let mut i: usize = 0;
    while i < nodes.len()
        invariant
            i <= nodes@.len(),
            engines@.len() == i,
            forall|j: int| 0 <= j < i ==> depicts(#[trigger] engines@[j]) == nodes@[j]@,
        decreases nodes@.len() - i,
    {
        let engine = lower(&nodes[i]);
        engines.push(engine);
        i = i + 1;
    }
    engines
}

/// Builds the engine document for the given tracks: the tracks below one
/// another as its root, and the default style sheet embedded once.
pub fn document(tracks: &Vec<Node>) -> (doc: EngineDiagram)
    ensures
        document_root(doc) == NodeView::Stack(views(tracks@)),
        document_sheets(doc) == 1,
{
    let lowered = lower_all(tracks);
    proof {
        assert(depictions(lowered@) =~= views(tracks@));
    }
    let mut doc = engine_diagram(engine_stack(lowered));
    engine_add_default_sheet(&mut doc);
    doc
}

/// The text of an engine document.
pub fn text(doc: &EngineDiagram) -> (svg: String)
    ensures
        svg@ == rendered(document_root(*doc), document_sheets(*doc)),
{
    engine_text(doc)
}

} // verus!
