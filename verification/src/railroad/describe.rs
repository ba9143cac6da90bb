//! The contract by which a type describes itself as a diagram node, and the
//! rules by which wrappers and containers pass a description on.

use vstd::prelude::*;
use crate::railroad::diagram::Diagram;
use crate::railroad::node::{Node, NodeView, optional_of, repeated_of};
use crate::railroad::schema::{Described, TypeDesc, TypeView};
use std::collections::HashSet;
use std::rc::Rc;
use std::sync::Arc;

verus! {

/// A type that describes itself as a diagram node.
///
/// The description belongs to the type, not to a value of it: both forms and
/// the diagram are fixed once and for all, which is what [`Railroad::full`],
/// [`Railroad::inline`] and [`Railroad::nonterms`] say. The three exist for
/// proofs alone: an impl in plain Rust gives them a body that is never run.
pub trait Railroad {
    /// What the full form depicts.
    spec fn full() -> NodeView;

    /// What the inline form depicts. A type without a compact form of its
    /// own gives its full form.
    spec fn inline() -> NodeView;

    /// The named tracks of the diagram of this type, in order. A type that
    /// refers to no other gives none.
    spec fn nonterms() -> Seq<NodeView>;

    /// Builds the full form: the complete syntax of this type.
    fn to_railroad_node() -> (node: Node)
        ensures
            node@ == Self::full(),
    ;

    /// Builds the inline form: what stands for this type inside the track of
    /// another.
    fn to_railroad_node_inline() -> (node: Node)
        ensures
            node@ == Self::inline(),
    ;

    /// The diagram that shows this type: its full form is the main track. A
    /// type that refers to others adds their tracks; any other gives
    /// `Diagram::new` of its full form.
    fn to_railroad_diagram() -> (diagram: Diagram)
        ensures
            diagram@.toplevel == Some(Self::full()),
            diagram@.nonterms == Self::nonterms(),
    ;
}

/// A type that stands for a pair of delimiters around something else.
pub trait RailroadDelim: Railroad {
    /// What the delimiters around `inner` depict.
    spec fn delim(inner: NodeView) -> NodeView;

    /// Builds the node that shows `node` between the delimiters.
    fn to_railroad_delim_node(node: Node) -> (wrapped: Node)
        ensures
            wrapped@ == Self::delim(node@),
    ;
}

/// A delimiter type that gives, as the declared type of a field, the same
/// delimiters as it draws itself.
pub trait DescribedDelim: Described + RailroadDelim {
    /// What the declared type puts around `inner` is what the type itself
    /// draws around it.
    proof fn lemma_wraps(inner: NodeView)
        ensures
            <Self as Described>::desc().wrap(inner) == Some(<Self as RailroadDelim>::delim(inner)),
    ;
}

/// The declared type of a field whose type is `T`, referred to as `label`:
/// both forms are those that `T` gives of itself, and it is no delimiter.
pub fn describe_type<T: Railroad>(label: String) -> (ty: TypeDesc)
    ensures
        ty@ == (TypeView::Named {
            label: label@,
            full: T::full(),
            inline: T::inline(),
            delim: None,
        }),
{
    TypeDesc::Named {
        label,
        full: T::to_railroad_node(),
        inline: T::to_railroad_node_inline(),
        delim: None,
    }
}

/// The declared type of a delimiter field whose type is `D`: what it puts
/// around a node is what `D` draws around it.
pub fn describe_delim<D: DescribedDelim>() -> (ty: TypeDesc)
    ensures
        ty@ == <D as Described>::desc(),
        forall|inner: NodeView| #[trigger] ty@.wrap(inner) == Some(<D as RailroadDelim>::delim(inner)),
{
    proof {
        assert forall|inner: NodeView| #[trigger] <D as Described>::desc().wrap(inner) == Some(
            <D as RailroadDelim>::delim(inner),
        ) by {
            D::lemma_wraps(inner);
        }
    }
    D::type_desc()
}

impl<T: Railroad> Railroad for &T {
    open spec fn full() -> NodeView {
        T::full()
    }

    open spec fn inline() -> NodeView {
        T::inline()
    }

    open spec fn nonterms() -> Seq<NodeView> {
        T::nonterms()
    }

    fn to_railroad_node() -> (node: Node) {
        T::to_railroad_node()
    }

    fn to_railroad_node_inline() -> (node: Node) {
        T::to_railroad_node_inline()
    }

    fn to_railroad_diagram() -> (diagram: Diagram) {
        T::to_railroad_diagram()
    }
}

impl<T: RailroadDelim> RailroadDelim for &T {
    open spec fn delim(inner: NodeView) -> NodeView {
        T::delim(inner)
    }

    fn to_railroad_delim_node(node: Node) -> (wrapped: Node) {
        T::to_railroad_delim_node(node)
    }
}

impl<T: DescribedDelim> DescribedDelim for &T {
    proof fn lemma_wraps(inner: NodeView) {
        T::lemma_wraps(inner);
    }
}

impl<T: Railroad> Railroad for Box<T> {
    open spec fn full() -> NodeView {
        T::full()
    }

    open spec fn inline() -> NodeView {
        T::inline()
    }

    open spec fn nonterms() -> Seq<NodeView> {
        T::nonterms()
    }

    fn to_railroad_node() -> (node: Node) {
        T::to_railroad_node()
    }

    fn to_railroad_node_inline() -> (node: Node) {
        T::to_railroad_node_inline()
    }

    fn to_railroad_diagram() -> (diagram: Diagram) {
        T::to_railroad_diagram()
    }
}

impl<T: RailroadDelim> RailroadDelim for Box<T> {
    open spec fn delim(inner: NodeView) -> NodeView {
        T::delim(inner)
    }

    fn to_railroad_delim_node(node: Node) -> (wrapped: Node) {
        T::to_railroad_delim_node(node)
    }
}

impl<T: DescribedDelim> DescribedDelim for Box<T> {
    proof fn lemma_wraps(inner: NodeView) {
        T::lemma_wraps(inner);
    }
}

impl<T: Railroad> Railroad for Rc<T> {
    open spec fn full() -> NodeView {
        T::full()
    }

    open spec fn inline() -> NodeView {
        T::inline()
    }

    open spec fn nonterms() -> Seq<NodeView> {
        T::nonterms()
    }

    fn to_railroad_node() -> (node: Node) {
        T::to_railroad_node()
    }

    fn to_railroad_node_inline() -> (node: Node) {
        T::to_railroad_node_inline()
    }

    fn to_railroad_diagram() -> (diagram: Diagram) {
        T::to_railroad_diagram()
    }
}

impl<T: RailroadDelim> RailroadDelim for Rc<T> {
    open spec fn delim(inner: NodeView) -> NodeView {
        T::delim(inner)
    }

    fn to_railroad_delim_node(node: Node) -> (wrapped: Node) {
        T::to_railroad_delim_node(node)
    }
}

impl<T: DescribedDelim> DescribedDelim for Rc<T> {
    proof fn lemma_wraps(inner: NodeView) {
        T::lemma_wraps(inner);
    }
}

impl<T: Railroad> Railroad for Arc<T> {
    open spec fn full() -> NodeView {
        T::full()
    }

    open spec fn inline() -> NodeView {
        T::inline()
    }

    open spec fn nonterms() -> Seq<NodeView> {
        T::nonterms()
    }

    fn to_railroad_node() -> (node: Node) {
        T::to_railroad_node()
    }

    fn to_railroad_node_inline() -> (node: Node) {
        T::to_railroad_node_inline()
    }

    fn to_railroad_diagram() -> (diagram: Diagram) {
        T::to_railroad_diagram()
    }
}

impl<T: RailroadDelim> RailroadDelim for Arc<T> {
    open spec fn delim(inner: NodeView) -> NodeView {
        T::delim(inner)
    }

    fn to_railroad_delim_node(node: Node) -> (wrapped: Node) {
        T::to_railroad_delim_node(node)
    }
}

impl<T: DescribedDelim> DescribedDelim for Arc<T> {
    proof fn lemma_wraps(inner: NodeView) {
        T::lemma_wraps(inner);
    }
}

impl<T: Railroad> Railroad for Option<T> {
    open spec fn full() -> NodeView {
        optional_of(T::full())
    }

    open spec fn inline() -> NodeView {
        optional_of(T::inline())
    }

    open spec fn nonterms() -> Seq<NodeView> {
        Seq::empty()
    }

    fn to_railroad_node() -> (node: Node) {
        Node::optional(T::to_railroad_node())
    }

    fn to_railroad_node_inline() -> (node: Node) {
        Node::optional(T::to_railroad_node_inline())
    }

    fn to_railroad_diagram() -> (diagram: Diagram) {
        Diagram::new(Self::to_railroad_node())
    }
}

impl<T: RailroadDelim> RailroadDelim for Option<T> {
    open spec fn delim(inner: NodeView) -> NodeView {
        optional_of(T::delim(inner))
    }

    fn to_railroad_delim_node(node: Node) -> (wrapped: Node) {
        Node::optional(T::to_railroad_delim_node(node))
    }
}

impl<T: DescribedDelim> DescribedDelim for Option<T> {
    proof fn lemma_wraps(inner: NodeView) {
        T::lemma_wraps(inner);
    }
}

impl<T: Railroad> Railroad for Vec<T> {
    open spec fn full() -> NodeView {
        repeated_of(T::full())
    }

    open spec fn inline() -> NodeView {
        repeated_of(T::inline())
    }

    open spec fn nonterms() -> Seq<NodeView> {
        Seq::empty()
    }

    fn to_railroad_node() -> (node: Node) {
        Node::repeated(T::to_railroad_node())
    }

    fn to_railroad_node_inline() -> (node: Node) {
        Node::repeated(T::to_railroad_node_inline())
    }

    fn to_railroad_diagram() -> (diagram: Diagram) {
        Diagram::new(Self::to_railroad_node())
    }
}

impl<T: RailroadDelim> RailroadDelim for Vec<T> {
    open spec fn delim(inner: NodeView) -> NodeView {
        repeated_of(T::delim(inner))
    }

    fn to_railroad_delim_node(node: Node) -> (wrapped: Node) {
        Node::repeated(T::to_railroad_delim_node(node))
    }
}

impl<T: DescribedDelim> DescribedDelim for Vec<T> {
    proof fn lemma_wraps(inner: NodeView) {
        T::lemma_wraps(inner);
    }
}

impl<T: Railroad> Railroad for HashSet<T> {
    open spec fn full() -> NodeView {
        repeated_of(T::full())
    }

    open spec fn inline() -> NodeView {
        repeated_of(T::inline())
    }

    open spec fn nonterms() -> Seq<NodeView> {
        Seq::empty()
    }

    fn to_railroad_node() -> (node: Node) {
        Node::repeated(T::to_railroad_node())
    }

    fn to_railroad_node_inline() -> (node: Node) {
        Node::repeated(T::to_railroad_node_inline())
    }

    fn to_railroad_diagram() -> (diagram: Diagram) {
        Diagram::new(Self::to_railroad_node())
    }
}

impl<T: RailroadDelim> RailroadDelim for HashSet<T> {
    open spec fn delim(inner: NodeView) -> NodeView {
        repeated_of(T::delim(inner))
    }

    fn to_railroad_delim_node(node: Node) -> (wrapped: Node) {
        Node::repeated(T::to_railroad_delim_node(node))
    }
}

impl<T: DescribedDelim> DescribedDelim for HashSet<T> {
    proof fn lemma_wraps(inner: NodeView) {
        T::lemma_wraps(inner);
    }
}

} // verus!
