//! Pointers and lock guards pass the description of what they hold on
//! unchanged: they say how a value is reached, not what it looks like.

use vstd::prelude::*;
use crate::railroad::describe::{DescribedDelim, Railroad, RailroadDelim};
use crate::railroad::diagram::Diagram;
use crate::railroad::node::{Node, NodeView};
use crate::railroad::schema::{Described, TypeDesc, TypeView};

verus! {

/// `std::cell::Ref`, carried as an opaque type.
#[verifier::external_type_specification]
#[verifier::external_body]
#[verifier::reject_recursive_types(T)]
pub struct ExRef<'a, T: ?Sized>(std::cell::Ref<'a, T>);

/// `std::cell::RefMut`, carried as an opaque type.
#[verifier::external_type_specification]
#[verifier::external_body]
#[verifier::reject_recursive_types(T)]
pub struct ExRefMut<'a, T: ?Sized + 'a>(std::cell::RefMut<'a, T>);

/// `std::sync::MutexGuard`, carried as an opaque type.
#[verifier::external_type_specification]
#[verifier::external_body]
#[verifier::reject_recursive_types(T)]
pub struct ExMutexGuard<'a, T: ?Sized + 'a>(std::sync::MutexGuard<'a, T>);

/// `std::sync::RwLockReadGuard`, carried as an opaque type.
#[verifier::external_type_specification]
#[verifier::external_body]
#[verifier::reject_recursive_types(T)]
pub struct ExRwLockReadGuard<'a, T: ?Sized>(std::sync::RwLockReadGuard<'a, T>);

/// `std::sync::RwLockWriteGuard`, carried as an opaque type.
#[verifier::external_type_specification]
#[verifier::external_body]
#[verifier::reject_recursive_types(T)]
pub struct ExRwLockWriteGuard<'a, T: ?Sized + 'a>(std::sync::RwLockWriteGuard<'a, T>);

impl<T: Railroad> Railroad for &mut T {
    open spec fn full() -> NodeView {
        T::full()
    }

    open spec fn inline() -> NodeView {
        T::inline()
    }

    open spec fn nonterms() -> Seq<NodeView> {
        T::nonterms()
    }

    fn to_railroad_node() -> (node: Node) {
        T::to_railroad_node()
    }

    fn to_railroad_node_inline() -> (node: Node) {
        T::to_railroad_node_inline()
    }

    fn to_railroad_diagram() -> (diagram: Diagram) {
        T::to_railroad_diagram()
    }
}

impl<T: RailroadDelim> RailroadDelim for &mut T {
    open spec fn delim(inner: NodeView) -> NodeView {
        T::delim(inner)
    }

    fn to_railroad_delim_node(node: Node) -> (wrapped: Node) {
        T::to_railroad_delim_node(node)
    }
}

impl<T: DescribedDelim> DescribedDelim for &mut T {
    proof fn lemma_wraps(inner: NodeView) {
        T::lemma_wraps(inner);
    }
}

impl<'a, T: Railroad> Railroad for std::cell::Ref<'a, T> {
    open spec fn full() -> NodeView {
        T::full()
    }

    open spec fn inline() -> NodeView {
        T::inline()
    }

    open spec fn nonterms() -> Seq<NodeView> {
        T::nonterms()
    }

    fn to_railroad_node() -> (node: Node) {
        T::to_railroad_node()
    }

    fn to_railroad_node_inline() -> (node: Node) {
        T::to_railroad_node_inline()
    }

    fn to_railroad_diagram() -> (diagram: Diagram) {
        T::to_railroad_diagram()
    }
}

impl<'a, T: RailroadDelim> RailroadDelim for std::cell::Ref<'a, T> {
    open spec fn delim(inner: NodeView) -> NodeView {
        T::delim(inner)
    }

    fn to_railroad_delim_node(node: Node) -> (wrapped: Node) {
        T::to_railroad_delim_node(node)
    }
}

impl<'a, T: DescribedDelim> DescribedDelim for std::cell::Ref<'a, T> {
    proof fn lemma_wraps(inner: NodeView) {
        T::lemma_wraps(inner);
    }
}

impl<'a, T: Railroad> Railroad for std::cell::RefMut<'a, T> {
    open spec fn full() -> NodeView {
        T::full()
    }

    open spec fn inline() -> NodeView {
        T::inline()
    }

    open spec fn nonterms() -> Seq<NodeView> {
        T::nonterms()
    }

    fn to_railroad_node() -> (node: Node) {
        T::to_railroad_node()
    }

    fn to_railroad_node_inline() -> (node: Node) {
        T::to_railroad_node_inline()
    }

    fn to_railroad_diagram() -> (diagram: Diagram) {
        T::to_railroad_diagram()
    }
}

impl<'a, T: RailroadDelim> RailroadDelim for std::cell::RefMut<'a, T> {
    open spec fn delim(inner: NodeView) -> NodeView {
        T::delim(inner)
    }

    fn to_railroad_delim_node(node: Node) -> (wrapped: Node) {
        T::to_railroad_delim_node(node)
    }
}

impl<'a, T: DescribedDelim> DescribedDelim for std::cell::RefMut<'a, T> {
    proof fn lemma_wraps(inner: NodeView) {
        T::lemma_wraps(inner);
    }
}

impl<'a, T: Railroad> Railroad for std::sync::MutexGuard<'a, T> {
    open spec fn full() -> NodeView {
        T::full()
    }

    open spec fn inline() -> NodeView {
        T::inline()
    }

    open spec fn nonterms() -> Seq<NodeView> {
        T::nonterms()
    }

    fn to_railroad_node() -> (node: Node) {
        T::to_railroad_node()
    }

    fn to_railroad_node_inline() -> (node: Node) {
        T::to_railroad_node_inline()
    }

    fn to_railroad_diagram() -> (diagram: Diagram) {
        T::to_railroad_diagram()
    }
}

impl<'a, T: RailroadDelim> RailroadDelim for std::sync::MutexGuard<'a, T> {
    open spec fn delim(inner: NodeView) -> NodeView {
        T::delim(inner)
    }

    fn to_railroad_delim_node(node: Node) -> (wrapped: Node) {
        T::to_railroad_delim_node(node)
    }
}

impl<'a, T: DescribedDelim> DescribedDelim for std::sync::MutexGuard<'a, T> {
    proof fn lemma_wraps(inner: NodeView) {
        T::lemma_wraps(inner);
    }
}

impl<'a, T: Railroad> Railroad for std::sync::RwLockReadGuard<'a, T> {
    open spec fn full() -> NodeView {
        T::full()
    }

    open spec fn inline() -> NodeView {
        T::inline()
    }

    open spec fn nonterms() -> Seq<NodeView> {
        T::nonterms()
    }

    fn to_railroad_node() -> (node: Node) {
        T::to_railroad_node()
    }

    fn to_railroad_node_inline() -> (node: Node) {
        T::to_railroad_node_inline()
    }

    fn to_railroad_diagram() -> (diagram: Diagram) {
        T::to_railroad_diagram()
    }
}

impl<'a, T: RailroadDelim> RailroadDelim for std::sync::RwLockReadGuard<'a, T> {
    open spec fn delim(inner: NodeView) -> NodeView {
        T::delim(inner)
    }

    fn to_railroad_delim_node(node: Node) -> (wrapped: Node) {
        T::to_railroad_delim_node(node)
    }
}

impl<'a, T: DescribedDelim> DescribedDelim for std::sync::RwLockReadGuard<'a, T> {
    proof fn lemma_wraps(inner: NodeView) {
        T::lemma_wraps(inner);
    }
}

impl<'a, T: Railroad> Railroad for std::sync::RwLockWriteGuard<'a, T> {
    open spec fn full() -> NodeView {
        T::full()
    }

    open spec fn inline() -> NodeView {
        T::inline()
    }

    open spec fn nonterms() -> Seq<NodeView> {
        T::nonterms()
    }

    fn to_railroad_node() -> (node: Node) {
        T::to_railroad_node()
    }

    fn to_railroad_node_inline() -> (node: Node) {
        T::to_railroad_node_inline()
    }

    fn to_railroad_diagram() -> (diagram: Diagram) {
        T::to_railroad_diagram()
    }
}

impl<'a, T: RailroadDelim> RailroadDelim for std::sync::RwLockWriteGuard<'a, T> {
    open spec fn delim(inner: NodeView) -> NodeView {
        T::delim(inner)
    }

    fn to_railroad_delim_node(node: Node) -> (wrapped: Node) {
        T::to_railroad_delim_node(node)
    }
}

impl<'a, T: DescribedDelim> DescribedDelim for std::sync::RwLockWriteGuard<'a, T> {
    proof fn lemma_wraps(inner: NodeView) {
        T::lemma_wraps(inner);
    }
}

impl<T: Described> Described for &mut T {
    open spec fn desc() -> TypeView {
        TypeView::Transparent(Box::new(T::desc()))
    }

    fn type_desc() -> (ty: TypeDesc) {
        TypeDesc::Transparent(Box::new(T::type_desc()))
    }
}

impl<'a, T: Described> Described for std::cell::Ref<'a, T> {
    open spec fn desc() -> TypeView {
        TypeView::Transparent(Box::new(T::desc()))
    }

    fn type_desc() -> (ty: TypeDesc) {
        TypeDesc::Transparent(Box::new(T::type_desc()))
    }
}

impl<'a, T: Described> Described for std::cell::RefMut<'a, T> {
    open spec fn desc() -> TypeView {
        TypeView::Transparent(Box::new(T::desc()))
    }

    fn type_desc() -> (ty: TypeDesc) {
        TypeDesc::Transparent(Box::new(T::type_desc()))
    }
}

impl<'a, T: Described> Described for std::sync::MutexGuard<'a, T> {
    open spec fn desc() -> TypeView {
        TypeView::Transparent(Box::new(T::desc()))
    }

    fn type_desc() -> (ty: TypeDesc) {
        TypeDesc::Transparent(Box::new(T::type_desc()))
    }
}

impl<'a, T: Described> Described for std::sync::RwLockReadGuard<'a, T> {
    open spec fn desc() -> TypeView {
        TypeView::Transparent(Box::new(T::desc()))
    }

    fn type_desc() -> (ty: TypeDesc) {
        TypeDesc::Transparent(Box::new(T::type_desc()))
    }
}

impl<'a, T: Described> Described for std::sync::RwLockWriteGuard<'a, T> {
    open spec fn desc() -> TypeView {
        TypeView::Transparent(Box::new(T::desc()))
    }

    fn type_desc() -> (ty: TypeDesc) {
        TypeDesc::Transparent(Box::new(T::type_desc()))
    }
}

} // verus!
