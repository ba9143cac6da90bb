//! The shape of a node type as plain data: its fields or variants, and for
//! each field the description of its declared type.

use vstd::prelude::*;
use crate::railroad::attrs::{Attribute, Location};
use crate::railroad::node::{Node, NodeView, optional_of, repeated_of, views};
use std::collections::HashSet;
use std::rc::Rc;
use std::sync::Arc;

verus! {

/// The declared type of a field, as far as a diagram depends on it.
#[derive(Debug, PartialEq, Eq)]
pub enum TypeDesc {
    /// A type that describes itself.
    Named {
        /// The name under which the type is referred to.
        label: String,
        /// Its full form.
        full: Node,
        /// Its inline form.
        inline: Node,
        /// The opening and the closing token, where the type is a delimiter.
        delim: Option<(String, String)>,
    },
    /// An optional value of the inner type.
    Optional(Box<TypeDesc>),
    /// A collection of values of the inner type.
    Repeated(Box<TypeDesc>),
    /// A pointer to, or a guard of, a value of the inner type.
    Transparent(Box<TypeDesc>),
}

/// What a [`TypeDesc`] holds, as a mathematical value.
pub enum TypeView {
    Named { label: Seq<char>, full: NodeView, inline: NodeView, delim: Option<(Seq<char>, Seq<char>)> },
    Optional(Box<TypeView>),
    Repeated(Box<TypeView>),
    Transparent(Box<TypeView>),
}

/// The node that surrounds `inner` with an opening and a closing token.
pub open spec fn delimited(open: Seq<char>, inner: NodeView, close: Seq<char>) -> NodeView {
    NodeView::Sequence(seq![NodeView::Terminal(open), inner, NodeView::Terminal(close)])
}

impl TypeView {
    /// The full form: that of the named type, inside one optional node for
    /// each optional layer and one repetition for each collection layer.
    /// Pointers and guards add nothing.
    pub open spec fn describe(self) -> NodeView
        decreases self,
    {
        match self {
            TypeView::Named { full, .. } => full,
            TypeView::Optional(inner) => optional_of(inner.describe()),
            TypeView::Repeated(inner) => repeated_of(inner.describe()),
            TypeView::Transparent(inner) => inner.describe(),
        }
    }

    /// The inline form, composed as the full form is.
    pub open spec fn describe_inline(self) -> NodeView
        decreases self,
    {
        match self {
            TypeView::Named { inline, .. } => inline,
            TypeView::Optional(inner) => optional_of(inner.describe_inline()),
            TypeView::Repeated(inner) => repeated_of(inner.describe_inline()),
            TypeView::Transparent(inner) => inner.describe_inline(),
        }
    }

    /// The node that refers to the named type by the given text, composed as
    /// the full form is.
    pub open spec fn reference(self, text: Seq<char>) -> NodeView
        decreases self,
    {
        match self {
            TypeView::Named { .. } => NodeView::NonTerminal(text),
            TypeView::Optional(inner) => optional_of(inner.reference(text)),
            TypeView::Repeated(inner) => repeated_of(inner.reference(text)),
            TypeView::Transparent(inner) => inner.reference(text),
        }
    }

    /// The label of the named type.
    pub open spec fn label(self) -> Seq<char>
        decreases self,
    {
        match self {
            TypeView::Named { label, .. } => label,
            TypeView::Optional(inner) => inner.label(),
            TypeView::Repeated(inner) => inner.label(),
            TypeView::Transparent(inner) => inner.label(),
        }
    }

    /// The full form of the named type, without the layers around it.
    pub open spec fn named_full(self) -> NodeView
        decreases self,
    {
        match self {
            TypeView::Named { full, .. } => full,
            TypeView::Optional(inner) => inner.named_full(),
            TypeView::Repeated(inner) => inner.named_full(),
            TypeView::Transparent(inner) => inner.named_full(),
        }
    }

    /// `inner` between the delimiters of this type, composed as the full
    /// form is; nothing where the named type is no delimiter.
    pub open spec fn wrap(self, inner: NodeView) -> Option<NodeView>
        decreases self,
    {
        match self {
            TypeView::Named { delim, .. } => match delim {
                Some((open, close)) => Some(delimited(open, inner, close)),
                None => None,
            },
            TypeView::Optional(ty) => match ty.wrap(inner) {
                Some(node) => Some(optional_of(node)),
                None => None,
            },
            TypeView::Repeated(ty) => match ty.wrap(inner) {
                Some(node) => Some(repeated_of(node)),
                None => None,
            },
            TypeView::Transparent(ty) => ty.wrap(inner),
        }
    }

    /// The type without its outermost optional or collection layer, looking
    /// through pointers and guards; a type without such a layer is its own
    /// element.
    pub open spec fn element(self) -> TypeView
        decreases self,
    {
        match self {
            TypeView::Named { .. } => self,
            TypeView::Optional(inner) => *inner,
            TypeView::Repeated(inner) => *inner,
            TypeView::Transparent(inner) => inner.element(),
        }
    }
}

impl View for TypeDesc {
    type V = TypeView;

    open spec fn view(&self) -> TypeView
        decreases self,
    {
        match self {
            TypeDesc::Named { label, full, inline, delim } => TypeView::Named {
                label: label@,
                full: full@,
                inline: inline@,
                delim: match delim {
                    Some((open, close)) => Some((open@, close@)),
                    None => None,
                },
            },
            TypeDesc::Optional(inner) => TypeView::Optional(Box::new((**inner)@)),
            TypeDesc::Repeated(inner) => TypeView::Repeated(Box::new((**inner)@)),
            TypeDesc::Transparent(inner) => TypeView::Transparent(Box::new((**inner)@)),
        }
    }
}

impl TypeDesc {
    /// Builds the full form.
    pub fn describe(&self) -> (node: Node)
        ensures
            node@ == self@.describe(),
        decreases self,
    {
        match self {
            TypeDesc::Named { full, .. } => full.duplicate(),
            TypeDesc::Optional(inner) => Node::optional(inner.describe()),
            TypeDesc::Repeated(inner) => Node::repeated(inner.describe()),
            TypeDesc::Transparent(inner) => inner.describe(),
        }
    }

    /// Builds the inline form.
    pub fn describe_inline(&self) -> (node: Node)
        ensures
            node@ == self@.describe_inline(),
        decreases self,
    {
        match self {
            TypeDesc::Named { inline, .. } => inline.duplicate(),
            TypeDesc::Optional(inner) => Node::optional(inner.describe_inline()),
            TypeDesc::Repeated(inner) => Node::repeated(inner.describe_inline()),
            TypeDesc::Transparent(inner) => inner.describe_inline(),
        }
    }

    /// Builds the node that refers to the named type by the given text.
    pub fn reference(&self, text: &String) -> (node: Node)
        ensures
            node@ == self@.reference(text@),
        decreases self,
    {
        match self {
            TypeDesc::Named { .. } => Node::NonTerminal(text.clone()),
            TypeDesc::Optional(inner) => Node::optional(inner.reference(text)),
            TypeDesc::Repeated(inner) => Node::repeated(inner.reference(text)),
            TypeDesc::Transparent(inner) => inner.reference(text),
        }
    }

    /// The label of the named type.
    pub fn label(&self) -> (label: String)
        ensures
            label@ == self@.label(),
        decreases self,
    {
        match self {
            TypeDesc::Named { label, .. } => label.clone(),
            TypeDesc::Optional(inner) => inner.label(),
            TypeDesc::Repeated(inner) => inner.label(),
            TypeDesc::Transparent(inner) => inner.label(),
        }
    }

    /// Builds the full form of the named type, without the layers around it.
    pub fn named_full(&self) -> (node: Node)
        ensures
            node@ == self@.named_full(),
        decreases self,
    {
        match self {
            TypeDesc::Named { full, .. } => full.duplicate(),
            TypeDesc::Optional(inner) => inner.named_full(),
            TypeDesc::Repeated(inner) => inner.named_full(),
            TypeDesc::Transparent(inner) => inner.named_full(),
        }
    }

    /// Puts `inner` between the delimiters of this type; hands `inner` back
    /// where the named type is no delimiter.
    pub fn wrap(&self, inner: Node) -> (wrapped: Result<Node, Node>)
        ensures
            match wrapped {
                Ok(node) => self@.wrap(inner@) == Some(node@),
                Err(node) => self@.wrap(inner@) is None && node@ == inner@,
            },
        decreases self,
    {
        match self {
            TypeDesc::Named { delim, .. } => match delim {
                Some((open, close)) => {
                    let ghost middle = inner@;
                    let mut parts: Vec<Node> = Vec::with_capacity(3);
                    parts.push(Node::Terminal(open.clone()));
                    parts.push(inner);
                    parts.push(Node::Terminal(close.clone()));
                    proof {
                        assert(parts@[0]@ == NodeView::Terminal(open@));
                        assert(parts@[2]@ == NodeView::Terminal(close@));
                        assert(views(parts@) =~= seq![
                            NodeView::Terminal(open@),
                            middle,
                            NodeView::Terminal(close@),
                        ]);
                    }
                    Ok(Node::sequence(parts))
                },
                None => Err(inner),
            },
            TypeDesc::Optional(ty) => match ty.wrap(inner) {
                Ok(node) => Ok(Node::optional(node)),
                Err(node) => Err(node),
            },
            TypeDesc::Repeated(ty) => match ty.wrap(inner) {
                Ok(node) => Ok(Node::repeated(node)),
                Err(node) => Err(node),
            },
            TypeDesc::Transparent(ty) => ty.wrap(inner),
        }
    }

    /// The type without its outermost optional or collection layer.
    pub fn element(&self) -> (inner: &TypeDesc)
        ensures
            inner@ == self@.element(),
        decreases self,
    {
        match self {
            TypeDesc::Named { .. } => self,
            TypeDesc::Optional(inner) => inner,
            TypeDesc::Repeated(inner) => inner,
            TypeDesc::Transparent(inner) => inner.element(),
        }
    }
}

/// A type that can stand as the declared type of a field.
///
/// What a type gives here is fixed once and for all, as [`Described::desc`]
/// says: it depends on the type alone.
pub trait Described {
    /// What the type gives of itself.
    spec fn desc() -> TypeView;

    /// Builds the description of the type as a declared type.
    fn type_desc() -> (ty: TypeDesc)
        ensures
            ty@ == Self::desc(),
    ;
}

impl<T: Described> Described for Option<T> {
    open spec fn desc() -> TypeView {
        TypeView::Optional(Box::new(T::desc()))
    }

    fn type_desc() -> (ty: TypeDesc) {
        TypeDesc::Optional(Box::new(T::type_desc()))
    }
}

impl<T: Described> Described for Vec<T> {
    open spec fn desc() -> TypeView {
        TypeView::Repeated(Box::new(T::desc()))
    }

    fn type_desc() -> (ty: TypeDesc) {
        TypeDesc::Repeated(Box::new(T::type_desc()))
    }
}

impl<T: Described> Described for HashSet<T> {
    open spec fn desc() -> TypeView {
        TypeView::Repeated(Box::new(T::desc()))
    }

    fn type_desc() -> (ty: TypeDesc) {
        TypeDesc::Repeated(Box::new(T::type_desc()))
    }
}

impl<T: Described> Described for &T {
    open spec fn desc() -> TypeView {
        TypeView::Transparent(Box::new(T::desc()))
    }

    fn type_desc() -> (ty: TypeDesc) {
        TypeDesc::Transparent(Box::new(T::type_desc()))
    }
}

impl<T: Described> Described for Box<T> {
    open spec fn desc() -> TypeView {
        TypeView::Transparent(Box::new(T::desc()))
    }

    fn type_desc() -> (ty: TypeDesc) {
        TypeDesc::Transparent(Box::new(T::type_desc()))
    }
}

impl<T: Described> Described for Rc<T> {
    open spec fn desc() -> TypeView {
        TypeView::Transparent(Box::new(T::desc()))
    }

    fn type_desc() -> (ty: TypeDesc) {
        TypeDesc::Transparent(Box::new(T::type_desc()))
    }
}

impl<T: Described> Described for Arc<T> {
    open spec fn desc() -> TypeView {
        TypeView::Transparent(Box::new(T::desc()))
    }

    fn type_desc() -> (ty: TypeDesc) {
        TypeDesc::Transparent(Box::new(T::type_desc()))
    }
}

/// One field of a product type or of a variant.
#[derive(Debug, PartialEq, Eq)]
pub struct Field {
    /// The name of the field; for a field without a name, its position.
    pub name: String,
    /// Where the field stands.
    pub location: Location,
    /// The attributes written on the field.
    pub attrs: Vec<Attribute>,
    /// The declared type.
    pub ty: TypeDesc,
}

/// One variant of a sum type.
#[derive(Debug, PartialEq, Eq)]
pub struct Variant {
    pub name: String,
    pub fields: Vec<Field>,
}

/// What a type is made of.
#[derive(Debug, PartialEq, Eq)]
pub enum Data {
    /// A product type and its fields, in the order in which they are declared.
    Struct(Vec<Field>),
    /// A sum type and its variants, in the order in which they are declared.
    Enum(Vec<Variant>),
    /// A union, and where it is declared.
    Union(Location),
}

/// A type definition handed to the derivation.
#[derive(Debug, PartialEq, Eq)]
pub struct DeriveInput {
    /// The attributes written on the type.
    pub attrs: Vec<Attribute>,
    /// The name of the type.
    pub ident: String,
    /// Its fields or variants.
    pub data: Data,
}

} // verus!
