use ast_toolkit_2::railroad::describe::{describe_delim, describe_type, DescribedDelim, Railroad, RailroadDelim};
use ast_toolkit_2::railroad::diagram::Diagram;
use ast_toolkit_2::railroad::derive::railroad;
use ast_toolkit_2::railroad::attrs::{Attribute, Location, Meta, MetaItem, MetaValue, Path};
use ast_toolkit_2::railroad::node::{Node, NodeView, NodeViews};
use ast_toolkit_2::railroad::schema::{Data, DeriveInput, Field};
use ast_toolkit_2::railroad::schema::{Described, TypeDesc, TypeView};
use std::cell::{Ref, RefMut};
use std::collections::HashSet;
use std::rc::Rc;
use std::sync::{Arc, MutexGuard, RwLockReadGuard, RwLockWriteGuard};

struct Ident;

impl Railroad for Ident {
    fn full() -> NodeView {
        unreachable!("the model is for proofs and is never computed")
    }

    fn inline() -> NodeView {
        unreachable!("the model is for proofs and is never computed")
    }

    fn nonterms() -> NodeViews {
        unreachable!("the model is for proofs and is never computed")
    }

    fn to_railroad_diagram() -> Diagram {
        Diagram::new(Self::to_railroad_node())
    }

    fn to_railroad_node() -> Node {
        Node::Sequence(vec![Node::Terminal("letter".to_string()), Node::Terminal("rest".to_string())])
    }

    fn to_railroad_node_inline() -> Node {
        Node::Terminal("ident".to_string())
    }
}

struct Brackets;

impl Railroad for Brackets {
    fn full() -> NodeView {
        unreachable!("the model is for proofs and is never computed")
    }

    fn inline() -> NodeView {
        unreachable!("the model is for proofs and is never computed")
    }

    fn nonterms() -> NodeViews {
        unreachable!("the model is for proofs and is never computed")
    }

    fn to_railroad_node() -> Node {
        Node::Terminal("[]".to_string())
    }

    fn to_railroad_node_inline() -> Node {
        Self::to_railroad_node()
    }

    fn to_railroad_diagram() -> Diagram {
        let mut diagram = Diagram::new(Self::to_railroad_node());
        diagram.add_nonterm("extra".to_string(), Node::Empty);
        diagram
    }
}

impl RailroadDelim for Brackets {
    fn delim(_inner: NodeView) -> NodeView {
        unreachable!("the model is for proofs and is never computed")
    }

    fn to_railroad_delim_node(node: Node) -> Node {
        Node::Sequence(vec![Node::Terminal("[".to_string()), node, Node::Terminal("]".to_string())])
    }
}

fn full<T: Railroad>() -> Node {
    T::to_railroad_node()
}

fn inline<T: Railroad>() -> Node {
    T::to_railroad_node_inline()
}

fn diagram<T: Railroad>() -> Diagram {
    T::to_railroad_diagram()
}

fn delim<T: RailroadDelim>() -> Node {
    T::to_railroad_delim_node(Node::Terminal("x".to_string()))
}

fn transparent<T: Railroad, W: Railroad>() {
    assert_eq!(full::<W>(), full::<T>());
    assert_eq!(inline::<W>(), inline::<T>());
    assert_eq!(diagram::<W>(), diagram::<T>());
}

fn transparent_delim<T: RailroadDelim, W: RailroadDelim>() {
    transparent::<T, W>();
    assert_eq!(delim::<W>(), delim::<T>());
}

#[test]
fn default_diagram_shows_the_full_form() {
    assert_eq!(diagram::<Ident>(), Diagram::new(full::<Ident>()));
}

#[test]
fn pointers_and_guards_describe_what_they_hold() {
    transparent::<Ident, &Ident>();
    transparent::<Ident, &mut Ident>();
    transparent::<Ident, Box<Ident>>();
    transparent::<Ident, Rc<Ident>>();
    transparent::<Ident, Arc<Ident>>();
    transparent::<Ident, Ref<'static, Ident>>();
    transparent::<Ident, RefMut<'static, Ident>>();
    transparent::<Ident, MutexGuard<'static, Ident>>();
    transparent::<Ident, RwLockReadGuard<'static, Ident>>();
    transparent::<Ident, RwLockWriteGuard<'static, Ident>>();
    transparent::<Ident, Box<Rc<&Ident>>>();
}

#[test]
fn pointers_and_guards_delimit_as_what_they_hold() {
    transparent_delim::<Brackets, &Brackets>();
    transparent_delim::<Brackets, &mut Brackets>();
    transparent_delim::<Brackets, Box<Brackets>>();
    transparent_delim::<Brackets, Rc<Brackets>>();
    transparent_delim::<Brackets, Arc<Brackets>>();
    transparent_delim::<Brackets, Ref<'static, Brackets>>();
    transparent_delim::<Brackets, RefMut<'static, Brackets>>();
    transparent_delim::<Brackets, MutexGuard<'static, Brackets>>();
    transparent_delim::<Brackets, RwLockReadGuard<'static, Brackets>>();
    transparent_delim::<Brackets, RwLockWriteGuard<'static, Brackets>>();
}

#[test]
fn option_is_optional() {
    assert_eq!(full::<Option<Ident>>(), Node::Optional(Box::new(full::<Ident>())));
    assert_eq!(inline::<Option<Ident>>(), Node::Optional(Box::new(Node::Terminal("ident".to_string()))));
    assert_eq!(diagram::<Option<Ident>>(), Diagram::new(Node::Optional(Box::new(full::<Ident>()))));
    assert_eq!(diagram::<Option<Brackets>>(), Diagram::new(Node::Optional(Box::new(full::<Brackets>()))));
    assert_eq!(diagram::<Vec<Brackets>>(), Diagram::new(full::<Vec<Brackets>>()));
    assert_eq!(diagram::<HashSet<Brackets>>(), Diagram::new(full::<HashSet<Brackets>>()));
    assert_eq!(delim::<Option<Brackets>>(), Node::Optional(Box::new(delim::<Brackets>())));
}

#[test]
fn collections_are_repeated_with_an_empty_separator() {
    let repeat = |n| Node::Repeat(Box::new(n), Box::new(Node::Empty));
    assert_eq!(full::<Vec<Ident>>(), repeat(full::<Ident>()));
    assert_eq!(inline::<Vec<Ident>>(), repeat(inline::<Ident>()));
    assert_eq!(full::<HashSet<Ident>>(), repeat(full::<Ident>()));
    assert_eq!(inline::<HashSet<Ident>>(), repeat(inline::<Ident>()));
    assert_eq!(delim::<Vec<Brackets>>(), repeat(delim::<Brackets>()));
    assert_eq!(delim::<HashSet<Brackets>>(), repeat(delim::<Brackets>()));
    assert_eq!(
        inline::<Option<Vec<Box<Ident>>>>(),
        Node::Optional(Box::new(repeat(inline::<Ident>())))
    );
}

#[test]
fn describe_type_takes_both_forms_from_the_type() {
    assert_eq!(
        describe_type::<Ident>("lang::Ident".to_string()),
        TypeDesc::Named {
            label: "lang::Ident".to_string(),
            full: full::<Ident>(),
            inline: inline::<Ident>(),
            delim: None,
        }
    );
    assert_eq!(
        describe_type::<Option<Ident>>("o".to_string()).describe_inline(),
        TypeDesc::Optional(Box::new(describe_type::<Ident>("i".to_string()))).describe_inline()
    );
}

impl Described for Ident {
    fn desc() -> TypeView {
        unreachable!("the model is for proofs and is never computed")
    }

    fn type_desc() -> TypeDesc {
        describe_type::<Ident>("lang::Ident".to_string())
    }
}

fn desc<T: Described>() -> TypeDesc {
    T::type_desc()
}

#[test]
fn containers_and_wrappers_are_layers_of_the_declared_type() {
    let ident = || desc::<Ident>();
    assert_eq!(desc::<Option<Ident>>(), TypeDesc::Optional(Box::new(ident())));
    assert_eq!(desc::<Vec<Ident>>(), TypeDesc::Repeated(Box::new(ident())));
    assert_eq!(desc::<HashSet<Ident>>(), TypeDesc::Repeated(Box::new(ident())));
    assert_eq!(desc::<&Ident>(), TypeDesc::Transparent(Box::new(ident())));
    assert_eq!(desc::<&mut Ident>(), TypeDesc::Transparent(Box::new(ident())));
    assert_eq!(desc::<Box<Ident>>(), TypeDesc::Transparent(Box::new(ident())));
    assert_eq!(desc::<Rc<Ident>>(), TypeDesc::Transparent(Box::new(ident())));
    assert_eq!(desc::<Arc<Ident>>(), TypeDesc::Transparent(Box::new(ident())));
    assert_eq!(desc::<Ref<'static, Ident>>(), TypeDesc::Transparent(Box::new(ident())));
    assert_eq!(desc::<RefMut<'static, Ident>>(), TypeDesc::Transparent(Box::new(ident())));
    assert_eq!(desc::<MutexGuard<'static, Ident>>(), TypeDesc::Transparent(Box::new(ident())));
    assert_eq!(desc::<RwLockReadGuard<'static, Ident>>(), TypeDesc::Transparent(Box::new(ident())));
    assert_eq!(desc::<RwLockWriteGuard<'static, Ident>>(), TypeDesc::Transparent(Box::new(ident())));
    assert_eq!(
        desc::<Option<Vec<Box<Ident>>>>().describe_inline(),
        inline::<Option<Vec<Box<Ident>>>>()
    );
    assert_eq!(desc::<Arc<Option<Ident>>>().describe(), full::<Arc<Option<Ident>>>());
}

impl Described for Brackets {
    fn desc() -> TypeView {
        unreachable!("the model is for proofs and is never computed")
    }

    fn type_desc() -> TypeDesc {
        TypeDesc::Named {
            label: "lang::Brackets".to_string(),
            full: full::<Brackets>(),
            inline: inline::<Brackets>(),
            delim: Some(("[".to_string(), "]".to_string())),
        }
    }
}

impl DescribedDelim for Brackets {
    fn lemma_wraps(_inner: NodeView) {
        unreachable!("the proof is never run")
    }
}

fn wraps_as_it_draws<D: DescribedDelim>() {
    let inner = || Node::Terminal("x".to_string());
    assert_eq!(D::type_desc().wrap(inner()), Ok(D::to_railroad_delim_node(inner())));
    assert_eq!(describe_delim::<D>(), D::type_desc());
}

#[test]
fn a_delimiter_wraps_as_a_declared_type_as_it_draws_itself() {
    wraps_as_it_draws::<Brackets>();
    wraps_as_it_draws::<&Brackets>();
    wraps_as_it_draws::<&mut Brackets>();
    wraps_as_it_draws::<Box<Brackets>>();
    wraps_as_it_draws::<Rc<Brackets>>();
    wraps_as_it_draws::<Arc<Brackets>>();
    wraps_as_it_draws::<Ref<'static, Brackets>>();
    wraps_as_it_draws::<RefMut<'static, Brackets>>();
    wraps_as_it_draws::<MutexGuard<'static, Brackets>>();
    wraps_as_it_draws::<RwLockReadGuard<'static, Brackets>>();
    wraps_as_it_draws::<RwLockWriteGuard<'static, Brackets>>();
    wraps_as_it_draws::<Option<Brackets>>();
    wraps_as_it_draws::<Vec<Brackets>>();
    wraps_as_it_draws::<HashSet<Brackets>>();
    wraps_as_it_draws::<Option<Box<Vec<Brackets>>>>();
}

#[test]
fn a_derived_delimiter_field_is_drawn_as_the_type_delimits() {
    let kind = MetaItem {
        key: Path::from_ident("kind"),
        value: MetaValue::Path(Path::from_ident("items")),
        location: Location { line: 1, column: 1 },
    };
    let input = DeriveInput {
        attrs: vec![],
        ident: "List".to_string(),
        data: Data::Struct(vec![
            Field {
                name: "brackets".to_string(),
                location: Location { line: 1, column: 1 },
                attrs: vec![Attribute { path: Path::from_ident("railroad"), meta: Meta::List(vec![kind]) }],
                ty: desc::<Brackets>(),
            },
            Field {
                name: "items".to_string(),
                location: Location { line: 2, column: 1 },
                attrs: vec![],
                ty: desc::<Vec<Ident>>(),
            },
        ]),
    };
    let derived = railroad(&input).unwrap();
    assert_eq!(
        derived.node,
        Node::Sequence(vec![
            Brackets::to_railroad_delim_node(inline::<Vec<Ident>>()),
            inline::<Vec<Ident>>(),
        ])
    );
}
