use ast_toolkit_2::railroad::attrs::{Attribute, DeriveError, Location, Meta, MetaItem, MetaValue, Path};
use ast_toolkit_2::railroad::derive::{
    find_field, generate_enum_railroad_expr, generate_fields_railroad_expr,
    generate_struct_railroad_expr, railroad, register_track, Derivation,
};
use ast_toolkit_2::railroad::diagram::Diagram;
use ast_toolkit_2::railroad::node::Node;
use ast_toolkit_2::railroad::schema::{Data, DeriveInput, Field, TypeDesc, Variant};

fn terminal(label: &str) -> Node {
    Node::Terminal(label.to_string())
}

fn at(line: usize) -> Location {
    Location { line, column: 5 }
}

fn named(label: &str) -> TypeDesc {
    TypeDesc::Named {
        label: label.to_string(),
        full: Node::Sequence(vec![terminal(label), terminal("full")]),
        inline: terminal(label),
        delim: None,
    }
}

fn parens() -> TypeDesc {
    TypeDesc::Named {
        label: "Parens".to_string(),
        full: terminal("()"),
        inline: terminal("()"),
        delim: Some(("(".to_string(), ")".to_string())),
    }
}

fn full(label: &str) -> Node {
    Node::Sequence(vec![terminal(label), terminal("full")])
}

fn entry(key: &str, value: MetaValue) -> MetaItem {
    MetaItem { key: Path::from_ident(key), value, location: Location { line: 1, column: 1 } }
}

fn marker(key: &str) -> MetaItem {
    entry(key, MetaValue::Absent)
}

fn kind(value: &str) -> MetaItem {
    entry("kind", MetaValue::Path(Path::from_ident(value)))
}

fn comment(text: &str) -> MetaItem {
    entry("comment", MetaValue::Expr(text.to_string()))
}

fn config(items: Vec<MetaItem>) -> Vec<Attribute> {
    vec![Attribute { path: Path::from_ident("railroad"), meta: Meta::List(items) }]
}

fn field(name: &str, line: usize, items: Vec<MetaItem>, ty: TypeDesc) -> Field {
    let attrs = if items.is_empty() { vec![] } else { config(items) };
    Field { name: name.to_string(), location: at(line), attrs, ty }
}

fn plain(name: &str, ty: TypeDesc) -> Field {
    field(name, 1, vec![], ty)
}

fn product(fields: Vec<Field>) -> DeriveInput {
    DeriveInput { attrs: vec![], ident: "Node".to_string(), data: Data::Struct(fields) }
}

fn children(derived: &Derivation) -> &Vec<Node> {
    match &derived.node {
        Node::Sequence(children) => children,
        Node::Choice(children) => children,
        other => panic!("neither a sequence nor a choice: {:?}", other),
    }
}

fn default_prefix() -> Path {
    Path { leading_colon: true, segments: vec!["ast_toolkit_2".to_string(), "railroad".to_string()] }
}

#[test]
fn product_type_is_a_sequence_of_its_fields_in_order() {
    let derived = railroad(&product(vec![
        plain("a", named("A")),
        plain("b", named("B")),
        plain("c", named("C")),
    ]))
    .unwrap();
    assert_eq!(derived.node, Node::Sequence(vec![terminal("A"), terminal("B"), terminal("C")]));
    assert_eq!(derived.nonterms, vec![]);
    assert_eq!(derived.prefix, default_prefix());
    assert_eq!(derived.label, "Node");
}

#[test]
fn product_type_without_fields_is_an_empty_sequence() {
    let derived = railroad(&product(vec![])).unwrap();
    assert_eq!(derived.node, Node::Sequence(vec![]));
    assert_eq!(derived.nonterms, vec![]);
}

#[test]
fn product_type_has_as_many_children_as_fields() {
    for n in 0..6 {
        let fields: Vec<Field> = (0..n).map(|i| plain(&format!("f{}", i), named(&format!("T{}", i)))).collect();
        let derived = railroad(&product(fields)).unwrap();
        assert!(matches!(derived.node, Node::Sequence(_)));
        assert_eq!(children(&derived).len(), n);
        for i in 0..n {
            assert_eq!(children(&derived)[i], terminal(&format!("T{}", i)));
        }
    }
}

#[test]
fn sum_type_is_a_choice_of_its_variants_in_order() {
    let input = DeriveInput {
        attrs: vec![],
        ident: "Stmt".to_string(),
        data: Data::Enum(vec![
            Variant { name: "Let".to_string(), fields: vec![plain("name", named("Ident")), plain("value", named("Expr"))] },
            Variant { name: "Nop".to_string(), fields: vec![] },
            Variant { name: "Ret".to_string(), fields: vec![plain("value", named("Expr"))] },
        ]),
    };
    let derived = railroad(&input).unwrap();
    assert_eq!(
        derived.node,
        Node::Choice(vec![
            Node::Sequence(vec![terminal("Ident"), terminal("Expr")]),
            Node::Empty,
            Node::Sequence(vec![terminal("Expr")]),
        ])
    );
    assert_eq!(derived.label, "Stmt");
}

#[test]
fn sum_type_without_variants_is_an_empty_choice() {
    let input = DeriveInput { attrs: vec![], ident: "Never".to_string(), data: Data::Enum(vec![]) };
    assert_eq!(railroad(&input).unwrap().node, Node::Choice(vec![]));
}

#[test]
fn optional_field_is_the_optional_form_of_the_inline_description() {
    let derived = railroad(&product(vec![
        field("other", 1, vec![marker("repeated"), comment("many")], named("Other")),
        plain("maybe", TypeDesc::Optional(Box::new(named("T")))),
        field("third", 3, vec![kind("nonterminal")], named("Third")),
    ]))
    .unwrap();
    assert_eq!(children(&derived)[1], Node::Optional(Box::new(terminal("T"))));
}

#[test]
fn repeated_field_is_the_repetition_of_the_inline_description() {
    let derived = railroad(&product(vec![
        plain("many", TypeDesc::Repeated(Box::new(named("T")))),
        field("other", 2, vec![marker("optional")], named("Other")),
    ]))
    .unwrap();
    assert_eq!(children(&derived)[0], Node::Repeat(Box::new(terminal("T")), Box::new(Node::Empty)));
    assert_eq!(children(&derived)[1], Node::Optional(Box::new(terminal("Other"))));
}

#[test]
fn transparent_field_is_drawn_as_what_it_holds() {
    let boxed = railroad(&product(vec![plain("a", TypeDesc::Transparent(Box::new(named("T"))))])).unwrap();
    let bare = railroad(&product(vec![plain("a", named("T"))])).unwrap();
    assert_eq!(boxed.node, bare.node);
    let boxed = railroad(&product(vec![field(
        "a",
        1,
        vec![kind("nonterminal")],
        TypeDesc::Transparent(Box::new(named("T"))),
    )]))
    .unwrap();
    let bare = railroad(&product(vec![field("a", 1, vec![kind("nonterminal")], named("T"))])).unwrap();
    assert_eq!(boxed, bare);
}

#[test]
fn manual_override_replaces_the_declared_layer() {
    let derived = railroad(&product(vec![
        field("a", 1, vec![marker("optional")], TypeDesc::Repeated(Box::new(named("T")))),
        field("b", 2, vec![marker("repeated")], TypeDesc::Optional(Box::new(named("T")))),
        field("c", 3, vec![marker("optional")], TypeDesc::Optional(Box::new(named("T")))),
        field("d", 4, vec![marker("optional"), marker("repeated")], named("T")),
    ]))
    .unwrap();
    let repeat = |n| Node::Repeat(Box::new(n), Box::new(Node::Empty));
    let option = |n| Node::Optional(Box::new(n));
    assert_eq!(
        derived.node,
        Node::Sequence(vec![
            option(terminal("T")),
            repeat(terminal("T")),
            option(terminal("T")),
            option(repeat(terminal("T"))),
        ])
    );
}

#[test]
fn comment_labels_a_terminal() {
    let derived = railroad(&product(vec![field("a", 1, vec![comment("the name")], named("Ident"))])).unwrap();
    assert_eq!(
        derived.node,
        Node::Sequence(vec![Node::Labeled(
            Box::new(terminal("Ident")),
            Box::new(Node::Comment("the name".to_string()))
        )])
    );
}

#[test]
fn nonterminal_is_a_reference_and_registers_a_track() {
    let derived = railroad(&product(vec![
        plain("kw", named("Let")),
        field("value", 2, vec![kind("nonterminal")], named("lang::Expr")),
    ]))
    .unwrap();
    assert_eq!(
        derived.node,
        Node::Sequence(vec![terminal("Let"), Node::NonTerminal("lang::Expr".to_string())])
    );
    assert_eq!(derived.nonterms, vec![("lang::Expr".to_string(), full("lang::Expr"))]);
}

#[test]
fn nonterminal_comment_replaces_the_text_of_the_reference() {
    let derived = railroad(&product(vec![field(
        "value",
        1,
        vec![kind("nonterminal"), comment("expression")],
        TypeDesc::Optional(Box::new(named("lang::Expr"))),
    )]))
    .unwrap();
    assert_eq!(
        derived.node,
        Node::Sequence(vec![Node::Optional(Box::new(Node::NonTerminal("expression".to_string())))])
    );
    assert_eq!(derived.nonterms, vec![("lang::Expr".to_string(), full("lang::Expr"))]);
}

#[test]
fn same_type_referred_to_twice_is_one_track() {
    let derived = railroad(&product(vec![
        field("lhs", 1, vec![kind("nonterminal")], named("Expr")),
        field("op", 2, vec![kind("nonterminal")], named("Op")),
        field("rhs", 3, vec![kind("nonterminal")], TypeDesc::Transparent(Box::new(named("Expr")))),
    ]))
    .unwrap();
    assert_eq!(children(&derived).len(), 3);
    assert_eq!(
        derived.nonterms,
        vec![("Expr".to_string(), full("Expr")), ("Op".to_string(), full("Op"))]
    );
}

#[test]
fn tracks_are_shared_between_variants() {
    let input = DeriveInput {
        attrs: vec![],
        ident: "E".to_string(),
        data: Data::Enum(vec![
            Variant { name: "A".to_string(), fields: vec![field("x", 1, vec![kind("nonterminal")], named("X"))] },
            Variant {
                name: "B".to_string(),
                fields: vec![
                    field("y", 2, vec![kind("nonterminal")], named("Y")),
                    field("x", 3, vec![kind("nonterminal")], named("X")),
                ],
            },
        ]),
    };
    let derived = railroad(&input).unwrap();
    assert_eq!(derived.nonterms, vec![("X".to_string(), full("X")), ("Y".to_string(), full("Y"))]);
}

#[test]
fn delimiter_field_stands_around_the_sibling_it_names() {
    let derived = railroad(&product(vec![
        field("parens", 1, vec![kind("args")], parens()),
        plain("args", TypeDesc::Repeated(Box::new(named("Arg")))),
    ]))
    .unwrap();
    assert_eq!(
        derived.node,
        Node::Sequence(vec![
            Node::Sequence(vec![
                terminal("("),
                Node::Repeat(Box::new(terminal("Arg")), Box::new(Node::Empty)),
                terminal(")"),
            ]),
            Node::Repeat(Box::new(terminal("Arg")), Box::new(Node::Empty)),
        ])
    );
    assert_eq!(derived.nonterms, vec![]);
}

#[test]
fn delimiter_field_takes_its_layers_comment_and_overrides() {
    let derived = railroad(&product(vec![
        plain("args", named("Arg")),
        field(
            "parens",
            2,
            vec![kind("args"), marker("optional"), comment("call")],
            TypeDesc::Transparent(Box::new(TypeDesc::Repeated(Box::new(parens())))),
        ),
    ]))
    .unwrap();
    let wrapped = Node::Sequence(vec![terminal("("), terminal("Arg"), terminal(")")]);
    assert_eq!(
        children(&derived)[1],
        Node::Labeled(
            Box::new(Node::Optional(Box::new(Node::Repeat(Box::new(wrapped), Box::new(Node::Empty))))),
            Box::new(Node::Comment("call".to_string()))
        )
    );
}

#[test]
fn delimiter_needs_contents_in_another_field_and_a_type_that_delimits() {
    let missing = railroad(&product(vec![field("parens", 4, vec![kind("args")], parens())]));
    assert_eq!(missing, Err(DeriveError::Malformed { key: "args".to_string(), location: at(4) }));
    let itself = railroad(&product(vec![field("parens", 5, vec![kind("parens")], parens())]));
    assert_eq!(itself, Err(DeriveError::Malformed { key: "parens".to_string(), location: at(5) }));
    let no_delimiter = railroad(&product(vec![
        plain("parens", parens()),
        field("args", 6, vec![kind("parens")], named("Arg")),
    ]));
    assert_eq!(no_delimiter, Err(DeriveError::Malformed { key: "parens".to_string(), location: at(6) }));
}

#[test]
fn union_is_an_unsupported_shape() {
    let input = DeriveInput {
        attrs: vec![],
        ident: "U".to_string(),
        data: Data::Union(Location { line: 12, column: 1 }),
    };
    assert_eq!(
        railroad(&input),
        Err(DeriveError::UnsupportedShape { location: Location { line: 12, column: 1 } })
    );
    let with_prefix = DeriveInput {
        attrs: config(vec![entry("prefix", MetaValue::Path(Path::from_ident("rr")))]),
        ident: "U".to_string(),
        data: Data::Union(Location { line: 3, column: 8 }),
    };
    assert_eq!(
        railroad(&with_prefix),
        Err(DeriveError::UnsupportedShape { location: Location { line: 3, column: 8 } })
    );
}

#[test]
fn configuration_is_resolved_before_the_shape() {
    let bogus = || {
        config(vec![MetaItem {
            key: Path::from_ident("bogus"),
            value: MetaValue::Expr("1".to_string()),
            location: Location { line: 2, column: 12 },
        }])
    };
    let expected = || {
        Err(DeriveError::UnknownAttribute { key: "bogus".to_string(), location: Location { line: 2, column: 12 } })
    };
    let shapes = vec![
        Data::Struct(vec![plain("a", named("A"))]),
        Data::Enum(vec![Variant { name: "V".to_string(), fields: vec![plain("a", named("A"))] }]),
        Data::Union(Location { line: 3, column: 8 }),
    ];
    for data in shapes {
        assert_eq!(railroad(&DeriveInput { attrs: bogus(), ident: "S".to_string(), data }), expected());
    }
    let malformed = DeriveInput {
        attrs: config(vec![entry("prefix", MetaValue::Absent)]),
        ident: "U".to_string(),
        data: Data::Union(Location { line: 3, column: 8 }),
    };
    assert_eq!(
        railroad(&malformed),
        Err(DeriveError::Malformed { key: "prefix".to_string(), location: Location { line: 1, column: 1 } })
    );
}

#[test]
fn unknown_toplevel_key_is_named() {
    let input = DeriveInput {
        attrs: config(vec![MetaItem {
            key: Path::from_ident("bogus"),
            value: MetaValue::Expr("1".to_string()),
            location: Location { line: 2, column: 12 },
        }]),
        ident: "S".to_string(),
        data: Data::Struct(vec![plain("a", named("A"))]),
    };
    assert_eq!(
        railroad(&input),
        Err(DeriveError::UnknownAttribute { key: "bogus".to_string(), location: Location { line: 2, column: 12 } })
    );
}

#[test]
fn unknown_field_key_is_named() {
    let derived = railroad(&product(vec![
        plain("a", named("A")),
        field("b", 2, vec![entry("bogus", MetaValue::Expr("1".to_string()))], named("B")),
        field("c", 3, vec![entry("kind", MetaValue::Absent)], named("C")),
    ]));
    assert_eq!(
        derived,
        Err(DeriveError::UnknownAttribute { key: "bogus".to_string(), location: Location { line: 1, column: 1 } })
    );
}

#[test]
fn errors_in_a_variant_fail_the_sum_type() {
    let input = DeriveInput {
        attrs: vec![],
        ident: "E".to_string(),
        data: Data::Enum(vec![
            Variant { name: "A".to_string(), fields: vec![plain("x", named("X"))] },
            Variant { name: "B".to_string(), fields: vec![field("y", 2, vec![marker("bogus")], named("Y"))] },
        ]),
    };
    assert_eq!(
        railroad(&input),
        Err(DeriveError::UnknownAttribute { key: "bogus".to_string(), location: Location { line: 1, column: 1 } })
    );
}

#[test]
fn prefix_is_resolved() {
    let input = DeriveInput {
        attrs: config(vec![entry(
            "prefix",
            MetaValue::Path(Path { leading_colon: true, segments: vec!["my".to_string(), "rr".to_string()] }),
        )]),
        ident: "S".to_string(),
        data: Data::Struct(vec![]),
    };
    assert_eq!(
        railroad(&input).unwrap().prefix,
        Path { leading_colon: true, segments: vec!["my".to_string(), "rr".to_string()] }
    );
}

#[test]
fn find_field_gives_the_first_with_the_name() {
    let fields = vec![plain("a", named("A")), plain("b", named("B")), plain("a", named("C"))];
    assert_eq!(find_field(&fields, &"a".to_string()), Some(0));
    assert_eq!(find_field(&fields, &"b".to_string()), Some(1));
    assert_eq!(find_field(&fields, &"c".to_string()), None);
    assert_eq!(find_field(&vec![], &"a".to_string()), None);
}

#[test]
fn register_track_drops_a_label_that_is_there() {
    let mut tracks = vec![("A".to_string(), terminal("a"))];
    register_track(&mut tracks, None);
    assert_eq!(tracks, vec![("A".to_string(), terminal("a"))]);
    register_track(&mut tracks, Some(("B".to_string(), terminal("b"))));
    register_track(&mut tracks, Some(("A".to_string(), terminal("other"))));
    register_track(&mut tracks, Some(("B".to_string(), terminal("b"))));
    assert_eq!(tracks, vec![("A".to_string(), terminal("a")), ("B".to_string(), terminal("b"))]);
}

#[test]
fn field_struct_and_enum_builders_agree_with_the_derivation() {
    let fields = vec![plain("a", named("A")), field("b", 2, vec![kind("nonterminal")], named("B"))];
    assert_eq!(
        generate_fields_railroad_expr(&fields, vec![]),
        Ok((
            vec![terminal("A"), Node::NonTerminal("B".to_string())],
            vec![("B".to_string(), full("B"))]
        ))
    );
    let known = vec![("Z".to_string(), terminal("z"))];
    assert_eq!(
        generate_struct_railroad_expr(&fields, known),
        Ok((
            Node::Sequence(vec![terminal("A"), Node::NonTerminal("B".to_string())]),
            vec![("Z".to_string(), terminal("z")), ("B".to_string(), full("B"))]
        ))
    );
    let variants = vec![Variant { name: "V".to_string(), fields }];
    assert_eq!(
        generate_enum_railroad_expr(&variants, vec![]),
        Ok((
            Node::Choice(vec![Node::Sequence(vec![terminal("A"), Node::NonTerminal("B".to_string())])]),
            vec![("B".to_string(), full("B"))]
        ))
    );
}

#[test]
fn derivation_becomes_a_diagram_and_a_type() {
    let derived = railroad(&product(vec![
        plain("kw", named("Let")),
        field("value", 2, vec![kind("nonterminal")], named("Expr")),
    ]))
    .unwrap();
    let node = Node::Sequence(vec![terminal("Let"), Node::NonTerminal("Expr".to_string())]);
    let mut expected = Diagram::new(node.duplicate());
    expected.add_nonterm("Expr".to_string(), full("Expr"));
    assert_eq!(derived.into_diagram(), expected);
    let derived = railroad(&product(vec![plain("kw", named("Let"))])).unwrap();
    assert_eq!(
        derived.into_type(),
        TypeDesc::Named {
            label: "Node".to_string(),
            full: Node::Sequence(vec![terminal("Let")]),
            inline: Node::Sequence(vec![terminal("Let")]),
            delim: None,
        }
    );
}
