use pg_syntax_kinds::derive::{custom_handlers, get_node_properties, Implied};
use pg_syntax_kinds::node::{
    kind_of_node, AExpr, AlterTableCmd, AstNode, BoolExpr, Boolean, CaseExpr, Constraint, CreateStmt, DefElem,
    DeleteStmt, FieldValue, FuncCall, FunctionParameter, Integer, JoinExpr, NodeEnum, NullTest, ResTarget,
    SelectStmt, SortBy, SqlvalueFunction, VariableSetStmt, ViewStmt,
};
use pg_syntax_kinds::property::TokenProperty;
use pg_syntax_kinds::registry::{
    custom_node_names, CoverageError, Discriminant, FieldDescriptor, FieldType, KindRegistry, NodeDescriptor,
    SyntaxKind, TokenDescriptor,
};
use pg_syntax_kinds::token::Token;

const KEYWORDS: [(&str, Token); 30] = [
    ("Select", Token::Select),
    ("Distinct", Token::Distinct),
    ("Values", Token::Values),
    ("From", Token::From),
    ("Where", Token::Where),
    ("GroupP", Token::GroupP),
    ("By", Token::By),
    ("And", Token::And),
    ("Or", Token::Or),
    ("Not", Token::Not),
    ("Join", Token::Join),
    ("On", Token::On),
    ("InnerP", Token::InnerP),
    ("Left", Token::Left),
    ("Full", Token::Full),
    ("Right", Token::Right),
    ("As", Token::As),
    ("Iconst", Token::Iconst),
    ("TrueP", Token::TrueP),
    ("FalseP", Token::FalseP),
    ("Ascii42", Token::Ascii42),
    ("Is", Token::Is),
    ("NullP", Token::NullP),
    ("Create", Token::Create),
    ("Table", Token::Table),
    ("IfP", Token::IfP),
    ("Exists", Token::Exists),
    ("Over", Token::Over),
    ("InP", Token::InP),
    ("Default", Token::Default),
];

fn field(name: &str, field_type: FieldType, repeated: bool) -> FieldDescriptor {
    FieldDescriptor { name: name.to_string(), field_type, repeated }
}

fn node_descriptors() -> Vec<NodeDescriptor> {
    vec![
        NodeDescriptor {
            name: "SelectStmt".to_string(),
            fields: vec![
                field("distinct_clause", FieldType::Message, true),
                field("from_clause", FieldType::Message, true),
                field("all", FieldType::Bool, false),
            ],
        },
        NodeDescriptor { name: "BoolExpr".to_string(), fields: vec![field("boolop", FieldType::Enum, false)] },
        NodeDescriptor {
            name: "ResTarget".to_string(),
            fields: vec![
                field("name", FieldType::String, false),
                field("indirection", FieldType::Message, true),
                field("location", FieldType::Int32, false),
            ],
        },
        NodeDescriptor { name: "Integer".to_string(), fields: vec![field("ival", FieldType::Int32, false)] },
        NodeDescriptor { name: "Boolean".to_string(), fields: vec![field("boolval", FieldType::Bool, false)] },
        NodeDescriptor {
            name: "String".to_string(),
            fields: vec![field("sval", FieldType::String, false)],
        },
    ]
}

fn registry() -> KindRegistry {
    let tokens: Vec<TokenDescriptor> =
        KEYWORDS.iter().map(|(n, t)| TokenDescriptor { name: n.to_string(), value: t.code() }).collect();
    KindRegistry::build_registry(&custom_node_names(), &node_descriptors(), &tokens).unwrap()
}

fn kind(reg: &KindRegistry, name: &str) -> SyntaxKind {
    reg.kind_of(&name.to_string()).unwrap()
}

fn keyword(reg: &KindRegistry, name: &str) -> TokenProperty {
    TokenProperty::from_kind(kind(reg, name))
}

fn empty_select() -> SelectStmt {
    SelectStmt {
        distinct_clause: 0,
        values_lists: 0,
        from_clause: 0,
        where_clause: false,
        group_clause: 0,
        op: 1,
        all: false,
    }
}

fn select_node(s: SelectStmt) -> AstNode {
    AstNode { node: NodeEnum::SelectStmt(s), fields: vec![FieldValue::Nested, FieldValue::Nested, FieldValue::Bool(false)] }
}

fn derive(reg: &KindRegistry, node: &AstNode) -> Result<Vec<TokenProperty>, CoverageError> {
    let descs = node_descriptors();
    let name = node.node.node_type_name();
    let desc = descs.iter().find(|d| d.name == name).cloned().unwrap_or(NodeDescriptor { name, fields: vec![] });
    get_node_properties(reg, &desc, node)
}

fn test_get_node_properties(node: AstNode, kind_name: &str, expected: Vec<TokenProperty>) {
    let reg = registry();
    assert_eq!(kind_of_node(&reg, &node).unwrap(), kind(&reg, kind_name));
    assert_eq!(derive(&reg, &node).unwrap(), expected);
}

#[test]
fn test_simple_select() {
    let reg = registry();
    test_get_node_properties(select_node(empty_select()), "SelectStmt", vec![keyword(&reg, "Select")])
}

#[test]
fn test_select_with_from() {
    let reg = registry();
    let s = SelectStmt { from_clause: 1, ..empty_select() };
    test_get_node_properties(select_node(s), "SelectStmt", vec![keyword(&reg, "Select"), keyword(&reg, "From")])
}

#[test]
fn select_with_every_clause_in_source_order() {
    let reg = registry();
    let s = SelectStmt { distinct_clause: 1, values_lists: 2, from_clause: 1, where_clause: true, group_clause: 3, ..empty_select() };
    let names = ["Select", "Distinct", "Values", "From", "Where", "GroupP", "By"];
    let expected: Vec<TokenProperty> = names.iter().map(|n| keyword(&reg, n)).collect();
    assert_eq!(derive(&reg, &select_node(s)).unwrap(), expected);
}

#[test]
fn group_by_is_group_then_by() {
    let reg = registry();
    for (where_clause, from_clause) in [(false, 0), (true, 2)] {
        let s = SelectStmt { group_clause: 1, where_clause, from_clause, ..empty_select() };
        let props = derive(&reg, &select_node(s)).unwrap();
        let n = props.len();
        assert_eq!(props[n - 2], keyword(&reg, "GroupP"));
        assert_eq!(props[n - 1], keyword(&reg, "By"));
    }
}

#[test]
fn boolean_operator_codes() {
    let reg = registry();
    for (code, name) in [(1, "And"), (2, "Or"), (3, "Not")] {
        let node = AstNode { node: NodeEnum::BoolExpr(BoolExpr { boolop: code }), fields: vec![FieldValue::Int(code as i64)] };
        assert_eq!(derive(&reg, &node).unwrap(), vec![keyword(&reg, name)]);
    }
    for code in [0, 4, -1] {
        let node = AstNode { node: NodeEnum::BoolExpr(BoolExpr { boolop: code }), fields: vec![] };
        match derive(&reg, &node) {
            Err(CoverageError::UnknownDiscriminant { field, value }) => {
                assert_eq!(field, Discriminant::BoolExprOp);
                assert_eq!(value, code);
            }
            other => panic!("expected a coverage error, got {:?}", other),
        }
    }
}

#[test]
fn join_type_codes() {
    for (code, last) in [(1, Token::InnerP), (2, Token::Left), (3, Token::Full), (4, Token::Right)] {
        let r = custom_handlers(&NodeEnum::JoinExpr(JoinExpr { jointype: code })).unwrap();
        assert_eq!(r, vec![Implied::Keyword(last), Implied::Keyword(Token::Join), Implied::Keyword(Token::On)]);
    }
    assert!(matches!(
        custom_handlers(&NodeEnum::JoinExpr(JoinExpr { jointype: 5 })),
        Err(CoverageError::UnknownDiscriminant { field: Discriminant::JoinExprType, value: 5 })
    ));
}

#[test]
fn covered_discriminants_raise_no_error() {
    let ok = |n: NodeEnum| custom_handlers(&n).is_ok();
    for v in 1..=3 {
        assert!(ok(NodeEnum::BoolExpr(BoolExpr { boolop: v })));
    }
    for v in 1..=4 {
        assert!(ok(NodeEnum::JoinExpr(JoinExpr { jointype: v })));
        assert!(ok(NodeEnum::DefElem(DefElem { defaction: v })));
        assert!(ok(NodeEnum::SortBy(SortBy { sortby_dir: v })));
        assert!(ok(NodeEnum::SelectStmt(SelectStmt { op: v, ..empty_select() })));
    }
    for v in 1..=14 {
        assert!(ok(NodeEnum::AExpr(AExpr { kind: v })));
        assert!(ok(NodeEnum::Constraint(Constraint { contype: v })));
    }
    for v in 1..=15 {
        assert!(ok(NodeEnum::SqlvalueFunction(SqlvalueFunction { op: v })));
    }
    for v in 1..=67 {
        assert!(ok(NodeEnum::AlterTableCmd(AlterTableCmd { subtype: v })));
    }
    for v in 1..=6 {
        assert!(ok(NodeEnum::VariableSetStmt(VariableSetStmt { kind: v })));
        assert!(ok(NodeEnum::FunctionParameter(FunctionParameter { mode: v, defexpr: false })));
    }
    for v in 1..=2 {
        assert!(ok(NodeEnum::NullTest(NullTest { nulltesttype: v })));
    }
}

#[test]
fn values_outside_the_grammar_raise_coverage_errors() {
    let err = |n: NodeEnum| custom_handlers(&n).is_err();
    assert!(err(NodeEnum::AExpr(AExpr { kind: 0 })));
    assert!(err(NodeEnum::AExpr(AExpr { kind: 15 })));
    assert!(err(NodeEnum::SqlvalueFunction(SqlvalueFunction { op: 16 })));
    assert!(err(NodeEnum::Constraint(Constraint { contype: 15 })));
    assert!(err(NodeEnum::AlterTableCmd(AlterTableCmd { subtype: 68 })));
    assert!(err(NodeEnum::VariableSetStmt(VariableSetStmt { kind: 7 })));
    assert!(err(NodeEnum::DefElem(DefElem { defaction: 0 })));
    assert!(err(NodeEnum::NullTest(NullTest { nulltesttype: 0 })));
    assert!(err(NodeEnum::FunctionParameter(FunctionParameter { mode: 7, defexpr: true })));
    assert!(err(NodeEnum::SelectStmt(SelectStmt { op: 0, ..empty_select() })));
    assert!(matches!(
        custom_handlers(&NodeEnum::SortBy(SortBy { sortby_dir: 5 })),
        Err(CoverageError::UnknownDiscriminant { field: Discriminant::SortByDir, value: 5 })
    ));
    assert!(matches!(
        custom_handlers(&NodeEnum::SortBy(SortBy { sortby_dir: 0 })),
        Err(CoverageError::UnknownDiscriminant { field: Discriminant::SortByDir, value: 0 })
    ));
}

fn keywords(tokens: &[Token]) -> Vec<Implied> {
    tokens.iter().map(|t| Implied::Keyword(*t)).collect()
}

#[test]
fn sort_directions() {
    let dir = |v: i32| custom_handlers(&NodeEnum::SortBy(SortBy { sortby_dir: v })).unwrap();
    assert_eq!(dir(1), keywords(&[Token::Order, Token::By]));
    assert_eq!(dir(2), keywords(&[Token::Order, Token::By, Token::Asc]));
    assert_eq!(dir(3), keywords(&[Token::Order, Token::By, Token::Desc]));
    assert_eq!(dir(4), keywords(&[Token::Order, Token::By, Token::Using]));
}

#[test]
fn set_operations() {
    let op = |v: i32, all: bool| custom_handlers(&NodeEnum::SelectStmt(SelectStmt { op: v, all, ..empty_select() })).unwrap();
    assert_eq!(op(2, false), keywords(&[Token::Union]));
    assert_eq!(op(2, true), keywords(&[Token::Union, Token::All]));
    assert_eq!(op(3, false), keywords(&[Token::Intersect]));
    assert_eq!(op(4, true), keywords(&[Token::Except, Token::All]));
}

#[test]
fn operator_expression_kinds() {
    let k = |v: i32| custom_handlers(&NodeEnum::AExpr(AExpr { kind: v })).unwrap();
    assert_eq!(k(1), keywords(&[]));
    assert_eq!(k(5), keywords(&[Token::Is, Token::Not, Token::Distinct, Token::From]));
    assert_eq!(k(8), keywords(&[Token::Like]));
    assert_eq!(k(14), keywords(&[Token::Not, Token::Between, Token::Symmetric, Token::And]));
}

#[test]
fn statements_in_source_order() {
    let v = ViewStmt { query: true, replace: true };
    assert_eq!(
        custom_handlers(&NodeEnum::ViewStmt(v)).unwrap(),
        keywords(&[Token::Create, Token::Or, Token::Replace, Token::View, Token::As])
    );
    let d = DeleteStmt { where_clause: true, using_clause: 1 };
    assert_eq!(
        custom_handlers(&NodeEnum::DeleteStmt(d)).unwrap(),
        keywords(&[Token::DeleteP, Token::From, Token::Using, Token::Where])
    );
    let c = CaseExpr { defresult: true };
    assert_eq!(custom_handlers(&NodeEnum::CaseExpr(c)).unwrap(), keywords(&[Token::Case, Token::Else, Token::EndP]));
    let c = AlterTableCmd { subtype: 26 };
    assert_eq!(
        custom_handlers(&NodeEnum::AlterTableCmd(c)).unwrap(),
        keywords(&[Token::Alter, Token::Column, Token::TypeP])
    );
    let c = VariableSetStmt { kind: 6 };
    assert_eq!(custom_handlers(&NodeEnum::VariableSetStmt(c)).unwrap(), keywords(&[Token::Reset, Token::All]));
}

#[test]
fn function_parameter_default_follows_mode() {
    let p = FunctionParameter { mode: 6, defexpr: true };
    assert_eq!(custom_handlers(&NodeEnum::FunctionParameter(p)).unwrap(), vec![Implied::Keyword(Token::Default)]);
    let p = FunctionParameter { mode: 1, defexpr: true };
    assert_eq!(
        custom_handlers(&NodeEnum::FunctionParameter(p)).unwrap(),
        vec![Implied::Keyword(Token::InP), Implied::Keyword(Token::Default)]
    );
}

#[test]
fn null_test_keywords() {
    let r = custom_handlers(&NodeEnum::NullTest(NullTest { nulltesttype: 2 })).unwrap();
    assert_eq!(r, vec![Implied::Keyword(Token::Is), Implied::Keyword(Token::Not), Implied::Keyword(Token::NullP)]);
}

#[test]
fn create_table_if_not_exists() {
    let c = CreateStmt { tablespacename: String::new(), options: 0, if_not_exists: true, partbound: false };
    let r = custom_handlers(&NodeEnum::CreateStmt(c)).unwrap();
    let names = [Token::Create, Token::Table, Token::IfP, Token::Not, Token::Exists];
    assert_eq!(r, names.iter().map(|t| Implied::Keyword(*t)).collect::<Vec<_>>());
}

#[test]
fn count_star_implies_wildcard() {
    let f = FuncCall { funcname: vec![Some("count".to_string())], args: 0, agg_filter: false, over: true };
    let r = custom_handlers(&NodeEnum::FuncCall(f)).unwrap();
    assert_eq!(r, vec![Implied::Keyword(Token::Ascii42), Implied::Keyword(Token::Over)]);
    let f = FuncCall { funcname: vec![Some("sum".to_string())], args: 0, agg_filter: false, over: false };
    assert!(custom_handlers(&NodeEnum::FuncCall(f)).unwrap().is_empty());
    let f = FuncCall { funcname: vec![Some("count".to_string())], args: 1, agg_filter: false, over: false };
    assert!(custom_handlers(&NodeEnum::FuncCall(f)).unwrap().is_empty());
}

#[test]
fn generic_text_field() {
    let reg = registry();
    let with_name = AstNode {
        node: NodeEnum::ResTarget(ResTarget { name: "Foo".to_string() }),
        fields: vec![FieldValue::Text("Foo".to_string()), FieldValue::Nested, FieldValue::Int(7)],
    };
    let props = derive(&reg, &with_name).unwrap();
    assert_eq!(props, vec![keyword(&reg, "As"), TokenProperty::new(Some("foo".to_string()), None).unwrap()]);
    let without = AstNode {
        node: NodeEnum::ResTarget(ResTarget { name: String::new() }),
        fields: vec![FieldValue::Text(String::new()), FieldValue::Nested, FieldValue::Int(7)],
    };
    assert!(derive(&reg, &without).unwrap().is_empty());
}

#[test]
fn generic_pass_skips_repeated_and_other_fields() {
    let reg = registry();
    let desc = NodeDescriptor {
        name: "Thing".to_string(),
        fields: vec![
            field("a", FieldType::String, true),
            field("b", FieldType::Int32, false),
            field("c", FieldType::String, false),
            field("d", FieldType::String, false),
        ],
    };
    let node = AstNode {
        node: NodeEnum::Other("Thing".to_string()),
        fields: vec![
            FieldValue::Text("Skip".to_string()),
            FieldValue::Text("Nope".to_string()),
            FieldValue::Text("MiXed".to_string()),
            FieldValue::Text("ABC".to_string()),
        ],
    };
    let props = get_node_properties(&reg, &desc, &node).unwrap();
    let expected: Vec<TokenProperty> =
        ["mixed", "abc"].iter().map(|s| TokenProperty::from_text(s.to_string()).unwrap()).collect();
    assert_eq!(props, expected);
}

#[test]
fn literals_carry_spelling_and_kind() {
    let reg = registry();
    let node = AstNode { node: NodeEnum::Integer(Integer { ival: -42 }), fields: vec![FieldValue::Int(-42)] };
    let props = derive(&reg, &node).unwrap();
    assert_eq!(props, vec![TokenProperty::new(Some("-42".to_string()), Some(kind(&reg, "Iconst"))).unwrap()]);
    let node = AstNode { node: NodeEnum::Boolean(Boolean { boolval: false }), fields: vec![FieldValue::Bool(false)] };
    let props = derive(&reg, &node).unwrap();
    assert_eq!(props, vec![TokenProperty::new(Some("false".to_string()), Some(kind(&reg, "FalseP"))).unwrap()]);
}

#[test]
fn unregistered_keyword_is_a_coverage_error() {
    let reg = registry();
    let node = AstNode { node: NodeEnum::Alias, fields: vec![] };
    assert!(derive(&reg, &node).is_ok());
    let node = AstNode { node: NodeEnum::CollateClause, fields: vec![] };
    match derive(&reg, &node) {
        Err(CoverageError::UnknownToken { code }) => assert_eq!(code, Token::Collate.code()),
        other => panic!("expected an unknown token, got {:?}", other),
    }
}

#[test]
fn derivation_twice_is_identical() {
    let reg = registry();
    let s = SelectStmt { where_clause: true, group_clause: 1, ..empty_select() };
    let node = select_node(s);
    assert_eq!(derive(&reg, &node).unwrap(), derive(&reg, &node).unwrap());
}

#[test]
fn classifier_names_node_kinds() {
    let reg = registry();
    let node = AstNode { node: NodeEnum::Other("String".to_string()), fields: vec![] };
    assert_eq!(kind_of_node(&reg, &node).unwrap(), kind(&reg, "String"));
    let node = AstNode { node: NodeEnum::AStar, fields: vec![] };
    match kind_of_node(&reg, &node) {
        Err(CoverageError::UnknownNode { name }) => assert_eq!(name, "AStar"),
        other => panic!("expected an unknown node, got {:?}", other),
    }
}
