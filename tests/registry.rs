use pg_syntax_kinds::registry::{
    custom_node_names, find_duplicate, node_identifiers, node_names, token_identifiers, token_value_literals,
    CoverageError, KindOrigin, KindRegistry, NodeDescriptor, RegistryError, SyntaxKind, TokenDescriptor,
};

fn nodes(names: &[&str]) -> Vec<NodeDescriptor> {
    names.iter().map(|n| NodeDescriptor { name: n.to_string(), fields: vec![] }).collect()
}

fn tokens(pairs: &[(&str, i32)]) -> Vec<TokenDescriptor> {
    pairs.iter().map(|(n, v)| TokenDescriptor { name: n.to_string(), value: *v }).collect()
}

fn strings(names: &[&str]) -> Vec<String> {
    names.iter().map(|n| n.to_string()).collect()
}

#[test]
fn synthetic_kinds_come_first() {
    assert_eq!(custom_node_names(), vec!["SourceFile", "Comment", "Whitespace", "Newline", "Tab", "Stmt"]);
    let reg = KindRegistry::build_registry(&custom_node_names(), &nodes(&["SelectStmt"]), &tokens(&[("Select", 651)]))
        .unwrap();
    assert_eq!(reg.len(), 8);
    assert_eq!(reg.kind_of(&"SourceFile".to_string()), Some(SyntaxKind { code: 0 }));
    assert_eq!(reg.kind_of(&"Stmt".to_string()), Some(SyntaxKind { code: 5 }));
    assert_eq!(reg.kind_of(&"SelectStmt".to_string()), Some(SyntaxKind { code: 6 }));
    assert_eq!(reg.kind_of(&"Select".to_string()), Some(SyntaxKind { code: 7 }));
    assert_eq!(reg.entry(SyntaxKind { code: 7 }).token_code, Some(651));
    assert_eq!(reg.kind_of(&"Missing".to_string()), None);
}

#[test]
fn every_name_resolves_to_one_distinct_kind() {
    let reg = KindRegistry::build_registry(
        &vec!["A", "B"],
        &nodes(&["C", "A", "D"]),
        &tokens(&[("E", 1), ("D", 2), ("B", 3), ("F", 4)]),
    )
    .unwrap();
    let names = ["A", "B", "C", "D", "E", "F"];
    assert_eq!(reg.len(), names.len());
    let mut codes: Vec<u32> = names.iter().map(|n| reg.kind_of(&n.to_string()).unwrap().code).collect();
    codes.sort();
    codes.dedup();
    assert_eq!(codes.len(), names.len());
}

#[test]
fn node_name_beats_token_name() {
    let reg =
        KindRegistry::build_registry(&vec![], &nodes(&["Integer", "String"]), &tokens(&[("Integer", 266), ("Iconst", 266)]))
            .unwrap();
    let k = reg.kind_of(&"Integer".to_string()).unwrap();
    assert_eq!(reg.entry(k).origin, KindOrigin::Node);
    assert_eq!(reg.entry(k).token_code, None);
    let t = reg.kind_of_token(266).unwrap();
    assert_eq!(reg.entry(t).name, "Iconst");
    assert_eq!(reg.len(), 3);
}

#[test]
fn synthetic_name_beats_node_name() {
    let reg = KindRegistry::build_registry(&vec!["Stmt"], &nodes(&["Stmt", "RawStmt"]), &tokens(&[])).unwrap();
    let k = reg.kind_of(&"Stmt".to_string()).unwrap();
    assert_eq!(reg.entry(k).origin, KindOrigin::Custom);
    assert_eq!(reg.len(), 2);
}

#[test]
fn duplicate_within_a_category_is_refused() {
    let r = KindRegistry::build_registry(&vec!["Tab", "Tab"], &nodes(&[]), &tokens(&[]));
    assert!(matches!(r, Err(RegistryError::DuplicateCustomName(ref n)) if n == "Tab"));
    let r = KindRegistry::build_registry(&vec![], &nodes(&["A", "B", "A"]), &tokens(&[]));
    assert!(matches!(r, Err(RegistryError::DuplicateNodeName(ref n)) if n == "A"));
    let r = KindRegistry::build_registry(&vec![], &nodes(&["A"]), &tokens(&[("T", 1), ("T", 2)]));
    assert!(matches!(r, Err(RegistryError::DuplicateTokenName(ref n)) if n == "T"));
}

#[test]
fn unknown_token_code_is_refused() {
    let reg = KindRegistry::build_registry(&vec![], &nodes(&[]), &tokens(&[("Select", 651)])).unwrap();
    assert_eq!(reg.kind_of_token(651).unwrap(), SyntaxKind { code: 0 });
    assert!(matches!(reg.kind_of_token(7), Err(CoverageError::UnknownToken { code: 7 })));
}

#[test]
fn filters_drop_claimed_names() {
    let ns = nodes(&["A", "B", "C"]);
    assert_eq!(node_names(&ns), strings(&["A", "B", "C"]));
    assert_eq!(node_identifiers(&ns, &strings(&["B"])), strings(&["A", "C"]));
    let ts = tokens(&[("A", 1), ("X", 2), ("C", 3), ("Y", 4)]);
    assert_eq!(token_identifiers(&ts, &strings(&["A", "C"])), strings(&["X", "Y"]));
    assert_eq!(token_value_literals(&ts, &strings(&["A", "C"])), vec![2, 4]);
}

#[test]
fn duplicates_are_found() {
    assert_eq!(find_duplicate(&strings(&["a", "b", "c"])), None);
    assert_eq!(find_duplicate(&strings(&["a", "b", "a", "b"])), Some("a".to_string()));
    assert_eq!(find_duplicate(&strings(&[])), None);
}
