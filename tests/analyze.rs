use cargo_darwin::analyze::get_mutations_for_file;

fn reasons(source: &str) -> Vec<String> {
    let content = source.to_string();
    let path = "/project/src/lib.rs".to_string();
    get_mutations_for_file(&content, &path)
        .unwrap()
        .iter()
        .map(|m| m.reason.clone())
        .collect()
}

#[test]
fn catalog_of_subtraction() {
    assert_eq!(
        reasons("fn f(x:i8,y:i8)->i8 { x - y }"),
        vec!["replace - by +", "replace - by *", "replace - by &&"]
    );
}

#[test]
fn catalog_of_addition() {
    assert_eq!(
        reasons("fn g(x:i8,y:i8)->i8 { x + y }"),
        vec!["replace + by -", "replace + by *"]
    );
}

fn mutations(source: &str) -> Vec<cargo_darwin::mutation::Mutation> {
    get_mutations_for_file(&source.to_string(), &"/project/src/lib.rs".to_string()).unwrap()
}

#[test]
fn catalog_sites_point_at_the_operator() {
    let source = "fn f(x:i8,y:i8)->i8 { x - y }";
    let found = mutations(source);
    let offset = source.find(" - ").unwrap() + 1;
    assert_eq!(found.len(), 3);
    let replacements: Vec<&str> = found.iter().map(|m| m.mutation.as_str()).collect();
    assert_eq!(replacements, vec!["+", "*", "&&"]);
    for m in &found {
        assert_eq!(m.chunk.start, offset);
        assert_eq!(m.chunk.end, offset + 1);
        assert_eq!(m.chunk.start_point.row, 0);
        assert_eq!(m.chunk.start_point.column, offset);
        assert_eq!(m.function_name, "f");
        assert_eq!(m.get_file_path().unwrap(), "/project/src/lib.rs");
    }
    assert_eq!(
        found[2].get_mutated_file().unwrap(),
        "fn f(x:i8,y:i8)->i8 { x && y }"
    );
}

#[test]
fn reparse_finds_replacement_at_same_offset() {
    let source = "fn f(x:i8,y:i8)->i8 { x - y }";
    let offset = source.find(" - ").unwrap() + 1;
    let first = mutations(source);
    let patched = first[0].get_mutated_file().unwrap().clone();
    assert_eq!(&patched[offset..offset + 1], "+");
    let again = mutations(&patched);
    assert_eq!(again.len(), 2);
    assert_eq!(again[0].chunk.start, offset);
    assert_eq!(again[0].reason, "replace + by -");
}

#[test]
fn test_function_is_excluded() {
    assert!(reasons("#[test]\nfn t() { assert_eq!(1 + 2, 3) }\n#[test]\nfn u() -> i8 { 1 + 2 }").is_empty());
}

#[test]
fn async_test_function_is_excluded() {
    assert!(reasons("#[tokio::test]\nasync fn t() -> i8 { 5 - 2 }").is_empty());
}

#[test]
fn other_attribute_keeps_function() {
    assert_eq!(
        reasons("#[inline]\nfn g(x:i8,y:i8)->i8 { x + y }"),
        vec!["replace + by -", "replace + by *"]
    );
}

#[test]
fn only_the_attribute_right_before_counts() {
    assert_eq!(
        reasons("#[test]\n#[inline]\nfn g(x:i8,y:i8)->i8 { x + y }"),
        vec!["replace + by -", "replace + by *"]
    );
}

#[test]
fn nested_expressions_inner_first() {
    assert_eq!(
        reasons("fn h(a:i8,b:i8,c:i8)->i8 { a + b - c }"),
        vec![
            "replace + by -",
            "replace + by *",
            "replace - by +",
            "replace - by *",
            "replace - by &&"
        ]
    );
}

#[test]
fn other_operators_and_items_yield_nothing() {
    assert!(reasons("const X: usize = 1 + 2;\nfn m(a:i8)->i8 { a * 2 }").is_empty());
}

#[test]
fn functions_in_document_order() {
    let found = mutations("fn a(x:i8)->i8 { x + 1 }\nfn b(x:i8)->i8 { x - 1 }");
    let names: Vec<&str> = found.iter().map(|m| m.function_name.as_str()).collect();
    assert_eq!(names, vec!["a", "a", "b", "b", "b"]);
    assert_eq!(found[2].chunk.start_point.row, 1);
}

#[test]
fn only_production_function_of_sample_file() {
    let source = "const X: usize = 1589;\n\nfn sub(x: i8, y: i8) -> i8 {\n    let u = 8;\n    x - y\n}\n\n#[test]\nfn test_sub() {\n    assert_eq!(sub(5, 2), 3)\n}\n\n#[tokio::test]\nasync fn async_test_sub() {\n    assert_eq!(sub(5, 2), 3)\n}\n";
    let found = mutations(source);
    assert_eq!(found.len(), 3);
    assert!(found.iter().all(|m| m.function_name == "sub"));
    assert_eq!(found[0].chunk.start_point.row, 4);
    assert_eq!(found[0].chunk.start_point.column, 6);
}

#[test]
fn sites_inside_statements_are_found() {
    assert_eq!(
        reasons("fn f(x:i8,y:i8)->i8 { let z = x + y; z - 1 }"),
        vec![
            "replace + by -",
            "replace + by *",
            "replace - by +",
            "replace - by *",
            "replace - by &&"
        ]
    );
}

#[test]
fn async_test_with_arguments_is_excluded() {
    assert!(reasons("#[tokio::test(flavor = \"multi_thread\")]\nasync fn t() -> i8 { 5 - 2 }").is_empty());
}

#[test]
fn unary_minus_is_no_site() {
    assert!(reasons("fn n(x:i8)->i8 { -x }").is_empty());
}
