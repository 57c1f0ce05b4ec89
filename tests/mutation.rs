use cargo_darwin::mutation::{Mutation, MutationChunk};

#[test]
fn test_mutation_in_place() {
    let file = r#"Hello, world"#.to_string();
    let mut mutation = Mutation::new("|", MutationChunk::new_chunk(5..6));
    mutation.mutate_file(&file);
    assert_eq!(
        mutation.get_mutated_file().unwrap(),
        &r#"Hello| world"#.to_string()
    );
}

#[test]
fn test_mutation_insert() {
    let file = r#"Hello, world"#.to_string();
    let mut mutation = Mutation::new("|||", MutationChunk::new_chunk(5..6));
    mutation.mutate_file(&file);
    assert_eq!(
        mutation.get_mutated_file().unwrap(),
        &r#"Hello||| world"#.to_string()
    );
}

#[test]
fn test_let_assign() {
    let file = r#"let x = 666;"#.to_string();
    let mut mutation = Mutation::new("42", MutationChunk::new_chunk(8..11));
    mutation.mutate_file(&file);
    assert_eq!(
        mutation.get_mutated_file().unwrap(),
        &r#"let x = 42;"#.to_string()
    );
}

#[test]
fn patch_keeps_text_around_chunk() {
    let file = "héllo - wörld".to_string();
    let start = "héllo ".len();
    let mut mutation = Mutation::new("*", MutationChunk::new_chunk(start..start + 1));
    mutation.mutate_file(&file);
    assert_eq!(mutation.get_mutated_file().unwrap(), "héllo * wörld");
}

#[test]
fn patch_grows_one_byte_into_two() {
    let file = "fn f(x:i8,y:i8)->i8 { x - y }".to_string();
    let start = file.find(" - ").unwrap() + 1;
    let mut mutation = Mutation::new("&&", MutationChunk::new_chunk(start..start + 1));
    mutation.mutate_file(&file);
    assert_eq!(
        mutation.get_mutated_file().unwrap(),
        "fn f(x:i8,y:i8)->i8 { x && y }"
    );
}

#[test]
fn patch_shrinks_three_bytes_into_one() {
    let file = "let x = 666;".to_string();
    let mut mutation = Mutation::new("7", MutationChunk::new_chunk(8..11));
    mutation.mutate_file(&file);
    assert_eq!(mutation.get_mutated_file().unwrap(), "let x = 7;");
}

#[test]
fn patch_with_empty_chunk_inserts() {
    let file = "ab".to_string();
    let mut mutation = Mutation::new("-", MutationChunk::new_chunk(1..1));
    mutation.mutate_file(&file);
    assert_eq!(mutation.get_mutated_file().unwrap(), "a-b");
}

#[test]
fn fresh_mutation_has_nothing_attached() {
    let mutation = Mutation::new("+", MutationChunk::new_chunk(0..1));
    assert!(mutation.get_mutated_file().is_err());
    assert!(mutation.get_file_path().is_err());
    assert!(mutation.get_mutation_project_path().is_err());
    assert_eq!(mutation.get_mutation_id(), 0);
}

#[test]
fn setters_attach_values() {
    let mut mutation = Mutation::new("+", MutationChunk::new_chunk(0..1))
        .with_reason("replace - by +")
        .with_function_name("sub");
    mutation.set_file_path(&"/p/src/lib.rs".to_string());
    mutation.set_mutation_project_path(&"/out/3".to_string());
    mutation.set_mutation_id(3);
    assert_eq!(mutation.reason, "replace - by +");
    assert_eq!(mutation.function_name, "sub");
    assert_eq!(mutation.get_file_path().unwrap(), "/p/src/lib.rs");
    assert_eq!(mutation.get_mutation_project_path().unwrap(), "/out/3");
    assert_eq!(mutation.get_mutation_id(), 3);
}
