use lox_vm::{compile, Chunk, CompileErr};

fn compile_str(src: &str, chunk: &mut Chunk) -> Result<(), CompileErr> {
    compile(src.as_bytes().to_vec(), chunk)
}

#[test]
fn empty_source_compiles_to_a_lone_return() {
    let mut c = Chunk::new();
    assert_eq!(compile_str("", &mut c), Ok(()));
    assert_eq!(c.code, vec![2]);
    assert_eq!(c.lines, vec![1]);
    assert_eq!(c.constants.len(), 0);
}

#[test]
fn whitespace_only_source_compiles_and_tags_the_final_line() {
    let mut c = Chunk::new();
    assert_eq!(compile_str("  \n\t \n ", &mut c), Ok(()));
    assert_eq!(c.code, vec![2]);
    assert_eq!(c.lines, vec![3]);
}

#[test]
fn comment_only_source_compiles() {
    let mut c = Chunk::new();
    assert_eq!(compile_str("// nothing to see", &mut c), Ok(()));
    assert_eq!(c.code, vec![2]);
    assert_eq!(c.lines, vec![1]);
}

#[test]
fn compile_appends_to_the_chunk_it_is_given() {
    let mut c = Chunk::new();
    c.write(9, 7);
    assert_eq!(compile_str("", &mut c), Ok(()));
    assert_eq!(c.code, vec![9, 2]);
    assert_eq!(c.lines, vec![7, 1]);
}

#[test]
fn a_lexically_invalid_byte_is_bad_token_with_its_line() {
    let mut c = Chunk::new();
    assert_eq!(compile_str("@", &mut c), Err(CompileErr::BadToken { line: 1 }));
    assert_eq!(c.code.len(), 0);
    assert_eq!(c.lines.len(), 0);
}

#[test]
fn bad_token_lines_count_from_one_and_follow_newlines() {
    let mut c = Chunk::new();
    assert_eq!(compile_str("\n\n@", &mut c), Err(CompileErr::BadToken { line: 3 }));
    let mut c2 = Chunk::new();
    assert_eq!(
        compile_str("// comment\n#", &mut c2),
        Err(CompileErr::BadToken { line: 2 })
    );
}

#[test]
fn an_unterminated_string_is_bad_token() {
    let mut c = Chunk::new();
    assert_eq!(compile_str("\"open", &mut c), Err(CompileErr::BadToken { line: 1 }));
}

#[test]
fn anything_before_the_end_of_input_is_the_other_error() {
    let mut c = Chunk::new();
    let r = compile_str("1.2", &mut c);
    assert_eq!(
        r,
        Err(CompileErr::Other { line: 1, msg: "Expected end of expression." })
    );
    assert_eq!(c.code.len(), 0);
    let mut c2 = Chunk::new();
    assert_eq!(
        compile_str("\nfoo", &mut c2),
        Err(CompileErr::Other { line: 2, msg: "Expected end of expression." })
    );
}
