use jrust_transpiler_core::{compile, transpile};

#[test]
fn test_transpile_valid_source() {
    let result = transpile("fn main() { }");
    assert!(result.is_ok());
    assert!(result.unwrap().contains("jRust transpiled successfully!"));
}

#[test]
fn test_transpile_empty_source() {
    let result = transpile("");
    assert!(result.is_err());
    assert_eq!(result.unwrap_err(), "Source code cannot be empty");
}

#[test]
fn test_transpile_whitespace_only() {
    let result = transpile("   \n  \t  ");
    assert!(result.is_err());
}

#[test]
fn test_compile_valid_source() {
    let result = compile("fn main() { }");
    assert!(result.is_ok());
    assert!(result.unwrap().contains("jRust compiled successfully!"));
}

#[test]
fn test_compile_empty_source() {
    let result = compile("");
    assert!(result.is_err());
    assert_eq!(result.unwrap_err(), "Source code cannot be empty");
}

#[test]
fn test_compile_whitespace_only() {
    let result = compile("   \n  \t  ");
    assert!(result.is_err());
}
