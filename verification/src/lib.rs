//! Core of a source-to-source transpiler for a small statically typed
//! scripting language: a lexer producing position-annotated tokens, a
//! recursive-descent parser building an owned abstract syntax tree, and a
//! tree-walking generator emitting Rust source text.

pub mod ast;
pub mod codegen;
pub mod lexer;
pub mod parser;
pub mod project;
pub mod text;
pub mod token;

pub use ast::{BinaryOp, Expression, Program, Statement, Type};
pub use codegen::Codegen;
pub use lexer::Lexer;
pub use parser::Parser;
pub use token::{Token, TokenKind};

use vstd::prelude::*;

verus! {

/// Whether every character of the text is whitespace: the texts that
/// the whole-source entry points reject as empty.
pub open spec fn all_whitespace(s: Seq<char>) -> bool {
    forall|i: int| 0 <= i < s.len() ==> crate::text::is_ws_char(#[trigger] s[i])
}

/// The fixed wrapper that `transpile` puts around a source text.
pub open spec fn transpile_text(s: Seq<char>) -> Seq<char> {
    "// Transpiled from jRust:\n// "@ + s
        + "\nfn main() {\n    println!(\"jRust transpiled successfully!\");\n}"@
}

/// The fixed wrapper that `compile` puts around a source text.
pub open spec fn compile_text(s: Seq<char>) -> Seq<char> {
    "// Compiled from jRust:\n// "@ + s
        + "\nfn main() {\n    println!(\"jRust compiled successfully!\");\n}"@
}

fn source_is_blank(source: &str) -> (r: bool)
    ensures
        r == all_whitespace(source@),
{
    let n = source.unicode_len();
    let mut i: usize = 0;
    while i < n
        invariant
            i <= n,
            n == source@.len(),
            forall|j: int| 0 <= j < i ==> crate::text::is_ws_char(#[trigger] source@[j]),
        decreases n - i,
    {
        if !crate::text::char_is_whitespace(source.get_char(i)) {
            return false;
        }
        i += 1;
    }
    true
}

/// Wraps a source text in the fixed transpilation banner; a text that is
/// all whitespace is rejected as empty.
pub fn transpile(source: &str) -> (r: Result<String, String>)
    ensures
        all_whitespace(source@) ==> r is Err && r->Err_0@ == "Source code cannot be empty"@,
        !all_whitespace(source@) ==> r is Ok && r->Ok_0@ == transpile_text(source@),
{
    if source_is_blank(source) {
        return Err(String::from_str("Source code cannot be empty"));
    }
    let mut out = String::new();
    out.append("// Transpiled from jRust:\n// ");
    out.append(source);
    out.append("\nfn main() {\n    println!(\"jRust transpiled successfully!\");\n}");
    proof {
        assert(out@ =~= transpile_text(source@));
    }
    Ok(out)
}

/// Wraps a source text in the fixed compilation banner; a text that is
/// all whitespace is rejected as empty.
pub fn compile(source: &str) -> (r: Result<String, String>)
    ensures
        all_whitespace(source@) ==> r is Err && r->Err_0@ == "Source code cannot be empty"@,
        !all_whitespace(source@) ==> r is Ok && r->Ok_0@ == compile_text(source@),
{
    if source_is_blank(source) {
        return Err(String::from_str("Source code cannot be empty"));
    }
    let mut out = String::new();
    out.append("// Compiled from jRust:\n// ");
    out.append(source);
    out.append("\nfn main() {\n    println!(\"jRust compiled successfully!\");\n}");
    proof {
        assert(out@ =~= compile_text(source@));
    }
    Ok(out)
}

} // verus!
