//! Recursive-descent parsing: turns the token sequence into one
//! [`Program`], or fails at the first unexpected token. Expressions are
//! parsed by precedence climbing, lowest precedence first: logical-or,
//! logical-and, comparison, additive, multiplicative, primary.
//!
//! The shape of the result is pinned by the `sp_*` specification
//! functions, which walk the token sequence exactly as the executable
//! parser does and yield the abstract tree together with the position
//! after it; `parse` returns `Ok` exactly when `sp_program` yields a
//! value, and then returns exactly that tree. An expected-token error's
//! text is pinned by [`expected_msg`] where it is built; the few
//! structural error texts are not specified beyond being errors.

use vstd::prelude::*;

use crate::ast::{
    BinaryOp, EnumDecl, EnumDeclV, EnumVariant, EnumVariantV, Expression, ExpressionV,
    ForLoopStmt, ForLoopStmtV, FunctionDecl, FunctionDeclV, IfElseStmt, IfElseStmtV, ImportItem,
    ImportItemV, ImportStmt, ImportStmtV, Parameter, ParameterV, PrintStmt, PrintStmtV, Program,
    ProgramV, ReturnStmt, ReturnStmtV, Statement, StatementV, StructDecl, StructDeclV,
    StructField, StructFieldV, ThrowStmt, ThrowStmtV, TryCatchStmt, TryCatchStmtV, Type, TypeV,
    VariableDecl, VariableDeclV, WhileLoopStmt, WhileLoopStmtV,
};
use crate::ast::{
    view_enum_variant, view_enum_variants, view_expr, view_exprs, view_field_inits,
    view_import_item, view_import_items, view_params, view_stmt, view_stmts, view_struct_fields,
    view_type, view_types,
};
use crate::lexer::view_tokens;
use crate::text::{dec_digits, push_dec_usize};
use crate::token::{Token, TokenKind, TokenKindV, TokenV};

verus! {

broadcast use {crate::lexer::lemma_view_tokens_len, crate::lexer::lemma_view_tokens_index};

/// A well-formed token sequence: what the lexer produces. It ends with
/// exactly one end-of-stream marker, and number literals are nonnegative.
pub open spec fn tokens_wf(toks: Seq<TokenV>) -> bool {
    &&& toks.len() >= 1
    &&& toks.last().kind is Eof
    &&& forall|i: int| 0 <= i < toks.len() - 1 ==> !(#[trigger] toks[i].kind is Eof)
    &&& forall|i: int|
        0 <= i < toks.len() ==> ((#[trigger] toks[i].kind) is NumberLiteral
            ==> toks[i].kind->NumberLiteral_0 >= 0)
}

/// A numeric tag for each token kind, used to compare kinds while
/// ignoring their payloads.
pub open spec fn tag_of(k: TokenKindV) -> int {
    match k {
        TokenKindV::Let => 0,
        TokenKindV::Function => 1,
        TokenKindV::Return => 2,
        TokenKindV::Void => 3,
        TokenKindV::Const => 4,
        TokenKindV::Print => 5,
        TokenKindV::If => 6,
        TokenKindV::Else => 7,
        TokenKindV::For => 8,
        TokenKindV::While => 9,
        TokenKindV::In => 10,
        TokenKindV::Any => 11,
        TokenKindV::Break => 12,
        TokenKindV::Continue => 13,
        TokenKindV::Import => 14,
        TokenKindV::Export => 15,
        TokenKindV::Struct => 16,
        TokenKindV::Enum => 17,
        TokenKindV::Try => 18,
        TokenKindV::Catch => 19,
        TokenKindV::Throw => 20,
        TokenKindV::From => 21,
        TokenKindV::As => 22,
        TokenKindV::NumberType => 23,
        TokenKindV::StringType => 24,
        TokenKindV::BooleanType => 25,
        TokenKindV::Identifier(_) => 26,
        TokenKindV::NumberLiteral(_) => 27,
        TokenKindV::StringLiteral(_) => 28,
        TokenKindV::BooleanLiteral(_) => 29,
        TokenKindV::Plus => 30,
        TokenKindV::Minus => 31,
        TokenKindV::Star => 32,
        TokenKindV::Slash => 33,
        TokenKindV::Percent => 34,
        TokenKindV::Equal => 35,
        TokenKindV::Colon => 36,
        TokenKindV::Semicolon => 37,
        TokenKindV::Comma => 38,
        TokenKindV::Dot => 39,
        TokenKindV::LeftParen => 40,
        TokenKindV::RightParen => 41,
        TokenKindV::LeftBrace => 42,
        TokenKindV::RightBrace => 43,
        TokenKindV::LeftBracket => 44,
        TokenKindV::RightBracket => 45,
        TokenKindV::EqualEqual => 46,
        TokenKindV::BangEqual => 47,
        TokenKindV::Greater => 48,
        TokenKindV::GreaterEqual => 49,
        TokenKindV::Less => 50,
        TokenKindV::LessEqual => 51,
        TokenKindV::AmpersandAmpersand => 52,
        TokenKindV::PipePipe => 53,
        TokenKindV::Bang => 54,
        TokenKindV::Ampersand => 55,
        TokenKindV::Mut => 56,
        TokenKindV::Eof => 57,
    }
}

/// The kind under the cursor, or the end marker outside the sequence.
pub open spec fn pk(toks: Seq<TokenV>, i: int) -> TokenKindV {
    if 0 <= i < toks.len() {
        toks[i].kind
    } else {
        TokenKindV::Eof
    }
}

/// Whether the cursor is at the end: past the sequence or at the end
/// marker.
pub open spec fn sp_at_end(toks: Seq<TokenV>, i: int) -> bool {
    i >= toks.len() || toks[i].kind is Eof
}

/// Whether the token under the cursor has the given kind, payloads
/// ignored; false at the end of the sequence.
pub open spec fn sp_check(toks: Seq<TokenV>, i: int, k: TokenKindV) -> bool {
    !sp_at_end(toks, i) && tag_of(pk(toks, i)) == tag_of(k)
}

// ----------------------------------------------------------------------
// The specification parser. Each function returns the parsed node and
// the position after it, or `None` for a parse error. Recursive calls
// are guarded by cursor-progress conditions; the guards always hold of
// the executable parser's behaviour.
// ----------------------------------------------------------------------

pub open spec fn sp_program(toks: Seq<TokenV>) -> Option<ProgramV> {
    match sp_program_loop(toks, 0, Seq::empty()) {
        Some((ss, _)) => Some(ProgramV { statements: ss }),
        None => None,
    }
}

pub open spec fn sp_program_loop(toks: Seq<TokenV>, i: int, acc: Seq<StatementV>) -> Option<
    (Seq<StatementV>, int),
>
    decreases toks.len() - i, 27int,
{
    if sp_at_end(toks, i) {
        Some((acc, i))
    } else {
        match sp_stmt(toks, i) {
            Some((s, j)) => {
                if i < j <= toks.len() {
                    sp_program_loop(toks, j, acc.push(s))
                } else {
                    None
                }
            },
            None => None,
        }
    }
}

pub open spec fn sp_block_loop(toks: Seq<TokenV>, i: int, acc: Seq<StatementV>) -> Option<
    (Seq<StatementV>, int),
>
    decreases toks.len() - i, 27int,
{
    if sp_check(toks, i, TokenKindV::RightBrace) || sp_at_end(toks, i) {
        Some((acc, i))
    } else {
        match sp_stmt(toks, i) {
            Some((s, j)) => {
                if i < j <= toks.len() {
                    sp_block_loop(toks, j, acc.push(s))
                } else {
                    None
                }
            },
            None => None,
        }
    }
}

#[verifier::opaque]
pub open spec fn sp_stmt(toks: Seq<TokenV>, i: int) -> Option<(StatementV, int)>
    decreases toks.len() - i, 26int,
{
    if sp_check(toks, i, TokenKindV::Import) {
        sp_import(toks, i)
    } else if sp_check(toks, i, TokenKindV::Export) {
        sp_export(toks, i)
    } else if sp_check(toks, i, TokenKindV::Let) {
        sp_var_decl(toks, i, false)
    } else if sp_check(toks, i, TokenKindV::Const) {
        sp_var_decl(toks, i, true)
    } else if sp_check(toks, i, TokenKindV::Function) {
        sp_function(toks, i)
    } else if sp_check(toks, i, TokenKindV::Struct) {
        sp_struct(toks, i)
    } else if sp_check(toks, i, TokenKindV::Enum) {
        sp_enum(toks, i)
    } else if sp_check(toks, i, TokenKindV::Print) {
        sp_print(toks, i)
    } else if sp_check(toks, i, TokenKindV::Return) {
        sp_return(toks, i)
    } else if sp_check(toks, i, TokenKindV::If) {
        sp_if(toks, i)
    } else if sp_check(toks, i, TokenKindV::For) {
        sp_for(toks, i)
    } else if sp_check(toks, i, TokenKindV::While) {
        sp_while(toks, i)
    } else if sp_check(toks, i, TokenKindV::Break) {
        sp_break(toks, i)
    } else if sp_check(toks, i, TokenKindV::Continue) {
        sp_continue(toks, i)
    } else if sp_check(toks, i, TokenKindV::Try) {
        sp_try(toks, i)
    } else if sp_check(toks, i, TokenKindV::Throw) {
        sp_throw(toks, i)
    } else {
        match sp_expr(toks, i) {
            Some((e, j)) => {
                if sp_check(toks, j, TokenKindV::Semicolon) {
                    Some((StatementV::ExpressionStmt(e), j + 1))
                } else {
                    None
                }
            },
            None => None,
        }
    }
}

/// One `name [as alias]` list entry after the opening brace; loops over
/// commas.
pub open spec fn sp_import_items(toks: Seq<TokenV>, i: int, acc: Seq<ImportItemV>) -> Option<
    (Seq<ImportItemV>, int),
>
    decreases toks.len() - i, 6int,
{
    match pk(toks, i) {
        TokenKindV::Identifier(name) => {
            let (alias, j) = if sp_check(toks, i + 1, TokenKindV::As) {
                match pk(toks, i + 2) {
                    TokenKindV::Identifier(a) => (Some(Some(a)), i + 3),
                    _ => (None, i + 2),
                }
            } else {
                (Some(None), i + 1)
            };
            match alias {
                Some(al) => {
                    let acc2 = acc.push(ImportItemV { name, alias: al });
                    if sp_check(toks, j, TokenKindV::Comma) {
                        if i < j + 1 <= toks.len() {
                            sp_import_items(toks, j + 1, acc2)
                        } else {
                            None
                        }
                    } else {
                        Some((acc2, j))
                    }
                },
                None => None,
            }
        },
        _ => None,
    }
}

/// Whether a path names an outside library rather than a local module:
/// it contains a namespace separator or does not start with a relative
/// marker.
pub open spec fn sp_is_external(path: Seq<char>) -> bool {
    has_dbl_colon(path) || !(path.len() >= 1 && path[0] == '.')
}

pub open spec fn has_dbl_colon(s: Seq<char>) -> bool {
    exists|k: int| 0 <= k && k + 1 < s.len() && s[k] == ':' && #[trigger] s[k + 1] == ':'
}

pub open spec fn sp_import(toks: Seq<TokenV>, i: int) -> Option<(StatementV, int)>
    decreases toks.len() - i, 20int,
{
    let (items, j) = if sp_check(toks, i + 1, TokenKindV::LeftBrace) && i + 2 <= toks.len() {
        match sp_import_items(toks, i + 2, Seq::empty()) {
            Some((its, j1)) => {
                if sp_check(toks, j1, TokenKindV::RightBrace) && sp_check(
                    toks,
                    j1 + 1,
                    TokenKindV::From,
                ) {
                    (Some(its), j1 + 2)
                } else {
                    (None, 0)
                }
            },
            None => (None, 0),
        }
    } else {
        match pk(toks, i + 1) {
            TokenKindV::Identifier(name) => {
                if sp_check(toks, i + 2, TokenKindV::From) {
                    (Some(seq![ImportItemV { name, alias: None }]), i + 3)
                } else {
                    (None, 0)
                }
            },
            TokenKindV::StringLiteral(_) => (Some(Seq::empty()), i + 1),
            _ => (None, 0),
        }
    };
    match items {
        Some(its) => {
            match pk(toks, j) {
                TokenKindV::StringLiteral(path) => {
                    let (alias, j2) = if sp_check(toks, j + 1, TokenKindV::As) {
                        match pk(toks, j + 2) {
                            TokenKindV::Identifier(a) => (Some(Some(a)), j + 3),
                            _ => (None, 0),
                        }
                    } else {
                        (Some(None), j + 1)
                    };
                    match alias {
                        Some(al) => {
                            let its2 = if al is Some && its.len() > 0 {
                                its.update(0, ImportItemV { name: its[0].name, alias: al })
                            } else {
                                its
                            };
                            if sp_check(toks, j2, TokenKindV::Semicolon) {
                                Some(
                                    (
                                        StatementV::ImportStmt(
                                            ImportStmtV {
                                                imports: its2,
                                                path: path,
                                                is_external: sp_is_external(path),
                                            },
                                        ),
                                        j2 + 1,
                                    ),
                                )
                            } else {
                                None
                            }
                        },
                        None => None,
                    }
                },
                _ => None,
            }
        },
        None => None,
    }
}

pub open spec fn sp_export(toks: Seq<TokenV>, i: int) -> Option<(StatementV, int)>
    decreases toks.len() - i, 20int,
{
    let inner = if sp_check(toks, i + 1, TokenKindV::Function) {
        sp_function(toks, i + 1)
    } else if sp_check(toks, i + 1, TokenKindV::Struct) {
        sp_struct(toks, i + 1)
    } else if sp_check(toks, i + 1, TokenKindV::Enum) {
        sp_enum(toks, i + 1)
    } else if sp_check(toks, i + 1, TokenKindV::Const) {
        sp_var_decl(toks, i + 1, true)
    } else if sp_check(toks, i + 1, TokenKindV::Let) {
        sp_var_decl(toks, i + 1, false)
    } else {
        None
    };
    match inner {
        Some((s, j)) => Some((StatementV::ExportStmt(Box::new(s)), j)),
        None => None,
    }
}

pub open spec fn sp_var_decl(toks: Seq<TokenV>, i: int, is_const: bool) -> Option<
    (StatementV, int),
>
    decreases toks.len() - i, 20int,
{
    match pk(toks, i + 1) {
        TokenKindV::Identifier(name) => {
            let (ty, j) = if sp_check(toks, i + 2, TokenKindV::Colon) {
                if i + 3 <= toks.len() {
                    match sp_type(toks, i + 3) {
                        Some((t, j1)) => (Some(Some(t)), j1),
                        None => (None, 0),
                    }
                } else {
                    (None, 0)
                }
            } else {
                (Some(None), i + 2)
            };
            match ty {
                Some(t) => {
                    if sp_check(toks, j, TokenKindV::Equal) && i < j + 1 <= toks.len() {
                        match sp_expr(toks, j + 1) {
                            Some((e, j2)) => {
                                if sp_check(toks, j2, TokenKindV::Semicolon) {
                                    Some(
                                        (
                                            StatementV::VariableDecl(
                                                VariableDeclV {
                                                    name,
                                                    var_type: t,
                                                    value: e,
                                                    is_const,
                                                },
                                            ),
                                            j2 + 1,
                                        ),
                                    )
                                } else {
                                    None
                                }
                            },
                            None => None,
                        }
                    } else {
                        None
                    }
                },
                None => None,
            }
        },
        _ => None,
    }
}

pub open spec fn sp_params(toks: Seq<TokenV>, i: int, acc: Seq<ParameterV>) -> Option<
    (Seq<ParameterV>, int),
>
    decreases toks.len() - i, 6int,
{
    match pk(toks, i) {
        TokenKindV::Identifier(name) => {
            if sp_check(toks, i + 1, TokenKindV::Colon) && i + 2 <= toks.len() {
                match sp_type(toks, i + 2) {
                    Some((t, j)) => {
                        let acc2 = acc.push(ParameterV { name, param_type: t });
                        if sp_check(toks, j, TokenKindV::Comma) {
                            if i < j + 1 <= toks.len() {
                                sp_params(toks, j + 1, acc2)
                            } else {
                                None
                            }
                        } else {
                            Some((acc2, j))
                        }
                    },
                    None => None,
                }
            } else {
                None
            }
        },
        _ => None,
    }
}

pub open spec fn sp_function(toks: Seq<TokenV>, i: int) -> Option<(StatementV, int)>
    decreases toks.len() - i, 20int,
{
    match pk(toks, i + 1) {
        TokenKindV::Identifier(name) => {
            if sp_check(toks, i + 2, TokenKindV::LeftParen) {
                let ps = if !sp_check(toks, i + 3, TokenKindV::RightParen) {
                    if i + 3 <= toks.len() {
                        sp_params(toks, i + 3, Seq::empty())
                    } else {
                        None
                    }
                } else {
                    Some((Seq::empty(), i + 3))
                };
                match ps {
                    Some((params, j)) => {
                        if sp_check(toks, j, TokenKindV::RightParen) && sp_check(
                            toks,
                            j + 1,
                            TokenKindV::Colon,
                        ) && i < j + 2 <= toks.len() {
                            match sp_type(toks, j + 2) {
                                Some((ret, j2)) => {
                                    if sp_check(toks, j2, TokenKindV::LeftBrace) && i < j2 + 1
                                        <= toks.len() {
                                        match sp_fn_body(toks, j2 + 1, Seq::empty()) {
                                            Some((body, j3)) => {
                                                if sp_check(toks, j3, TokenKindV::RightBrace) {
                                                    Some(
                                                        (
                                                            StatementV::FunctionDecl(
                                                                FunctionDeclV {
                                                                    name,
                                                                    parameters: params,
                                                                    return_type: ret,
                                                                    body,
                                                                },
                                                            ),
                                                            j3 + 1,
                                                        ),
                                                    )
                                                } else {
                                                    None
                                                }
                                            },
                                            None => None,
                                        }
                                    } else {
                                        None
                                    }
                                },
                                None => None,
                            }
                        } else {
                            None
                        }
                    },
                    None => None,
                }
            } else {
                None
            }
        },
        _ => None,
    }
}

/// The function-body loop: like a block, it stops at a closing brace or
/// at the end of the input.
pub open spec fn sp_fn_body(toks: Seq<TokenV>, i: int, acc: Seq<StatementV>) -> Option<
    (Seq<StatementV>, int),
>
    decreases toks.len() - i, 27int,
{
    if sp_check(toks, i, TokenKindV::RightBrace) || sp_at_end(toks, i) {
        Some((acc, i))
    } else {
        match sp_stmt(toks, i) {
            Some((s, j)) => {
                if i < j <= toks.len() {
                    sp_fn_body(toks, j, acc.push(s))
                } else {
                    None
                }
            },
            None => None,
        }
    }
}

pub open spec fn sp_print(toks: Seq<TokenV>, i: int) -> Option<(StatementV, int)>
    decreases toks.len() - i, 20int,
{
    if sp_check(toks, i + 1, TokenKindV::LeftParen) && i + 2 <= toks.len() {
        match sp_expr(toks, i + 2) {
            Some((e, j)) => {
                if sp_check(toks, j, TokenKindV::RightParen) && sp_check(
                    toks,
                    j + 1,
                    TokenKindV::Semicolon,
                ) {
                    Some((StatementV::PrintStmt(PrintStmtV { expression: e }), j + 2))
                } else {
                    None
                }
            },
            None => None,
        }
    } else {
        None
    }
}

pub open spec fn sp_return(toks: Seq<TokenV>, i: int) -> Option<(StatementV, int)>
    decreases toks.len() - i, 20int,
{
    if sp_check(toks, i + 1, TokenKindV::Semicolon) {
        Some((StatementV::ReturnStmt(ReturnStmtV { value: None }), i + 2))
    } else {
        if i + 1 <= toks.len() {
            match sp_expr(toks, i + 1) {
                Some((e, j)) => {
                    if sp_check(toks, j, TokenKindV::Semicolon) {
                        Some((StatementV::ReturnStmt(ReturnStmtV { value: Some(e) }), j + 1))
                    } else {
                        None
                    }
                },
                None => None,
            }
        } else {
            None
        }
    }
}

pub open spec fn sp_if(toks: Seq<TokenV>, i: int) -> Option<(StatementV, int)>
    decreases toks.len() - i, 20int,
{
    if i + 1 <= toks.len() {
        match sp_expr(toks, i + 1) {
            Some((cond, j)) => {
                if sp_check(toks, j, TokenKindV::LeftBrace) && i < j + 1 <= toks.len() {
                    match sp_block_loop(toks, j + 1, Seq::empty()) {
                        Some((then_body, j2)) => {
                            if sp_check(toks, j2, TokenKindV::RightBrace) {
                                if sp_check(toks, j2 + 1, TokenKindV::Else) {
                                    if sp_check(toks, j2 + 2, TokenKindV::LeftBrace) && i < j2 + 3
                                        <= toks.len() {
                                        match sp_block_loop(toks, j2 + 3, Seq::empty()) {
                                            Some((else_body, j3)) => {
                                                if sp_check(toks, j3, TokenKindV::RightBrace) {
                                                    Some(
                                                        (
                                                            StatementV::IfElse(
                                                                IfElseStmtV {
                                                                    condition: cond,
                                                                    then_body,
                                                                    else_body: Some(else_body),
                                                                },
                                                            ),
                                                            j3 + 1,
                                                        ),
                                                    )
                                                } else {
                                                    None
                                                }
                                            },
                                            None => None,
                                        }
                                    } else {
                                        None
                                    }
                                } else {
                                    Some(
                                        (
                                            StatementV::IfElse(
                                                IfElseStmtV {
                                                    condition: cond,
                                                    then_body,
                                                    else_body: None,
                                                },
                                            ),
                                            j2 + 1,
                                        ),
                                    )
                                }
                            } else {
                                None
                            }
                        },
                        None => None,
                    }
                } else {
                    None
                }
            },
            None => None,
        }
    } else {
        None
    }
}

pub open spec fn sp_for(toks: Seq<TokenV>, i: int) -> Option<(StatementV, int)>
    decreases toks.len() - i, 20int,
{
    match pk(toks, i + 1) {
        TokenKindV::Identifier(var) => {
            if sp_check(toks, i + 2, TokenKindV::In) && i + 3 <= toks.len() {
                match sp_expr(toks, i + 3) {
                    Some((iter, j)) => {
                        if sp_check(toks, j, TokenKindV::LeftBrace) && i < j + 1 <= toks.len() {
                            match sp_block_loop(toks, j + 1, Seq::empty()) {
                                Some((body, j2)) => {
                                    if sp_check(toks, j2, TokenKindV::RightBrace) {
                                        Some(
                                            (
                                                StatementV::ForLoop(
                                                    ForLoopStmtV {
                                                        variable: var,
                                                        iterable: iter,
                                                        body,
                                                    },
                                                ),
                                                j2 + 1,
                                            ),
                                        )
                                    } else {
                                        None
                                    }
                                },
                                None => None,
                            }
                        } else {
                            None
                        }
                    },
                    None => None,
                }
            } else {
                None
            }
        },
        _ => None,
    }
}

pub open spec fn sp_while(toks: Seq<TokenV>, i: int) -> Option<(StatementV, int)>
    decreases toks.len() - i, 20int,
{
    if i + 1 <= toks.len() {
        match sp_expr(toks, i + 1) {
            Some((cond, j)) => {
                if sp_check(toks, j, TokenKindV::LeftBrace) && i < j + 1 <= toks.len() {
                    match sp_block_loop(toks, j + 1, Seq::empty()) {
                        Some((body, j2)) => {
                            if sp_check(toks, j2, TokenKindV::RightBrace) {
                                Some(
                                    (
                                        StatementV::WhileLoop(
                                            WhileLoopStmtV { condition: cond, body },
                                        ),
                                        j2 + 1,
                                    ),
                                )
                            } else {
                                None
                            }
                        },
                        None => None,
                    }
                } else {
                    None
                }
            },
            None => None,
        }
    } else {
        None
    }
}

pub open spec fn sp_break(toks: Seq<TokenV>, i: int) -> Option<(StatementV, int)>
    decreases toks.len() - i, 20int,
{
    if sp_check(toks, i + 1, TokenKindV::Semicolon) {
        Some((StatementV::BreakStmt, i + 2))
    } else {
        None
    }
}

pub open spec fn sp_continue(toks: Seq<TokenV>, i: int) -> Option<(StatementV, int)>
    decreases toks.len() - i, 20int,
{
    if sp_check(toks, i + 1, TokenKindV::Semicolon) {
        Some((StatementV::ContinueStmt, i + 2))
    } else {
        None
    }
}

pub open spec fn sp_struct_fields(toks: Seq<TokenV>, i: int, acc: Seq<StructFieldV>) -> Option<
    (Seq<StructFieldV>, int),
>
    decreases toks.len() - i, 6int,
{
    if sp_check(toks, i, TokenKindV::RightBrace) || sp_at_end(toks, i) {
        Some((acc, i))
    } else {
        match pk(toks, i) {
            TokenKindV::Identifier(name) => {
                if sp_check(toks, i + 1, TokenKindV::Colon) && i + 2 <= toks.len() {
                    match sp_type(toks, i + 2) {
                        Some((t, j)) => {
                            let acc2 = acc.push(StructFieldV { name, field_type: t });
                            if sp_check(toks, j, TokenKindV::Comma) {
                                if i < j + 1 <= toks.len() {
                                    sp_struct_fields(toks, j + 1, acc2)
                                } else {
                                    None
                                }
                            } else if sp_check(toks, j, TokenKindV::RightBrace) {
                                Some((acc2, j))
                            } else {
                                None
                            }
                        },
                        None => None,
                    }
                } else {
                    None
                }
            },
            _ => None,
        }
    }
}

pub open spec fn sp_struct(toks: Seq<TokenV>, i: int) -> Option<(StatementV, int)>
    decreases toks.len() - i, 20int,
{
    match pk(toks, i + 1) {
        TokenKindV::Identifier(name) => {
            if sp_check(toks, i + 2, TokenKindV::LeftBrace) && i + 3 <= toks.len() {
                match sp_struct_fields(toks, i + 3, Seq::empty()) {
                    Some((fields, j)) => {
                        if sp_check(toks, j, TokenKindV::RightBrace) {
                            Some(
                                (StatementV::StructDecl(StructDeclV { name, fields }), j + 1),
                            )
                        } else {
                            None
                        }
                    },
                    None => None,
                }
            } else {
                None
            }
        },
        _ => None,
    }
}

pub open spec fn sp_variant_types(toks: Seq<TokenV>, i: int, acc: Seq<TypeV>) -> Option<
    (Seq<TypeV>, int),
>
    decreases toks.len() - i, 6int,
{
    match sp_type(toks, i) {
        Some((t, j)) => {
            let acc2 = acc.push(t);
            if sp_check(toks, j, TokenKindV::Comma) {
                if i < j + 1 <= toks.len() {
                    sp_variant_types(toks, j + 1, acc2)
                } else {
                    None
                }
            } else {
                Some((acc2, j))
            }
        },
        None => None,
    }
}

pub open spec fn sp_enum_variants(toks: Seq<TokenV>, i: int, acc: Seq<EnumVariantV>) -> Option<
    (Seq<EnumVariantV>, int),
>
    decreases toks.len() - i, 7int,
{
    if sp_check(toks, i, TokenKindV::RightBrace) || sp_at_end(toks, i) {
        Some((acc, i))
    } else {
        match pk(toks, i) {
            TokenKindV::Identifier(name) => {
                let fs = if sp_check(toks, i + 1, TokenKindV::LeftParen) {
                    if !sp_check(toks, i + 2, TokenKindV::RightParen) {
                        if i + 2 <= toks.len() {
                            match sp_variant_types(toks, i + 2, Seq::empty()) {
                                Some((ts, j)) => {
                                    if sp_check(toks, j, TokenKindV::RightParen) {
                                        Some((Some(ts), j + 1))
                                    } else {
                                        None
                                    }
                                },
                                None => None,
                            }
                        } else {
                            None
                        }
                    } else {
                        Some((Some(Seq::<TypeV>::empty()), i + 3))
                    }
                } else {
                    Some((None, i + 1))
                };
                match fs {
                    Some((fields, j)) => {
                        let acc2 = acc.push(EnumVariantV { name, fields });
                        if sp_check(toks, j, TokenKindV::Comma) {
                            if i < j + 1 <= toks.len() {
                                sp_enum_variants(toks, j + 1, acc2)
                            } else {
                                None
                            }
                        } else if sp_check(toks, j, TokenKindV::RightBrace) {
                            Some((acc2, j))
                        } else {
                            None
                        }
                    },
                    None => None,
                }
            },
            _ => None,
        }
    }
}

pub open spec fn sp_enum(toks: Seq<TokenV>, i: int) -> Option<(StatementV, int)>
    decreases toks.len() - i, 20int,
{
    match pk(toks, i + 1) {
        TokenKindV::Identifier(name) => {
            if sp_check(toks, i + 2, TokenKindV::LeftBrace) && i + 3 <= toks.len() {
                match sp_enum_variants(toks, i + 3, Seq::empty()) {
                    Some((variants, j)) => {
                        if sp_check(toks, j, TokenKindV::RightBrace) {
                            Some((StatementV::EnumDecl(EnumDeclV { name, variants }), j + 1))
                        } else {
                            None
                        }
                    },
                    None => None,
                }
            } else {
                None
            }
        },
        _ => None,
    }
}

pub open spec fn sp_try(toks: Seq<TokenV>, i: int) -> Option<(StatementV, int)>
    decreases toks.len() - i, 20int,
{
    if sp_check(toks, i + 1, TokenKindV::LeftBrace) && i + 2 <= toks.len() {
        match sp_block_loop(toks, i + 2, Seq::empty()) {
            Some((try_body, j)) => {
                if sp_check(toks, j, TokenKindV::RightBrace) && sp_check(
                    toks,
                    j + 1,
                    TokenKindV::Catch,
                ) {
                    let (param, j2) = if sp_check(toks, j + 2, TokenKindV::LeftParen) {
                        match pk(toks, j + 3) {
                            TokenKindV::Identifier(p) => {
                                if sp_check(toks, j + 4, TokenKindV::RightParen) {
                                    (Some(Some(p)), j + 5)
                                } else {
                                    (None, 0)
                                }
                            },
                            _ => (None, 0),
                        }
                    } else {
                        (Some(None), j + 2)
                    };
                    match param {
                        Some(catch_param) => {
                            if sp_check(toks, j2, TokenKindV::LeftBrace) && i < j2 + 1
                                <= toks.len() {
                                match sp_block_loop(toks, j2 + 1, Seq::empty()) {
                                    Some((catch_body, j3)) => {
                                        if sp_check(toks, j3, TokenKindV::RightBrace) {
                                            Some(
                                                (
                                                    StatementV::TryCatch(
                                                        TryCatchStmtV {
                                                            try_body,
                                                            catch_param,
                                                            catch_body,
                                                        },
                                                    ),
                                                    j3 + 1,
                                                ),
                                            )
                                        } else {
                                            None
                                        }
                                    },
                                    None => None,
                                }
                            } else {
                                None
                            }
                        },
                        None => None,
                    }
                } else {
                    None
                }
            },
            None => None,
        }
    } else {
        None
    }
}

pub open spec fn sp_throw(toks: Seq<TokenV>, i: int) -> Option<(StatementV, int)>
    decreases toks.len() - i, 20int,
{
    if i + 1 <= toks.len() {
        match sp_expr(toks, i + 1) {
            Some((e, j)) => {
                if sp_check(toks, j, TokenKindV::Semicolon) {
                    Some((StatementV::ThrowStmt(ThrowStmtV { expression: e }), j + 1))
                } else {
                    None
                }
            },
            None => None,
        }
    } else {
        None
    }
}

// ---------------------- expressions ----------------------

pub open spec fn sp_expr(toks: Seq<TokenV>, i: int) -> Option<(ExpressionV, int)>
    decreases toks.len() - i, 16int,
{
    sp_or(toks, i)
}

pub open spec fn sp_or(toks: Seq<TokenV>, i: int) -> Option<(ExpressionV, int)>
    decreases toks.len() - i, 15int,
{
    match sp_and(toks, i) {
        Some((e, j)) => {
            if i < j <= toks.len() {
                sp_or_tail(toks, j, e)
            } else {
                None
            }
        },
        None => None,
    }
}

pub open spec fn sp_or_tail(toks: Seq<TokenV>, i: int, acc: ExpressionV) -> Option<
    (ExpressionV, int),
>
    decreases toks.len() - i, 15int,
{
    if sp_check(toks, i, TokenKindV::PipePipe) && i + 1 <= toks.len() {
        match sp_and(toks, i + 1) {
            Some((rhs, j)) => {
                let acc2 = ExpressionV::BinaryOp(Box::new(acc), BinaryOp::Or, Box::new(rhs));
                if i < j <= toks.len() {
                    sp_or_tail(toks, j, acc2)
                } else {
                    None
                }
            },
            None => None,
        }
    } else {
        Some((acc, i))
    }
}

pub open spec fn sp_and(toks: Seq<TokenV>, i: int) -> Option<(ExpressionV, int)>
    decreases toks.len() - i, 14int,
{
    match sp_cmp(toks, i) {
        Some((e, j)) => {
            if i < j <= toks.len() {
                sp_and_tail(toks, j, e)
            } else {
                None
            }
        },
        None => None,
    }
}

pub open spec fn sp_and_tail(toks: Seq<TokenV>, i: int, acc: ExpressionV) -> Option<
    (ExpressionV, int),
>
    decreases toks.len() - i, 14int,
{
    if sp_check(toks, i, TokenKindV::AmpersandAmpersand) && i + 1 <= toks.len() {
        match sp_cmp(toks, i + 1) {
            Some((rhs, j)) => {
                let acc2 = ExpressionV::BinaryOp(Box::new(acc), BinaryOp::And, Box::new(rhs));
                if i < j <= toks.len() {
                    sp_and_tail(toks, j, acc2)
                } else {
                    None
                }
            },
            None => None,
        }
    } else {
        Some((acc, i))
    }
}

/// The comparison operator under the cursor, if any.
pub open spec fn cmp_op_at(toks: Seq<TokenV>, i: int) -> Option<BinaryOp> {
    match pk(toks, i) {
        TokenKindV::EqualEqual => Some(BinaryOp::Equal),
        TokenKindV::BangEqual => Some(BinaryOp::NotEqual),
        TokenKindV::Greater => Some(BinaryOp::Greater),
        TokenKindV::GreaterEqual => Some(BinaryOp::GreaterEqual),
        TokenKindV::Less => Some(BinaryOp::Less),
        TokenKindV::LessEqual => Some(BinaryOp::LessEqual),
        _ => None,
    }
}

pub open spec fn sp_cmp(toks: Seq<TokenV>, i: int) -> Option<(ExpressionV, int)>
    decreases toks.len() - i, 13int,
{
    match sp_add(toks, i) {
        Some((e, j)) => {
            if i < j <= toks.len() {
                sp_cmp_tail(toks, j, e)
            } else {
                None
            }
        },
        None => None,
    }
}

pub open spec fn sp_cmp_tail(toks: Seq<TokenV>, i: int, acc: ExpressionV) -> Option<
    (ExpressionV, int),
>
    decreases toks.len() - i, 13int,
{
    if !sp_at_end(toks, i) && cmp_op_at(toks, i) is Some && i + 1 <= toks.len() {
        match sp_add(toks, i + 1) {
            Some((rhs, j)) => {
                let acc2 = ExpressionV::BinaryOp(
                    Box::new(acc),
                    cmp_op_at(toks, i)->0,
                    Box::new(rhs),
                );
                if i < j <= toks.len() {
                    sp_cmp_tail(toks, j, acc2)
                } else {
                    None
                }
            },
            None => None,
        }
    } else {
        Some((acc, i))
    }
}

pub open spec fn add_op_at(toks: Seq<TokenV>, i: int) -> Option<BinaryOp> {
    match pk(toks, i) {
        TokenKindV::Plus => Some(BinaryOp::Add),
        TokenKindV::Minus => Some(BinaryOp::Subtract),
        _ => None,
    }
}

pub open spec fn sp_add(toks: Seq<TokenV>, i: int) -> Option<(ExpressionV, int)>
    decreases toks.len() - i, 12int,
{
    match sp_mul(toks, i) {
        Some((e, j)) => {
            if i < j <= toks.len() {
                sp_add_tail(toks, j, e)
            } else {
                None
            }
        },
        None => None,
    }
}

pub open spec fn sp_add_tail(toks: Seq<TokenV>, i: int, acc: ExpressionV) -> Option<
    (ExpressionV, int),
>
    decreases toks.len() - i, 12int,
{
    if !sp_at_end(toks, i) && add_op_at(toks, i) is Some && i + 1 <= toks.len() {
        match sp_mul(toks, i + 1) {
            Some((rhs, j)) => {
                let acc2 = ExpressionV::BinaryOp(
                    Box::new(acc),
                    add_op_at(toks, i)->0,
                    Box::new(rhs),
                );
                if i < j <= toks.len() {
                    sp_add_tail(toks, j, acc2)
                } else {
                    None
                }
            },
            None => None,
        }
    } else {
        Some((acc, i))
    }
}

pub open spec fn mul_op_at(toks: Seq<TokenV>, i: int) -> Option<BinaryOp> {
    match pk(toks, i) {
        TokenKindV::Star => Some(BinaryOp::Multiply),
        TokenKindV::Slash => Some(BinaryOp::Divide),
        TokenKindV::Percent => Some(BinaryOp::Modulo),
        _ => None,
    }
}

pub open spec fn sp_mul(toks: Seq<TokenV>, i: int) -> Option<(ExpressionV, int)>
    decreases toks.len() - i, 11int,
{
    match sp_primary(toks, i) {
        Some((e, j)) => {
            if i < j <= toks.len() {
                sp_mul_tail(toks, j, e)
            } else {
                None
            }
        },
        None => None,
    }
}

pub open spec fn sp_mul_tail(toks: Seq<TokenV>, i: int, acc: ExpressionV) -> Option<
    (ExpressionV, int),
>
    decreases toks.len() - i, 11int,
{
    if !sp_at_end(toks, i) && mul_op_at(toks, i) is Some && i + 1 <= toks.len() {
        match sp_primary(toks, i + 1) {
            Some((rhs, j)) => {
                let acc2 = ExpressionV::BinaryOp(
                    Box::new(acc),
                    mul_op_at(toks, i)->0,
                    Box::new(rhs),
                );
                if i < j <= toks.len() {
                    sp_mul_tail(toks, j, acc2)
                } else {
                    None
                }
            },
            None => None,
        }
    } else {
        Some((acc, i))
    }
}

/// Comma-separated expressions, as in call arguments and array
/// literals.
pub open spec fn sp_args(toks: Seq<TokenV>, i: int, acc: Seq<ExpressionV>) -> Option<
    (Seq<ExpressionV>, int),
>
    decreases toks.len() - i, 18int,
{
    match sp_expr(toks, i) {
        Some((e, j)) => {
            let acc2 = acc.push(e);
            if sp_check(toks, j, TokenKindV::Comma) {
                if i < j + 1 <= toks.len() {
                    sp_args(toks, j + 1, acc2)
                } else {
                    None
                }
            } else {
                Some((acc2, j))
            }
        },
        None => None,
    }
}

/// `name: expression` pairs of a struct literal; the loop stops when no
/// comma follows a pair.
pub open spec fn sp_field_inits(toks: Seq<TokenV>, i: int, acc: Seq<(Seq<char>, ExpressionV)>)
    -> Option<(Seq<(Seq<char>, ExpressionV)>, int)>
    decreases toks.len() - i, 18int,
{
    if sp_check(toks, i, TokenKindV::RightBrace) || sp_at_end(toks, i) {
        Some((acc, i))
    } else {
        match pk(toks, i) {
            TokenKindV::Identifier(name) => {
                if sp_check(toks, i + 1, TokenKindV::Colon) && i + 2 <= toks.len() {
                    match sp_expr(toks, i + 2) {
                        Some((e, j)) => {
                            let acc2 = acc.push((name, e));
                            if sp_check(toks, j, TokenKindV::Comma) {
                                if i < j + 1 <= toks.len() {
                                    sp_field_inits(toks, j + 1, acc2)
                                } else {
                                    None
                                }
                            } else {
                                Some((acc2, j))
                            }
                        },
                        None => None,
                    }
                } else {
                    None
                }
            },
            _ => None,
        }
    }
}

/// The struct-literal lookahead: after the opening brace the next token
/// must be an identifier or a closing brace.
pub open spec fn sp_struct_ahead(toks: Seq<TokenV>, i: int) -> bool {
    i + 1 < toks.len() && (pk(toks, i + 1) is Identifier || pk(toks, i + 1) is RightBrace)
}

/// The head of a primary expression, before any postfix chain: a
/// literal, an identifier (possibly a call or a struct literal), an
/// array literal, a negation or a parenthesized expression.
#[verifier::opaque]
pub open spec fn sp_primary_head(toks: Seq<TokenV>, i: int) -> Option<(ExpressionV, int)>
    decreases toks.len() - i, 9int,
{
    match pk(toks, i) {
        TokenKindV::NumberLiteral(n) => Some((ExpressionV::NumberLiteral(n), i + 1)),
        TokenKindV::StringLiteral(s) => Some((ExpressionV::StringLiteral(s), i + 1)),
        TokenKindV::BooleanLiteral(b) => Some((ExpressionV::BooleanLiteral(b), i + 1)),
        TokenKindV::Identifier(name) => {
            if sp_check(toks, i + 1, TokenKindV::LeftParen) {
                let args = if !sp_check(toks, i + 2, TokenKindV::RightParen) {
                    if i + 2 <= toks.len() {
                        sp_args(toks, i + 2, Seq::empty())
                    } else {
                        None
                    }
                } else {
                    Some((Seq::<ExpressionV>::empty(), i + 2))
                };
                match args {
                    Some((es, j)) => {
                        if sp_check(toks, j, TokenKindV::RightParen) {
                            Some((ExpressionV::FunctionCall(name, es), j + 1))
                        } else {
                            None
                        }
                    },
                    None => None,
                }
            } else if sp_check(toks, i + 1, TokenKindV::LeftBrace) && sp_struct_ahead(toks, i + 1) {
                if i + 2 <= toks.len() {
                    match sp_field_inits(toks, i + 2, Seq::empty()) {
                        Some((fs, j)) => {
                            if sp_check(toks, j, TokenKindV::RightBrace) {
                                Some((ExpressionV::StructLiteral { name, fields: fs }, j + 1))
                            } else {
                                None
                            }
                        },
                        None => None,
                    }
                } else {
                    None
                }
            } else {
                Some((ExpressionV::Identifier(name), i + 1))
            }
        },
        TokenKindV::LeftBracket => {
            let elems = if !sp_check(toks, i + 1, TokenKindV::RightBracket) {
                if i + 1 <= toks.len() {
                    sp_args(toks, i + 1, Seq::empty())
                } else {
                    None
                }
            } else {
                Some((Seq::<ExpressionV>::empty(), i + 1))
            };
            match elems {
                Some((es, j)) => {
                    if sp_check(toks, j, TokenKindV::RightBracket) {
                        Some((ExpressionV::ArrayLiteral(es), j + 1))
                    } else {
                        None
                    }
                },
                None => None,
            }
        },
        TokenKindV::Bang => {
            if i + 1 <= toks.len() {
                match sp_primary(toks, i + 1) {
                    Some((e, j)) => Some(
                        (
                            ExpressionV::BinaryOp(
                                Box::new(e),
                                BinaryOp::Equal,
                                Box::new(ExpressionV::BooleanLiteral(false)),
                            ),
                            j,
                        ),
                    ),
                    None => None,
                }
            } else {
                None
            }
        },
        TokenKindV::LeftParen => {
            if i + 1 <= toks.len() {
                match sp_expr(toks, i + 1) {
                    Some((e, j)) => {
                        if sp_check(toks, j, TokenKindV::RightParen) {
                            Some((e, j + 1))
                        } else {
                            None
                        }
                    },
                    None => None,
                }
            } else {
                None
            }
        },
        _ => None,
    }
}

#[verifier::opaque]
pub open spec fn sp_primary(toks: Seq<TokenV>, i: int) -> Option<(ExpressionV, int)>
    decreases toks.len() - i, 10int,
{
    match sp_primary_head(toks, i) {
        Some((e, j)) => {
            if i < j <= toks.len() {
                sp_postfix(toks, j, e)
            } else {
                None
            }
        },
        None => None,
    }
}

/// Trailing `[index]`, `.member` and `.method(args)` chains, applied
/// left to right around the primary expression.
pub open spec fn sp_postfix(toks: Seq<TokenV>, i: int, acc: ExpressionV) -> Option<
    (ExpressionV, int),
>
    decreases toks.len() - i, 10int,
{
    if sp_check(toks, i, TokenKindV::LeftBracket) {
        if i + 1 <= toks.len() {
            match sp_expr(toks, i + 1) {
                Some((idx, j)) => {
                    if sp_check(toks, j, TokenKindV::RightBracket) {
                        let acc2 = ExpressionV::IndexAccess {
                            object: Box::new(acc),
                            index: Box::new(idx),
                        };
                        if i < j + 1 <= toks.len() {
                            sp_postfix(toks, j + 1, acc2)
                        } else {
                            None
                        }
                    } else {
                        None
                    }
                },
                None => None,
            }
        } else {
            None
        }
    } else if sp_check(toks, i, TokenKindV::Dot) {
        match pk(toks, i + 1) {
            TokenKindV::Identifier(member) => {
                if sp_check(toks, i + 2, TokenKindV::LeftParen) {
                    let args = if !sp_check(toks, i + 3, TokenKindV::RightParen) {
                        if i + 3 <= toks.len() {
                            sp_args(toks, i + 3, Seq::empty())
                        } else {
                            None
                        }
                    } else {
                        Some((Seq::<ExpressionV>::empty(), i + 3))
                    };
                    match args {
                        Some((es, j)) => {
                            if sp_check(toks, j, TokenKindV::RightParen) {
                                let acc2 = ExpressionV::MethodCall {
                                    object: Box::new(acc),
                                    method: member,
                                    arguments: es,
                                };
                                if i < j + 1 <= toks.len() {
                                    sp_postfix(toks, j + 1, acc2)
                                } else {
                                    None
                                }
                            } else {
                                None
                            }
                        },
                        None => None,
                    }
                } else {
                    let acc2 = ExpressionV::MemberAccess { object: Box::new(acc), member };
                    if i + 2 <= toks.len() {
                        sp_postfix(toks, i + 2, acc2)
                    } else {
                        None
                    }
                }
            },
            _ => None,
        }
    } else {
        Some((acc, i))
    }
}

// ---------------------- types ----------------------

pub open spec fn sp_type(toks: Seq<TokenV>, i: int) -> Option<(TypeV, int)>
    decreases toks.len() - i, 5int,
{
    let base = match pk(toks, i) {
        TokenKindV::NumberType => Some((TypeV::Number, i + 1)),
        TokenKindV::StringType => Some((TypeV::String, i + 1)),
        TokenKindV::BooleanType => Some((TypeV::Boolean, i + 1)),
        TokenKindV::Void => Some((TypeV::Void, i + 1)),
        TokenKindV::Any => Some((TypeV::Any, i + 1)),
        TokenKindV::Identifier(name) => Some((TypeV::Custom(name), i + 1)),
        _ => None,
    };
    match base {
        Some((bt, j)) => {
            if sp_check(toks, j, TokenKindV::LeftBracket) {
                if sp_check(toks, j + 1, TokenKindV::RightBracket) {
                    Some(
                        (
                            TypeV::Array { element_type: Box::new(bt), size: None },
                            j + 2,
                        ),
                    )
                } else {
                    if i < j + 1 <= toks.len() {
                        match sp_type(toks, j + 1) {
                            Some((elem, j2)) => {
                                let (size, j3) = if sp_check(toks, j2, TokenKindV::Comma) {
                                    match pk(toks, j2 + 1) {
                                        TokenKindV::NumberLiteral(n) => (
                                            Some(Some(n as usize)),
                                            j2 + 2,
                                        ),
                                        _ => (None, 0),
                                    }
                                } else {
                                    (Some(None), j2)
                                };
                                match size {
                                    Some(sz) => {
                                        if sp_check(toks, j3, TokenKindV::RightBracket) {
                                            Some(
                                                (
                                                    TypeV::Array {
                                                        element_type: Box::new(elem),
                                                        size: sz,
                                                    },
                                                    j3 + 1,
                                                ),
                                            )
                                        } else {
                                            None
                                        }
                                    },
                                    None => None,
                                }
                            },
                            None => None,
                        }
                    } else {
                        None
                    }
                }
            } else {
                Some((bt, j))
            }
        },
        None => None,
    }
}


// ----------------------------------------------------------------------
// The executable parser.
// ----------------------------------------------------------------------

/// The tag of an executable token kind; agrees with [`tag_of`] on the
/// kind's view.
fn kind_tag(k: &TokenKind) -> (t: u32)
    ensures
        t as int == tag_of(k@),
{
    match k {
        TokenKind::Let => 0,
        TokenKind::Function => 1,
        TokenKind::Return => 2,
        TokenKind::Void => 3,
        TokenKind::Const => 4,
        TokenKind::Print => 5,
        TokenKind::If => 6,
        TokenKind::Else => 7,
        TokenKind::For => 8,
        TokenKind::While => 9,
        TokenKind::In => 10,
        TokenKind::Any => 11,
        TokenKind::Break => 12,
        TokenKind::Continue => 13,
        TokenKind::Import => 14,
        TokenKind::Export => 15,
        TokenKind::Struct => 16,
        TokenKind::Enum => 17,
        TokenKind::Try => 18,
        TokenKind::Catch => 19,
        TokenKind::Throw => 20,
        TokenKind::From => 21,
        TokenKind::As => 22,
        TokenKind::NumberType => 23,
        TokenKind::StringType => 24,
        TokenKind::BooleanType => 25,
        TokenKind::Identifier(_) => 26,
        TokenKind::NumberLiteral(_) => 27,
        TokenKind::StringLiteral(_) => 28,
        TokenKind::BooleanLiteral(_) => 29,
        TokenKind::Plus => 30,
        TokenKind::Minus => 31,
        TokenKind::Star => 32,
        TokenKind::Slash => 33,
        TokenKind::Percent => 34,
        TokenKind::Equal => 35,
        TokenKind::Colon => 36,
        TokenKind::Semicolon => 37,
        TokenKind::Comma => 38,
        TokenKind::Dot => 39,
        TokenKind::LeftParen => 40,
        TokenKind::RightParen => 41,
        TokenKind::LeftBrace => 42,
        TokenKind::RightBrace => 43,
        TokenKind::LeftBracket => 44,
        TokenKind::RightBracket => 45,
        TokenKind::EqualEqual => 46,
        TokenKind::BangEqual => 47,
        TokenKind::Greater => 48,
        TokenKind::GreaterEqual => 49,
        TokenKind::Less => 50,
        TokenKind::LessEqual => 51,
        TokenKind::AmpersandAmpersand => 52,
        TokenKind::PipePipe => 53,
        TokenKind::Bang => 54,
        TokenKind::Ampersand => 55,
        TokenKind::Mut => 56,
        TokenKind::Eof => 57,
    }
}

/// The printable name of a token kind, as expected-token messages show it.
pub open spec fn kind_name_text(k: TokenKindV) -> Seq<char> {
    match k {
        TokenKindV::Let => "Let"@,
        TokenKindV::Function => "Function"@,
        TokenKindV::Return => "Return"@,
        TokenKindV::Void => "Void"@,
        TokenKindV::Const => "Const"@,
        TokenKindV::Print => "Print"@,
        TokenKindV::If => "If"@,
        TokenKindV::Else => "Else"@,
        TokenKindV::For => "For"@,
        TokenKindV::While => "While"@,
        TokenKindV::In => "In"@,
        TokenKindV::Any => "Any"@,
        TokenKindV::Break => "Break"@,
        TokenKindV::Continue => "Continue"@,
        TokenKindV::Import => "Import"@,
        TokenKindV::Export => "Export"@,
        TokenKindV::Struct => "Struct"@,
        TokenKindV::Enum => "Enum"@,
        TokenKindV::Try => "Try"@,
        TokenKindV::Catch => "Catch"@,
        TokenKindV::Throw => "Throw"@,
        TokenKindV::From => "From"@,
        TokenKindV::As => "As"@,
        TokenKindV::NumberType => "NumberType"@,
        TokenKindV::StringType => "StringType"@,
        TokenKindV::BooleanType => "BooleanType"@,
        TokenKindV::Identifier(_) => "Identifier"@,
        TokenKindV::NumberLiteral(_) => "NumberLiteral"@,
        TokenKindV::StringLiteral(_) => "StringLiteral"@,
        TokenKindV::BooleanLiteral(_) => "BooleanLiteral"@,
        TokenKindV::Plus => "Plus"@,
        TokenKindV::Minus => "Minus"@,
        TokenKindV::Star => "Star"@,
        TokenKindV::Slash => "Slash"@,
        TokenKindV::Percent => "Percent"@,
        TokenKindV::Equal => "Equal"@,
        TokenKindV::Colon => "Colon"@,
        TokenKindV::Semicolon => "Semicolon"@,
        TokenKindV::Comma => "Comma"@,
        TokenKindV::Dot => "Dot"@,
        TokenKindV::LeftParen => "LeftParen"@,
        TokenKindV::RightParen => "RightParen"@,
        TokenKindV::LeftBrace => "LeftBrace"@,
        TokenKindV::RightBrace => "RightBrace"@,
        TokenKindV::LeftBracket => "LeftBracket"@,
        TokenKindV::RightBracket => "RightBracket"@,
        TokenKindV::EqualEqual => "EqualEqual"@,
        TokenKindV::BangEqual => "BangEqual"@,
        TokenKindV::Greater => "Greater"@,
        TokenKindV::GreaterEqual => "GreaterEqual"@,
        TokenKindV::Less => "Less"@,
        TokenKindV::LessEqual => "LessEqual"@,
        TokenKindV::AmpersandAmpersand => "AmpersandAmpersand"@,
        TokenKindV::PipePipe => "PipePipe"@,
        TokenKindV::Bang => "Bang"@,
        TokenKindV::Ampersand => "Ampersand"@,
        TokenKindV::Mut => "Mut"@,
        TokenKindV::Eof => "Eof"@,
    }
}

/// The text of an expected-token error: the expected construct, the kind
/// actually found, and its line and column.
pub open spec fn expected_msg(msg: Seq<char>, t: TokenV) -> Seq<char> {
    msg + " (found: "@ + kind_name_text(t.kind) + " at line:column "@ + dec_digits(t.line) + ":"@
        + dec_digits(t.column) + ")"@
}

/// A short printable name for a token kind, used in error messages.
fn kind_name(k: &TokenKind) -> (r: &'static str)
    ensures
        r@ == kind_name_text(k@),
{
    match k {
        TokenKind::Let => "Let",
        TokenKind::Function => "Function",
        TokenKind::Return => "Return",
        TokenKind::Void => "Void",
        TokenKind::Const => "Const",
        TokenKind::Print => "Print",
        TokenKind::If => "If",
        TokenKind::Else => "Else",
        TokenKind::For => "For",
        TokenKind::While => "While",
        TokenKind::In => "In",
        TokenKind::Any => "Any",
        TokenKind::Break => "Break",
        TokenKind::Continue => "Continue",
        TokenKind::Import => "Import",
        TokenKind::Export => "Export",
        TokenKind::Struct => "Struct",
        TokenKind::Enum => "Enum",
        TokenKind::Try => "Try",
        TokenKind::Catch => "Catch",
        TokenKind::Throw => "Throw",
        TokenKind::From => "From",
        TokenKind::As => "As",
        TokenKind::NumberType => "NumberType",
        TokenKind::StringType => "StringType",
        TokenKind::BooleanType => "BooleanType",
        TokenKind::Identifier(_) => "Identifier",
        TokenKind::NumberLiteral(_) => "NumberLiteral",
        TokenKind::StringLiteral(_) => "StringLiteral",
        TokenKind::BooleanLiteral(_) => "BooleanLiteral",
        TokenKind::Plus => "Plus",
        TokenKind::Minus => "Minus",
        TokenKind::Star => "Star",
        TokenKind::Slash => "Slash",
        TokenKind::Percent => "Percent",
        TokenKind::Equal => "Equal",
        TokenKind::Colon => "Colon",
        TokenKind::Semicolon => "Semicolon",
        TokenKind::Comma => "Comma",
        TokenKind::Dot => "Dot",
        TokenKind::LeftParen => "LeftParen",
        TokenKind::RightParen => "RightParen",
        TokenKind::LeftBrace => "LeftBrace",
        TokenKind::RightBrace => "RightBrace",
        TokenKind::LeftBracket => "LeftBracket",
        TokenKind::RightBracket => "RightBracket",
        TokenKind::EqualEqual => "EqualEqual",
        TokenKind::BangEqual => "BangEqual",
        TokenKind::Greater => "Greater",
        TokenKind::GreaterEqual => "GreaterEqual",
        TokenKind::Less => "Less",
        TokenKind::LessEqual => "LessEqual",
        TokenKind::AmpersandAmpersand => "AmpersandAmpersand",
        TokenKind::PipePipe => "PipePipe",
        TokenKind::Bang => "Bang",
        TokenKind::Ampersand => "Ampersand",
        TokenKind::Mut => "Mut",
        TokenKind::Eof => "Eof",
    }
}

/// The binary operator that a token kind denotes at one precedence
/// level: 5 logical-or, 4 logical-and, 3 comparison, 2 additive,
/// 1 multiplicative.
pub open spec fn level_op(toks: Seq<TokenV>, i: int, level: int) -> Option<BinaryOp> {
    if sp_at_end(toks, i) {
        None
    } else if level == 5 {
        if pk(toks, i) is PipePipe {
            Some(BinaryOp::Or)
        } else {
            None
        }
    } else if level == 4 {
        if pk(toks, i) is AmpersandAmpersand {
            Some(BinaryOp::And)
        } else {
            None
        }
    } else if level == 3 {
        cmp_op_at(toks, i)
    } else if level == 2 {
        add_op_at(toks, i)
    } else {
        mul_op_at(toks, i)
    }
}

/// The parser: a token sequence and a cursor into it.
pub struct Parser {
    tokens: Vec<Token>,
    current: usize,
}

impl Parser {
    /// The views of the tokens being parsed.
    pub closed spec fn toks(&self) -> Seq<TokenV> {
        view_tokens(self.tokens@)
    }

    /// The cursor position.
    pub closed spec fn cur(&self) -> int {
        self.current as int
    }

    /// Internal well-formedness: the token sequence is well formed and
    /// the cursor never passes the end marker.
    pub closed spec fn pwf(&self) -> bool {
        &&& tokens_wf(self.toks())
        &&& self.current < self.tokens@.len()
    }

    /// A parser over a well-formed token sequence is well formed.
    pub proof fn lemma_new_wf(&self)
        requires
            tokens_wf(self.toks()),
            self.cur() == 0,
        ensures
            self.pwf(),
    {
    }

    /// Builds a parser with the cursor at the first token.
    pub fn new(tokens: Vec<Token>) -> (p: Parser)
        ensures
            p.toks() == view_tokens(tokens@),
            p.cur() == 0,
    {
        Parser { tokens, current: 0 }
    }

    fn is_at_end(&self) -> (r: bool)
        requires
            self.pwf(),
        ensures
            r == sp_at_end(self.toks(), self.cur()),
    {
        if self.current >= self.tokens.len() {
            true
        } else {
            match &self.tokens[self.current].kind {
                TokenKind::Eof => true,
                _ => false,
            }
        }
    }

    fn check(&self, kind: &TokenKind) -> (r: bool)
        requires
            self.pwf(),
        ensures
            r == sp_check(self.toks(), self.cur(), kind@),
    {
        if self.is_at_end() {
            false
        } else {
            kind_tag(&self.tokens[self.current].kind) == kind_tag(kind)
        }
    }

    fn advance(&mut self)
        requires
            old(self).pwf(),
            !sp_at_end(old(self).toks(), old(self).cur()),
        ensures
            final(self).pwf(),
            final(self).tokens == old(self).tokens,
            final(self).cur() == old(self).cur() + 1,
    {
        proof {
            let toks = self.toks();
            let i = self.cur();
            assert(!(toks[i].kind is Eof));
            assert(toks[toks.len() - 1].kind is Eof);
            assert(i < toks.len() - 1);
        }
        let n = self.tokens.len();
        self.current = self.current + 1;
    }

    fn match_token(&mut self, kind: &TokenKind) -> (r: bool)
        requires
            old(self).pwf(),
        ensures
            final(self).pwf(),
            final(self).tokens == old(self).tokens,
            r == sp_check(old(self).toks(), old(self).cur(), kind@),
            r ==> final(self).cur() == old(self).cur() + 1,
            !r ==> final(self).cur() == old(self).cur(),
    {
        if self.check(kind) {
            self.advance();
            true
        } else {
            false
        }
    }

    /// Builds the message of an expected-token error from the expected
    /// construct and the token actually found.
    fn error_at(&self, message: &str) -> (m: String)
        requires
            self.pwf(),
        ensures
            m@ == expected_msg(message@, self.toks()[self.cur()]),
    {
        let mut m = String::new();
        m.append(message);
        m.append(" (found: ");
        m.append(kind_name(&self.tokens[self.current].kind));
        m.append(" at line:column ");
        push_dec_usize(&mut m, self.tokens[self.current].line);
        m.append(":");
        push_dec_usize(&mut m, self.tokens[self.current].column);
        m.append(")");
        assert(m@ =~= expected_msg(message@, self.toks()[self.cur()]));
        m
    }

    fn consume(&mut self, kind: TokenKind, message: &str) -> (r: Result<(), String>)
        requires
            old(self).pwf(),
        ensures
            final(self).pwf(),
            final(self).tokens == old(self).tokens,
            sp_check(old(self).toks(), old(self).cur(), kind@) ==> r is Ok && final(self).cur()
                == old(self).cur() + 1,
            !sp_check(old(self).toks(), old(self).cur(), kind@) ==> r is Err && final(self).cur()
                == old(self).cur() && r->Err_0@ == expected_msg(
                message@,
                old(self).toks()[old(self).cur()],
            ),
    {
        if self.check(&kind) {
            self.advance();
            Ok(())
        } else {
            Err(self.error_at(message))
        }
    }

    fn expect_identifier(&mut self) -> (r: Result<String, String>)
        requires
            old(self).pwf(),
        ensures
            final(self).pwf(),
            final(self).tokens == old(self).tokens,
            match pk(old(self).toks(), old(self).cur()) {
                TokenKindV::Identifier(s) => r is Ok && r->Ok_0@ == s && final(self).cur() == old(
                    self,
                ).cur() + 1,
                _ => r is Err && final(self).cur() == old(self).cur() && r->Err_0@
                    == expected_msg("Expected identifier"@, old(self).toks()[old(self).cur()]),
            },
    {
        let found = match &self.tokens[self.current].kind {
            TokenKind::Identifier(name) => Some(name.clone()),
            _ => None,
        };
        match found {
            Some(name) => {
                self.advance();
                Ok(name)
            },
            None => Err(self.error_at("Expected identifier")),
        }
    }

    fn peek_number(&self) -> (r: Option<i32>)
        requires
            self.pwf(),
        ensures
            match pk(self.toks(), self.cur()) {
                TokenKindV::NumberLiteral(n) => r == Some(n),
                _ => r is None,
            },
    {
        match &self.tokens[self.current].kind {
            TokenKind::NumberLiteral(n) => Some(*n),
            _ => None,
        }
    }

    fn peek_string(&self) -> (r: Option<String>)
        requires
            self.pwf(),
        ensures
            match pk(self.toks(), self.cur()) {
                TokenKindV::StringLiteral(s) => r is Some && r->0@ == s,
                _ => r is None,
            },
    {
        match &self.tokens[self.current].kind {
            TokenKind::StringLiteral(s) => Some(s.clone()),
            _ => None,
        }
    }

    fn peek_bool(&self) -> (r: Option<bool>)
        requires
            self.pwf(),
        ensures
            match pk(self.toks(), self.cur()) {
                TokenKindV::BooleanLiteral(b) => r == Some(b),
                _ => r is None,
            },
    {
        match &self.tokens[self.current].kind {
            TokenKind::BooleanLiteral(b) => Some(*b),
            _ => None,
        }
    }

    fn peek_identifier(&self) -> (r: Option<String>)
        requires
            self.pwf(),
        ensures
            match pk(self.toks(), self.cur()) {
                TokenKindV::Identifier(s) => r is Some && r->0@ == s,
                _ => r is None,
            },
    {
        match &self.tokens[self.current].kind {
            TokenKind::Identifier(s) => Some(s.clone()),
            _ => None,
        }
    }

    /// The struct-literal lookahead: the token after the brace under the
    /// cursor must be an identifier or a closing brace.
    fn is_struct_literal_ahead(&self) -> (r: bool)
        requires
            self.pwf(),
        ensures
            r == sp_struct_ahead(self.toks(), self.cur()),
    {
        let n = self.tokens.len();
        if self.current + 1 >= n {
            return false;
        }
        match &self.tokens[self.current + 1].kind {
            TokenKind::Identifier(_) => true,
            TokenKind::RightBrace => true,
            _ => false,
        }
    }

    /// Consumes and returns the binary operator under the cursor if it
    /// belongs to the given precedence level.
    #[verifier::rlimit(60)]
    #[verifier::spinoff_prover]
    fn match_binary_op(&mut self, level: u32) -> (r: Option<BinaryOp>)
        requires
            old(self).pwf(),
            1 <= level <= 5,
        ensures
            final(self).pwf(),
            final(self).tokens == old(self).tokens,
            r == level_op(old(self).toks(), old(self).cur(), level as int),
            r is Some ==> final(self).cur() == old(self).cur() + 1,
            r is None ==> final(self).cur() == old(self).cur(),
    {
        if self.is_at_end() {
            return None;
        }
        let op: Option<BinaryOp> = match &self.tokens[self.current].kind {
            TokenKind::PipePipe => {
                if level == 5 {
                    Some(BinaryOp::Or)
                } else {
                    None
                }
            },
            TokenKind::AmpersandAmpersand => {
                if level == 4 {
                    Some(BinaryOp::And)
                } else {
                    None
                }
            },
            TokenKind::EqualEqual => {
                if level == 3 {
                    Some(BinaryOp::Equal)
                } else {
                    None
                }
            },
            TokenKind::BangEqual => {
                if level == 3 {
                    Some(BinaryOp::NotEqual)
                } else {
                    None
                }
            },
            TokenKind::Greater => {
                if level == 3 {
                    Some(BinaryOp::Greater)
                } else {
                    None
                }
            },
            TokenKind::GreaterEqual => {
                if level == 3 {
                    Some(BinaryOp::GreaterEqual)
                } else {
                    None
                }
            },
            TokenKind::Less => {
                if level == 3 {
                    Some(BinaryOp::Less)
                } else {
                    None
                }
            },
            TokenKind::LessEqual => {
                if level == 3 {
                    Some(BinaryOp::LessEqual)
                } else {
                    None
                }
            },
            TokenKind::Plus => {
                if level == 2 {
                    Some(BinaryOp::Add)
                } else {
                    None
                }
            },
            TokenKind::Minus => {
                if level == 2 {
                    Some(BinaryOp::Subtract)
                } else {
                    None
                }
            },
            TokenKind::Star => {
                if level == 1 {
                    Some(BinaryOp::Multiply)
                } else {
                    None
                }
            },
            TokenKind::Slash => {
                if level == 1 {
                    Some(BinaryOp::Divide)
                } else {
                    None
                }
            },
            TokenKind::Percent => {
                if level == 1 {
                    Some(BinaryOp::Modulo)
                } else {
                    None
                }
            },
            _ => None,
        };
        if op.is_some() {
            self.advance();
        }
        op
    }

    /// Statement terminators are already explicit tokens; nothing is
    /// skipped between statements.
    fn skip_newlines(&mut self)
        requires
            old(self).pwf(),
        ensures
            *final(self) == *old(self),
    {
    }
}


/// Whether the character sequence contains two adjacent colons.
fn str_has_dbl_colon(s: &str) -> (r: bool)
    ensures
        r == has_dbl_colon(s@),
{
    let n = s.unicode_len();
    if n < 2 {
        return false;
    }
    let mut i: usize = 0;
    while i + 1 < n
        invariant
            n == s@.len(),
            i + 1 <= n,
            forall|k: int| 0 <= k < i ==> !(s@[k] == ':' && #[trigger] s@[k + 1] == ':'),
        decreases n - i,
    {
        if s.get_char(i) == ':' && s.get_char(i + 1) == ':' {
            assert(s@[i as int] == ':' && s@[i as int + 1] == ':');
            return true;
        }
        i += 1;
    }
    false
}

/// Whether the string starts with a relative-path marker.
fn str_starts_with_dot(s: &str) -> (r: bool)
    ensures
        r == (s@.len() >= 1 && s@[0] == '.'),
{
    if s.unicode_len() >= 1 {
        s.get_char(0) == '.'
    } else {
        false
    }
}

/// The view of an import item list has the list's length.
proof fn lemma_view_import_items_len(items: Seq<ImportItem>)
    ensures
        view_import_items(items).len() == items.len(),
    decreases items.len(),
{
    if items.len() > 0 {
        lemma_view_import_items_len(items.drop_last());
    }
}

/// The first element of an import item list's view is the view of its
/// first element.
proof fn lemma_view_import_items_first(items: Seq<ImportItem>)
    requires
        items.len() > 0,
    ensures
        view_import_items(items)[0] == view_import_item(items[0]),
    decreases items.len(),
{
    lemma_view_import_items_len(items.drop_last());
    if items.len() > 1 {
        lemma_view_import_items_first(items.drop_last());
        assert(items.drop_last()[0] == items[0]);
    }
}

/// The view of an import item list is updated pointwise when its first
/// element is replaced.
proof fn lemma_view_import_items_update0(items: Seq<ImportItem>, x: ImportItem)
    requires
        items.len() > 0,
    ensures
        view_import_items(items.update(0, x)) == view_import_items(items).update(
            0,
            view_import_item(x),
        ),
    decreases items.len(),
{
    lemma_view_import_items_len(items);
    lemma_view_import_items_len(items.update(0, x));
    lemma_view_import_items_len(items.drop_last());
    if items.len() == 1 {
        assert(items.update(0, x).drop_last() =~= items.drop_last());
        assert(items.update(0, x).last() == x);
        assert(view_import_items(items.update(0, x)) =~= view_import_items(items).update(
            0,
            view_import_item(x),
        ));
    } else {
        assert(items.update(0, x).drop_last() =~= items.drop_last().update(0, x));
        assert(items.update(0, x).last() == items.last());
        lemma_view_import_items_update0(items.drop_last(), x);
        assert(view_import_items(items.update(0, x)) =~= view_import_items(items).update(
            0,
            view_import_item(x),
        ));
    }
}

impl Parser {
    /// Parses the whole token sequence into a program: one statement
    /// after another until the end marker. Returns exactly the tree that
    /// [`sp_program`] assigns to the tokens, or an error where it
    /// assigns none.
    pub fn parse(&mut self) -> (r: Result<Program, String>)
        requires
            tokens_wf(old(self).toks()),
            old(self).cur() == 0,
        ensures
            final(self).toks() == old(self).toks(),
            match sp_program(old(self).toks()) {
                Some(p) => r is Ok && r->Ok_0@ == p,
                None => r is Err,
            },
    {
        let mut statements: Vec<Statement> = Vec::new();

        loop
            invariant
                self.pwf(),
                self.tokens == old(self).tokens,
                sp_program_loop(old(self).toks(), 0, Seq::empty()) == sp_program_loop(
                    old(self).toks(),
                    self.cur(),
                    view_stmts(statements@),
                ),
            ensures
                self.pwf(),
                self.tokens == old(self).tokens,
                sp_program_loop(old(self).toks(), 0, Seq::empty()) == Some(
                    (view_stmts(statements@), self.cur()),
                ),
            decreases self.tokens@.len() - self.current, 27int,
        {
            if self.is_at_end() {
                break ;
            }
            self.skip_newlines();
            if self.is_at_end() {
                break ;
            }
            let s = match self.parse_statement() {
                Ok(s) => s,
                Err(e) => {
                    return Err(e);
                },
            };
            proof {
                crate::ast::lemma_view_stmts_push(statements@, s);
            }
            statements.push(s);
        }

        Ok(Program { statements })
    }

    /// Parses one statement, dispatching on the leading keyword; any
    /// other leading token starts an expression statement.
    #[verifier::rlimit(60)]
    #[verifier::spinoff_prover]
    fn parse_statement(&mut self) -> (r: Result<Statement, String>)
        requires
            old(self).pwf(),
        ensures
            final(self).pwf(),
            final(self).tokens == old(self).tokens,
            match sp_stmt(old(self).toks(), old(self).cur()) {
                Some((s, j)) => r is Ok && r->Ok_0@ == s && final(self).cur() == j && old(
                    self,
                ).cur() < j,
                None => r is Err,
            },
        decreases self.tokens@.len() - self.current, 26int,
    {
        proof {
            reveal(sp_stmt);
        }
        if self.check(&TokenKind::Import) {
            self.parse_import_stmt()
        } else if self.check(&TokenKind::Export) {
            self.parse_export_stmt()
        } else if self.check(&TokenKind::Let) {
            self.parse_variable_decl(false)
        } else if self.check(&TokenKind::Const) {
            self.parse_variable_decl(true)
        } else if self.check(&TokenKind::Function) {
            self.parse_function_decl()
        } else if self.check(&TokenKind::Struct) {
            self.parse_struct_decl()
        } else if self.check(&TokenKind::Enum) {
            self.parse_enum_decl()
        } else if self.check(&TokenKind::Print) {
            self.parse_print_stmt()
        } else if self.check(&TokenKind::Return) {
            self.parse_return_stmt()
        } else if self.check(&TokenKind::If) {
            self.parse_if_else_stmt()
        } else if self.check(&TokenKind::For) {
            self.parse_for_loop()
        } else if self.check(&TokenKind::While) {
            self.parse_while_loop()
        } else if self.check(&TokenKind::Break) {
            self.parse_break_stmt()
        } else if self.check(&TokenKind::Continue) {
            self.parse_continue_stmt()
        } else if self.check(&TokenKind::Try) {
            self.parse_try_catch()
        } else if self.check(&TokenKind::Throw) {
            self.parse_throw_stmt()
        } else {
            let expr = match self.parse_expression() {
                Ok(e) => e,
                Err(e) => {
                    return Err(e);
                },
            };
            match self.consume(TokenKind::Semicolon, "Expected ';' after statement") {
                Ok(u) => u,
                Err(e) => {
                    return Err(e);
                },
            };
            Ok(Statement::ExpressionStmt(expr))
        }
    }

    /// Parses an import statement: a braced list, a single name, or a
    /// bare path, followed by `from "path"`, an optional alias and a
    /// terminator.
    #[verifier::rlimit(60)]
    #[verifier::spinoff_prover]
    fn parse_import_stmt(&mut self) -> (r: Result<Statement, String>)
        requires
            old(self).pwf(),
            !sp_at_end(old(self).toks(), old(self).cur()),
        ensures
            final(self).pwf(),
            final(self).tokens == old(self).tokens,
            match sp_import(old(self).toks(), old(self).cur()) {
                Some((s, j)) => r is Ok && r->Ok_0@ == s && final(self).cur() == j && old(
                    self,
                ).cur() < j,
                None => r is Err,
            },
        decreases self.tokens@.len() - self.current, 20int,
    {
        let ghost toks = self.toks();
        let ghost i0 = self.cur();
        self.advance();

        let mut imports: Vec<ImportItem> = Vec::new();

        if self.check(&TokenKind::LeftBrace) {
            self.advance();
            let ghost ia = self.cur();
            proof {
                assert(sp_import_items(toks, ia, Seq::empty()) is None ==> sp_import(toks, i0)
                    is None);
            }
            loop
                invariant_except_break
                    sp_import_items(toks, ia, Seq::empty()) == sp_import_items(
                        toks,
                        self.cur(),
                        view_import_items(imports@),
                    ),
                invariant
                    self.pwf(),
                    self.tokens == old(self).tokens,
                    toks == self.toks(),
                    i0 == old(self).cur(),
                    i0 < ia,
                    ia <= self.cur(),
                    sp_import_items(toks, ia, Seq::empty()) is None ==> sp_import(toks, i0)
                        is None,
                ensures
                    self.pwf(),
                    self.tokens == old(self).tokens,
                    toks == self.toks(),
                    ia <= self.cur(),
                    sp_import_items(toks, ia, Seq::empty()) == Some(
                        (view_import_items(imports@), self.cur()),
                    ),
                decreases self.tokens@.len() - self.current, 27int,
            {
                let name = match self.expect_identifier() {
                    Ok(n) => n,
                    Err(e) => {
                        return Err(e);
                    },
                };
                let alias = if self.match_token(&TokenKind::As) {
                    match self.expect_identifier() {
                        Ok(a) => Some(a),
                        Err(e) => {
                            return Err(e);
                        },
                    }
                } else {
                    None
                };
                proof {
                    crate::ast::lemma_view_import_items_push(
                        imports@,
                        ImportItem { name, alias },
                    );
                }
                imports.push(ImportItem { name, alias });
                if !self.match_token(&TokenKind::Comma) {
                    break ;
                }
            }
            match self.consume(TokenKind::RightBrace, "Expected '}' after import list") {
                Ok(u) => u,
                Err(e) => {
                    return Err(e);
                },
            };
            match self.consume(TokenKind::From, "Expected 'from' after import list") {
                Ok(u) => u,
                Err(e) => {
                    return Err(e);
                },
            };
        } else if let Some(name) = self.peek_identifier() {
            self.advance();
            if self.match_token(&TokenKind::From) {
                proof {
                    crate::ast::lemma_view_import_items_push(
                        imports@,
                        ImportItem { name, alias: None },
                    );
                }
                imports.push(ImportItem { name, alias: None });
            } else {
                return Err(String::from_str("Expected 'from' after import identifier"));
            }
        } else if self.peek_string().is_some() {
            // A bare string literal: the path follows immediately.
        } else {
            return Err(
                String::from_str("Expected '{', identifier, or string literal in import statement"),
            );
        }

        let path = match self.peek_string() {
            Some(s) => s,
            None => {
                return Err(String::from_str("Expected string literal for import path"));
            },
        };
        let is_external = str_has_dbl_colon(path.as_str()) || !str_starts_with_dot(path.as_str());
        self.advance();

        let alias = if self.match_token(&TokenKind::As) {
            match self.expect_identifier() {
                Ok(a) => Some(a),
                Err(e) => {
                    return Err(e);
                },
            }
        } else {
            None
        };

        if alias.is_some() && imports.len() > 0 {
            let ghost before = imports@;
            let mut first = imports.remove(0);
            first.alias = alias;
            imports.insert(0, first);
            proof {
                assert(imports@ =~= before.update(0, first));
                lemma_view_import_items_update0(before, first);
                lemma_view_import_items_first(before);
            }
        }

        match self.consume(TokenKind::Semicolon, "Expected ';' after import statement") {
            Ok(u) => u,
            Err(e) => {
                return Err(e);
            },
        };

        Ok(Statement::ImportStmt(ImportStmt { imports, path, is_external }))
    }

    /// Parses an export statement: `export` wraps exactly one function,
    /// struct, enum, const or let declaration.
    #[verifier::rlimit(60)]
    #[verifier::spinoff_prover]
    fn parse_export_stmt(&mut self) -> (r: Result<Statement, String>)
        requires
            old(self).pwf(),
            !sp_at_end(old(self).toks(), old(self).cur()),
        ensures
            final(self).pwf(),
            final(self).tokens == old(self).tokens,
            match sp_export(old(self).toks(), old(self).cur()) {
                Some((s, j)) => r is Ok && r->Ok_0@ == s && final(self).cur() == j && old(
                    self,
                ).cur() < j,
                None => r is Err,
            },
        decreases self.tokens@.len() - self.current, 21int,
    {
        self.advance();

        let inner = if self.check(&TokenKind::Function) {
            self.parse_function_decl()
        } else if self.check(&TokenKind::Struct) {
            self.parse_struct_decl()
        } else if self.check(&TokenKind::Enum) {
            self.parse_enum_decl()
        } else if self.check(&TokenKind::Const) {
            self.parse_variable_decl(true)
        } else if self.check(&TokenKind::Let) {
            self.parse_variable_decl(false)
        } else {
            return Err(String::from_str("Expected function, struct, enum, const, or let after export"));
        };

        match inner {
            Ok(s) => Ok(Statement::ExportStmt(Box::new(s))),
            Err(e) => Err(e),
        }
    }

    /// Parses a let or const declaration: a name, an optional type
    /// annotation, an initializer and a terminator.
    #[verifier::rlimit(60)]
    #[verifier::spinoff_prover]
    fn parse_variable_decl(&mut self, is_const: bool) -> (r: Result<Statement, String>)
        requires
            old(self).pwf(),
            !sp_at_end(old(self).toks(), old(self).cur()),
        ensures
            final(self).pwf(),
            final(self).tokens == old(self).tokens,
            match sp_var_decl(old(self).toks(), old(self).cur(), is_const) {
                Some((s, j)) => r is Ok && r->Ok_0@ == s && final(self).cur() == j && old(
                    self,
                ).cur() < j,
                None => r is Err,
            },
        decreases self.tokens@.len() - self.current, 20int,
    {
        self.advance();
        let name = match self.expect_identifier() {
            Ok(n) => n,
            Err(e) => {
                return Err(e);
            },
        };

        let var_type = if self.match_token(&TokenKind::Colon) {
            match self.parse_type() {
                Ok(t) => Some(t),
                Err(e) => {
                    return Err(e);
                },
            }
        } else {
            None
        };

        match self.consume(TokenKind::Equal, "Expected '=' in variable declaration") {
            Ok(u) => u,
            Err(e) => {
                return Err(e);
            },
        };
        let value = match self.parse_expression() {
            Ok(v) => v,
            Err(e) => {
                return Err(e);
            },
        };
        match self.consume(TokenKind::Semicolon, "Expected ';' after variable declaration") {
            Ok(u) => u,
            Err(e) => {
                return Err(e);
            },
        };

        Ok(Statement::VariableDecl(VariableDecl { name, var_type, value, is_const }))
    }

    /// Parses a function declaration: a name, a parenthesized parameter
    /// list, a return type and a braced body.
    #[verifier::rlimit(60)]
    #[verifier::spinoff_prover]
    fn parse_function_decl(&mut self) -> (r: Result<Statement, String>)
        requires
            old(self).pwf(),
            !sp_at_end(old(self).toks(), old(self).cur()),
        ensures
            final(self).pwf(),
            final(self).tokens == old(self).tokens,
            match sp_function(old(self).toks(), old(self).cur()) {
                Some((s, j)) => r is Ok && r->Ok_0@ == s && final(self).cur() == j && old(
                    self,
                ).cur() < j,
                None => r is Err,
            },
        decreases self.tokens@.len() - self.current, 20int,
    {
        let ghost toks = self.toks();
        let ghost i0 = self.cur();
        self.advance();
        let name = match self.expect_identifier() {
            Ok(n) => n,
            Err(e) => {
                return Err(e);
            },
        };
        match self.consume(TokenKind::LeftParen, "Expected '(' after function name") {
            Ok(u) => u,
            Err(e) => {
                return Err(e);
            },
        };

        let mut parameters: Vec<Parameter> = Vec::new();
        if !self.check(&TokenKind::RightParen) {
            let ghost ip = self.cur();
            proof {
                assert(sp_params(toks, ip, Seq::empty()) is None ==> sp_function(toks, i0)
                    is None);
            }
            loop
                invariant_except_break
                    sp_params(toks, ip, Seq::empty()) == sp_params(
                        toks,
                        self.cur(),
                        view_params(parameters@),
                    ),
                invariant
                    self.pwf(),
                    self.tokens == old(self).tokens,
                    toks == self.toks(),
                    i0 == old(self).cur(),
                    i0 < ip,
                    ip <= self.cur(),
                    sp_params(toks, ip, Seq::empty()) is None ==> sp_function(toks, i0) is None,
                ensures
                    self.pwf(),
                    self.tokens == old(self).tokens,
                    toks == self.toks(),
                    ip <= self.cur(),
                    sp_params(toks, ip, Seq::empty()) == Some(
                        (view_params(parameters@), self.cur()),
                    ),
                decreases self.tokens@.len() - self.current, 6int,
            {
                let param_name = match self.expect_identifier() {
                    Ok(n) => n,
                    Err(e) => {
                        return Err(e);
                    },
                };
                match self.consume(TokenKind::Colon, "Expected ':' in parameter") {
                    Ok(u) => u,
                    Err(e) => {
                        return Err(e);
                    },
                };
                let param_type = match self.parse_type() {
                    Ok(t) => t,
                    Err(e) => {
                        return Err(e);
                    },
                };
                proof {
                    crate::ast::lemma_view_params_push(
                        parameters@,
                        Parameter { name: param_name, param_type },
                    );
                }
                parameters.push(Parameter { name: param_name, param_type });
                if !self.match_token(&TokenKind::Comma) {
                    break ;
                }
            }
        }

        match self.consume(TokenKind::RightParen, "Expected ')' after parameters") {
            Ok(u) => u,
            Err(e) => {
                return Err(e);
            },
        };
        match self.consume(TokenKind::Colon, "Expected ':' after function signature") {
            Ok(u) => u,
            Err(e) => {
                return Err(e);
            },
        };
        let return_type = match self.parse_type() {
            Ok(t) => t,
            Err(e) => {
                return Err(e);
            },
        };
        match self.consume(TokenKind::LeftBrace, "Expected '{' before function body") {
            Ok(u) => u,
            Err(e) => {
                return Err(e);
            },
        };

        let mut body: Vec<Statement> = Vec::new();
        let ghost ib = self.cur();
        proof {
            assert(sp_fn_body(toks, ib, Seq::empty()) is None ==> sp_function(toks, i0) is None);
        }
        loop
            invariant
                self.pwf(),
                self.tokens == old(self).tokens,
                toks == self.toks(),
                i0 == old(self).cur(),
                i0 < ib,
                ib <= self.cur(),
                sp_fn_body(toks, ib, Seq::empty()) == sp_fn_body(
                    toks,
                    self.cur(),
                    view_stmts(body@),
                ),
                sp_fn_body(toks, ib, Seq::empty()) is None ==> sp_function(toks, i0) is None,
            ensures
                self.pwf(),
                self.tokens == old(self).tokens,
                toks == self.toks(),
                ib <= self.cur(),
                sp_fn_body(toks, ib, Seq::empty()) == Some((view_stmts(body@), self.cur())),
            decreases self.tokens@.len() - self.current, 27int,
        {
            if self.check(&TokenKind::RightBrace) {
                break ;
            }
            if self.is_at_end() {
                break ;
            }
            self.skip_newlines();
            let s = match self.parse_statement() {
                Ok(s) => s,
                Err(e) => {
                    return Err(e);
                },
            };
            proof {
                crate::ast::lemma_view_stmts_push(body@, s);
            }
            body.push(s);
        }

        match self.consume(TokenKind::RightBrace, "Expected '}' after function body") {
            Ok(u) => u,
            Err(e) => {
                return Err(e);
            },
        };

        Ok(Statement::FunctionDecl(FunctionDecl { name, parameters, return_type, body }))
    }

    #[verifier::rlimit(60)]
    #[verifier::spinoff_prover]
    fn parse_print_stmt(&mut self) -> (r: Result<Statement, String>)
        requires
            old(self).pwf(),
            !sp_at_end(old(self).toks(), old(self).cur()),
        ensures
            final(self).pwf(),
            final(self).tokens == old(self).tokens,
            match sp_print(old(self).toks(), old(self).cur()) {
                Some((s, j)) => r is Ok && r->Ok_0@ == s && final(self).cur() == j && old(
                    self,
                ).cur() < j,
                None => r is Err,
            },
        decreases self.tokens@.len() - self.current, 20int,
    {
        self.advance();
        match self.consume(TokenKind::LeftParen, "Expected '(' after 'print'") {
            Ok(u) => u,
            Err(e) => {
                return Err(e);
            },
        };
        let expression = match self.parse_expression() {
            Ok(e) => e,
            Err(e) => {
                return Err(e);
            },
        };
        match self.consume(TokenKind::RightParen, "Expected ')' after print expression") {
            Ok(u) => u,
            Err(e) => {
                return Err(e);
            },
        };
        match self.consume(TokenKind::Semicolon, "Expected ';' after print statement") {
            Ok(u) => u,
            Err(e) => {
                return Err(e);
            },
        };

        Ok(Statement::PrintStmt(PrintStmt { expression }))
    }

    #[verifier::rlimit(60)]
    #[verifier::spinoff_prover]
    fn parse_return_stmt(&mut self) -> (r: Result<Statement, String>)
        requires
            old(self).pwf(),
            !sp_at_end(old(self).toks(), old(self).cur()),
        ensures
            final(self).pwf(),
            final(self).tokens == old(self).tokens,
            match sp_return(old(self).toks(), old(self).cur()) {
                Some((s, j)) => r is Ok && r->Ok_0@ == s && final(self).cur() == j && old(
                    self,
                ).cur() < j,
                None => r is Err,
            },
        decreases self.tokens@.len() - self.current, 20int,
    {
        self.advance();
        let value = if self.check(&TokenKind::Semicolon) {
            None
        } else {
            match self.parse_expression() {
                Ok(e) => Some(e),
                Err(e) => {
                    return Err(e);
                },
            }
        };
        match self.consume(TokenKind::Semicolon, "Expected ';' after return statement") {
            Ok(u) => u,
            Err(e) => {
                return Err(e);
            },
        };

        Ok(Statement::ReturnStmt(ReturnStmt { value }))
    }

    #[verifier::rlimit(60)]
    #[verifier::spinoff_prover]
    fn parse_if_else_stmt(&mut self) -> (r: Result<Statement, String>)
        requires
            old(self).pwf(),
            !sp_at_end(old(self).toks(), old(self).cur()),
        ensures
            final(self).pwf(),
            final(self).tokens == old(self).tokens,
            match sp_if(old(self).toks(), old(self).cur()) {
                Some((s, j)) => r is Ok && r->Ok_0@ == s && final(self).cur() == j && old(
                    self,
                ).cur() < j,
                None => r is Err,
            },
        decreases self.tokens@.len() - self.current, 20int,
    {
        self.advance();
        let condition = match self.parse_expression() {
            Ok(e) => e,
            Err(e) => {
                return Err(e);
            },
        };
        match self.consume(TokenKind::LeftBrace, "Expected '{' after if condition") {
            Ok(u) => u,
            Err(e) => {
                return Err(e);
            },
        };
        let then_body = match self.parse_block() {
            Ok(b) => b,
            Err(e) => {
                return Err(e);
            },
        };
        match self.consume(TokenKind::RightBrace, "Expected '}' after if block") {
            Ok(u) => u,
            Err(e) => {
                return Err(e);
            },
        };

        let else_body = if self.match_token(&TokenKind::Else) {
            match self.consume(TokenKind::LeftBrace, "Expected '{' after else") {
                Ok(u) => u,
                Err(e) => {
                    return Err(e);
                },
            };
            let block = match self.parse_block() {
                Ok(b) => b,
                Err(e) => {
                    return Err(e);
                },
            };
            match self.consume(TokenKind::RightBrace, "Expected '}' after else block") {
                Ok(u) => u,
                Err(e) => {
                    return Err(e);
                },
            };
            Some(block)
        } else {
            None
        };

        Ok(Statement::IfElse(IfElseStmt { condition, then_body, else_body }))
    }

    #[verifier::rlimit(60)]
    #[verifier::spinoff_prover]
    fn parse_for_loop(&mut self) -> (r: Result<Statement, String>)
        requires
            old(self).pwf(),
            !sp_at_end(old(self).toks(), old(self).cur()),
        ensures
            final(self).pwf(),
            final(self).tokens == old(self).tokens,
            match sp_for(old(self).toks(), old(self).cur()) {
                Some((s, j)) => r is Ok && r->Ok_0@ == s && final(self).cur() == j && old(
                    self,
                ).cur() < j,
                None => r is Err,
            },
        decreases self.tokens@.len() - self.current, 20int,
    {
        self.advance();
        let variable = match self.expect_identifier() {
            Ok(n) => n,
            Err(e) => {
                return Err(e);
            },
        };
        match self.consume(TokenKind::In, "Expected 'in' in for loop") {
            Ok(u) => u,
            Err(e) => {
                return Err(e);
            },
        };
        let iterable = match self.parse_expression() {
            Ok(e) => e,
            Err(e) => {
                return Err(e);
            },
        };
        match self.consume(TokenKind::LeftBrace, "Expected '{' after for condition") {
            Ok(u) => u,
            Err(e) => {
                return Err(e);
            },
        };
        let body = match self.parse_block() {
            Ok(b) => b,
            Err(e) => {
                return Err(e);
            },
        };
        match self.consume(TokenKind::RightBrace, "Expected '}' after for block") {
            Ok(u) => u,
            Err(e) => {
                return Err(e);
            },
        };

        Ok(Statement::ForLoop(ForLoopStmt { variable, iterable, body }))
    }

    #[verifier::rlimit(60)]
    #[verifier::spinoff_prover]
    fn parse_while_loop(&mut self) -> (r: Result<Statement, String>)
        requires
            old(self).pwf(),
            !sp_at_end(old(self).toks(), old(self).cur()),
        ensures
            final(self).pwf(),
            final(self).tokens == old(self).tokens,
            match sp_while(old(self).toks(), old(self).cur()) {
                Some((s, j)) => r is Ok && r->Ok_0@ == s && final(self).cur() == j && old(
                    self,
                ).cur() < j,
                None => r is Err,
            },
        decreases self.tokens@.len() - self.current, 20int,
    {
        self.advance();
        let condition = match self.parse_expression() {
            Ok(e) => e,
            Err(e) => {
                return Err(e);
            },
        };
        match self.consume(TokenKind::LeftBrace, "Expected '{' after while condition") {
            Ok(u) => u,
            Err(e) => {
                return Err(e);
            },
        };
        let body = match self.parse_block() {
            Ok(b) => b,
            Err(e) => {
                return Err(e);
            },
        };
        match self.consume(TokenKind::RightBrace, "Expected '}' after while block") {
            Ok(u) => u,
            Err(e) => {
                return Err(e);
            },
        };

        Ok(Statement::WhileLoop(WhileLoopStmt { condition, body }))
    }

    #[verifier::rlimit(60)]
    #[verifier::spinoff_prover]
    fn parse_break_stmt(&mut self) -> (r: Result<Statement, String>)
        requires
            old(self).pwf(),
            !sp_at_end(old(self).toks(), old(self).cur()),
        ensures
            final(self).pwf(),
            final(self).tokens == old(self).tokens,
            match sp_break(old(self).toks(), old(self).cur()) {
                Some((s, j)) => r is Ok && r->Ok_0@ == s && final(self).cur() == j && old(
                    self,
                ).cur() < j,
                None => r is Err,
            },
        decreases self.tokens@.len() - self.current, 20int,
    {
        self.advance();
        match self.consume(TokenKind::Semicolon, "Expected ';' after break") {
            Ok(u) => u,
            Err(e) => {
                return Err(e);
            },
        };
        Ok(Statement::BreakStmt)
    }

    #[verifier::rlimit(60)]
    #[verifier::spinoff_prover]
    fn parse_continue_stmt(&mut self) -> (r: Result<Statement, String>)
        requires
            old(self).pwf(),
            !sp_at_end(old(self).toks(), old(self).cur()),
        ensures
            final(self).pwf(),
            final(self).tokens == old(self).tokens,
            match sp_continue(old(self).toks(), old(self).cur()) {
                Some((s, j)) => r is Ok && r->Ok_0@ == s && final(self).cur() == j && old(
                    self,
                ).cur() < j,
                None => r is Err,
            },
        decreases self.tokens@.len() - self.current, 20int,
    {
        self.advance();
        match self.consume(TokenKind::Semicolon, "Expected ';' after continue") {
            Ok(u) => u,
            Err(e) => {
                return Err(e);
            },
        };
        Ok(Statement::ContinueStmt)
    }

    /// Parses a struct declaration: a name and a braced, comma-separated
    /// field list.
    #[verifier::rlimit(60)]
    #[verifier::spinoff_prover]
    fn parse_struct_decl(&mut self) -> (r: Result<Statement, String>)
        requires
            old(self).pwf(),
            !sp_at_end(old(self).toks(), old(self).cur()),
        ensures
            final(self).pwf(),
            final(self).tokens == old(self).tokens,
            match sp_struct(old(self).toks(), old(self).cur()) {
                Some((s, j)) => r is Ok && r->Ok_0@ == s && final(self).cur() == j && old(
                    self,
                ).cur() < j,
                None => r is Err,
            },
        decreases self.tokens@.len() - self.current, 20int,
    {
        let ghost toks = self.toks();
        let ghost i0 = self.cur();
        self.advance();
        let name = match self.expect_identifier() {
            Ok(n) => n,
            Err(e) => {
                return Err(e);
            },
        };
        match self.consume(TokenKind::LeftBrace, "Expected '{' after struct name") {
            Ok(u) => u,
            Err(e) => {
                return Err(e);
            },
        };

        let mut fields: Vec<StructField> = Vec::new();
        let ghost isf = self.cur();
        proof {
            assert(sp_struct_fields(toks, isf, Seq::empty()) is None ==> sp_struct(toks, i0)
                is None);
        }
        loop
            invariant
                self.pwf(),
                self.tokens == old(self).tokens,
                toks == self.toks(),
                i0 == old(self).cur(),
                i0 < isf,
                isf <= self.cur(),
                sp_struct_fields(toks, isf, Seq::empty()) == sp_struct_fields(
                    toks,
                    self.cur(),
                    view_struct_fields(fields@),
                ),
                sp_struct_fields(toks, isf, Seq::empty()) is None ==> sp_struct(toks, i0)
                    is None,
            ensures
                self.pwf(),
                self.tokens == old(self).tokens,
                toks == self.toks(),
                isf <= self.cur(),
                sp_struct_fields(toks, isf, Seq::empty()) == Some(
                    (view_struct_fields(fields@), self.cur()),
                ),
            decreases self.tokens@.len() - self.current, 27int,
        {
            if self.check(&TokenKind::RightBrace) {
                break ;
            }
            if self.is_at_end() {
                break ;
            }
            let field_name = match self.expect_identifier() {
                Ok(n) => n,
                Err(e) => {
                    return Err(e);
                },
            };
            match self.consume(TokenKind::Colon, "Expected ':' after field name") {
                Ok(u) => u,
                Err(e) => {
                    return Err(e);
                },
            };
            let field_type = match self.parse_type() {
                Ok(t) => t,
                Err(e) => {
                    return Err(e);
                },
            };
            proof {
                crate::ast::lemma_view_struct_fields_push(
                    fields@,
                    StructField { name: field_name, field_type },
                );
            }
            fields.push(StructField { name: field_name, field_type });
            if !self.match_token(&TokenKind::Comma) && !self.check(&TokenKind::RightBrace) {
                return Err(String::from_str("Expected ',' or '}' after struct field"));
            }
        }

        match self.consume(TokenKind::RightBrace, "Expected '}' after struct fields") {
            Ok(u) => u,
            Err(e) => {
                return Err(e);
            },
        };

        Ok(Statement::StructDecl(StructDecl { name, fields }))
    }

    /// Parses an enum declaration: a name and a braced, comma-separated
    /// variant list; a variant may carry a parenthesized list of
    /// associated types.
    #[verifier::rlimit(60)]
    #[verifier::spinoff_prover]
    fn parse_enum_decl(&mut self) -> (r: Result<Statement, String>)
        requires
            old(self).pwf(),
            !sp_at_end(old(self).toks(), old(self).cur()),
        ensures
            final(self).pwf(),
            final(self).tokens == old(self).tokens,
            match sp_enum(old(self).toks(), old(self).cur()) {
                Some((s, j)) => r is Ok && r->Ok_0@ == s && final(self).cur() == j && old(
                    self,
                ).cur() < j,
                None => r is Err,
            },
        decreases self.tokens@.len() - self.current, 20int,
    {
        let ghost toks = self.toks();
        let ghost i0 = self.cur();
        self.advance();
        let name = match self.expect_identifier() {
            Ok(n) => n,
            Err(e) => {
                return Err(e);
            },
        };
        match self.consume(TokenKind::LeftBrace, "Expected '{' after enum name") {
            Ok(u) => u,
            Err(e) => {
                return Err(e);
            },
        };

        let mut variants: Vec<EnumVariant> = Vec::new();
        let ghost iv = self.cur();
        proof {
            assert(sp_enum_variants(toks, iv, Seq::empty()) is None ==> sp_enum(toks, i0)
                is None);
        }
        loop
            invariant
                self.pwf(),
                self.tokens == old(self).tokens,
                toks == self.toks(),
                i0 == old(self).cur(),
                i0 < iv,
                iv <= self.cur(),
                sp_enum_variants(toks, iv, Seq::empty()) == sp_enum_variants(
                    toks,
                    self.cur(),
                    view_enum_variants(variants@),
                ),
                sp_enum_variants(toks, iv, Seq::empty()) is None ==> sp_enum(toks, i0) is None,
            ensures
                self.pwf(),
                self.tokens == old(self).tokens,
                toks == self.toks(),
                iv <= self.cur(),
                sp_enum_variants(toks, iv, Seq::empty()) == Some(
                    (view_enum_variants(variants@), self.cur()),
                ),
            decreases self.tokens@.len() - self.current, 27int,
        {
            if self.check(&TokenKind::RightBrace) {
                break ;
            }
            if self.is_at_end() {
                break ;
            }
            let variant_name = match self.expect_identifier() {
                Ok(n) => n,
                Err(e) => {
                    return Err(e);
                },
            };

            let fields = if self.match_token(&TokenKind::LeftParen) {
                let mut field_types: Vec<Type> = Vec::new();
                if !self.check(&TokenKind::RightParen) {
                    let ghost it = self.cur();
                    proof {
                        assert(sp_variant_types(toks, it, Seq::empty()) is None ==> sp_enum(
                            toks,
                            i0,
                        ) is None);
                    }
                    loop
                        invariant_except_break
                            sp_variant_types(toks, it, Seq::empty()) == sp_variant_types(
                                toks,
                                self.cur(),
                                view_types(field_types@),
                            ),
                        invariant
                            self.pwf(),
                            self.tokens == old(self).tokens,
                            toks == self.toks(),
                            i0 == old(self).cur(),
                            i0 < it,
                            it <= self.cur(),
                            sp_variant_types(toks, it, Seq::empty()) is None ==> sp_enum(
                                toks,
                                i0,
                            ) is None,
                        ensures
                            self.pwf(),
                            self.tokens == old(self).tokens,
                            toks == self.toks(),
                            it <= self.cur(),
                            sp_variant_types(toks, it, Seq::empty()) == Some(
                                (view_types(field_types@), self.cur()),
                            ),
                        decreases self.tokens@.len() - self.current, 6int,
                    {
                        let t = match self.parse_type() {
                            Ok(t) => t,
                            Err(e) => {
                                return Err(e);
                            },
                        };
                        proof {
                            crate::ast::lemma_view_types_push(field_types@, t);
                        }
                        field_types.push(t);
                        if !self.match_token(&TokenKind::Comma) {
                            break ;
                        }
                    }
                }
                match self.consume(TokenKind::RightParen, "Expected ')' after enum variant fields")
                    {
                    Ok(u) => u,
                    Err(e) => {
                        return Err(e);
                    },
                };
                Some(field_types)
            } else {
                None
            };

            proof {
                crate::ast::lemma_view_enum_variants_push(
                    variants@,
                    EnumVariant { name: variant_name, fields },
                );
            }
            variants.push(EnumVariant { name: variant_name, fields });
            if !self.match_token(&TokenKind::Comma) && !self.check(&TokenKind::RightBrace) {
                return Err(String::from_str("Expected ',' or '}' after enum variant"));
            }
        }

        match self.consume(TokenKind::RightBrace, "Expected '}' after enum variants") {
            Ok(u) => u,
            Err(e) => {
                return Err(e);
            },
        };

        Ok(Statement::EnumDecl(EnumDecl { name, variants }))
    }

    #[verifier::rlimit(60)]
    #[verifier::spinoff_prover]
    fn parse_try_catch(&mut self) -> (r: Result<Statement, String>)
        requires
            old(self).pwf(),
            !sp_at_end(old(self).toks(), old(self).cur()),
        ensures
            final(self).pwf(),
            final(self).tokens == old(self).tokens,
            match sp_try(old(self).toks(), old(self).cur()) {
                Some((s, j)) => r is Ok && r->Ok_0@ == s && final(self).cur() == j && old(
                    self,
                ).cur() < j,
                None => r is Err,
            },
        decreases self.tokens@.len() - self.current, 20int,
    {
        self.advance();
        match self.consume(TokenKind::LeftBrace, "Expected '{' after 'try'") {
            Ok(u) => u,
            Err(e) => {
                return Err(e);
            },
        };
        let try_body = match self.parse_block() {
            Ok(b) => b,
            Err(e) => {
                return Err(e);
            },
        };
        match self.consume(TokenKind::RightBrace, "Expected '}' after try block") {
            Ok(u) => u,
            Err(e) => {
                return Err(e);
            },
        };
        match self.consume(TokenKind::Catch, "Expected 'catch' after try block") {
            Ok(u) => u,
            Err(e) => {
                return Err(e);
            },
        };

        let catch_param = if self.match_token(&TokenKind::LeftParen) {
            let param = match self.expect_identifier() {
                Ok(p) => Some(p),
                Err(e) => {
                    return Err(e);
                },
            };
            match self.consume(TokenKind::RightParen, "Expected ')' after catch parameter") {
                Ok(u) => u,
                Err(e) => {
                    return Err(e);
                },
            };
            param
        } else {
            None
        };

        match self.consume(TokenKind::LeftBrace, "Expected '{' after 'catch'") {
            Ok(u) => u,
            Err(e) => {
                return Err(e);
            },
        };
        let catch_body = match self.parse_block() {
            Ok(b) => b,
            Err(e) => {
                return Err(e);
            },
        };
        match self.consume(TokenKind::RightBrace, "Expected '}' after catch block") {
            Ok(u) => u,
            Err(e) => {
                return Err(e);
            },
        };

        Ok(Statement::TryCatch(TryCatchStmt { try_body, catch_param, catch_body }))
    }

    #[verifier::rlimit(60)]
    #[verifier::spinoff_prover]
    fn parse_throw_stmt(&mut self) -> (r: Result<Statement, String>)
        requires
            old(self).pwf(),
            !sp_at_end(old(self).toks(), old(self).cur()),
        ensures
            final(self).pwf(),
            final(self).tokens == old(self).tokens,
            match sp_throw(old(self).toks(), old(self).cur()) {
                Some((s, j)) => r is Ok && r->Ok_0@ == s && final(self).cur() == j && old(
                    self,
                ).cur() < j,
                None => r is Err,
            },
        decreases self.tokens@.len() - self.current, 20int,
    {
        self.advance();
        let expression = match self.parse_expression() {
            Ok(e) => e,
            Err(e) => {
                return Err(e);
            },
        };
        match self.consume(TokenKind::Semicolon, "Expected ';' after throw statement") {
            Ok(u) => u,
            Err(e) => {
                return Err(e);
            },
        };

        Ok(Statement::ThrowStmt(ThrowStmt { expression }))
    }

    /// Parses statements up to a closing brace or the end of the input;
    /// the brace itself is left for the caller.
    #[verifier::rlimit(60)]
    #[verifier::spinoff_prover]
    fn parse_block(&mut self) -> (r: Result<Vec<Statement>, String>)
        requires
            old(self).pwf(),
        ensures
            final(self).pwf(),
            final(self).tokens == old(self).tokens,
            match sp_block_loop(old(self).toks(), old(self).cur(), Seq::empty()) {
                Some((ss, j)) => r is Ok && view_stmts(r->Ok_0@) == ss && final(self).cur() == j
                    && old(self).cur() <= j,
                None => r is Err,
            },
        decreases self.tokens@.len() - self.current, 28int,
    {
        let mut statements: Vec<Statement> = Vec::new();

        loop
            invariant
                self.pwf(),
                self.tokens == old(self).tokens,
                old(self).cur() <= self.cur(),
                sp_block_loop(old(self).toks(), old(self).cur(), Seq::empty()) == sp_block_loop(
                    old(self).toks(),
                    self.cur(),
                    view_stmts(statements@),
                ),
            ensures
                self.pwf(),
                self.tokens == old(self).tokens,
                old(self).cur() <= self.cur(),
                sp_block_loop(old(self).toks(), old(self).cur(), Seq::empty()) == Some(
                    (view_stmts(statements@), self.cur()),
                ),
            decreases self.tokens@.len() - self.current, 27int,
        {
            if self.check(&TokenKind::RightBrace) {
                break ;
            }
            if self.is_at_end() {
                break ;
            }
            let s = match self.parse_statement() {
                Ok(s) => s,
                Err(e) => {
                    return Err(e);
                },
            };
            proof {
                crate::ast::lemma_view_stmts_push(statements@, s);
            }
            statements.push(s);
        }

        Ok(statements)
    }

    /// Parses an expression: the lowest-precedence level.
    #[verifier::rlimit(60)]
    #[verifier::spinoff_prover]
    fn parse_expression(&mut self) -> (r: Result<Expression, String>)
        requires
            old(self).pwf(),
        ensures
            final(self).pwf(),
            final(self).tokens == old(self).tokens,
            match sp_expr(old(self).toks(), old(self).cur()) {
                Some((e, j)) => r is Ok && r->Ok_0@ == e && final(self).cur() == j && old(
                    self,
                ).cur() < j,
                None => r is Err,
            },
        decreases self.tokens@.len() - self.current, 16int,
    {
        self.parse_logical_or()
    }

    #[verifier::rlimit(60)]
    #[verifier::spinoff_prover]
    fn parse_logical_or(&mut self) -> (r: Result<Expression, String>)
        requires
            old(self).pwf(),
        ensures
            final(self).pwf(),
            final(self).tokens == old(self).tokens,
            match sp_or(old(self).toks(), old(self).cur()) {
                Some((e, j)) => r is Ok && r->Ok_0@ == e && final(self).cur() == j && old(
                    self,
                ).cur() < j,
                None => r is Err,
            },
        decreases self.tokens@.len() - self.current, 15int,
    {
        let mut expr = match self.parse_logical_and() {
            Ok(e) => e,
            Err(e) => {
                return Err(e);
            },
        };

        loop
            invariant
                self.pwf(),
                self.tokens == old(self).tokens,
                old(self).cur() < self.cur(),
                sp_or(old(self).toks(), old(self).cur()) == sp_or_tail(
                    old(self).toks(),
                    self.cur(),
                    expr@,
                ),
            ensures
                self.pwf(),
                self.tokens == old(self).tokens,
                old(self).cur() < self.cur(),
                sp_or(old(self).toks(), old(self).cur()) == Some((expr@, self.cur())),
            decreases self.tokens@.len() - self.current, 9int,
        {
            match self.match_binary_op(5) {
                Some(op) => {
                    let right = match self.parse_logical_and() {
                        Ok(e) => e,
                        Err(e) => {
                            return Err(e);
                        },
                    };
                    expr = Expression::BinaryOp(Box::new(expr), op, Box::new(right));
                },
                None => {
                    break ;
                },
            }
        }

        Ok(expr)
    }

    #[verifier::rlimit(60)]
    #[verifier::spinoff_prover]
    fn parse_logical_and(&mut self) -> (r: Result<Expression, String>)
        requires
            old(self).pwf(),
        ensures
            final(self).pwf(),
            final(self).tokens == old(self).tokens,
            match sp_and(old(self).toks(), old(self).cur()) {
                Some((e, j)) => r is Ok && r->Ok_0@ == e && final(self).cur() == j && old(
                    self,
                ).cur() < j,
                None => r is Err,
            },
        decreases self.tokens@.len() - self.current, 14int,
    {
        let mut expr = match self.parse_comparison() {
            Ok(e) => e,
            Err(e) => {
                return Err(e);
            },
        };

        loop
            invariant
                self.pwf(),
                self.tokens == old(self).tokens,
                old(self).cur() < self.cur(),
                sp_and(old(self).toks(), old(self).cur()) == sp_and_tail(
                    old(self).toks(),
                    self.cur(),
                    expr@,
                ),
            ensures
                self.pwf(),
                self.tokens == old(self).tokens,
                old(self).cur() < self.cur(),
                sp_and(old(self).toks(), old(self).cur()) == Some((expr@, self.cur())),
            decreases self.tokens@.len() - self.current, 9int,
        {
            match self.match_binary_op(4) {
                Some(op) => {
                    let right = match self.parse_comparison() {
                        Ok(e) => e,
                        Err(e) => {
                            return Err(e);
                        },
                    };
                    expr = Expression::BinaryOp(Box::new(expr), op, Box::new(right));
                },
                None => {
                    break ;
                },
            }
        }

        Ok(expr)
    }

    #[verifier::rlimit(60)]
    #[verifier::spinoff_prover]
    fn parse_comparison(&mut self) -> (r: Result<Expression, String>)
        requires
            old(self).pwf(),
        ensures
            final(self).pwf(),
            final(self).tokens == old(self).tokens,
            match sp_cmp(old(self).toks(), old(self).cur()) {
                Some((e, j)) => r is Ok && r->Ok_0@ == e && final(self).cur() == j && old(
                    self,
                ).cur() < j,
                None => r is Err,
            },
        decreases self.tokens@.len() - self.current, 13int,
    {
        let mut expr = match self.parse_additive() {
            Ok(e) => e,
            Err(e) => {
                return Err(e);
            },
        };

        loop
            invariant
                self.pwf(),
                self.tokens == old(self).tokens,
                old(self).cur() < self.cur(),
                sp_cmp(old(self).toks(), old(self).cur()) == sp_cmp_tail(
                    old(self).toks(),
                    self.cur(),
                    expr@,
                ),
            ensures
                self.pwf(),
                self.tokens == old(self).tokens,
                old(self).cur() < self.cur(),
                sp_cmp(old(self).toks(), old(self).cur()) == Some((expr@, self.cur())),
            decreases self.tokens@.len() - self.current, 9int,
        {
            match self.match_binary_op(3) {
                Some(op) => {
                    let right = match self.parse_additive() {
                        Ok(e) => e,
                        Err(e) => {
                            return Err(e);
                        },
                    };
                    expr = Expression::BinaryOp(Box::new(expr), op, Box::new(right));
                },
                None => {
                    break ;
                },
            }
        }

        Ok(expr)
    }

    #[verifier::rlimit(60)]
    #[verifier::spinoff_prover]
    fn parse_additive(&mut self) -> (r: Result<Expression, String>)
        requires
            old(self).pwf(),
        ensures
            final(self).pwf(),
            final(self).tokens == old(self).tokens,
            match sp_add(old(self).toks(), old(self).cur()) {
                Some((e, j)) => r is Ok && r->Ok_0@ == e && final(self).cur() == j && old(
                    self,
                ).cur() < j,
                None => r is Err,
            },
        decreases self.tokens@.len() - self.current, 12int,
    {
        let mut expr = match self.parse_multiplicative() {
            Ok(e) => e,
            Err(e) => {
                return Err(e);
            },
        };

        loop
            invariant
                self.pwf(),
                self.tokens == old(self).tokens,
                old(self).cur() < self.cur(),
                sp_add(old(self).toks(), old(self).cur()) == sp_add_tail(
                    old(self).toks(),
                    self.cur(),
                    expr@,
                ),
            ensures
                self.pwf(),
                self.tokens == old(self).tokens,
                old(self).cur() < self.cur(),
                sp_add(old(self).toks(), old(self).cur()) == Some((expr@, self.cur())),
            decreases self.tokens@.len() - self.current, 9int,
        {
            match self.match_binary_op(2) {
                Some(op) => {
                    let right = match self.parse_multiplicative() {
                        Ok(e) => e,
                        Err(e) => {
                            return Err(e);
                        },
                    };
                    expr = Expression::BinaryOp(Box::new(expr), op, Box::new(right));
                },
                None => {
                    break ;
                },
            }
        }

        Ok(expr)
    }

    #[verifier::rlimit(60)]
    #[verifier::spinoff_prover]
    fn parse_multiplicative(&mut self) -> (r: Result<Expression, String>)
        requires
            old(self).pwf(),
        ensures
            final(self).pwf(),
            final(self).tokens == old(self).tokens,
            match sp_mul(old(self).toks(), old(self).cur()) {
                Some((e, j)) => r is Ok && r->Ok_0@ == e && final(self).cur() == j && old(
                    self,
                ).cur() < j,
                None => r is Err,
            },
        decreases self.tokens@.len() - self.current, 11int,
    {
        let mut expr = match self.parse_primary() {
            Ok(e) => e,
            Err(e) => {
                return Err(e);
            },
        };

        loop
            invariant
                self.pwf(),
                self.tokens == old(self).tokens,
                old(self).cur() < self.cur(),
                sp_mul(old(self).toks(), old(self).cur()) == sp_mul_tail(
                    old(self).toks(),
                    self.cur(),
                    expr@,
                ),
            ensures
                self.pwf(),
                self.tokens == old(self).tokens,
                old(self).cur() < self.cur(),
                sp_mul(old(self).toks(), old(self).cur()) == Some((expr@, self.cur())),
            decreases self.tokens@.len() - self.current, 9int,
        {
            match self.match_binary_op(1) {
                Some(op) => {
                    let right = match self.parse_primary() {
                        Ok(e) => e,
                        Err(e) => {
                            return Err(e);
                        },
                    };
                    expr = Expression::BinaryOp(Box::new(expr), op, Box::new(right));
                },
                None => {
                    break ;
                },
            }
        }

        Ok(expr)
    }

    /// Parses a comma-separated expression list, as found between call
    /// parentheses and array brackets.
    #[verifier::rlimit(60)]
    #[verifier::spinoff_prover]
    fn parse_expression_list(&mut self) -> (r: Result<Vec<Expression>, String>)
        requires
            old(self).pwf(),
        ensures
            final(self).pwf(),
            final(self).tokens == old(self).tokens,
            match sp_args(old(self).toks(), old(self).cur(), Seq::empty()) {
                Some((es, j)) => r is Ok && view_exprs(r->Ok_0@) == es && final(self).cur() == j
                    && old(self).cur() < j,
                None => r is Err,
            },
        decreases self.tokens@.len() - self.current, 18int,
    {
        let mut items: Vec<Expression> = Vec::new();

        loop
            invariant_except_break
                sp_args(old(self).toks(), old(self).cur(), Seq::empty()) == sp_args(
                    old(self).toks(),
                    self.cur(),
                    view_exprs(items@),
                ),
            invariant
                self.pwf(),
                self.tokens == old(self).tokens,
                old(self).cur() <= self.cur(),
            ensures
                self.pwf(),
                self.tokens == old(self).tokens,
                old(self).cur() < self.cur(),
                sp_args(old(self).toks(), old(self).cur(), Seq::empty()) == Some(
                    (view_exprs(items@), self.cur()),
                ),
            decreases self.tokens@.len() - self.current, 17int,
        {
            let e = match self.parse_expression() {
                Ok(e) => e,
                Err(e) => {
                    return Err(e);
                },
            };
            proof {
                crate::ast::lemma_view_exprs_push(items@, e);
            }
            items.push(e);
            if !self.match_token(&TokenKind::Comma) {
                break ;
            }
        }

        Ok(items)
    }

    /// Parses a primary expression: a literal, an identifier (possibly a
    /// call or a struct literal), an array literal, a negation or a
    /// parenthesized expression, followed by any chain of index, member
    /// and method-call postfixes.
    /// Parses the head of a primary expression: a literal, an
    /// identifier (possibly a call or a struct literal), an array
    /// literal, a negation or a parenthesized expression.
    #[verifier::rlimit(100)]
    #[verifier::spinoff_prover]
    fn parse_primary_head(&mut self) -> (r: Result<Expression, String>)
        requires
            old(self).pwf(),
        ensures
            final(self).pwf(),
            final(self).tokens == old(self).tokens,
            match sp_primary_head(old(self).toks(), old(self).cur()) {
                Some((e, j)) => r is Ok && r->Ok_0@ == e && final(self).cur() == j && old(
                    self,
                ).cur() < j,
                None => r is Err,
            },
        decreases self.tokens@.len() - self.current, 9int,
    {
        proof {
            reveal(sp_primary_head);
            reveal_with_fuel(view_expr, 2);
        }
        let ghost toks = self.toks();
        let ghost i0 = self.cur();
        let head: Expression;

        if let Some(n) = self.peek_number() {
            self.advance();
            head = Expression::NumberLiteral(n);
        } else if let Some(s) = self.peek_string() {
            self.advance();
            head = Expression::StringLiteral(s);
        } else if let Some(b) = self.peek_bool() {
            self.advance();
            head = Expression::BooleanLiteral(b);
        } else if let Some(name) = self.peek_identifier() {
            self.advance();
            if self.match_token(&TokenKind::LeftParen) {
                let args: Vec<Expression>;
                if !self.check(&TokenKind::RightParen) {
                    args = match self.parse_expression_list() {
                        Ok(a) => a,
                        Err(e) => {
                            return Err(e);
                        },
                    };
                } else {
                    args = Vec::new();
                }
                match self.consume(TokenKind::RightParen, "Expected ')' after function arguments")
                    {
                    Ok(u) => u,
                    Err(e) => {
                        return Err(e);
                    },
                };
                head = Expression::FunctionCall(name, args);
            } else if self.check(&TokenKind::LeftBrace) && self.is_struct_literal_ahead() {
                self.advance();
                let mut fields: Vec<(String, Expression)> = Vec::new();
                let ghost ifld = self.cur();
                proof {
                    assert(sp_field_inits(toks, ifld, Seq::empty()) is None ==> sp_primary_head(
                        toks,
                        i0,
                    ) is None);
                }
                loop
                    invariant_except_break
                        sp_field_inits(toks, ifld, Seq::empty()) == sp_field_inits(
                            toks,
                            self.cur(),
                            view_field_inits(fields@),
                        ),
                    invariant
                        self.pwf(),
                        self.tokens == old(self).tokens,
                        toks == self.toks(),
                        i0 == old(self).cur(),
                        i0 < ifld,
                        ifld <= self.cur(),
                        sp_field_inits(toks, ifld, Seq::empty()) is None ==> sp_primary_head(
                            toks,
                            i0,
                        ) is None,
                    ensures
                        self.pwf(),
                        self.tokens == old(self).tokens,
                        toks == self.toks(),
                        ifld <= self.cur(),
                        sp_field_inits(toks, ifld, Seq::empty()) == Some(
                            (view_field_inits(fields@), self.cur()),
                        ),
                    decreases self.tokens@.len() - self.current, 9int,
                {
                    if self.check(&TokenKind::RightBrace) {
                        break ;
                    }
                    if self.is_at_end() {
                        break ;
                    }
                    let field_name = match self.expect_identifier() {
                        Ok(n) => n,
                        Err(e) => {
                            return Err(e);
                        },
                    };
                    match self.consume(TokenKind::Colon, "Expected ':' after field name") {
                        Ok(u) => u,
                        Err(e) => {
                            return Err(e);
                        },
                    };
                    let field_value = match self.parse_expression() {
                        Ok(v) => v,
                        Err(e) => {
                            return Err(e);
                        },
                    };
                    proof {
                        crate::ast::lemma_view_field_inits_push(
                            fields@,
                            (field_name, field_value),
                        );
                    }
                    fields.push((field_name, field_value));
                    if !self.match_token(&TokenKind::Comma) {
                        break ;
                    }
                }
                match self.consume(TokenKind::RightBrace, "Expected '}' after struct literal") {
                    Ok(u) => u,
                    Err(e) => {
                        return Err(e);
                    },
                };
                head = Expression::StructLiteral { name, fields };
            } else {
                head = Expression::Identifier(name);
            }
        } else if self.match_token(&TokenKind::LeftBracket) {
            let elements: Vec<Expression>;
            if !self.check(&TokenKind::RightBracket) {
                elements = match self.parse_expression_list() {
                    Ok(a) => a,
                    Err(e) => {
                        return Err(e);
                    },
                };
            } else {
                elements = Vec::new();
            }
            match self.consume(TokenKind::RightBracket, "Expected ']' after array elements") {
                Ok(u) => u,
                Err(e) => {
                    return Err(e);
                },
            };
            head = Expression::ArrayLiteral(elements);
        } else if self.match_token(&TokenKind::Bang) {
            // The unary-not prefix is lowered to an equality test against
            // false, which the emitted code evaluates as negation.
            let inner = match self.parse_primary() {
                Ok(e) => e,
                Err(e) => {
                    return Err(e);
                },
            };
            head = Expression::BinaryOp(
                Box::new(inner),
                BinaryOp::Equal,
                Box::new(Expression::BooleanLiteral(false)),
            );
        } else if self.match_token(&TokenKind::LeftParen) {
            let inner = match self.parse_expression() {
                Ok(e) => e,
                Err(e) => {
                    return Err(e);
                },
            };
            match self.consume(TokenKind::RightParen, "Expected ')' after expression") {
                Ok(u) => u,
                Err(e) => {
                    return Err(e);
                },
            };
            head = inner;
        } else {
            return Err(self.error_at("Unexpected token in expression"));
        }


        Ok(head)
    }

    /// Parses a primary expression: a head followed by any chain of
    /// index, member and method-call postfixes.
    #[verifier::rlimit(100)]
    #[verifier::spinoff_prover]
    fn parse_primary(&mut self) -> (r: Result<Expression, String>)
        requires
            old(self).pwf(),
        ensures
            final(self).pwf(),
            final(self).tokens == old(self).tokens,
            match sp_primary(old(self).toks(), old(self).cur()) {
                Some((e, j)) => r is Ok && r->Ok_0@ == e && final(self).cur() == j && old(
                    self,
                ).cur() < j,
                None => r is Err,
            },
        decreases self.tokens@.len() - self.current, 10int,
    {
        proof {
            reveal(sp_primary);
        }
        let ghost toks = self.toks();
        let ghost i0 = self.cur();
        let head = match self.parse_primary_head() {
            Ok(e) => e,
            Err(e) => {
                return Err(e);
            },
        };

        let mut expr = head;
        loop
            invariant
                self.pwf(),
                self.tokens == old(self).tokens,
                toks == self.toks(),
                i0 == old(self).cur(),
                i0 < self.cur(),
                sp_primary(toks, i0) == sp_postfix(toks, self.cur(), expr@),
            ensures
                self.pwf(),
                self.tokens == old(self).tokens,
                i0 < self.cur(),
                sp_primary(toks, i0) == Some((expr@, self.cur())),
            decreases self.tokens@.len() - self.current, 9int,
        {
            proof {
                reveal_with_fuel(view_expr, 2);
            }
            if self.match_token(&TokenKind::LeftBracket) {
                let index = match self.parse_expression() {
                    Ok(e) => e,
                    Err(e) => {
                        return Err(e);
                    },
                };
                match self.consume(TokenKind::RightBracket, "Expected ']' after index") {
                    Ok(u) => u,
                    Err(e) => {
                        return Err(e);
                    },
                };
                expr = Expression::IndexAccess { object: Box::new(expr), index: Box::new(index) };
            } else if self.match_token(&TokenKind::Dot) {
                let member = match self.expect_identifier() {
                    Ok(m) => m,
                    Err(e) => {
                        return Err(e);
                    },
                };
                if self.match_token(&TokenKind::LeftParen) {
                    let args: Vec<Expression>;
                    if !self.check(&TokenKind::RightParen) {
                        args = match self.parse_expression_list() {
                            Ok(a) => a,
                            Err(e) => {
                                return Err(e);
                            },
                        };
                    } else {
                        args = Vec::new();
                    }
                    match self.consume(
                        TokenKind::RightParen,
                        "Expected ')' after method arguments",
                    ) {
                        Ok(u) => u,
                        Err(e) => {
                            return Err(e);
                        },
                    };
                    expr = Expression::MethodCall {
                        object: Box::new(expr),
                        method: member,
                        arguments: args,
                    };
                } else {
                    expr = Expression::MemberAccess { object: Box::new(expr), member };
                }
            } else {
                break ;
            }
        }

        Ok(expr)
    }

    /// Parses a type annotation: a base type, optionally wrapped in
    /// array brackets with an element type and an optional literal size.
    #[verifier::rlimit(60)]
    #[verifier::spinoff_prover]
    fn parse_type(&mut self) -> (r: Result<Type, String>)
        requires
            old(self).pwf(),
        ensures
            final(self).pwf(),
            final(self).tokens == old(self).tokens,
            match sp_type(old(self).toks(), old(self).cur()) {
                Some((t, j)) => r is Ok && r->Ok_0@ == t && final(self).cur() == j && old(
                    self,
                ).cur() < j,
                None => r is Err,
            },
        decreases self.tokens@.len() - self.current, 5int,
    {
        let base: Type;
        if self.match_token(&TokenKind::NumberType) {
            base = Type::Number;
        } else if self.match_token(&TokenKind::StringType) {
            base = Type::String;
        } else if self.match_token(&TokenKind::BooleanType) {
            base = Type::Boolean;
        } else if self.match_token(&TokenKind::Void) {
            base = Type::Void;
        } else if self.match_token(&TokenKind::Any) {
            base = Type::Any;
        } else if let Some(name) = self.peek_identifier() {
            self.advance();
            base = Type::Custom(name);
        } else {
            return Err(self.error_at("Expected type"));
        }

        if self.match_token(&TokenKind::LeftBracket) {
            if self.check(&TokenKind::RightBracket) {
                self.advance();
                proof {
                    reveal_with_fuel(view_type, 2);
                }
                return Ok(Type::Array { element_type: Box::new(base), size: None });
            }

            let element_type = match self.parse_type() {
                Ok(t) => t,
                Err(e) => {
                    return Err(e);
                },
            };

            let size = if self.match_token(&TokenKind::Comma) {
                match self.peek_number() {
                    Some(n) => {
                        self.advance();
                        Some(n as usize)
                    },
                    None => {
                        return Err(String::from_str("Expected number literal for array size"));
                    },
                }
            } else {
                None
            };

            match self.consume(TokenKind::RightBracket, "Expected ']' after array type") {
                Ok(u) => u,
                Err(e) => {
                    return Err(e);
                },
            };

            Ok(Type::Array { element_type: Box::new(element_type), size })
        } else {
            Ok(base)
        }
    }
}

} // verus!
