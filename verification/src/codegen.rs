//! Code generation: walks the tree and appends Rust source text to an
//! output buffer. Generation never fails: shapes the tables do not know
//! fall through to a direct pass-through emission.
//!
//! Every emitted byte is pinned: the `*_text` specification functions
//! define the target text of each node, and each emitting method proves
//! that it appends exactly that text. The identifier-casing helpers are
//! pinned by [`snake_of`] and [`convert_of`], and re-running the
//! conversion on an ASCII name is proved to be a no-op (see
//! [`lemma_convert_name_idempotent`]).

use vstd::prelude::*;

use crate::ast::{
    BinaryOp, EnumDecl, EnumDeclV, EnumVariantV, Expression, ExpressionV, ForLoopStmt,
    ForLoopStmtV, FunctionDecl, FunctionDeclV, IfElseStmt, IfElseStmtV, ImportItemV, ImportStmt,
    ImportStmtV, ParameterV, PrintStmt, Program, ProgramV, ReturnStmt, Statement, StatementV,
    StructDecl, StructDeclV, StructFieldV, ThrowStmt, TryCatchStmt, TryCatchStmtV, Type, TypeV,
    VariableDecl, VariableDeclV, WhileLoopStmt, WhileLoopStmtV, view_enum_variants, view_expr,
    view_exprs, view_field_inits, view_import_items, view_params, view_stmt, view_stmts,
    view_struct_fields, view_type, view_types, lemma_view_exprs_index, lemma_view_exprs_len,
    lemma_view_field_inits_index, lemma_view_field_inits_len,
};
use crate::lexer::sbump;
use crate::text::{
    ascii_seq, char_is_lowercase, char_is_numeric, char_is_uppercase, char_lower_first,
    dec_digits, dec_int, is_ascii_char, is_lower_char, is_numeric_char, is_upper_char,
    lower1_char, push_char, push_dec_i32, push_dec_usize, str_eq, str_to_uppercase, upper_seq,
};

verus! {

// ----------------------------------------------------------------------
// Identifier casing.
// ----------------------------------------------------------------------

/// One step of the lower-snake conversion: an uppercase letter gets an
/// underscore before it when it follows a lowercase letter, or when the
/// buffer is not empty and a lowercase letter follows; everything else
/// is copied.
pub open spec fn snake_rec(s: Seq<char>, i: int, prev_lower: bool, acc: Seq<char>) -> Seq<char>
    decreases s.len() - i,
{
    if i < 0 || i >= s.len() {
        acc
    } else {
        let c = s[i];
        if is_upper_char(c) {
            let sep = (prev_lower || (acc.len() > 0 && i + 1 < s.len() && is_lower_char(
                s[i + 1],
            ))) && acc.len() > 0;
            let acc1 = if sep {
                acc.push('_')
            } else {
                acc
            };
            snake_rec(s, i + 1, false, acc1.push(lower1_char(c)))
        } else {
            snake_rec(s, i + 1, is_lower_char(c), acc.push(c))
        }
    }
}

/// The lower-snake conversion of a name.
pub open spec fn snake_of(s: Seq<char>) -> Seq<char> {
    snake_rec(s, 0, false, Seq::empty())
}

/// Whether a name is made of uppercase letters, underscores and numeric
/// characters only: the shape of a module-style constant reference.
pub open spec fn caps_shaped(s: Seq<char>) -> bool {
    forall|i: int|
        0 <= i < s.len() ==> (is_upper_char(#[trigger] s[i]) || s[i] == '_' || is_numeric_char(
            s[i],
        ))
}

/// The automatic naming convention: a constant-shaped name is uppercased
/// wholesale, any other name becomes lower snake case.
pub open spec fn convert_of(s: Seq<char>) -> Seq<char> {
    if caps_shaped(s) {
        upper_seq(s)
    } else {
        snake_of(s)
    }
}

/// Converts a name to lower snake case: an underscore is inserted at
/// each lower-to-upper transition and uppercase letters are lowered.
pub fn to_snake_case(name: &str) -> (r: String)
    ensures
        r@ == snake_of(name@),
{
    let mut result = String::new();
    let mut prev_is_lower = false;
    let n = name.unicode_len();
    let mut i: usize = 0;

    while i < n
        invariant
            i <= n,
            n == name@.len(),
            snake_of(name@) == snake_rec(name@, i as int, prev_is_lower, result@),
        decreases n - i,
    {
        let ch = name.get_char(i);
        if char_is_uppercase(ch) {
            let peek_lower = i + 1 < n && char_is_lowercase(name.get_char(i + 1));
            if (prev_is_lower || (result.unicode_len() > 0 && peek_lower))
                && result.unicode_len() > 0 {
                push_char(&mut result, '_');
            }
            push_char(&mut result, char_lower_first(ch));
            prev_is_lower = false;
        } else {
            push_char(&mut result, ch);
            prev_is_lower = char_is_lowercase(ch);
        }
        i += 1;
    }

    result
}

/// Converts an identifier to the target naming convention: a name shaped
/// like a constant keeps its upper case, anything else becomes lower
/// snake case.
pub fn convert_name(name: &str) -> (r: String)
    ensures
        r@ == convert_of(name@),
{
    let n = name.unicode_len();
    let mut i: usize = 0;
    let mut all_caps = true;

    while i < n
        invariant
            i <= n,
            n == name@.len(),
            all_caps == (forall|j: int|
                0 <= j < i ==> (is_upper_char(#[trigger] name@[j]) || name@[j] == '_'
                    || is_numeric_char(name@[j]))),
        decreases n - i,
    {
        let c = name.get_char(i);
        if !(char_is_uppercase(c) || c == '_' || char_is_numeric(c)) {
            all_caps = false;
            assert(!(is_upper_char(name@[i as int]) || name@[i as int] == '_'
                || is_numeric_char(name@[i as int])));
            i = n;
        } else {
            i += 1;
        }
    }

    if all_caps {
        str_to_uppercase(name)
    } else {
        to_snake_case(name)
    }
}

/// Uppercasing an ASCII constant-shaped name is the identity: uppercase
/// letters, underscores and digits map to themselves.
proof fn lemma_upper_id(s: Seq<char>)
    requires
        ascii_seq(s),
        caps_shaped(s),
    ensures
        upper_seq(s) == s,
    decreases s.len(),
{
    if s.len() > 0 {
        assert(ascii_seq(s.drop_first()) && caps_shaped(s.drop_first())) by {
            assert(forall|i: int|
                0 <= i < s.drop_first().len() ==> #[trigger] s.drop_first()[i] == s[i + 1]);
        }
        lemma_upper_id(s.drop_first());
        assert(upper_seq(s) =~= s);
    }
}

/// On ASCII, the lowered first character is never an uppercase letter.
proof fn lemma_lower1_not_upper(c: char)
    requires
        is_ascii_char(c),
    ensures
        !is_upper_char(lower1_char(c)),
{
}

/// Snake conversion of an ASCII name never produces an uppercase letter.
proof fn lemma_snake_no_upper(s: Seq<char>, i: int, prev: bool, acc: Seq<char>)
    requires
        ascii_seq(s),
        forall|k: int| 0 <= k < acc.len() ==> !is_upper_char(#[trigger] acc[k]),
    ensures
        forall|k: int|
            0 <= k < snake_rec(s, i, prev, acc).len() ==> !is_upper_char(
                #[trigger] snake_rec(s, i, prev, acc)[k],
            ),
    decreases s.len() - i,
{
    if 0 <= i < s.len() {
        let c = s[i];
        if is_upper_char(c) {
            let sep = (prev || (acc.len() > 0 && i + 1 < s.len() && is_lower_char(s[i + 1])))
                && acc.len() > 0;
            let acc1 = if sep {
                acc.push('_')
            } else {
                acc
            };
            lemma_lower1_not_upper(c);
            assert(forall|k: int| 0 <= k < acc1.len() ==> !is_upper_char(#[trigger] acc1[k]));
            let acc2 = acc1.push(lower1_char(c));
            assert(forall|k: int| 0 <= k < acc2.len() ==> !is_upper_char(#[trigger] acc2[k]));
            lemma_snake_no_upper(s, i + 1, false, acc2);
            assert(snake_rec(s, i, prev, acc) == snake_rec(s, i + 1, false, acc2));
        } else {
            assert(forall|k: int|
                0 <= k < acc.push(c).len() ==> !is_upper_char(#[trigger] acc.push(c)[k]));
            lemma_snake_no_upper(s, i + 1, is_lower_char(c), acc.push(c));
            assert(snake_rec(s, i, prev, acc) == snake_rec(s, i + 1, is_lower_char(c), acc.push(c)));
        }
    }
}

/// Snake conversion of an ASCII name stays ASCII.
proof fn lemma_snake_ascii(s: Seq<char>, i: int, prev: bool, acc: Seq<char>)
    requires
        ascii_seq(s),
        ascii_seq(acc),
    ensures
        ascii_seq(snake_rec(s, i, prev, acc)),
    decreases s.len() - i,
{
    if 0 <= i < s.len() {
        let c = s[i];
        if is_upper_char(c) {
            let sep = (prev || (acc.len() > 0 && i + 1 < s.len() && is_lower_char(s[i + 1])))
                && acc.len() > 0;
            let acc1 = if sep {
                acc.push('_')
            } else {
                acc
            };
            assert(ascii_seq(acc1));
            let acc2 = acc1.push(lower1_char(c));
            assert(ascii_seq(acc2));
            lemma_snake_ascii(s, i + 1, false, acc2);
            assert(snake_rec(s, i, prev, acc) == snake_rec(s, i + 1, false, acc2));
        } else {
            assert(ascii_seq(acc.push(c)));
            lemma_snake_ascii(s, i + 1, is_lower_char(c), acc.push(c));
            assert(snake_rec(s, i, prev, acc) == snake_rec(s, i + 1, is_lower_char(c), acc.push(c)));
        }
    }
}

/// On input without uppercase letters, snake conversion only copies.
proof fn lemma_snake_id(s: Seq<char>, i: int, prev: bool, acc: Seq<char>)
    requires
        0 <= i <= s.len(),
        forall|k: int| 0 <= k < s.len() ==> !is_upper_char(#[trigger] s[k]),
    ensures
        snake_rec(s, i, prev, acc) == acc + s.skip(i),
    decreases s.len() - i,
{
    if i < s.len() {
        lemma_snake_id(s, i + 1, is_lower_char(s[i]), acc.push(s[i]));
        assert(acc.push(s[i]) + s.skip(i + 1) =~= acc + s.skip(i));
    } else {
        assert(acc + s.skip(i) =~= acc);
    }
}

/// Re-running identifier case conversion on an already-converted
/// identifier is a no-op, for names of ASCII characters. (Beyond ASCII the
/// case mappings are only named, so nothing general can be concluded of a
/// second pass.)
pub proof fn lemma_convert_name_idempotent(s: Seq<char>)
    requires
        ascii_seq(s),
    ensures
        convert_of(convert_of(s)) == convert_of(s),
{
    if caps_shaped(s) {
        lemma_upper_id(s);
    } else {
        let r = snake_of(s);
        lemma_snake_no_upper(s, 0, false, Seq::empty());
        lemma_snake_ascii(s, 0, false, Seq::empty());
        if caps_shaped(r) {
            lemma_upper_id(r);
        } else {
            lemma_snake_id(r, 0, false, Seq::empty());
            assert(Seq::<char>::empty() + r.skip(0) =~= r);
        }
    }
}

// ----------------------------------------------------------------------
// String-concatenation folding.
// ----------------------------------------------------------------------

/// Whether an expression is a string literal.
pub open spec fn is_string_lit(e: ExpressionV) -> bool {
    e is StringLiteral
}

/// Whether a `+` node is treated as string concatenation: one of its
/// immediate operands is a string literal.
pub open spec fn is_concat(e: ExpressionV) -> bool {
    match e {
        ExpressionV::BinaryOp(l, op, r) => op == BinaryOp::Add && (is_string_lit(*l)
            || is_string_lit(*r)),
        _ => false,
    }
}

/// The operands collected from a left-associated chain of string
/// concatenations; any other expression is a single part.
pub open spec fn parts_of(e: ExpressionV) -> Seq<ExpressionV>
    decreases e,
{
    match e {
        ExpressionV::BinaryOp(l, op, r) => {
            if op == BinaryOp::Add && (is_string_lit(*l) || is_string_lit(*r)) {
                parts_of(*l) + parts_of(*r)
            } else {
                seq![e]
            }
        },
        _ => seq![e],
    }
}

/// Views of a vector of borrowed expressions.
pub open spec fn view_expr_refs(es: Seq<&Expression>) -> Seq<ExpressionV>
    decreases es,
{
    if es.len() == 0 {
        Seq::empty()
    } else {
        view_expr_refs(es.drop_last()).push(view_expr(*es.last()))
    }
}

proof fn lemma_view_expr_refs_push(es: Seq<&Expression>, e: &Expression)
    ensures
        view_expr_refs(es.push(e)) == view_expr_refs(es).push(view_expr(*e)),
{
    assert(es.push(e).drop_last() =~= es);
}

/// Collects the operands of a chain of string concatenations, left to
/// right: a `+` whose immediate operand is a string literal is split
/// recursively, anything else is kept whole.
pub fn collect_string_parts<'a>(expr: &'a Expression, parts: &mut Vec<&'a Expression>)
    ensures
        view_expr_refs(final(parts)@) == view_expr_refs(old(parts)@) + parts_of(expr@),
    decreases expr,
{
    proof {
        reveal_with_fuel(view_expr, 2);
    }
    let split = match expr {
        Expression::BinaryOp(left, op, right) => {
            if matches!(op, BinaryOp::Add) {
                let left_is_string = matches!(&**left, Expression::StringLiteral(_));
                let right_is_string = matches!(&**right, Expression::StringLiteral(_));
                left_is_string || right_is_string
            } else {
                false
            }
        },
        _ => false,
    };

    if split {
        match expr {
            Expression::BinaryOp(left, _, right) => {
                collect_string_parts(left, parts);
                collect_string_parts(right, parts);
                assert(parts_of(expr@) == parts_of(view_expr(**left)) + parts_of(
                    view_expr(**right),
                ));
                assert(view_expr_refs(final(parts)@) =~= view_expr_refs(old(parts)@)
                    + parts_of(expr@));
            },
            _ => {
                proof {
                    assert(false);
                }
            },
        }
    } else {
        proof {
            lemma_view_expr_refs_push(parts@, expr);
        }
        parts.push(expr);
        assert(view_expr_refs(final(parts)@) =~= view_expr_refs(old(parts)@) + parts_of(expr@));
    }
}

// ----------------------------------------------------------------------
// The emitted text, as specification functions over the tree models.
// ----------------------------------------------------------------------

/// Four spaces per indentation level.
pub open spec fn indent_text(n: nat) -> Seq<char>
    decreases n,
{
    if n == 0 {
        Seq::empty()
    } else {
        indent_text((n - 1) as nat) + "    "@
    }
}

/// The target spelling of a type annotation.
pub open spec fn type_text(t: TypeV) -> Seq<char>
    decreases t,
{
    match t {
        TypeV::Number => "i32"@,
        TypeV::String => "String"@,
        TypeV::Boolean => "bool"@,
        TypeV::Void => "()"@,
        TypeV::Any => "String"@,
        TypeV::Array { element_type, size } => match size {
            Some(size) => seq!['['] + type_text(*element_type) + "; "@ + dec_digits(size as nat)
                + seq![']'],
            None => "Vec<"@ + type_text(*element_type) + seq!['>'],
        },
        TypeV::Custom(name) => name,
        TypeV::Inferred => Seq::empty(),
    }
}

/// The infix spelling of a binary operator.
pub open spec fn binop_text(op: BinaryOp) -> Seq<char> {
    match op {
        BinaryOp::Add => seq!['+'],
        BinaryOp::Subtract => seq!['-'],
        BinaryOp::Multiply => seq!['*'],
        BinaryOp::Divide => seq!['/'],
        BinaryOp::Modulo => seq!['%'],
        BinaryOp::Equal => "=="@,
        BinaryOp::NotEqual => "!="@,
        BinaryOp::Greater => seq!['>'],
        BinaryOp::GreaterEqual => ">="@,
        BinaryOp::Less => seq!['<'],
        BinaryOp::LessEqual => "<="@,
        BinaryOp::And => "&&"@,
        BinaryOp::Or => "||"@,
    }
}

/// How many operands a string-concatenation chain flattens to, saturating
/// at the machine limit.
pub open spec fn concat_count(e: ExpressionV) -> int
    decreases e,
{
    if is_concat(e) {
        match e {
            ExpressionV::BinaryOp(l, _, r) => {
                let a = concat_count(*l);
                let b = concat_count(*r);
                if a <= usize::MAX - b {
                    a + b
                } else {
                    usize::MAX as int
                }
            },
            _ => 1,
        }
    } else {
        1
    }
}

/// One positional slot per flattened operand.
pub open spec fn braces_text(n: int) -> Seq<char>
    decreases n,
{
    if n <= 0 {
        Seq::empty()
    } else {
        braces_text(n - 1) + "{}"@
    }
}

/// The flattened operands of a concatenation chain, comma-separated, and
/// the running operand count after them.
pub open spec fn parts_text(e: ExpressionV, before: int) -> (Seq<char>, int)
    decreases e, 3int,
{
    if is_concat(e) {
        match e {
            ExpressionV::BinaryOp(l, _, r) => {
                let (t1, c1) = parts_text(*l, before);
                let (t2, c2) = parts_text(*r, c1);
                (t1 + t2, c2)
            },
            _ => (Seq::empty(), before),
        }
    } else {
        (
            (if before > 0 {
                ", "@
            } else {
                Seq::empty()
            }) + expr_text(e),
            if before < usize::MAX {
                before + 1
            } else {
                before
            },
        )
    }
}

/// A comma-separated expression list.
pub open spec fn args_text(es: Seq<ExpressionV>) -> Seq<char>
    decreases es, 3int,
{
    if es.len() == 0 {
        Seq::empty()
    } else if es.len() == 1 {
        expr_text(es[0])
    } else {
        args_text(es.drop_last()) + ", "@ + expr_text(es.last())
    }
}

/// A comma-separated call argument list; a string-literal argument gains
/// an ownership conversion.
pub open spec fn call_args_text(es: Seq<ExpressionV>) -> Seq<char>
    decreases es, 4int,
{
    if es.len() == 0 {
        Seq::empty()
    } else if es.len() == 1 {
        call_arg_text(es[0])
    } else {
        call_args_text(es.drop_last()) + ", "@ + call_arg_text(es.last())
    }
}

pub open spec fn call_arg_text(e: ExpressionV) -> Seq<char>
    decreases e, 3int,
{
    expr_text(e) + (if is_string_lit(e) {
        ".to_string()"@
    } else {
        Seq::empty()
    })
}

/// The `name: value` pairs of a struct literal, comma-separated.
pub open spec fn field_inits_text(fs: Seq<(Seq<char>, ExpressionV)>) -> Seq<char>
    decreases fs, 3int,
{
    if fs.len() == 0 {
        Seq::empty()
    } else if fs.len() == 1 {
        fs[0].0 + ": "@ + expr_text(fs[0].1)
    } else {
        field_inits_text(fs.drop_last()) + ", "@ + fs.last().0 + ": "@ + expr_text(fs.last().1)
    }
}

/// A method call through the fixed translation table; an unknown name
/// passes through with its arguments unchanged.
#[verifier::opaque]
pub open spec fn method_text(method: Seq<char>, args: Seq<ExpressionV>) -> Seq<char>
    decreases args, 5int,
{
    if method == "push"@ {
        "push"@ + seq!['('] + args_text(args) + seq![')']
    } else if method == "pop"@ {
        "pop()"@
    } else if method == "shift"@ {
        "remove(0)"@
    } else if method == "unshift"@ {
        "insert(0, "@ + (if args.len() > 0 {
            expr_text(args[0])
        } else {
            Seq::empty()
        }) + seq![')']
    } else if method == "slice"@ {
        seq!['['] + (if args.len() >= 1 {
            expr_text(args[0]) + " as usize"@
        } else {
            seq!['0']
        }) + ".."@ + (if args.len() >= 2 {
            expr_text(args[1]) + " as usize"@
        } else {
            Seq::empty()
        }) + "].to_vec()"@
    } else if method == "map"@ || method == "filter"@ {
        method + seq!['('] + args_text(args) + ").collect()"@
    } else if method == "charAt"@ {
        "chars().nth("@ + (if args.len() > 0 {
            expr_text(args[0]) + " as usize"@
        } else {
            Seq::empty()
        }) + ").unwrap_or('\\0')"@
    } else if method == "substring"@ {
        "chars().skip("@ + (if args.len() >= 1 {
            expr_text(args[0]) + " as usize"@
        } else {
            seq!['0']
        }) + ").take("@ + (if args.len() >= 2 {
            seq!['('] + expr_text(args[1]) + " - "@ + expr_text(args[0]) + ") as usize"@
        } else {
            "usize::MAX"@
        }) + ").collect::<String>()"@
    } else if method == "indexOf"@ {
        "find("@ + (if args.len() > 0 {
            expr_text(args[0])
        } else {
            Seq::empty()
        }) + ").map(|i| i as i32).unwrap_or(-1)"@
    } else if method == "toUpperCase"@ {
        "to_uppercase()"@
    } else if method == "toLowerCase"@ {
        "to_lowercase()"@
    } else if method == "trim"@ {
        "trim().to_string()"@
    } else if method == "split"@ {
        "split("@ + (if args.len() > 0 {
            expr_text(args[0])
        } else {
            Seq::empty()
        }) + ").map(|s| s.to_string()).collect::<Vec<String>>()"@
    } else if method == "join"@ {
        "join("@ + (if args.len() > 0 {
            expr_text(args[0])
        } else {
            "\", \""@
        }) + seq![')']
    } else if method == "reverse"@ {
        "iter().rev().cloned().collect::<Vec<_>>()"@
    } else if method == "sort"@ {
        "sort()"@
    } else if method == "includes"@ || method == "contains"@ {
        "contains("@ + (if args.len() > 0 {
            seq!['&'] + expr_text(args[0])
        } else {
            Seq::empty()
        }) + seq![')']
    } else {
        method + seq!['('] + args_text(args) + seq![')']
    }
}

/// The target spelling of an expression.
#[verifier::opaque]
pub open spec fn expr_text(e: ExpressionV) -> Seq<char>
    decreases e, 2int,
{
    match e {
        ExpressionV::NumberLiteral(n) => dec_int(n as int),
        ExpressionV::StringLiteral(s) => seq!['"'] + s + seq!['"'],
        ExpressionV::BooleanLiteral(b) => if b {
            "true"@
        } else {
            "false"@
        },
        ExpressionV::Identifier(name) => convert_of(name),
        ExpressionV::ArrayLiteral(es) => "vec!["@ + args_text(es) + seq![']'],
        ExpressionV::StructLiteral { name, fields } => name + " { "@ + field_inits_text(fields)
            + " }"@,
        ExpressionV::BinaryOp(l, op, r) => {
            if op == BinaryOp::Add && (is_string_lit(*l) || is_string_lit(*r)) {
                let a = concat_count(*l);
                let b = concat_count(*r);
                let total = if a <= usize::MAX - b {
                    a + b
                } else {
                    usize::MAX as int
                };
                if total > 1 {
                    "format!(\""@ + braces_text(total) + "\", "@ + parts_text(*l, 0).0
                        + parts_text(*r, parts_text(*l, 0).1).0 + seq![')']
                } else {
                    expr_text(*l) + ".to_string() + &"@ + expr_text(*r) + ".to_string()"@
                }
            } else {
                expr_text(*l) + seq![' '] + binop_text(op) + seq![' '] + expr_text(*r)
            }
        },
        ExpressionV::FunctionCall(name, args) => snake_of(name) + seq!['('] + call_args_text(args)
            + seq![')'],
        ExpressionV::MethodCall { object, method, arguments } => expr_text(*object) + seq!['.']
            + method_text(method, arguments),
        ExpressionV::IndexAccess { object, index } => expr_text(*object) + seq!['['] + expr_text(
            *index,
        ) + " as usize"@ + seq![']'],
        ExpressionV::MemberAccess { object, member } => expr_text(*object) + seq!['.'] + (
        if member == "length"@ {
            "len() as i32"@
        } else {
            member
        }),
    }
}

/// A path with every slash rewritten to the target namespace separator.
pub open spec fn ns_path_text(s: Seq<char>) -> Seq<char>
    decreases s,
{
    if s.len() == 0 {
        Seq::empty()
    } else {
        ns_path_text(s.drop_last()) + (if s.last() == '/' {
            "::"@
        } else {
            seq![s.last()]
        })
    }
}

/// Whether a path starts with the relative-module marker.
pub open spec fn rel_path(s: Seq<char>) -> bool {
    s.len() >= 2 && s[0] == '.' && s[1] == '/'
}

/// A local import path resolved against the unit's position: the entry
/// unit uses the path as written, a dependent module steps up one
/// namespace level.
pub open spec fn local_path_text(path: Seq<char>, main: bool) -> Seq<char> {
    if rel_path(path) {
        if main {
            ns_path_text(path.skip(2))
        } else {
            "super::"@ + ns_path_text(path.skip(2))
        }
    } else {
        ns_path_text(path)
    }
}

/// One imported name with its optional alias.
pub open spec fn import_item_text(it: ImportItemV) -> Seq<char> {
    it.name + (match it.alias {
        Some(a) => " as "@ + a,
        None => Seq::empty(),
    })
}

/// The imported names: a single (possibly aliased) name, or a braced
/// comma-separated list.
pub open spec fn import_items_text(items: Seq<ImportItemV>) -> Seq<char> {
    if items.len() == 1 {
        import_item_text(items[0])
    } else {
        seq!['{'] + import_items_list_text(items) + seq!['}']
    }
}

pub open spec fn import_items_list_text(items: Seq<ImportItemV>) -> Seq<char>
    decreases items,
{
    if items.len() == 0 {
        Seq::empty()
    } else if items.len() == 1 {
        import_item_text(items[0])
    } else {
        import_items_list_text(items.drop_last()) + ", "@ + import_item_text(items.last())
    }
}

/// A `use` declaration: an outside path verbatim, a local path resolved
/// against the unit's position, then the imported names.
pub open spec fn import_text(im: ImportStmtV, main: bool) -> Seq<char> {
    "use "@ + (if im.is_external {
        im.path
    } else {
        local_path_text(im.path, main)
    }) + "::"@ + import_items_text(im.imports) + ";\n"@
}

/// A comma-separated parameter list, names case-converted.
pub open spec fn params_text(ps: Seq<ParameterV>) -> Seq<char>
    decreases ps,
{
    if ps.len() == 0 {
        Seq::empty()
    } else if ps.len() == 1 {
        param_text(ps[0])
    } else {
        params_text(ps.drop_last()) + ", "@ + param_text(ps.last())
    }
}

pub open spec fn param_text(p: ParameterV) -> Seq<char> {
    snake_of(p.name) + ": "@ + type_text(p.param_type)
}

/// A function declaration at top level: the name is kept as written and a
/// void return type emits no arrow.
pub open spec fn fn_text(f: FunctionDeclV, ind: nat, main: bool) -> Seq<char>
    decreases f, 12int,
{
    indent_text(ind) + "fn "@ + f.name + seq!['('] + params_text(f.parameters) + ") "@ + (
    if !(f.return_type is Void) {
        "-> "@ + type_text(f.return_type) + seq![' ']
    } else {
        Seq::empty()
    }) + "{\n"@ + stmts_text(f.body, sbump(ind), main) + indent_text(ind) + "}\n\n"@
}

/// A function declaration after a visibility qualifier.
pub open spec fn fn_pub_text(f: FunctionDeclV, ind: nat, main: bool) -> Seq<char>
    decreases f, 12int,
{
    "fn "@ + f.name + seq!['('] + params_text(f.parameters) + seq![')'] + (
    if !(f.return_type is Void) {
        " -> "@ + type_text(f.return_type)
    } else {
        Seq::empty()
    }) + " {\n"@ + stmts_text(f.body, sbump(ind), main) + indent_text(ind) + "}\n\n"@
}

/// A variable declaration: a mutable binding with a case-converted name,
/// or an upper-cased constant whose missing annotation is defaulted from
/// the initializer's literal shape.
pub open spec fn vardecl_text(v: VariableDeclV, ind: nat) -> Seq<char> {
    indent_text(ind) + (if v.is_const {
        "const "@ + upper_seq(v.name) + ": "@ + const_type_text(v)
    } else {
        "let mut "@ + snake_of(v.name) + (match v.var_type {
            Some(t) => ": "@ + type_text(t),
            None => Seq::empty(),
        })
    }) + " = "@ + init_text(v) + ";\n"@
}

pub open spec fn const_type_text(v: VariableDeclV) -> Seq<char> {
    match v.var_type {
        Some(t) => if t is String {
            "&str"@
        } else {
            type_text(t)
        },
        None => match v.value {
            ExpressionV::NumberLiteral(_) => "i32"@,
            ExpressionV::StringLiteral(_) => "&str"@,
            ExpressionV::BooleanLiteral(_) => "bool"@,
            _ => "i32"@,
        },
    }
}

/// Whether a binding's string-literal initializer gains an ownership
/// conversion: the declared (or defaulted) type is string-like.
pub open spec fn init_to_string(v: VariableDeclV) -> bool {
    !v.is_const && (match v.var_type {
        Some(t) => v.value is StringLiteral && (t is String || t is Any),
        None => v.value is StringLiteral,
    })
}

/// Whether the initializer uses fixed-size array bracket syntax.
pub open spec fn init_static_array(v: VariableDeclV) -> bool {
    match v.var_type {
        Some(TypeV::Array { size, .. }) => size is Some && v.value is ArrayLiteral,
        _ => false,
    }
}

pub open spec fn init_text(v: VariableDeclV) -> Seq<char> {
    if init_to_string(v) {
        expr_text(v.value) + ".to_string()"@
    } else if init_static_array(v) {
        match v.value {
            ExpressionV::ArrayLiteral(es) => seq!['['] + args_text(es) + seq![']'],
            _ => Seq::empty(),
        }
    } else {
        expr_text(v.value)
    }
}

/// One struct field line at the given depth.
pub open spec fn struct_field_text(f: StructFieldV, ind2: nat, pub_fields: bool) -> Seq<char> {
    indent_text(ind2) + (if pub_fields {
        "pub "@
    } else {
        Seq::empty()
    }) + f.name + ": "@ + type_text(f.field_type) + ",\n"@
}

pub open spec fn struct_fields_text(fs: Seq<StructFieldV>, ind2: nat, pub_fields: bool) -> Seq<
    char,
>
    decreases fs,
{
    if fs.len() == 0 {
        Seq::empty()
    } else {
        struct_fields_text(fs.drop_last(), ind2, pub_fields) + struct_field_text(
            fs.last(),
            ind2,
            pub_fields,
        )
    }
}

/// A struct declaration body, after any derive line and qualifier.
pub open spec fn struct_body_text(d: StructDeclV, ind: nat, pub_fields: bool) -> Seq<char> {
    "struct "@ + d.name + " {\n"@ + struct_fields_text(d.fields, sbump(ind), pub_fields)
        + indent_text(ind) + "}\n\n"@
}

pub open spec fn variant_types_text(ts: Seq<TypeV>) -> Seq<char>
    decreases ts,
{
    if ts.len() == 0 {
        Seq::empty()
    } else if ts.len() == 1 {
        type_text(ts[0])
    } else {
        variant_types_text(ts.drop_last()) + ", "@ + type_text(ts.last())
    }
}

/// One enum variant line at the given depth, with its optional
/// parenthesized associated types.
pub open spec fn enum_variant_text(v: EnumVariantV, ind2: nat) -> Seq<char> {
    indent_text(ind2) + v.name + (match v.fields {
        Some(ts) => seq!['('] + variant_types_text(ts) + seq![')'],
        None => Seq::empty(),
    }) + ",\n"@
}

pub open spec fn enum_variants_text(vs: Seq<EnumVariantV>, ind2: nat) -> Seq<char>
    decreases vs,
{
    if vs.len() == 0 {
        Seq::empty()
    } else {
        enum_variants_text(vs.drop_last(), ind2) + enum_variant_text(vs.last(), ind2)
    }
}

/// An enum declaration body, after any derive line and qualifier.
pub open spec fn enum_body_text(d: EnumDeclV, ind: nat) -> Seq<char> {
    "enum "@ + d.name + " {\n"@ + enum_variants_text(d.variants, sbump(ind)) + indent_text(ind)
        + "}\n\n"@
}

/// An exported declaration: the inner declaration behind a visibility
/// qualifier, with derive lines on structs and enums; anything else
/// exports as nothing.
pub open spec fn export_text(inner: StatementV, ind: nat, main: bool) -> Seq<char>
    decreases inner, 13int,
{
    match inner {
        StatementV::FunctionDecl(f) => indent_text(ind) + "pub "@ + fn_pub_text(f, ind, main),
        StatementV::StructDecl(d) => indent_text(ind) + "#[derive(Debug, Clone)]\n"@ + indent_text(
            ind,
        ) + "pub "@ + struct_body_text(d, ind, true),
        StatementV::EnumDecl(d) => indent_text(ind) + "#[derive(Debug, Clone, PartialEq)]\n"@
            + indent_text(ind) + "pub "@ + enum_body_text(d, ind),
        StatementV::VariableDecl(v) => indent_text(ind) + "pub "@ + (if v.is_const {
            "const "@ + upper_seq(v.name)
        } else {
            "static mut "@ + v.name
        }) + (match v.var_type {
            Some(t) => ": "@ + (if v.is_const && t is String {
                "&str"@
            } else {
                type_text(t)
            }),
            None => Seq::empty(),
        }) + " = "@ + expr_text(v.value) + ";\n"@,
        _ => Seq::empty(),
    }
}

/// The target text of one statement at the given depth.
#[verifier::opaque]
pub open spec fn stmt_text(s: StatementV, ind: nat, main: bool) -> Seq<char>
    decreases s, 14int,
{
    match s {
        StatementV::ImportStmt(im) => import_text(im, main),
        StatementV::ExportStmt(inner) => export_text(*inner, ind, main),
        StatementV::VariableDecl(v) => vardecl_text(v, ind),
        StatementV::FunctionDecl(f) => fn_text(f, ind, main),
        StatementV::StructDecl(d) => indent_text(ind) + "#[derive(Debug, Clone)]\n"@ + indent_text(
            ind,
        ) + struct_body_text(d, ind, false),
        StatementV::EnumDecl(d) => indent_text(ind) + "#[derive(Debug, Clone, PartialEq)]\n"@
            + indent_text(ind) + enum_body_text(d, ind),
        StatementV::PrintStmt(p) => indent_text(ind) + "println!(\"{}\""@ + ", "@ + expr_text(
            p.expression,
        ) + ");\n"@,
        StatementV::ReturnStmt(r) => indent_text(ind) + "return "@ + (match r.value {
            Some(e) => expr_text(e),
            None => Seq::empty(),
        }) + ";\n"@,
        StatementV::ExpressionStmt(e) => indent_text(ind) + expr_text(e) + ";\n"@,
        StatementV::IfElse(i) => indent_text(ind) + "if "@ + expr_text(i.condition) + " {\n"@
            + stmts_text(i.then_body, sbump(ind), main) + indent_text(ind) + (match i.else_body {
            Some(eb) => "} else {\n"@ + stmts_text(eb, sbump(ind), main) + indent_text(ind)
                + "}\n"@,
            None => "}\n"@,
        }),
        StatementV::ForLoop(f) => indent_text(ind) + "for "@ + f.variable + " in "@ + expr_text(
            f.iterable,
        ) + " {\n"@ + stmts_text(f.body, sbump(ind), main) + indent_text(ind) + "}\n"@,
        StatementV::WhileLoop(w) => indent_text(ind) + "while "@ + expr_text(w.condition) + " {\n"@
            + stmts_text(w.body, sbump(ind), main) + indent_text(ind) + "}\n"@,
        StatementV::BreakStmt => indent_text(ind) + "break;\n"@,
        StatementV::ContinueStmt => indent_text(ind) + "continue;\n"@,
        StatementV::TryCatch(t) => indent_text(ind)
            + "match (|| -> Result<(), Box<dyn std::error::Error>> {\n"@ + stmts_text(
            t.try_body,
            sbump(ind),
            main,
        ) + indent_text(sbump(ind)) + "Ok(())\n"@ + indent_text(ind) + "})() {\n"@ + indent_text(
            sbump(ind),
        ) + "Ok(_) => {},\n"@ + indent_text(sbump(ind)) + "Err("@ + (match t.catch_param {
            Some(p) => p,
            None => "_err"@,
        }) + ") => {\n"@ + stmts_text(t.catch_body, sbump(sbump(ind)), main) + indent_text(
            sbump(ind),
        ) + "}\n"@ + indent_text(ind) + "}\n"@,
        StatementV::ThrowStmt(t) => indent_text(ind) + "panic!(\"{}\""@ + ", "@ + expr_text(
            t.expression,
        ) + ");\n"@,
    }
}

/// The target text of a statement sequence, in order, at one depth.
pub open spec fn stmts_text(ss: Seq<StatementV>, ind: nat, main: bool) -> Seq<char>
    decreases ss, 15int,
{
    if ss.len() == 0 {
        Seq::empty()
    } else {
        stmts_text(ss.drop_last(), ind, main) + stmt_text(ss.last(), ind, main)
    }
}

/// Whether the program declares a function named `main`.
pub open spec fn has_main_fn(ss: Seq<StatementV>) -> bool {
    exists|i: int|
        0 <= i < ss.len() && (#[trigger] ss[i]) is FunctionDecl && ss[i]->FunctionDecl_0.name
            == "main"@
}

/// The whole emitted unit: the entry unit wraps a program without a
/// declared `main` in a synthesized one; everything else is the
/// statements in order.
pub open spec fn program_text(p: ProgramV, main: bool, ind0: nat) -> Seq<char> {
    if main && !has_main_fn(p.statements) {
        "fn main() {\n"@ + stmts_text(p.statements, 1, main) + "}\n"@
    } else {
        stmts_text(p.statements, ind0, main)
    }
}

// ----------------------------------------------------------------------
// The generator.
// ----------------------------------------------------------------------

/// The code generator: an output buffer, the current indentation depth,
/// and whether the unit being generated is the program's entry unit
/// (which receives a synthesized `main` wrapper when none is declared).
pub struct Codegen {
    output: String,
    indent_level: usize,
    is_main_file: bool,
}

impl Codegen {
    /// The text emitted so far.
    pub closed spec fn out(&self) -> Seq<char> {
        self.output@
    }

    /// Whether this generator emits the program's entry unit.
    pub closed spec fn entry_unit(&self) -> bool {
        self.is_main_file
    }

    /// The current indentation depth.
    pub closed spec fn ind(&self) -> nat {
        self.indent_level as nat
    }

    /// True of a generator that has not emitted anything yet.
    pub closed spec fn fresh(&self) -> bool {
        self.output@ == Seq::<char>::empty() && self.indent_level == 0
    }

    /// A generator for the program's entry unit.
    pub fn new() -> (g: Codegen)
        ensures
            g.fresh(),
            g.entry_unit(),
    {
        Codegen { output: String::new(), indent_level: 0, is_main_file: true }
    }

    /// A generator for a dependent module: no `main` wrapper is ever
    /// synthesized around its statements.
    pub fn new_module() -> (g: Codegen)
        ensures
            g.fresh(),
            !g.entry_unit(),
    {
        Codegen { output: String::new(), indent_level: 0, is_main_file: false }
    }

    fn out_str(&mut self, s: &str)
        ensures
            final(self).output@ == old(self).output@ + s@,
            final(self).indent_level == old(self).indent_level,
            final(self).is_main_file == old(self).is_main_file,
    {
        self.output.append(s);
    }

    fn out_char(&mut self, c: char)
        ensures
            final(self).output@ == old(self).output@ + seq![c],
            final(self).indent_level == old(self).indent_level,
            final(self).is_main_file == old(self).is_main_file,
    {
        push_char(&mut self.output, c);
        assert(final(self).output@ =~= old(self).output@ + seq![c]);
    }

    /// Appends a borrowed string field to the output.
    fn out_string_field(&mut self, s: &String)
        ensures
            final(self).output@ == old(self).output@ + s@,
            final(self).indent_level == old(self).indent_level,
            final(self).is_main_file == old(self).is_main_file,
    {
        let mut tmp = String::new();
        tmp.append(s.as_str());
        self.output.append(tmp.as_str());
    }

    fn out_dec_usize(&mut self, v: usize)
        ensures
            final(self).output@ == old(self).output@ + dec_digits(v as nat),
            final(self).indent_level == old(self).indent_level,
            final(self).is_main_file == old(self).is_main_file,
    {
        push_dec_usize(&mut self.output, v);
    }

    fn out_dec_i32(&mut self, v: i32)
        ensures
            final(self).output@ == old(self).output@ + dec_int(v as int),
            final(self).indent_level == old(self).indent_level,
            final(self).is_main_file == old(self).is_main_file,
    {
        push_dec_i32(&mut self.output, v);
    }

    fn indent_more(&mut self)
        ensures
            final(self).output@ == old(self).output@,
            final(self).is_main_file == old(self).is_main_file,
            final(self).indent_level as nat == sbump(old(self).indent_level as nat),
    {
        if self.indent_level < usize::MAX {
            self.indent_level = self.indent_level + 1;
        }
    }

    /// Emits four spaces per indentation level.
    fn emit_indent(&mut self)
        ensures
            final(self).output@ == old(self).output@ + indent_text(old(self).indent_level as nat),
            final(self).indent_level == old(self).indent_level,
            final(self).is_main_file == old(self).is_main_file,
    {
        let ghost start = self.output@;
        let n = self.indent_level;
        let mut i: usize = 0;
        assert(start =~= start + indent_text(0));
        while i < n
            invariant
                self.indent_level == n,
                self.is_main_file == old(self).is_main_file,
                i <= n,
                self.output@ == start + indent_text(i as nat),
            decreases n - i,
        {
            self.out_str("    ");
            proof {
                assert(self.output@ =~= start + indent_text((i + 1) as nat));
            }
            i += 1;
        }
    }

    /// Emits the target spelling of a type annotation: `number` is a
    /// 32-bit integer, `string` and `any` the owned string type, arrays
    /// become growable vectors or fixed-size arrays, a custom name
    /// passes through, and an inferred type emits nothing.
    fn emit_type(&mut self, type_: &Type)
        ensures
            final(self).output@ == old(self).output@ + type_text(type_@),
            final(self).indent_level == old(self).indent_level,
            final(self).is_main_file == old(self).is_main_file,
        decreases type_,
    {
        match type_ {
            Type::Number => self.out_str("i32"),
            Type::String => self.out_str("String"),
            Type::Boolean => self.out_str("bool"),
            Type::Void => self.out_str("()"),
            Type::Any => self.out_str("String"),
            Type::Array { element_type, size } => {
                match size {
                    Some(size) => {
                        self.out_char('[');
                        self.emit_type(element_type);
                        self.out_str("; ");
                        self.out_dec_usize(*size);
                        self.out_char(']');
                    },
                    None => {
                        self.out_str("Vec<");
                        self.emit_type(element_type);
                        self.out_char('>');
                    },
                }
            },
            Type::Custom(name) => {
                self.out_string_field(name);
            },
            Type::Inferred => {},
        }
        assert(final(self).output@ =~= old(self).output@ + type_text(view_type(*type_)));
    }

    /// Emits the infix spelling of a binary operator.
    fn emit_binary_op(&mut self, op: &BinaryOp)
        ensures
            final(self).output@ == old(self).output@ + binop_text(*op),
            final(self).indent_level == old(self).indent_level,
            final(self).is_main_file == old(self).is_main_file,
    {
        match op {
            BinaryOp::Add => self.out_char('+'),
            BinaryOp::Subtract => self.out_char('-'),
            BinaryOp::Multiply => self.out_char('*'),
            BinaryOp::Divide => self.out_char('/'),
            BinaryOp::Modulo => self.out_char('%'),
            BinaryOp::Equal => self.out_str("=="),
            BinaryOp::NotEqual => self.out_str("!="),
            BinaryOp::Greater => self.out_char('>'),
            BinaryOp::GreaterEqual => self.out_str(">="),
            BinaryOp::Less => self.out_char('<'),
            BinaryOp::LessEqual => self.out_str("<="),
            BinaryOp::And => self.out_str("&&"),
            BinaryOp::Or => self.out_str("||"),
        }
    }

    /// The number of operands a string-concatenation chain flattens to;
    /// saturates at the machine limit.
    fn count_parts(expr: &Expression) -> (c: usize)
        ensures
            c as int == concat_count(expr@),
            c >= 1,
        decreases expr,
    {
        proof {
            reveal_with_fuel(view_expr, 2);
        }
        match expr {
            Expression::BinaryOp(left, op, right) => {
                let is_add = matches!(op, BinaryOp::Add);
                let left_str = matches!(&**left, Expression::StringLiteral(_));
                let right_str = matches!(&**right, Expression::StringLiteral(_));
                if is_add && (left_str || right_str) {
                    let a = Self::count_parts(left);
                    let b = Self::count_parts(right);
                    if a <= usize::MAX - b {
                        a + b
                    } else {
                        usize::MAX
                    }
                } else {
                    1
                }
            },
            _ => 1,
        }
    }

    /// Emits the flattened operands of a string-concatenation chain,
    /// comma-separated; `before` counts operands already emitted.
    #[verifier::rlimit(100)]
    #[verifier::spinoff_prover]
    fn emit_concat_parts(&mut self, expr: &Expression, before: usize) -> (c: usize)
        ensures
            final(self).output@ == old(self).output@ + parts_text(expr@, before as int).0,
            c as int == parts_text(expr@, before as int).1,
            final(self).indent_level == old(self).indent_level,
            final(self).is_main_file == old(self).is_main_file,
        decreases expr, 3int,
    {
        proof {
            reveal_with_fuel(view_expr, 2);
        }
        let split = match expr {
            Expression::BinaryOp(left, op, right) => {
                matches!(op, BinaryOp::Add) && (matches!(&**left, Expression::StringLiteral(_))
                    || matches!(&**right, Expression::StringLiteral(_)))
            },
            _ => false,
        };
        if split {
            match expr {
                Expression::BinaryOp(left, _, right) => {
                    let c1 = self.emit_concat_parts(left, before);
                    let c2 = self.emit_concat_parts(right, c1);
                    assert(final(self).output@ =~= old(self).output@ + parts_text(
                        expr@,
                        before as int,
                    ).0);
                    c2
                },
                _ => before,
            }
        } else {
            if before > 0 {
                self.out_str(", ");
            }
            self.generate_expression(expr);
            proof {
                assert(final(self).output@ =~= old(self).output@ + parts_text(
                    expr@,
                    before as int,
                ).0);
            }
            if before < usize::MAX {
                before + 1
            } else {
                before
            }
        }
    }

    /// Emits an expression. Literals print themselves, identifiers are
    /// case-converted, string concatenation chains fold into one
    /// formatted-output call, and the method table maps source
    /// collection and string methods onto their target equivalents;
    /// anything unknown passes through by name.
    #[verifier::rlimit(100)]
    #[verifier::spinoff_prover]
    fn generate_expression(&mut self, expr: &Expression)
        ensures
            final(self).output@ == old(self).output@ + expr_text(expr@),
            final(self).indent_level == old(self).indent_level,
            final(self).is_main_file == old(self).is_main_file,
        decreases expr, 2int,
    {
        proof {
            reveal(expr_text);
            reveal_with_fuel(view_expr, 2);
        }
        match expr {
            Expression::NumberLiteral(n) => {
                self.out_dec_i32(*n);
            },
            Expression::StringLiteral(s) => {
                self.out_char('"');
                self.out_string_field(s);
                self.out_char('"');
                assert(final(self).output@ =~= old(self).output@ + expr_text(expr@));
            },
            Expression::BooleanLiteral(b) => {
                if *b {
                    self.out_str("true");
                } else {
                    self.out_str("false");
                }
            },
            Expression::Identifier(name) => {
                let converted = convert_name(name.as_str());
                self.out_string_field(&converted);
            },
            Expression::ArrayLiteral(elements) => {
                self.out_str("vec![");
                self.emit_argument_list(elements);
                self.out_char(']');
                assert(final(self).output@ =~= old(self).output@ + expr_text(expr@));
            },
            Expression::StructLiteral { name, fields } => {
                self.out_string_field(name);
                self.out_str(" { ");
                self.emit_field_inits(fields);
                self.out_str(" }");
                assert(final(self).output@ =~= old(self).output@ + expr_text(expr@));
            },
            Expression::BinaryOp(left, op, right) => {
                let is_add = matches!(op, BinaryOp::Add);
                let left_str = matches!(&**left, Expression::StringLiteral(_));
                let right_str = matches!(&**right, Expression::StringLiteral(_));
                if is_add && (left_str || right_str) {
                    let a = Self::count_parts(left);
                    let b = Self::count_parts(right);
                    let total = if a <= usize::MAX - b {
                        a + b
                    } else {
                        usize::MAX
                    };
                    if total > 1 {
                        self.out_str("format!(\"");
                        let ghost mid = self.output@;
                        let mut i: usize = 0;
                        assert(mid =~= mid + braces_text(0));
                        while i < total
                            invariant
                                i <= total,
                                self.is_main_file == old(self).is_main_file,
                                self.indent_level == old(self).indent_level,
                                self.output@ == mid + braces_text(i as int),
                            decreases total - i,
                        {
                            self.out_str("{}");
                            proof {
                                assert(self.output@ =~= mid + braces_text(i + 1));
                            }
                            i += 1;
                        }
                        self.out_str("\", ");
                        let c1 = self.emit_concat_parts(left, 0);
                        self.emit_concat_parts(right, c1);
                        self.out_char(')');
                        assert(final(self).output@ =~= old(self).output@ + expr_text(expr@));
                    } else {
                        self.generate_expression(left);
                        self.out_str(".to_string() + &");
                        self.generate_expression(right);
                        self.out_str(".to_string()");
                        assert(final(self).output@ =~= old(self).output@ + expr_text(expr@));
                    }
                } else {
                    self.generate_expression(left);
                    self.out_char(' ');
                    self.emit_binary_op(op);
                    self.out_char(' ');
                    self.generate_expression(right);
                    assert(final(self).output@ =~= old(self).output@ + expr_text(expr@));
                }
            },
            Expression::FunctionCall(name, args) => {
                let converted = to_snake_case(name.as_str());
                self.out_string_field(&converted);
                self.out_char('(');
                self.emit_call_args(args);
                self.out_char(')');
                assert(final(self).output@ =~= old(self).output@ + expr_text(expr@));
            },
            Expression::MethodCall { object, method, arguments } => {
                self.generate_expression(object);
                self.out_char('.');
                self.emit_method_call(method, arguments);
                assert(final(self).output@ =~= old(self).output@ + expr_text(expr@));
            },
            Expression::IndexAccess { object, index } => {
                self.generate_expression(object);
                self.out_char('[');
                self.generate_expression(index);
                self.out_str(" as usize");
                self.out_char(']');
                assert(final(self).output@ =~= old(self).output@ + expr_text(expr@));
            },
            Expression::MemberAccess { object, member } => {
                self.generate_expression(object);
                self.out_char('.');
                if str_eq(member.as_str(), "length") {
                    self.out_str("len() as i32");
                } else {
                    self.out_string_field(member);
                }
                assert(final(self).output@ =~= old(self).output@ + expr_text(expr@));
            },
        }
    }

    /// Emits a method call through the fixed translation table; an
    /// unknown method name passes through with its arguments unchanged.
    #[verifier::rlimit(100)]
    #[verifier::spinoff_prover]
    fn emit_method_call(&mut self, method: &String, arguments: &Vec<Expression>)
        ensures
            final(self).output@ == old(self).output@ + method_text(method@, view_exprs(
                arguments@,
            )),
            final(self).indent_level == old(self).indent_level,
            final(self).is_main_file == old(self).is_main_file,
        decreases arguments, 5int,
    {
        proof {
            reveal(method_text);
            lemma_view_exprs_len(arguments@);
        }
        if str_eq(method.as_str(), "push") {
            self.out_str("push");
            self.out_char('(');
            self.emit_argument_list(arguments);
            self.out_char(')');
        } else if str_eq(method.as_str(), "pop") {
            self.out_str("pop()");
        } else if str_eq(method.as_str(), "shift") {
            self.out_str("remove(0)");
        } else if str_eq(method.as_str(), "unshift") {
            self.out_str("insert(0, ");
            if arguments.len() > 0 {
                self.generate_expression(&arguments[0]);
                proof {
                    lemma_view_exprs_index(arguments@, 0);
                }
            }
            self.out_char(')');
        } else if str_eq(method.as_str(), "slice") {
            self.out_char('[');
            if arguments.len() >= 1 {
                self.generate_expression(&arguments[0]);
                proof {
                    lemma_view_exprs_index(arguments@, 0);
                }
                self.out_str(" as usize");
            } else {
                self.out_char('0');
            }
            self.out_str("..");
            if arguments.len() >= 2 {
                self.generate_expression(&arguments[1]);
                proof {
                    lemma_view_exprs_index(arguments@, 1);
                }
                self.out_str(" as usize");
            }
            self.out_str("].to_vec()");
        } else if str_eq(method.as_str(), "map") || str_eq(method.as_str(), "filter") {
            self.out_string_field(method);
            self.out_char('(');
            self.emit_argument_list(arguments);
            self.out_str(").collect()");
        } else if str_eq(method.as_str(), "charAt") {
            self.out_str("chars().nth(");
            if arguments.len() > 0 {
                self.generate_expression(&arguments[0]);
                proof {
                    lemma_view_exprs_index(arguments@, 0);
                }
                self.out_str(" as usize");
            }
            self.out_str(").unwrap_or('\\0')");
        } else if str_eq(method.as_str(), "substring") {
            self.out_str("chars().skip(");
            if arguments.len() >= 1 {
                self.generate_expression(&arguments[0]);
                proof {
                    lemma_view_exprs_index(arguments@, 0);
                }
                self.out_str(" as usize");
            } else {
                self.out_char('0');
            }
            self.out_str(").take(");
            if arguments.len() >= 2 {
                self.out_char('(');
                self.generate_expression(&arguments[1]);
                proof {
                    lemma_view_exprs_index(arguments@, 1);
                }
                self.out_str(" - ");
                self.generate_expression(&arguments[0]);
                self.out_str(") as usize");
            } else {
                self.out_str("usize::MAX");
            }
            self.out_str(").collect::<String>()");
        } else if str_eq(method.as_str(), "indexOf") {
            self.out_str("find(");
            if arguments.len() > 0 {
                self.generate_expression(&arguments[0]);
                proof {
                    lemma_view_exprs_index(arguments@, 0);
                }
            }
            self.out_str(").map(|i| i as i32).unwrap_or(-1)");
        } else if str_eq(method.as_str(), "toUpperCase") {
            self.out_str("to_uppercase()");
        } else if str_eq(method.as_str(), "toLowerCase") {
            self.out_str("to_lowercase()");
        } else if str_eq(method.as_str(), "trim") {
            self.out_str("trim().to_string()");
        } else if str_eq(method.as_str(), "split") {
            self.out_str("split(");
            if arguments.len() > 0 {
                self.generate_expression(&arguments[0]);
                proof {
                    lemma_view_exprs_index(arguments@, 0);
                }
            }
            self.out_str(").map(|s| s.to_string()).collect::<Vec<String>>()");
        } else if str_eq(method.as_str(), "join") {
            self.out_str("join(");
            if arguments.len() > 0 {
                self.generate_expression(&arguments[0]);
                proof {
                    lemma_view_exprs_index(arguments@, 0);
                }
            } else {
                self.out_str("\", \"");
            }
            self.out_char(')');
        } else if str_eq(method.as_str(), "reverse") {
            self.out_str("iter().rev().cloned().collect::<Vec<_>>()");
        } else if str_eq(method.as_str(), "sort") {
            self.out_str("sort()");
        } else if str_eq(method.as_str(), "includes") || str_eq(method.as_str(), "contains") {
            self.out_str("contains(");
            if arguments.len() > 0 {
                self.out_char('&');
                self.generate_expression(&arguments[0]);
                proof {
                    lemma_view_exprs_index(arguments@, 0);
                }
            }
            self.out_char(')');
        } else {
            self.out_string_field(method);
            self.out_char('(');
            self.emit_argument_list(arguments);
            self.out_char(')');
        }
        assert(final(self).output@ =~= old(self).output@ + method_text(method@, view_exprs(
            arguments@,
        )));
    }

    /// Emits the `name: value` pairs of a struct literal,
    /// comma-separated.
    #[verifier::rlimit(100)]
    #[verifier::spinoff_prover]
    fn emit_field_inits(&mut self, fields: &Vec<(String, Expression)>)
        ensures
            final(self).output@ == old(self).output@ + field_inits_text(view_field_inits(
                fields@,
            )),
            final(self).indent_level == old(self).indent_level,
            final(self).is_main_file == old(self).is_main_file,
        decreases fields, 2int,
    {
        let ghost start = self.output@;
        let n = fields.len();
        let mut i: usize = 0;
        while i < n
            invariant
                i <= n,
                self.is_main_file == old(self).is_main_file,
                self.indent_level == old(self).indent_level,
                n == fields@.len(),
                self.output@ == start + field_inits_text(view_field_inits(fields@).take(i as int)),
            decreases n - i,
        {
            proof {
                lemma_view_field_inits_len(fields@);
                lemma_view_field_inits_index(fields@, i as int);
            }
            if i > 0 {
                self.out_str(", ");
            }
            self.out_string_field(&fields[i].0);
            self.out_str(": ");
            self.generate_expression(&fields[i].1);
            proof {
                let fv = view_field_inits(fields@);
                assert(fv.take(i + 1).drop_last() =~= fv.take(i as int));
                assert(fv.take(i + 1).last() == fv[i as int]);
                assert(self.output@ =~= start + field_inits_text(fv.take(i + 1)));
            }
            i += 1;
        }
        proof {
            lemma_view_field_inits_len(fields@);
            assert(view_field_inits(fields@).take(n as int) =~= view_field_inits(fields@));
        }
    }

    /// Emits a comma-separated call argument list; a string-literal
    /// argument gains an ownership conversion.
    #[verifier::rlimit(100)]
    #[verifier::spinoff_prover]
    fn emit_call_args(&mut self, arguments: &Vec<Expression>)
        ensures
            final(self).output@ == old(self).output@ + call_args_text(view_exprs(arguments@)),
            final(self).indent_level == old(self).indent_level,
            final(self).is_main_file == old(self).is_main_file,
        decreases arguments, 2int,
    {
        let ghost start = self.output@;
        let n = arguments.len();
        let mut i: usize = 0;
        while i < n
            invariant
                i <= n,
                self.is_main_file == old(self).is_main_file,
                self.indent_level == old(self).indent_level,
                n == arguments@.len(),
                self.output@ == start + call_args_text(view_exprs(arguments@).take(i as int)),
            decreases n - i,
        {
            proof {
                lemma_view_exprs_len(arguments@);
                lemma_view_exprs_index(arguments@, i as int);
            }
            if i > 0 {
                self.out_str(", ");
            }
            let is_str = matches!(&arguments[i], Expression::StringLiteral(_));
            self.generate_expression(&arguments[i]);
            if is_str {
                self.out_str(".to_string()");
            }
            proof {
                reveal(view_expr);
                let ev = view_exprs(arguments@);
                assert(ev.take(i + 1).drop_last() =~= ev.take(i as int));
                assert(ev.take(i + 1).last() == ev[i as int]);
                assert(is_str == is_string_lit(ev[i as int]));
                assert(call_arg_text(ev[i as int]) == expr_text(ev[i as int]) + (
                if is_str {
                    ".to_string()"@
                } else {
                    Seq::<char>::empty()
                }));
                assert(self.output@ =~= start + call_args_text(ev.take(i + 1)));
            }
            i += 1;
        }
        proof {
            lemma_view_exprs_len(arguments@);
            assert(view_exprs(arguments@).take(n as int) =~= view_exprs(arguments@));
        }
    }

    /// Emits a comma-separated argument list.
    #[verifier::rlimit(100)]
    #[verifier::spinoff_prover]
    fn emit_argument_list(&mut self, arguments: &Vec<Expression>)
        ensures
            final(self).output@ == old(self).output@ + args_text(view_exprs(arguments@)),
            final(self).indent_level == old(self).indent_level,
            final(self).is_main_file == old(self).is_main_file,
        decreases arguments, 2int,
    {
        let ghost start = self.output@;
        let n = arguments.len();
        let mut i: usize = 0;
        while i < n
            invariant
                i <= n,
                self.is_main_file == old(self).is_main_file,
                self.indent_level == old(self).indent_level,
                n == arguments@.len(),
                self.output@ == start + args_text(view_exprs(arguments@).take(i as int)),
            decreases n - i,
        {
            proof {
                lemma_view_exprs_len(arguments@);
                lemma_view_exprs_index(arguments@, i as int);
            }
            if i > 0 {
                self.out_str(", ");
            }
            self.generate_expression(&arguments[i]);
            proof {
                let ev = view_exprs(arguments@);
                assert(ev.take(i + 1).drop_last() =~= ev.take(i as int));
                assert(ev.take(i + 1).last() == ev[i as int]);
                assert(self.output@ =~= start + args_text(ev.take(i + 1)));
            }
            i += 1;
        }
        proof {
            lemma_view_exprs_len(arguments@);
            assert(view_exprs(arguments@).take(n as int) =~= view_exprs(arguments@));
        }
    }
}

// ----------------------------------------------------------------------
// Views of whole declaration nodes, as the statement view builds them.
// ----------------------------------------------------------------------

pub open spec fn import_view(i: ImportStmt) -> ImportStmtV {
    ImportStmtV {
        imports: view_import_items(i.imports@),
        path: i.path@,
        is_external: i.is_external,
    }
}

pub open spec fn vardecl_view(v: VariableDecl) -> VariableDeclV {
    VariableDeclV {
        name: v.name@,
        var_type: match v.var_type {
            Some(t) => Some(view_type(t)),
            None => None,
        },
        value: view_expr(v.value),
        is_const: v.is_const,
    }
}

pub open spec fn fn_view(f: FunctionDecl) -> FunctionDeclV {
    FunctionDeclV {
        name: f.name@,
        parameters: view_params(f.parameters@),
        return_type: view_type(f.return_type),
        body: view_stmts(f.body@),
    }
}

pub open spec fn struct_view(d: StructDecl) -> StructDeclV {
    StructDeclV { name: d.name@, fields: view_struct_fields(d.fields@) }
}

pub open spec fn enum_view(d: EnumDecl) -> EnumDeclV {
    EnumDeclV { name: d.name@, variants: view_enum_variants(d.variants@) }
}

pub open spec fn if_view(i: IfElseStmt) -> IfElseStmtV {
    IfElseStmtV {
        condition: view_expr(i.condition),
        then_body: view_stmts(i.then_body@),
        else_body: match i.else_body {
            Some(b) => Some(view_stmts(b@)),
            None => None,
        },
    }
}

pub open spec fn for_view(f: ForLoopStmt) -> ForLoopStmtV {
    ForLoopStmtV {
        variable: f.variable@,
        iterable: view_expr(f.iterable),
        body: view_stmts(f.body@),
    }
}

pub open spec fn while_view(w: WhileLoopStmt) -> WhileLoopStmtV {
    WhileLoopStmtV { condition: view_expr(w.condition), body: view_stmts(w.body@) }
}

pub open spec fn try_view(t: TryCatchStmt) -> TryCatchStmtV {
    TryCatchStmtV {
        try_body: view_stmts(t.try_body@),
        catch_param: match t.catch_param {
            Some(p) => Some(p@),
            None => None,
        },
        catch_body: view_stmts(t.catch_body@),
    }
}

impl Codegen {
    /// Emits a sequence of statements, one after another.
    #[verifier::rlimit(100)]
    #[verifier::spinoff_prover]
    fn generate_block_stmts(&mut self, body: &Vec<Statement>)
        ensures
            final(self).output@ == old(self).output@ + stmts_text(
                view_stmts(body@),
                old(self).indent_level as nat,
                old(self).is_main_file,
            ),
            final(self).indent_level == old(self).indent_level,
            final(self).is_main_file == old(self).is_main_file,
        decreases body, 11int,
    {
        let ghost start = self.output@;
        let ghost ind = self.indent_level as nat;
        let ghost main = self.is_main_file;
        let n = body.len();
        let mut k: usize = 0;
        while k < n
            invariant
                k <= n,
                self.is_main_file == old(self).is_main_file,
                self.indent_level == old(self).indent_level,
                n == body@.len(),
                ind == old(self).indent_level as nat,
                main == old(self).is_main_file,
                self.output@ == start + stmts_text(view_stmts(body@).take(k as int), ind, main),
            decreases n - k,
        {
            proof {
                crate::ast::lemma_view_stmts_len(body@);
                crate::ast::lemma_view_stmts_index(body@, k as int);
            }
            self.generate_statement(&body[k]);
            proof {
                let sv = view_stmts(body@);
                assert(sv.take(k + 1).drop_last() =~= sv.take(k as int));
                assert(sv.take(k + 1).last() == sv[k as int]);
                assert(self.output@ =~= start + stmts_text(sv.take(k + 1), ind, main));
            }
            k += 1;
        }
        proof {
            crate::ast::lemma_view_stmts_len(body@);
            assert(view_stmts(body@).take(n as int) =~= view_stmts(body@));
        }
    }

    /// Emits a statement, dispatching on its kind.
    #[verifier::rlimit(100)]
    #[verifier::spinoff_prover]
    fn generate_statement(&mut self, stmt: &Statement)
        ensures
            final(self).output@ == old(self).output@ + stmt_text(
                stmt@,
                old(self).indent_level as nat,
                old(self).is_main_file,
            ),
            final(self).indent_level == old(self).indent_level,
            final(self).is_main_file == old(self).is_main_file,
        decreases stmt, 10int,
    {
        proof {
            reveal(stmt_text);
        }
        match stmt {
            Statement::ImportStmt(import_stmt) => self.generate_import_stmt(import_stmt),
            Statement::ExportStmt(inner) => self.generate_export_stmt(inner),
            Statement::VariableDecl(var_decl) => self.generate_variable_decl(var_decl),
            Statement::FunctionDecl(func_decl) => self.generate_function_decl(func_decl),
            Statement::StructDecl(struct_decl) => self.generate_struct_decl(struct_decl),
            Statement::EnumDecl(enum_decl) => self.generate_enum_decl(enum_decl),
            Statement::PrintStmt(print_stmt) => self.generate_print_stmt(print_stmt),
            Statement::ReturnStmt(ret_stmt) => self.generate_return_stmt(ret_stmt),
            Statement::IfElse(if_else) => self.generate_if_else(if_else),
            Statement::ForLoop(for_loop) => self.generate_for_loop(for_loop),
            Statement::WhileLoop(while_loop) => self.generate_while_loop(while_loop),
            Statement::TryCatch(try_catch) => self.generate_try_catch(try_catch),
            Statement::ThrowStmt(throw_stmt) => self.generate_throw_stmt(throw_stmt),
            Statement::BreakStmt => {
                self.emit_indent();
                self.out_str("break;\n");
                assert(final(self).output@ =~= old(self).output@ + stmt_text(
                    stmt@,
                    old(self).indent_level as nat,
                    old(self).is_main_file,
                ));
            },
            Statement::ContinueStmt => {
                self.emit_indent();
                self.out_str("continue;\n");
                assert(final(self).output@ =~= old(self).output@ + stmt_text(
                    stmt@,
                    old(self).indent_level as nat,
                    old(self).is_main_file,
                ));
            },
            Statement::ExpressionStmt(expr) => {
                self.emit_indent();
                self.generate_expression(expr);
                self.out_str(";\n");
                assert(final(self).output@ =~= old(self).output@ + stmt_text(
                    stmt@,
                    old(self).indent_level as nat,
                    old(self).is_main_file,
                ));
            },
        }
    }

    /// Emits a `use` declaration: an outside path passes through, a local
    /// path is rewritten to the target namespace convention and resolved
    /// against the unit's position in the generated module tree.
    #[verifier::rlimit(100)]
    #[verifier::spinoff_prover]
    fn generate_import_stmt(&mut self, import_stmt: &ImportStmt)
        ensures
            final(self).output@ == old(self).output@ + import_text(
                import_view(*import_stmt),
                old(self).is_main_file,
            ),
            final(self).indent_level == old(self).indent_level,
            final(self).is_main_file == old(self).is_main_file,
        decreases import_stmt,
    {
        self.out_str("use ");

        if import_stmt.is_external {
            self.out_string_field(&import_stmt.path);
        } else {
            let starts_rel = import_stmt.path.unicode_len() >= 2
                && import_stmt.path.as_str().get_char(0) == '.'
                && import_stmt.path.as_str().get_char(1) == '/';
            let rewritten = if starts_rel {
                let trimmed = skip_prefix2(import_stmt.path.as_str());
                let module_ns = replace_slashes(trimmed.as_str());
                if self.is_main_file {
                    module_ns
                } else {
                    let mut p = String::new();
                    p.append("super::");
                    p.append(module_ns.as_str());
                    p
                }
            } else {
                replace_slashes(import_stmt.path.as_str())
            };
            self.out_string_field(&rewritten);
        }
        self.out_str("::");
        self.emit_import_items(&import_stmt.imports);
        self.out_str(";\n");
        assert(final(self).output@ =~= old(self).output@ + import_text(
            import_view(*import_stmt),
            old(self).is_main_file,
        ));
    }

    /// Emits the imported names: one name, one aliased name, or a braced
    /// list.
    #[verifier::rlimit(100)]
    #[verifier::spinoff_prover]
    fn emit_import_items(&mut self, imports: &Vec<crate::ast::ImportItem>)
        ensures
            final(self).output@ == old(self).output@ + import_items_text(
                view_import_items(imports@),
            ),
            final(self).indent_level == old(self).indent_level,
            final(self).is_main_file == old(self).is_main_file,
        decreases imports,
    {
        proof {
            crate::ast::lemma_view_import_items_len(imports@);
        }
        if imports.len() == 1 {
            proof {
                crate::ast::lemma_view_import_items_index(imports@, 0);
            }
            self.out_string_field(&imports[0].name);
            match &imports[0].alias {
                Some(alias) => {
                    self.out_str(" as ");
                    self.out_string_field(alias);
                },
                None => {},
            }
            assert(final(self).output@ =~= old(self).output@ + import_items_text(
                view_import_items(imports@),
            ));
        } else {
            let ghost start = self.output@;
            self.out_char('{');
            let n = imports.len();
            let mut i: usize = 0;
            while i < n
                invariant
                    i <= n,
                    self.is_main_file == old(self).is_main_file,
                    self.indent_level == old(self).indent_level,
                    n == imports@.len(),
                    start == old(self).output@,
                    self.output@ == start + seq!['{'] + import_items_list_text(
                        view_import_items(imports@).take(i as int),
                    ),
                decreases n - i,
            {
                proof {
                    crate::ast::lemma_view_import_items_len(imports@);
                    crate::ast::lemma_view_import_items_index(imports@, i as int);
                }
                if i > 0 {
                    self.out_str(", ");
                }
                self.out_string_field(&imports[i].name);
                match &imports[i].alias {
                    Some(alias) => {
                        self.out_str(" as ");
                        self.out_string_field(alias);
                    },
                    None => {},
                }
                proof {
                    let iv = view_import_items(imports@);
                    assert(iv.take(i + 1).drop_last() =~= iv.take(i as int));
                    assert(iv.take(i + 1).last() == iv[i as int]);
                    assert(self.output@ =~= start + seq!['{'] + import_items_list_text(
                        iv.take(i + 1),
                    ));
                }
                i += 1;
            }
            self.out_char('}');
            proof {
                assert(view_import_items(imports@).take(n as int) =~= view_import_items(
                    imports@,
                ));
                assert(final(self).output@ =~= old(self).output@ + import_items_text(
                    view_import_items(imports@),
                ));
            }
        }
    }

    /// Emits an exported declaration: the inner declaration with a
    /// visibility qualifier, and derive annotations on structs and
    /// enums.
    #[verifier::rlimit(100)]
    #[verifier::spinoff_prover]
    fn generate_export_stmt(&mut self, inner: &Statement)
        ensures
            final(self).output@ == old(self).output@ + export_text(
                inner@,
                old(self).indent_level as nat,
                old(self).is_main_file,
            ),
            final(self).indent_level == old(self).indent_level,
            final(self).is_main_file == old(self).is_main_file,
        decreases inner, 9int,
    {
        match inner {
            Statement::FunctionDecl(func_decl) => {
                self.emit_indent();
                self.out_str("pub ");
                self.emit_function_decl_body(func_decl);
                assert(final(self).output@ =~= old(self).output@ + export_text(
                    inner@,
                    old(self).indent_level as nat,
                    old(self).is_main_file,
                ));
            },
            Statement::StructDecl(struct_decl) => {
                self.emit_indent();
                self.out_str("#[derive(Debug, Clone)]\n");
                self.emit_indent();
                self.out_str("pub ");
                self.emit_struct_decl_body(struct_decl, true);
                assert(final(self).output@ =~= old(self).output@ + export_text(
                    inner@,
                    old(self).indent_level as nat,
                    old(self).is_main_file,
                ));
            },
            Statement::EnumDecl(enum_decl) => {
                self.emit_indent();
                self.out_str("#[derive(Debug, Clone, PartialEq)]\n");
                self.emit_indent();
                self.out_str("pub ");
                self.emit_enum_decl_body(enum_decl);
                assert(final(self).output@ =~= old(self).output@ + export_text(
                    inner@,
                    old(self).indent_level as nat,
                    old(self).is_main_file,
                ));
            },
            Statement::VariableDecl(var_decl) => {
                self.emit_indent();
                self.out_str("pub ");
                if var_decl.is_const {
                    self.out_str("const ");
                    let upper = str_to_uppercase(var_decl.name.as_str());
                    self.out_string_field(&upper);
                } else {
                    self.out_str("static mut ");
                    self.out_string_field(&var_decl.name);
                }
                match &var_decl.var_type {
                    Some(var_type) => {
                        self.out_str(": ");
                        if var_decl.is_const && matches!(var_type, Type::String) {
                            self.out_str("&str");
                        } else {
                            self.emit_type(var_type);
                        }
                    },
                    None => {},
                }
                self.out_str(" = ");
                self.generate_expression(&var_decl.value);
                self.out_str(";\n");
                assert(final(self).output@ =~= old(self).output@ + export_text(
                    inner@,
                    old(self).indent_level as nat,
                    old(self).is_main_file,
                ));
            },
            _ => {
                assert(final(self).output@ =~= old(self).output@ + export_text(
                    inner@,
                    old(self).indent_level as nat,
                    old(self).is_main_file,
                ));
            },
        }
    }

    /// Emits a variable declaration: `let` becomes a mutable binding
    /// with a case-converted name; `const` becomes an upper-cased
    /// constant whose missing annotation is defaulted from the literal
    /// shape of the initializer. A string literal initializing a string
    /// or weakly typed binding gains an ownership conversion; an array
    /// literal initializing a fixed-size array uses bracket syntax.
    #[verifier::rlimit(100)]
    #[verifier::spinoff_prover]
    fn generate_variable_decl(&mut self, var_decl: &VariableDecl)
        ensures
            final(self).output@ == old(self).output@ + vardecl_text(
                vardecl_view(*var_decl),
                old(self).indent_level as nat,
            ),
            final(self).indent_level == old(self).indent_level,
            final(self).is_main_file == old(self).is_main_file,
        decreases var_decl,
    {
        proof {
            reveal_with_fuel(view_expr, 2);
        }
        self.emit_indent();

        if var_decl.is_const {
            self.out_str("const ");
            let upper = str_to_uppercase(var_decl.name.as_str());
            self.out_string_field(&upper);
            self.out_str(": ");
            match &var_decl.var_type {
                Some(var_type) => {
                    if matches!(var_type, Type::String) {
                        self.out_str("&str");
                    } else {
                        self.emit_type(var_type);
                    }
                },
                None => {
                    match &var_decl.value {
                        Expression::NumberLiteral(_) => self.out_str("i32"),
                        Expression::StringLiteral(_) => self.out_str("&str"),
                        Expression::BooleanLiteral(_) => self.out_str("bool"),
                        _ => self.out_str("i32"),
                    }
                },
            }
        } else {
            self.out_str("let mut ");
            let converted = to_snake_case(var_decl.name.as_str());
            self.out_string_field(&converted);
            match &var_decl.var_type {
                Some(var_type) => {
                    self.out_str(": ");
                    self.emit_type(var_type);
                },
                None => {},
            }
        }

        self.out_str(" = ");

        let value_is_string = matches!(&var_decl.value, Expression::StringLiteral(_));
        let needs_to_string = !var_decl.is_const && (match &var_decl.var_type {
            Some(var_type) => value_is_string && (matches!(var_type, Type::String) || matches!(
                var_type,
                Type::Any,
            )),
            None => value_is_string,
        });
        let is_static_array = match &var_decl.var_type {
            Some(Type::Array { size: Some(_), .. }) => matches!(
                &var_decl.value,
                Expression::ArrayLiteral(_),
            ),
            _ => false,
        };

        if needs_to_string {
            self.generate_expression(&var_decl.value);
            self.out_str(".to_string()");
        } else if is_static_array {
            match &var_decl.value {
                Expression::ArrayLiteral(elements) => {
                    self.out_char('[');
                    self.emit_argument_list(elements);
                    self.out_char(']');
                },
                _ => {},
            }
        } else {
            self.generate_expression(&var_decl.value);
        }

        self.out_str(";\n");
        assert(final(self).output@ =~= old(self).output@ + vardecl_text(
            vardecl_view(*var_decl),
            old(self).indent_level as nat,
        ));
    }

    /// Emits a comma-separated parameter list with case-converted names.
    #[verifier::rlimit(100)]
    #[verifier::spinoff_prover]
    fn emit_params(&mut self, parameters: &Vec<crate::ast::Parameter>)
        ensures
            final(self).output@ == old(self).output@ + params_text(view_params(parameters@)),
            final(self).indent_level == old(self).indent_level,
            final(self).is_main_file == old(self).is_main_file,
        decreases parameters,
    {
        let ghost start = self.output@;
        let n = parameters.len();
        let mut i: usize = 0;
        while i < n
            invariant
                i <= n,
                self.is_main_file == old(self).is_main_file,
                self.indent_level == old(self).indent_level,
                n == parameters@.len(),
                self.output@ == start + params_text(view_params(parameters@).take(i as int)),
            decreases n - i,
        {
            proof {
                crate::ast::lemma_view_params_len(parameters@);
                crate::ast::lemma_view_params_index(parameters@, i as int);
            }
            if i > 0 {
                self.out_str(", ");
            }
            let converted = to_snake_case(parameters[i].name.as_str());
            self.out_string_field(&converted);
            self.out_str(": ");
            self.emit_type(&parameters[i].param_type);
            proof {
                let pv = view_params(parameters@);
                assert(pv.take(i + 1).drop_last() =~= pv.take(i as int));
                assert(pv.take(i + 1).last() == pv[i as int]);
                assert(self.output@ =~= start + params_text(pv.take(i + 1)));
            }
            i += 1;
        }
        proof {
            crate::ast::lemma_view_params_len(parameters@);
            assert(view_params(parameters@).take(n as int) =~= view_params(parameters@));
        }
    }

    /// Emits a function declaration; a void return type emits no arrow.
    #[verifier::rlimit(100)]
    #[verifier::spinoff_prover]
    fn generate_function_decl(&mut self, func_decl: &FunctionDecl)
        ensures
            final(self).output@ == old(self).output@ + fn_text(
                fn_view(*func_decl),
                old(self).indent_level as nat,
                old(self).is_main_file,
            ),
            final(self).indent_level == old(self).indent_level,
            final(self).is_main_file == old(self).is_main_file,
        decreases func_decl, 9int,
    {
        self.emit_indent();
        self.out_str("fn ");
        self.out_string_field(&func_decl.name);
        self.out_char('(');
        self.emit_params(&func_decl.parameters);
        self.out_str(") ");

        if !matches!(&func_decl.return_type, Type::Void) {
            self.out_str("-> ");
            self.emit_type(&func_decl.return_type);
            self.out_char(' ');
        }

        self.out_str("{\n");
        let saved = self.indent_level;
        self.indent_more();
        self.generate_block_stmts(&func_decl.body);
        self.indent_level = saved;
        self.emit_indent();
        self.out_str("}\n\n");
        assert(final(self).output@ =~= old(self).output@ + fn_text(
            fn_view(*func_decl),
            old(self).indent_level as nat,
            old(self).is_main_file,
        ));
    }

    /// Like [`Self::generate_function_decl`], without the leading
    /// indentation, used after a visibility qualifier.
    #[verifier::rlimit(100)]
    #[verifier::spinoff_prover]
    fn emit_function_decl_body(&mut self, func_decl: &FunctionDecl)
        ensures
            final(self).output@ == old(self).output@ + fn_pub_text(
                fn_view(*func_decl),
                old(self).indent_level as nat,
                old(self).is_main_file,
            ),
            final(self).indent_level == old(self).indent_level,
            final(self).is_main_file == old(self).is_main_file,
        decreases func_decl, 8int,
    {
        self.out_str("fn ");
        self.out_string_field(&func_decl.name);
        self.out_char('(');
        self.emit_params(&func_decl.parameters);
        self.out_char(')');

        if !matches!(&func_decl.return_type, Type::Void) {
            self.out_str(" -> ");
            self.emit_type(&func_decl.return_type);
        }

        self.out_str(" {\n");
        let saved = self.indent_level;
        self.indent_more();
        self.generate_block_stmts(&func_decl.body);
        self.indent_level = saved;
        self.emit_indent();
        self.out_str("}\n\n");
        assert(final(self).output@ =~= old(self).output@ + fn_pub_text(
            fn_view(*func_decl),
            old(self).indent_level as nat,
            old(self).is_main_file,
        ));
    }

    fn generate_print_stmt(&mut self, print_stmt: &PrintStmt)
        ensures
            final(self).output@ == old(self).output@ + indent_text(old(self).indent_level as nat)
                + "println!(\"{}\""@ + ", "@ + expr_text(view_expr(print_stmt.expression))
                + ");\n"@,
            final(self).indent_level == old(self).indent_level,
            final(self).is_main_file == old(self).is_main_file,
        decreases print_stmt,
    {
        self.emit_indent();
        self.out_str("println!(\"{}\"");
        self.out_str(", ");
        self.generate_expression(&print_stmt.expression);
        self.out_str(");\n");
        assert(final(self).output@ =~= old(self).output@ + indent_text(
            old(self).indent_level as nat,
        ) + "println!(\"{}\""@ + ", "@ + expr_text(view_expr(print_stmt.expression)) + ");\n"@);
    }

    fn generate_return_stmt(&mut self, ret_stmt: &ReturnStmt)
        ensures
            final(self).output@ == old(self).output@ + indent_text(old(self).indent_level as nat)
                + "return "@ + (match ret_stmt.value {
                Some(e) => expr_text(view_expr(e)),
                None => Seq::<char>::empty(),
            }) + ";\n"@,
            final(self).indent_level == old(self).indent_level,
            final(self).is_main_file == old(self).is_main_file,
        decreases ret_stmt,
    {
        self.emit_indent();
        self.out_str("return ");
        match &ret_stmt.value {
            Some(expr) => self.generate_expression(expr),
            None => {},
        }
        self.out_str(";\n");
        assert(final(self).output@ =~= old(self).output@ + indent_text(
            old(self).indent_level as nat,
        ) + "return "@ + (match ret_stmt.value {
            Some(e) => expr_text(view_expr(e)),
            None => Seq::<char>::empty(),
        }) + ";\n"@);
    }

    #[verifier::rlimit(100)]
    #[verifier::spinoff_prover]
    fn generate_if_else(&mut self, if_else: &IfElseStmt)
        ensures
            final(self).output@ == old(self).output@ + stmt_text(
                StatementV::IfElse(if_view(*if_else)),
                old(self).indent_level as nat,
                old(self).is_main_file,
            ),
            final(self).indent_level == old(self).indent_level,
            final(self).is_main_file == old(self).is_main_file,
        decreases if_else,
    {
        proof {
            reveal(stmt_text);
        }
        self.emit_indent();
        self.out_str("if ");
        self.generate_expression(&if_else.condition);
        self.out_str(" {\n");

        let saved = self.indent_level;
        self.indent_more();
        self.generate_block_stmts(&if_else.then_body);
        self.indent_level = saved;

        self.emit_indent();

        match &if_else.else_body {
            Some(else_body) => {
                self.out_str("} else {\n");
                let saved2 = self.indent_level;
                self.indent_more();
                self.generate_block_stmts(else_body);
                self.indent_level = saved2;
                self.emit_indent();
                self.out_str("}\n");
            },
            None => {
                self.out_str("}\n");
            },
        }
        assert(final(self).output@ =~= old(self).output@ + stmt_text(
            StatementV::IfElse(if_view(*if_else)),
            old(self).indent_level as nat,
            old(self).is_main_file,
        ));
    }

    #[verifier::rlimit(100)]
    #[verifier::spinoff_prover]
    fn generate_for_loop(&mut self, for_loop: &ForLoopStmt)
        ensures
            final(self).output@ == old(self).output@ + stmt_text(
                StatementV::ForLoop(for_view(*for_loop)),
                old(self).indent_level as nat,
                old(self).is_main_file,
            ),
            final(self).indent_level == old(self).indent_level,
            final(self).is_main_file == old(self).is_main_file,
        decreases for_loop,
    {
        proof {
            reveal(stmt_text);
        }
        self.emit_indent();
        self.out_str("for ");
        self.out_string_field(&for_loop.variable);
        self.out_str(" in ");
        self.generate_expression(&for_loop.iterable);
        self.out_str(" {\n");

        let saved = self.indent_level;
        self.indent_more();
        self.generate_block_stmts(&for_loop.body);
        self.indent_level = saved;

        self.emit_indent();
        self.out_str("}\n");
        assert(final(self).output@ =~= old(self).output@ + stmt_text(
            StatementV::ForLoop(for_view(*for_loop)),
            old(self).indent_level as nat,
            old(self).is_main_file,
        ));
    }

    #[verifier::rlimit(100)]
    #[verifier::spinoff_prover]
    fn generate_while_loop(&mut self, while_loop: &WhileLoopStmt)
        ensures
            final(self).output@ == old(self).output@ + stmt_text(
                StatementV::WhileLoop(while_view(*while_loop)),
                old(self).indent_level as nat,
                old(self).is_main_file,
            ),
            final(self).indent_level == old(self).indent_level,
            final(self).is_main_file == old(self).is_main_file,
        decreases while_loop,
    {
        proof {
            reveal(stmt_text);
        }
        self.emit_indent();
        self.out_str("while ");
        self.generate_expression(&while_loop.condition);
        self.out_str(" {\n");

        let saved = self.indent_level;
        self.indent_more();
        self.generate_block_stmts(&while_loop.body);
        self.indent_level = saved;

        self.emit_indent();
        self.out_str("}\n");
        assert(final(self).output@ =~= old(self).output@ + stmt_text(
            StatementV::WhileLoop(while_view(*while_loop)),
            old(self).indent_level as nat,
            old(self).is_main_file,
        ));
    }

    fn generate_struct_decl(&mut self, struct_decl: &StructDecl)
        ensures
            final(self).output@ == old(self).output@ + indent_text(old(self).indent_level as nat)
                + "#[derive(Debug, Clone)]\n"@ + indent_text(old(self).indent_level as nat)
                + struct_body_text(
                struct_view(*struct_decl),
                old(self).indent_level as nat,
                false,
            ),
            final(self).indent_level == old(self).indent_level,
            final(self).is_main_file == old(self).is_main_file,
        decreases struct_decl, 9int,
    {
        self.emit_indent();
        self.out_str("#[derive(Debug, Clone)]\n");
        self.emit_indent();
        self.emit_struct_decl_body(struct_decl, false);
        assert(final(self).output@ =~= old(self).output@ + indent_text(
            old(self).indent_level as nat,
        ) + "#[derive(Debug, Clone)]\n"@ + indent_text(old(self).indent_level as nat)
            + struct_body_text(struct_view(*struct_decl), old(self).indent_level as nat, false));
    }

    /// Emits a struct declaration body; exported fields receive their
    /// own visibility qualifier.
    #[verifier::rlimit(100)]
    #[verifier::spinoff_prover]
    fn emit_struct_decl_body(&mut self, struct_decl: &StructDecl, public_fields: bool)
        ensures
            final(self).output@ == old(self).output@ + struct_body_text(
                struct_view(*struct_decl),
                old(self).indent_level as nat,
                public_fields,
            ),
            final(self).indent_level == old(self).indent_level,
            final(self).is_main_file == old(self).is_main_file,
        decreases struct_decl, 8int,
    {
        self.out_str("struct ");
        self.out_string_field(&struct_decl.name);
        self.out_str(" {\n");

        let saved = self.indent_level;
        self.indent_more();
        let ghost start = self.output@;
        let ghost ind2 = self.indent_level as nat;
        let n = struct_decl.fields.len();
        let mut i: usize = 0;
        while i < n
            invariant
                i <= n,
                self.is_main_file == old(self).is_main_file,
                self.indent_level as nat == ind2,
                n == struct_decl.fields@.len(),
                self.output@ == start + struct_fields_text(
                    view_struct_fields(struct_decl.fields@).take(i as int),
                    ind2,
                    public_fields,
                ),
            decreases n - i,
        {
            proof {
                crate::ast::lemma_view_struct_fields_len(struct_decl.fields@);
                crate::ast::lemma_view_struct_fields_index(struct_decl.fields@, i as int);
            }
            self.emit_indent();
            if public_fields {
                self.out_str("pub ");
            }
            self.out_string_field(&struct_decl.fields[i].name);
            self.out_str(": ");
            self.emit_type(&struct_decl.fields[i].field_type);
            self.out_str(",\n");
            proof {
                let fv = view_struct_fields(struct_decl.fields@);
                assert(fv.take(i + 1).drop_last() =~= fv.take(i as int));
                assert(fv.take(i + 1).last() == fv[i as int]);
                assert(self.output@ =~= start + struct_fields_text(
                    fv.take(i + 1),
                    ind2,
                    public_fields,
                ));
            }
            i += 1;
        }
        proof {
            crate::ast::lemma_view_struct_fields_len(struct_decl.fields@);
            assert(view_struct_fields(struct_decl.fields@).take(n as int) =~= view_struct_fields(
                struct_decl.fields@,
            ));
        }
        self.indent_level = saved;

        self.emit_indent();
        self.out_str("}\n\n");
        assert(final(self).output@ =~= old(self).output@ + struct_body_text(
            struct_view(*struct_decl),
            old(self).indent_level as nat,
            public_fields,
        ));
    }

    fn generate_enum_decl(&mut self, enum_decl: &EnumDecl)
        ensures
            final(self).output@ == old(self).output@ + indent_text(old(self).indent_level as nat)
                + "#[derive(Debug, Clone, PartialEq)]\n"@ + indent_text(
                old(self).indent_level as nat,
            ) + enum_body_text(enum_view(*enum_decl), old(self).indent_level as nat),
            final(self).indent_level == old(self).indent_level,
            final(self).is_main_file == old(self).is_main_file,
        decreases enum_decl, 9int,
    {
        self.emit_indent();
        self.out_str("#[derive(Debug, Clone, PartialEq)]\n");
        self.emit_indent();
        self.emit_enum_decl_body(enum_decl);
        assert(final(self).output@ =~= old(self).output@ + indent_text(
            old(self).indent_level as nat,
        ) + "#[derive(Debug, Clone, PartialEq)]\n"@ + indent_text(old(self).indent_level as nat)
            + enum_body_text(enum_view(*enum_decl), old(self).indent_level as nat));
    }

    #[verifier::rlimit(100)]
    #[verifier::spinoff_prover]
    fn emit_enum_decl_body(&mut self, enum_decl: &EnumDecl)
        ensures
            final(self).output@ == old(self).output@ + enum_body_text(
                enum_view(*enum_decl),
                old(self).indent_level as nat,
            ),
            final(self).indent_level == old(self).indent_level,
            final(self).is_main_file == old(self).is_main_file,
        decreases enum_decl, 8int,
    {
        self.out_str("enum ");
        self.out_string_field(&enum_decl.name);
        self.out_str(" {\n");

        let saved = self.indent_level;
        self.indent_more();
        let ghost start = self.output@;
        let ghost ind2 = self.indent_level as nat;
        let n = enum_decl.variants.len();
        let mut i: usize = 0;
        while i < n
            invariant
                i <= n,
                self.is_main_file == old(self).is_main_file,
                self.indent_level as nat == ind2,
                n == enum_decl.variants@.len(),
                self.output@ == start + enum_variants_text(
                    view_enum_variants(enum_decl.variants@).take(i as int),
                    ind2,
                ),
            decreases n - i,
        {
            proof {
                crate::ast::lemma_view_enum_variants_len(enum_decl.variants@);
                crate::ast::lemma_view_enum_variants_index(enum_decl.variants@, i as int);
            }
            self.emit_indent();
            self.out_string_field(&enum_decl.variants[i].name);
            match &enum_decl.variants[i].fields {
                Some(fields) => {
                    self.out_char('(');
                    self.emit_variant_types(fields);
                    self.out_char(')');
                },
                None => {},
            }
            self.out_str(",\n");
            proof {
                let vv = view_enum_variants(enum_decl.variants@);
                assert(vv.take(i + 1).drop_last() =~= vv.take(i as int));
                assert(vv.take(i + 1).last() == vv[i as int]);
                assert(self.output@ =~= start + enum_variants_text(vv.take(i + 1), ind2));
            }
            i += 1;
        }
        proof {
            crate::ast::lemma_view_enum_variants_len(enum_decl.variants@);
            assert(view_enum_variants(enum_decl.variants@).take(n as int) =~= view_enum_variants(
                enum_decl.variants@,
            ));
        }
        self.indent_level = saved;

        self.emit_indent();
        self.out_str("}\n\n");
        assert(final(self).output@ =~= old(self).output@ + enum_body_text(
            enum_view(*enum_decl),
            old(self).indent_level as nat,
        ));
    }

    /// Emits a comma-separated associated-type list.
    #[verifier::rlimit(100)]
    #[verifier::spinoff_prover]
    fn emit_variant_types(&mut self, fields: &Vec<Type>)
        ensures
            final(self).output@ == old(self).output@ + variant_types_text(view_types(fields@)),
            final(self).indent_level == old(self).indent_level,
            final(self).is_main_file == old(self).is_main_file,
        decreases fields,
    {
        let ghost start = self.output@;
        let n = fields.len();
        let mut i: usize = 0;
        while i < n
            invariant
                i <= n,
                self.is_main_file == old(self).is_main_file,
                self.indent_level == old(self).indent_level,
                n == fields@.len(),
                self.output@ == start + variant_types_text(view_types(fields@).take(i as int)),
            decreases n - i,
        {
            proof {
                crate::ast::lemma_view_types_len(fields@);
                crate::ast::lemma_view_types_index(fields@, i as int);
            }
            if i > 0 {
                self.out_str(", ");
            }
            self.emit_type(&fields[i]);
            proof {
                let tv = view_types(fields@);
                assert(tv.take(i + 1).drop_last() =~= tv.take(i as int));
                assert(tv.take(i + 1).last() == tv[i as int]);
                assert(self.output@ =~= start + variant_types_text(tv.take(i + 1)));
            }
            i += 1;
        }
        proof {
            crate::ast::lemma_view_types_len(fields@);
            assert(view_types(fields@).take(n as int) =~= view_types(fields@));
        }
    }

    /// Emits a try/catch as an immediately invoked fallible closure
    /// matched on success and failure; the failure arm binds the catch
    /// parameter or a placeholder name.
    #[verifier::rlimit(100)]
    #[verifier::spinoff_prover]
    fn generate_try_catch(&mut self, try_catch: &TryCatchStmt)
        ensures
            final(self).output@ == old(self).output@ + stmt_text(
                StatementV::TryCatch(try_view(*try_catch)),
                old(self).indent_level as nat,
                old(self).is_main_file,
            ),
            final(self).indent_level == old(self).indent_level,
            final(self).is_main_file == old(self).is_main_file,
        decreases try_catch,
    {
        proof {
            reveal(stmt_text);
        }
        self.emit_indent();
        self.out_str("match (|| -> Result<(), Box<dyn std::error::Error>> {\n");

        let saved = self.indent_level;
        self.indent_more();
        self.generate_block_stmts(&try_catch.try_body);
        self.emit_indent();
        self.out_str("Ok(())\n");
        self.indent_level = saved;

        self.emit_indent();
        self.out_str("})() {\n");

        proof {
            assert(self.output@ =~= old(self).output@ + indent_text(
                old(self).indent_level as nat,
            ) + "match (|| -> Result<(), Box<dyn std::error::Error>> {\n"@ + stmts_text(
                view_stmts(try_catch.try_body@),
                sbump(old(self).indent_level as nat),
                old(self).is_main_file,
            ) + indent_text(sbump(old(self).indent_level as nat)) + "Ok(())\n"@ + indent_text(
                old(self).indent_level as nat,
            ) + "})() {\n"@);
        }
        let saved2 = self.indent_level;
        self.indent_more();
        self.emit_indent();
        self.out_str("Ok(_) => {},\n");
        self.emit_indent();
        self.out_str("Err(");
        match &try_catch.catch_param {
            Some(param) => self.out_string_field(param),
            None => self.out_str("_err"),
        }
        self.out_str(") => {\n");

        let saved3 = self.indent_level;
        self.indent_more();
        self.generate_block_stmts(&try_catch.catch_body);
        self.indent_level = saved3;

        self.emit_indent();
        self.out_str("}\n");
        self.indent_level = saved2;

        self.emit_indent();
        self.out_str("}\n");
        assert(final(self).output@ =~= old(self).output@ + stmt_text(
            StatementV::TryCatch(try_view(*try_catch)),
            old(self).indent_level as nat,
            old(self).is_main_file,
        ));
    }

    /// Emits a throw as a fatal abort carrying the thrown expression as
    /// a formatted message.
    fn generate_throw_stmt(&mut self, throw_stmt: &ThrowStmt)
        ensures
            final(self).output@ == old(self).output@ + indent_text(old(self).indent_level as nat)
                + "panic!(\"{}\""@ + ", "@ + expr_text(view_expr(throw_stmt.expression))
                + ");\n"@,
            final(self).indent_level == old(self).indent_level,
            final(self).is_main_file == old(self).is_main_file,
        decreases throw_stmt,
    {
        self.emit_indent();
        self.out_str("panic!(\"{}\"");
        self.out_str(", ");
        self.generate_expression(&throw_stmt.expression);
        self.out_str(");\n");
        assert(final(self).output@ =~= old(self).output@ + indent_text(
            old(self).indent_level as nat,
        ) + "panic!(\"{}\""@ + ", "@ + expr_text(view_expr(throw_stmt.expression)) + ");\n"@);
    }

    /// Emits a whole program. When this generator produces the entry
    /// unit and no function named `main` is declared, the top-level
    /// statement sequence is wrapped in a synthesized `main`; otherwise
    /// the statements are emitted at the current depth.
    #[verifier::rlimit(100)]
    #[verifier::spinoff_prover]
    pub fn generate(&mut self, program: &Program) -> (r: String)
        ensures
            r@ == final(self).out(),
            final(self).out() == old(self).out() + program_text(
                program@,
                old(self).entry_unit(),
                old(self).ind(),
            ),
            final(self).entry_unit() == old(self).entry_unit(),
    {
        let ghost sv = view_stmts(program.statements@);
        let mut has_main = false;
        let n = program.statements.len();
        let mut i: usize = 0;
        while i < n
            invariant
                i <= n,
                n == program.statements@.len(),
                sv == view_stmts(program.statements@),
                has_main == exists|j: int|
                    0 <= j < i && (#[trigger] sv[j]) is FunctionDecl
                        && sv[j]->FunctionDecl_0.name == "main"@,
            decreases n - i,
        {
            proof {
                crate::ast::lemma_view_stmts_len(program.statements@);
                crate::ast::lemma_view_stmts_index(program.statements@, i as int);
            }
            match &program.statements[i] {
                Statement::FunctionDecl(func_decl) => {
                    if str_eq(func_decl.name.as_str(), "main") {
                        proof {
                            assert(sv[i as int] is FunctionDecl
                                && sv[i as int]->FunctionDecl_0.name == "main"@);
                        }
                        has_main = true;
                    }
                },
                _ => {},
            }
            i += 1;
        }
        proof {
            crate::ast::lemma_view_stmts_len(program.statements@);
            assert(has_main == has_main_fn(sv));
        }

        let wrap = self.is_main_file && !has_main;
        let ghost ind0 = self.indent_level as nat;
        if wrap {
            self.out_str("fn main() {\n");
            self.indent_level = 1;
        }

        self.generate_block_stmts(&program.statements);

        if wrap {
            self.indent_level = 0;
            self.out_str("}\n");
        }
        assert(final(self).output@ =~= old(self).output@ + program_text(
            program@,
            old(self).is_main_file,
            ind0,
        ));

        self.output.clone()
    }
}

/// The path with every slash replaced by the target namespace separator.
fn replace_slashes(s: &str) -> (r: String)
    ensures
        r@ == ns_path_text(s@),
{
    let n = s.unicode_len();
    let mut out = String::new();
    let mut i: usize = 0;
    while i < n
        invariant
            i <= n,
            n == s@.len(),
            out@ == ns_path_text(s@.take(i as int)),
        decreases n - i,
    {
        let c = s.get_char(i);
        if c == '/' {
            out.append("::");
        } else {
            push_char(&mut out, c);
        }
        proof {
            assert(s@.take(i + 1).drop_last() =~= s@.take(i as int));
            assert(out@ =~= ns_path_text(s@.take(i + 1)));
        }
        i += 1;
    }
    proof {
        assert(s@.take(n as int) =~= s@);
    }
    out
}

/// The string without its first two characters.
fn skip_prefix2(s: &str) -> (r: String)
    ensures
        s@.len() >= 2 ==> r@ == s@.skip(2),
{
    let n = s.unicode_len();
    let mut out = String::new();
    let mut i: usize = 2;
    if n < 2 {
        return out;
    }
    while i < n
        invariant
            2 <= i <= n,
            n == s@.len(),
            out@ == s@.subrange(2, i as int),
        decreases n - i,
    {
        push_char(&mut out, s.get_char(i));
        proof {
            assert(out@ =~= s@.subrange(2, i + 1));
        }
        i += 1;
    }
    proof {
        assert(out@ =~= s@.skip(2));
    }
    out
}

} // verus!
