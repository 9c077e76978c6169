//! Lexical analysis: turns source text into a token sequence with line and
//! column information, or fails with a message naming the offending
//! character or construct and its position.
//!
//! The behaviour is pinned by a family of specification functions
//! (`spec_lex` and its helpers) that walk the character sequence exactly as
//! the executable scanner does; `tokenize` returns precisely what
//! `spec_lex` says, error text included.

use vstd::prelude::*;

use crate::text::{
    char_is_alphabetic, char_is_alphanumeric, dec_digits, is_alnum_char, is_alpha_char,
    is_digit_char, push_char, push_dec_usize, str_eq,
};
use crate::token::{Token, TokenKind, TokenKindV, TokenV};

verus! {

/// Saturating increment: positions in diagnostics stop growing at the
/// machine limit instead of overflowing.
pub open spec fn sbump(n: nat) -> nat {
    if n < usize::MAX as nat {
        n + 1
    } else {
        n
    }
}

fn bump(n: usize) -> (r: usize)
    ensures
        r as nat == sbump(n as nat),
{
    if n < usize::MAX {
        n + 1
    } else {
        n
    }
}

/// The character under the cursor, or NUL at the end of the input.
pub open spec fn cur_char(inp: Seq<char>, pos: int) -> char {
    if 0 <= pos < inp.len() {
        inp[pos]
    } else {
        '\u{0}'
    }
}

// ----------------------------------------------------------------------
// Error message construction.
// ----------------------------------------------------------------------

pub open spec fn msg_unexpected_char(c: char, line: nat, col: nat) -> Seq<char> {
    "Unexpected character '"@ + seq![c] + "' at line "@ + dec_digits(line) + ", column "@
        + dec_digits(col)
}

pub open spec fn msg_unterminated_string(line: nat, col: nat) -> Seq<char> {
    "Unterminated string at line "@ + dec_digits(line) + ", column "@ + dec_digits(col)
}

pub open spec fn msg_invalid_number(text: Seq<char>, line: nat, col: nat) -> Seq<char> {
    "Invalid number '"@ + text + "' at line "@ + dec_digits(line) + ", column "@ + dec_digits(col)
}

fn build_unexpected_char(c: char, line: usize, col: usize) -> (m: String)
    ensures
        m@ == msg_unexpected_char(c, line as nat, col as nat),
{
    let mut m = String::new();
    m.append("Unexpected character '");
    push_char(&mut m, c);
    m.append("' at line ");
    push_dec_usize(&mut m, line);
    m.append(", column ");
    push_dec_usize(&mut m, col);
    assert(m@ =~= msg_unexpected_char(c, line as nat, col as nat));
    m
}

fn build_unterminated_string(line: usize, col: usize) -> (m: String)
    ensures
        m@ == msg_unterminated_string(line as nat, col as nat),
{
    let mut m = String::new();
    m.append("Unterminated string at line ");
    push_dec_usize(&mut m, line);
    m.append(", column ");
    push_dec_usize(&mut m, col);
    assert(m@ =~= msg_unterminated_string(line as nat, col as nat));
    m
}

fn build_invalid_number(text: &String, line: usize, col: usize) -> (m: String)
    ensures
        m@ == msg_invalid_number(text@, line as nat, col as nat),
{
    let mut m = String::new();
    m.append("Invalid number '");
    m.append(text.as_str());
    m.append("' at line ");
    push_dec_usize(&mut m, line);
    m.append(", column ");
    push_dec_usize(&mut m, col);
    assert(m@ =~= msg_invalid_number(text@, line as nat, col as nat));
    m
}

// ----------------------------------------------------------------------
// The specification scanner.
// ----------------------------------------------------------------------

/// Cursor state after skipping whitespace and comments: position, line,
/// column.
pub struct SkipState {
    pub pos: int,
    pub line: nat,
    pub col: nat,
}

/// Skips spaces, tabs, carriage returns, newlines (counting lines) and
/// line comments, exactly as the scanner does.
pub open spec fn spec_skip_ws(inp: Seq<char>, pos: int, line: nat, col: nat) -> SkipState
    decreases inp.len() - pos, 0int,
{
    if pos < 0 || pos >= inp.len() {
        SkipState { pos, line, col }
    } else {
        let c = inp[pos];
        if c == ' ' || c == '\t' || c == '\r' {
            spec_skip_ws(inp, pos + 1, line, sbump(col))
        } else if c == '\n' {
            spec_skip_ws(inp, pos + 1, sbump(line), 1)
        } else if c == '/' && pos + 1 < inp.len() && inp[pos + 1] == '/' {
            spec_skip_comment(inp, pos + 2, line, sbump(sbump(col)))
        } else {
            SkipState { pos, line, col }
        }
    }
}

/// Skips the rest of a line comment, then continues skipping whitespace.
pub open spec fn spec_skip_comment(inp: Seq<char>, pos: int, line: nat, col: nat) -> SkipState
    decreases inp.len() - pos, 1int,
{
    if pos < 0 || pos >= inp.len() || inp[pos] == '\n' {
        spec_skip_ws(inp, pos, line, col)
    } else {
        spec_skip_comment(inp, pos + 1, line, sbump(col))
    }
}

/// Keyword table: a maximal identifier run is matched against these fixed
/// spellings; anything else is an identifier carrying its text.
pub open spec fn kw_kind(text: Seq<char>) -> TokenKindV {
    if text == "let"@ {
        TokenKindV::Let
    } else if text == "function"@ {
        TokenKindV::Function
    } else if text == "return"@ {
        TokenKindV::Return
    } else if text == "void"@ {
        TokenKindV::Void
    } else if text == "const"@ {
        TokenKindV::Const
    } else if text == "print"@ {
        TokenKindV::Print
    } else if text == "number"@ {
        TokenKindV::NumberType
    } else if text == "string"@ {
        TokenKindV::StringType
    } else if text == "boolean"@ {
        TokenKindV::BooleanType
    } else if text == "mut"@ {
        TokenKindV::Mut
    } else if text == "if"@ {
        TokenKindV::If
    } else if text == "else"@ {
        TokenKindV::Else
    } else if text == "for"@ {
        TokenKindV::For
    } else if text == "while"@ {
        TokenKindV::While
    } else if text == "in"@ {
        TokenKindV::In
    } else if text == "any"@ {
        TokenKindV::Any
    } else if text == "break"@ {
        TokenKindV::Break
    } else if text == "continue"@ {
        TokenKindV::Continue
    } else if text == "import"@ {
        TokenKindV::Import
    } else if text == "export"@ {
        TokenKindV::Export
    } else if text == "struct"@ {
        TokenKindV::Struct
    } else if text == "enum"@ {
        TokenKindV::Enum
    } else if text == "try"@ {
        TokenKindV::Try
    } else if text == "catch"@ {
        TokenKindV::Catch
    } else if text == "throw"@ {
        TokenKindV::Throw
    } else if text == "from"@ {
        TokenKindV::From
    } else if text == "as"@ {
        TokenKindV::As
    } else if text == "true"@ {
        TokenKindV::BooleanLiteral(true)
    } else if text == "false"@ {
        TokenKindV::BooleanLiteral(false)
    } else {
        TokenKindV::Identifier(text)
    }
}

/// Result of scanning one token.
pub enum LexStep {
    Tok(TokenV, int, nat, nat),
    Fail(Seq<char>),
}

/// Maximal run of alphanumerics and underscores: returns the accumulated
/// text, the position after the run and the column after the run.
pub open spec fn spec_read_ident(inp: Seq<char>, pos: int, col: nat, acc: Seq<char>) -> (Seq<
    char,
>, int, nat)
    decreases inp.len() - pos,
{
    if pos < 0 || pos >= inp.len() || !(is_alnum_char(inp[pos]) || inp[pos] == '_') {
        (acc, pos, col)
    } else {
        spec_read_ident(inp, pos + 1, sbump(col), acc.push(inp[pos]))
    }
}

/// Maximal run of ASCII digits.
pub open spec fn spec_read_digits(inp: Seq<char>, pos: int, col: nat, acc: Seq<char>) -> (Seq<
    char,
>, int, nat)
    decreases inp.len() - pos,
{
    if pos < 0 || pos >= inp.len() || !is_digit_char(inp[pos]) {
        (acc, pos, col)
    } else {
        spec_read_digits(inp, pos + 1, sbump(col), acc.push(inp[pos]))
    }
}

/// The identifier scan never moves the cursor backwards and never leaves
/// the input.
pub proof fn lemma_read_ident_range(inp: Seq<char>, pos: int, col: nat, acc: Seq<char>)
    requires
        0 <= pos <= inp.len(),
    ensures
        pos <= spec_read_ident(inp, pos, col, acc).1 <= inp.len(),
    decreases inp.len() - pos,
{
    if pos < inp.len() && (is_alnum_char(inp[pos]) || inp[pos] == '_') {
        lemma_read_ident_range(inp, pos + 1, sbump(col), acc.push(inp[pos]));
    }
}

/// The digit scan never moves the cursor backwards and never leaves the
/// input.
pub proof fn lemma_read_digits_range(inp: Seq<char>, pos: int, col: nat, acc: Seq<char>)
    requires
        0 <= pos <= inp.len(),
    ensures
        pos <= spec_read_digits(inp, pos, col, acc).1 <= inp.len(),
    decreases inp.len() - pos,
{
    if pos < inp.len() && is_digit_char(inp[pos]) {
        lemma_read_digits_range(inp, pos + 1, sbump(col), acc.push(inp[pos]));
    }
}

/// Numeric value of a digit run, most significant digit first.
pub open spec fn digits_val(ds: Seq<char>) -> int
    decreases ds.len(),
{
    if ds.len() == 0 {
        0
    } else {
        digits_val(ds.drop_last()) * 10 + ((ds.last() as u32) - 48)
    }
}

/// Scans a string literal body starting after the opening quote. `sl`/`sc`
/// are the line and column of the opening quote, reported when the input
/// ends before a closing quote.
pub open spec fn spec_read_string(
    inp: Seq<char>,
    pos: int,
    line: nat,
    col: nat,
    sl: nat,
    sc: nat,
    acc: Seq<char>,
) -> LexStep
    decreases inp.len() - pos,
{
    if pos < 0 || pos >= inp.len() {
        LexStep::Fail(msg_unterminated_string(sl, sc))
    } else {
        let c = inp[pos];
        if c == '"' {
            LexStep::Tok(
                TokenV { kind: TokenKindV::StringLiteral(acc), line: sl, column: sc },
                pos + 1,
                line,
                sbump(col),
            )
        } else if c == '\\' {
            if pos + 1 >= inp.len() {
                LexStep::Fail(msg_unterminated_string(sl, sc))
            } else {
                let e = inp[pos + 1];
                let acc2 = if e == 'n' {
                    acc.push('\n')
                } else if e == 't' {
                    acc.push('\t')
                } else if e == 'r' {
                    acc.push('\r')
                } else if e == '\\' {
                    acc.push('\\')
                } else if e == '"' {
                    acc.push('"')
                } else {
                    acc.push('\\').push(e)
                };
                spec_read_string(inp, pos + 2, line, sbump(sbump(col)), sl, sc, acc2)
            }
        } else {
            spec_read_string(inp, pos + 1, line, sbump(col), sl, sc, acc.push(c))
        }
    }
}

/// A successful string scan always moves the cursor forward and never
/// leaves the input.
pub proof fn lemma_read_string_range(
    inp: Seq<char>,
    pos: int,
    line: nat,
    col: nat,
    sl: nat,
    sc: nat,
    acc: Seq<char>,
)
    requires
        0 <= pos <= inp.len(),
    ensures
        match spec_read_string(inp, pos, line, col, sl, sc, acc) {
            LexStep::Tok(_, p2, _, _) => pos < p2 <= inp.len(),
            LexStep::Fail(_) => true,
        },
    decreases inp.len() - pos,
{
    if pos < inp.len() {
        let c = inp[pos];
        if c == '"' {
        } else if c == '\\' {
            if pos + 1 < inp.len() {
                let e = inp[pos + 1];
                let acc2 = if e == 'n' {
                    acc.push('\n')
                } else if e == 't' {
                    acc.push('\t')
                } else if e == 'r' {
                    acc.push('\r')
                } else if e == '\\' {
                    acc.push('\\')
                } else if e == '"' {
                    acc.push('"')
                } else {
                    acc.push('\\').push(e)
                };
                lemma_read_string_range(inp, pos + 2, line, sbump(sbump(col)), sl, sc, acc2);
            }
        } else {
            lemma_read_string_range(inp, pos + 1, line, sbump(col), sl, sc, acc.push(c));
        }
    }
}

/// Scans one token at `pos`, which must not be at the end of the input.
/// Two-character operators are matched by one-character lookahead; `&` and
/// `!` fall back to their one-character tokens, a lone `|` is an error.
pub open spec fn spec_next_token(inp: Seq<char>, pos: int, line: nat, col: nat) -> LexStep {
    let c = cur_char(inp, pos);
    let single = |k: TokenKindV|
        LexStep::Tok(TokenV { kind: k, line, column: col }, pos + 1, line, sbump(col));
    if c == '+' {
        single(TokenKindV::Plus)
    } else if c == '-' {
        single(TokenKindV::Minus)
    } else if c == '*' {
        single(TokenKindV::Star)
    } else if c == '/' {
        single(TokenKindV::Slash)
    } else if c == '%' {
        single(TokenKindV::Percent)
    } else if c == ':' {
        single(TokenKindV::Colon)
    } else if c == ';' {
        single(TokenKindV::Semicolon)
    } else if c == ',' {
        single(TokenKindV::Comma)
    } else if c == '.' {
        single(TokenKindV::Dot)
    } else if c == '(' {
        single(TokenKindV::LeftParen)
    } else if c == ')' {
        single(TokenKindV::RightParen)
    } else if c == '{' {
        single(TokenKindV::LeftBrace)
    } else if c == '}' {
        single(TokenKindV::RightBrace)
    } else if c == '[' {
        single(TokenKindV::LeftBracket)
    } else if c == ']' {
        single(TokenKindV::RightBracket)
    } else if c == '&' {
        if cur_char(inp, pos + 1) == '&' {
            LexStep::Tok(
                TokenV { kind: TokenKindV::AmpersandAmpersand, line, column: col },
                pos + 2,
                line,
                sbump(sbump(col)),
            )
        } else {
            single(TokenKindV::Ampersand)
        }
    } else if c == '|' {
        if cur_char(inp, pos + 1) == '|' {
            LexStep::Tok(
                TokenV { kind: TokenKindV::PipePipe, line, column: col },
                pos + 2,
                line,
                sbump(sbump(col)),
            )
        } else {
            LexStep::Fail(msg_unexpected_char('|', line, col))
        }
    } else if c == '!' {
        if cur_char(inp, pos + 1) == '=' {
            LexStep::Tok(
                TokenV { kind: TokenKindV::BangEqual, line, column: col },
                pos + 2,
                line,
                sbump(sbump(col)),
            )
        } else {
            single(TokenKindV::Bang)
        }
    } else if c == '=' {
        if cur_char(inp, pos + 1) == '=' {
            LexStep::Tok(
                TokenV { kind: TokenKindV::EqualEqual, line, column: col },
                pos + 2,
                line,
                sbump(sbump(col)),
            )
        } else {
            single(TokenKindV::Equal)
        }
    } else if c == '>' {
        if cur_char(inp, pos + 1) == '=' {
            LexStep::Tok(
                TokenV { kind: TokenKindV::GreaterEqual, line, column: col },
                pos + 2,
                line,
                sbump(sbump(col)),
            )
        } else {
            single(TokenKindV::Greater)
        }
    } else if c == '<' {
        if cur_char(inp, pos + 1) == '=' {
            LexStep::Tok(
                TokenV { kind: TokenKindV::LessEqual, line, column: col },
                pos + 2,
                line,
                sbump(sbump(col)),
            )
        } else {
            single(TokenKindV::Less)
        }
    } else if c == '"' {
        spec_read_string(inp, pos + 1, line, sbump(col), line, col, Seq::empty())
    } else if is_digit_char(c) {
        let (text, end, col2) = spec_read_digits(inp, pos, col, Seq::empty());
        if digits_val(text) > i32::MAX as int {
            LexStep::Fail(msg_invalid_number(text, line, col))
        } else {
            LexStep::Tok(
                TokenV {
                    kind: TokenKindV::NumberLiteral(digits_val(text) as i32),
                    line,
                    column: col,
                },
                end,
                line,
                col2,
            )
        }
    } else if is_alpha_char(c) || c == '_' {
        let (text, end, col2) = spec_read_ident(inp, pos, col, Seq::empty());
        LexStep::Tok(TokenV { kind: kw_kind(text), line, column: col }, end, line, col2)
    } else {
        LexStep::Fail(msg_unexpected_char(c, line, col))
    }
}

/// The whole scan: skip, read one token, repeat; at the end of the input
/// exactly one end-of-stream token is appended carrying the final position.
pub open spec fn spec_lex_loop(
    inp: Seq<char>,
    pos: int,
    line: nat,
    col: nat,
    acc: Seq<TokenV>,
) -> Result<Seq<TokenV>, Seq<char>>
    decreases inp.len() - pos,
{
    let st = spec_skip_ws(inp, pos, line, col);
    if st.pos >= inp.len() {
        Ok(acc.push(TokenV { kind: TokenKindV::Eof, line: st.line, column: st.col }))
    } else {
        match spec_next_token(inp, st.pos, st.line, st.col) {
            LexStep::Fail(m) => Err(m),
            LexStep::Tok(t, p2, l2, c2) => {
                if pos <= st.pos && st.pos < p2 <= inp.len() {
                    spec_lex_loop(inp, p2, l2, c2, acc.push(t))
                } else {
                    Err(Seq::empty())
                }
            },
        }
    }
}

/// What lexing an input text yields: the token sequence, or the error
/// message of the first offending position.
pub open spec fn spec_lex(inp: Seq<char>) -> Result<Seq<TokenV>, Seq<char>> {
    spec_lex_loop(inp, 0, 1, 1, Seq::empty())
}

/// Token views of an executable token vector.
pub open spec fn view_tokens(ts: Seq<Token>) -> Seq<TokenV>
    decreases ts,
{
    if ts.len() == 0 {
        Seq::empty()
    } else {
        view_tokens(ts.drop_last()).push(ts.last()@)
    }
}

pub proof fn lemma_view_tokens_push(ts: Seq<Token>, t: Token)
    ensures
        view_tokens(ts.push(t)) == view_tokens(ts).push(t@),
{
    assert(ts.push(t).drop_last() =~= ts);
    assert(ts.push(t).last() == t);
}

/// A successful string scan yields a string-literal token.
proof fn lemma_read_string_kind(
    inp: Seq<char>,
    pos: int,
    line: nat,
    col: nat,
    sl: nat,
    sc: nat,
    acc: Seq<char>,
)
    ensures
        match spec_read_string(inp, pos, line, col, sl, sc, acc) {
            LexStep::Tok(t, _, _, _) => t.kind is StringLiteral,
            LexStep::Fail(_) => true,
        },
    decreases inp.len() - pos,
{
    if 0 <= pos < inp.len() {
        let c = inp[pos];
        if c == '"' {
        } else if c == '\\' {
            if pos + 1 < inp.len() {
                let e = inp[pos + 1];
                let acc2 = if e == 'n' {
                    acc.push('\n')
                } else if e == 't' {
                    acc.push('\t')
                } else if e == 'r' {
                    acc.push('\r')
                } else if e == '\\' {
                    acc.push('\\')
                } else if e == '"' {
                    acc.push('"')
                } else {
                    acc.push('\\').push(e)
                };
                lemma_read_string_kind(inp, pos + 2, line, sbump(sbump(col)), sl, sc, acc2);
            }
        } else {
            lemma_read_string_kind(inp, pos + 1, line, sbump(col), sl, sc, acc.push(c));
        }
    }
}

/// A digit run accumulated from digit characters holds digit characters
/// only.
proof fn lemma_read_digits_chars(inp: Seq<char>, pos: int, col: nat, acc: Seq<char>)
    requires
        forall|k: int| 0 <= k < acc.len() ==> is_digit_char(#[trigger] acc[k]),
    ensures
        forall|k: int|
            0 <= k < spec_read_digits(inp, pos, col, acc).0.len() ==> is_digit_char(
                #[trigger] spec_read_digits(inp, pos, col, acc).0[k],
            ),
    decreases inp.len() - pos,
{
    if !(pos < 0 || pos >= inp.len() || !is_digit_char(inp[pos])) {
        let acc2 = acc.push(inp[pos]);
        assert(forall|k: int| 0 <= k < acc2.len() ==> is_digit_char(#[trigger] acc2[k]));
        lemma_read_digits_chars(inp, pos + 1, sbump(col), acc2);
        assert(spec_read_digits(inp, pos, col, acc) == spec_read_digits(
            inp,
            pos + 1,
            sbump(col),
            acc2,
        ));
    }
}

/// The value of a digit run is never negative.
proof fn lemma_digits_val_nonneg(ds: Seq<char>)
    requires
        forall|k: int| 0 <= k < ds.len() ==> is_digit_char(#[trigger] ds[k]),
    ensures
        digits_val(ds) >= 0,
    decreases ds.len(),
{
    if ds.len() > 0 {
        assert(forall|k: int|
            0 <= k < ds.drop_last().len() ==> is_digit_char(#[trigger] ds.drop_last()[k]));
        lemma_digits_val_nonneg(ds.drop_last());
    }
}

/// Scanning one token never yields the end-of-stream marker (that marker
/// is appended only once, after the input is exhausted), and a number
/// token's value is never negative.
proof fn lemma_next_token_not_eof(inp: Seq<char>, pos: int, line: nat, col: nat)
    ensures
        match spec_next_token(inp, pos, line, col) {
            LexStep::Tok(t, _, _, _) => !(t.kind is Eof) && (t.kind is NumberLiteral
                ==> t.kind->NumberLiteral_0 >= 0),
            LexStep::Fail(_) => true,
        },
{
    let c = cur_char(inp, pos);
    if c == '"' {
        lemma_read_string_kind(inp, pos + 1, line, sbump(col), line, col, Seq::empty());
    }
    if is_digit_char(c) {
        let (text, end, col2) = spec_read_digits(inp, pos, col, Seq::empty());
        lemma_read_digits_chars(inp, pos, col, Seq::empty());
        lemma_digits_val_nonneg(text);
    }
}

/// Tokenization totality: on any input the scan yields either an error or
/// a token sequence that ends with exactly one end-of-stream marker and
/// whose number literals are nonnegative — the well-formedness the parser
/// asks of its input.
pub proof fn lemma_lex_totality(inp: Seq<char>)
    ensures
        match spec_lex(inp) {
            Ok(ts) => ts.len() >= 1 && ts.last().kind is Eof && (forall|i: int|
                0 <= i < ts.len() - 1 ==> !(#[trigger] ts[i].kind is Eof)) && (forall|i: int|
                0 <= i < ts.len() ==> ((#[trigger] ts[i].kind) is NumberLiteral
                    ==> ts[i].kind->NumberLiteral_0 >= 0)),
            Err(_) => true,
        },
{
    lemma_lex_loop_totality(inp, 0, 1, 1, Seq::empty());
}

proof fn lemma_lex_loop_totality(inp: Seq<char>, pos: int, line: nat, col: nat, acc: Seq<TokenV>)
    requires
        forall|i: int| 0 <= i < acc.len() ==> !(#[trigger] acc[i].kind is Eof),
        forall|i: int|
            0 <= i < acc.len() ==> ((#[trigger] acc[i].kind) is NumberLiteral
                ==> acc[i].kind->NumberLiteral_0 >= 0),
    ensures
        match spec_lex_loop(inp, pos, line, col, acc) {
            Ok(ts) => ts.len() >= 1 && ts.last().kind is Eof && (forall|i: int|
                0 <= i < ts.len() - 1 ==> !(#[trigger] ts[i].kind is Eof)) && (forall|i: int|
                0 <= i < ts.len() ==> ((#[trigger] ts[i].kind) is NumberLiteral
                    ==> ts[i].kind->NumberLiteral_0 >= 0)),
            Err(_) => true,
        },
    decreases inp.len() - pos,
{
    let st = spec_skip_ws(inp, pos, line, col);
    if st.pos >= inp.len() {
    } else {
        match spec_next_token(inp, st.pos, st.line, st.col) {
            LexStep::Fail(_) => {},
            LexStep::Tok(t, p2, l2, c2) => {
                if pos <= st.pos && st.pos < p2 <= inp.len() {
                    lemma_next_token_not_eof(inp, st.pos, st.line, st.col);
                    lemma_lex_loop_totality(inp, p2, l2, c2, acc.push(t));
                }
            },
        }
    }
}

/// Length of the token view sequence.
pub broadcast proof fn lemma_view_tokens_len(ts: Seq<Token>)
    ensures
        #[trigger] view_tokens(ts).len() == ts.len(),
    decreases ts.len(),
{
    if ts.len() > 0 {
        lemma_view_tokens_len(ts.drop_last());
    }
}

/// Element of the token view sequence.
pub broadcast proof fn lemma_view_tokens_index(ts: Seq<Token>, i: int)
    requires
        0 <= i < ts.len(),
    ensures
        #[trigger] view_tokens(ts)[i] == ts[i]@,
    decreases ts.len(),
{
    lemma_view_tokens_len(ts);
    if i < ts.len() - 1 {
        lemma_view_tokens_index(ts.drop_last(), i);
    }
}

// ----------------------------------------------------------------------
// The executable scanner.
// ----------------------------------------------------------------------

/// The scanner: the input as characters, a cursor, and the line and column
/// of the cursor (1-based; the column resets at each newline).
pub struct Lexer {
    input: Vec<char>,
    position: usize,
    line: usize,
    column: usize,
}

impl Lexer {
    /// The scanned character sequence.
    pub closed spec fn src(&self) -> Seq<char> {
        self.input@
    }

    /// True of a scanner that has not consumed anything yet.
    pub closed spec fn fresh(&self) -> bool {
        self.position == 0 && self.line == 1 && self.column == 1
    }

    spec fn wf(&self) -> bool {
        self.position <= self.input@.len()
    }

    /// Builds a scanner over the given text, with the cursor at line 1,
    /// column 1.
    pub fn new(input: &str) -> (l: Lexer)
        ensures
            l.src() == input@,
            l.fresh(),
    {
        let n = input.unicode_len();
        let mut v: Vec<char> = Vec::new();
        let mut i: usize = 0;
        while i < n
            invariant
                i <= n,
                n == input@.len(),
                v@ =~= input@.subrange(0, i as int),
            decreases n - i,
        {
            v.push(input.get_char(i));
            i += 1;
        }
        assert(v@ =~= input@);
        Lexer { input: v, position: 0, line: 1, column: 1 }
    }

    fn is_at_end(&self) -> (r: bool)
        ensures
            r == (self.position >= self.input@.len()),
    {
        self.position >= self.input.len()
    }

    fn current_char(&self) -> (c: char)
        requires
            self.wf(),
        ensures
            c == cur_char(self.input@, self.position as int),
    {
        if self.is_at_end() {
            '\u{0}'
        } else {
            self.input[self.position]
        }
    }

    fn peek_is(&self, c: char) -> (r: bool)
        requires
            self.wf(),
        ensures
            r == (cur_char(self.input@, self.position as int + 1) == c),
    {
        if self.position >= self.input.len() {
            c == '\u{0}'
        } else if self.position + 1 < self.input.len() {
            self.input[self.position + 1] == c
        } else {
            c == '\u{0}'
        }
    }

    fn advance(&mut self)
        requires
            old(self).wf(),
        ensures
            final(self).wf(),
            final(self).input == old(self).input,
            final(self).line == old(self).line,
            old(self).position < old(self).input@.len() ==> final(self).position == old(
                self,
            ).position + 1 && final(self).column as nat == sbump(old(self).column as nat),
            old(self).position >= old(self).input@.len() ==> *final(self) == *old(self),
    {
        if self.position < self.input.len() {
            self.position = self.position + 1;
            self.column = bump(self.column);
        }
    }

    /// Skips whitespace and line comments, tracking line and column.
    fn skip_whitespace_and_comments(&mut self)
        requires
            old(self).wf(),
        ensures
            final(self).wf(),
            final(self).input == old(self).input,
            final(self).position >= old(self).position,
            ({
                let st = spec_skip_ws(
                    old(self).input@,
                    old(self).position as int,
                    old(self).line as nat,
                    old(self).column as nat,
                );
                &&& final(self).position == st.pos
                &&& final(self).line as nat == st.line
                &&& final(self).column as nat == st.col
            }),
    {
        loop
            invariant
                self.wf(),
                self.input == old(self).input,
                self.position >= old(self).position,
                spec_skip_ws(
                    old(self).input@,
                    old(self).position as int,
                    old(self).line as nat,
                    old(self).column as nat,
                ) == spec_skip_ws(
                    self.input@,
                    self.position as int,
                    self.line as nat,
                    self.column as nat,
                ),
            decreases self.input@.len() - self.position,
        {
            let ghost iter_pos = self.position as int;
            if self.is_at_end() {
                return ;
            }
            let c = self.current_char();
            if c == ' ' || c == '\t' || c == '\r' {
                self.advance();
            } else if c == '\n' {
                self.line = bump(self.line);
                self.column = 0;
                self.advance();
            } else if c == '/' && self.peek_is('/') {
                self.advance();
                self.advance();
                while !self.is_at_end() && self.current_char() != '\n'
                    invariant
                        self.wf(),
                        self.input == old(self).input,
                        self.position >= old(self).position,
                        self.position >= iter_pos + 1,
                        spec_skip_ws(
                            old(self).input@,
                            old(self).position as int,
                            old(self).line as nat,
                            old(self).column as nat,
                        ) == spec_skip_comment(
                            self.input@,
                            self.position as int,
                            self.line as nat,
                            self.column as nat,
                        ),
                    decreases self.input@.len() - self.position,
                {
                    self.advance();
                }
            } else {
                return ;
            }
        }
    }

    /// Scans a maximal identifier run and resolves it against the keyword
    /// table.
    fn read_identifier(&mut self, line: usize, column: usize) -> (r: Result<Token, String>)
        requires
            old(self).wf(),
        ensures
            final(self).wf(),
            final(self).input == old(self).input,
            final(self).line == old(self).line,
            r is Ok,
            ({
                let (text, end, col2) = spec_read_ident(
                    old(self).input@,
                    old(self).position as int,
                    old(self).column as nat,
                    Seq::empty(),
                );
                &&& r->Ok_0@ == (TokenV { kind: kw_kind(text), line: line as nat, column: column as nat })
                &&& final(self).position == end
                &&& final(self).column as nat == col2
            }),
    {
        let ghost inp = self.input@;
        let ghost p0 = self.position as int;
        let ghost c0 = self.column as nat;
        let mut ident = String::new();

        loop
            invariant
                self.wf(),
                self.input == old(self).input,
                self.input@ == inp,
                self.line == old(self).line,
                spec_read_ident(inp, p0, c0, Seq::empty()) == spec_read_ident(
                    inp,
                    self.position as int,
                    self.column as nat,
                    ident@,
                ),
            ensures
                self.wf(),
                self.input == old(self).input,
                self.line == old(self).line,
                spec_read_ident(inp, p0, c0, Seq::empty()) == (
                    ident@,
                    self.position as int,
                    self.column as nat,
                ),
            decreases self.input@.len() - self.position,
        {
            if self.is_at_end() {
                break ;
            }
            let c = self.current_char();
            if char_is_alphanumeric(c) || c == '_' {
                push_char(&mut ident, c);
                self.advance();
            } else {
                break ;
            }
        }

        proof {
            let (text, end, col2) = spec_read_ident(inp, p0, c0, Seq::empty());
            assert(text == ident@);
            assert(end == self.position as int);
            assert(col2 == self.column as nat);
        }
        let kind = if str_eq(ident.as_str(), "let") {
            TokenKind::Let
        } else if str_eq(ident.as_str(), "function") {
            TokenKind::Function
        } else if str_eq(ident.as_str(), "return") {
            TokenKind::Return
        } else if str_eq(ident.as_str(), "void") {
            TokenKind::Void
        } else if str_eq(ident.as_str(), "const") {
            TokenKind::Const
        } else if str_eq(ident.as_str(), "print") {
            TokenKind::Print
        } else if str_eq(ident.as_str(), "number") {
            TokenKind::NumberType
        } else if str_eq(ident.as_str(), "string") {
            TokenKind::StringType
        } else if str_eq(ident.as_str(), "boolean") {
            TokenKind::BooleanType
        } else if str_eq(ident.as_str(), "mut") {
            TokenKind::Mut
        } else if str_eq(ident.as_str(), "if") {
            TokenKind::If
        } else if str_eq(ident.as_str(), "else") {
            TokenKind::Else
        } else if str_eq(ident.as_str(), "for") {
            TokenKind::For
        } else if str_eq(ident.as_str(), "while") {
            TokenKind::While
        } else if str_eq(ident.as_str(), "in") {
            TokenKind::In
        } else if str_eq(ident.as_str(), "any") {
            TokenKind::Any
        } else if str_eq(ident.as_str(), "break") {
            TokenKind::Break
        } else if str_eq(ident.as_str(), "continue") {
            TokenKind::Continue
        } else if str_eq(ident.as_str(), "import") {
            TokenKind::Import
        } else if str_eq(ident.as_str(), "export") {
            TokenKind::Export
        } else if str_eq(ident.as_str(), "struct") {
            TokenKind::Struct
        } else if str_eq(ident.as_str(), "enum") {
            TokenKind::Enum
        } else if str_eq(ident.as_str(), "try") {
            TokenKind::Try
        } else if str_eq(ident.as_str(), "catch") {
            TokenKind::Catch
        } else if str_eq(ident.as_str(), "throw") {
            TokenKind::Throw
        } else if str_eq(ident.as_str(), "from") {
            TokenKind::From
        } else if str_eq(ident.as_str(), "as") {
            TokenKind::As
        } else if str_eq(ident.as_str(), "true") {
            TokenKind::BooleanLiteral(true)
        } else if str_eq(ident.as_str(), "false") {
            TokenKind::BooleanLiteral(false)
        } else {
            TokenKind::Identifier(ident)
        };

        Ok(Token::new(kind, line, column))
    }

    /// Scans a string literal; the opening quote is at `line`/`column` and
    /// has already been consumed by the caller.
    fn read_string(&mut self, line: usize, column: usize) -> (r: Result<Token, String>)
        requires
            old(self).wf(),
        ensures
            final(self).wf(),
            final(self).input == old(self).input,
            ({
                let step = spec_read_string(
                    old(self).input@,
                    old(self).position as int,
                    old(self).line as nat,
                    old(self).column as nat,
                    line as nat,
                    column as nat,
                    Seq::empty(),
                );
                match step {
                    LexStep::Tok(t, p2, l2, c2) => {
                        &&& r is Ok
                        &&& r->Ok_0@ == t
                        &&& final(self).position == p2
                        &&& final(self).line as nat == l2
                        &&& final(self).column as nat == c2
                    },
                    LexStep::Fail(m) => r is Err && r->Err_0@ == m,
                }
            }),
    {
        let ghost inp = self.input@;
        let ghost p0 = self.position as int;
        let ghost l0 = self.line as nat;
        let ghost c0 = self.column as nat;
        let mut value = String::new();

        loop
            invariant
                self.wf(),
                self.input == old(self).input,
                self.input@ == inp,
                p0 == old(self).position as int,
                l0 == old(self).line as nat,
                c0 == old(self).column as nat,
                spec_read_string(inp, p0, l0, c0, line as nat, column as nat, Seq::empty())
                    == spec_read_string(
                    inp,
                    self.position as int,
                    self.line as nat,
                    self.column as nat,
                    line as nat,
                    column as nat,
                    value@,
                ),
            decreases self.input@.len() - self.position,
        {
            if self.is_at_end() {
                return Err(build_unterminated_string(line, column));
            }
            let c = self.current_char();
            if c == '"' {
                self.advance();
                return Ok(Token::new(TokenKind::StringLiteral(value), line, column));
            }
            if c == '\\' {
                self.advance();
                if self.is_at_end() {
                    return Err(build_unterminated_string(line, column));
                }
                let e = self.current_char();
                if e == 'n' {
                    push_char(&mut value, '\n');
                } else if e == 't' {
                    push_char(&mut value, '\t');
                } else if e == 'r' {
                    push_char(&mut value, '\r');
                } else if e == '\\' {
                    push_char(&mut value, '\\');
                } else if e == '"' {
                    push_char(&mut value, '"');
                } else {
                    push_char(&mut value, '\\');
                    push_char(&mut value, e);
                }
                self.advance();
            } else {
                push_char(&mut value, c);
                self.advance();
            }
        }
    }

    /// Scans a maximal digit run and turns it into a 32-bit number token;
    /// a run whose value does not fit is an error.
    fn read_number(&mut self, line: usize, column: usize) -> (r: Result<Token, String>)
        requires
            old(self).wf(),
        ensures
            final(self).wf(),
            final(self).input == old(self).input,
            final(self).line == old(self).line,
            ({
                let (text, end, col2) = spec_read_digits(
                    old(self).input@,
                    old(self).position as int,
                    old(self).column as nat,
                    Seq::empty(),
                );
                if digits_val(text) > i32::MAX as int {
                    r is Err && r->Err_0@ == msg_invalid_number(text, line as nat, column as nat)
                } else {
                    &&& r is Ok
                    &&& r->Ok_0@ == (TokenV {
                        kind: TokenKindV::NumberLiteral(digits_val(text) as i32),
                        line: line as nat,
                        column: column as nat,
                    })
                    &&& final(self).position == end
                    &&& final(self).column as nat == col2
                }
            }),
    {
        let ghost inp = self.input@;
        let ghost p0 = self.position as int;
        let ghost c0 = self.column as nat;
        let mut num_str = String::new();
        let mut acc: i64 = 0;

        loop
            invariant
                self.wf(),
                self.input == old(self).input,
                self.input@ == inp,
                self.line == old(self).line,
                spec_read_digits(inp, p0, c0, Seq::empty()) == spec_read_digits(
                    inp,
                    self.position as int,
                    self.column as nat,
                    num_str@,
                ),
                digits_val(num_str@) <= i32::MAX as int ==> acc == digits_val(num_str@),
                digits_val(num_str@) > i32::MAX as int ==> acc > i32::MAX as i64,
                0 <= acc <= 21474836479,
            ensures
                self.wf(),
                self.input == old(self).input,
                self.line == old(self).line,
                spec_read_digits(inp, p0, c0, Seq::empty()) == (
                    num_str@,
                    self.position as int,
                    self.column as nat,
                ),
                digits_val(num_str@) <= i32::MAX as int ==> acc == digits_val(num_str@),
                digits_val(num_str@) > i32::MAX as int ==> acc > i32::MAX as i64,
            decreases self.input@.len() - self.position,
        {
            if self.is_at_end() {
                break ;
            }
            let c = self.current_char();
            let u = c as u32;
            if 48 <= u && u <= 57 {
                proof {
                    assert(is_digit_char(c));
                    assert(digits_val(num_str@.push(c)) == digits_val(num_str@) * 10 + (u - 48))
                        by {
                        assert(num_str@.push(c).drop_last() =~= num_str@);
                    }
                    if digits_val(num_str@) > i32::MAX as int {
                        assert(digits_val(num_str@) * 10 + (u - 48) > i32::MAX as int) by (
                        nonlinear_arith)
                            requires
                                digits_val(num_str@) > i32::MAX as int,
                                u - 48 >= 0,
                        ;
                    }
                }
                if acc <= i32::MAX as i64 {
                    acc = acc * 10 + ((u - 48) as i64);
                }
                push_char(&mut num_str, c);
                self.advance();
            } else {
                proof {
                    assert(!is_digit_char(c));
                }
                break ;
            }
        }

        if acc > i32::MAX as i64 {
            Err(build_invalid_number(&num_str, line, column))
        } else {
            Ok(Token::new(TokenKind::NumberLiteral(acc as i32), line, column))
        }
    }

    /// Scans the next token, dispatching on the character under the
    /// cursor.
    fn next_token(&mut self) -> (r: Result<Token, String>)
        requires
            old(self).wf(),
            old(self).position < old(self).input@.len(),
        ensures
            final(self).wf(),
            final(self).input == old(self).input,
            ({
                let step = spec_next_token(
                    old(self).input@,
                    old(self).position as int,
                    old(self).line as nat,
                    old(self).column as nat,
                );
                match step {
                    LexStep::Tok(t, p2, l2, c2) => {
                        &&& r is Ok
                        &&& r->Ok_0@ == t
                        &&& final(self).position == p2
                        &&& final(self).line as nat == l2
                        &&& final(self).column as nat == c2
                        &&& old(self).position < p2 <= old(self).input@.len()
                    },
                    LexStep::Fail(m) => r is Err && r->Err_0@ == m,
                }
            }),
    {
        let line = self.line;
        let column = self.column;
        let ch = self.current_char();

        if ch == '+' {
            self.advance();
            Ok(Token::new(TokenKind::Plus, line, column))
        } else if ch == '-' {
            self.advance();
            Ok(Token::new(TokenKind::Minus, line, column))
        } else if ch == '*' {
            self.advance();
            Ok(Token::new(TokenKind::Star, line, column))
        } else if ch == '/' {
            self.advance();
            Ok(Token::new(TokenKind::Slash, line, column))
        } else if ch == '%' {
            self.advance();
            Ok(Token::new(TokenKind::Percent, line, column))
        } else if ch == ':' {
            self.advance();
            Ok(Token::new(TokenKind::Colon, line, column))
        } else if ch == ';' {
            self.advance();
            Ok(Token::new(TokenKind::Semicolon, line, column))
        } else if ch == ',' {
            self.advance();
            Ok(Token::new(TokenKind::Comma, line, column))
        } else if ch == '.' {
            self.advance();
            Ok(Token::new(TokenKind::Dot, line, column))
        } else if ch == '(' {
            self.advance();
            Ok(Token::new(TokenKind::LeftParen, line, column))
        } else if ch == ')' {
            self.advance();
            Ok(Token::new(TokenKind::RightParen, line, column))
        } else if ch == '{' {
            self.advance();
            Ok(Token::new(TokenKind::LeftBrace, line, column))
        } else if ch == '}' {
            self.advance();
            Ok(Token::new(TokenKind::RightBrace, line, column))
        } else if ch == '[' {
            self.advance();
            Ok(Token::new(TokenKind::LeftBracket, line, column))
        } else if ch == ']' {
            self.advance();
            Ok(Token::new(TokenKind::RightBracket, line, column))
        } else if ch == '&' {
            self.advance();
            if self.current_char() == '&' {
                self.advance();
                Ok(Token::new(TokenKind::AmpersandAmpersand, line, column))
            } else {
                Ok(Token::new(TokenKind::Ampersand, line, column))
            }
        } else if ch == '|' {
            self.advance();
            if self.current_char() == '|' {
                self.advance();
                Ok(Token::new(TokenKind::PipePipe, line, column))
            } else {
                Err(build_unexpected_char('|', line, column))
            }
        } else if ch == '!' {
            self.advance();
            if self.current_char() == '=' {
                self.advance();
                Ok(Token::new(TokenKind::BangEqual, line, column))
            } else {
                Ok(Token::new(TokenKind::Bang, line, column))
            }
        } else if ch == '=' {
            self.advance();
            if self.current_char() == '=' {
                self.advance();
                Ok(Token::new(TokenKind::EqualEqual, line, column))
            } else {
                Ok(Token::new(TokenKind::Equal, line, column))
            }
        } else if ch == '>' {
            self.advance();
            if self.current_char() == '=' {
                self.advance();
                Ok(Token::new(TokenKind::GreaterEqual, line, column))
            } else {
                Ok(Token::new(TokenKind::Greater, line, column))
            }
        } else if ch == '<' {
            self.advance();
            if self.current_char() == '=' {
                self.advance();
                Ok(Token::new(TokenKind::LessEqual, line, column))
            } else {
                Ok(Token::new(TokenKind::Less, line, column))
            }
        } else if ch == '"' {
            self.advance();
            proof {
                lemma_read_string_range(
                    self.input@,
                    self.position as int,
                    self.line as nat,
                    self.column as nat,
                    line as nat,
                    column as nat,
                    Seq::empty(),
                );
            }
            self.read_string(line, column)
        } else {
            let u = ch as u32;
            if 48 <= u && u <= 57 {
                proof {
                    assert(is_digit_char(ch));
                    lemma_read_digits_range(
                        self.input@,
                        self.position as int + 1,
                        sbump(self.column as nat),
                        Seq::empty().push(ch),
                    );
                }
                self.read_number(line, column)
            } else if char_is_alphabetic(ch) || ch == '_' {
                proof {
                    lemma_read_ident_range(
                        self.input@,
                        self.position as int + 1,
                        sbump(self.column as nat),
                        Seq::empty().push(ch),
                    );
                }
                self.read_identifier(line, column)
            } else {
                Err(build_unexpected_char(ch, line, column))
            }
        }
    }

    /// Scans the whole input. On success the token sequence covers every
    /// non-skipped character and ends with exactly one end-of-stream
    /// token; on failure the message names the offending construct and
    /// its position. The result is exactly what [`spec_lex`] assigns to
    /// the text the scanner was built over.
    pub fn tokenize(&mut self) -> (r: Result<Vec<Token>, String>)
        ensures
            final(self).src() == old(self).src(),
            old(self).fresh() ==> match spec_lex(old(self).src()) {
                Ok(ts) => r is Ok && view_tokens(r->Ok_0@) == ts,
                Err(m) => r is Err && r->Err_0@ == m,
            },
    {
        let mut tokens: Vec<Token> = Vec::new();
        if self.position > self.input.len() {
            self.position = self.input.len();
        }
        let ghost inp = self.input@;
        let ghost p0 = self.position as int;
        let ghost l0 = self.line as nat;
        let ghost c0 = self.column as nat;

        loop
            invariant
                self.wf(),
                self.input == old(self).input,
                self.input@ == inp,
                old(self).fresh() ==> p0 == 0 && l0 == 1 && c0 == 1,
                spec_lex_loop(inp, p0, l0, c0, Seq::empty()) == spec_lex_loop(
                    inp,
                    self.position as int,
                    self.line as nat,
                    self.column as nat,
                    view_tokens(tokens@),
                ),
            decreases self.input@.len() - self.position,
        {
            self.skip_whitespace_and_comments();

            if self.is_at_end() {
                let t = Token::new(TokenKind::Eof, self.line, self.column);
                proof {
                    lemma_view_tokens_push(tokens@, t);
                }
                tokens.push(t);
                return Ok(tokens);
            }

            let token = match self.next_token() {
                Ok(t) => t,
                Err(m) => {
                    return Err(m);
                },
            };
            proof {
                lemma_view_tokens_push(tokens@, token);
            }
            tokens.push(token);
        }
    }
}

} // verus!
