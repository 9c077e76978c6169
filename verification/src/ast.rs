//! The abstract syntax tree: a closed set of statements, expressions and
//! type annotations. The parser produces one [`Program`] and the code
//! generator consumes it; every node owns its children outright, so the
//! tree is a strict ownership hierarchy with no sharing and no cycles.
//!
//! Each executable node type has a mathematical model (the `...V` types)
//! in which strings are character sequences and vectors are sequences;
//! contracts speak about nodes through these models.

use vstd::prelude::*;

verus! {

/// The parse root: an ordered sequence of top-level statements.
#[derive(Debug)]
pub struct Program {
    pub statements: Vec<Statement>,
}

#[derive(Debug)]
pub enum Statement {
    ImportStmt(ImportStmt),
    ExportStmt(Box<Statement>),
    VariableDecl(VariableDecl),
    FunctionDecl(FunctionDecl),
    StructDecl(StructDecl),
    EnumDecl(EnumDecl),
    PrintStmt(PrintStmt),
    ReturnStmt(ReturnStmt),
    ExpressionStmt(Expression),
    IfElse(IfElseStmt),
    ForLoop(ForLoopStmt),
    WhileLoop(WhileLoopStmt),
    BreakStmt,
    ContinueStmt,
    TryCatch(TryCatchStmt),
    ThrowStmt(ThrowStmt),
}

#[derive(Debug)]
pub struct ImportStmt {
    pub imports: Vec<ImportItem>,
    pub path: String,
    pub is_external: bool,
}

#[derive(Debug)]
pub struct ImportItem {
    pub name: String,
    pub alias: Option<String>,
}

#[derive(Debug)]
pub struct VariableDecl {
    pub name: String,
    pub var_type: Option<Type>,
    pub value: Expression,
    pub is_const: bool,
}

#[derive(Debug)]
pub struct FunctionDecl {
    pub name: String,
    pub parameters: Vec<Parameter>,
    pub return_type: Type,
    pub body: Vec<Statement>,
}

#[derive(Debug)]
pub struct Parameter {
    pub name: String,
    pub param_type: Type,
}

#[derive(Debug)]
pub struct StructDecl {
    pub name: String,
    pub fields: Vec<StructField>,
}

#[derive(Debug)]
pub struct StructField {
    pub name: String,
    pub field_type: Type,
}

#[derive(Debug)]
pub struct EnumDecl {
    pub name: String,
    pub variants: Vec<EnumVariant>,
}

#[derive(Debug)]
pub struct EnumVariant {
    pub name: String,
    pub fields: Option<Vec<Type>>,
}

#[derive(Debug)]
pub struct PrintStmt {
    pub expression: Expression,
}

#[derive(Debug)]
pub struct ReturnStmt {
    pub value: Option<Expression>,
}

#[derive(Debug)]
pub struct IfElseStmt {
    pub condition: Expression,
    pub then_body: Vec<Statement>,
    pub else_body: Option<Vec<Statement>>,
}

#[derive(Debug)]
pub struct ForLoopStmt {
    pub variable: String,
    pub iterable: Expression,
    pub body: Vec<Statement>,
}

#[derive(Debug)]
pub struct WhileLoopStmt {
    pub condition: Expression,
    pub body: Vec<Statement>,
}

#[derive(Debug)]
pub struct TryCatchStmt {
    pub try_body: Vec<Statement>,
    pub catch_param: Option<String>,
    pub catch_body: Vec<Statement>,
}

#[derive(Debug)]
pub struct ThrowStmt {
    pub expression: Expression,
}

/// A type annotation. Equality between types is structural.
#[derive(Debug, PartialEq)]
pub enum Type {
    Number,
    String,
    Boolean,
    Void,
    Any,
    Array { element_type: Box<Type>, size: Option<usize> },
    Custom(String),
    Inferred,
}

#[derive(Debug)]
pub enum Expression {
    Identifier(String),
    NumberLiteral(i32),
    StringLiteral(String),
    BooleanLiteral(bool),
    ArrayLiteral(Vec<Expression>),
    StructLiteral { name: String, fields: Vec<(String, Expression)> },
    BinaryOp(Box<Expression>, BinaryOp, Box<Expression>),
    FunctionCall(String, Vec<Expression>),
    MethodCall { object: Box<Expression>, method: String, arguments: Vec<Expression> },
    IndexAccess { object: Box<Expression>, index: Box<Expression> },
    MemberAccess { object: Box<Expression>, member: String },
}

#[derive(Debug, Clone, Copy, PartialEq, Eq, Structural)]
pub enum BinaryOp {
    Add,
    Subtract,
    Multiply,
    Divide,
    Modulo,
    Equal,
    NotEqual,
    Greater,
    GreaterEqual,
    Less,
    LessEqual,
    And,
    Or,
}

// ----------------------------------------------------------------------
// Mathematical models.
// ----------------------------------------------------------------------

pub struct ProgramV {
    pub statements: Seq<StatementV>,
}

pub enum StatementV {
    ImportStmt(ImportStmtV),
    ExportStmt(Box<StatementV>),
    VariableDecl(VariableDeclV),
    FunctionDecl(FunctionDeclV),
    StructDecl(StructDeclV),
    EnumDecl(EnumDeclV),
    PrintStmt(PrintStmtV),
    ReturnStmt(ReturnStmtV),
    ExpressionStmt(ExpressionV),
    IfElse(IfElseStmtV),
    ForLoop(ForLoopStmtV),
    WhileLoop(WhileLoopStmtV),
    BreakStmt,
    ContinueStmt,
    TryCatch(TryCatchStmtV),
    ThrowStmt(ThrowStmtV),
}

pub struct ImportStmtV {
    pub imports: Seq<ImportItemV>,
    pub path: Seq<char>,
    pub is_external: bool,
}

pub struct ImportItemV {
    pub name: Seq<char>,
    pub alias: Option<Seq<char>>,
}

pub struct VariableDeclV {
    pub name: Seq<char>,
    pub var_type: Option<TypeV>,
    pub value: ExpressionV,
    pub is_const: bool,
}

pub struct FunctionDeclV {
    pub name: Seq<char>,
    pub parameters: Seq<ParameterV>,
    pub return_type: TypeV,
    pub body: Seq<StatementV>,
}

pub struct ParameterV {
    pub name: Seq<char>,
    pub param_type: TypeV,
}

pub struct StructDeclV {
    pub name: Seq<char>,
    pub fields: Seq<StructFieldV>,
}

pub struct StructFieldV {
    pub name: Seq<char>,
    pub field_type: TypeV,
}

pub struct EnumDeclV {
    pub name: Seq<char>,
    pub variants: Seq<EnumVariantV>,
}

pub struct EnumVariantV {
    pub name: Seq<char>,
    pub fields: Option<Seq<TypeV>>,
}

pub struct PrintStmtV {
    pub expression: ExpressionV,
}

pub struct ReturnStmtV {
    pub value: Option<ExpressionV>,
}

pub struct IfElseStmtV {
    pub condition: ExpressionV,
    pub then_body: Seq<StatementV>,
    pub else_body: Option<Seq<StatementV>>,
}

pub struct ForLoopStmtV {
    pub variable: Seq<char>,
    pub iterable: ExpressionV,
    pub body: Seq<StatementV>,
}

pub struct WhileLoopStmtV {
    pub condition: ExpressionV,
    pub body: Seq<StatementV>,
}

pub struct TryCatchStmtV {
    pub try_body: Seq<StatementV>,
    pub catch_param: Option<Seq<char>>,
    pub catch_body: Seq<StatementV>,
}

pub struct ThrowStmtV {
    pub expression: ExpressionV,
}

pub enum TypeV {
    Number,
    String,
    Boolean,
    Void,
    Any,
    Array { element_type: Box<TypeV>, size: Option<usize> },
    Custom(Seq<char>),
    Inferred,
}

pub enum ExpressionV {
    Identifier(Seq<char>),
    NumberLiteral(i32),
    StringLiteral(Seq<char>),
    BooleanLiteral(bool),
    ArrayLiteral(Seq<ExpressionV>),
    StructLiteral { name: Seq<char>, fields: Seq<(Seq<char>, ExpressionV)> },
    BinaryOp(Box<ExpressionV>, BinaryOp, Box<ExpressionV>),
    FunctionCall(Seq<char>, Seq<ExpressionV>),
    MethodCall { object: Box<ExpressionV>, method: Seq<char>, arguments: Seq<ExpressionV> },
    IndexAccess { object: Box<ExpressionV>, index: Box<ExpressionV> },
    MemberAccess { object: Box<ExpressionV>, member: Seq<char> },
}

// ----------------------------------------------------------------------
// Views from executable nodes to their models.
// ----------------------------------------------------------------------

pub open spec fn view_type(t: Type) -> TypeV
    decreases t,
{
    match t {
        Type::Number => TypeV::Number,
        Type::String => TypeV::String,
        Type::Boolean => TypeV::Boolean,
        Type::Void => TypeV::Void,
        Type::Any => TypeV::Any,
        Type::Array { element_type, size } => TypeV::Array {
            element_type: Box::new(view_type(*element_type)),
            size,
        },
        Type::Custom(name) => TypeV::Custom(name@),
        Type::Inferred => TypeV::Inferred,
    }
}

pub open spec fn view_types(ts: Seq<Type>) -> Seq<TypeV>
    decreases ts,
{
    if ts.len() == 0 {
        Seq::empty()
    } else {
        view_types(ts.drop_last()).push(view_type(ts.last()))
    }
}

pub open spec fn view_expr(e: Expression) -> ExpressionV
    decreases e,
{
    match e {
        Expression::Identifier(name) => ExpressionV::Identifier(name@),
        Expression::NumberLiteral(n) => ExpressionV::NumberLiteral(n),
        Expression::StringLiteral(s) => ExpressionV::StringLiteral(s@),
        Expression::BooleanLiteral(b) => ExpressionV::BooleanLiteral(b),
        Expression::ArrayLiteral(es) => ExpressionV::ArrayLiteral(view_exprs(es@)),
        Expression::StructLiteral { name, fields } => ExpressionV::StructLiteral {
            name: name@,
            fields: view_field_inits(fields@),
        },
        Expression::BinaryOp(l, op, r) => ExpressionV::BinaryOp(
            Box::new(view_expr(*l)),
            op,
            Box::new(view_expr(*r)),
        ),
        Expression::FunctionCall(name, args) => ExpressionV::FunctionCall(name@, view_exprs(args@)),
        Expression::MethodCall { object, method, arguments } => ExpressionV::MethodCall {
            object: Box::new(view_expr(*object)),
            method: method@,
            arguments: view_exprs(arguments@),
        },
        Expression::IndexAccess { object, index } => ExpressionV::IndexAccess {
            object: Box::new(view_expr(*object)),
            index: Box::new(view_expr(*index)),
        },
        Expression::MemberAccess { object, member } => ExpressionV::MemberAccess {
            object: Box::new(view_expr(*object)),
            member: member@,
        },
    }
}

pub open spec fn view_exprs(es: Seq<Expression>) -> Seq<ExpressionV>
    decreases es,
{
    if es.len() == 0 {
        Seq::empty()
    } else {
        view_exprs(es.drop_last()).push(view_expr(es.last()))
    }
}

pub open spec fn view_field_inits(fs: Seq<(String, Expression)>) -> Seq<(Seq<char>, ExpressionV)>
    decreases fs,
{
    if fs.len() == 0 {
        Seq::empty()
    } else {
        view_field_inits(fs.drop_last()).push((fs.last().0@, view_expr(fs.last().1)))
    }
}

pub open spec fn view_stmt(s: Statement) -> StatementV
    decreases s,
{
    match s {
        Statement::ImportStmt(i) => StatementV::ImportStmt(ImportStmtV {
            imports: view_import_items(i.imports@),
            path: i.path@,
            is_external: i.is_external,
        }),
        Statement::ExportStmt(inner) => StatementV::ExportStmt(Box::new(view_stmt(*inner))),
        Statement::VariableDecl(v) => StatementV::VariableDecl(VariableDeclV {
            name: v.name@,
            var_type: match v.var_type {
                Some(t) => Some(view_type(t)),
                None => None,
            },
            value: view_expr(v.value),
            is_const: v.is_const,
        }),
        Statement::FunctionDecl(f) => StatementV::FunctionDecl(FunctionDeclV {
            name: f.name@,
            parameters: view_params(f.parameters@),
            return_type: view_type(f.return_type),
            body: view_stmts(f.body@),
        }),
        Statement::StructDecl(d) => StatementV::StructDecl(StructDeclV {
            name: d.name@,
            fields: view_struct_fields(d.fields@),
        }),
        Statement::EnumDecl(d) => StatementV::EnumDecl(EnumDeclV {
            name: d.name@,
            variants: view_enum_variants(d.variants@),
        }),
        Statement::PrintStmt(p) => StatementV::PrintStmt(PrintStmtV {
            expression: view_expr(p.expression),
        }),
        Statement::ReturnStmt(r) => StatementV::ReturnStmt(ReturnStmtV {
            value: match r.value {
                Some(e) => Some(view_expr(e)),
                None => None,
            },
        }),
        Statement::ExpressionStmt(e) => StatementV::ExpressionStmt(view_expr(e)),
        Statement::IfElse(i) => StatementV::IfElse(IfElseStmtV {
            condition: view_expr(i.condition),
            then_body: view_stmts(i.then_body@),
            else_body: match i.else_body {
                Some(b) => Some(view_stmts(b@)),
                None => None,
            },
        }),
        Statement::ForLoop(f) => StatementV::ForLoop(ForLoopStmtV {
            variable: f.variable@,
            iterable: view_expr(f.iterable),
            body: view_stmts(f.body@),
        }),
        Statement::WhileLoop(w) => StatementV::WhileLoop(WhileLoopStmtV {
            condition: view_expr(w.condition),
            body: view_stmts(w.body@),
        }),
        Statement::BreakStmt => StatementV::BreakStmt,
        Statement::ContinueStmt => StatementV::ContinueStmt,
        Statement::TryCatch(t) => StatementV::TryCatch(TryCatchStmtV {
            try_body: view_stmts(t.try_body@),
            catch_param: match t.catch_param {
                Some(p) => Some(p@),
                None => None,
            },
            catch_body: view_stmts(t.catch_body@),
        }),
        Statement::ThrowStmt(t) => StatementV::ThrowStmt(ThrowStmtV {
            expression: view_expr(t.expression),
        }),
    }
}

pub open spec fn view_stmts(ss: Seq<Statement>) -> Seq<StatementV>
    decreases ss,
{
    if ss.len() == 0 {
        Seq::empty()
    } else {
        view_stmts(ss.drop_last()).push(view_stmt(ss.last()))
    }
}

pub open spec fn view_import_item(item: ImportItem) -> ImportItemV {
    ImportItemV {
        name: item.name@,
        alias: match item.alias {
            Some(a) => Some(a@),
            None => None,
        },
    }
}

pub open spec fn view_import_items(items: Seq<ImportItem>) -> Seq<ImportItemV>
    decreases items,
{
    if items.len() == 0 {
        Seq::empty()
    } else {
        view_import_items(items.drop_last()).push(view_import_item(items.last()))
    }
}

pub open spec fn view_params(ps: Seq<Parameter>) -> Seq<ParameterV>
    decreases ps,
{
    if ps.len() == 0 {
        Seq::empty()
    } else {
        view_params(ps.drop_last()).push(
            ParameterV { name: ps.last().name@, param_type: view_type(ps.last().param_type) },
        )
    }
}

pub open spec fn view_struct_fields(fs: Seq<StructField>) -> Seq<StructFieldV>
    decreases fs,
{
    if fs.len() == 0 {
        Seq::empty()
    } else {
        view_struct_fields(fs.drop_last()).push(
            StructFieldV {
                name: fs.last().name@,
                field_type: view_type(fs.last().field_type),
            },
        )
    }
}

pub open spec fn view_enum_variant(v: EnumVariant) -> EnumVariantV
    decreases v,
{
    EnumVariantV {
        name: v.name@,
        fields: match v.fields {
            Some(ts) => Some(view_types(ts@)),
            None => None,
        },
    }
}

pub open spec fn view_enum_variants(vs: Seq<EnumVariant>) -> Seq<EnumVariantV>
    decreases vs,
{
    if vs.len() == 0 {
        Seq::empty()
    } else {
        view_enum_variants(vs.drop_last()).push(view_enum_variant(vs.last()))
    }
}


// ----------------------------------------------------------------------
// Appending to a node vector appends its view.
// ----------------------------------------------------------------------

pub broadcast proof fn lemma_view_stmts_push(ss: Seq<Statement>, s: Statement)
    ensures
        #[trigger] view_stmts(ss.push(s)) == view_stmts(ss).push(view_stmt(s)),
{
    assert(ss.push(s).drop_last() =~= ss);
}

pub broadcast proof fn lemma_view_exprs_push(es: Seq<Expression>, e: Expression)
    ensures
        #[trigger] view_exprs(es.push(e)) == view_exprs(es).push(view_expr(e)),
{
    assert(es.push(e).drop_last() =~= es);
}

pub broadcast proof fn lemma_view_types_push(ts: Seq<Type>, t: Type)
    ensures
        #[trigger] view_types(ts.push(t)) == view_types(ts).push(view_type(t)),
{
    assert(ts.push(t).drop_last() =~= ts);
}

pub broadcast proof fn lemma_view_field_inits_push(fs: Seq<(String, Expression)>, f: (String, Expression))
    ensures
        #[trigger] view_field_inits(fs.push(f)) == view_field_inits(fs).push(
            (f.0@, view_expr(f.1)),
        ),
{
    assert(fs.push(f).drop_last() =~= fs);
}

pub broadcast proof fn lemma_view_import_items_push(items: Seq<ImportItem>, it: ImportItem)
    ensures
        #[trigger] view_import_items(items.push(it)) == view_import_items(items).push(
            view_import_item(it),
        ),
{
    assert(items.push(it).drop_last() =~= items);
}

pub broadcast proof fn lemma_view_params_push(ps: Seq<Parameter>, p: Parameter)
    ensures
        #[trigger] view_params(ps.push(p)) == view_params(ps).push(
            ParameterV { name: p.name@, param_type: view_type(p.param_type) },
        ),
{
    assert(ps.push(p).drop_last() =~= ps);
}

pub broadcast proof fn lemma_view_struct_fields_push(fs: Seq<StructField>, f: StructField)
    ensures
        #[trigger] view_struct_fields(fs.push(f)) == view_struct_fields(fs).push(
            StructFieldV { name: f.name@, field_type: view_type(f.field_type) },
        ),
{
    assert(fs.push(f).drop_last() =~= fs);
}

pub broadcast proof fn lemma_view_enum_variants_push(vs: Seq<EnumVariant>, v: EnumVariant)
    ensures
        #[trigger] view_enum_variants(vs.push(v)) == view_enum_variants(vs).push(
            view_enum_variant(v),
        ),
{
    assert(vs.push(v).drop_last() =~= vs);
}

// ----------------------------------------------------------------------
// A node vector's view has its length, element by element.
// ----------------------------------------------------------------------

pub proof fn lemma_view_stmts_len(ss: Seq<Statement>)
    ensures
        view_stmts(ss).len() == ss.len(),
    decreases ss.len(),
{
    if ss.len() > 0 {
        lemma_view_stmts_len(ss.drop_last());
    }
}

pub proof fn lemma_view_stmts_index(ss: Seq<Statement>, i: int)
    requires
        0 <= i < ss.len(),
    ensures
        view_stmts(ss)[i] == view_stmt(ss[i]),
    decreases ss.len(),
{
    lemma_view_stmts_len(ss.drop_last());
    if i < ss.len() - 1 {
        lemma_view_stmts_index(ss.drop_last(), i);
        assert(ss.drop_last()[i] == ss[i]);
    }
}

pub proof fn lemma_view_exprs_len(ss: Seq<Expression>)
    ensures
        view_exprs(ss).len() == ss.len(),
    decreases ss.len(),
{
    if ss.len() > 0 {
        lemma_view_exprs_len(ss.drop_last());
    }
}

pub proof fn lemma_view_exprs_index(ss: Seq<Expression>, i: int)
    requires
        0 <= i < ss.len(),
    ensures
        view_exprs(ss)[i] == view_expr(ss[i]),
    decreases ss.len(),
{
    lemma_view_exprs_len(ss.drop_last());
    if i < ss.len() - 1 {
        lemma_view_exprs_index(ss.drop_last(), i);
        assert(ss.drop_last()[i] == ss[i]);
    }
}

pub proof fn lemma_view_types_len(ss: Seq<Type>)
    ensures
        view_types(ss).len() == ss.len(),
    decreases ss.len(),
{
    if ss.len() > 0 {
        lemma_view_types_len(ss.drop_last());
    }
}

pub proof fn lemma_view_types_index(ss: Seq<Type>, i: int)
    requires
        0 <= i < ss.len(),
    ensures
        view_types(ss)[i] == view_type(ss[i]),
    decreases ss.len(),
{
    lemma_view_types_len(ss.drop_last());
    if i < ss.len() - 1 {
        lemma_view_types_index(ss.drop_last(), i);
        assert(ss.drop_last()[i] == ss[i]);
    }
}

pub proof fn lemma_view_params_len(ss: Seq<Parameter>)
    ensures
        view_params(ss).len() == ss.len(),
    decreases ss.len(),
{
    if ss.len() > 0 {
        lemma_view_params_len(ss.drop_last());
    }
}

pub proof fn lemma_view_params_index(ss: Seq<Parameter>, i: int)
    requires
        0 <= i < ss.len(),
    ensures
        view_params(ss)[i] == (ParameterV { name: ss[i].name@, param_type: view_type(ss[i].param_type) }),
    decreases ss.len(),
{
    lemma_view_params_len(ss.drop_last());
    if i < ss.len() - 1 {
        lemma_view_params_index(ss.drop_last(), i);
        assert(ss.drop_last()[i] == ss[i]);
    }
}

pub proof fn lemma_view_struct_fields_len(ss: Seq<StructField>)
    ensures
        view_struct_fields(ss).len() == ss.len(),
    decreases ss.len(),
{
    if ss.len() > 0 {
        lemma_view_struct_fields_len(ss.drop_last());
    }
}

pub proof fn lemma_view_struct_fields_index(ss: Seq<StructField>, i: int)
    requires
        0 <= i < ss.len(),
    ensures
        view_struct_fields(ss)[i] == (StructFieldV { name: ss[i].name@, field_type: view_type(ss[i].field_type) }),
    decreases ss.len(),
{
    lemma_view_struct_fields_len(ss.drop_last());
    if i < ss.len() - 1 {
        lemma_view_struct_fields_index(ss.drop_last(), i);
        assert(ss.drop_last()[i] == ss[i]);
    }
}

pub proof fn lemma_view_enum_variants_len(ss: Seq<EnumVariant>)
    ensures
        view_enum_variants(ss).len() == ss.len(),
    decreases ss.len(),
{
    if ss.len() > 0 {
        lemma_view_enum_variants_len(ss.drop_last());
    }
}

pub proof fn lemma_view_enum_variants_index(ss: Seq<EnumVariant>, i: int)
    requires
        0 <= i < ss.len(),
    ensures
        view_enum_variants(ss)[i] == view_enum_variant(ss[i]),
    decreases ss.len(),
{
    lemma_view_enum_variants_len(ss.drop_last());
    if i < ss.len() - 1 {
        lemma_view_enum_variants_index(ss.drop_last(), i);
        assert(ss.drop_last()[i] == ss[i]);
    }
}

pub proof fn lemma_view_import_items_len(ss: Seq<ImportItem>)
    ensures
        view_import_items(ss).len() == ss.len(),
    decreases ss.len(),
{
    if ss.len() > 0 {
        lemma_view_import_items_len(ss.drop_last());
    }
}

pub proof fn lemma_view_import_items_index(ss: Seq<ImportItem>, i: int)
    requires
        0 <= i < ss.len(),
    ensures
        view_import_items(ss)[i] == view_import_item(ss[i]),
    decreases ss.len(),
{
    lemma_view_import_items_len(ss.drop_last());
    if i < ss.len() - 1 {
        lemma_view_import_items_index(ss.drop_last(), i);
        assert(ss.drop_last()[i] == ss[i]);
    }
}

pub proof fn lemma_view_field_inits_len(ss: Seq<(String, Expression)>)
    ensures
        view_field_inits(ss).len() == ss.len(),
    decreases ss.len(),
{
    if ss.len() > 0 {
        lemma_view_field_inits_len(ss.drop_last());
    }
}

pub proof fn lemma_view_field_inits_index(ss: Seq<(String, Expression)>, i: int)
    requires
        0 <= i < ss.len(),
    ensures
        view_field_inits(ss)[i] == (ss[i].0@, view_expr(ss[i].1)),
    decreases ss.len(),
{
    lemma_view_field_inits_len(ss.drop_last());
    if i < ss.len() - 1 {
        lemma_view_field_inits_index(ss.drop_last(), i);
        assert(ss.drop_last()[i] == ss[i]);
    }
}

impl View for Program {
    type V = ProgramV;

    open spec fn view(&self) -> ProgramV {
        ProgramV { statements: view_stmts(self.statements@) }
    }
}

impl View for Statement {
    type V = StatementV;

    open spec fn view(&self) -> StatementV {
        view_stmt(*self)
    }
}

impl View for Expression {
    type V = ExpressionV;

    open spec fn view(&self) -> ExpressionV {
        view_expr(*self)
    }
}

impl View for Type {
    type V = TypeV;

    open spec fn view(&self) -> TypeV {
        view_type(*self)
    }
}

} // verus!
