//! The supported SQL statement subset, modelled as closed tagged-variant
//! types owned by this crate.  A construct outside the subset is carried as
//! an explicit `Unsupported` variant, so that analysis can reject it as a
//! value rather than fail.

use vstd::prelude::*;
use crate::model::ResultOverride;
use crate::model::ResultOverrideV;

verus! {

/// The declared type of a column in CREATE TABLE / ALTER TABLE.
#[derive(Debug, Clone, Copy, PartialEq, Eq, Structural)]
pub enum DeclaredType {
    Integer,
    Real,
    Text,
    Blob,
    Other,
}

/// One column definition of a CREATE TABLE or ALTER TABLE ADD COLUMN.
#[derive(Debug, PartialEq, Eq)]
pub struct ColumnDecl {
    pub name: String,
    pub declared_type: DeclaredType,
    pub not_null: bool,
    pub primary_key: bool,
}

/// The spec-level value of a [`ColumnDecl`].
#[verifier::ext_equal]
pub struct ColumnDeclV {
    pub name: Seq<char>,
    pub declared_type: DeclaredType,
    pub not_null: bool,
    pub primary_key: bool,
}

impl DeepView for ColumnDecl {
    type V = ColumnDeclV;

    open spec fn deep_view(&self) -> ColumnDeclV {
        ColumnDeclV {
            name: self.name@,
            declared_type: self.declared_type,
            not_null: self.not_null,
            primary_key: self.primary_key,
        }
    }
}

/// A LIMIT clause value: a number literal, or anything else.
#[derive(Debug, PartialEq, Eq)]
pub enum Limit {
    Number(String),
    Other,
}

/// The spec-level value of a [`Limit`].
pub enum LimitV {
    Number(Seq<char>),
    Other,
}

impl DeepView for Limit {
    type V = LimitV;

    open spec fn deep_view(&self) -> LimitV {
        match self {
            Limit::Number(n) => LimitV::Number(n@),
            Limit::Other => LimitV::Other,
        }
    }
}

/// The argument of a recognized aggregate function call.
#[derive(Debug, PartialEq, Eq)]
pub enum CountArg {
    Expression(Box<Expr>),
    Star,
    TableStar(String),
}

/// The WHERE clause of an IN-subquery, the only part of it that column
/// classification reads.
#[derive(Debug, PartialEq, Eq)]
pub enum SubqueryCondition {
    Condition(Box<Expr>),
    Unsupported,
}

/// An expression of the supported subset, as far as column classification
/// reads it.
#[derive(Debug, PartialEq, Eq)]
pub enum Expr {
    /// A bare column name.
    Column(String),
    /// A table-qualified column name, written with its dot: `table.column`.
    QualifiedColumn(String),
    /// A bound-parameter marker with its token, such as `?`.
    Placeholder(String),
    /// Any literal value.
    Literal,
    /// An unqualified `*`.
    Star,
    /// A table-qualified `table.*`.
    QualifiedStar(String),
    /// A binary operation over two sub-expressions.
    Binary(Box<Expr>, Box<Expr>),
    /// A `count(...)` aggregate call.
    Count(CountArg),
    /// A recognized time function call, which binds no column.
    TimeCall,
    /// An `IN (subquery)` test.
    InSubquery(SubqueryCondition),
    /// Anything outside the supported subset.
    Unsupported,
}

/// The spec-level value of a [`CountArg`].
pub enum CountArgV {
    Expression(Box<ExprV>),
    Star,
    TableStar(Seq<char>),
}

/// The spec-level value of a [`SubqueryCondition`].
pub enum SubqueryConditionV {
    Condition(Box<ExprV>),
    Unsupported,
}

/// The spec-level value of an [`Expr`].
pub enum ExprV {
    Column(Seq<char>),
    QualifiedColumn(Seq<char>),
    Placeholder(Seq<char>),
    Literal,
    Star,
    QualifiedStar(Seq<char>),
    Binary(Box<ExprV>, Box<ExprV>),
    Count(CountArgV),
    TimeCall,
    InSubquery(SubqueryConditionV),
    Unsupported,
}

/// The spec-level value of an expression.
pub open spec fn spec_expr_dv(e: Expr) -> ExprV
    decreases e,
{
    match e {
        Expr::Column(name) => ExprV::Column(name@),
        Expr::QualifiedColumn(name) => ExprV::QualifiedColumn(name@),
        Expr::Placeholder(token) => ExprV::Placeholder(token@),
        Expr::Literal => ExprV::Literal,
        Expr::Star => ExprV::Star,
        Expr::QualifiedStar(table) => ExprV::QualifiedStar(table@),
        Expr::Binary(l, r) => ExprV::Binary(
            Box::new(spec_expr_dv(*l)),
            Box::new(spec_expr_dv(*r)),
        ),
        Expr::Count(arg) => ExprV::Count(
            match arg {
                CountArg::Expression(inner) => CountArgV::Expression(
                    Box::new(spec_expr_dv(*inner)),
                ),
                CountArg::Star => CountArgV::Star,
                CountArg::TableStar(table) => CountArgV::TableStar(table@),
            },
        ),
        Expr::TimeCall => ExprV::TimeCall,
        Expr::InSubquery(cond) => ExprV::InSubquery(
            match cond {
                SubqueryCondition::Condition(inner) => SubqueryConditionV::Condition(
                    Box::new(spec_expr_dv(*inner)),
                ),
                SubqueryCondition::Unsupported => SubqueryConditionV::Unsupported,
            },
        ),
        Expr::Unsupported => ExprV::Unsupported,
    }
}

impl DeepView for Expr {
    type V = ExprV;

    open spec fn deep_view(&self) -> ExprV {
        spec_expr_dv(*self)
    }
}

impl DeepView for CountArg {
    type V = CountArgV;

    open spec fn deep_view(&self) -> CountArgV {
        match self {
            CountArg::Expression(inner) => CountArgV::Expression(
                Box::new(spec_expr_dv(**inner)),
            ),
            CountArg::Star => CountArgV::Star,
            CountArg::TableStar(table) => CountArgV::TableStar(table@),
        }
    }
}

impl DeepView for SubqueryCondition {
    type V = SubqueryConditionV;

    open spec fn deep_view(&self) -> SubqueryConditionV {
        match self {
            SubqueryCondition::Condition(inner) => SubqueryConditionV::Condition(
                Box::new(spec_expr_dv(**inner)),
            ),
            SubqueryCondition::Unsupported => SubqueryConditionV::Unsupported,
        }
    }
}

/// One item of a SELECT projection or a RETURNING list.
#[derive(Debug, PartialEq, Eq)]
pub enum SelectItem {
    Expression(Expr),
    Star,
    TableStar(String),
    Unsupported,
}

/// The spec-level value of a [`SelectItem`].
pub enum SelectItemV {
    Expression(ExprV),
    Star,
    TableStar(Seq<char>),
    Unsupported,
}

impl DeepView for SelectItem {
    type V = SelectItemV;

    open spec fn deep_view(&self) -> SelectItemV {
        match self {
            SelectItem::Expression(e) => SelectItemV::Expression(spec_expr_dv(*e)),
            SelectItem::Star => SelectItemV::Star,
            SelectItem::TableStar(table) => SelectItemV::TableStar(table@),
            SelectItem::Unsupported => SelectItemV::Unsupported,
        }
    }
}

/// A SELECT statement: the tables it addresses (FROM and JOIN, in source
/// order), its projection, its WHERE clause, and its LIMIT clause.
#[derive(Debug, PartialEq, Eq)]
pub struct Select {
    pub from: Vec<String>,
    pub projection: Vec<SelectItem>,
    pub selection: Option<Expr>,
    pub limit: Option<Limit>,
}

/// The spec-level value of a [`Select`].
#[verifier::ext_equal]
pub struct SelectV {
    pub from: Seq<Seq<char>>,
    pub projection: Seq<SelectItemV>,
    pub selection: Option<ExprV>,
    pub limit: Option<LimitV>,
}

impl DeepView for Select {
    type V = SelectV;

    open spec fn deep_view(&self) -> SelectV {
        SelectV {
            from: self.from.deep_view(),
            projection: self.projection.deep_view(),
            selection: self.selection.deep_view(),
            limit: self.limit.deep_view(),
        }
    }
}

/// The source of an INSERT: a VALUES clause with its rows of expressions,
/// or any other source (a subquery, or none).
#[derive(Debug, PartialEq, Eq)]
pub enum InsertSource {
    Values(Vec<Vec<Expr>>),
    Other,
}

/// The spec-level value of an [`InsertSource`].
pub enum InsertSourceV {
    Values(Seq<Seq<ExprV>>),
    Other,
}

impl DeepView for InsertSource {
    type V = InsertSourceV;

    open spec fn deep_view(&self) -> InsertSourceV {
        match self {
            InsertSource::Values(rows) => InsertSourceV::Values(rows.deep_view()),
            InsertSource::Other => InsertSourceV::Other,
        }
    }
}

/// An INSERT statement.
#[derive(Debug, PartialEq, Eq)]
pub struct Insert {
    pub table: String,
    pub columns: Vec<String>,
    pub source: InsertSource,
    pub returning: Option<Vec<SelectItem>>,
    /// Whether an `ON CONFLICT ... DO NOTHING` clause is present.
    pub conflict_do_nothing: bool,
}

/// The spec-level value of an [`Insert`].
#[verifier::ext_equal]
pub struct InsertV {
    pub table: Seq<char>,
    pub columns: Seq<Seq<char>>,
    pub source: InsertSourceV,
    pub returning: Option<Seq<SelectItemV>>,
    pub conflict_do_nothing: bool,
}

impl DeepView for Insert {
    type V = InsertV;

    open spec fn deep_view(&self) -> InsertV {
        InsertV {
            table: self.table@,
            columns: self.columns.deep_view(),
            source: self.source.deep_view(),
            returning: self.returning.deep_view(),
            conflict_do_nothing: self.conflict_do_nothing,
        }
    }
}

/// One `column = value` assignment of an UPDATE's SET list.
#[derive(Debug, PartialEq, Eq)]
pub struct Assignment {
    pub column: String,
    pub value: Expr,
}

/// The spec-level value of an [`Assignment`].
#[verifier::ext_equal]
pub struct AssignmentV {
    pub column: Seq<char>,
    pub value: ExprV,
}

impl DeepView for Assignment {
    type V = AssignmentV;

    open spec fn deep_view(&self) -> AssignmentV {
        AssignmentV { column: self.column@, value: spec_expr_dv(self.value) }
    }
}

/// An UPDATE statement; `tables` lists the addressed tables in source order,
/// the first being the update target.
#[derive(Debug, PartialEq, Eq)]
pub struct Update {
    pub tables: Vec<String>,
    pub assignments: Vec<Assignment>,
    pub selection: Option<Expr>,
    pub returning: Option<Vec<SelectItem>>,
}

/// The spec-level value of an [`Update`].
#[verifier::ext_equal]
pub struct UpdateV {
    pub tables: Seq<Seq<char>>,
    pub assignments: Seq<AssignmentV>,
    pub selection: Option<ExprV>,
    pub returning: Option<Seq<SelectItemV>>,
}

impl DeepView for Update {
    type V = UpdateV;

    open spec fn deep_view(&self) -> UpdateV {
        UpdateV {
            tables: self.tables.deep_view(),
            assignments: self.assignments.deep_view(),
            selection: self.selection.deep_view(),
            returning: self.returning.deep_view(),
        }
    }
}

/// A DELETE statement; `tables` lists the addressed tables, the first being
/// the delete target.
#[derive(Debug, PartialEq, Eq)]
pub struct Delete {
    pub tables: Vec<String>,
    pub selection: Option<Expr>,
    pub returning: Option<Vec<SelectItem>>,
}

/// The spec-level value of a [`Delete`].
#[verifier::ext_equal]
pub struct DeleteV {
    pub tables: Seq<Seq<char>>,
    pub selection: Option<ExprV>,
    pub returning: Option<Seq<SelectItemV>>,
}

impl DeepView for Delete {
    type V = DeleteV;

    open spec fn deep_view(&self) -> DeleteV {
        DeleteV {
            tables: self.tables.deep_view(),
            selection: self.selection.deep_view(),
            returning: self.returning.deep_view(),
        }
    }
}

/// A CREATE TABLE statement.
#[derive(Debug, PartialEq, Eq)]
pub struct CreateTable {
    pub table: String,
    pub columns: Vec<ColumnDecl>,
}

/// The spec-level value of a [`CreateTable`].
#[verifier::ext_equal]
pub struct CreateTableV {
    pub table: Seq<char>,
    pub columns: Seq<ColumnDeclV>,
}

impl DeepView for CreateTable {
    type V = CreateTableV;

    open spec fn deep_view(&self) -> CreateTableV {
        CreateTableV { table: self.table@, columns: self.columns.deep_view() }
    }
}

/// An ALTER TABLE statement; only its ADD COLUMN operations are kept.
#[derive(Debug, PartialEq, Eq)]
pub struct AlterTable {
    pub table: String,
    pub added: Vec<ColumnDecl>,
}

/// The spec-level value of an [`AlterTable`].
#[verifier::ext_equal]
pub struct AlterTableV {
    pub table: Seq<char>,
    pub added: Seq<ColumnDeclV>,
}

impl DeepView for AlterTable {
    type V = AlterTableV;

    open spec fn deep_view(&self) -> AlterTableV {
        AlterTableV { table: self.table@, added: self.added.deep_view() }
    }
}

/// One parsed SQL statement of the supported subset.  `Other` stands for a
/// recognized statement with nothing to classify (it is executed as a
/// batch); `Unsupported` for a construct outside the subset.
#[derive(Debug, PartialEq, Eq)]
pub enum SqlStatement {
    CreateTable(CreateTable),
    AlterTable(AlterTable),
    Insert(Insert),
    Update(Update),
    Delete(Delete),
    Select(Box<Select>),
    Other,
    Unsupported,
}

/// The spec-level value of a [`SqlStatement`].
pub enum SqlStatementV {
    CreateTable(CreateTableV),
    AlterTable(AlterTableV),
    Insert(InsertV),
    Update(UpdateV),
    Delete(DeleteV),
    Select(SelectV),
    Other,
    Unsupported,
}

impl DeepView for SqlStatement {
    type V = SqlStatementV;

    open spec fn deep_view(&self) -> SqlStatementV {
        match self {
            SqlStatement::CreateTable(ct) => SqlStatementV::CreateTable(ct.deep_view()),
            SqlStatement::AlterTable(at) => SqlStatementV::AlterTable(at.deep_view()),
            SqlStatement::Insert(ins) => SqlStatementV::Insert(ins.deep_view()),
            SqlStatement::Update(up) => SqlStatementV::Update(up.deep_view()),
            SqlStatement::Delete(del) => SqlStatementV::Delete(del.deep_view()),
            SqlStatement::Select(sel) => SqlStatementV::Select(sel.deep_view()),
            SqlStatement::Other => SqlStatementV::Other,
            SqlStatement::Unsupported => SqlStatementV::Unsupported,
        }
    }
}

/// One named statement definition: the accessor identifier, the statement's
/// source text, its parsed statements, and an optional result override.
#[derive(Debug, PartialEq, Eq)]
pub struct StatementDefinition {
    pub identifier: String,
    pub sql: String,
    pub statements: Vec<SqlStatement>,
    pub result_override: Option<ResultOverride>,
}

/// The spec-level value of a [`StatementDefinition`].
#[verifier::ext_equal]
pub struct StatementDefinitionV {
    pub identifier: Seq<char>,
    pub sql: Seq<char>,
    pub statements: Seq<SqlStatementV>,
    pub result_override: Option<ResultOverrideV>,
}

impl DeepView for StatementDefinition {
    type V = StatementDefinitionV;

    open spec fn deep_view(&self) -> StatementDefinitionV {
        StatementDefinitionV {
            identifier: self.identifier@,
            sql: self.sql@,
            statements: self.statements.deep_view(),
            result_override: self.result_override.deep_view(),
        }
    }
}

} // verus!
