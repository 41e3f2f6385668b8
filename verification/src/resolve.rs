//! The statement shape resolver: decides, per parsed statement, whether it
//! is a batch execution, a parameterised execution, a scalar aggregate
//! query, a row query with a return shape, or a table definition, and
//! enforces the build-time checks (placeholder counts, table and column
//! existence, RETURNING coverage under an override).

use vstd::prelude::*;
use crate::ast::Assignment;
use crate::ast::AssignmentV;
use crate::ast::CreateTable;
use crate::ast::Delete;
use crate::ast::Expr;
use crate::ast::ExprV;
use crate::ast::Insert;
use crate::ast::InsertSource;
use crate::ast::InsertV;
use crate::ast::InsertSourceV;
use crate::ast::Limit;
use crate::ast::LimitV;
use crate::ast::Select;
use crate::ast::SqlStatement;
use crate::ast::SqlStatementV;
use crate::ast::Update;
use crate::classify::columns_from_expr;
use crate::classify::columns_from_names;
use crate::classify::output_columns;
use crate::classify::spec_columns_from_expr;
use crate::classify::spec_columns_from_names;
use crate::classify::spec_output_columns;
use crate::model::BuildError;
use crate::model::BuildErrorV;
use crate::model::Column;
use crate::model::ColumnType;
use crate::model::ColumnV;
use crate::model::ResultOverride;
use crate::model::ResultOverrideV;
use crate::model::ReturnShape;
use crate::model::spec_result;
use crate::schema::Schema;
use crate::schema::spec_column_of_decl;
use crate::schema::spec_has_table;
use crate::schema::spec_narrow;
use crate::strings::str_eq;

verus! {

broadcast use crate::viewlib::group_deep_view;

/// A resolved statement, the sole artifact handed to the binding emitter.
#[derive(Debug, PartialEq, Eq)]
pub enum Statement {
    /// DDL or another statement without parameters or results, executed as
    /// a batch.
    ExecuteBatch { identifier: String, sql: String },
    /// A statement with bound parameters whose result is the affected row
    /// count.
    Execute { identifier: String, sql: String, input_columns: Vec<Column> },
    /// A SELECT whose sole projection is an aggregate call; it returns one
    /// bare integer.
    ScalarAggregateQuery { identifier: String, sql: String, input_columns: Vec<Column> },
    /// A statement returning rows, with its classified input and output
    /// columns and its return shape.
    Query {
        identifier: String,
        sql: String,
        input_columns: Vec<Column>,
        output_columns: Vec<Column>,
        return_shape: ReturnShape,
        result_override: Option<ResultOverride>,
    },
    /// A CREATE TABLE: executed as a batch, and defining a record made of
    /// the table's columns.
    CreateTable {
        identifier: String,
        sql: String,
        defined_columns: Vec<Column>,
        result_override: Option<ResultOverride>,
    },
}

/// The spec-level value of a [`Statement`].
pub enum StatementV {
    ExecuteBatch { identifier: Seq<char>, sql: Seq<char> },
    Execute { identifier: Seq<char>, sql: Seq<char>, input_columns: Seq<ColumnV> },
    ScalarAggregateQuery { identifier: Seq<char>, sql: Seq<char>, input_columns: Seq<ColumnV> },
    Query {
        identifier: Seq<char>,
        sql: Seq<char>,
        input_columns: Seq<ColumnV>,
        output_columns: Seq<ColumnV>,
        return_shape: ReturnShape,
        result_override: Option<ResultOverrideV>,
    },
    CreateTable {
        identifier: Seq<char>,
        sql: Seq<char>,
        defined_columns: Seq<ColumnV>,
        result_override: Option<ResultOverrideV>,
    },
}

impl DeepView for Statement {
    type V = StatementV;

    open spec fn deep_view(&self) -> StatementV {
        match self {
            Statement::ExecuteBatch { identifier, sql } => (StatementV::ExecuteBatch {
                identifier: identifier@,
                sql: sql@,
            }),
            Statement::Execute { identifier, sql, input_columns } => (StatementV::Execute {
                identifier: identifier@,
                sql: sql@,
                input_columns: input_columns.deep_view(),
            }),
            Statement::ScalarAggregateQuery { identifier, sql, input_columns } => (
            StatementV::ScalarAggregateQuery {
                identifier: identifier@,
                sql: sql@,
                input_columns: input_columns.deep_view(),
            }),
            Statement::Query {
                identifier,
                sql,
                input_columns,
                output_columns,
                return_shape,
                result_override,
            } => (StatementV::Query {
                identifier: identifier@,
                sql: sql@,
                input_columns: input_columns.deep_view(),
                output_columns: output_columns.deep_view(),
                return_shape: *return_shape,
                result_override: result_override.deep_view(),
            }),
            Statement::CreateTable { identifier, sql, defined_columns, result_override } => (
            StatementV::CreateTable {
                identifier: identifier@,
                sql: sql@,
                defined_columns: defined_columns.deep_view(),
                result_override: result_override.deep_view(),
            }),
        }
    }
}

/// How many expressions of one VALUES row are placeholders.
pub open spec fn spec_row_placeholder_count(row: Seq<ExprV>) -> int
    decreases row.len(),
{
    if row.len() == 0 {
        0
    } else {
        (if row[0] is Placeholder {
            1int
        } else {
            0int
        }) + spec_row_placeholder_count(row.drop_first())
    }
}

/// How many expressions of a VALUES clause are placeholders.
pub open spec fn spec_placeholder_count(rows: Seq<Seq<ExprV>>) -> int
    decreases rows.len(),
{
    if rows.len() == 0 {
        0
    } else {
        spec_row_placeholder_count(rows[0]) + spec_placeholder_count(rows.drop_first())
    }
}

pub proof fn lemma_row_placeholder_count_nonneg(row: Seq<ExprV>)
    ensures
        spec_row_placeholder_count(row) >= 0,
    decreases row.len(),
{
    if row.len() > 0 {
        lemma_row_placeholder_count_nonneg(row.drop_first());
    }
}

pub proof fn lemma_placeholder_count_nonneg(rows: Seq<Seq<ExprV>>)
    ensures
        spec_placeholder_count(rows) >= 0,
    decreases rows.len(),
{
    if rows.len() > 0 {
        lemma_row_placeholder_count_nonneg(rows[0]);
        lemma_placeholder_count_nonneg(rows.drop_first());
    }
}

fn row_placeholder_count(row: &Vec<Expr>) -> (c: usize)
    ensures
        c as int == spec_row_placeholder_count(row.deep_view()),
        c <= row@.len(),
{
    let mut c: usize = 0;
    let mut j: usize = 0;
    proof {
        assert(row.deep_view().skip(0) =~= row.deep_view());
    }
    while j < row.len()
        invariant
            j <= row@.len(),
            c <= j,
            c as int + spec_row_placeholder_count(row.deep_view().skip(j as int))
                == spec_row_placeholder_count(row.deep_view()),
        decreases row@.len() - j,
    {
        proof {
            assert(row.deep_view().skip(j as int)[0] == row.deep_view()[j as int]);
            assert(row.deep_view().skip(j as int).drop_first() =~= row.deep_view().skip(
                j as int + 1,
            ));
        }
        if matches!(&row[j], Expr::Placeholder(_)) {
            c = c + 1;
        }
        j = j + 1;
    }
    proof {
        assert(spec_row_placeholder_count(row.deep_view().skip(j as int)) == 0);
    }
    c
}

/// Whether the VALUES clause holds exactly `expected` placeholders.
fn placeholder_count_matches(rows: &Vec<Vec<Expr>>, expected: usize) -> (r: bool)
    ensures
        r == (spec_placeholder_count(rows.deep_view()) == expected as int),
{
    let mut seen: usize = 0;
    let mut over: bool = false;
    let mut i: usize = 0;
    let ghost all = rows.deep_view();
    proof {
        assert(all.skip(0) =~= all);
    }
    while i < rows.len()
        invariant
            i <= rows@.len(),
            all == rows.deep_view(),
            !over ==> seen <= expected && seen as int + spec_placeholder_count(
                all.skip(i as int),
            ) == spec_placeholder_count(all),
            over ==> spec_placeholder_count(all) > expected as int + spec_placeholder_count(
                all.skip(i as int),
            ),
        decreases rows@.len() - i,
    {
        proof {
            assert(all.skip(i as int)[0] == all[i as int]);
            assert(all.skip(i as int).drop_first() =~= all.skip(i as int + 1));
            lemma_placeholder_count_nonneg(all.skip(i as int + 1));
        }
        let rc = row_placeholder_count(&rows[i]);
        if !over {
            if rc <= expected - seen {
                seen = seen + rc;
            } else {
                over = true;
            }
        }
        i = i + 1;
    }
    proof {
        assert(spec_placeholder_count(all.skip(i as int)) == 0);
    }
    !over && seen == expected
}

/// The first table of the list that the schema does not know.
pub open spec fn spec_first_unknown_table(s: Seq<ColumnV>, tables: Seq<Seq<char>>) -> Option<
    Seq<char>,
>
    decreases tables.len(),
{
    if tables.len() == 0 {
        None
    } else if !spec_has_table(s, tables[0]) {
        Some(tables[0])
    } else {
        spec_first_unknown_table(s, tables.drop_first())
    }
}

fn first_unknown_table(schema: &Schema, tables: &Vec<String>) -> (r: Option<String>)
    ensures
        r.deep_view() == spec_first_unknown_table(schema@, tables.deep_view()),
{
    let mut i: usize = 0;
    proof {
        assert(tables.deep_view().skip(0) =~= tables.deep_view());
    }
    while i < tables.len()
        invariant
            i <= tables@.len(),
            spec_first_unknown_table(schema@, tables.deep_view()) == spec_first_unknown_table(
                schema@,
                tables.deep_view().skip(i as int),
            ),
        decreases tables@.len() - i,
    {
        proof {
            assert(tables.deep_view().skip(i as int)[0] == tables.deep_view()[i as int]);
            assert(tables.deep_view().skip(i as int).drop_first() =~= tables.deep_view().skip(
                i as int + 1,
            ));
        }
        if !schema.has_table(tables[i].as_str()) {
            return Some(tables[i].clone());
        }
        i = i + 1;
    }
    proof {
        assert(tables.deep_view().skip(i as int).len() == 0);
    }
    None
}

/// Whether the output columns hold one with the given name.
pub open spec fn spec_covers_name(out: Seq<ColumnV>, name: Seq<char>) -> bool {
    exists|i: int| 0 <= i < out.len() && out[i].name == name
}

/// The name of the first narrowed-set column missing from the output
/// columns, when a result override demands full coverage.
pub open spec fn spec_first_uncovered(table_cols: Seq<ColumnV>, out: Seq<ColumnV>) -> Option<
    Seq<char>,
>
    decreases table_cols.len(),
{
    if table_cols.len() == 0 {
        None
    } else if !spec_covers_name(out, table_cols[0].name) {
        Some(table_cols[0].name)
    } else {
        spec_first_uncovered(table_cols.drop_first(), out)
    }
}

fn covers_name(out: &Vec<Column>, name: &str) -> (r: bool)
    ensures
        r == spec_covers_name(out.deep_view(), name@),
{
    let mut i: usize = 0;
    while i < out.len()
        invariant
            i <= out@.len(),
            forall|j: int| 0 <= j < i ==> out.deep_view()[j].name != name@,
        decreases out@.len() - i,
    {
        if str_eq(out[i].name.as_str(), name) {
            proof {
                assert(out.deep_view()[i as int].name == name@);
            }
            return true;
        }
        i = i + 1;
    }
    proof {
        if spec_covers_name(out.deep_view(), name@) {
            let j = choose|j: int|
                0 <= j < out.deep_view().len() && out.deep_view()[j].name == name@;
            assert(out.deep_view()[j].name == name@);
        }
    }
    false
}

fn first_uncovered(table_cols: &Vec<Column>, out: &Vec<Column>) -> (r: Option<String>)
    ensures
        r.deep_view() == spec_first_uncovered(table_cols.deep_view(), out.deep_view()),
{
    let mut i: usize = 0;
    proof {
        assert(table_cols.deep_view().skip(0) =~= table_cols.deep_view());
    }
    while i < table_cols.len()
        invariant
            i <= table_cols@.len(),
            spec_first_uncovered(table_cols.deep_view(), out.deep_view())
                == spec_first_uncovered(
                table_cols.deep_view().skip(i as int),
                out.deep_view(),
            ),
        decreases table_cols@.len() - i,
    {
        proof {
            assert(table_cols.deep_view().skip(i as int)[0] == table_cols.deep_view()[i as int]);
            assert(table_cols.deep_view().skip(i as int).drop_first()
                =~= table_cols.deep_view().skip(i as int + 1));
        }
        if !covers_name(out, table_cols[i].name.as_str()) {
            return Some(table_cols[i].name.clone());
        }
        i = i + 1;
    }
    proof {
        assert(table_cols.deep_view().skip(i as int).len() == 0);
    }
    None
}

/// The SET-list columns bound to a placeholder, in order: the assignment
/// targets whose assigned value is a placeholder.
pub open spec fn spec_assignment_targets(assigns: Seq<AssignmentV>) -> Seq<Seq<char>>
    decreases assigns.len(),
{
    if assigns.len() == 0 {
        Seq::<Seq<char>>::empty()
    } else {
        (if assigns[0].value is Placeholder {
            seq![assigns[0].column]
        } else {
            Seq::<Seq<char>>::empty()
        }) + spec_assignment_targets(assigns.drop_first())
    }
}

fn assignment_targets(assigns: &Vec<Assignment>) -> (r: Vec<String>)
    ensures
        r.deep_view() == spec_assignment_targets(assigns.deep_view()),
{
    let mut r: Vec<String> = Vec::new();
    let mut i: usize = 0;
    let ghost all = assigns.deep_view();
    proof {
        assert(all.skip(0) =~= all);
        assert(r.deep_view() + spec_assignment_targets(all) =~= spec_assignment_targets(all));
    }
    while i < assigns.len()
        invariant
            i <= assigns@.len(),
            all == assigns.deep_view(),
            r.deep_view() + spec_assignment_targets(all.skip(i as int))
                == spec_assignment_targets(all),
        decreases assigns@.len() - i,
    {
        let ghost pre = r.deep_view();
        proof {
            assert(all.skip(i as int)[0] == all[i as int]);
            assert(all.skip(i as int).drop_first() =~= all.skip(i as int + 1));
        }
        if matches!(&assigns[i].value, Expr::Placeholder(_)) {
            r.push(assigns[i].column.clone());
            proof {
                assert(pre.push(all[i as int].column) + spec_assignment_targets(
                    all.skip(i as int + 1),
                ) =~= pre + spec_assignment_targets(all.skip(i as int)));
            }
        }
        i = i + 1;
    }
    proof {
        assert(spec_assignment_targets(all.skip(i as int)) =~= Seq::<Seq<char>>::empty());
        assert(r.deep_view() + Seq::<Seq<char>>::empty() =~= r.deep_view());
    }
    r
}

/// The resolution of an INSERT: the placeholder count of a VALUES source
/// must match the column list; the target table and every listed column
/// must be known; with RETURNING the statement is a query whose shape is
/// `OptionalRow` exactly when `ON CONFLICT ... DO NOTHING` is present,
/// `Row` otherwise; without RETURNING it is an execution.
pub open spec fn spec_resolve_insert(
    s: Seq<ColumnV>,
    identifier: Seq<char>,
    sql: Seq<char>,
    ins: InsertV,
    ov: Option<ResultOverrideV>,
) -> Result<StatementV, BuildErrorV> {
    let ph_bad = match ins.source {
        InsertSourceV::Values(rows) => spec_placeholder_count(rows) != ins.columns.len() as int,
        InsertSourceV::Other => false,
    };
    if ph_bad {
        Err(
            BuildErrorV::PlaceholderCountMismatch {
                statement: identifier,
                columns: ins.columns.len() as usize,
            },
        )
    } else if !spec_has_table(s, ins.table) {
        Err(BuildErrorV::UnknownTable { statement: identifier, table: ins.table })
    } else {
        let narrowed = spec_narrow(s, seq![ins.table]);
        match spec_columns_from_names(narrowed, ins.columns) {
            Err(e) => Err(e),
            Ok(in_cols) => match ins.returning {
                None => Ok(
                    StatementV::Execute { identifier, sql, input_columns: in_cols },
                ),
                Some(items) => match spec_output_columns(narrowed, items, ov is Some) {
                    Err(e) => Err(e),
                    Ok(out_cols) => {
                        let shape = if ins.conflict_do_nothing {
                            ReturnShape::OptionalRow
                        } else {
                            ReturnShape::Row
                        };
                        let query = StatementV::Query {
                            identifier,
                            sql,
                            input_columns: in_cols,
                            output_columns: out_cols,
                            return_shape: shape,
                            result_override: ov,
                        };
                        if ov is Some {
                            match spec_first_uncovered(narrowed, out_cols) {
                                Some(missing) => Err(
                                    BuildErrorV::MissingReturningColumn {
                                        statement: identifier,
                                        column: missing,
                                        table: ins.table,
                                    },
                                ),
                                None => Ok(query),
                            }
                        } else {
                            Ok(query)
                        }
                    },
                },
            },
        }
    }
}

/// Resolves an INSERT statement.
pub fn resolve_insert(
    schema: &Schema,
    identifier: &str,
    sql: &str,
    ins: &Insert,
    ov: &Option<ResultOverride>,
) -> (r: Result<Statement, BuildError>)
    ensures
        spec_result(r) == spec_resolve_insert(
            schema@,
            identifier@,
            sql@,
            ins.deep_view(),
            ov.deep_view(),
        ),
{
    let ph_bad = match &ins.source {
        InsertSource::Values(rows) => !placeholder_count_matches(rows, ins.columns.len()),
        InsertSource::Other => false,
    };
    if ph_bad {
        return Err(
            BuildError::PlaceholderCountMismatch {
                statement: identifier.to_owned(),
                columns: ins.columns.len(),
            },
        );
    }
    if !schema.has_table(ins.table.as_str()) {
        return Err(
            BuildError::UnknownTable { statement: identifier.to_owned(), table: ins.table.clone() },
        );
    }
    let tables = vec![ins.table.clone()];
    proof {
        assert(tables.deep_view() =~= seq![ins.table@]);
    }
    let narrowed = schema.columns_of_tables(&tables);
    let has_ov = ov.is_some();
    let in_cols = match columns_from_names(&narrowed, &ins.columns) {
        Ok(cs) => cs,
        Err(e) => {
            return Err(e);
        },
    };
    match &ins.returning {
        None => Ok(
            Statement::Execute {
                identifier: identifier.to_owned(),
                sql: sql.to_owned(),
                input_columns: in_cols,
            },
        ),
        Some(items) => {
            let out_cols = match output_columns(&narrowed, items, has_ov) {
                Ok(cs) => cs,
                Err(e) => {
                    return Err(e);
                },
            };
            if has_ov {
                match first_uncovered(&narrowed, &out_cols) {
                    Some(missing) => {
                        return Err(
                            BuildError::MissingReturningColumn {
                                statement: identifier.to_owned(),
                                column: missing,
                                table: ins.table.clone(),
                            },
                        );
                    },
                    None => {},
                }
            }
            let shape = if ins.conflict_do_nothing {
                ReturnShape::OptionalRow
            } else {
                ReturnShape::Row
            };
            Ok(
                Statement::Query {
                    identifier: identifier.to_owned(),
                    sql: sql.to_owned(),
                    input_columns: in_cols,
                    output_columns: out_cols,
                    return_shape: shape,
                    result_override: clone_override(ov),
                },
            )
        },
    }
}

/// Copies an optional override; the copy has the same spec-level value.
pub fn clone_override(ov: &Option<ResultOverride>) -> (r: Option<ResultOverride>)
    ensures
        r.deep_view() == ov.deep_view(),
{
    match ov {
        Some(o) => Some(o.clone()),
        None => None,
    }
}

/// The resolution of an UPDATE: the first addressed table decides the
/// narrowed set; inputs are the placeholder-bound SET targets, then the
/// WHERE columns; with RETURNING the statement is a `Row` query, without it
/// an execution.
pub open spec fn spec_resolve_update(
    s: Seq<ColumnV>,
    identifier: Seq<char>,
    sql: Seq<char>,
    up: crate::ast::UpdateV,
    ov: Option<ResultOverrideV>,
) -> Result<StatementV, BuildErrorV> {
    if up.tables.len() == 0 {
        Err(BuildErrorV::MissingTableName { statement: identifier })
    } else if !spec_has_table(s, up.tables[0]) {
        Err(BuildErrorV::UnknownTable { statement: identifier, table: up.tables[0] })
    } else {
        let table = up.tables[0];
        let narrowed = spec_narrow(s, seq![table]);
        match spec_columns_from_names(narrowed, spec_assignment_targets(up.assignments)) {
            Err(e) => Err(e),
            Ok(set_cols) => {
                let where_cols = match up.selection {
                    Some(e) => spec_columns_from_expr(narrowed, e),
                    None => Ok(Seq::<ColumnV>::empty()),
                };
                match where_cols {
                    Err(e) => Err(e),
                    Ok(ws) => {
                        let in_cols = set_cols + ws;
                        match up.returning {
                            None => Ok(
                                StatementV::Execute { identifier, sql, input_columns: in_cols },
                            ),
                            Some(items) => match spec_output_columns(
                                narrowed,
                                items,
                                ov is Some,
                            ) {
                                Err(e) => Err(e),
                                Ok(out_cols) => {
                                    let query = StatementV::Query {
                                        identifier,
                                        sql,
                                        input_columns: in_cols,
                                        output_columns: out_cols,
                                        return_shape: ReturnShape::Row,
                                        result_override: ov,
                                    };
                                    if ov is Some {
                                        match spec_first_uncovered(narrowed, out_cols) {
                                            Some(missing) => Err(
                                                BuildErrorV::MissingReturningColumn {
                                                    statement: identifier,
                                                    column: missing,
                                                    table: table,
                                                },
                                            ),
                                            None => Ok(query),
                                        }
                                    } else {
                                        Ok(query)
                                    }
                                },
                            },
                        }
                    },
                }
            },
        }
    }
}

/// Resolves an UPDATE statement.
pub fn resolve_update(
    schema: &Schema,
    identifier: &str,
    sql: &str,
    up: &Update,
    ov: &Option<ResultOverride>,
) -> (r: Result<Statement, BuildError>)
    ensures
        spec_result(r) == spec_resolve_update(
            schema@,
            identifier@,
            sql@,
            up.deep_view(),
            ov.deep_view(),
        ),
{
    if up.tables.len() == 0 {
        return Err(BuildError::MissingTableName { statement: identifier.to_owned() });
    }
    let table = up.tables[0].clone();
    if !schema.has_table(table.as_str()) {
        return Err(
            BuildError::UnknownTable { statement: identifier.to_owned(), table },
        );
    }
    let tables = vec![table.clone()];
    proof {
        assert(tables.deep_view() =~= seq![up.tables.deep_view()[0]]);
    }
    let narrowed = schema.columns_of_tables(&tables);
    let has_ov = ov.is_some();
    let targets = assignment_targets(&up.assignments);
    let set_cols = match columns_from_names(&narrowed, &targets) {
        Ok(cs) => cs,
        Err(e) => {
            return Err(e);
        },
    };
    let where_cols = match &up.selection {
        Some(e) => match columns_from_expr(&narrowed, e) {
            Ok(cs) => cs,
            Err(e) => {
                return Err(e);
            },
        },
        None => Vec::new(),
    };
    let mut in_cols = set_cols;
    let mut where_cols = where_cols;
    let ghost sv = in_cols.deep_view();
    let ghost wv = where_cols.deep_view();
    in_cols.append(&mut where_cols);
    proof {
        if up.selection is None {
            assert(wv =~= Seq::<ColumnV>::empty());
        }
        assert(in_cols.deep_view() =~= sv + wv);
    }
    match &up.returning {
        None => Ok(
            Statement::Execute {
                identifier: identifier.to_owned(),
                sql: sql.to_owned(),
                input_columns: in_cols,
            },
        ),
        Some(items) => {
            let out_cols = match output_columns(&narrowed, items, has_ov) {
                Ok(cs) => cs,
                Err(e) => {
                    return Err(e);
                },
            };
            if has_ov {
                match first_uncovered(&narrowed, &out_cols) {
                    Some(missing) => {
                        return Err(
                            BuildError::MissingReturningColumn {
                                statement: identifier.to_owned(),
                                column: missing,
                                table: up.tables[0].clone(),
                            },
                        );
                    },
                    None => {},
                }
            }
            Ok(
                Statement::Query {
                    identifier: identifier.to_owned(),
                    sql: sql.to_owned(),
                    input_columns: in_cols,
                    output_columns: out_cols,
                    return_shape: ReturnShape::Row,
                    result_override: clone_override(ov),
                },
            )
        },
    }
}

/// The resolution of a DELETE: like an UPDATE without a SET list.
pub open spec fn spec_resolve_delete(
    s: Seq<ColumnV>,
    identifier: Seq<char>,
    sql: Seq<char>,
    del: crate::ast::DeleteV,
    ov: Option<ResultOverrideV>,
) -> Result<StatementV, BuildErrorV> {
    if del.tables.len() == 0 {
        Err(BuildErrorV::MissingTableName { statement: identifier })
    } else if !spec_has_table(s, del.tables[0]) {
        Err(BuildErrorV::UnknownTable { statement: identifier, table: del.tables[0] })
    } else {
        let table = del.tables[0];
        let narrowed = spec_narrow(s, seq![table]);
        let where_cols = match del.selection {
            Some(e) => spec_columns_from_expr(narrowed, e),
            None => Ok(Seq::<ColumnV>::empty()),
        };
        match where_cols {
            Err(e) => Err(e),
            Ok(in_cols) => match del.returning {
                None => Ok(
                    StatementV::Execute { identifier, sql, input_columns: in_cols },
                ),
                Some(items) => match spec_output_columns(narrowed, items, ov is Some) {
                    Err(e) => Err(e),
                    Ok(out_cols) => {
                        let query = StatementV::Query {
                            identifier,
                            sql,
                            input_columns: in_cols,
                            output_columns: out_cols,
                            return_shape: ReturnShape::Row,
                            result_override: ov,
                        };
                        if ov is Some {
                            match spec_first_uncovered(narrowed, out_cols) {
                                Some(missing) => Err(
                                    BuildErrorV::MissingReturningColumn {
                                        statement: identifier,
                                        column: missing,
                                        table: table,
                                    },
                                ),
                                None => Ok(query),
                            }
                        } else {
                            Ok(query)
                        }
                    },
                },
            },
        }
    }
}

/// Resolves a DELETE statement.
pub fn resolve_delete(
    schema: &Schema,
    identifier: &str,
    sql: &str,
    del: &Delete,
    ov: &Option<ResultOverride>,
) -> (r: Result<Statement, BuildError>)
    ensures
        spec_result(r) == spec_resolve_delete(
            schema@,
            identifier@,
            sql@,
            del.deep_view(),
            ov.deep_view(),
        ),
{
    if del.tables.len() == 0 {
        return Err(BuildError::MissingTableName { statement: identifier.to_owned() });
    }
    let table = del.tables[0].clone();
    if !schema.has_table(table.as_str()) {
        return Err(
            BuildError::UnknownTable { statement: identifier.to_owned(), table },
        );
    }
    let tables = vec![table.clone()];
    proof {
        assert(tables.deep_view() =~= seq![del.tables.deep_view()[0]]);
    }
    let narrowed = schema.columns_of_tables(&tables);
    let has_ov = ov.is_some();
    let in_cols = match &del.selection {
        Some(e) => match columns_from_expr(&narrowed, e) {
            Ok(cs) => cs,
            Err(e) => {
                return Err(e);
            },
        },
        None => {
            let v: Vec<Column> = Vec::new();
            proof {
                assert(v.deep_view() =~= Seq::<ColumnV>::empty());
            }
            v
        },
    };
    match &del.returning {
        None => Ok(
            Statement::Execute {
                identifier: identifier.to_owned(),
                sql: sql.to_owned(),
                input_columns: in_cols,
            },
        ),
        Some(items) => {
            let out_cols = match output_columns(&narrowed, items, has_ov) {
                Ok(cs) => cs,
                Err(e) => {
                    return Err(e);
                },
            };
            if has_ov {
                match first_uncovered(&narrowed, &out_cols) {
                    Some(missing) => {
                        return Err(
                            BuildError::MissingReturningColumn {
                                statement: identifier.to_owned(),
                                column: missing,
                                table: del.tables[0].clone(),
                            },
                        );
                    },
                    None => {},
                }
            }
            Ok(
                Statement::Query {
                    identifier: identifier.to_owned(),
                    sql: sql.to_owned(),
                    input_columns: in_cols,
                    output_columns: out_cols,
                    return_shape: ReturnShape::Row,
                    result_override: clone_override(ov),
                },
            )
        },
    }
}

/// Whether a LIMIT clause is the literal 1.
pub open spec fn spec_limit_is_one(limit: Option<LimitV>) -> bool {
    match limit {
        Some(LimitV::Number(n)) => n == seq!['1'],
        _ => false,
    }
}

/// The resolution of a SELECT: every addressed table must be known; inputs
/// are the WHERE columns, outputs the projection columns; a sole aggregate
/// projection makes it a scalar query whatever the LIMIT says; otherwise
/// `limit 1` makes the shape `OptionalRow` and anything else `Rows`.
pub open spec fn spec_resolve_select(
    s: Seq<ColumnV>,
    identifier: Seq<char>,
    sql: Seq<char>,
    sel: crate::ast::SelectV,
    ov: Option<ResultOverrideV>,
) -> Result<StatementV, BuildErrorV> {
    match spec_first_unknown_table(s, sel.from) {
        Some(table) => Err(BuildErrorV::UnknownTable { statement: identifier, table }),
        None => {
            let narrowed = spec_narrow(s, sel.from);
            let where_cols = match sel.selection {
                Some(e) => spec_columns_from_expr(narrowed, e),
                None => Ok(Seq::<ColumnV>::empty()),
            };
            match where_cols {
                Err(e) => Err(e),
                Ok(in_cols) => match spec_output_columns(narrowed, sel.projection, ov is Some) {
                    Err(e) => Err(e),
                    Ok(out_cols) => {
                        if out_cols.len() == 1 && out_cols[0].column_type
                            == ColumnType::Aggregate {
                            Ok(
                                StatementV::ScalarAggregateQuery {
                                    identifier,
                                    sql,
                                    input_columns: in_cols,
                                },
                            )
                        } else {
                            let shape = if spec_limit_is_one(sel.limit) {
                                ReturnShape::OptionalRow
                            } else {
                                ReturnShape::Rows
                            };
                            Ok(
                                StatementV::Query {
                                    identifier,
                                    sql,
                                    input_columns: in_cols,
                                    output_columns: out_cols,
                                    return_shape: shape,
                                    result_override: ov,
                                },
                            )
                        }
                    },
                },
            }
        },
    }
}

/// Resolves a SELECT statement.
pub fn resolve_select(
    schema: &Schema,
    identifier: &str,
    sql: &str,
    sel: &Select,
    ov: &Option<ResultOverride>,
) -> (r: Result<Statement, BuildError>)
    ensures
        spec_result(r) == spec_resolve_select(
            schema@,
            identifier@,
            sql@,
            sel.deep_view(),
            ov.deep_view(),
        ),
{
    match first_unknown_table(schema, &sel.from) {
        Some(table) => {
            return Err(BuildError::UnknownTable { statement: identifier.to_owned(), table });
        },
        None => {},
    }
    let narrowed = schema.columns_of_tables(&sel.from);
    let has_ov = ov.is_some();
    let in_cols = match &sel.selection {
        Some(e) => match columns_from_expr(&narrowed, e) {
            Ok(cs) => cs,
            Err(e) => {
                return Err(e);
            },
        },
        None => {
            let v: Vec<Column> = Vec::new();
            proof {
                assert(v.deep_view() =~= Seq::<ColumnV>::empty());
            }
            v
        },
    };
    let out_cols = match output_columns(&narrowed, &sel.projection, has_ov) {
        Ok(cs) => cs,
        Err(e) => {
            return Err(e);
        },
    };
    if out_cols.len() == 1 && matches!(out_cols[0].column_type, ColumnType::Aggregate) {
        return Ok(
            Statement::ScalarAggregateQuery {
                identifier: identifier.to_owned(),
                sql: sql.to_owned(),
                input_columns: in_cols,
            },
        );
    }
    let limit_one = match &sel.limit {
        Some(Limit::Number(n)) => {
            proof {
                reveal_strlit("1");
                assert("1"@ =~= seq!['1']);
            }
            str_eq(n.as_str(), "1")
        },
        _ => false,
    };
    let shape = if limit_one {
        ReturnShape::OptionalRow
    } else {
        ReturnShape::Rows
    };
    Ok(
        Statement::Query {
            identifier: identifier.to_owned(),
            sql: sql.to_owned(),
            input_columns: in_cols,
            output_columns: out_cols,
            return_shape: shape,
            result_override: clone_override(ov),
        },
    )
}

/// The columns a CREATE TABLE defines, in declaration order.
pub open spec fn spec_defined_columns(
    table: Seq<char>,
    decls: Seq<crate::ast::ColumnDeclV>,
) -> Seq<ColumnV>
    decreases decls.len(),
{
    if decls.len() == 0 {
        Seq::<ColumnV>::empty()
    } else {
        seq![spec_column_of_decl(table, decls[0])] + spec_defined_columns(
            table,
            decls.drop_first(),
        )
    }
}

/// The resolution of a CREATE TABLE: a batch execution that also defines a
/// record made of the table's columns.
pub open spec fn spec_resolve_create_table(
    identifier: Seq<char>,
    sql: Seq<char>,
    ct: crate::ast::CreateTableV,
    ov: Option<ResultOverrideV>,
) -> StatementV {
    StatementV::CreateTable {
        identifier,
        sql,
        defined_columns: spec_defined_columns(ct.table, ct.columns),
        result_override: ov,
    }
}

/// Resolves a CREATE TABLE statement.
pub fn resolve_create_table(
    identifier: &str,
    sql: &str,
    ct: &CreateTable,
    ov: &Option<ResultOverride>,
) -> (r: Statement)
    ensures
        r.deep_view() == spec_resolve_create_table(
            identifier@,
            sql@,
            ct.deep_view(),
            ov.deep_view(),
        ),
{
    let mut cols: Vec<Column> = Vec::new();
    let mut i: usize = 0;
    let ghost all = ct.columns.deep_view();
    proof {
        assert(all.skip(0) =~= all);
        assert(cols.deep_view() + spec_defined_columns(ct.table@, all) =~= spec_defined_columns(
            ct.table@,
            all,
        ));
    }
    while i < ct.columns.len()
        invariant
            i <= ct.columns@.len(),
            all == ct.columns.deep_view(),
            cols.deep_view() + spec_defined_columns(ct.table@, all.skip(i as int))
                == spec_defined_columns(ct.table@, all),
        decreases ct.columns@.len() - i,
    {
        let ghost pre = cols.deep_view();
        proof {
            assert(all.skip(i as int)[0] == all[i as int]);
            assert(all.skip(i as int).drop_first() =~= all.skip(i as int + 1));
        }
        let c = crate::schema::column_of_decl(ct.table.as_str(), &ct.columns[i]);
        cols.push(c);
        proof {
            assert(pre.push(spec_column_of_decl(ct.table@, all[i as int]))
                + spec_defined_columns(ct.table@, all.skip(i as int + 1)) =~= pre
                + spec_defined_columns(ct.table@, all.skip(i as int)));
        }
        i = i + 1;
    }
    proof {
        assert(spec_defined_columns(ct.table@, all.skip(i as int)) =~= Seq::<ColumnV>::empty());
        assert(cols.deep_view() + Seq::<ColumnV>::empty() =~= cols.deep_view());
    }
    Statement::CreateTable {
        identifier: identifier.to_owned(),
        sql: sql.to_owned(),
        defined_columns: cols,
        result_override: clone_override(ov),
    }
}

/// The resolution of one parsed statement against the schema seen so far.
pub open spec fn spec_resolve_statement(
    s: Seq<ColumnV>,
    identifier: Seq<char>,
    sql: Seq<char>,
    stmt: SqlStatementV,
    ov: Option<ResultOverrideV>,
) -> Result<StatementV, BuildErrorV> {
    match stmt {
        SqlStatementV::CreateTable(ct) => Ok(spec_resolve_create_table(identifier, sql, ct, ov)),
        SqlStatementV::AlterTable(_) => Ok(StatementV::ExecuteBatch { identifier, sql }),
        SqlStatementV::Insert(ins) => spec_resolve_insert(s, identifier, sql, ins, ov),
        SqlStatementV::Update(up) => spec_resolve_update(s, identifier, sql, up, ov),
        SqlStatementV::Delete(del) => spec_resolve_delete(s, identifier, sql, del, ov),
        SqlStatementV::Select(sel) => spec_resolve_select(s, identifier, sql, sel, ov),
        SqlStatementV::Other => Ok(StatementV::ExecuteBatch { identifier, sql }),
        SqlStatementV::Unsupported => Err(
            BuildErrorV::UnsupportedStatement { statement: identifier },
        ),
    }
}

/// Resolves one parsed statement.
pub fn resolve_statement(
    schema: &Schema,
    identifier: &str,
    sql: &str,
    stmt: &SqlStatement,
    ov: &Option<ResultOverride>,
) -> (r: Result<Statement, BuildError>)
    ensures
        spec_result(r) == spec_resolve_statement(
            schema@,
            identifier@,
            sql@,
            stmt.deep_view(),
            ov.deep_view(),
        ),
{
    match stmt {
        SqlStatement::CreateTable(ct) => Ok(resolve_create_table(identifier, sql, ct, ov)),
        SqlStatement::AlterTable(_) => Ok(
            Statement::ExecuteBatch { identifier: identifier.to_owned(), sql: sql.to_owned() },
        ),
        SqlStatement::Insert(ins) => resolve_insert(schema, identifier, sql, ins, ov),
        SqlStatement::Update(up) => resolve_update(schema, identifier, sql, up, ov),
        SqlStatement::Delete(del) => resolve_delete(schema, identifier, sql, del, ov),
        SqlStatement::Select(sel) => resolve_select(schema, identifier, sql, sel, ov),
        SqlStatement::Other => Ok(
            Statement::ExecuteBatch { identifier: identifier.to_owned(), sql: sql.to_owned() },
        ),
        SqlStatement::Unsupported => Err(
            BuildError::UnsupportedStatement { statement: identifier.to_owned() },
        ),
    }
}

} // verus!
