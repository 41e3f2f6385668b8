//! Laws of the statement analysis, stated and proved over the resolver's
//! spec functions.  The schema accumulator's own laws — lookup is
//! order-consistent and type-preserving, and the DDL fold accumulates
//! exactly the declared columns — stand beside the code they speak of, in
//! [`crate::schema::lemma_record_resolves_declared_type`],
//! [`crate::schema::lemma_record_membership`] and
//! [`crate::generate::lemma_record_ddl_membership`].

use vstd::prelude::*;
use crate::ast::InsertV;
use crate::ast::DeleteV;
use crate::ast::SelectV;
use crate::ast::UpdateV;
use crate::model::BuildErrorV;
use crate::model::ColumnV;
use crate::model::ResultOverrideV;
use crate::model::ReturnShape;
use crate::resolve::StatementV;
use crate::resolve::spec_limit_is_one;
use crate::resolve::spec_placeholder_count;
use crate::resolve::spec_resolve_delete;
use crate::resolve::spec_resolve_insert;
use crate::resolve::spec_resolve_select;
use crate::resolve::spec_resolve_update;

verus! {

/// For every INSERT with a VALUES source, the number of placeholders in the
/// VALUES clause must equal the number of named columns: a mismatch is the
/// placeholder-count error, raised before any accessor exists, and a
/// resolution that succeeds implies the two counts agree.
pub proof fn lemma_insert_placeholder_check(
    s: Seq<ColumnV>,
    identifier: Seq<char>,
    sql: Seq<char>,
    ins: InsertV,
    ov: Option<ResultOverrideV>,
)
    ensures
        forall|rows: Seq<Seq<crate::ast::ExprV>>|
            ins.source == crate::ast::InsertSourceV::Values(rows) && spec_placeholder_count(rows)
                != ins.columns.len() ==> spec_resolve_insert(s, identifier, sql, ins, ov) == Err::<
                StatementV,
                BuildErrorV,
            >(
                BuildErrorV::PlaceholderCountMismatch {
                    statement: identifier,
                    columns: ins.columns.len() as usize,
                },
            ),
        spec_resolve_insert(s, identifier, sql, ins, ov) is Ok ==> (forall|
            rows: Seq<Seq<crate::ast::ExprV>>,
        |
            ins.source == crate::ast::InsertSourceV::Values(rows)
                ==> spec_placeholder_count(rows) == ins.columns.len()),
        spec_resolve_insert(s, identifier, sql, ins, ov) matches Err(e)
            && e is PlaceholderCountMismatch ==> (exists|rows: Seq<Seq<crate::ast::ExprV>>|
            ins.source == crate::ast::InsertSourceV::Values(rows) && spec_placeholder_count(rows)
                != ins.columns.len()),
{
    if !(match ins.source {
        crate::ast::InsertSourceV::Values(rows) => spec_placeholder_count(rows)
            != ins.columns.len() as int,
        crate::ast::InsertSourceV::Other => false,
    }) {
        let narrowed = crate::schema::spec_narrow(s, seq![ins.table]);
        crate::classify::lemma_names_error_kinds(narrowed, ins.columns);
        match ins.returning {
            Some(items) => {
                crate::classify::lemma_output_error_kinds(narrowed, items, ov is Some);
            },
            None => {},
        }
    }
}

/// An INSERT that resolves to a row query did carry a RETURNING clause, and
/// its shape is `OptionalRow` exactly when `ON CONFLICT ... DO NOTHING` is
/// present, `Row` otherwise.
pub proof fn lemma_insert_returning_shape(
    s: Seq<ColumnV>,
    identifier: Seq<char>,
    sql: Seq<char>,
    ins: InsertV,
    ov: Option<ResultOverrideV>,
)
    ensures
        forall|st: StatementV|
            spec_resolve_insert(s, identifier, sql, ins, ov) == Ok::<StatementV, BuildErrorV>(st)
                && st is Query ==> ins.returning is Some && (st->Query_return_shape
                == ReturnShape::OptionalRow <==> ins.conflict_do_nothing) && (
            st->Query_return_shape == ReturnShape::Row <==> !ins.conflict_do_nothing),
{
}

/// An UPDATE with RETURNING that resolves to a query always has the `Row`
/// shape; there is no conflict clause that could soften it.
pub proof fn lemma_update_returning_shape(
    s: Seq<ColumnV>,
    identifier: Seq<char>,
    sql: Seq<char>,
    up: UpdateV,
    ov: Option<ResultOverrideV>,
)
    ensures
        forall|st: StatementV|
            spec_resolve_update(s, identifier, sql, up, ov) == Ok::<StatementV, BuildErrorV>(st)
                && st is Query ==> up.returning is Some && st->Query_return_shape
                == ReturnShape::Row,
{
}

/// A DELETE with RETURNING that resolves to a query always has the `Row`
/// shape.
pub proof fn lemma_delete_returning_shape(
    s: Seq<ColumnV>,
    identifier: Seq<char>,
    sql: Seq<char>,
    del: DeleteV,
    ov: Option<ResultOverrideV>,
)
    ensures
        forall|st: StatementV|
            spec_resolve_delete(s, identifier, sql, del, ov) == Ok::<StatementV, BuildErrorV>(st)
                && st is Query ==> del.returning is Some && st->Query_return_shape
                == ReturnShape::Row,
{
}

/// A SELECT that resolves to a row query has the `OptionalRow` shape exactly
/// when its LIMIT clause is the literal 1, and the `Rows` shape for any
/// other or missing LIMIT; it never claims exactly one row.
pub proof fn lemma_select_limit_shape(
    s: Seq<ColumnV>,
    identifier: Seq<char>,
    sql: Seq<char>,
    sel: SelectV,
    ov: Option<ResultOverrideV>,
)
    ensures
        forall|st: StatementV|
            spec_resolve_select(s, identifier, sql, sel, ov) == Ok::<StatementV, BuildErrorV>(st)
                && st is Query ==> (st->Query_return_shape == ReturnShape::OptionalRow
                <==> spec_limit_is_one(sel.limit)) && (st->Query_return_shape
                == ReturnShape::Rows <==> !spec_limit_is_one(sel.limit)),
{
}

/// A SELECT whose sole projection column is an aggregate resolves to a
/// scalar query whatever its LIMIT clause says: changing only the LIMIT of
/// such a statement never changes its resolution.
pub proof fn lemma_scalar_shape_ignores_limit(
    s: Seq<ColumnV>,
    identifier: Seq<char>,
    sql: Seq<char>,
    sel1: SelectV,
    sel2: SelectV,
    ov: Option<ResultOverrideV>,
)
    requires
        sel1.from == sel2.from,
        sel1.projection == sel2.projection,
        sel1.selection == sel2.selection,
        spec_resolve_select(s, identifier, sql, sel1, ov) matches Ok(st)
            && st is ScalarAggregateQuery,
    ensures
        spec_resolve_select(s, identifier, sql, sel2, ov) == spec_resolve_select(
            s,
            identifier,
            sql,
            sel1,
            ov,
        ),
{
}

} // verus!
