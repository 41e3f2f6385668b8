//! The generation pass: statement definitions are processed strictly in
//! source order; each definition's DDL first extends the schema, then its
//! last statement is classified, resolved and emitted as one accessor.  The
//! first build-time error aborts the whole pass.

use vstd::prelude::*;
use crate::ast::SqlStatement;
use crate::ast::SqlStatementV;
use crate::ast::StatementDefinition;
use crate::ast::StatementDefinitionV;
use crate::emit::Accessor;
use crate::emit::AccessorV;
use crate::emit::emit_accessor;
use crate::emit::spec_emit_accessor;
use crate::model::BuildError;
use crate::model::BuildErrorV;
use crate::model::ColumnV;
use crate::model::spec_result;
use crate::resolve::resolve_statement;
use crate::resolve::spec_resolve_statement;
use crate::schema::Schema;
use crate::schema::lemma_record_membership;
use crate::schema::spec_decls_declare_name;
use crate::schema::spec_has_column;
use crate::schema::spec_record;

verus! {

broadcast use crate::viewlib::group_deep_view;

/// The schema after folding one statement's DDL into it; a statement that
/// is no DDL leaves it unchanged.
pub open spec fn spec_record_statement_ddl(s: Seq<ColumnV>, st: SqlStatementV) -> Seq<ColumnV> {
    match st {
        SqlStatementV::CreateTable(ct) => spec_record(s, ct.table, ct.columns),
        SqlStatementV::AlterTable(at) => spec_record(s, at.table, at.added),
        _ => s,
    }
}

/// The schema after folding a definition's statements, first to last.
pub open spec fn spec_record_ddl(s: Seq<ColumnV>, stmts: Seq<SqlStatementV>) -> Seq<ColumnV>
    decreases stmts.len(),
{
    if stmts.len() == 0 {
        s
    } else {
        spec_record_ddl(spec_record_statement_ddl(s, stmts[0]), stmts.drop_first())
    }
}

/// Whether one statement declares exactly this schema column: its CREATE
/// TABLE column definitions and its ALTER TABLE added columns do, nothing
/// else does.
pub open spec fn spec_stmt_declares(st: SqlStatementV, c: ColumnV) -> bool {
    match st {
        SqlStatementV::CreateTable(ct) => crate::schema::spec_decls_declare(
            ct.table,
            ct.columns,
            c,
        ),
        SqlStatementV::AlterTable(at) => crate::schema::spec_decls_declare(at.table, at.added, c),
        _ => false,
    }
}

/// Whether one statement declares the given (table, column) name pair.
pub open spec fn spec_stmt_declares_name(st: SqlStatementV, t: Seq<char>, n: Seq<char>) -> bool {
    match st {
        SqlStatementV::CreateTable(ct) => crate::schema::spec_decls_declare_name(
            ct.table,
            ct.columns,
            t,
            n,
        ),
        SqlStatementV::AlterTable(at) => crate::schema::spec_decls_declare_name(
            at.table,
            at.added,
            t,
            n,
        ),
        _ => false,
    }
}

/// Whether any statement of the list declares this schema column.
pub open spec fn spec_ddl_declares(stmts: Seq<SqlStatementV>, c: ColumnV) -> bool {
    exists|i: int| 0 <= i < stmts.len() && spec_stmt_declares(stmts[i], c)
}

/// Whether any statement of the list declares the given name pair.
pub open spec fn spec_ddl_declares_name(
    stmts: Seq<SqlStatementV>,
    t: Seq<char>,
    n: Seq<char>,
) -> bool {
    exists|i: int| 0 <= i < stmts.len() && spec_stmt_declares_name(stmts[i], t, n)
}

/// The DDL fold accumulates exactly the declarations: every column of the
/// folded schema was already there or is one that a CREATE TABLE or ALTER
/// TABLE ADD COLUMN of the list defines — with its table-qualified name and
/// the declared data type, as [`crate::schema::spec_column_of_decl`] builds
/// it; every earlier column is kept; every declared column is bound
/// afterwards; and a (table, column) pair is bound afterwards exactly when
/// it was bound before or some statement of the list declares it, so
/// statements that are no DDL contribute nothing.
pub proof fn lemma_record_ddl_membership(s: Seq<ColumnV>, stmts: Seq<SqlStatementV>)
    ensures
        forall|c: ColumnV| #[trigger]
            spec_record_ddl(s, stmts).contains(c) ==> s.contains(c) || spec_ddl_declares(
                stmts,
                c,
            ),
        forall|c: ColumnV| #[trigger] s.contains(c) ==> spec_record_ddl(s, stmts).contains(c),
        forall|t: Seq<char>, n: Seq<char>| #[trigger]
            spec_has_column(spec_record_ddl(s, stmts), t, n) <==> spec_has_column(s, t, n)
                || spec_ddl_declares_name(stmts, t, n),
        forall|c: ColumnV| #[trigger]
            spec_ddl_declares(stmts, c) ==> spec_has_column(
                spec_record_ddl(s, stmts),
                c.table_name,
                c.name,
            ),
    decreases stmts.len(),
{
    if stmts.len() == 0 {
        assert(forall|c: ColumnV| !spec_ddl_declares(stmts, c));
        assert(forall|t: Seq<char>, n: Seq<char>| !spec_ddl_declares_name(stmts, t, n));
    } else {
        let st0 = stmts[0];
        let s1 = spec_record_statement_ddl(s, st0);
        let rest = stmts.drop_first();
        lemma_record_ddl_membership(s1, rest);
        match st0 {
            SqlStatementV::CreateTable(ct) => {
                lemma_record_membership(s, ct.table, ct.columns);
            },
            SqlStatementV::AlterTable(at) => {
                lemma_record_membership(s, at.table, at.added);
            },
            _ => {},
        }

        // one statement's effect on s, restated over the statement
        assert forall|c: ColumnV| #[trigger] s1.contains(c) implies s.contains(c)
            || spec_stmt_declares(st0, c) by {}
        assert forall|c: ColumnV| #[trigger] s.contains(c) implies s1.contains(c) by {}
        assert forall|t: Seq<char>, n: Seq<char>| #[trigger]
            spec_has_column(s1, t, n) <==> spec_has_column(s, t, n) || spec_stmt_declares_name(
                st0,
                t,
                n,
            ) by {}

        // lift declarations over the first statement
        assert forall|c: ColumnV|
            spec_ddl_declares(rest, c) || spec_stmt_declares(st0, c) implies #[trigger]
            spec_ddl_declares(stmts, c) by {
            if spec_stmt_declares(st0, c) {
                assert(spec_stmt_declares(stmts[0], c));
            } else {
                let i = choose|i: int| 0 <= i < rest.len() && spec_stmt_declares(rest[i], c);
                assert(stmts[i + 1] == rest[i]);
                assert(spec_stmt_declares(stmts[i + 1], c));
            }
        }
        assert forall|c: ColumnV| #[trigger]
            spec_ddl_declares(stmts, c) implies spec_ddl_declares(rest, c)
            || spec_stmt_declares(st0, c) by {
            let i = choose|i: int| 0 <= i < stmts.len() && spec_stmt_declares(stmts[i], c);
            if i > 0 {
                assert(rest[i - 1] == stmts[i]);
                assert(spec_stmt_declares(rest[i - 1], c));
            }
        }
        assert forall|t: Seq<char>, n: Seq<char>|
            spec_ddl_declares_name(rest, t, n) || spec_stmt_declares_name(
                st0,
                t,
                n,
            ) implies #[trigger] spec_ddl_declares_name(stmts, t, n) by {
            if spec_stmt_declares_name(st0, t, n) {
                assert(spec_stmt_declares_name(stmts[0], t, n));
            } else {
                let i = choose|i: int|
                    0 <= i < rest.len() && spec_stmt_declares_name(rest[i], t, n);
                assert(stmts[i + 1] == rest[i]);
                assert(spec_stmt_declares_name(stmts[i + 1], t, n));
            }
        }
        assert forall|t: Seq<char>, n: Seq<char>| #[trigger]
            spec_ddl_declares_name(stmts, t, n) implies spec_ddl_declares_name(rest, t, n)
            || spec_stmt_declares_name(st0, t, n) by {
            let i = choose|i: int|
                0 <= i < stmts.len() && spec_stmt_declares_name(stmts[i], t, n);
            if i > 0 {
                assert(rest[i - 1] == stmts[i]);
                assert(spec_stmt_declares_name(rest[i - 1], t, n));
            }
        }

        // combine with the induction hypothesis
        assert(spec_record_ddl(s, stmts) == spec_record_ddl(s1, rest));
        assert forall|c: ColumnV| #[trigger] s.contains(c) implies spec_record_ddl(
            s,
            stmts,
        ).contains(c) by {
            assert(s1.contains(c));
        }
        assert forall|t: Seq<char>, n: Seq<char>| #[trigger]
            spec_has_column(spec_record_ddl(s, stmts), t, n) <==> spec_has_column(s, t, n)
                || spec_ddl_declares_name(stmts, t, n) by {
            assert(spec_has_column(spec_record_ddl(s1, rest), t, n) <==> spec_has_column(s1, t, n)
                || spec_ddl_declares_name(rest, t, n));
        }
        assert forall|c: ColumnV| #[trigger] spec_ddl_declares(stmts, c) implies spec_has_column(
            spec_record_ddl(s, stmts),
            c.table_name,
            c.name,
        ) by {
            if spec_stmt_declares(st0, c) {
                assert(spec_has_column(s1, c.table_name, c.name)) by {
                    match st0 {
                        SqlStatementV::CreateTable(ct) => {
                            let j = choose|j: int|
                                0 <= j < ct.columns.len() && c == crate::schema::spec_column_of_decl(
                                    ct.table,
                                    ct.columns[j],
                                );
                            assert(spec_decls_declare_name(
                                ct.table,
                                ct.columns,
                                c.table_name,
                                c.name,
                            )) by {
                                assert(ct.columns[j].name == c.name);
                            }
                        },
                        SqlStatementV::AlterTable(at) => {
                            let j = choose|j: int|
                                0 <= j < at.added.len() && c == crate::schema::spec_column_of_decl(
                                    at.table,
                                    at.added[j],
                                );
                            assert(spec_decls_declare_name(
                                at.table,
                                at.added,
                                c.table_name,
                                c.name,
                            )) by {
                                assert(at.added[j].name == c.name);
                            }
                        },
                        _ => {},
                    }
                }
            }
        }
    }
}

/// The outcome of one definition: the extended schema, and the accessor its
/// last statement resolves to, or the first error found.  A definition
/// without a statement is an error.
pub open spec fn spec_process_definition(s: Seq<ColumnV>, def: StatementDefinitionV) -> (
    Seq<ColumnV>,
    Result<AccessorV, BuildErrorV>,
) {
    if def.statements.len() == 0 {
        (s, Err(BuildErrorV::EmptyDefinition { statement: def.identifier }))
    } else {
        let s2 = spec_record_ddl(s, def.statements);
        let last = def.statements[def.statements.len() - 1];
        (
            s2,
            match spec_resolve_statement(s2, def.identifier, def.sql, last, def.result_override) {
                Ok(st) => Ok(spec_emit_accessor(st)),
                Err(e) => Err(e),
            },
        )
    }
}

/// The accessors of the remaining definitions, processed in order from the
/// given schema; the first error aborts.
pub open spec fn spec_generate_from(s: Seq<ColumnV>, defs: Seq<StatementDefinitionV>) -> Result<
    Seq<AccessorV>,
    BuildErrorV,
>
    decreases defs.len(),
{
    if defs.len() == 0 {
        Ok(Seq::<AccessorV>::empty())
    } else {
        let (s2, first) = spec_process_definition(s, defs[0]);
        match first {
            Err(e) => Err(e),
            Ok(acc) => match spec_generate_from(s2, defs.drop_first()) {
                Ok(rest) => Ok(seq![acc] + rest),
                Err(e) => Err(e),
            },
        }
    }
}

/// The accessors of an ordered definition list, starting from an empty
/// schema.
pub open spec fn spec_generate(defs: Seq<StatementDefinitionV>) -> Result<
    Seq<AccessorV>,
    BuildErrorV,
> {
    spec_generate_from(Seq::<ColumnV>::empty(), defs)
}

/// Folds a definition's DDL statements into the schema, first to last.
fn record_ddl(schema: &mut Schema, stmts: &Vec<SqlStatement>)
    ensures
        final(schema)@ == spec_record_ddl(old(schema)@, stmts.deep_view()),
{
    let ghost orig = schema@;
    let ghost all = stmts.deep_view();
    let mut i: usize = 0;
    proof {
        assert(all.skip(0) =~= all);
    }
    while i < stmts.len()
        invariant
            i <= stmts@.len(),
            all == stmts.deep_view(),
            spec_record_ddl(schema@, all.skip(i as int)) == spec_record_ddl(orig, all),
        decreases stmts@.len() - i,
    {
        proof {
            assert(all.skip(i as int)[0] == all[i as int]);
            assert(all.skip(i as int).drop_first() =~= all.skip(i as int + 1));
        }
        match &stmts[i] {
            SqlStatement::CreateTable(ct) => {
                schema.record(ct.table.as_str(), &ct.columns);
            },
            SqlStatement::AlterTable(at) => {
                schema.record(at.table.as_str(), &at.added);
            },
            _ => {},
        }
        i = i + 1;
    }
    proof {
        assert(spec_record_ddl(schema@, all.skip(i as int)) == schema@);
    }
}

/// Processes one definition: extends the schema with its DDL, then resolves
/// and emits its last statement.
pub fn process_definition(schema: &mut Schema, def: &StatementDefinition) -> (r: Result<
    Accessor,
    BuildError,
>)
    ensures
        (final(schema)@, spec_result(r)) == spec_process_definition(
            old(schema)@,
            def.deep_view(),
        ),
{
    if def.statements.len() == 0 {
        return Err(BuildError::EmptyDefinition { statement: def.identifier.clone() });
    }
    record_ddl(schema, &def.statements);
    let last = &def.statements[def.statements.len() - 1];
    match resolve_statement(
        schema,
        def.identifier.as_str(),
        def.sql.as_str(),
        last,
        &def.result_override,
    ) {
        Ok(st) => Ok(emit_accessor(&st)),
        Err(e) => Err(e),
    }
}

/// Runs the whole generation pass over an ordered definition list.  The
/// result holds one accessor per definition, in order, exactly when every
/// definition passes all build-time checks; otherwise it is the first error
/// found.
pub fn generate(defs: &Vec<StatementDefinition>) -> (r: Result<Vec<Accessor>, BuildError>)
    ensures
        spec_result(r) == spec_generate(defs.deep_view()),
{
    let mut schema = Schema::new();
    let mut out: Vec<Accessor> = Vec::new();
    let mut i: usize = 0;
    let ghost all = defs.deep_view();
    proof {
        assert(all.skip(0) =~= all);
        assert(schema@ =~= Seq::<ColumnV>::empty());
    }
    while i < defs.len()
        invariant
            i <= defs@.len(),
            all == defs.deep_view(),
            spec_generate(all) == (match spec_generate_from(schema@, all.skip(i as int)) {
                Ok(rest) => Ok::<Seq<AccessorV>, BuildErrorV>(out.deep_view() + rest),
                Err(e) => Err::<Seq<AccessorV>, BuildErrorV>(e),
            }),
        decreases defs@.len() - i,
    {
        let ghost pre_out = out.deep_view();
        let ghost pre_schema = schema@;
        proof {
            assert(all.skip(i as int)[0] == all[i as int]);
            assert(all.skip(i as int).drop_first() =~= all.skip(i as int + 1));
        }
        match process_definition(&mut schema, &defs[i]) {
            Ok(acc) => {
                let ghost accv = acc.deep_view();
                out.push(acc);
                proof {
                    let (s2, first) = spec_process_definition(pre_schema, all[i as int]);
                    assert(schema@ == s2);
                    assert(first == Ok::<AccessorV, BuildErrorV>(accv));
                    match spec_generate_from(schema@, all.skip(i as int + 1)) {
                        Ok(rest) => {
                            assert(pre_out + (seq![accv] + rest) =~= out.deep_view() + rest);
                        },
                        Err(_) => {},
                    }
                }
            },
            Err(e) => {
                proof {
                    assert(spec_generate(all) == Err::<Seq<AccessorV>, BuildErrorV>(
                        e.deep_view(),
                    ));
                }
                return Err(e);
            },
        }
        i = i + 1;
    }
    proof {
        assert(all.skip(i as int).len() == 0);
        assert(out.deep_view() + Seq::<AccessorV>::empty() =~= out.deep_view());
    }
    Ok(out)
}

} // verus!
