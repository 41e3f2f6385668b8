//! The column classifier: walks a statement's expressions and projection
//! items and produces the classified input and output columns, resolving
//! every name against the narrowed column set it is given.

use vstd::prelude::*;
use crate::ast::CountArg;
use crate::ast::Expr;
use crate::ast::ExprV;
use crate::ast::CountArgV;
use crate::ast::SelectItem;
use crate::ast::SelectItemV;
use crate::ast::SubqueryCondition;
use crate::ast::SubqueryConditionV;
use crate::model::BuildError;
use crate::model::BuildErrorV;
use crate::model::Column;
use crate::model::ColumnType;
use crate::model::ColumnV;
use crate::model::DataType;
use crate::schema::data_type_eq;
use crate::strings::str_eq;

verus! {

broadcast use crate::viewlib::group_deep_view;

/// The first column of the set with this unqualified name.
pub open spec fn spec_find_by_name(cols: Seq<ColumnV>, name: Seq<char>) -> Option<ColumnV>
    decreases cols.len(),
{
    if cols.len() == 0 {
        None
    } else if cols[0].name == name {
        Some(cols[0])
    } else {
        spec_find_by_name(cols.drop_first(), name)
    }
}

/// The first column of the set with this table-qualified name.
pub open spec fn spec_find_by_full_name(cols: Seq<ColumnV>, full: Seq<char>) -> Option<ColumnV>
    decreases cols.len(),
{
    if cols.len() == 0 {
        None
    } else if cols[0].full_name == full {
        Some(cols[0])
    } else {
        spec_find_by_full_name(cols.drop_first(), full)
    }
}

/// The columns of the set owned by this table, in order.
pub open spec fn spec_cols_of_table(cols: Seq<ColumnV>, table: Seq<char>) -> Seq<ColumnV>
    decreases cols.len(),
{
    if cols.len() == 0 {
        cols
    } else if cols[0].table_name == table {
        seq![cols[0]] + spec_cols_of_table(cols.drop_first(), table)
    } else {
        spec_cols_of_table(cols.drop_first(), table)
    }
}

/// The qualified names of the columns, concatenated.
pub open spec fn spec_concat_full_names(cols: Seq<ColumnV>) -> Seq<char>
    decreases cols.len(),
{
    if cols.len() == 0 {
        Seq::<char>::empty()
    } else {
        cols[0].full_name + spec_concat_full_names(cols.drop_first())
    }
}

/// The synthesized column standing for an aggregate call's result: it is
/// integer-typed, owned by no table, and named after the call.
pub open spec fn spec_agg_column(name: Seq<char>) -> ColumnV {
    ColumnV {
        name: name,
        full_name: name,
        table_name: Seq::<char>::empty(),
        column_type: ColumnType::Aggregate,
        data_type: DataType::Integer,
    }
}

/// Whether a side of a binary comparison is a plain or qualified column
/// name.
pub open spec fn spec_is_name(e: ExprV) -> bool {
    e is Column || e is QualifiedColumn
}

/// Whether classification descends into a side of a binary comparison.
pub open spec fn spec_descends(e: ExprV) -> bool {
    e is Binary || e is InSubquery
}

pub open spec fn spec_placeholder_token(e: ExprV) -> Seq<char> {
    match e {
        ExprV::Placeholder(tok) => tok,
        _ => Seq::<char>::empty(),
    }
}

/// The classified columns of one expression: the columns bound by `?`
/// placeholders in comparisons, plus (at projection level) plain column
/// references and synthesized aggregate columns, in source order.  A name
/// that the column set does not hold is an error; so is a construct outside
/// the supported subset.
pub open spec fn spec_columns_from_expr(cols: Seq<ColumnV>, e: ExprV) -> Result<
    Seq<ColumnV>,
    BuildErrorV,
>
    decreases e,
{
    match e {
        ExprV::Column(name) => match spec_find_by_name(cols, name) {
            Some(c) => Ok(seq![c]),
            None => Err(BuildErrorV::UnknownColumn { column: name }),
        },
        ExprV::QualifiedColumn(full) => match spec_find_by_full_name(cols, full) {
            Some(c) => Ok(seq![c]),
            None => Err(BuildErrorV::UnknownColumn { column: full }),
        },
        ExprV::Placeholder(_) => Ok(Seq::<ColumnV>::empty()),
        ExprV::Literal => Ok(Seq::<ColumnV>::empty()),
        ExprV::Star => Err(BuildErrorV::UnqualifiedWildcard),
        ExprV::QualifiedStar(table) => Ok(spec_cols_of_table(cols, table)),
        ExprV::Binary(l, r) => {
            if spec_is_name(*l) && *r is Placeholder {
                let tok = spec_placeholder_token(*r);
                if tok == seq!['?'] {
                    spec_columns_from_expr(cols, *l)
                } else {
                    Err(BuildErrorV::UnsupportedPlaceholder { token: tok })
                }
            } else {
                let left = if spec_descends(*l) {
                    spec_columns_from_expr(cols, *l)
                } else {
                    Ok(Seq::<ColumnV>::empty())
                };
                let right = if spec_descends(*r) {
                    spec_columns_from_expr(cols, *r)
                } else {
                    Ok(Seq::<ColumnV>::empty())
                };
                match (left, right) {
                    (Ok(a), Ok(b)) => Ok(a + b),
                    (Err(err), _) => Err(err),
                    (_, Err(err)) => Err(err),
                }
            }
        },
        ExprV::Count(arg) => match arg {
            CountArgV::Expression(inner) => match spec_columns_from_expr(cols, *inner) {
                Ok(cs) => Ok(seq![spec_agg_column(spec_concat_full_names(cs))]),
                Err(err) => Err(err),
            },
            CountArgV::Star => Ok(
                seq![spec_agg_column(seq!['c', 'o', 'u', 'n', 't', '(', '*', ')'])],
            ),
            CountArgV::TableStar(table) => Ok(
                seq![
                    spec_agg_column(
                        seq!['c', 'o', 'u', 'n', 't', '('] + table + seq!['.', '*', ')'],
                    )
                ],
            ),
        },
        ExprV::TimeCall => Ok(Seq::<ColumnV>::empty()),
        ExprV::InSubquery(cond) => match cond {
            SubqueryConditionV::Condition(inner) => spec_columns_from_expr(cols, *inner),
            SubqueryConditionV::Unsupported => Err(BuildErrorV::UnsupportedExpression),
        },
        ExprV::Unsupported => Err(BuildErrorV::UnsupportedExpression),
    }
}

/// The classified columns of one projection or RETURNING item.  A wildcard
/// expands to the whole narrowed set, the unqualified one only under a
/// result override; duplicates within one item are dropped.
pub open spec fn spec_columns_from_select_item(
    cols: Seq<ColumnV>,
    item: SelectItemV,
    has_override: bool,
) -> Result<Seq<ColumnV>, BuildErrorV> {
    match item {
        SelectItemV::Expression(e) => match spec_columns_from_expr(cols, e) {
            Ok(cs) => Ok(spec_dedup_cols(cs)),
            Err(err) => Err(err),
        },
        SelectItemV::TableStar(table) => Ok(spec_cols_of_table(cols, table)),
        SelectItemV::Star => if has_override {
            Ok(cols)
        } else {
            Err(BuildErrorV::UnqualifiedWildcard)
        },
        SelectItemV::Unsupported => Err(BuildErrorV::UnsupportedExpression),
    }
}

/// The classified output columns of a projection or RETURNING list: the
/// items' columns concatenated, first error first.
pub open spec fn spec_output_columns(
    cols: Seq<ColumnV>,
    items: Seq<SelectItemV>,
    has_override: bool,
) -> Result<Seq<ColumnV>, BuildErrorV>
    decreases items.len(),
{
    if items.len() == 0 {
        Ok(Seq::<ColumnV>::empty())
    } else {
        match spec_columns_from_select_item(cols, items[0], has_override) {
            Ok(first) => match spec_output_columns(cols, items.drop_first(), has_override) {
                Ok(rest) => Ok(first + rest),
                Err(err) => Err(err),
            },
            Err(err) => Err(err),
        }
    }
}

/// The columns of the set carrying the given unqualified names, in the
/// names' order; an unknown name is an error.
pub open spec fn spec_columns_from_names(cols: Seq<ColumnV>, names: Seq<Seq<char>>) -> Result<
    Seq<ColumnV>,
    BuildErrorV,
>
    decreases names.len(),
{
    if names.len() == 0 {
        Ok(Seq::<ColumnV>::empty())
    } else {
        match spec_find_by_name(cols, names[0]) {
            Some(c) => match spec_columns_from_names(cols, names.drop_first()) {
                Ok(rest) => Ok(seq![c] + rest),
                Err(err) => Err(err),
            },
            None => Err(BuildErrorV::UnknownColumn { column: names[0] }),
        }
    }
}

/// The column sequence with later repetitions removed, first occurrences
/// keeping their places.
pub open spec fn spec_dedup_cols(s: Seq<ColumnV>) -> Seq<ColumnV>
    decreases s.len(),
{
    if s.len() == 0 {
        s
    } else {
        let rest = spec_dedup_cols(s.drop_last());
        if s.drop_last().contains(s.last()) {
            rest
        } else {
            rest.push(s.last())
        }
    }
}

pub proof fn lemma_dedup_cols_contains(s: Seq<ColumnV>, x: ColumnV)
    ensures
        spec_dedup_cols(s).contains(x) == s.contains(x),
    decreases s.len(),
{
    if s.len() > 0 {
        let d = s.drop_last();
        lemma_dedup_cols_contains(d, x);
        assert(s.contains(x) == (d.contains(x) || s.last() == x)) by {
            if d.contains(x) {
                let i = choose|i: int| 0 <= i < d.len() && d[i] == x;
                assert(s[i] == x);
            }
            if s.last() == x {
                assert(s[s.len() - 1] == x);
            }
            if s.contains(x) {
                let i = choose|i: int| 0 <= i < s.len() && s[i] == x;
                if i < s.len() - 1 {
                    assert(d[i] == x);
                }
            }
        }
        lemma_dedup_cols_contains(d, s.last());
        if !d.contains(s.last()) {
            let p = spec_dedup_cols(d).push(s.last());
            assert(p.contains(x) == (spec_dedup_cols(d).contains(x) || s.last() == x)) by {
                if spec_dedup_cols(d).contains(x) {
                    let i = choose|i: int|
                        0 <= i < spec_dedup_cols(d).len() && spec_dedup_cols(d)[i] == x;
                    assert(p[i] == x);
                }
                assert(p[p.len() - 1] == s.last());
                if p.contains(x) {
                    let i = choose|i: int| 0 <= i < p.len() && p[i] == x;
                    if i < p.len() - 1 {
                        assert(spec_dedup_cols(d)[i] == x);
                    }
                }
            }
        }
    }
}

/// The error kinds classification itself can raise: unknown columns,
/// misplaced wildcards, foreign placeholders, and constructs outside the
/// subset.  The resolver's own checks raise other kinds.
pub open spec fn spec_is_classification_error(e: BuildErrorV) -> bool {
    e is UnknownColumn || e is UnqualifiedWildcard || e is UnsupportedPlaceholder
        || e is UnsupportedExpression
}

/// Expression classification raises classification errors only.
pub proof fn lemma_expr_error_kinds(cols: Seq<ColumnV>, e: ExprV)
    ensures
        spec_columns_from_expr(cols, e) matches Err(err) ==> spec_is_classification_error(err),
    decreases e,
{
    match e {
        ExprV::Binary(l, r) => {
            lemma_expr_error_kinds(cols, *l);
            lemma_expr_error_kinds(cols, *r);
        },
        ExprV::Count(arg) => match arg {
            CountArgV::Expression(inner) => {
                lemma_expr_error_kinds(cols, *inner);
            },
            _ => {},
        },
        ExprV::InSubquery(cond) => match cond {
            SubqueryConditionV::Condition(inner) => {
                lemma_expr_error_kinds(cols, *inner);
            },
            _ => {},
        },
        _ => {},
    }
}

/// Projection item classification raises classification errors only.
pub proof fn lemma_select_item_error_kinds(cols: Seq<ColumnV>, item: SelectItemV, ov: bool)
    ensures
        spec_columns_from_select_item(cols, item, ov) matches Err(err)
            ==> spec_is_classification_error(err),
{
    match item {
        SelectItemV::Expression(e) => {
            lemma_expr_error_kinds(cols, e);
        },
        _ => {},
    }
}

/// Projection list classification raises classification errors only.
pub proof fn lemma_output_error_kinds(cols: Seq<ColumnV>, items: Seq<SelectItemV>, ov: bool)
    ensures
        spec_output_columns(cols, items, ov) matches Err(err)
            ==> spec_is_classification_error(err),
    decreases items.len(),
{
    if items.len() > 0 {
        lemma_select_item_error_kinds(cols, items[0], ov);
        lemma_output_error_kinds(cols, items.drop_first(), ov);
    }
}

/// Name-list classification raises unknown-column errors only.
pub proof fn lemma_names_error_kinds(cols: Seq<ColumnV>, names: Seq<Seq<char>>)
    ensures
        spec_columns_from_names(cols, names) matches Err(err) ==> err is UnknownColumn,
    decreases names.len(),
{
    if names.len() > 0 {
        lemma_names_error_kinds(cols, names.drop_first());
    }
}

/// Exact structural equality of two classified columns.
pub fn column_eq(a: &Column, b: &Column) -> (r: bool)
    ensures
        r == (a@ == b@),
{
    let r = str_eq(a.name.as_str(), b.name.as_str()) && str_eq(
        a.full_name.as_str(),
        b.full_name.as_str(),
    ) && str_eq(a.table_name.as_str(), b.table_name.as_str()) && a.column_type == b.column_type
        && data_type_eq(&a.data_type, &b.data_type);
    proof {
        if r {
            assert(a@ =~= b@);
        }
    }
    r
}

/// Whether the vector holds a column with the given spec value.
pub fn contains_column(v: &Vec<Column>, x: &Column) -> (r: bool)
    ensures
        r == v.deep_view().contains(x@),
{
    let mut i: usize = 0;
    while i < v.len()
        invariant
            i <= v@.len(),
            forall|j: int| 0 <= j < i ==> v.deep_view()[j] != x@,
        decreases v@.len() - i,
    {
        if column_eq(&v[i], x) {
            proof {
                assert(v.deep_view()[i as int] == x@);
            }
            return true;
        }
        i = i + 1;
    }
    proof {
        if v.deep_view().contains(x@) {
            let j = choose|j: int| 0 <= j < v.deep_view().len() && v.deep_view()[j] == x@;
            assert(v.deep_view()[j] == x@);
        }
    }
    false
}

/// Removes later repetitions of a column, keeping first occurrences.
pub fn dedup_columns(v: &Vec<Column>) -> (r: Vec<Column>)
    ensures
        r.deep_view() == spec_dedup_cols(v.deep_view()),
{
    let mut r: Vec<Column> = Vec::new();
    let mut i: usize = 0;
    proof {
        assert(v.deep_view().take(0) =~= Seq::<ColumnV>::empty());
        assert(r.deep_view() =~= spec_dedup_cols(v.deep_view().take(0)));
    }
    while i < v.len()
        invariant
            i <= v@.len(),
            r.deep_view() == spec_dedup_cols(v.deep_view().take(i as int)),
        decreases v@.len() - i,
    {
        proof {
            lemma_dedup_cols_contains(v.deep_view().take(i as int), v.deep_view()[i as int]);
            assert(v.deep_view().take(i as int + 1).drop_last() =~= v.deep_view().take(i as int));
            assert(v.deep_view().take(i as int + 1).last() == v.deep_view()[i as int]);
        }
        let keep = !contains_column(&r, &v[i]);
        if keep {
            let c = v[i].clone();
            r.push(c);
        }
        i = i + 1;
    }
    proof {
        assert(v.deep_view().take(v@.len() as int) =~= v.deep_view());
    }
    r
}

/// Finds the first column with this unqualified name.
pub fn find_by_name(cols: &Vec<Column>, name: &str) -> (r: Option<Column>)
    ensures
        r.deep_view() == spec_find_by_name(cols.deep_view(), name@),
{
    let mut i: usize = 0;
    proof {
        assert(cols.deep_view().skip(0) =~= cols.deep_view());
    }
    while i < cols.len()
        invariant
            i <= cols@.len(),
            spec_find_by_name(cols.deep_view(), name@) == spec_find_by_name(
                cols.deep_view().skip(i as int),
                name@,
            ),
        decreases cols@.len() - i,
    {
        proof {
            assert(cols.deep_view().skip(i as int)[0] == cols.deep_view()[i as int]);
            assert(cols.deep_view().skip(i as int).drop_first() =~= cols.deep_view().skip(
                i as int + 1,
            ));
        }
        if str_eq(cols[i].name.as_str(), name) {
            return Some(cols[i].clone());
        }
        i = i + 1;
    }
    proof {
        assert(cols.deep_view().skip(i as int).len() == 0);
    }
    None
}

/// Finds the first column with this table-qualified name.
pub fn find_by_full_name(cols: &Vec<Column>, full: &str) -> (r: Option<Column>)
    ensures
        r.deep_view() == spec_find_by_full_name(cols.deep_view(), full@),
{
    let mut i: usize = 0;
    proof {
        assert(cols.deep_view().skip(0) =~= cols.deep_view());
    }
    while i < cols.len()
        invariant
            i <= cols@.len(),
            spec_find_by_full_name(cols.deep_view(), full@) == spec_find_by_full_name(
                cols.deep_view().skip(i as int),
                full@,
            ),
        decreases cols@.len() - i,
    {
        proof {
            assert(cols.deep_view().skip(i as int)[0] == cols.deep_view()[i as int]);
            assert(cols.deep_view().skip(i as int).drop_first() =~= cols.deep_view().skip(
                i as int + 1,
            ));
        }
        if str_eq(cols[i].full_name.as_str(), full) {
            return Some(cols[i].clone());
        }
        i = i + 1;
    }
    proof {
        assert(cols.deep_view().skip(i as int).len() == 0);
    }
    None
}

/// Collects the columns owned by one table, in order.
pub fn cols_of_table(cols: &Vec<Column>, table: &str) -> (r: Vec<Column>)
    ensures
        r.deep_view() == spec_cols_of_table(cols.deep_view(), table@),
{
    let mut r: Vec<Column> = Vec::new();
    let mut i: usize = 0;
    proof {
        assert(cols.deep_view().skip(0) =~= cols.deep_view());
        assert(Seq::<ColumnV>::empty() + spec_cols_of_table(cols.deep_view(), table@)
            =~= spec_cols_of_table(cols.deep_view(), table@));
    }
    while i < cols.len()
        invariant
            i <= cols@.len(),
            r.deep_view() + spec_cols_of_table(cols.deep_view().skip(i as int), table@)
                == spec_cols_of_table(cols.deep_view(), table@),
        decreases cols@.len() - i,
    {
        let ghost pre = r.deep_view();
        proof {
            assert(cols.deep_view().skip(i as int)[0] == cols.deep_view()[i as int]);
            assert(cols.deep_view().skip(i as int).drop_first() =~= cols.deep_view().skip(
                i as int + 1,
            ));
        }
        if str_eq(cols[i].table_name.as_str(), table) {
            r.push(cols[i].clone());
            proof {
                assert(pre.push(cols.deep_view()[i as int]) + spec_cols_of_table(
                    cols.deep_view().skip(i as int + 1),
                    table@,
                ) =~= pre + spec_cols_of_table(cols.deep_view().skip(i as int), table@));
            }
        }
        i = i + 1;
    }
    proof {
        assert(cols.deep_view().skip(i as int).len() == 0);
        assert(r.deep_view() + spec_cols_of_table(cols.deep_view().skip(i as int), table@)
            =~= r.deep_view());
    }
    r
}

fn concat_full_names(cols: &Vec<Column>) -> (r: String)
    ensures
        r@ == spec_concat_full_names(cols.deep_view()),
{
    let mut r = String::new();
    let mut i: usize = 0;
    proof {
        assert(cols.deep_view().skip(0) =~= cols.deep_view());
    }
    while i < cols.len()
        invariant
            i <= cols@.len(),
            r@ + spec_concat_full_names(cols.deep_view().skip(i as int))
                == spec_concat_full_names(cols.deep_view()),
        decreases cols@.len() - i,
    {
        proof {
            assert(cols.deep_view().skip(i as int)[0] == cols.deep_view()[i as int]);
            assert(cols.deep_view().skip(i as int).drop_first() =~= cols.deep_view().skip(
                i as int + 1,
            ));
        }
        let ghost pre = r@;
        r.append(cols[i].full_name.as_str());
        proof {
            assert(r@ + spec_concat_full_names(cols.deep_view().skip(i as int + 1)) =~= pre
                + spec_concat_full_names(cols.deep_view().skip(i as int)));
        }
        i = i + 1;
    }
    proof {
        assert(spec_concat_full_names(cols.deep_view().skip(i as int)) =~= Seq::<char>::empty());
        assert(r@ + Seq::<char>::empty() =~= r@);
    }
    r
}

fn agg_column(name: String) -> (c: Column)
    ensures
        c@ == spec_agg_column(name@),
{
    let full_name = name.clone();
    let c = Column {
        name,
        full_name,
        table_name: String::new(),
        column_type: ColumnType::Aggregate,
        data_type: DataType::Integer,
    };
    proof {
        assert(c@ =~= spec_agg_column(c.name@));
    }
    c
}

fn is_name_expr(e: &Expr) -> (r: bool)
    ensures
        r == spec_is_name(e.deep_view()),
{
    matches!(e, Expr::Column(_) | Expr::QualifiedColumn(_))
}

fn descends(e: &Expr) -> (r: bool)
    ensures
        r == spec_descends(e.deep_view()),
{
    matches!(e, Expr::Binary(_, _) | Expr::InSubquery(_))
}

/// Classifies one expression against the narrowed column set.
pub fn columns_from_expr(cols: &Vec<Column>, e: &Expr) -> (r: Result<Vec<Column>, BuildError>)
    ensures
        crate::model::spec_result(r) == spec_columns_from_expr(cols.deep_view(), e.deep_view()),
    decreases *e,
{
    match e {
        Expr::Column(name) => match find_by_name(cols, name.as_str()) {
            Some(c) => {
                let mut v: Vec<Column> = Vec::new();
                v.push(c);
                proof {
                    let found = spec_find_by_name(cols.deep_view(), name@);
                    assert(v.deep_view() =~= seq![found.unwrap()]);
                }
                Ok(v)
            },
            None => Err(BuildError::UnknownColumn { column: name.clone() }),
        },
        Expr::QualifiedColumn(full) => match find_by_full_name(cols, full.as_str()) {
            Some(c) => {
                let mut v: Vec<Column> = Vec::new();
                v.push(c);
                proof {
                    let found = spec_find_by_full_name(cols.deep_view(), full@);
                    assert(v.deep_view() =~= seq![found.unwrap()]);
                }
                Ok(v)
            },
            None => Err(BuildError::UnknownColumn { column: full.clone() }),
        },
        Expr::Placeholder(_) => {
            let v: Vec<Column> = Vec::new();
            proof {
                assert(v.deep_view() =~= Seq::<ColumnV>::empty());
            }
            Ok(v)
        },
        Expr::Literal => {
            let v: Vec<Column> = Vec::new();
            proof {
                assert(v.deep_view() =~= Seq::<ColumnV>::empty());
            }
            Ok(v)
        },
        Expr::Star => Err(BuildError::UnqualifiedWildcard),
        Expr::QualifiedStar(table) => Ok(cols_of_table(cols, table.as_str())),
        Expr::Binary(l, r) => {
            let l_is_name = is_name_expr(l);
            let r_is_placeholder = matches!(&**r, Expr::Placeholder(_));
            if l_is_name && r_is_placeholder {
                let token = match &**r {
                    Expr::Placeholder(tok) => tok.clone(),
                    _ => String::new(),
                };
                proof {
                    assert(token@ == spec_placeholder_token(r.deep_view()));
                    reveal_strlit("?");
                    assert("?"@ =~= seq!['?']);
                }
                if str_eq(token.as_str(), "?") {
                    columns_from_expr(cols, l)
                } else {
                    Err(BuildError::UnsupportedPlaceholder { token })
                }
            } else {
                let left: Result<Vec<Column>, BuildError> = if descends(l) {
                    columns_from_expr(cols, l)
                } else {
                    Ok(Vec::new())
                };
                match left {
                    Ok(mut a) => {
                        let right: Result<Vec<Column>, BuildError> = if descends(r) {
                            columns_from_expr(cols, r)
                        } else {
                            Ok(Vec::new())
                        };
                        match right {
                            Ok(mut b) => {
                                let ghost av = a.deep_view();
                                let ghost bv = b.deep_view();
                                a.append(&mut b);
                                proof {
                                    if !spec_descends(l.deep_view()) {
                                        assert(av =~= Seq::<ColumnV>::empty());
                                    }
                                    if !spec_descends(r.deep_view()) {
                                        assert(bv =~= Seq::<ColumnV>::empty());
                                    }
                                    assert(a.deep_view() =~= av + bv);
                                }
                                Ok(a)
                            },
                            Err(err) => Err(err),
                        }
                    },
                    Err(err) => {
                        proof {
                            if !spec_descends(l.deep_view()) {
                                assert(false);
                            }
                        }
                        Err(err)
                    },
                }
            }
        },
        Expr::Count(arg) => match arg {
            CountArg::Expression(inner) => match columns_from_expr(cols, inner) {
                Ok(cs) => {
                    let name = concat_full_names(&cs);
                    let c = agg_column(name);
                    let mut v: Vec<Column> = Vec::new();
                    v.push(c);
                    proof {
                        assert(v.deep_view() =~= seq![
                            spec_agg_column(spec_concat_full_names(cs.deep_view())),
                        ]);
                    }
                    Ok(v)
                },
                Err(err) => Err(err),
            },
            CountArg::Star => {
                let name = "count(*)".to_owned();
                proof {
                    reveal_strlit("count(*)");
                    assert(name@ =~= seq!['c', 'o', 'u', 'n', 't', '(', '*', ')']);
                }
                let c = agg_column(name);
                let mut v: Vec<Column> = Vec::new();
                v.push(c);
                proof {
                    assert(v.deep_view() =~= seq![
                        spec_agg_column(seq!['c', 'o', 'u', 'n', 't', '(', '*', ')']),
                    ]);
                }
                Ok(v)
            },
            CountArg::TableStar(table) => {
                let mut name = "count(".to_owned();
                name.append(table.as_str());
                name.append(".*)");
                proof {
                    reveal_strlit("count(");
                    reveal_strlit(".*)");
                    assert("count("@ =~= seq!['c', 'o', 'u', 'n', 't', '(']);
                    assert(".*)"@ =~= seq!['.', '*', ')']);
                    assert(name@ =~= seq!['c', 'o', 'u', 'n', 't', '('] + table@ + seq![
                        '.',
                        '*',
                        ')',
                    ]);
                }
                let c = agg_column(name);
                let mut v: Vec<Column> = Vec::new();
                v.push(c);
                proof {
                    assert(v.deep_view() =~= seq![
                        spec_agg_column(
                            seq!['c', 'o', 'u', 'n', 't', '('] + table@ + seq!['.', '*', ')'],
                        ),
                    ]);
                }
                Ok(v)
            },
        },
        Expr::TimeCall => {
            let v: Vec<Column> = Vec::new();
            proof {
                assert(v.deep_view() =~= Seq::<ColumnV>::empty());
            }
            Ok(v)
        },
        Expr::InSubquery(cond) => match cond {
            SubqueryCondition::Condition(inner) => columns_from_expr(cols, inner),
            SubqueryCondition::Unsupported => Err(BuildError::UnsupportedExpression),
        },
        Expr::Unsupported => Err(BuildError::UnsupportedExpression),
    }
}

/// Classifies one projection or RETURNING item.
pub fn columns_from_select_item(cols: &Vec<Column>, item: &SelectItem, has_override: bool) -> (r:
    Result<Vec<Column>, BuildError>)
    ensures
        crate::model::spec_result(r) == spec_columns_from_select_item(
            cols.deep_view(),
            item.deep_view(),
            has_override,
        ),
{
    match item {
        SelectItem::Expression(e) => match columns_from_expr(cols, e) {
            Ok(cs) => Ok(dedup_columns(&cs)),
            Err(err) => Err(err),
        },
        SelectItem::TableStar(table) => Ok(cols_of_table(cols, table.as_str())),
        SelectItem::Star => {
            if has_override {
                Ok(crate::model::clone_columns(cols))
            } else {
                Err(BuildError::UnqualifiedWildcard)
            }
        },
        SelectItem::Unsupported => Err(BuildError::UnsupportedExpression),
    }
}

fn output_columns_from(
    cols: &Vec<Column>,
    items: &Vec<SelectItem>,
    has_override: bool,
    i: usize,
) -> (r: Result<Vec<Column>, BuildError>)
    requires
        i <= items@.len(),
    ensures
        crate::model::spec_result(r) == spec_output_columns(
            cols.deep_view(),
            items.deep_view().skip(i as int),
            has_override,
        ),
    decreases items@.len() - i,
{
    if i == items.len() {
        let v: Vec<Column> = Vec::new();
        proof {
            assert(items.deep_view().skip(i as int).len() == 0);
            assert(v.deep_view() =~= Seq::<ColumnV>::empty());
        }
        Ok(v)
    } else {
        proof {
            assert(items.deep_view().skip(i as int)[0] == items.deep_view()[i as int]);
            assert(items.deep_view().skip(i as int).drop_first() =~= items.deep_view().skip(
                i as int + 1,
            ));
        }
        match columns_from_select_item(cols, &items[i], has_override) {
            Ok(mut first) => match output_columns_from(cols, items, has_override, i + 1) {
                Ok(mut rest) => {
                    let ghost fv = first.deep_view();
                    let ghost rv = rest.deep_view();
                    first.append(&mut rest);
                    proof {
                        assert(first.deep_view() =~= fv + rv);
                    }
                    Ok(first)
                },
                Err(err) => Err(err),
            },
            Err(err) => Err(err),
        }
    }
}

/// Classifies a whole projection or RETURNING list.
pub fn output_columns(cols: &Vec<Column>, items: &Vec<SelectItem>, has_override: bool) -> (r:
    Result<Vec<Column>, BuildError>)
    ensures
        crate::model::spec_result(r) == spec_output_columns(
            cols.deep_view(),
            items.deep_view(),
            has_override,
        ),
{
    let r = output_columns_from(cols, items, has_override, 0);
    proof {
        assert(items.deep_view().skip(0) =~= items.deep_view());
    }
    r
}

fn columns_from_names_from(cols: &Vec<Column>, names: &Vec<String>, i: usize) -> (r: Result<
    Vec<Column>,
    BuildError,
>)
    requires
        i <= names@.len(),
    ensures
        crate::model::spec_result(r) == spec_columns_from_names(
            cols.deep_view(),
            names.deep_view().skip(i as int),
        ),
    decreases names@.len() - i,
{
    if i == names.len() {
        let v: Vec<Column> = Vec::new();
        proof {
            assert(names.deep_view().skip(i as int).len() == 0);
            assert(v.deep_view() =~= Seq::<ColumnV>::empty());
        }
        Ok(v)
    } else {
        proof {
            assert(names.deep_view().skip(i as int)[0] == names.deep_view()[i as int]);
            assert(names.deep_view().skip(i as int).drop_first() =~= names.deep_view().skip(
                i as int + 1,
            ));
        }
        match find_by_name(cols, names[i].as_str()) {
            Some(c) => match columns_from_names_from(cols, names, i + 1) {
                Ok(rest) => {
                    let mut v: Vec<Column> = Vec::new();
                    v.push(c);
                    let ghost cv = v.deep_view();
                    let mut rest = rest;
                    let ghost rv = rest.deep_view();
                    v.append(&mut rest);
                    proof {
                        let found = spec_find_by_name(
                            cols.deep_view(),
                            names.deep_view()[i as int],
                        );
                        assert(cv =~= seq![found.unwrap()]);
                        assert(v.deep_view() =~= cv + rv);
                    }
                    Ok(v)
                },
                Err(err) => Err(err),
            },
            None => Err(BuildError::UnknownColumn { column: names[i].clone() }),
        }
    }
}

/// The columns named in an INSERT column list or an UPDATE SET list, in
/// their order; an unknown name is an error.
pub fn columns_from_names(cols: &Vec<Column>, names: &Vec<String>) -> (r: Result<
    Vec<Column>,
    BuildError,
>)
    ensures
        crate::model::spec_result(r) == spec_columns_from_names(
            cols.deep_view(),
            names.deep_view(),
        ),
{
    let r = columns_from_names_from(cols, names, 0);
    proof {
        assert(names.deep_view().skip(0) =~= names.deep_view());
    }
    r
}

} // verus!
