//! The schema accumulator: a running table-to-column-to-type map folded from
//! the DDL statements seen so far, in definition order.  It is append-only;
//! the first declaration of a (table, column) pair fixes its type.

use vstd::prelude::*;
use crate::ast::ColumnDecl;
use crate::ast::ColumnDeclV;
use crate::ast::DeclaredType;
use crate::model::Column;
use crate::model::ColumnType;
use crate::model::ColumnV;
use crate::model::DataType;
use crate::strings::push_char;

verus! {

broadcast use crate::viewlib::group_deep_view;

/// The base data type a declaration maps to; a declared type outside the
/// native set maps to `Any`.
pub open spec fn spec_base_type(d: DeclaredType) -> DataType {
    match d {
        DeclaredType::Integer => DataType::Integer,
        DeclaredType::Real => DataType::Real,
        DeclaredType::Text => DataType::Text,
        DeclaredType::Blob => DataType::Blob,
        DeclaredType::Other => DataType::Any,
    }
}

/// Whether a declaration yields a bare (non-nullable) type: it is NOT NULL,
/// or it is an INTEGER PRIMARY KEY.
pub open spec fn spec_decl_not_null(d: ColumnDeclV) -> bool {
    d.not_null || (d.primary_key && d.declared_type == DeclaredType::Integer)
}

/// The data type a column declaration yields: the base type when the column
/// is constrained non-null, the nullable wrapping of it otherwise.
pub open spec fn spec_decl_data_type(d: ColumnDeclV) -> DataType {
    if spec_decl_not_null(d) {
        spec_base_type(d.declared_type)
    } else {
        DataType::Nullable(Box::new(spec_base_type(d.declared_type)))
    }
}

/// The table-qualified name of a column.
pub open spec fn spec_full_name(table: Seq<char>, name: Seq<char>) -> Seq<char> {
    table + seq!['.'] + name
}

/// The schema column a declaration defines.
pub open spec fn spec_column_of_decl(table: Seq<char>, d: ColumnDeclV) -> ColumnV {
    ColumnV {
        name: d.name,
        full_name: spec_full_name(table, d.name),
        table_name: table,
        column_type: ColumnType::Ordinary,
        data_type: spec_decl_data_type(d),
    }
}

/// Whether the schema already binds the (table, column) name pair.
pub open spec fn spec_has_column(s: Seq<ColumnV>, table: Seq<char>, name: Seq<char>) -> bool {
    exists|i: int| 0 <= i < s.len() && s[i].table_name == table && s[i].name == name
}

/// The schema with one more column; a pair already bound is left as it is.
pub open spec fn spec_add_column(s: Seq<ColumnV>, c: ColumnV) -> Seq<ColumnV> {
    if spec_has_column(s, c.table_name, c.name) {
        s
    } else {
        s.push(c)
    }
}

/// The schema after recording a table's column declarations, first to last.
pub open spec fn spec_record(s: Seq<ColumnV>, table: Seq<char>, decls: Seq<ColumnDeclV>) -> Seq<
    ColumnV,
>
    decreases decls.len(),
{
    if decls.len() == 0 {
        s
    } else {
        spec_record(
            spec_add_column(s, spec_column_of_decl(table, decls[0])),
            table,
            decls.drop_first(),
        )
    }
}

/// The type bound to a (table, column) pair: the data type of the first
/// schema column carrying both names.
pub open spec fn spec_resolve(s: Seq<ColumnV>, table: Seq<char>, name: Seq<char>) -> Option<
    DataType,
>
    decreases s.len(),
{
    if s.len() == 0 {
        None
    } else if s[0].table_name == table && s[0].name == name {
        Some(s[0].data_type)
    } else {
        spec_resolve(s.drop_first(), table, name)
    }
}

/// The schema columns belonging to any of the given tables, in schema order.
pub open spec fn spec_narrow(s: Seq<ColumnV>, tables: Seq<Seq<char>>) -> Seq<ColumnV>
    decreases s.len(),
{
    if s.len() == 0 {
        s
    } else if tables.contains(s[0].table_name) {
        seq![s[0]] + spec_narrow(s.drop_first(), tables)
    } else {
        spec_narrow(s.drop_first(), tables)
    }
}

/// Whether the schema knows a table of this name.
pub open spec fn spec_has_table(s: Seq<ColumnV>, table: Seq<char>) -> bool {
    exists|i: int| 0 <= i < s.len() && s[i].table_name == table
}

/// Well-formedness of a schema: no (table, column) name pair is bound
/// twice.  An empty schema has it, and recording preserves it.
pub open spec fn spec_schema_wf(s: Seq<ColumnV>) -> bool {
    forall|i: int, j: int|
        0 <= i < j < s.len() ==> !(s[i].table_name == s[j].table_name && s[i].name == s[j].name)
}

/// The running table-to-column map built from the DDL seen so far.
#[derive(Debug)]
pub struct Schema {
    columns: Vec<Column>,
}

impl View for Schema {
    type V = Seq<ColumnV>;

    closed spec fn view(&self) -> Seq<ColumnV> {
        self.columns.deep_view()
    }
}

/// Exact structural equality of two data types.
pub fn data_type_eq(a: &DataType, b: &DataType) -> (r: bool)
    ensures
        r == (a == b),
    decreases *a,
{
    match (a, b) {
        (DataType::Integer, DataType::Integer) => true,
        (DataType::Real, DataType::Real) => true,
        (DataType::Text, DataType::Text) => true,
        (DataType::Blob, DataType::Blob) => true,
        (DataType::Any, DataType::Any) => true,
        (DataType::Nullable(x), DataType::Nullable(y)) => data_type_eq(&**x, &**y),
        _ => false,
    }
}

/// The executable counterpart of [`spec_full_name`].
pub fn full_column_name(table: &str, name: &str) -> (r: String)
    ensures
        r@ == spec_full_name(table@, name@),
{
    let mut r = table.to_owned();
    push_char(&mut r, '.');
    r.append(name);
    proof {
        assert(r@ =~= spec_full_name(table@, name@));
    }
    r
}

/// Builds the schema column a declaration defines.
pub fn column_of_decl(table: &str, d: &ColumnDecl) -> (c: Column)
    ensures
        c@ == spec_column_of_decl(table@, d.deep_view()),
{
    let base = match d.declared_type {
        DeclaredType::Integer => DataType::Integer,
        DeclaredType::Real => DataType::Real,
        DeclaredType::Text => DataType::Text,
        DeclaredType::Blob => DataType::Blob,
        DeclaredType::Other => DataType::Any,
    };
    let bare = d.not_null || (d.primary_key && matches!(d.declared_type, DeclaredType::Integer));
    let data_type = if bare {
        base
    } else {
        DataType::Nullable(Box::new(base))
    };
    Column {
        name: d.name.clone(),
        full_name: full_column_name(table, d.name.as_str()),
        table_name: table.to_owned(),
        column_type: ColumnType::Ordinary,
        data_type,
    }
}

impl Schema {
    /// An empty schema.
    pub fn new() -> (s: Schema)
        ensures
            s@ == Seq::<ColumnV>::empty(),
            spec_schema_wf(s@),
    {
        let s = Schema { columns: Vec::new() };
        proof {
            assert(s@ =~= Seq::<ColumnV>::empty());
        }
        s
    }

    /// Whether a (table, column) pair is already bound.
    pub fn has_column(&self, table: &str, name: &str) -> (r: bool)
        ensures
            r == spec_has_column(self@, table@, name@),
    {
        let mut i: usize = 0;
        while i < self.columns.len()
            invariant
                i <= self.columns@.len(),
                forall|j: int|
                    0 <= j < i ==> !(self@[j].table_name == table@ && self@[j].name == name@),
            decreases self.columns@.len() - i,
        {
            let c = &self.columns[i];
            if crate::strings::str_eq(c.table_name.as_str(), table) && crate::strings::str_eq(
                c.name.as_str(),
                name,
            ) {
                proof {
                    assert(self@[i as int].table_name == table@ && self@[i as int].name == name@);
                }
                return true;
            }
            i = i + 1;
        }
        proof {
            if spec_has_column(self@, table@, name@) {
                let j = choose|j: int|
                    0 <= j < self@.len() && self@[j].table_name == table@ && self@[j].name
                        == name@;
                assert(!(self@[j].table_name == table@ && self@[j].name == name@));
            }
        }
        false
    }

    /// Whether the schema knows a table of this name.
    pub fn has_table(&self, table: &str) -> (r: bool)
        ensures
            r == spec_has_table(self@, table@),
    {
        let mut i: usize = 0;
        while i < self.columns.len()
            invariant
                i <= self.columns@.len(),
                forall|j: int| 0 <= j < i ==> self@[j].table_name != table@,
            decreases self.columns@.len() - i,
        {
            if crate::strings::str_eq(self.columns[i].table_name.as_str(), table) {
                proof {
                    assert(self@[i as int].table_name == table@);
                }
                return true;
            }
            i = i + 1;
        }
        proof {
            if spec_has_table(self@, table@) {
                let j = choose|j: int| 0 <= j < self@.len() && self@[j].table_name == table@;
                assert(self@[j].table_name != table@);
            }
        }
        false
    }

    /// Records a table's columns, first to last; a (table, column) pair that
    /// is already bound keeps its earlier type.
    pub fn record(&mut self, table: &str, decls: &Vec<ColumnDecl>)
        ensures
            final(self)@ == spec_record(old(self)@, table@, decls.deep_view()),
            spec_schema_wf(old(self)@) ==> spec_schema_wf(final(self)@),
    {
        proof {
            if spec_schema_wf(self@) {
                lemma_record_preserves_wf(self@, table@, decls.deep_view());
            }
        }
        let ghost orig = self@;
        let ghost all = decls.deep_view();
        let mut i: usize = 0;
        proof {
            assert(all.skip(0) =~= all);
        }
        while i < decls.len()
            invariant
                i <= decls@.len(),
                all == decls.deep_view(),
                spec_record(self@, table@, all.skip(i as int)) == spec_record(orig, table@, all),
            decreases decls@.len() - i,
        {
            let ghost pre = self@;
            let c = column_of_decl(table, &decls[i]);
            let bound = self.has_column(c.table_name.as_str(), c.name.as_str());
            proof {
                assert(c@.table_name == table@);
                assert(all.skip(i as int)[0] == all[i as int]);
                assert(all.skip(i as int).drop_first() =~= all.skip(i as int + 1));
            }
            if !bound {
                self.columns.push(c);
                proof {
                    assert(self@ =~= pre.push(spec_column_of_decl(table@, all[i as int])));
                    assert(self@ == spec_add_column(pre, spec_column_of_decl(table@, all[i as int])));
                }
            } else {
                proof {
                    assert(self@ == spec_add_column(pre, spec_column_of_decl(table@, all[i as int])));
                }
            }
            i = i + 1;
        }
        proof {
            assert(all.skip(i as int).len() == 0);
            assert(spec_record(self@, table@, all.skip(i as int)) == self@);
        }
    }

    /// Looks a single column up; the first declaration of the pair decides.
    pub fn resolve(&self, table: &str, name: &str) -> (r: Option<DataType>)
        ensures
            r == spec_resolve(self@, table@, name@),
    {
        let mut i: usize = 0;
        proof {
            lemma_resolve_skip(self@, table@, name@, 0);
        }
        while i < self.columns.len()
            invariant
                i <= self.columns@.len(),
                spec_resolve(self@, table@, name@) == spec_resolve(
                    self@.skip(i as int),
                    table@,
                    name@,
                ),
            decreases self.columns@.len() - i,
        {
            let c = &self.columns[i];
            proof {
                assert(self@.skip(i as int)[0] == self@[i as int]);
                assert(self@.skip(i as int).drop_first() =~= self@.skip(i as int + 1));
            }
            if crate::strings::str_eq(c.table_name.as_str(), table) && crate::strings::str_eq(
                c.name.as_str(),
                name,
            ) {
                return Some(c.data_type.clone());
            }
            i = i + 1;
        }
        proof {
            assert(self@.skip(i as int).len() == 0);
        }
        None
    }

    /// Every known column of the given tables, in schema order; this is the
    /// narrowed column set a statement is resolved against.
    pub fn columns_of_tables(&self, tables: &Vec<String>) -> (r: Vec<Column>)
        ensures
            r.deep_view() == spec_narrow(self@, tables.deep_view()),
    {
        let mut r: Vec<Column> = Vec::new();
        let mut i: usize = 0;
        proof {
            lemma_narrow_skip_zero(self@, tables.deep_view());
        }
        while i < self.columns.len()
            invariant
                i <= self.columns@.len(),
                r.deep_view() + spec_narrow(self@.skip(i as int), tables.deep_view())
                    == spec_narrow(self@, tables.deep_view()),
            decreases self.columns@.len() - i,
        {
            let ghost pre = r.deep_view();
            proof {
                assert(self@.skip(i as int)[0] == self@[i as int]);
                assert(self@.skip(i as int).drop_first() =~= self@.skip(i as int + 1));
            }
            let c = &self.columns[i];
            if contains_str(tables, c.table_name.as_str()) {
                r.push(c.clone());
                proof {
                    assert(pre.push(self@[i as int]) + spec_narrow(
                        self@.skip(i as int + 1),
                        tables.deep_view(),
                    ) =~= pre + spec_narrow(self@.skip(i as int), tables.deep_view()));
                }
            }
            i = i + 1;
        }
        proof {
            assert(self@.skip(i as int).len() == 0);
            assert(r.deep_view() + spec_narrow(self@.skip(i as int), tables.deep_view())
                =~= r.deep_view());
        }
        r
    }
}

proof fn lemma_resolve_skip(s: Seq<ColumnV>, table: Seq<char>, name: Seq<char>, i: int)
    requires
        i == 0,
    ensures
        spec_resolve(s, table, name) == spec_resolve(s.skip(i), table, name),
{
    assert(s.skip(0) =~= s);
}

proof fn lemma_narrow_skip_zero(s: Seq<ColumnV>, tables: Seq<Seq<char>>)
    ensures
        Seq::<ColumnV>::empty() + spec_narrow(s.skip(0), tables) == spec_narrow(s, tables),
{
    assert(s.skip(0) =~= s);
    assert(Seq::<ColumnV>::empty() + spec_narrow(s, tables) =~= spec_narrow(s, tables));
}

/// Whether the vector holds a string with the given content.
pub fn contains_str(v: &Vec<String>, x: &str) -> (r: bool)
    ensures
        r == v.deep_view().contains(x@),
{
    let mut i: usize = 0;
    while i < v.len()
        invariant
            i <= v@.len(),
            forall|j: int| 0 <= j < i ==> v.deep_view()[j] != x@,
        decreases v@.len() - i,
    {
        if crate::strings::str_eq(v[i].as_str(), x) {
            proof {
                assert(v.deep_view()[i as int] == x@);
            }
            return true;
        }
        i = i + 1;
    }
    proof {
        if v.deep_view().contains(x@) {
            let j = choose|j: int| 0 <= j < v.deep_view().len() && v.deep_view()[j] == x@;
            assert(v.deep_view()[j] == x@);
        }
    }
    false
}

/// Schema lookup is order-consistent and type-preserving: when a pair is not
/// yet bound and a table's declarations are recorded, the pair resolves to
/// the type of its first declaration in that table definition.
pub proof fn lemma_record_resolves_declared_type(
    s: Seq<ColumnV>,
    table: Seq<char>,
    decls: Seq<ColumnDeclV>,
    i: int,
)
    requires
        0 <= i < decls.len(),
        spec_resolve(s, table, decls[i].name) is None,
        forall|j: int| 0 <= j < i ==> decls[j].name != decls[i].name,
    ensures
        spec_resolve(spec_record(s, table, decls), table, decls[i].name) == Some(
            spec_decl_data_type(decls[i]),
        ),
    decreases decls.len(),
{
    let c0 = spec_column_of_decl(table, decls[0]);
    let s1 = spec_add_column(s, c0);
    if i == 0 {
        lemma_resolve_none_means_unbound(s, table, decls[0].name);
        assert(!spec_has_column(s, table, decls[0].name));
        assert(s1 == s.push(c0));
        lemma_resolve_push_hit(s, table, c0);
        lemma_record_keeps_binding(s1, table, decls.drop_first(), decls[0].name);
    } else {
        assert(decls[0].name != decls[i].name);
        lemma_resolve_add_other(s, table, c0, decls[i].name);
        assert(spec_resolve(s1, table, decls[i].name) is None);
        assert(decls.drop_first()[i - 1] == decls[i]);
        let rest = decls.drop_first();
        assert(forall|j: int| 0 <= j < i - 1 ==> (#[trigger] rest[j]).name != rest[i - 1].name);
        lemma_record_resolves_declared_type(s1, table, decls.drop_first(), i - 1);
    }
}

/// A pair that resolves to nothing is not bound at all.
pub proof fn lemma_resolve_none_means_unbound(s: Seq<ColumnV>, table: Seq<char>, name: Seq<char>)
    requires
        spec_resolve(s, table, name) is None,
    ensures
        !spec_has_column(s, table, name),
    decreases s.len(),
{
    if s.len() > 0 {
        lemma_resolve_none_means_unbound(s.drop_first(), table, name);
        if spec_has_column(s, table, name) {
            let j = choose|j: int|
                0 <= j < s.len() && s[j].table_name == table && s[j].name == name;
            if j > 0 {
                assert(s.drop_first()[j - 1] == s[j]);
                assert(spec_has_column(s.drop_first(), table, name));
            }
        }
    }
}

/// Appending an unbound column makes its pair resolve to its type.
proof fn lemma_resolve_push_hit(s: Seq<ColumnV>, table: Seq<char>, c: ColumnV)
    requires
        spec_resolve(s, c.table_name, c.name) is None,
        c.table_name == table,
    ensures
        spec_resolve(s.push(c), table, c.name) == Some(c.data_type),
    decreases s.len(),
{
    if s.len() == 0 {
        assert(s.push(c)[0] == c);
    } else {
        assert(s.push(c)[0] == s[0]);
        assert(s.push(c).drop_first() =~= s.drop_first().push(c));
        lemma_resolve_push_hit(s.drop_first(), table, c);
    }
}

/// Adding a column of a different name leaves another pair's resolution
/// unchanged.
proof fn lemma_resolve_add_other(s: Seq<ColumnV>, table: Seq<char>, c: ColumnV, name: Seq<char>)
    requires
        c.name != name,
    ensures
        spec_resolve(spec_add_column(s, c), table, name) == spec_resolve(s, table, name),
    decreases s.len(),
{
    if !spec_has_column(s, c.table_name, c.name) {
        lemma_resolve_push_other(s, table, c, name);
    }
}

proof fn lemma_resolve_push_other(s: Seq<ColumnV>, table: Seq<char>, c: ColumnV, name: Seq<char>)
    requires
        c.name != name,
    ensures
        spec_resolve(s.push(c), table, name) == spec_resolve(s, table, name),
    decreases s.len(),
{
    if s.len() == 0 {
        reveal_with_fuel(spec_resolve, 2);
        assert(s.push(c).len() == 1);
        assert(s.push(c)[0] == c);
        assert(!(c.table_name == table && c.name == name));
        assert(s.push(c).drop_first() =~= Seq::<ColumnV>::empty());
        assert(spec_resolve(s.push(c), table, name) is None);
        assert(spec_resolve(s, table, name) is None);
    } else {
        assert(s.push(c)[0] == s[0]);
        assert(s.push(c).len() == s.len() + 1);
        assert(s.push(c).drop_first() =~= s.drop_first().push(c));
        if s[0].table_name == table && s[0].name == name {
            assert(spec_resolve(s.push(c), table, name) == Some(s[0].data_type));
            assert(spec_resolve(s, table, name) == Some(s[0].data_type));
        } else {
            lemma_resolve_push_other(s.drop_first(), table, c, name);
            assert(spec_resolve(s.push(c), table, name) == spec_resolve(
                s.drop_first().push(c),
                table,
                name,
            ));
            assert(spec_resolve(s, table, name) == spec_resolve(s.drop_first(), table, name));
        }
    }
}

/// Recording more declarations never changes a pair that already resolves.
pub proof fn lemma_record_keeps_binding(
    s: Seq<ColumnV>,
    table: Seq<char>,
    decls: Seq<ColumnDeclV>,
    name: Seq<char>,
)
    requires
        spec_resolve(s, table, name) is Some,
    ensures
        spec_resolve(spec_record(s, table, decls), table, name) == spec_resolve(s, table, name),
    decreases decls.len(),
{
    if decls.len() > 0 {
        let c0 = spec_column_of_decl(table, decls[0]);
        let s1 = spec_add_column(s, c0);
        if !spec_has_column(s, c0.table_name, c0.name) {
            if c0.name == name {
                lemma_unbound_means_resolve_none(s, table, name);
                assert(spec_resolve(s1, table, name) == spec_resolve(s, table, name));
            } else {
                lemma_resolve_push_other(s, table, c0, name);
            }
        }
        lemma_record_keeps_binding(s1, table, decls.drop_first(), name);
    }
}

/// A bound pair resolves to something when looked up in its own table.
proof fn lemma_unbound_means_resolve_none(s: Seq<ColumnV>, table: Seq<char>, name: Seq<char>)
    requires
        !spec_has_column(s, table, name),
    ensures
        spec_resolve(s, table, name) is None,
    decreases s.len(),
{
    if s.len() > 0 {
        assert(!(s[0].table_name == table && s[0].name == name));
        assert(forall|j: int|
            0 <= j < s.drop_first().len() ==> s.drop_first()[j] == s[j + 1]);
        lemma_unbound_means_resolve_none(s.drop_first(), table, name);
    }
}

/// Recording a different table's declarations never changes resolution
/// against this table.
pub proof fn lemma_record_other_table(
    s: Seq<ColumnV>,
    other: Seq<char>,
    decls: Seq<ColumnDeclV>,
    table: Seq<char>,
    name: Seq<char>,
)
    requires
        other != table,
    ensures
        spec_resolve(spec_record(s, other, decls), table, name) == spec_resolve(s, table, name),
    decreases decls.len(),
{
    if decls.len() > 0 {
        let c0 = spec_column_of_decl(other, decls[0]);
        let s1 = spec_add_column(s, c0);
        if !spec_has_column(s, c0.table_name, c0.name) {
            lemma_resolve_push_other_table(s, table, c0, name);
        }
        lemma_record_other_table(s1, other, decls.drop_first(), table, name);
    }
}

/// Whether one of the declarations, read for this table, defines exactly
/// this schema column.
pub open spec fn spec_decls_declare(table: Seq<char>, decls: Seq<ColumnDeclV>, c: ColumnV) -> bool {
    exists|j: int| 0 <= j < decls.len() && c == spec_column_of_decl(table, decls[j])
}

/// Whether one of the declarations, read for this table, carries the given
/// (table, column) name pair.
pub open spec fn spec_decls_declare_name(
    table: Seq<char>,
    decls: Seq<ColumnDeclV>,
    t: Seq<char>,
    n: Seq<char>,
) -> bool {
    table == t && exists|j: int| 0 <= j < decls.len() && decls[j].name == n
}

/// Recording is exactly the declarations: every column of the recorded
/// schema was already there or is defined by one of the declarations; every
/// earlier column is kept; and a (table, column) pair is bound afterwards
/// exactly when it was bound before or one of the declarations carries it.
pub proof fn lemma_record_membership(s: Seq<ColumnV>, table: Seq<char>, decls: Seq<ColumnDeclV>)
    ensures
        forall|c: ColumnV| #[trigger]
            spec_record(s, table, decls).contains(c) ==> s.contains(c) || spec_decls_declare(
                table,
                decls,
                c,
            ),
        forall|c: ColumnV| #[trigger]
            s.contains(c) ==> spec_record(s, table, decls).contains(c),
        forall|t: Seq<char>, n: Seq<char>| #[trigger]
            spec_has_column(spec_record(s, table, decls), t, n) <==> spec_has_column(s, t, n)
                || spec_decls_declare_name(table, decls, t, n),
    decreases decls.len(),
{
    if decls.len() == 0 {
        assert(forall|c: ColumnV| !spec_decls_declare(table, decls, c));
        assert(forall|t: Seq<char>, n: Seq<char>| !spec_decls_declare_name(table, decls, t, n));
    } else {
        let c0 = spec_column_of_decl(table, decls[0]);
        let s1 = spec_add_column(s, c0);
        let rest = decls.drop_first();
        lemma_record_membership(s1, table, rest);

        // how one addition relates s1 to s
        assert forall|c: ColumnV| #[trigger] s1.contains(c) implies s.contains(c) || c == c0 by {
            if !spec_has_column(s, c0.table_name, c0.name) {
                let i = choose|i: int| 0 <= i < s1.len() && s1[i] == c;
                if i < s.len() {
                    assert(s[i] == c);
                }
            }
        }
        assert forall|c: ColumnV| #[trigger] s.contains(c) implies s1.contains(c) by {
            if !spec_has_column(s, c0.table_name, c0.name) {
                let i = choose|i: int| 0 <= i < s.len() && s[i] == c;
                assert(s1[i] == c);
            }
        }
        assert forall|t: Seq<char>, n: Seq<char>| #[trigger]
            spec_has_column(s1, t, n) <==> spec_has_column(s, t, n) || (t == c0.table_name && n
                == c0.name) by {
            if spec_has_column(s, c0.table_name, c0.name) {
                // s1 == s, and a pair equal to c0's is bound in s already
            } else {
                if spec_has_column(s1, t, n) {
                    let i = choose|i: int|
                        0 <= i < s1.len() && s1[i].table_name == t && s1[i].name == n;
                    if i < s.len() {
                        assert(s[i].table_name == t && s[i].name == n);
                    } else {
                        assert(s1[i] == c0);
                    }
                }
                if spec_has_column(s, t, n) {
                    let i = choose|i: int|
                        0 <= i < s.len() && s[i].table_name == t && s[i].name == n;
                    assert(s1[i].table_name == t && s1[i].name == n);
                }
                if t == c0.table_name && n == c0.name {
                    assert(s1[s1.len() - 1].table_name == t && s1[s1.len() - 1].name == n);
                }
            }
        }

        // lift declarations over the first one
        assert forall|c: ColumnV| spec_decls_declare(table, rest, c) || c
            == c0 implies #[trigger] spec_decls_declare(table, decls, c) by {
            if c == c0 {
                assert(c == spec_column_of_decl(table, decls[0]));
            } else {
                let j = choose|j: int|
                    0 <= j < rest.len() && c == spec_column_of_decl(table, rest[j]);
                assert(decls[j + 1] == rest[j]);
                assert(c == spec_column_of_decl(table, decls[j + 1]));
            }
        }
        assert forall|t: Seq<char>, n: Seq<char>|
            spec_decls_declare_name(table, rest, t, n) || (t == c0.table_name && n
                == c0.name) implies #[trigger] spec_decls_declare_name(table, decls, t, n) by {
            if t == c0.table_name && n == c0.name {
                assert(table == t && decls[0].name == n);
            } else {
                let j = choose|j: int| 0 <= j < rest.len() && rest[j].name == n;
                assert(decls[j + 1].name == n);
            }
        }
        assert forall|t: Seq<char>, n: Seq<char>| #[trigger]
            spec_decls_declare_name(table, decls, t, n) implies spec_decls_declare_name(
            table,
            rest,
            t,
            n,
        ) || (t == c0.table_name && n == c0.name) by {
            let j = choose|j: int| 0 <= j < decls.len() && decls[j].name == n;
            if j > 0 {
                assert(rest[j - 1].name == n);
            }
        }

        // combine with the induction hypothesis
        assert forall|c: ColumnV| #[trigger]
            spec_record(s, table, decls).contains(c) implies s.contains(c)
            || spec_decls_declare(table, decls, c) by {
            assert(spec_record(s, table, decls) == spec_record(s1, table, rest));
        }
        assert forall|c: ColumnV| #[trigger]
            s.contains(c) implies spec_record(s, table, decls).contains(c) by {
            assert(s1.contains(c));
        }
        assert forall|t: Seq<char>, n: Seq<char>| #[trigger]
            spec_has_column(spec_record(s, table, decls), t, n) <==> spec_has_column(s, t, n)
                || spec_decls_declare_name(table, decls, t, n) by {
            assert(spec_record(s, table, decls) == spec_record(s1, table, rest));
            assert(spec_has_column(spec_record(s1, table, rest), t, n) <==> spec_has_column(
                s1,
                t,
                n,
            ) || spec_decls_declare_name(table, rest, t, n));
            assert(spec_has_column(s1, t, n) <==> spec_has_column(s, t, n) || (t == c0.table_name
                && n == c0.name));
        }
    }
}

/// Recording preserves schema well-formedness: a pair is only ever added
/// when it is not yet bound.
pub proof fn lemma_record_preserves_wf(s: Seq<ColumnV>, table: Seq<char>, decls: Seq<ColumnDeclV>)
    requires
        spec_schema_wf(s),
    ensures
        spec_schema_wf(spec_record(s, table, decls)),
    decreases decls.len(),
{
    if decls.len() > 0 {
        let c0 = spec_column_of_decl(table, decls[0]);
        let s1 = spec_add_column(s, c0);
        assert(spec_schema_wf(s1)) by {
            if !spec_has_column(s, c0.table_name, c0.name) {
                assert forall|i: int, j: int| 0 <= i < j < s1.len() implies !(
                s1[i].table_name == s1[j].table_name && s1[i].name == s1[j].name) by {
                    if j == s1.len() - 1 {
                        assert(s1[i] == s[i]);
                        assert(s1[j] == c0);
                        if s[i].table_name == c0.table_name && s[i].name == c0.name {
                            assert(spec_has_column(s, c0.table_name, c0.name));
                        }
                    } else {
                        assert(s1[i] == s[i]);
                        assert(s1[j] == s[j]);
                    }
                }
            }
        }
        lemma_record_preserves_wf(s1, table, decls.drop_first());
    }
}

/// Every column of a narrowed set is a column of the schema.
pub proof fn lemma_narrow_subset(s: Seq<ColumnV>, tables: Seq<Seq<char>>, c: ColumnV)
    requires
        spec_narrow(s, tables).contains(c),
    ensures
        s.contains(c),
    decreases s.len(),
{
    if s.len() > 0 {
        let rest = s.drop_first();
        if tables.contains(s[0].table_name) {
            let narrowed = seq![s[0]] + spec_narrow(rest, tables);
            let k = choose|k: int| 0 <= k < narrowed.len() && narrowed[k] == c;
            if k == 0 {
                assert(s[0] == c);
            } else {
                assert(spec_narrow(rest, tables)[k - 1] == c);
                lemma_narrow_subset(rest, tables, c);
                let m = choose|m: int| 0 <= m < rest.len() && rest[m] == c;
                assert(s[m + 1] == c);
            }
        } else {
            lemma_narrow_subset(rest, tables, c);
            let m = choose|m: int| 0 <= m < rest.len() && rest[m] == c;
            assert(s[m + 1] == c);
        }
    }
}

/// In a well-formed schema, every column of the narrowed set a statement is
/// resolved against carries exactly the type the schema binds to its name:
/// classification attaches declared types, never re-derived ones.
pub proof fn lemma_narrowed_column_resolves_to_its_type(
    s: Seq<ColumnV>,
    tables: Seq<Seq<char>>,
    c: ColumnV,
)
    requires
        spec_schema_wf(s),
        spec_narrow(s, tables).contains(c),
    ensures
        spec_resolve(s, c.table_name, c.name) == Some(c.data_type),
    decreases s.len(),
{
    lemma_narrow_subset(s, tables, c);
    let rest = s.drop_first();
    assert(spec_schema_wf(rest)) by {
        assert forall|i: int, j: int| 0 <= i < j < rest.len() implies !(
        rest[i].table_name == rest[j].table_name && rest[i].name == rest[j].name) by {
            assert(rest[i] == s[i + 1]);
            assert(rest[j] == s[j + 1]);
        }
    }
    if s[0] == c {
        assert(spec_resolve(s, c.table_name, c.name) == Some(c.data_type));
    } else {
        let k = choose|k: int| 0 <= k < s.len() && s[k] == c;
        assert(k > 0);
        assert(rest[k - 1] == c);
        assert(!(s[0].table_name == c.table_name && s[0].name == c.name));
        assert(spec_narrow(s, tables).contains(c));
        assert(spec_narrow(rest, tables).contains(c)) by {
            let n = spec_narrow(rest, tables);
            if tables.contains(s[0].table_name) {
                let narrowed = seq![s[0]] + n;
                let p = choose|p: int| 0 <= p < narrowed.len() && narrowed[p] == c;
                assert(p > 0);
                assert(n[p - 1] == c);
            }
        }
        lemma_narrowed_column_resolves_to_its_type(rest, tables, c);
    }
}

proof fn lemma_resolve_push_other_table(
    s: Seq<ColumnV>,
    table: Seq<char>,
    c: ColumnV,
    name: Seq<char>,
)
    requires
        c.table_name != table,
    ensures
        spec_resolve(s.push(c), table, name) == spec_resolve(s, table, name),
    decreases s.len(),
{
    if s.len() == 0 {
        reveal_with_fuel(spec_resolve, 2);
        assert(s.push(c).len() == 1);
        assert(s.push(c)[0] == c);
        assert(!(c.table_name == table && c.name == name));
        assert(s.push(c).drop_first() =~= Seq::<ColumnV>::empty());
        assert(spec_resolve(s.push(c), table, name) is None);
        assert(spec_resolve(s, table, name) is None);
    } else {
        assert(s.push(c)[0] == s[0]);
        assert(s.push(c).len() == s.len() + 1);
        assert(s.push(c).drop_first() =~= s.drop_first().push(c));
        if s[0].table_name == table && s[0].name == name {
            assert(spec_resolve(s.push(c), table, name) == Some(s[0].data_type));
            assert(spec_resolve(s, table, name) == Some(s[0].data_type));
        } else {
            lemma_resolve_push_other_table(s.drop_first(), table, c, name);
            assert(spec_resolve(s.push(c), table, name) == spec_resolve(
                s.drop_first().push(c),
                table,
                name,
            ));
            assert(spec_resolve(s, table, name) == spec_resolve(s.drop_first(), table, name));
        }
    }
}

} // verus!
