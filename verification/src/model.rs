//! The core data model: SQL data types, classified columns, and the errors
//! that statement analysis can raise.

use vstd::prelude::*;

verus! {

broadcast use crate::viewlib::group_deep_view;

/// The data type attached to a schema column.  `Any` stands for a declared
/// type outside the native set, and `Nullable` wraps the type of a column
/// that carries no NOT NULL or INTEGER PRIMARY KEY constraint.
#[derive(Debug, PartialEq, Eq)]
pub enum DataType {
    Integer,
    Real,
    Text,
    Blob,
    Any,
    Nullable(Box<DataType>),
}

impl Clone for DataType {
    fn clone(&self) -> (r: Self)
        ensures
            r == *self,
        decreases *self,
    {
        match self {
            DataType::Integer => DataType::Integer,
            DataType::Real => DataType::Real,
            DataType::Text => DataType::Text,
            DataType::Blob => DataType::Blob,
            DataType::Any => DataType::Any,
            DataType::Nullable(inner) => DataType::Nullable(Box::new((**inner).clone())),
        }
    }
}

/// Whether a classified column is an ordinary schema column or a synthesized
/// aggregate result.
#[derive(Debug, Clone, Copy, PartialEq, Eq, Structural)]
pub enum ColumnType {
    Ordinary,
    Aggregate,
}

/// A classified column.  `full_name` is the table-qualified name; both the
/// qualified and the table name are empty for synthesized aggregate columns.
#[derive(Debug, PartialEq, Eq)]
pub struct Column {
    pub name: String,
    pub full_name: String,
    pub table_name: String,
    pub column_type: ColumnType,
    pub data_type: DataType,
}

/// The spec-level value of a [`Column`].
#[verifier::ext_equal]
pub struct ColumnV {
    pub name: Seq<char>,
    pub full_name: Seq<char>,
    pub table_name: Seq<char>,
    pub column_type: ColumnType,
    pub data_type: DataType,
}

impl View for Column {
    type V = ColumnV;

    open spec fn view(&self) -> ColumnV {
        ColumnV {
            name: self.name@,
            full_name: self.full_name@,
            table_name: self.table_name@,
            column_type: self.column_type,
            data_type: self.data_type,
        }
    }
}

impl DeepView for Column {
    type V = ColumnV;

    open spec fn deep_view(&self) -> ColumnV {
        self.view()
    }
}

impl Clone for Column {
    fn clone(&self) -> (r: Self)
        ensures
            r@ == self@,
    {
        Column {
            name: self.name.clone(),
            full_name: self.full_name.clone(),
            table_name: self.table_name.clone(),
            column_type: self.column_type,
            data_type: self.data_type.clone(),
        }
    }
}

/// Copies a column vector; the copy has the same spec-level value.
pub fn clone_columns(v: &Vec<Column>) -> (r: Vec<Column>)
    ensures
        r.deep_view() == v.deep_view(),
{
    let mut r: Vec<Column> = Vec::new();
    let mut i: usize = 0;
    while i < v.len()
        invariant
            i <= v@.len(),
            r.deep_view() == v.deep_view().take(i as int),
        decreases v@.len() - i,
    {
        let c = v[i].clone();
        r.push(c);
        proof {
            assert(r.deep_view() =~= v.deep_view().take(i as int + 1));
        }
        i = i + 1;
    }
    proof {
        assert(v.deep_view().take(v@.len() as int) =~= v.deep_view());
    }
    r
}

/// The cardinality of a query result: exactly one row, at most one row, or
/// any number of rows.
#[derive(Debug, Clone, Copy, PartialEq, Eq, Structural)]
pub enum ReturnShape {
    Row,
    OptionalRow,
    Rows,
}

/// A caller-supplied result type override: reuse a previously generated
/// record type, either for a single record or for a collection of it.
#[derive(Debug, PartialEq, Eq)]
pub enum ResultOverride {
    Single(String),
    Collection(String),
}

/// The spec-level value of a [`ResultOverride`].
pub enum ResultOverrideV {
    Single(Seq<char>),
    Collection(Seq<char>),
}

impl DeepView for ResultOverride {
    type V = ResultOverrideV;

    open spec fn deep_view(&self) -> ResultOverrideV {
        match self {
            ResultOverride::Single(name) => ResultOverrideV::Single(name@),
            ResultOverride::Collection(name) => ResultOverrideV::Collection(name@),
        }
    }
}

impl Clone for ResultOverride {
    fn clone(&self) -> (r: Self)
        ensures
            r.deep_view() == self.deep_view(),
    {
        match self {
            ResultOverride::Single(name) => ResultOverride::Single(name.clone()),
            ResultOverride::Collection(name) => ResultOverride::Collection(name.clone()),
        }
    }
}

/// The record type name an override designates.
pub open spec fn spec_override_name(o: ResultOverrideV) -> Seq<char> {
    match o {
        ResultOverrideV::Single(name) => name,
        ResultOverrideV::Collection(name) => name,
    }
}

/// An error found while analysing statement definitions.  Every variant is
/// raised before any accessor is produced.
#[derive(Debug, PartialEq, Eq)]
pub enum BuildError {
    /// A statement addresses a table that no earlier DDL defined.
    UnknownTable { statement: String, table: String },
    /// A statement names a column absent from the addressed tables.
    UnknownColumn { column: String },
    /// An INSERT's VALUES clause holds a different number of placeholders
    /// than its column list has names.
    PlaceholderCountMismatch { statement: String, columns: usize },
    /// A result override was supplied but the RETURNING clause does not
    /// cover every column of the addressed table.
    MissingReturningColumn { statement: String, column: String, table: String },
    /// An UPDATE or DELETE names no table.
    MissingTableName { statement: String },
    /// An unqualified `*` appears without a result override.
    UnqualifiedWildcard,
    /// A placeholder other than `?` was used.
    UnsupportedPlaceholder { token: String },
    /// An expression or projection item outside the supported subset.
    UnsupportedExpression,
    /// A whole statement outside the supported subset.
    UnsupportedStatement { statement: String },
    /// A definition whose source holds no statement at all.
    EmptyDefinition { statement: String },
}

/// The spec-level value of a [`BuildError`].
pub enum BuildErrorV {
    UnknownTable { statement: Seq<char>, table: Seq<char> },
    UnknownColumn { column: Seq<char> },
    PlaceholderCountMismatch { statement: Seq<char>, columns: usize },
    MissingReturningColumn { statement: Seq<char>, column: Seq<char>, table: Seq<char> },
    MissingTableName { statement: Seq<char> },
    UnqualifiedWildcard,
    UnsupportedPlaceholder { token: Seq<char> },
    UnsupportedExpression,
    UnsupportedStatement { statement: Seq<char> },
    EmptyDefinition { statement: Seq<char> },
}

impl DeepView for BuildError {
    type V = BuildErrorV;

    open spec fn deep_view(&self) -> BuildErrorV {
        match self {
            BuildError::UnknownTable { statement, table } => (BuildErrorV::UnknownTable {
                statement: statement@,
                table: table@,
            }),
            BuildError::UnknownColumn { column } => (BuildErrorV::UnknownColumn {
                column: column@,
            }),
            BuildError::PlaceholderCountMismatch { statement, columns } => (
            BuildErrorV::PlaceholderCountMismatch {
                statement: statement@,
                columns: *columns,
            }),
            BuildError::MissingReturningColumn { statement, column, table } => (
            BuildErrorV::MissingReturningColumn {
                statement: statement@,
                column: column@,
                table: table@,
            }),
            BuildError::MissingTableName { statement } => (BuildErrorV::MissingTableName {
                statement: statement@,
            }),
            BuildError::UnqualifiedWildcard => BuildErrorV::UnqualifiedWildcard,
            BuildError::UnsupportedPlaceholder { token } => (BuildErrorV::UnsupportedPlaceholder {
                token: token@,
            }),
            BuildError::UnsupportedExpression => BuildErrorV::UnsupportedExpression,
            BuildError::UnsupportedStatement { statement } => (BuildErrorV::UnsupportedStatement {
                statement: statement@,
            }),
            BuildError::EmptyDefinition { statement } => (BuildErrorV::EmptyDefinition {
                statement: statement@,
            }),
        }
    }
}

/// The spec-level value of a `Result` whose sides both have deep views.
pub open spec fn spec_result<T: DeepView, E: DeepView>(r: Result<T, E>) -> Result<T::V, E::V> {
    match r {
        Ok(t) => Ok(t.deep_view()),
        Err(e) => Err(e.deep_view()),
    }
}

} // verus!
