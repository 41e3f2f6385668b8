//! The binding emitter: renders each resolved statement into a typed
//! accessor description — parameters in classified column order, a record
//! description with its companion field-name descriptor when one is needed,
//! and the return shape mapped onto the accessor's result kind.

use vstd::prelude::*;
use crate::model::Column;
use crate::model::ColumnV;
use crate::model::DataType;
use crate::model::ResultOverride;
use crate::model::ResultOverrideV;
use crate::model::ReturnShape;
use crate::model::spec_override_name;
use crate::resolve::Statement;
use crate::resolve::StatementV;
use crate::strings::snake_to_pascal;
use crate::strings::spec_snake_to_pascal;

verus! {

broadcast use crate::viewlib::group_deep_view;

/// The host-language type a column's data type maps to.
#[derive(Debug, PartialEq, Eq)]
pub enum HostType {
    /// A 64-bit signed integer.
    Int64,
    /// A 64-bit floating-point number.
    Float64,
    /// An owned string.
    Text,
    /// An owned byte sequence.
    Bytes,
    /// An optional value of the wrapped type.
    Optional(Box<HostType>),
}

impl Clone for HostType {
    fn clone(&self) -> (r: Self)
        ensures
            r == *self,
        decreases *self,
    {
        match self {
            HostType::Int64 => HostType::Int64,
            HostType::Float64 => HostType::Float64,
            HostType::Text => HostType::Text,
            HostType::Bytes => HostType::Bytes,
            HostType::Optional(inner) => HostType::Optional(Box::new((**inner).clone())),
        }
    }
}

/// One named, typed slot: an accessor parameter or a record field.
#[derive(Debug, PartialEq, Eq)]
pub struct Field {
    pub name: String,
    pub host_type: HostType,
}

/// The spec-level value of a [`Field`].
#[verifier::ext_equal]
pub struct FieldV {
    pub name: Seq<char>,
    pub host_type: HostType,
}

impl DeepView for Field {
    type V = FieldV;

    open spec fn deep_view(&self) -> FieldV {
        FieldV { name: self.name@, host_type: self.host_type }
    }
}

/// A generated record type: its name, the name of its companion descriptor
/// that exposes each field's name as a string, and its typed fields.
#[derive(Debug, PartialEq, Eq)]
pub struct Record {
    pub name: String,
    pub names_name: String,
    pub fields: Vec<Field>,
}

/// The spec-level value of a [`Record`].
#[verifier::ext_equal]
pub struct RecordV {
    pub name: Seq<char>,
    pub names_name: Seq<char>,
    pub fields: Seq<FieldV>,
}

impl DeepView for Record {
    type V = RecordV;

    open spec fn deep_view(&self) -> RecordV {
        RecordV {
            name: self.name@,
            names_name: self.names_name@,
            fields: self.fields.deep_view(),
        }
    }
}

/// The record an accessor returns: a newly generated record type, or the
/// reuse of a previously generated one named by the caller's override.
#[derive(Debug, PartialEq, Eq)]
pub enum RecordDescription {
    Generated(Record),
    Reused(String),
}

/// The spec-level value of a [`RecordDescription`].
pub enum RecordDescriptionV {
    Generated(RecordV),
    Reused(Seq<char>),
}

impl DeepView for RecordDescription {
    type V = RecordDescriptionV;

    open spec fn deep_view(&self) -> RecordDescriptionV {
        match self {
            RecordDescription::Generated(rec) => RecordDescriptionV::Generated(rec.deep_view()),
            RecordDescription::Reused(name) => RecordDescriptionV::Reused(name@),
        }
    }
}

/// The result kind of an accessor: no value (a batch), the affected row
/// count, a bare integer, or records in one of the three shapes.
#[derive(Debug, Clone, Copy, PartialEq, Eq, Structural)]
pub enum AccessorShape {
    Batch,
    AffectedRows,
    Scalar,
    Row,
    OptionalRow,
    Rows,
}

/// One emitted accessor: the callable's name, the statement text it runs,
/// its typed parameters in classified order, the record description when the
/// statement returns rows or defines a table, and its result kind.
#[derive(Debug, PartialEq, Eq)]
pub struct Accessor {
    pub identifier: String,
    pub sql: String,
    pub parameters: Vec<Field>,
    pub record: Option<RecordDescription>,
    pub shape: AccessorShape,
}

/// The spec-level value of an [`Accessor`].
#[verifier::ext_equal]
pub struct AccessorV {
    pub identifier: Seq<char>,
    pub sql: Seq<char>,
    pub parameters: Seq<FieldV>,
    pub record: Option<RecordDescriptionV>,
    pub shape: AccessorShape,
}

impl DeepView for Accessor {
    type V = AccessorV;

    open spec fn deep_view(&self) -> AccessorV {
        AccessorV {
            identifier: self.identifier@,
            sql: self.sql@,
            parameters: self.parameters.deep_view(),
            record: self.record.deep_view(),
            shape: self.shape,
        }
    }
}

/// The host type of a data type: Integer maps to a 64-bit integer, Real to
/// a 64-bit float, Text to a string, Blob and Any to a byte sequence, and a
/// nullable type to the optional wrapping of its host type.
pub open spec fn spec_host_type(dt: DataType) -> HostType
    decreases dt,
{
    match dt {
        DataType::Integer => HostType::Int64,
        DataType::Real => HostType::Float64,
        DataType::Text => HostType::Text,
        DataType::Blob => HostType::Bytes,
        DataType::Any => HostType::Bytes,
        DataType::Nullable(inner) => HostType::Optional(Box::new(spec_host_type(*inner))),
    }
}

/// Maps a data type to its host type.
pub fn host_type(dt: &DataType) -> (r: HostType)
    ensures
        r == spec_host_type(*dt),
    decreases *dt,
{
    match dt {
        DataType::Integer => HostType::Int64,
        DataType::Real => HostType::Float64,
        DataType::Text => HostType::Text,
        DataType::Blob => HostType::Bytes,
        DataType::Any => HostType::Bytes,
        DataType::Nullable(inner) => HostType::Optional(Box::new(host_type(&**inner))),
    }
}

/// The typed slot a classified column yields.
pub open spec fn spec_field_of_column(c: ColumnV) -> FieldV {
    FieldV { name: c.name, host_type: spec_host_type(c.data_type) }
}

/// The typed slots of a column list, in order.
pub open spec fn spec_fields_of_columns(cols: Seq<ColumnV>) -> Seq<FieldV>
    decreases cols.len(),
{
    if cols.len() == 0 {
        Seq::<FieldV>::empty()
    } else {
        seq![spec_field_of_column(cols[0])] + spec_fields_of_columns(cols.drop_first())
    }
}

/// Builds the typed slots of a column list.
pub fn fields_of_columns(cols: &Vec<Column>) -> (r: Vec<Field>)
    ensures
        r.deep_view() == spec_fields_of_columns(cols.deep_view()),
{
    let mut r: Vec<Field> = Vec::new();
    let mut i: usize = 0;
    let ghost all = cols.deep_view();
    proof {
        assert(all.skip(0) =~= all);
        assert(r.deep_view() + spec_fields_of_columns(all) =~= spec_fields_of_columns(all));
    }
    while i < cols.len()
        invariant
            i <= cols@.len(),
            all == cols.deep_view(),
            r.deep_view() + spec_fields_of_columns(all.skip(i as int)) == spec_fields_of_columns(
                all,
            ),
        decreases cols@.len() - i,
    {
        let ghost pre = r.deep_view();
        proof {
            assert(all.skip(i as int)[0] == all[i as int]);
            assert(all.skip(i as int).drop_first() =~= all.skip(i as int + 1));
        }
        let f = Field { name: cols[i].name.clone(), host_type: host_type(&cols[i].data_type) };
        r.push(f);
        proof {
            assert(pre.push(spec_field_of_column(all[i as int])) + spec_fields_of_columns(
                all.skip(i as int + 1),
            ) =~= pre + spec_fields_of_columns(all.skip(i as int)));
        }
        i = i + 1;
    }
    proof {
        assert(spec_fields_of_columns(all.skip(i as int)) =~= Seq::<FieldV>::empty());
        assert(r.deep_view() + Seq::<FieldV>::empty() =~= r.deep_view());
    }
    r
}

/// The name of a statement's record type: the override's name when one was
/// supplied, the PascalCase form of the accessor identifier otherwise.
pub open spec fn spec_record_name(identifier: Seq<char>, ov: Option<ResultOverrideV>) -> Seq<
    char,
> {
    match ov {
        Some(o) => spec_override_name(o),
        None => spec_snake_to_pascal(identifier),
    }
}

/// The name of a record's companion field-name descriptor.
pub open spec fn spec_names_name(record_name: Seq<char>) -> Seq<char> {
    record_name + seq!['N', 'a', 'm', 'e', 's']
}

/// The record generated for a column list.
pub open spec fn spec_record_of(name: Seq<char>, cols: Seq<ColumnV>) -> RecordV {
    RecordV {
        name: name,
        names_name: spec_names_name(name),
        fields: spec_fields_of_columns(cols),
    }
}

fn record_name(identifier: &str, ov: &Option<ResultOverride>) -> (r: String)
    ensures
        r@ == spec_record_name(identifier@, ov.deep_view()),
{
    match ov {
        Some(ResultOverride::Single(name)) => name.clone(),
        Some(ResultOverride::Collection(name)) => name.clone(),
        None => snake_to_pascal(identifier),
    }
}

fn record_of(name: String, cols: &Vec<Column>) -> (r: Record)
    ensures
        r.deep_view() == spec_record_of(name@, cols.deep_view()),
{
    let mut names_name = name.clone();
    names_name.append("Names");
    proof {
        reveal_strlit("Names");
        assert("Names"@ =~= seq!['N', 'a', 'm', 'e', 's']);
        assert(names_name@ =~= spec_names_name(name@));
    }
    let fields = fields_of_columns(cols);
    let r = Record { name, names_name, fields };
    proof {
        assert(r.deep_view() =~= spec_record_of(r.name@, cols.deep_view()));
    }
    r
}

/// The accessor shape a query's return shape maps to.
pub open spec fn spec_shape_of_return(rs: ReturnShape) -> AccessorShape {
    match rs {
        ReturnShape::Row => AccessorShape::Row,
        ReturnShape::OptionalRow => AccessorShape::OptionalRow,
        ReturnShape::Rows => AccessorShape::Rows,
    }
}

/// The accessor emitted for a resolved statement.
///
/// - A batch execution takes no parameters and returns nothing.
/// - An execution takes its input columns and returns the affected row
///   count.
/// - A scalar aggregate query takes its input columns and returns a bare
///   integer, with no record type.
/// - A row query takes its input columns; without an override it generates
///   a record named after the accessor with one field per output column,
///   with an override it reuses the named record; its shape follows the
///   resolved return shape.
/// - A CREATE TABLE takes no parameters, returns nothing, and always
///   generates its table's record.
pub open spec fn spec_emit_accessor(st: StatementV) -> AccessorV {
    match st {
        StatementV::ExecuteBatch { identifier, sql } => (AccessorV {
            identifier,
            sql,
            parameters: Seq::<FieldV>::empty(),
            record: None,
            shape: AccessorShape::Batch,
        }),
        StatementV::Execute { identifier, sql, input_columns } => (AccessorV {
            identifier,
            sql,
            parameters: spec_fields_of_columns(input_columns),
            record: None,
            shape: AccessorShape::AffectedRows,
        }),
        StatementV::ScalarAggregateQuery { identifier, sql, input_columns } => (AccessorV {
            identifier,
            sql,
            parameters: spec_fields_of_columns(input_columns),
            record: None,
            shape: AccessorShape::Scalar,
        }),
        StatementV::Query {
            identifier,
            sql,
            input_columns,
            output_columns,
            return_shape,
            result_override,
        } => (AccessorV {
            identifier,
            sql,
            parameters: spec_fields_of_columns(input_columns),
            record: Some(
                match result_override {
                    None => RecordDescriptionV::Generated(
                        spec_record_of(spec_snake_to_pascal(identifier), output_columns),
                    ),
                    Some(o) => RecordDescriptionV::Reused(spec_override_name(o)),
                },
            ),
            shape: spec_shape_of_return(return_shape),
        }),
        StatementV::CreateTable { identifier, sql, defined_columns, result_override } => (
        AccessorV {
            identifier,
            sql,
            parameters: Seq::<FieldV>::empty(),
            record: Some(
                RecordDescriptionV::Generated(
                    spec_record_of(
                        spec_record_name(identifier, result_override),
                        defined_columns,
                    ),
                ),
            ),
            shape: AccessorShape::Batch,
        }),
    }
}

/// Emits the accessor of a resolved statement.  The emitter performs no
/// further validation: every check happened during classification and shape
/// resolution.
pub fn emit_accessor(st: &Statement) -> (r: Accessor)
    ensures
        r.deep_view() == spec_emit_accessor(st.deep_view()),
{
    match st {
        Statement::ExecuteBatch { identifier, sql } => {
            let r = Accessor {
                identifier: identifier.clone(),
                sql: sql.clone(),
                parameters: Vec::new(),
                record: None,
                shape: AccessorShape::Batch,
            };
            proof {
                assert(r.deep_view().parameters =~= Seq::<FieldV>::empty());
                assert(r.deep_view() =~= spec_emit_accessor(st.deep_view()));
            }
            r
        },
        Statement::Execute { identifier, sql, input_columns } => {
            let r = Accessor {
                identifier: identifier.clone(),
                sql: sql.clone(),
                parameters: fields_of_columns(input_columns),
                record: None,
                shape: AccessorShape::AffectedRows,
            };
            proof {
                assert(r.deep_view() =~= spec_emit_accessor(st.deep_view()));
            }
            r
        },
        Statement::ScalarAggregateQuery { identifier, sql, input_columns } => {
            let r = Accessor {
                identifier: identifier.clone(),
                sql: sql.clone(),
                parameters: fields_of_columns(input_columns),
                record: None,
                shape: AccessorShape::Scalar,
            };
            proof {
                assert(r.deep_view() =~= spec_emit_accessor(st.deep_view()));
            }
            r
        },
        Statement::Query {
            identifier,
            sql,
            input_columns,
            output_columns,
            return_shape,
            result_override,
        } => {
            let record = match result_override {
                None => {
                    let name = snake_to_pascal(identifier.as_str());
                    RecordDescription::Generated(record_of(name, output_columns))
                },
                Some(ResultOverride::Single(name)) => RecordDescription::Reused(name.clone()),
                Some(ResultOverride::Collection(name)) => RecordDescription::Reused(name.clone()),
            };
            let shape = match return_shape {
                ReturnShape::Row => AccessorShape::Row,
                ReturnShape::OptionalRow => AccessorShape::OptionalRow,
                ReturnShape::Rows => AccessorShape::Rows,
            };
            let r = Accessor {
                identifier: identifier.clone(),
                sql: sql.clone(),
                parameters: fields_of_columns(input_columns),
                record: Some(record),
                shape,
            };
            proof {
                assert(r.deep_view() =~= spec_emit_accessor(st.deep_view()));
            }
            r
        },
        Statement::CreateTable { identifier, sql, defined_columns, result_override } => {
            let name = record_name(identifier.as_str(), result_override);
            let r = Accessor {
                identifier: identifier.clone(),
                sql: sql.clone(),
                parameters: Vec::new(),
                record: Some(RecordDescription::Generated(record_of(name, defined_columns))),
                shape: AccessorShape::Batch,
            };
            proof {
                assert(r.deep_view().parameters =~= Seq::<FieldV>::empty());
                assert(r.deep_view() =~= spec_emit_accessor(st.deep_view()));
            }
            r
        },
    }
}

} // verus!
