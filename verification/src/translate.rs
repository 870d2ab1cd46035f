//! The result translator: from the events that the upstream driver reports
//! for one query string to the units that are sent back to the client.

use crate::encoding::{
    encode_with, encoded, encoder_bytes, encoder_fields, encoder_new, row_fits, EncodedRow,
    EncodedRowView,
};
use vstd::prelude::*;

verus! {

/// The type that every field is described with: VARCHAR, since every value
/// is relayed as text whatever its type was upstream.
pub const TEXT_FIELD_TYPE: u32 = 1043;

/// What the upstream driver knows of one column of a row.
#[derive(Debug, Clone, PartialEq, Eq)]
pub struct ColumnMeta {
    pub name: String,
    pub type_oid: u32,
}

/// What a [`ColumnMeta`] stands for in contracts.
pub struct ColumnMetaView {
    pub name: Seq<char>,
    pub type_oid: u32,
}

/// Why the upstream driver reported an error.
#[derive(Debug, Clone, Copy, PartialEq, Eq)]
pub enum ErrorClass {
    /// The statement failed on the server; the connection is still good.
    Query,
    /// The connection to the server failed.
    Transport,
}

/// One event of the stream that executing a query string produces.
#[derive(Debug, Clone, PartialEq, Eq)]
pub enum QueryResultEvent {
    /// A row of nullable text values. The first row of a statement carries
    /// the column metadata; on later rows it is not looked at.
    TypedRow { columns: Vec<ColumnMeta>, values: Vec<Option<String>> },
    /// The end of one statement, with the tag and the row count as far as
    /// the driver reports them.
    CommandComplete { tag: String, row_count: Option<u64> },
    /// The failure of the statement or of the connection.
    Error { message: String, class: ErrorClass },
}

/// What a [`QueryResultEvent`] stands for in contracts.
pub enum QueryResultEventView {
    TypedRow { columns: Seq<ColumnMetaView>, values: Seq<Option<Seq<char>>> },
    CommandComplete { tag: Seq<char>, row_count: Option<u64> },
    Error { message: Seq<char>, class: ErrorClass },
}

/// The name and wire type of one column of a row set.
#[derive(Debug, Clone, PartialEq, Eq)]
pub struct FieldDescriptor {
    pub name: String,
    pub type_oid: u32,
}

/// What a [`FieldDescriptor`] stands for in contracts.
pub struct FieldDescriptorView {
    pub name: Seq<char>,
    pub type_oid: u32,
}

/// How grave an error notice is for the session that receives it.
#[derive(Debug, Clone, Copy, PartialEq, Eq)]
pub enum Severity {
    /// The query failed; the session goes on.
    Error,
    /// The session ends.
    Fatal,
}

/// One unit of the answer to a query string.
#[derive(Debug, Clone, PartialEq, Eq)]
pub enum ResponseUnit {
    /// The rows of one statement, all described by the same fields.
    RowSet { fields: Vec<FieldDescriptor>, rows: Vec<EncodedRow> },
    /// The completion of one statement.
    ExecutionTag { tag: String, row_count: Option<u64> },
    /// An error, relayed to the client.
    ErrorNotice { severity: Severity, message: String },
}

/// What a [`ResponseUnit`] stands for in contracts.
pub enum ResponseUnitView {
    RowSet { fields: Seq<FieldDescriptorView>, rows: Seq<EncodedRowView> },
    ExecutionTag { tag: Seq<char>, row_count: Option<u64> },
    ErrorNotice { severity: Severity, message: Seq<char> },
}

/// Why a stream of events could not be translated.
#[derive(Debug, Clone, Copy, PartialEq, Eq)]
pub enum TranslationError {
    /// The first row of a statement has no columns to describe.
    ZeroColumns,
    /// A row has another number of values than its statement has fields.
    ColumnCountMismatch,
    /// A row has more fields, or a longer value, than the wire format can
    /// announce.
    RowTooLarge,
    /// The stream ended with rows that no command completion followed.
    UnterminatedRows,
}

impl View for ColumnMeta {
    type V = ColumnMetaView;

    open spec fn view(&self) -> ColumnMetaView {
        ColumnMetaView { name: self.name@, type_oid: self.type_oid }
    }
}

impl DeepView for ColumnMeta {
    type V = ColumnMetaView;

    open spec fn deep_view(&self) -> ColumnMetaView {
        self@
    }
}

impl View for QueryResultEvent {
    type V = QueryResultEventView;

    open spec fn view(&self) -> QueryResultEventView {
        match self {
            QueryResultEvent::TypedRow { columns, values } => QueryResultEventView::TypedRow {
                columns: columns.deep_view(),
                values: values.deep_view(),
            },
            QueryResultEvent::CommandComplete { tag, row_count } => {
                QueryResultEventView::CommandComplete { tag: tag@, row_count: *row_count }
            },
            QueryResultEvent::Error { message, class } => QueryResultEventView::Error {
                message: message@,
                class: *class,
            },
        }
    }
}

impl DeepView for QueryResultEvent {
    type V = QueryResultEventView;

    open spec fn deep_view(&self) -> QueryResultEventView {
        self@
    }
}

impl View for FieldDescriptor {
    type V = FieldDescriptorView;

    open spec fn view(&self) -> FieldDescriptorView {
        FieldDescriptorView { name: self.name@, type_oid: self.type_oid }
    }
}

impl DeepView for FieldDescriptor {
    type V = FieldDescriptorView;

    open spec fn deep_view(&self) -> FieldDescriptorView {
        self@
    }
}

impl View for ResponseUnit {
    type V = ResponseUnitView;

    open spec fn view(&self) -> ResponseUnitView {
        match self {
            ResponseUnit::RowSet { fields, rows } => ResponseUnitView::RowSet {
                fields: fields.deep_view(),
                rows: rows.deep_view(),
            },
            ResponseUnit::ExecutionTag { tag, row_count } => ResponseUnitView::ExecutionTag {
                tag: tag@,
                row_count: *row_count,
            },
            ResponseUnit::ErrorNotice { severity, message } => ResponseUnitView::ErrorNotice {
                severity: *severity,
                message: message@,
            },
        }
    }
}

impl DeepView for ResponseUnit {
    type V = ResponseUnitView;

    open spec fn deep_view(&self) -> ResponseUnitView {
        self@
    }
}

/// The field descriptors that a row's column metadata gives: the columns'
/// names in order, each with the one text type.
pub open spec fn described(columns: Seq<ColumnMetaView>) -> Seq<FieldDescriptorView> {
    Seq::new(
        columns.len(),
        |i: int| FieldDescriptorView { name: columns[i].name, type_oid: TEXT_FIELD_TYPE },
    )
}

/// The severity with which an upstream error is relayed: a failed statement
/// leaves the session usable, a failed connection ends it.
pub open spec fn severity_of(class: ErrorClass) -> Severity {
    match class {
        ErrorClass::Query => Severity::Error,
        ErrorClass::Transport => Severity::Fatal,
    }
}

/// The outcome of translating `events` when the statement in progress has
/// the descriptors `fields` and the buffered rows `rows`, and `out` has been
/// produced so far.
///
/// A row takes its statement's descriptors from its own columns if there are
/// none yet, and joins the buffer. A command completion turns a buffer that
/// is not empty into a row set, empties buffer and descriptors, and adds its
/// tag. An error ends the translation with a notice, and the buffer is
/// dropped. Rows left in the buffer at the end of the events are an error.
pub open spec fn translate_from(
    events: Seq<QueryResultEventView>,
    fields: Seq<FieldDescriptorView>,
    rows: Seq<EncodedRowView>,
    out: Seq<ResponseUnitView>,
) -> Result<Seq<ResponseUnitView>, TranslationError>
    decreases events.len(),
{
    if events.len() == 0 {
        if rows.len() == 0 {
            Ok(out)
        } else {
            Err(TranslationError::UnterminatedRows)
        }
    } else {
        match events.first() {
            QueryResultEventView::TypedRow { columns, values } => {
                let fields = if fields.len() == 0 {
                    described(columns)
                } else {
                    fields
                };
                if fields.len() == 0 {
                    Err(TranslationError::ZeroColumns)
                } else if values.len() != fields.len() {
                    Err(TranslationError::ColumnCountMismatch)
                } else if !row_fits(values) {
                    Err(TranslationError::RowTooLarge)
                } else {
                    translate_from(events.drop_first(), fields, rows.push(encoded(values)), out)
                }
            },
            QueryResultEventView::CommandComplete { tag, row_count: count } => {
                let out = if rows.len() == 0 {
                    out
                } else {
                    out.push(ResponseUnitView::RowSet { fields, rows })
                };
                translate_from(
                    events.drop_first(),
                    Seq::empty(),
                    Seq::empty(),
                    out.push(ResponseUnitView::ExecutionTag { tag, row_count: count }),
                )
            },
            QueryResultEventView::Error { message, class } => Ok(
                out.push(
                    ResponseUnitView::ErrorNotice { severity: severity_of(class), message },
                ),
            ),
        }
    }
}

/// The outcome of translating the events of one query string.
pub open spec fn translation(events: Seq<QueryResultEventView>) -> Result<
    Seq<ResponseUnitView>,
    TranslationError,
> {
    translate_from(events, Seq::empty(), Seq::empty(), Seq::empty())
}

/// The severity with which an upstream error is relayed.
pub fn relay_severity(class: ErrorClass) -> (severity: Severity)
    ensures
        severity == severity_of(class),
{
    match class {
        ErrorClass::Query => Severity::Error,
        ErrorClass::Transport => Severity::Fatal,
    }
}

/// Derives a statement's field descriptors from the column metadata of its
/// first row.
pub fn describe(columns: &Vec<ColumnMeta>) -> (fields: Vec<FieldDescriptor>)
    ensures
        fields.deep_view() == described(columns.deep_view()),
{
    let mut fields: Vec<FieldDescriptor> = Vec::new();
    let mut i: usize = 0;
    while i < columns.len()
        invariant
            i <= columns.len(),
            fields.len() == i,
            forall|j: int|
                0 <= j < i ==> (#[trigger] fields[j])@ == described(columns.deep_view())[j],
        decreases columns.len() - i,
    {
        fields.push(FieldDescriptor { name: columns[i].name.clone(), type_oid: TEXT_FIELD_TYPE });
        i += 1;
    }
    fields
}

/// Translates the events that one query string produced into the units that
/// answer it: exactly the outcome that [`translation`] defines.
pub fn translate(events: &Vec<QueryResultEvent>) -> (result: Result<
    Vec<ResponseUnit>,
    TranslationError,
>)
    ensures
        result matches Ok(units) ==> translation(events.deep_view()) == Ok::<
            Seq<ResponseUnitView>,
            TranslationError,
        >(units.deep_view()),
        result matches Err(error) ==> translation(events.deep_view()) == Err::<
            Seq<ResponseUnitView>,
            TranslationError,
        >(error),
{
    let ghost all = events.deep_view();
    let mut encoder = encoder_new();
    let mut out: Vec<ResponseUnit> = Vec::new();
    let mut fields: Vec<FieldDescriptor> = Vec::new();
    let mut rows: Vec<EncodedRow> = Vec::new();
    assert(out.deep_view() =~= Seq::empty());
    assert(rows.deep_view() =~= Seq::empty());
    assert(all.skip(0) =~= all);
    let mut i: usize = 0;
    while i < events.len()
        invariant
            i <= events.len(),
            all == events.deep_view(),
            encoder_bytes(encoder) == Seq::<u8>::empty(),
            encoder_fields(encoder) == 0,
            translate_from(
                all.skip(i as int),
                fields.deep_view(),
                rows.deep_view(),
                out.deep_view(),
            ) == translation(all),
        decreases events.len() - i,
    {
        assert(all.skip(i as int).drop_first() =~= all.skip(i + 1));
        match &events[i] {
            QueryResultEvent::TypedRow { columns, values } => {
                if fields.len() == 0 {
                    fields = describe(columns);
                }
                if fields.len() == 0 {
                    return Err(TranslationError::ZeroColumns);
                }
                if values.len() != fields.len() {
                    return Err(TranslationError::ColumnCountMismatch);
                }
                match encode_with(&mut encoder, values) {
                    None => {
                        return Err(TranslationError::RowTooLarge);
                    },
                    Some(row) => {
                        let ghost before = rows.deep_view();
                        rows.push(row);
                        assert(rows.deep_view() =~= before.push(encoded(values.deep_view())));
                    },
                }
            },
            QueryResultEvent::CommandComplete { tag, row_count: count } => {
                if rows.len() != 0 {
                    let ghost before = out.deep_view();
                    let ghost set = ResponseUnitView::RowSet {
                        fields: fields.deep_view(),
                        rows: rows.deep_view(),
                    };
                    out.push(ResponseUnit::RowSet { fields, rows });
                    assert(out.deep_view() =~= before.push(set));
                }
                fields = Vec::new();
                rows = Vec::new();
                assert(fields.deep_view() =~= Seq::empty());
                assert(rows.deep_view() =~= Seq::empty());
                let ghost before = out.deep_view();
                out.push(ResponseUnit::ExecutionTag { tag: tag.clone(), row_count: *count });
                assert(out.deep_view() =~= before.push(
                    ResponseUnitView::ExecutionTag { tag: tag@, row_count: *count },
                ));
            },
            QueryResultEvent::Error { message, class } => {
                let ghost before = out.deep_view();
                let severity = relay_severity(*class);
                out.push(ResponseUnit::ErrorNotice { severity, message: message.clone() });
                assert(out.deep_view() =~= before.push(
                    ResponseUnitView::ErrorNotice { severity, message: message@ },
                ));
                return Ok(out);
            },
        }
        i += 1;
    }
    if rows.len() != 0 {
        return Err(TranslationError::UnterminatedRows);
    }
    Ok(out)
}

} // verus!
