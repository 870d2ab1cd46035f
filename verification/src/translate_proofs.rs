//! What holds of every translation: the shape of the answer to a statement
//! with rows and to one without, what an error cuts off, and that a row set
//! never mixes rows of different widths.

use crate::encoding::{encoded, row_fits, EncodedRowView};
use crate::translate::{
    described, severity_of, translate_from, translation, ErrorClass, FieldDescriptorView,
    QueryResultEventView, ResponseUnitView, TranslationError,
};
use vstd::prelude::*;

verus! {

/// Whether `events` are rows that all have `width` values and fit the wire.
pub open spec fn uniform_rows(events: Seq<QueryResultEventView>, width: nat) -> bool {
    forall|i: int|
        0 <= i < events.len() ==> {
            &&& #[trigger] events[i] is TypedRow
            &&& events[i]->values.len() == width
            &&& row_fits(events[i]->values)
        }
}

/// Whether `events` are the rows of one statement with `width` columns, the
/// first of them carrying the metadata of those columns.
pub open spec fn rows_of_statement(events: Seq<QueryResultEventView>, width: nat) -> bool {
    &&& width > 0
    &&& events.len() > 0
    &&& uniform_rows(events, width)
    &&& events[0]->columns.len() == width
}

/// The encoded rows that the rows `events` make, in order.
pub open spec fn encoded_rows(events: Seq<QueryResultEventView>) -> Seq<EncodedRowView> {
    Seq::new(events.len(), |i: int| encoded(events[i]->values))
}

/// Whether `events` are statements that all came to their completion: no
/// error among them, and a command completion at the end.
pub open spec fn complete_statements(events: Seq<QueryResultEventView>) -> bool {
    &&& forall|i: int| 0 <= i < events.len() ==> !(#[trigger] events[i] is Error)
    &&& events.len() > 0 ==> events.last() is CommandComplete
}

/// Whether a unit, if it is a row set, has fields, has rows, and has only
/// rows with as many fields as it describes.
pub open spec fn uniform_row_set(unit: ResponseUnitView) -> bool {
    unit matches ResponseUnitView::RowSet { fields, rows } ==> {
        &&& fields.len() > 0
        &&& rows.len() > 0
        &&& forall|j: int| 0 <= j < rows.len() ==> (#[trigger] rows[j]).field_count == fields.len()
    }
}

/// The tag and row count of every command completion in `events`, in order,
/// up to the first error.
pub open spec fn completions(events: Seq<QueryResultEventView>) -> Seq<(Seq<char>, Option<u64>)>
    decreases events.len(),
{
    if events.len() == 0 {
        Seq::empty()
    } else {
        match events.first() {
            QueryResultEventView::TypedRow { .. } => completions(events.drop_first()),
            QueryResultEventView::CommandComplete { tag, row_count } => seq![(tag, row_count)]
                + completions(events.drop_first()),
            QueryResultEventView::Error { .. } => Seq::empty(),
        }
    }
}

/// The tag and row count of every execution tag in `units`, in order.
pub open spec fn execution_tags(units: Seq<ResponseUnitView>) -> Seq<(Seq<char>, Option<u64>)>
    decreases units.len(),
{
    if units.len() == 0 {
        Seq::empty()
    } else {
        execution_tags(units.drop_last()) + match units.last() {
            ResponseUnitView::ExecutionTag { tag, row_count } => seq![(tag, row_count)],
            _ => Seq::empty(),
        }
    }
}

proof fn lemma_tags_of_push(units: Seq<ResponseUnitView>, unit: ResponseUnitView)
    ensures
        execution_tags(units.push(unit)) == execution_tags(units) + match unit {
            ResponseUnitView::ExecutionTag { tag, row_count } => seq![(tag, row_count)],
            _ => Seq::empty(),
        },
{
    assert(units.push(unit).drop_last() =~= units);
}

proof fn lemma_tags_from(
    events: Seq<QueryResultEventView>,
    fields: Seq<FieldDescriptorView>,
    buffered: Seq<EncodedRowView>,
    out: Seq<ResponseUnitView>,
    units: Seq<ResponseUnitView>,
)
    requires
        translate_from(events, fields, buffered, out) == Ok::<_, TranslationError>(units),
    ensures
        execution_tags(units) == execution_tags(out) + completions(events),
    decreases events.len(),
{
    if events.len() > 0 {
        let later = events.drop_first();
        match events.first() {
            QueryResultEventView::TypedRow { columns, values } => {
                let chosen = if fields.len() == 0 {
                    described(columns)
                } else {
                    fields
                };
                lemma_tags_from(later, chosen, buffered.push(encoded(values)), out, units);
            },
            QueryResultEventView::CommandComplete { tag, row_count } => {
                let set = ResponseUnitView::RowSet { fields, rows: buffered };
                let flushed = if buffered.len() == 0 {
                    out
                } else {
                    out.push(set)
                };
                let tagged = flushed.push(ResponseUnitView::ExecutionTag { tag, row_count });
                lemma_tags_of_push(out, set);
                lemma_tags_of_push(flushed, ResponseUnitView::ExecutionTag { tag, row_count });
                lemma_tags_from(later, Seq::empty(), Seq::empty(), tagged, units);
            },
            QueryResultEventView::Error { message, class } => {
                lemma_tags_of_push(
                    out,
                    ResponseUnitView::ErrorNotice { severity: severity_of(class), message },
                );
            },
        }
    }
}

proof fn lemma_rows_join_buffer(
    events: Seq<QueryResultEventView>,
    width: nat,
    fields: Seq<FieldDescriptorView>,
    buffered: Seq<EncodedRowView>,
    out: Seq<ResponseUnitView>,
    tail: Seq<QueryResultEventView>,
)
    requires
        width > 0,
        uniform_rows(events, width),
        fields.len() == width || (fields.len() == 0 && events.len() > 0
            && events[0]->columns.len() == width),
    ensures
        translate_from(events + tail, fields, buffered, out) == translate_from(
            tail,
            if fields.len() == 0 {
                described(events[0]->columns)
            } else {
                fields
            },
            buffered + encoded_rows(events),
            out,
        ),
    decreases events.len(),
{
    if events.len() > 0 {
        let first = events[0];
        let later = events.drop_first();
        let chosen = if fields.len() == 0 {
            described(first->columns)
        } else {
            fields
        };
        assert((events + tail).drop_first() =~= later + tail);
        lemma_rows_join_buffer(
            later,
            width,
            chosen,
            buffered.push(encoded(first->values)),
            out,
            tail,
        );
        assert(buffered.push(encoded(first->values)) + encoded_rows(later) =~= buffered
            + encoded_rows(events));
    }
}

proof fn lemma_statements_then(
    head: Seq<QueryResultEventView>,
    fields: Seq<FieldDescriptorView>,
    buffered: Seq<EncodedRowView>,
    out: Seq<ResponseUnitView>,
    units: Seq<ResponseUnitView>,
    tail: Seq<QueryResultEventView>,
)
    requires
        head.len() > 0,
        complete_statements(head),
        translate_from(head, fields, buffered, out) == Ok::<_, TranslationError>(units),
    ensures
        translate_from(head + tail, fields, buffered, out) == translate_from(
            tail,
            Seq::empty(),
            Seq::empty(),
            units,
        ),
    decreases head.len(),
{
    let later = head.drop_first();
    assert((head + tail).drop_first() =~= later + tail);
    match head.first() {
        QueryResultEventView::TypedRow { columns, values } => {
            let chosen = if fields.len() == 0 {
                described(columns)
            } else {
                fields
            };
            lemma_statements_then(
                later,
                chosen,
                buffered.push(encoded(values)),
                out,
                units,
                tail,
            );
        },
        QueryResultEventView::CommandComplete { tag, row_count: count } => {
            let flushed = if buffered.len() == 0 {
                out
            } else {
                out.push(ResponseUnitView::RowSet { fields, rows: buffered })
            };
            let tagged = flushed.push(ResponseUnitView::ExecutionTag { tag, row_count: count });
            if later.len() > 0 {
                lemma_statements_then(later, Seq::empty(), Seq::empty(), tagged, units, tail);
            }
        },
        QueryResultEventView::Error { message, class } => {},
    }
}

proof fn lemma_uniform_from(
    events: Seq<QueryResultEventView>,
    fields: Seq<FieldDescriptorView>,
    buffered: Seq<EncodedRowView>,
    out: Seq<ResponseUnitView>,
    units: Seq<ResponseUnitView>,
)
    requires
        translate_from(events, fields, buffered, out) == Ok::<_, TranslationError>(units),
        buffered.len() > 0 ==> fields.len() > 0,
        forall|j: int|
            0 <= j < buffered.len() ==> (#[trigger] buffered[j]).field_count == fields.len(),
        forall|i: int| 0 <= i < out.len() ==> uniform_row_set(#[trigger] out[i]),
    ensures
        forall|i: int| 0 <= i < units.len() ==> uniform_row_set(#[trigger] units[i]),
    decreases events.len(),
{
    if events.len() > 0 {
        let later = events.drop_first();
        match events.first() {
            QueryResultEventView::TypedRow { columns, values } => {
                let chosen = if fields.len() == 0 {
                    described(columns)
                } else {
                    fields
                };
                lemma_uniform_from(later, chosen, buffered.push(encoded(values)), out, units);
            },
            QueryResultEventView::CommandComplete { tag, row_count: count } => {
                let flushed = if buffered.len() == 0 {
                    out
                } else {
                    out.push(ResponseUnitView::RowSet { fields, rows: buffered })
                };
                let tagged = flushed.push(ResponseUnitView::ExecutionTag { tag, row_count: count });
                lemma_uniform_from(later, Seq::empty(), Seq::empty(), tagged, units);
            },
            QueryResultEventView::Error { message, class } => {},
        }
    }
}

/// A statement that returns N rows of M columns is answered by exactly one
/// row set, with M field descriptors named after the first row's columns and
/// the N rows encoded in order, followed by exactly one execution tag.
pub proof fn lemma_statement_with_rows(
    rows: Seq<QueryResultEventView>,
    width: nat,
    tag: Seq<char>,
    count: Option<u64>,
)
    requires
        rows_of_statement(rows, width),
    ensures
        translation(rows.push(QueryResultEventView::CommandComplete { tag, row_count: count }))
            == Ok::<_, TranslationError>(
            seq![
                ResponseUnitView::RowSet {
                    fields: described(rows[0]->columns),
                    rows: encoded_rows(rows),
                },
                ResponseUnitView::ExecutionTag { tag, row_count: count },
            ],
        ),
        described(rows[0]->columns).len() == width,
        encoded_rows(rows).len() == rows.len(),
{
    let last = QueryResultEventView::CommandComplete { tag, row_count: count };
    let end = seq![last];
    assert(rows.push(last) =~= rows + end);
    lemma_rows_join_buffer(rows, width, Seq::empty(), Seq::empty(), Seq::empty(), end);
    reveal_with_fuel(translate_from, 3);
    assert(Seq::<ResponseUnitView>::empty().push(
        ResponseUnitView::RowSet { fields: described(rows[0]->columns), rows: encoded_rows(rows) },
    ).push(ResponseUnitView::ExecutionTag { tag, row_count: count }) =~= seq![
        ResponseUnitView::RowSet {
            fields: described(rows[0]->columns),
            rows: encoded_rows(rows),
        },
        ResponseUnitView::ExecutionTag { tag, row_count: count },
    ]);
}

/// A statement that returns no row is answered by exactly one execution tag
/// and by no row set.
pub proof fn lemma_statement_without_rows(tag: Seq<char>, count: Option<u64>)
    ensures
        translation(seq![QueryResultEventView::CommandComplete { tag, row_count: count }]) == Ok::<
            _,
            TranslationError,
        >(seq![ResponseUnitView::ExecutionTag { tag, row_count: count }]),
{
    reveal_with_fuel(translate_from, 3);
}

/// When an error follows statements that completed, the answer is the units
/// of those statements and then one error notice. The rows that the failed
/// statement had delivered before the error leave no unit, and nothing that
/// comes after the error is looked at.
pub proof fn lemma_error_cuts_translation(
    done: Seq<QueryResultEventView>,
    units: Seq<ResponseUnitView>,
    partial: Seq<QueryResultEventView>,
    width: nat,
    message: Seq<char>,
    class: ErrorClass,
    rest: Seq<QueryResultEventView>,
)
    requires
        complete_statements(done),
        translation(done) == Ok::<_, TranslationError>(units),
        partial.len() == 0 || rows_of_statement(partial, width),
    ensures
        translation(done + partial + seq![QueryResultEventView::Error { message, class }] + rest)
            == Ok::<_, TranslationError>(
            units.push(ResponseUnitView::ErrorNotice { severity: severity_of(class), message }),
        ),
{
    let failure = seq![QueryResultEventView::Error { message, class }] + rest;
    assert(done + partial + seq![QueryResultEventView::Error { message, class }] + rest =~= done
        + (partial + failure));
    if done.len() > 0 {
        lemma_statements_then(
            done,
            Seq::empty(),
            Seq::empty(),
            Seq::empty(),
            units,
            partial + failure,
        );
    }
    if partial.len() > 0 {
        lemma_rows_join_buffer(partial, width, Seq::empty(), Seq::empty(), units, failure);
    }
}

/// Every row set of a translation has fields, has rows, and holds only rows
/// with as many fields as it describes: the descriptors of a statement's
/// first row are those of all its rows.
pub proof fn lemma_row_sets_are_uniform(
    events: Seq<QueryResultEventView>,
    units: Seq<ResponseUnitView>,
)
    requires
        translation(events) == Ok::<_, TranslationError>(units),
    ensures
        forall|i: int| 0 <= i < units.len() ==> uniform_row_set(#[trigger] units[i]),
{
    lemma_uniform_from(events, Seq::empty(), Seq::empty(), Seq::empty(), units);
}

/// The execution tags of a translation are the command completions that
/// upstream reported before any error: one for each, in the same order, with
/// the same tag and the same row count, none made up and none left out.
pub proof fn lemma_tags_follow_completions(
    events: Seq<QueryResultEventView>,
    units: Seq<ResponseUnitView>,
)
    requires
        translation(events) == Ok::<_, TranslationError>(units),
    ensures
        execution_tags(units) == completions(events),
{
    lemma_tags_from(events, Seq::empty(), Seq::empty(), Seq::empty(), units);
}

} // verus!
