//! Rows in the form the client receives them: every value as a length-prefixed
//! text field, built with pgwire's `DataRowEncoder`.

use pgwire::api::results::{DataRowEncoder, FieldFormat};
use pgwire::api::Type;
use pgwire::types::format::FormatOptions;
use std::sync::Arc;
use vstd::prelude::*;
use vstd::utf8::encode_utf8;

verus! {

/// The largest number of fields a data row can announce.
pub const MAX_FIELDS: usize = 0x7fff;

/// The largest number of bytes a single field can announce.
pub const MAX_FIELD_BYTES: usize = 0x7fff_ffff;

/// One row of a result set, encoded for the wire: the number of fields and
/// the fields themselves, one after the other.
#[derive(Debug, Clone, PartialEq, Eq)]
pub struct EncodedRow {
    pub field_count: i16,
    pub data: Vec<u8>,
}

/// What an [`EncodedRow`] stands for in contracts.
pub struct EncodedRowView {
    pub field_count: int,
    pub data: Seq<u8>,
}

impl View for EncodedRow {
    type V = EncodedRowView;

    open spec fn view(&self) -> EncodedRowView {
        EncodedRowView { field_count: self.field_count as int, data: self.data@ }
    }
}

impl DeepView for EncodedRow {
    type V = EncodedRowView;

    open spec fn deep_view(&self) -> EncodedRowView {
        self@
    }
}

/// The four bytes of `n` as a big-endian 32-bit integer, for `0 <= n < 2^31`.
pub open spec fn be32(n: int) -> Seq<u8> {
    seq![
        ((n / 0x100_0000) % 0x100) as u8,
        ((n / 0x1_0000) % 0x100) as u8,
        ((n / 0x100) % 0x100) as u8,
        (n % 0x100) as u8,
    ]
}

/// The wire form of one value. A null is the length -1 and nothing else, so
/// it can never be taken for the empty text, which is the length 0.
pub open spec fn cell_wire(cell: Option<Seq<char>>) -> Seq<u8> {
    match cell {
        None => seq![0xffu8, 0xffu8, 0xffu8, 0xffu8],
        Some(text) => be32(encode_utf8(text).len() as int) + encode_utf8(text),
    }
}

/// The wire form of a row: its values' wire forms, in order.
pub open spec fn row_wire(cells: Seq<Option<Seq<char>>>) -> Seq<u8>
    decreases cells.len(),
{
    if cells.len() == 0 {
        Seq::empty()
    } else {
        row_wire(cells.drop_last()) + cell_wire(cells.last())
    }
}

/// Whether a value's length fits the field's 32-bit length prefix.
pub open spec fn cell_fits(cell: Option<Seq<char>>) -> bool {
    match cell {
        None => true,
        Some(text) => encode_utf8(text).len() <= MAX_FIELD_BYTES,
    }
}

/// Whether a row can be put on the wire: no more fields than the 16-bit
/// field count can announce, and each value within its length prefix.
pub open spec fn row_fits(cells: Seq<Option<Seq<char>>>) -> bool {
    &&& cells.len() <= MAX_FIELDS
    &&& forall|i: int| 0 <= i < cells.len() ==> cell_fits(#[trigger] cells[i])
}

/// The encoded row that `cells` make, when they fit.
pub open spec fn encoded(cells: Seq<Option<Seq<char>>>) -> EncodedRowView {
    EncodedRowView { field_count: cells.len() as int, data: row_wire(cells) }
}

/// pgwire's `DataRowEncoder`, taken as it is: what it holds is known only
/// through [`encoder_bytes`] and [`encoder_fields`].
#[verifier::external_type_specification]
#[verifier::external_body]
pub struct ExDataRowEncoder(pgwire::api::results::DataRowEncoder);

/// The bytes an encoder has written for the row it is building.
pub uninterp spec fn encoder_bytes(encoder: DataRowEncoder) -> Seq<u8>;

/// The number of fields an encoder has written for the row it is building.
pub uninterp spec fn encoder_fields(encoder: DataRowEncoder) -> nat;

/// `DataRowEncoder::new`, with an empty schema: a new encoder has written
/// nothing. (The schema is only read by `encode_field`, which is not used
/// here.)
#[verifier::external_body]
pub(crate) fn encoder_new() -> (encoder: DataRowEncoder)
    ensures
        encoder_bytes(encoder) == Seq::<u8>::empty(),
        encoder_fields(encoder) == 0,
{
    DataRowEncoder::new(Arc::new(Vec::new()))
}

/// `DataRowEncoder::encode_field_with_type_and_format`, for a nullable text
/// value of type VARCHAR in the text format. It appends a four-byte length
/// and the text's bytes as they are, or the length -1 alone for a null, and
/// counts one field more. For such a value the call has no way to fail, so
/// its `Ok(())` is dropped. The length is cast to 32 bits, hence the bound.
#[verifier::external_body]
fn encoder_put_text(encoder: &mut DataRowEncoder, cell: &Option<String>)
    requires
        cell_fits(cell.deep_view()),
    ensures
        encoder_bytes(*final(encoder)) == encoder_bytes(*old(encoder)) + cell_wire(
            cell.deep_view(),
        ),
        encoder_fields(*final(encoder)) == encoder_fields(*old(encoder)) + 1,
{
    let _ = encoder.encode_field_with_type_and_format(
        cell,
        &Type::VARCHAR,
        FieldFormat::Text,
        &FormatOptions::default(),
    );
}

/// `DataRowEncoder::take_row`: hands out what was written as a row and
/// leaves the encoder empty. The field count is cast to 16 bits, hence the
/// bound.
#[verifier::external_body]
fn encoder_take_row(encoder: &mut DataRowEncoder) -> (row: EncodedRow)
    requires
        encoder_fields(*old(encoder)) <= MAX_FIELDS,
    ensures
        row@.data == encoder_bytes(*old(encoder)),
        row@.field_count == encoder_fields(*old(encoder)),
        encoder_bytes(*final(encoder)) == Seq::<u8>::empty(),
        encoder_fields(*final(encoder)) == 0,
{
    let row = encoder.take_row();
    EncodedRow { field_count: row.field_count, data: row.data.to_vec() }
}

/// Whether every value of `cells` fits its length prefix.
fn cells_fit(cells: &Vec<Option<String>>) -> (fit: bool)
    ensures
        fit == (forall|i: int|
            0 <= i < cells.len() ==> cell_fits(#[trigger] cells.deep_view()[i])),
{
    let mut i: usize = 0;
    while i < cells.len()
        invariant
            i <= cells.len(),
            forall|j: int| 0 <= j < i ==> cell_fits(#[trigger] cells.deep_view()[j]),
        decreases cells.len() - i,
    {
        let fits = match &cells[i] {
            None => true,
            Some(text) => text.as_str().as_bytes().len() <= MAX_FIELD_BYTES,
        };
        assert(fits == cell_fits(cells.deep_view()[i as int]));
        if !fits {
            return false;
        }
        i += 1;
    }
    true
}

/// Encodes one row with an encoder that holds nothing, and leaves it so.
/// Returns `None`, and encodes nothing, for a row that does not fit.
pub(crate) fn encode_with(encoder: &mut DataRowEncoder, cells: &Vec<Option<String>>) -> (row:
    Option<EncodedRow>)
    requires
        encoder_bytes(*old(encoder)) == Seq::<u8>::empty(),
        encoder_fields(*old(encoder)) == 0,
    ensures
        encoder_bytes(*final(encoder)) == Seq::<u8>::empty(),
        encoder_fields(*final(encoder)) == 0,
        row is Some <==> row_fits(cells.deep_view()),
        row matches Some(r) ==> r@ == encoded(cells.deep_view()),
{
    if cells.len() > MAX_FIELDS || !cells_fit(cells) {
        return None;
    }
    let ghost all = cells.deep_view();
    let mut i: usize = 0;
    while i < cells.len()
        invariant
            i <= cells.len(),
            cells.len() <= MAX_FIELDS,
            all == cells.deep_view(),
            row_fits(all),
            encoder_fields(*encoder) == i,
            encoder_bytes(*encoder) == row_wire(all.take(i as int)),
        decreases cells.len() - i,
    {
        assert(cells[i as int].deep_view() == all[i as int]);
        encoder_put_text(encoder, &cells[i]);
        proof {
            let next = all.take(i + 1);
            assert(next.drop_last() =~= all.take(i as int));
        }
        i += 1;
    }
    assert(all.take(cells.len() as int) =~= all);
    let row = encoder_take_row(encoder);
    Some(row)
}

/// Encodes one row: the number of its values and their wire forms in order.
/// Returns `None` exactly for a row that the wire format cannot carry.
pub fn encode_row(cells: &Vec<Option<String>>) -> (row: Option<EncodedRow>)
    ensures
        row is Some <==> row_fits(cells.deep_view()),
        row matches Some(r) ==> r@ == encoded(cells.deep_view()),
{
    let mut encoder = encoder_new();
    encode_with(&mut encoder, cells)
}

} // verus!
