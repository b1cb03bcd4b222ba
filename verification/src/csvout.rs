//! CSV rendering of rows, through the `csv` crate's writer.

use vstd::prelude::*;

use crate::record::{header_cells, header_row, Record};

verus! {

/// The exact byte encoding the `csv` writer, with its default
/// configuration, gives one row of cells.
pub uninterp spec fn csv_row_of(cells: Seq<Seq<u8>>) -> Seq<u8>;

/// True when a cell needs no quoting: it holds no quote, comma, carriage
/// return or line feed.
pub open spec fn plain_cell(c: Seq<u8>) -> bool {
    forall|i: int| 0 <= i < c.len() ==> c[i] != 0x22 && c[i] != 0x2c && c[i] != 0x0d
        && c[i] != 0x0a
}

/// True when every cell of a row of at least two cells is plain, so the
/// row's encoding is the plain join below.
pub open spec fn plain_row(cells: Seq<Seq<u8>>) -> bool {
    cells.len() >= 2 && forall|i: int| 0 <= i < cells.len() ==> plain_cell(#[trigger] cells[i])
}

/// Cells joined by commas and terminated by a line feed.
pub open spec fn joined_row(cells: Seq<Seq<u8>>) -> Seq<u8>
    decreases cells.len(),
{
    if cells.len() == 0 {
        seq![0x0a]
    } else if cells.len() == 1 {
        cells[0] + seq![0x0a]
    } else {
        cells[0] + seq![0x2c] + joined_row(cells.skip(1))
    }
}

/// Relies on csv::Writer::write_record over a fresh in-memory writer with
/// the default builder: fields separated by commas, the record terminated
/// by a line feed, and a field quoted only when it holds a quote, comma,
/// carriage return or line feed (QuoteStyle::Necessary); a row of two or
/// more plain cells is therefore the plain comma join.
#[verifier::external_body]
fn csv_encode_row(cells: &Vec<Vec<u8>>) -> (r: Vec<u8>)
    ensures
        r@ == csv_row_of(cells.deep_view()),
        plain_row(cells.deep_view()) ==> r@ == joined_row(cells.deep_view()),
{
    let mut w = csv::WriterBuilder::new().from_writer(Vec::new());
    let _ = w.write_record(cells.iter());
    w.into_inner().unwrap_or_default()
}

/// Renders a record as the CSV line the stream stores for it.
pub fn encode_record(rec: &Record) -> (r: Vec<u8>)
    ensures
        r@ == csv_row_of(rec.cells()),
        plain_row(rec.cells()) ==> r@ == joined_row(rec.cells()),
{
    let row = rec.row();
    csv_encode_row(&row)
}

/// Renders the header line written once at stream creation.
pub fn encode_header() -> (r: Vec<u8>)
    ensures
        r@ == csv_row_of(header_cells()),
        r@ == joined_row(header_cells()),
{
    let row = header_row();
    let r = csv_encode_row(&row);
    proof {
        assert(plain_row(header_cells())) by {
            assert forall|i: int| 0 <= i < header_cells().len() implies plain_cell(
                #[trigger] header_cells()[i],
            ) by {
                let c = header_cells()[i];
                assert forall|j: int| 0 <= j < c.len() implies c[j] != 0x22 && c[j] != 0x2c
                    && c[j] != 0x0d && c[j] != 0x0a by {
                    if i == 0 {
                        assert(c == header_cells()[0]);
                    }
                }
            }
        }
    }
    r
}

} // verus!
