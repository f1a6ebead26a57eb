//! The pass over the booking feed: every record after the header is read,
//! joined with the two tables and turned into a row, or left out and
//! reported.

use crate::delimited::{csv_rows, read_rows, rows_view};
use crate::diagnostic::{diagnostics_view, Diagnostic, DiagnosticView, ReasonView, Stream};
use crate::hotel::{HotelTable, HotelView};
use crate::input::{columns_of, columns_view, input_of, Columns, ColumnsView, Input};
use crate::output::{enrich, enriched, Output, OutputView};
use crate::room::{RoomKeyView, RoomTable};
use vstd::prelude::*;

verus! {

/// The byte that separates the fields of the booking feed.
pub const INPUT_DELIMITER: u8 = 124;

/// The view of each row.
pub open spec fn outputs_view(outputs: Seq<Output>) -> Seq<OutputView> {
    outputs.map_values(|o: Output| o@)
}

/// What becomes of one record: the row that it makes, or why it makes none.
pub open spec fn outcome(
    columns: Option<ColumnsView>,
    record: Result<Seq<Seq<char>>, Seq<char>>,
    hotels: Map<Seq<char>, HotelView>,
    rooms: Map<RoomKeyView, Seq<char>>,
) -> Result<OutputView, ReasonView> {
    match input_of(columns, record) {
        Ok(input) => enriched(input, hotels, rooms),
        Err(reason) => Err(reason),
    }
}

/// The rows that a sequence of records makes: one for each record that makes
/// a row, in the order of the records.
pub open spec fn outputs_of(
    columns: Option<ColumnsView>,
    records: Seq<Result<Seq<Seq<char>>, Seq<char>>>,
    hotels: Map<Seq<char>, HotelView>,
    rooms: Map<RoomKeyView, Seq<char>>,
) -> Seq<OutputView>
    decreases records.len(),
{
    if records.len() == 0 {
        Seq::empty()
    } else {
        let earlier = outputs_of(columns, records.drop_last(), hotels, rooms);
        match outcome(columns, records.last(), hotels, rooms) {
            Ok(output) => earlier.push(output),
            Err(_) => earlier,
        }
    }
}

/// One diagnostic for each record that makes no row, in the order of the
/// records.
pub open spec fn skipped_of(
    columns: Option<ColumnsView>,
    records: Seq<Result<Seq<Seq<char>>, Seq<char>>>,
    hotels: Map<Seq<char>, HotelView>,
    rooms: Map<RoomKeyView, Seq<char>>,
) -> Seq<DiagnosticView>
    decreases records.len(),
{
    if records.len() == 0 {
        Seq::empty()
    } else {
        let earlier = skipped_of(columns, records.drop_last(), hotels, rooms);
        match outcome(columns, records.last(), hotels, rooms) {
            Ok(_) => earlier,
            Err(reason) => earlier.push(
                DiagnosticView { stream: Stream::Input, index: records.len() - 1, reason },
            ),
        }
    }
}

/// The rows that the records of a feed make, the first record being the
/// header.
pub open spec fn feed_outputs(
    rows: Seq<Result<Seq<Seq<char>>, Seq<char>>>,
    hotels: Map<Seq<char>, HotelView>,
    rooms: Map<RoomKeyView, Seq<char>>,
) -> Seq<OutputView> {
    if rows.len() == 0 {
        Seq::empty()
    } else {
        outputs_of(columns_of(rows[0]), rows.skip(1), hotels, rooms)
    }
}

/// The diagnostics for the records of a feed, the first record being the
/// header.
pub open spec fn feed_diagnostics(
    rows: Seq<Result<Seq<Seq<char>>, Seq<char>>>,
    hotels: Map<Seq<char>, HotelView>,
    rooms: Map<RoomKeyView, Seq<char>>,
) -> Seq<DiagnosticView> {
    if rows.len() == 0 {
        Seq::empty()
    } else {
        skipped_of(columns_of(rows[0]), rows.skip(1), hotels, rooms)
    }
}

/// Turns the records of a feed into rows, the first record being the header,
/// and reports the records that make no row.
pub fn process_rows(rows: &Vec<Result<Vec<String>, String>>, hotels: &HotelTable, rooms: &RoomTable) -> (r:
    (Vec<Output>, Vec<Diagnostic>))
    requires
        hotels.wf(),
        rooms.wf(),
    ensures
        outputs_view(r.0@) == feed_outputs(rows_view(rows@), hotels@, rooms@),
        diagnostics_view(r.1@) == feed_diagnostics(rows_view(rows@), hotels@, rooms@),
{
    let mut outputs: Vec<Output> = Vec::new();
    let mut diagnostics: Vec<Diagnostic> = Vec::new();
    if rows.len() == 0 {
        return (outputs, diagnostics);
    }
    let columns = Columns::resolve(&rows[0]);
    let ghost cols = columns_of(rows_view(rows@)[0]);
    let ghost records = rows_view(rows@).skip(1);
    let mut i: usize = 1;
    while i < rows.len()
        invariant
            1 <= i <= rows@.len(),
            hotels.wf(),
            rooms.wf(),
            cols == columns_view(columns),
            records == rows_view(rows@).skip(1),
            outputs_view(outputs@) == outputs_of(cols, records.take(i - 1), hotels@, rooms@),
            diagnostics_view(diagnostics@) == skipped_of(
                cols,
                records.take(i - 1),
                hotels@,
                rooms@,
            ),
        decreases rows@.len() - i,
    {
        proof {
            assert(records.take(i as int).drop_last() =~= records.take(i - 1));
        }
        let result = match Input::from_row(&columns, &rows[i]) {
            Ok(input) => enrich(input, hotels, rooms),
            Err(reason) => Err(reason),
        };
        match result {
            Ok(output) => {
                outputs.push(output);
            },
            Err(reason) => {
                let diagnostic = Diagnostic { stream: Stream::Input, index: i - 1, reason };
                diagnostics.push(diagnostic);
            },
        }
        i = i + 1;
    }
    proof {
        assert(records.take(i - 1) =~= records);
    }
    (outputs, diagnostics)
}

/// Reads the booking feed and turns its records into rows, and reports the
/// records that make no row.
pub fn process_input(data: &[u8], hotels: &HotelTable, rooms: &RoomTable) -> (r: (
    Vec<Output>,
    Vec<Diagnostic>,
))
    requires
        hotels.wf(),
        rooms.wf(),
    ensures
        outputs_view(r.0@) == feed_outputs(csv_rows(data@, INPUT_DELIMITER), hotels@, rooms@),
        diagnostics_view(r.1@) == feed_diagnostics(
            csv_rows(data@, INPUT_DELIMITER),
            hotels@,
            rooms@,
        ),
{
    let rows = read_rows(data, INPUT_DELIMITER);
    process_rows(&rows, hotels, rooms)
}

} // verus!
