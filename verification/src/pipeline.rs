//! A whole run: both tables are built first, then the feed is turned into
//! rows and the rows into the report.

use crate::delimited::csv_rows;
use crate::diagnostic::{diagnostics_view, Diagnostic, DiagnosticView};
use crate::feed::{feed_diagnostics, feed_outputs, process_input, INPUT_DELIMITER};
use crate::hotel::{hotel_diagnostics, hotels_of_lines, prepare_hotels, HotelView};
use crate::lines::lines_of;
use crate::output::OutputView;
use crate::report::{report_lines, report_of, store_output, unwritten};
use crate::room::{prepare_room_names, room_diagnostics, rooms_of_rows, RoomKeyView, ROOM_DELIMITER};
use vstd::prelude::*;

verus! {

/// The hotel table of a run.
pub open spec fn run_hotels(hotels: Seq<u8>) -> Map<Seq<char>, HotelView> {
    hotels_of_lines(lines_of(hotels))
}

/// The room-name table of a run.
pub open spec fn run_rooms(rooms: Seq<u8>) -> Map<RoomKeyView, Seq<char>> {
    rooms_of_rows(csv_rows(rooms, ROOM_DELIMITER))
}

/// The rows of a run.
pub open spec fn run_outputs(input: Seq<u8>, hotels: Seq<u8>, rooms: Seq<u8>) -> Seq<OutputView> {
    feed_outputs(csv_rows(input, INPUT_DELIMITER), run_hotels(hotels), run_rooms(rooms))
}

/// The report of a run.
pub open spec fn run_report(input: Seq<u8>, hotels: Seq<u8>, rooms: Seq<u8>) -> Seq<u8> {
    report_of(run_outputs(input, hotels, rooms))
}

/// The diagnostics of a run: those of the hotel table, of the room-name
/// table, of the feed and of the report, in this order.
pub open spec fn run_diagnostics(input: Seq<u8>, hotels: Seq<u8>, rooms: Seq<u8>) -> Seq<
    DiagnosticView,
> {
    hotel_diagnostics(lines_of(hotels)) + room_diagnostics(csv_rows(rooms, ROOM_DELIMITER))
        + feed_diagnostics(csv_rows(input, INPUT_DELIMITER), run_hotels(hotels), run_rooms(rooms))
        + unwritten(report_lines(run_outputs(input, hotels, rooms)))
}

/// Enriches the booking feed `input` with the hotel table `hotels` and the
/// room-name table `rooms`. Returns the report and the diagnostics.
pub fn run(input: &[u8], hotels: &[u8], rooms: &[u8]) -> (r: (Vec<u8>, Vec<Diagnostic>))
    ensures
        r.0@ == run_report(input@, hotels@, rooms@),
        diagnostics_view(r.1@) == run_diagnostics(input@, hotels@, rooms@),
{
    let (hotel_table, mut diagnostics) = prepare_hotels(hotels);
    let (room_table, mut room_diagnostics) = prepare_room_names(rooms);
    let (outputs, mut feed_diagnostics) = process_input(input, &hotel_table, &room_table);
    let (report, mut report_diagnostics) = store_output(&outputs);
    let ghost d0 = diagnostics@;
    let ghost d1 = room_diagnostics@;
    let ghost d2 = feed_diagnostics@;
    let ghost d3 = report_diagnostics@;
    diagnostics.append(&mut room_diagnostics);
    diagnostics.append(&mut feed_diagnostics);
    diagnostics.append(&mut report_diagnostics);
    proof {
        assert(diagnostics_view(d0 + d1 + d2 + d3) =~= diagnostics_view(d0) + diagnostics_view(d1)
            + diagnostics_view(d2) + diagnostics_view(d3));
    }
    (report, diagnostics)
}

} // verus!
