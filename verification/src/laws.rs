//! What holds of the library as a whole, proved from the definitions that
//! its contracts use.

use crate::feed::{outcome, outputs_of, skipped_of};
use crate::diagnostic::{DiagnosticView, Stream};
use crate::hotel::{hotel_diagnostics, hotel_of_line, hotels_of_lines, HotelView};
use crate::input::{input_of, ColumnsView};
use crate::diagnostic::ReasonView;
use crate::output::{output_of, price_text, OutputView};
use crate::delimited::csv_line;
use crate::output::header_row;
use crate::pipeline::run_report;
use crate::report::{joined, report_lines, report_of, unwritten, REPORT_DELIMITER};
use crate::room::{room_of_row, rooms_of_rows, RoomKeyView};
use vstd::prelude::*;

verus! {

/// A record that can be read, whose hotel and room name are both in the
/// tables, makes exactly one row. In that row check-out is the day after
/// check-in, the occupants are adults and children together, and the price
/// is the price of the booking shared among the occupants.
pub proof fn law_resolved_booking_makes_one_row(
    columns: Option<ColumnsView>,
    record: Result<Seq<Seq<char>>, Seq<char>>,
    hotels: Map<Seq<char>, HotelView>,
    rooms: Map<RoomKeyView, Seq<char>>,
)
    requires
        input_of(columns, record) is Ok,
        hotels.contains_key(input_of(columns, record)->Ok_0.hotel_code),
        rooms.contains_key(
            RoomKeyView {
                hotel_code: input_of(columns, record)->Ok_0.hotel_code,
                source: input_of(columns, record)->Ok_0.source,
                room_code: input_of(columns, record)->Ok_0.room_code,
            },
        ),
    ensures
        outputs_of(columns, seq![record], hotels, rooms).len() == 1,
        skipped_of(columns, seq![record], hotels, rooms).len() == 0,
        outputs_of(columns, seq![record], hotels, rooms)[0] == output_of(
            input_of(columns, record)->Ok_0,
            hotels[input_of(columns, record)->Ok_0.hotel_code],
            rooms[RoomKeyView {
                hotel_code: input_of(columns, record)->Ok_0.hotel_code,
                source: input_of(columns, record)->Ok_0.source,
                room_code: input_of(columns, record)->Ok_0.room_code,
            }],
        ),
        outputs_of(columns, seq![record], hotels, rooms)[0].checkout == input_of(
            columns,
            record,
        )->Ok_0.checkin.next(),
        outputs_of(columns, seq![record], hotels, rooms)[0].pax == input_of(
            columns,
            record,
        )->Ok_0.adults + input_of(columns, record)->Ok_0.children,
        outputs_of(columns, seq![record], hotels, rooms)[0].price == price_text(
            input_of(columns, record)->Ok_0.price,
            (input_of(columns, record)->Ok_0.adults + input_of(columns, record)->Ok_0.children) as nat,
        ),
{
    let one = seq![record];
    assert(one.drop_last() =~= Seq::<Result<Seq<Seq<char>>, Seq<char>>>::empty());
    assert(one.last() == record);
    reveal_with_fuel(outputs_of, 2);
    reveal_with_fuel(skipped_of, 2);
}

/// Every record makes either one row or one diagnostic, never both and never
/// neither.
pub proof fn law_every_record_is_accounted_for(
    columns: Option<ColumnsView>,
    records: Seq<Result<Seq<Seq<char>>, Seq<char>>>,
    hotels: Map<Seq<char>, HotelView>,
    rooms: Map<RoomKeyView, Seq<char>>,
)
    ensures
        outputs_of(columns, records, hotels, rooms).len() + skipped_of(
            columns,
            records,
            hotels,
            rooms,
        ).len() == records.len(),
    decreases records.len(),
{
    if records.len() > 0 {
        law_every_record_is_accounted_for(columns, records.drop_last(), hotels, rooms);
    }
}

/// A record whose hotel is not in the hotel table makes no row, whatever the
/// room-name table holds.
pub proof fn law_unknown_hotel_makes_no_row(
    columns: Option<ColumnsView>,
    record: Result<Seq<Seq<char>>, Seq<char>>,
    hotels: Map<Seq<char>, HotelView>,
    rooms: Map<RoomKeyView, Seq<char>>,
)
    requires
        input_of(columns, record) is Ok,
        !hotels.contains_key(input_of(columns, record)->Ok_0.hotel_code),
    ensures
        outcome(columns, record, hotels, rooms) == Err::<OutputView, ReasonView>(
            ReasonView::UnknownHotel { hotel_code: input_of(columns, record)->Ok_0.hotel_code },
        ),
        outputs_of(columns, seq![record], hotels, rooms).len() == 0,
        skipped_of(columns, seq![record], hotels, rooms).len() == 1,
{
    let one = seq![record];
    assert(one.drop_last() =~= Seq::<Result<Seq<Seq<char>>, Seq<char>>>::empty());
    assert(one.last() == record);
    reveal_with_fuel(outputs_of, 2);
    reveal_with_fuel(skipped_of, 2);
}

/// A record whose hotel is in the hotel table but whose room has no name in
/// the room-name table makes no row.
pub proof fn law_unknown_room_makes_no_row(
    columns: Option<ColumnsView>,
    record: Result<Seq<Seq<char>>, Seq<char>>,
    hotels: Map<Seq<char>, HotelView>,
    rooms: Map<RoomKeyView, Seq<char>>,
)
    requires
        input_of(columns, record) is Ok,
        hotels.contains_key(input_of(columns, record)->Ok_0.hotel_code),
        !rooms.contains_key(
            RoomKeyView {
                hotel_code: input_of(columns, record)->Ok_0.hotel_code,
                source: input_of(columns, record)->Ok_0.source,
                room_code: input_of(columns, record)->Ok_0.room_code,
            },
        ),
    ensures
        outcome(columns, record, hotels, rooms) == Err::<OutputView, ReasonView>(
            ReasonView::UnknownRoom {
                hotel_code: input_of(columns, record)->Ok_0.hotel_code,
                room_code: input_of(columns, record)->Ok_0.room_code,
            },
        ),
        outputs_of(columns, seq![record], hotels, rooms).len() == 0,
        skipped_of(columns, seq![record], hotels, rooms).len() == 1,
{
    let one = seq![record];
    assert(one.drop_last() =~= Seq::<Result<Seq<Seq<char>>, Seq<char>>>::empty());
    assert(one.last() == record);
    reveal_with_fuel(outputs_of, 2);
    reveal_with_fuel(skipped_of, 2);
}

/// Where several lines of the hotel table describe a hotel of one code, the
/// table holds what the last of them says.
pub proof fn law_last_hotel_wins(lines: Seq<Seq<u8>>, i: int)
    requires
        0 <= i < lines.len(),
        hotel_of_line(lines[i]) is Ok,
        forall|j: int|
            i < j < lines.len() && (#[trigger] hotel_of_line(lines[j])) is Ok ==> hotel_of_line(
                lines[j],
            )->Ok_0.id != hotel_of_line(lines[i])->Ok_0.id,
    ensures
        hotels_of_lines(lines).contains_key(hotel_of_line(lines[i])->Ok_0.id),
        hotels_of_lines(lines)[hotel_of_line(lines[i])->Ok_0.id] == hotel_of_line(lines[i])->Ok_0,
    decreases lines.len(),
{
    if i < lines.len() - 1 {
        let earlier = lines.drop_last();
        assert(earlier[i] == lines[i]);
        assert forall|j: int|
            i < j < earlier.len() && (#[trigger] hotel_of_line(
                earlier[j],
            )) is Ok implies hotel_of_line(earlier[j])->Ok_0.id != hotel_of_line(earlier[i])->Ok_0.id by {
            assert(earlier[j] == lines[j]);
        }
        law_last_hotel_wins(earlier, i);
        assert(lines.last() == lines[lines.len() - 1]);
    }
}

/// Where several records of the room-name table name a room of one key, the
/// table holds the name that the last of them gives.
pub proof fn law_last_room_name_wins(rows: Seq<Result<Seq<Seq<char>>, Seq<char>>>, i: int)
    requires
        0 <= i < rows.len(),
        room_of_row(rows[i]) is Ok,
        forall|j: int|
            i < j < rows.len() && (#[trigger] room_of_row(rows[j])) is Ok ==> room_of_row(
                rows[j],
            )->Ok_0.key() != room_of_row(rows[i])->Ok_0.key(),
    ensures
        rooms_of_rows(rows).contains_key(room_of_row(rows[i])->Ok_0.key()),
        rooms_of_rows(rows)[room_of_row(rows[i])->Ok_0.key()] == room_of_row(rows[i])->Ok_0.room_name,
    decreases rows.len(),
{
    if i < rows.len() - 1 {
        let earlier = rows.drop_last();
        assert(earlier[i] == rows[i]);
        assert forall|j: int|
            i < j < earlier.len() && (#[trigger] room_of_row(earlier[j])) is Ok implies room_of_row(
                earlier[j],
            )->Ok_0.key() != room_of_row(earlier[i])->Ok_0.key() by {
            assert(earlier[j] == rows[j]);
        }
        law_last_room_name_wins(earlier, i);
        assert(rows.last() == rows[rows.len() - 1]);
    }
}

/// Every diagnostic of the hotel table stands for a line that describes no
/// hotel, gives that line's position and holds the line as it stood,
/// together with what the parser said of it or the name of the member at
/// fault.
pub proof fn law_hotel_diagnostic_holds_its_line(lines: Seq<Seq<u8>>, k: int)
    requires
        0 <= k < hotel_diagnostics(lines).len(),
    ensures
        hotel_diagnostics(lines)[k].stream == Stream::Hotels,
        0 <= hotel_diagnostics(lines)[k].index < lines.len(),
        hotel_of_line(lines[hotel_diagnostics(lines)[k].index]) == Err::<HotelView, ReasonView>(
            hotel_diagnostics(lines)[k].reason,
        ),
        match hotel_diagnostics(lines)[k].reason {
            ReasonView::NotJson { line, error } => line == lines[hotel_diagnostics(lines)[k].index],
            ReasonView::BadMember { line, member } => line == lines[hotel_diagnostics(
                lines,
            )[k].index],
            _ => false,
        },
    decreases lines.len(),
{
    let earlier = hotel_diagnostics(lines.drop_last());
    if k < earlier.len() {
        law_hotel_diagnostic_holds_its_line(lines.drop_last(), k);
        let at = earlier[k].index;
        assert(lines.drop_last()[at] == lines[at]);
    }
}

/// A line that describes a hotel gives no diagnostic, and a line that
/// describes none gives exactly one, after those of the lines before it.
pub proof fn law_one_hotel_diagnostic_for_each_malformed_line(lines: Seq<Seq<u8>>, line: Seq<u8>)
    ensures
        hotel_of_line(line) is Ok ==> hotel_diagnostics(lines.push(line)) == hotel_diagnostics(
            lines,
        ),
        hotel_of_line(line) is Err ==> hotel_diagnostics(lines.push(line)) == hotel_diagnostics(
            lines,
        ).push(
            DiagnosticView {
                stream: Stream::Hotels,
                index: lines.len() as int,
                reason: hotel_of_line(line)->Err_0,
            },
        ),
{
    assert(lines.push(line).drop_last() =~= lines);
}

/// A line that describes no hotel leaves no trace in the hotel table: the
/// table is the one that the other lines describe.
pub proof fn law_malformed_hotel_line_is_skipped(lines: Seq<Seq<u8>>, i: int)
    requires
        0 <= i < lines.len(),
        hotel_of_line(lines[i]) is Err,
    ensures
        hotels_of_lines(lines.remove(i)) == hotels_of_lines(lines),
    decreases lines.len(),
{
    if i == lines.len() - 1 {
        assert(lines.remove(i) =~= lines.drop_last());
    } else {
        assert(lines.remove(i).drop_last() =~= lines.drop_last().remove(i));
        assert(lines.remove(i).last() == lines.last());
        law_malformed_hotel_line_is_skipped(lines.drop_last(), i);
    }
}

/// A record that describes no room name leaves no trace in the room-name
/// table: the table is the one that the other records describe.
pub proof fn law_malformed_room_record_is_skipped(rows: Seq<Result<Seq<Seq<char>>, Seq<char>>>, i: int)
    requires
        0 <= i < rows.len(),
        room_of_row(rows[i]) is Err,
    ensures
        rooms_of_rows(rows.remove(i)) == rooms_of_rows(rows),
    decreases rows.len(),
{
    if i == rows.len() - 1 {
        assert(rows.remove(i) =~= rows.drop_last());
    } else {
        assert(rows.remove(i).drop_last() =~= rows.drop_last().remove(i));
        assert(rows.remove(i).last() == rows.last());
        law_malformed_room_record_is_skipped(rows.drop_last(), i);
    }
}

/// A record of four fields is kept whatever stands before it: after a first
/// record that describes no room name, the table holds the second record's
/// name under its key and nothing else.
pub proof fn law_room_record_after_a_malformed_one_is_kept(
    first: Result<Seq<Seq<char>>, Seq<char>>,
    fields: Seq<Seq<char>>,
)
    requires
        room_of_row(first) is Err,
        fields.len() == 4,
    ensures
        rooms_of_rows(seq![first, Ok(fields)]) == Map::<RoomKeyView, Seq<char>>::empty().insert(
            RoomKeyView { hotel_code: fields[0], source: fields[1], room_code: fields[3] },
            fields[2],
        ),
{
    let rows = seq![first, Ok::<Seq<Seq<char>>, Seq<char>>(fields)];
    assert(rows.drop_last() =~= seq![first]);
    assert(seq![first].drop_last() =~= Seq::<Result<Seq<Seq<char>>, Seq<char>>>::empty());
    reveal_with_fuel(rooms_of_rows, 3);
}

/// The rows of a feed are the rows of its first part followed by the rows of
/// its second part: every record is judged by itself, and the rows keep the
/// order of their records.
pub proof fn law_rows_keep_order(
    columns: Option<ColumnsView>,
    first: Seq<Result<Seq<Seq<char>>, Seq<char>>>,
    second: Seq<Result<Seq<Seq<char>>, Seq<char>>>,
    hotels: Map<Seq<char>, HotelView>,
    rooms: Map<RoomKeyView, Seq<char>>,
)
    ensures
        outputs_of(columns, first + second, hotels, rooms) == outputs_of(
            columns,
            first,
            hotels,
            rooms,
        ) + outputs_of(columns, second, hotels, rooms),
    decreases second.len(),
{
    if second.len() == 0 {
        assert(first + second =~= first);
        assert(outputs_of(columns, first, hotels, rooms) + Seq::empty() =~= outputs_of(
            columns,
            first,
            hotels,
            rooms,
        ));
    } else {
        assert((first + second).drop_last() =~= first + second.drop_last());
        assert((first + second).last() == second.last());
        law_rows_keep_order(columns, first, second.drop_last(), hotels, rooms);
        let a = outputs_of(columns, first, hotels, rooms);
        let b = outputs_of(columns, second.drop_last(), hotels, rooms);
        match outcome(columns, second.last(), hotels, rooms) {
            Ok(output) => {
                assert((a + b).push(output) =~= a + b.push(output));
            },
            Err(_) => {},
        }
    }
}

/// A record that makes no row leaves no trace among the rows: they are the
/// rows that the other records make, in the same order.
pub proof fn law_skipped_record_leaves_rows_unchanged(
    columns: Option<ColumnsView>,
    records: Seq<Result<Seq<Seq<char>>, Seq<char>>>,
    i: int,
    hotels: Map<Seq<char>, HotelView>,
    rooms: Map<RoomKeyView, Seq<char>>,
)
    requires
        0 <= i < records.len(),
        outcome(columns, records[i], hotels, rooms) is Err,
    ensures
        outputs_of(columns, records.remove(i), hotels, rooms) == outputs_of(
            columns,
            records,
            hotels,
            rooms,
        ),
    decreases records.len(),
{
    if i == records.len() - 1 {
        assert(records.remove(i) =~= records.drop_last());
    } else {
        assert(records.remove(i).drop_last() =~= records.drop_last().remove(i));
        assert(records.remove(i).last() == records.last());
        law_skipped_record_leaves_rows_unchanged(columns, records.drop_last(), i, hotels, rooms);
    }
}

/// The lines meant for a report are the header line and then one line for
/// each row, in the order of the rows. The header and every row have
/// fourteen fields.
pub proof fn law_report_is_header_then_rows(rows: Seq<OutputView>)
    ensures
        report_lines(rows).len() == rows.len() + 1,
        report_lines(rows)[0] == csv_line(header_row(), REPORT_DELIMITER),
        forall|i: int|
            0 <= i < rows.len() ==> #[trigger] report_lines(rows)[i + 1] == csv_line(
                rows[i].row(),
                REPORT_DELIMITER,
            ),
        header_row().len() == 14,
        forall|i: int| 0 <= i < rows.len() ==> (#[trigger] rows[i]).row().len() == 14,
{
}

/// The report of no rows is the header line and nothing else.
pub proof fn law_report_of_no_rows_is_the_header()
    requires
        csv_line(header_row(), REPORT_DELIMITER) is Ok,
    ensures
        report_of(Seq::empty()) == csv_line(header_row(), REPORT_DELIMITER)->Ok_0,
        unwritten(report_lines(Seq::empty())).len() == 0,
{
    let lines = report_lines(Seq::empty());
    assert(lines =~= seq![csv_line(header_row(), REPORT_DELIMITER)]);
    assert(lines.drop_last() =~= Seq::empty());
    reveal_with_fuel(joined, 2);
    reveal_with_fuel(unwritten, 2);
    assert(Seq::<u8>::empty() + lines.last()->Ok_0 =~= lines.last()->Ok_0);
}

/// The written lines stand in the report one after the other, in their
/// order: the report of two runs of lines is the report of the first
/// followed by the report of the second.
pub proof fn law_lines_keep_order(
    first: Seq<Result<Seq<u8>, Seq<char>>>,
    second: Seq<Result<Seq<u8>, Seq<char>>>,
)
    ensures
        joined(first + second) == joined(first) + joined(second),
    decreases second.len(),
{
    if second.len() == 0 {
        assert(first + second =~= first);
        assert(joined(first) + Seq::<u8>::empty() =~= joined(first));
    } else {
        assert((first + second).drop_last() =~= first + second.drop_last());
        assert((first + second).last() == second.last());
        law_lines_keep_order(first, second.drop_last());
        match second.last() {
            Ok(line) => {
                assert((joined(first) + joined(second.drop_last())) + line =~= joined(first) + (
                joined(second.drop_last()) + line));
            },
            Err(_) => {},
        }
    }
}

/// Two runs on the same three streams give the same report, byte for byte.
pub proof fn law_same_streams_same_report(
    input: Seq<u8>,
    hotels: Seq<u8>,
    rooms: Seq<u8>,
    input_again: Seq<u8>,
    hotels_again: Seq<u8>,
    rooms_again: Seq<u8>,
)
    requires
        input == input_again,
        hotels == hotels_again,
        rooms == rooms_again,
    ensures
        run_report(input, hotels, rooms) == run_report(input_again, hotels_again, rooms_again),
{
}

} // verus!
