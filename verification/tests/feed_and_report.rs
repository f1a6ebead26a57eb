use booking_enrich::date::Date;
use booking_enrich::decimal::Decimal;
use booking_enrich::diagnostic::{Diagnostic, Reason, Stream};
use booking_enrich::feed::{process_input, process_rows};
use booking_enrich::hotel::{prepare_hotels, Hotel, HotelTable};
use booking_enrich::input::{Columns, Input};
use booking_enrich::output::{enrich, header, Output};
use booking_enrich::pipeline::run;
use booking_enrich::report::{assemble_report, encode_rows, store_output};
use booking_enrich::room::{prepare_room_names, RoomName, RoomTable};

const HEADER: &str = "city_code|hotel_code|room_type|room_code|meal|checkin|adults|children|price|source\n";
const REPORT_HEADER: &str = "room_type meal;room_code;source;hotel_name;city_name;city_code;hotel_category;pax;adults;children;room_name;checkin;checkout;price\n";
const HOTELS: &str = "{\"id\":\"H1\",\"name\":\"Grand\",\"category\":4.5,\"city\":\"Paris\"}\n";
const ROOMS: &str = "H1|SRC1|Double Room|101\n";

fn feed(records: &str) -> Vec<u8> {
    format!("{}{}", HEADER, records).into_bytes()
}

fn tables() -> (HotelTable, RoomTable) {
    (prepare_hotels(HOTELS.as_bytes()).0, prepare_room_names(ROOMS.as_bytes()).0)
}

fn skipped(index: usize, reason: Reason) -> Diagnostic {
    Diagnostic { stream: Stream::Input, index, reason }
}

fn booking() -> Input {
    Input {
        city_code: "PAR".to_string(),
        hotel_code: "H1".to_string(),
        room_type: "DBL".to_string(),
        room_code: "101".to_string(),
        meal: "BB".to_string(),
        checkin: Date { year: 2024, month: 6, day: 1 },
        adults: 2,
        children: 0,
        price: Decimal { negative: false, units: 10000, scale: 2 },
        source: "SRC1".to_string(),
    }
}

fn grand() -> Hotel {
    Hotel {
        id: "H1".to_string(),
        name: "Grand".to_string(),
        category: Decimal { negative: false, units: 45, scale: 1 },
        city: "Paris".to_string(),
    }
}

fn row() -> Output {
    Output {
        room_type_with_meal: "DBL BB".to_string(),
        room_code: "101".to_string(),
        source: "SRC1".to_string(),
        hotel_name: "Grand".to_string(),
        city_name: "Paris".to_string(),
        city_code: "PAR".to_string(),
        hotel_category: "4.5".to_string(),
        pax: 2,
        adults: 2,
        children: 0,
        room_name: "Double Room".to_string(),
        checkin: Date { year: 2024, month: 6, day: 1 },
        checkout: Date { year: 2024, month: 6, day: 2 },
        price: "50.00".to_string(),
    }
}

fn strings(fields: &[&str]) -> Result<Vec<String>, String> {
    Ok(fields.iter().map(|f| f.to_string()).collect())
}

fn unreadable() -> Result<Vec<String>, String> {
    Err("bad bytes".to_string())
}

fn text(bytes: Vec<u8>) -> String {
    String::from_utf8(bytes).expect("text")
}

#[test]
fn resolved_booking_makes_the_documented_row() {
    let input = feed("PAR|H1|DBL|101|BB|20240601|2|0|100.00|SRC1\n");
    let (report, diagnostics) = run(&input, HOTELS.as_bytes(), ROOMS.as_bytes());
    assert_eq!(diagnostics, vec![]);
    assert_eq!(
        text(report),
        format!(
            "{}{}",
            REPORT_HEADER,
            "DBL BB;101;SRC1;Grand;Paris;PAR;4.5;2;2;0;Double Room;2024-06-01;2024-06-02;50.00\n"
        )
    );
}

#[test]
fn booking_of_an_unknown_hotel_makes_no_row_and_names_the_hotel() {
    let input = feed("PAR|H1|DBL|101|BB|20240601|2|0|100.00|SRC1\n");
    let hotels = b"{\"id\":\"H2\",\"name\":\"Other\",\"category\":3,\"city\":\"Nice\"}\n";
    let (report, diagnostics) = run(&input, hotels, ROOMS.as_bytes());
    assert_eq!(text(report), REPORT_HEADER);
    assert_eq!(
        diagnostics,
        vec![skipped(0, Reason::UnknownHotel { hotel_code: "H1".to_string() })]
    );
}

#[test]
fn new_row_derives_checkout_pax_and_price() {
    assert_eq!(Output::new(booking(), &grand(), "Double Room".to_string()), row());
}

#[test]
fn new_row_shares_the_price_among_adults_and_children() {
    let mut input = booking();
    input.adults = 2;
    input.children = 1;
    input.checkin = Date { year: 2024, month: 12, day: 31 };
    let output = Output::new(input, &grand(), "Double Room".to_string());
    assert_eq!(output.pax, 3);
    assert_eq!(output.adults, 2);
    assert_eq!(output.children, 1);
    assert_eq!(output.price, "33.33");
    assert_eq!(output.checkout, Date { year: 2025, month: 1, day: 1 });
}

#[test]
fn new_row_counts_occupants_beyond_32_bits() {
    let mut input = booking();
    input.adults = u32::MAX;
    input.children = u32::MAX;
    let output = Output::new(input, &grand(), "Double Room".to_string());
    assert_eq!(output.pax, 8589934590);
    assert_eq!(output.price, "0.00");
}

#[test]
fn enrich_joins_both_tables() {
    let (hotels, rooms) = tables();
    assert_eq!(enrich(booking(), &hotels, &rooms), Ok(row()));
}

#[test]
fn enrich_reports_an_unknown_hotel_whatever_the_rooms_hold() {
    let (_, rooms) = tables();
    let hotels = HotelTable::new();
    let reason = Reason::UnknownHotel { hotel_code: "H1".to_string() };
    assert_eq!(enrich(booking(), &hotels, &rooms), Err(reason.clone()));
    assert_eq!(enrich(booking(), &hotels, &RoomTable::new()), Err(reason));
}

#[test]
fn enrich_reports_an_unknown_room_of_a_known_hotel() {
    let (hotels, rooms) = tables();
    let reason = |room_code: &str| Reason::UnknownRoom {
        hotel_code: "H1".to_string(),
        room_code: room_code.to_string(),
    };
    let mut other_room = booking();
    other_room.room_code = "102".to_string();
    assert_eq!(enrich(other_room, &hotels, &rooms), Err(reason("102")));
    let mut other_source = booking();
    other_source.source = "SRC2".to_string();
    assert_eq!(enrich(other_source, &hotels, &rooms), Err(reason("101")));
}

#[test]
fn room_name_of_another_hotel_does_not_count() {
    let hotels = prepare_hotels(HOTELS.as_bytes()).0;
    let mut rooms = RoomTable::new();
    rooms.insert(RoomName {
        hotel_code: "H2".to_string(),
        source: "SRC1".to_string(),
        room_name: "Double Room".to_string(),
        room_code: "101".to_string(),
    });
    assert_eq!(
        enrich(booking(), &hotels, &rooms),
        Err(Reason::UnknownRoom { hotel_code: "H1".to_string(), room_code: "101".to_string() })
    );
}

#[test]
fn columns_are_found_by_name() {
    let header = strings(&[
        "source", "price", "children", "adults", "checkin", "meal", "extra", "room_code",
        "room_type", "hotel_code", "city_code",
    ]);
    assert_eq!(
        Columns::resolve(&header),
        Some(Columns {
            width: 11,
            city_code: 10,
            hotel_code: 9,
            room_type: 8,
            room_code: 7,
            meal: 5,
            checkin: 4,
            adults: 3,
            children: 2,
            price: 1,
            source: 0,
        })
    );
}

#[test]
fn columns_need_every_name_exactly_once() {
    let missing = strings(&[
        "city_code", "hotel_code", "room_type", "room_code", "meal", "checkin", "adults",
        "children", "price",
    ]);
    assert_eq!(Columns::resolve(&missing), None);
    let twice = strings(&[
        "city_code", "hotel_code", "room_type", "room_code", "meal", "checkin", "adults",
        "children", "price", "source", "adults",
    ]);
    assert_eq!(Columns::resolve(&twice), None);
    let misspelt = strings(&[
        "city_code", "hotel_code", "room_type", "room_code", "meal", "checkin", "adults",
        "children", "price", "Source",
    ]);
    assert_eq!(Columns::resolve(&misspelt), None);
    assert_eq!(Columns::resolve(&strings(&[])), None);
}

#[test]
fn columns_fall_back_to_the_documented_order() {
    assert_eq!(Columns::resolve(&unreadable()), Some(Columns::positional()));
    assert_eq!(
        Columns::positional(),
        Columns {
            width: 10,
            city_code: 0,
            hotel_code: 1,
            room_type: 2,
            room_code: 3,
            meal: 4,
            checkin: 5,
            adults: 6,
            children: 7,
            price: 8,
            source: 9,
        }
    );
}

#[test]
fn record_is_read_field_by_field() {
    let columns = Some(Columns::positional());
    let record = strings(&["PAR", "H1", "DBL", "101", "BB", "20240601", "2", "0", "100.00", "SRC1"]);
    assert_eq!(Input::from_row(&columns, &record), Ok(booking()));
}

#[test]
fn record_gives_the_first_reason_why_it_is_no_booking() {
    let columns = Some(Columns::positional());
    let read = |fields: &[&str]| Input::from_row(&columns, &strings(fields));
    let text = |text: &str| text.to_string();
    assert_eq!(
        Input::from_row(&columns, &unreadable()),
        Err(Reason::Unreadable { error: text("bad bytes") })
    );
    assert_eq!(Input::from_row(&None, &unreadable()), Err(Reason::Unreadable { error: text("bad bytes") }));
    assert_eq!(
        Input::from_row(&None, &strings(&["PAR", "H1", "DBL", "101", "BB", "20240601", "2", "0", "100.00", "SRC1"])),
        Err(Reason::MissingColumn)
    );
    assert_eq!(
        read(&["PAR", "H1", "DBL", "101", "BB", "2024-06-01", "2", "0", "100.00"]),
        Err(Reason::WrongLength { expected: 10, found: 9 })
    );
    assert_eq!(
        read(&["PAR", "H1", "DBL", "101", "BB", "20240601", "2", "0", "100.00", "SRC1", "more"]),
        Err(Reason::WrongLength { expected: 10, found: 11 })
    );
    assert_eq!(read(&[]), Err(Reason::WrongLength { expected: 10, found: 0 }));
    assert_eq!(
        read(&["PAR", "H1", "DBL", "101", "BB", "2024-06-01", "x", "y", "z", "SRC1"]),
        Err(Reason::BadCheckin { text: text("2024-06-01") })
    );
    assert_eq!(
        read(&["PAR", "H1", "DBL", "101", "BB", "20240601", "x", "y", "z", "SRC1"]),
        Err(Reason::BadAdults { text: text("x") })
    );
    assert_eq!(
        read(&["PAR", "H1", "DBL", "101", "BB", "20240601", "2", "-1", "z", "SRC1"]),
        Err(Reason::BadChildren { text: text("-1") })
    );
    assert_eq!(
        read(&["PAR", "H1", "DBL", "101", "BB", "20240601", "2", "0", "1e2", "SRC1"]),
        Err(Reason::BadPrice { text: text("1e2") })
    );
    assert_eq!(
        read(&["PAR", "H1", "DBL", "101", "BB", "99991231", "0", "0", "100.00", "SRC1"]),
        Err(Reason::NoOccupants)
    );
    assert_eq!(
        read(&["PAR", "H1", "DBL", "101", "BB", "99991231", "2", "0", "100.00", "SRC1"]),
        Err(Reason::NoCheckout)
    );
}

#[test]
fn columns_that_lie_beyond_the_record_count_as_missing() {
    let mut columns = Columns::positional();
    columns.source = 10;
    let record = strings(&["PAR", "H1", "DBL", "101", "BB", "20240601", "2", "0", "100.00", "SRC1"]);
    assert_eq!(Input::from_row(&Some(columns), &record), Err(Reason::MissingColumn));
}

#[test]
fn malformed_records_are_skipped_and_the_rest_keeps_its_order() {
    let input = feed(
        "PAR|H1|DBL|101|BB|20240601|2|0|100.00|SRC1\n\
PAR|H1|DBL|101|BB|2024-06-02|2|0|100.00|SRC1\n\
PAR|H1|DBL|101|BB|20240603|2|0|100.00\n\
PAR|H1|DBL|101|BB|20240604|two|0|100.00|SRC1\n\
PAR|H1|DBL|101|BB|20240605|1|1|90.00|SRC1\n\
PAR|H1|DBL|101|BB|20240606|0|0|90.00|SRC1\n\
PAR|H1|DBL|101|BB|20240607|1|0|ninety|SRC1\n\
PAR|H9|DBL|101|BB|20240608|1|0|90.00|SRC1\n\
PAR|H1|DBL|999|BB|20240609|1|0|90.00|SRC1\n\
PAR|H1|DBL|101|BB|20240610|1|+2|90.00|SRC1\n",
    );
    let (hotels, rooms) = tables();
    let (outputs, diagnostics) = process_input(&input, &hotels, &rooms);
    let days: Vec<u8> = outputs.iter().map(|o| o.checkin.day).collect();
    assert_eq!(days, vec![1, 5, 10]);
    let prices: Vec<&str> = outputs.iter().map(|o| o.price.as_str()).collect();
    assert_eq!(prices, vec!["50.00", "45.00", "30.00"]);
    assert_eq!(
        diagnostics,
        vec![
            skipped(1, Reason::BadCheckin { text: "2024-06-02".to_string() }),
            skipped(2, Reason::WrongLength { expected: 10, found: 9 }),
            skipped(3, Reason::BadAdults { text: "two".to_string() }),
            skipped(5, Reason::NoOccupants),
            skipped(6, Reason::BadPrice { text: "ninety".to_string() }),
            skipped(7, Reason::UnknownHotel { hotel_code: "H9".to_string() }),
            skipped(
                8,
                Reason::UnknownRoom { hotel_code: "H1".to_string(), room_code: "999".to_string() }
            ),
        ]
    );
}

#[test]
fn taking_a_skipped_record_away_leaves_the_rows_as_they_were() {
    let (hotels, rooms) = tables();
    let with = feed(
        "PAR|H1|DBL|101|BB|20240601|2|0|100.00|SRC1\n\
PAR|H1|DBL|101|BB|someday|2|0|100.00|SRC1\n\
PAR|H1|DBL|101|BB|20240605|1|1|90.00|SRC1\n",
    );
    let without = feed(
        "PAR|H1|DBL|101|BB|20240601|2|0|100.00|SRC1\n\
PAR|H1|DBL|101|BB|20240605|1|1|90.00|SRC1\n",
    );
    assert_eq!(
        process_input(&with, &hotels, &rooms).0,
        process_input(&without, &hotels, &rooms).0
    );
}

#[test]
fn record_that_is_not_text_is_skipped() {
    let mut input = feed("");
    input.extend_from_slice(b"PAR|H1|DBL|101|BB|20240601|2|0|100.00|SRC\xff\n");
    input.extend_from_slice(b"PAR|H1|DBL|101|BB|20240601|2|0|100.00|SRC1\n");
    let (hotels, rooms) = tables();
    let (outputs, diagnostics) = process_input(&input, &hotels, &rooms);
    assert_eq!(outputs, vec![row()]);
    assert_eq!(
        diagnostics,
        vec![skipped(
            0,
            Reason::Unreadable {
                error: "CSV parse error: record 1 (line 2, field: 9, byte: 83): invalid utf-8: invalid UTF-8 in field 9 near byte index 3".to_string()
            }
        )]
    );
}

#[test]
fn header_may_order_the_columns_freely() {
    let input = b"source|price|children|adults|checkin|meal|room_code|room_type|hotel_code|city_code|note\n\
SRC1|100.00|0|2|20240601|BB|101|DBL|H1|PAR|late arrival\n";
    let (hotels, rooms) = tables();
    let (outputs, diagnostics) = process_input(input, &hotels, &rooms);
    assert_eq!(diagnostics, vec![]);
    assert_eq!(outputs, vec![row()]);
}

#[test]
fn record_of_another_length_than_the_header_is_skipped_by_itself() {
    let input = feed(
        "PAR|H1|DBL|101|BB|20240601|2|0|100.00|SRC1|more\n\
PAR|H1|DBL|101|BB|20240601|2|0|100.00|SRC1\n\
PAR|H1\n\
PAR|H1|DBL|101|BB|20240605|1|1|90.00|SRC1\n",
    );
    let (hotels, rooms) = tables();
    let (outputs, diagnostics) = process_input(&input, &hotels, &rooms);
    let days: Vec<u8> = outputs.iter().map(|o| o.checkin.day).collect();
    assert_eq!(days, vec![1, 5]);
    assert_eq!(
        diagnostics,
        vec![
            skipped(0, Reason::WrongLength { expected: 10, found: 11 }),
            skipped(2, Reason::WrongLength { expected: 10, found: 2 }),
        ]
    );
}

#[test]
fn header_without_a_column_fails_every_record() {
    let input = b"city_code|hotel_code|room_type|room_code|meal|checkin|adults|children|cost|source\n\
PAR|H1|DBL|101|BB|20240601|2|0|100.00|SRC1\n\
PAR|H1|DBL|101|BB|20240602|2|0|100.00|SRC1\n";
    let (hotels, rooms) = tables();
    let (outputs, diagnostics) = process_input(input, &hotels, &rooms);
    assert_eq!(outputs, vec![]);
    assert_eq!(
        diagnostics,
        vec![skipped(0, Reason::MissingColumn), skipped(1, Reason::MissingColumn)]
    );
}

#[test]
fn header_that_is_not_text_leaves_the_documented_order() {
    let mut input = b"city_code|hotel_code|room_type|room_code|meal|checkin|adults|children|price|sourc\xff\n".to_vec();
    input.extend_from_slice(b"PAR|H1|DBL|101|BB|20240601|2|0|100.00|SRC1\n");
    let (hotels, rooms) = tables();
    let (outputs, diagnostics) = process_input(&input, &hotels, &rooms);
    assert_eq!(diagnostics, vec![]);
    assert_eq!(outputs, vec![row()]);
}

#[test]
fn feed_without_records_makes_no_rows() {
    let (hotels, rooms) = tables();
    assert_eq!(process_input(b"", &hotels, &rooms), (vec![], vec![]));
    assert_eq!(process_input(HEADER.as_bytes(), &hotels, &rooms), (vec![], vec![]));
    assert_eq!(process_rows(&vec![], &hotels, &rooms), (vec![], vec![]));
}

#[test]
fn rows_of_given_records() {
    let (hotels, rooms) = tables();
    let rows = vec![
        strings(&["hotel_code", "city_code", "room_type", "room_code", "meal", "checkin", "adults", "children", "price", "source"]),
        unreadable(),
        strings(&["H1", "PAR", "DBL", "101", "BB", "20240601", "2", "0", "100.00", "SRC1"]),
        strings(&["H1", "PAR"]),
    ];
    let (outputs, diagnostics) = process_rows(&rows, &hotels, &rooms);
    assert_eq!(outputs, vec![row()]);
    assert_eq!(
        diagnostics,
        vec![
            skipped(0, Reason::Unreadable { error: "bad bytes".to_string() }),
            skipped(2, Reason::WrongLength { expected: 10, found: 2 }),
        ]
    );
}

#[test]
fn row_is_shown_in_the_order_of_the_report() {
    assert_eq!(
        row().to_row(),
        vec![
            "DBL BB", "101", "SRC1", "Grand", "Paris", "PAR", "4.5", "2", "2", "0", "Double Room",
            "2024-06-01", "2024-06-02", "50.00"
        ]
    );
    assert_eq!(
        header(),
        vec![
            "room_type meal", "room_code", "source", "hotel_name", "city_name", "city_code",
            "hotel_category", "pax", "adults", "children", "room_name", "checkin", "checkout",
            "price"
        ]
    );
}

#[test]
fn report_of_no_rows_is_the_header_alone() {
    assert_eq!(store_output(&vec![]), (REPORT_HEADER.as_bytes().to_vec(), vec![]));
    assert_eq!(encode_rows(&vec![]), vec![Ok(REPORT_HEADER.as_bytes().to_vec())]);
}

#[test]
fn report_has_fourteen_fields_in_the_header_and_in_every_row() {
    let (report, diagnostics) = store_output(&vec![row(), row(), row()]);
    assert_eq!(diagnostics, vec![]);
    let report = text(report);
    let lines: Vec<&str> = report.lines().collect();
    assert_eq!(lines.len(), 4);
    for line in lines {
        assert_eq!(line.split(';').count(), 14);
    }
    assert_eq!(encode_rows(&vec![row(), row(), row()]).len(), 4);
}

#[test]
fn report_has_a_header_and_one_line_for_each_row() {
    let mut second = row();
    second.room_code = "102".to_string();
    let (report, diagnostics) = store_output(&vec![row(), second]);
    assert_eq!(diagnostics, vec![]);
    assert_eq!(
        text(report),
        format!(
            "{}{}{}",
            REPORT_HEADER,
            "DBL BB;101;SRC1;Grand;Paris;PAR;4.5;2;2;0;Double Room;2024-06-01;2024-06-02;50.00\n",
            "DBL BB;102;SRC1;Grand;Paris;PAR;4.5;2;2;0;Double Room;2024-06-01;2024-06-02;50.00\n"
        )
    );
}

#[test]
fn report_quotes_a_field_that_holds_the_delimiter() {
    let mut quoted = row();
    quoted.hotel_name = "Grand; \"Le Grand\"".to_string();
    quoted.room_name = "Double\nRoom".to_string();
    let (report, diagnostics) = store_output(&vec![quoted]);
    assert_eq!(diagnostics, vec![]);
    assert_eq!(
        text(report),
        format!(
            "{}{}",
            REPORT_HEADER,
            "DBL BB;101;SRC1;\"Grand; \"\"Le Grand\"\"\";Paris;PAR;4.5;2;2;0;\"Double\nRoom\";2024-06-01;2024-06-02;50.00\n"
        )
    );
}

#[test]
fn line_that_was_not_written_is_left_out_and_reported() {
    let lines = vec![
        Ok(b"a;b\n".to_vec()),
        Err("first".to_string()),
        Ok(b"c;d\n".to_vec()),
        Err("second".to_string()),
    ];
    let (report, diagnostics) = assemble_report(&lines);
    assert_eq!(report, b"a;b\nc;d\n".to_vec());
    assert_eq!(
        diagnostics,
        vec![
            Diagnostic {
                stream: Stream::Report,
                index: 1,
                reason: Reason::Unwritten { error: "first".to_string() },
            },
            Diagnostic {
                stream: Stream::Report,
                index: 3,
                reason: Reason::Unwritten { error: "second".to_string() },
            },
        ]
    );
    assert_eq!(assemble_report(&vec![]), (vec![], vec![]));
}

#[test]
fn run_reports_every_stream_in_turn() {
    let hotels = b"{\"id\":\"H1\",\"name\":\"Grand\",\"category\":4.5,\"city\":\"Paris\"}\nnonsense\n";
    let rooms = b"H1|SRC1|Double Room|101\nH1|SRC1\n";
    let input = feed(
        "PAR|H1|DBL|101|BB|20240601|2|0|100.00|SRC1\n\
PAR|H1|DBL|101|BB|20240601|2|0|100.00|SRC2\n",
    );
    let (report, diagnostics) = run(&input, hotels, rooms);
    assert_eq!(
        text(report),
        format!(
            "{}{}",
            REPORT_HEADER,
            "DBL BB;101;SRC1;Grand;Paris;PAR;4.5;2;2;0;Double Room;2024-06-01;2024-06-02;50.00\n"
        )
    );
    assert_eq!(
        diagnostics,
        vec![
            Diagnostic {
                stream: Stream::Hotels,
                index: 1,
                reason: Reason::NotJson {
                    line: b"nonsense".to_vec(),
                    error: "expected ident at line 1 column 2".to_string(),
                },
            },
            Diagnostic {
                stream: Stream::RoomNames,
                index: 1,
                reason: Reason::WrongLength { expected: 4, found: 2 },
            },
            skipped(
                1,
                Reason::UnknownRoom { hotel_code: "H1".to_string(), room_code: "101".to_string() }
            ),
        ]
    );
}

#[test]
fn run_twice_gives_the_same_report() {
    let input = feed(
        "PAR|H1|DBL|101|BB|20240601|2|1|100.00|SRC1\n\
PAR|H1|DBL|101|BB|bad|2|0|100.00|SRC1\n",
    );
    let first = run(&input, HOTELS.as_bytes(), ROOMS.as_bytes());
    let second = run(&input, HOTELS.as_bytes(), ROOMS.as_bytes());
    assert_eq!(first, second);
    assert!(!first.0.is_empty());
}

#[test]
fn run_on_empty_streams_gives_an_empty_report() {
    assert_eq!(run(b"", b"", b""), (REPORT_HEADER.as_bytes().to_vec(), vec![]));
}
