//! Delimiter-separated records, read and written with `csv`.
//!
//! How `csv` splits a stream into records and how it quotes a field is not
//! restated here. The functions below give both a name, so that the rest of
//! the library can say exactly what it does with them.

use vstd::prelude::*;

verus! {

/// The records that `csv` reads from `data` with the field delimiter
/// `delimiter`, every record taken as data and records of any length taken
/// as they come: the fields of each record, or, for a record that `csv`
/// reports as an error, what it says of it.
pub uninterp spec fn csv_rows(data: Seq<u8>, delimiter: u8) -> Seq<
    Result<Seq<Seq<char>>, Seq<char>>,
>;

/// The line that `csv` writes for one record with the field delimiter
/// `delimiter`, or, where it reports an error, what it says of it.
pub uninterp spec fn csv_line(fields: Seq<Seq<char>>, delimiter: u8) -> Result<Seq<u8>, Seq<char>>;

/// The characters of each field.
pub open spec fn fields_view(fields: Seq<String>) -> Seq<Seq<char>> {
    fields.map_values(|f: String| f@)
}

/// The fields of a record, or the characters of the message in their place.
pub open spec fn row_view(row: Result<Vec<String>, String>) -> Result<Seq<Seq<char>>, Seq<char>> {
    match row {
        Ok(fields) => Ok(fields_view(fields@)),
        Err(error) => Err(error@),
    }
}

/// The view of each record.
pub open spec fn rows_view(rows: Seq<Result<Vec<String>, String>>) -> Seq<
    Result<Seq<Seq<char>>, Seq<char>>,
> {
    rows.map_values(|row: Result<Vec<String>, String>| row_view(row))
}

/// The bytes of a line, or the characters of the message in their place.
pub open spec fn line_view(line: Result<Vec<u8>, String>) -> Result<Seq<u8>, Seq<char>> {
    match line {
        Ok(bytes) => Ok(bytes@),
        Err(error) => Err(error@),
    }
}

/// Builds a `csv::Reader` over `data` with `ReaderBuilder::delimiter`,
/// `has_headers(false)`, `flexible(true)` and `from_reader`, and collects
/// what `Reader::records` yields, an error as its `to_string` prints it.
/// Trusted: the result is a function of the bytes and the delimiter alone.
#[verifier::external_body]
pub(crate) fn read_rows(data: &[u8], delimiter: u8) -> (rows: Vec<Result<Vec<String>, String>>)
    ensures
        rows_view(rows@) == csv_rows(data@, delimiter),
{
    csv::ReaderBuilder::new()
        .delimiter(delimiter)
        .has_headers(false)
        .flexible(true)
        .from_reader(data)
        .records()
        .map(|row| match row {
            Ok(record) => Ok(record.iter().map(String::from).collect()),
            Err(error) => Err(error.to_string()),
        })
        .collect()
}

/// Builds a `csv::Writer` over an empty buffer with
/// `WriterBuilder::delimiter` and `from_writer`, writes one record with
/// `Writer::write_record` and takes the buffer back with `into_inner`, an
/// error of either as its `to_string` prints it. Trusted: the result is a
/// function of the fields and the delimiter alone.
#[verifier::external_body]
pub(crate) fn write_row(fields: &Vec<String>, delimiter: u8) -> (line: Result<Vec<u8>, String>)
    ensures
        line_view(line) == csv_line(fields_view(fields@), delimiter),
{
    let mut writer = csv::WriterBuilder::new().delimiter(delimiter).from_writer(Vec::new());
    writer.write_record(fields).map_err(|e| e.to_string())?;
    writer.into_inner().map_err(|e| e.to_string())
}

} // verus!
