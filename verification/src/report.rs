//! The report: a header line and one line for each row, as `csv` writes
//! them with `;` between the fields.

use crate::delimited::{csv_line, line_view, write_row};
use crate::diagnostic::{diagnostics_view, Diagnostic, DiagnosticView, Reason, ReasonView, Stream};
use crate::feed::outputs_view;
use crate::output::{header, header_row, Output, OutputView};
use vstd::prelude::*;

verus! {

/// The byte that separates the fields of the report.
pub const REPORT_DELIMITER: u8 = 59;

/// The view of each line.
pub open spec fn written_view(lines: Seq<Result<Vec<u8>, String>>) -> Seq<Result<Seq<u8>, Seq<char>>> {
    lines.map_values(|line: Result<Vec<u8>, String>| line_view(line))
}

/// The lines that were meant for a report of the given rows: the header,
/// then one line for each row.
pub open spec fn report_lines(rows: Seq<OutputView>) -> Seq<Result<Seq<u8>, Seq<char>>> {
    seq![csv_line(header_row(), REPORT_DELIMITER)] + rows.map_values(
        |row: OutputView| csv_line(row.row(), REPORT_DELIMITER),
    )
}

/// The lines that could be written, one after the other.
pub open spec fn joined(lines: Seq<Result<Seq<u8>, Seq<char>>>) -> Seq<u8>
    decreases lines.len(),
{
    if lines.len() == 0 {
        Seq::empty()
    } else {
        match lines.last() {
            Ok(line) => joined(lines.drop_last()) + line,
            Err(_) => joined(lines.drop_last()),
        }
    }
}

/// One diagnostic for each line that could not be written, in the order of
/// the lines.
pub open spec fn unwritten(lines: Seq<Result<Seq<u8>, Seq<char>>>) -> Seq<DiagnosticView>
    decreases lines.len(),
{
    if lines.len() == 0 {
        Seq::empty()
    } else {
        match lines.last() {
            Ok(_) => unwritten(lines.drop_last()),
            Err(error) => unwritten(lines.drop_last()).push(
                DiagnosticView {
                    stream: Stream::Report,
                    index: lines.len() - 1,
                    reason: ReasonView::Unwritten { error },
                },
            ),
        }
    }
}

/// The report of the given rows.
pub open spec fn report_of(rows: Seq<OutputView>) -> Seq<u8> {
    joined(report_lines(rows))
}

/// Writes the lines that were meant for a report of the given rows.
pub fn encode_rows(rows: &Vec<Output>) -> (lines: Vec<Result<Vec<u8>, String>>)
    ensures
        written_view(lines@) == report_lines(outputs_view(rows@)),
{
    let mut lines: Vec<Result<Vec<u8>, String>> = Vec::new();
    let ghost all = outputs_view(rows@);
    let names = header();
    lines.push(write_row(&names, REPORT_DELIMITER));
    let ghost encode = |row: OutputView| csv_line(row.row(), REPORT_DELIMITER);
    let ghost head = seq![csv_line(header_row(), REPORT_DELIMITER)];
    let mut i: usize = 0;
    while i < rows.len()
        invariant
            i <= rows@.len(),
            all == outputs_view(rows@),
            encode == |row: OutputView| csv_line(row.row(), REPORT_DELIMITER),
            head == seq![csv_line(header_row(), REPORT_DELIMITER)],
            written_view(lines@) == head + all.take(i as int).map_values(encode),
        decreases rows@.len() - i,
    {
        let fields = rows[i].to_row();
        let ghost before = written_view(lines@);
        let line = write_row(&fields, REPORT_DELIMITER);
        lines.push(line);
        proof {
            assert(written_view(lines@) =~= before.push(line_view(line)));
            assert(all.take(i + 1).map_values(encode) =~= all.take(i as int).map_values(
                encode,
            ).push(encode(all[i as int])));
        }
        i = i + 1;
    }
    lines
}

/// Puts the lines that could be written one after the other, and reports
/// those that could not.
pub fn assemble_report(lines: &Vec<Result<Vec<u8>, String>>) -> (r: (Vec<u8>, Vec<Diagnostic>))
    ensures
        r.0@ == joined(written_view(lines@)),
        diagnostics_view(r.1@) == unwritten(written_view(lines@)),
{
    let mut report: Vec<u8> = Vec::new();
    let mut diagnostics: Vec<Diagnostic> = Vec::new();
    let ghost all = written_view(lines@);
    let mut i: usize = 0;
    while i < lines.len()
        invariant
            i <= lines@.len(),
            all == written_view(lines@),
            report@ == joined(all.take(i as int)),
            diagnostics_view(diagnostics@) == unwritten(all.take(i as int)),
        decreases lines@.len() - i,
    {
        proof {
            assert(all.take(i + 1).drop_last() =~= all.take(i as int));
        }
        match &lines[i] {
            Ok(line) => {
                let ghost before = report@;
                let mut j: usize = 0;
                while j < line.len()
                    invariant
                        j <= line@.len(),
                        report@ == before + line@.take(j as int),
                    decreases line@.len() - j,
                {
                    report.push(line[j]);
                    j = j + 1;
                }
            },
            Err(error) => {
                let diagnostic = Diagnostic {
                    stream: Stream::Report,
                    index: i,
                    reason: Reason::Unwritten { error: error.clone() },
                };
                diagnostics.push(diagnostic);
            },
        }
        i = i + 1;
    }
    proof {
        assert(all.take(i as int) =~= all);
    }
    (report, diagnostics)
}

/// Writes the report of the given rows, and reports the lines that could
/// not be written.
pub fn store_output(rows: &Vec<Output>) -> (r: (Vec<u8>, Vec<Diagnostic>))
    ensures
        r.0@ == report_of(outputs_view(rows@)),
        diagnostics_view(r.1@) == unwritten(report_lines(outputs_view(rows@))),
{
    let lines = encode_rows(rows);
    assemble_report(&lines)
}

} // verus!
