//! What the library reports of each line or record that it leaves out.

use vstd::prelude::*;

verus! {

/// The stream in which something was left out.
#[derive(Clone, Copy, Debug, PartialEq, Eq)]
pub enum Stream {
    /// The hotel table, counted in lines.
    Hotels,
    /// The room-name table, counted in records.
    RoomNames,
    /// The booking feed, counted in records after the header.
    Input,
    /// The report, counted in lines as they were meant to be written, the
    /// header being line zero.
    Report,
}

/// Why a line or record was left out.
#[derive(Clone, Debug, PartialEq, Eq)]
pub enum Reason {
    /// The line of the hotel table is no JSON document: the line as it
    /// stood, and what `serde_json` says of it.
    NotJson { line: Vec<u8>, error: String },
    /// The line of the hotel table is a JSON document, but the member of
    /// this name is missing or of another kind than a hotel needs: the line
    /// as it stood, and the member's name.
    BadMember { line: Vec<u8>, member: String },
    /// The record could not be read: what `csv` says of it.
    Unreadable { error: String },
    /// The record has another number of fields than its stream asks for.
    WrongLength { expected: usize, found: usize },
    /// The header does not name every column exactly once, or a column lies
    /// beyond the record.
    MissingColumn,
    /// The check-in field, shown here, is no date.
    BadCheckin { text: String },
    /// The adults field, shown here, is no count.
    BadAdults { text: String },
    /// The children field, shown here, is no count.
    BadChildren { text: String },
    /// The price field, shown here, is no amount.
    BadPrice { text: String },
    /// Adults and children add up to zero.
    NoOccupants,
    /// The day after check-in has no four-digit year.
    NoCheckout,
    /// The hotel table has no hotel of this code.
    UnknownHotel { hotel_code: String },
    /// The room-name table has no name for this room.
    UnknownRoom { hotel_code: String, room_code: String },
    /// The line could not be written: what `csv` says of it.
    Unwritten { error: String },
}

/// A `Reason` with its texts as sequences.
pub enum ReasonView {
    NotJson { line: Seq<u8>, error: Seq<char> },
    BadMember { line: Seq<u8>, member: Seq<char> },
    Unreadable { error: Seq<char> },
    WrongLength { expected: int, found: int },
    MissingColumn,
    BadCheckin { text: Seq<char> },
    BadAdults { text: Seq<char> },
    BadChildren { text: Seq<char> },
    BadPrice { text: Seq<char> },
    NoOccupants,
    NoCheckout,
    UnknownHotel { hotel_code: Seq<char> },
    UnknownRoom { hotel_code: Seq<char>, room_code: Seq<char> },
    Unwritten { error: Seq<char> },
}

impl View for Reason {
    type V = ReasonView;

    open spec fn view(&self) -> ReasonView {
        match *self {
            Reason::NotJson { line, error } => ReasonView::NotJson { line: line@, error: error@ },
            Reason::BadMember { line, member } => ReasonView::BadMember {
                line: line@,
                member: member@,
            },
            Reason::Unreadable { error } => ReasonView::Unreadable { error: error@ },
            Reason::WrongLength { expected, found } => ReasonView::WrongLength {
                expected: expected as int,
                found: found as int,
            },
            Reason::MissingColumn => ReasonView::MissingColumn,
            Reason::BadCheckin { text } => ReasonView::BadCheckin { text: text@ },
            Reason::BadAdults { text } => ReasonView::BadAdults { text: text@ },
            Reason::BadChildren { text } => ReasonView::BadChildren { text: text@ },
            Reason::BadPrice { text } => ReasonView::BadPrice { text: text@ },
            Reason::NoOccupants => ReasonView::NoOccupants,
            Reason::NoCheckout => ReasonView::NoCheckout,
            Reason::UnknownHotel { hotel_code } => ReasonView::UnknownHotel {
                hotel_code: hotel_code@,
            },
            Reason::UnknownRoom { hotel_code, room_code } => ReasonView::UnknownRoom {
                hotel_code: hotel_code@,
                room_code: room_code@,
            },
            Reason::Unwritten { error } => ReasonView::Unwritten { error: error@ },
        }
    }
}

/// One line or record that was left out: where it stood, and why it went.
#[derive(Clone, Debug, PartialEq, Eq)]
pub struct Diagnostic {
    pub stream: Stream,
    /// The position in the stream, counted from zero.
    pub index: usize,
    pub reason: Reason,
}

/// A `Diagnostic` with its texts as sequences.
pub struct DiagnosticView {
    pub stream: Stream,
    pub index: int,
    pub reason: ReasonView,
}

impl View for Diagnostic {
    type V = DiagnosticView;

    open spec fn view(&self) -> DiagnosticView {
        DiagnosticView { stream: self.stream, index: self.index as int, reason: self.reason@ }
    }
}

/// The view of each diagnostic.
pub open spec fn diagnostics_view(diagnostics: Seq<Diagnostic>) -> Seq<DiagnosticView> {
    diagnostics.map_values(|d: Diagnostic| d@)
}

} // verus!
