//! The room-name table: records of four fields without a header, keyed by
//! hotel, source and room.

use crate::delimited::{csv_rows, read_rows, row_view, rows_view};
use crate::diagnostic::{diagnostics_view, Diagnostic, DiagnosticView, Reason, ReasonView, Stream};
use vstd::hash_map::StringHashMap;
use vstd::prelude::*;

verus! {

/// The byte that separates the fields of the room-name table.
pub const ROOM_DELIMITER: u8 = 124;

/// One record of the room-name table.
#[derive(Clone, Debug, PartialEq, Eq)]
pub struct RoomName {
    pub hotel_code: String,
    pub source: String,
    pub room_name: String,
    pub room_code: String,
}

/// A `RoomName` with its texts as sequences of characters.
pub struct RoomNameView {
    pub hotel_code: Seq<char>,
    pub source: Seq<char>,
    pub room_name: Seq<char>,
    pub room_code: Seq<char>,
}

/// What a room name is found by.
#[derive(Clone, Debug, PartialEq, Eq, Hash)]
pub struct RoomKey {
    pub hotel_code: String,
    pub source: String,
    pub room_code: String,
}

/// A `RoomKey` with its texts as sequences of characters.
pub struct RoomKeyView {
    pub hotel_code: Seq<char>,
    pub source: Seq<char>,
    pub room_code: Seq<char>,
}

impl View for RoomName {
    type V = RoomNameView;

    open spec fn view(&self) -> RoomNameView {
        RoomNameView {
            hotel_code: self.hotel_code@,
            source: self.source@,
            room_name: self.room_name@,
            room_code: self.room_code@,
        }
    }
}

impl View for RoomKey {
    type V = RoomKeyView;

    open spec fn view(&self) -> RoomKeyView {
        RoomKeyView {
            hotel_code: self.hotel_code@,
            source: self.source@,
            room_code: self.room_code@,
        }
    }
}

impl RoomNameView {
    /// The key that this record is found by.
    pub open spec fn key(&self) -> RoomKeyView {
        RoomKeyView {
            hotel_code: self.hotel_code,
            source: self.source,
            room_code: self.room_code,
        }
    }
}

/// The room name that a record describes, or why it describes none: the
/// record could not be read, or it has another number of fields than four.
/// The four fields are hotel, source, name and room.
pub open spec fn room_of_row(row: Result<Seq<Seq<char>>, Seq<char>>) -> Result<
    RoomNameView,
    ReasonView,
> {
    match row {
        Ok(fields) => if fields.len() == 4 {
            Ok(
                RoomNameView {
                    hotel_code: fields[0],
                    source: fields[1],
                    room_name: fields[2],
                    room_code: fields[3],
                },
            )
        } else {
            Err(ReasonView::WrongLength { expected: 4, found: fields.len() as int })
        },
        Err(error) => Err(ReasonView::Unreadable { error }),
    }
}

/// The table that a sequence of records describes: each record that
/// describes a room name puts it under its key, in place of any name that an
/// earlier record put there.
pub open spec fn rooms_of_rows(rows: Seq<Result<Seq<Seq<char>>, Seq<char>>>) -> Map<
    RoomKeyView,
    Seq<char>,
>
    decreases rows.len(),
{
    if rows.len() == 0 {
        Map::empty()
    } else {
        let earlier = rooms_of_rows(rows.drop_last());
        match room_of_row(rows.last()) {
            Ok(room) => earlier.insert(room.key(), room.room_name),
            Err(_) => earlier,
        }
    }
}

/// One diagnostic for each record that describes no room name, in the order
/// of the records.
pub open spec fn room_diagnostics(rows: Seq<Result<Seq<Seq<char>>, Seq<char>>>) -> Seq<
    DiagnosticView,
>
    decreases rows.len(),
{
    if rows.len() == 0 {
        Seq::empty()
    } else {
        let earlier = room_diagnostics(rows.drop_last());
        match room_of_row(rows.last()) {
            Ok(_) => earlier,
            Err(reason) => earlier.push(
                DiagnosticView { stream: Stream::RoomNames, index: rows.len() - 1, reason },
            ),
        }
    }
}

/// The map that a list of records stands for, a later record replacing an
/// earlier one of the same key.
pub open spec fn map_of_entries(entries: Seq<RoomName>) -> Map<RoomKeyView, Seq<char>>
    decreases entries.len(),
{
    if entries.len() == 0 {
        Map::empty()
    } else {
        map_of_entries(entries.drop_last()).insert(
            entries.last()@.key(),
            entries.last().room_name@,
        )
    }
}

impl RoomName {
    /// Reads one record of the room-name table.
    pub fn from_row(row: &Result<Vec<String>, String>) -> (r: Result<RoomName, Reason>)
        ensures
            match r {
                Ok(room) => room_of_row(row_view(*row)) == Ok::<RoomNameView, ReasonView>(room@),
                Err(reason) => room_of_row(row_view(*row)) == Err::<RoomNameView, ReasonView>(
                    reason@,
                ),
            },
    {
        match row {
            Ok(fields) => {
                if fields.len() == 4 {
                    Ok(
                        RoomName {
                            hotel_code: fields[0].clone(),
                            source: fields[1].clone(),
                            room_name: fields[2].clone(),
                            room_code: fields[3].clone(),
                        },
                    )
                } else {
                    Err(Reason::WrongLength { expected: 4, found: fields.len() })
                }
            },
            Err(error) => Err(Reason::Unreadable { error: error.clone() }),
        }
    }
}

/// Looks a key up in a list of records, the last record of that key first.
fn find_last<'a>(entries: &'a Vec<RoomName>, key: &RoomKey) -> (r: Option<&'a String>)
    ensures
        match r {
            Some(name) => map_of_entries(entries@).contains_key(key@) && name@ == map_of_entries(
                entries@,
            )[key@],
            None => !map_of_entries(entries@).contains_key(key@),
        },
{
    let ghost all = map_of_entries(entries@);
    let mut i: usize = entries.len();
    proof {
        assert(entries@.take(i as int) =~= entries@);
    }
    while i > 0
        invariant
            i <= entries@.len(),
            all == map_of_entries(entries@),
            all.contains_key(key@) == map_of_entries(entries@.take(i as int)).contains_key(key@),
            all.contains_key(key@) ==> all[key@] == map_of_entries(entries@.take(i as int))[key@],
        decreases i,
    {
        let entry = &entries[i - 1];
        proof {
            assert(entries@.take(i as int).drop_last() =~= entries@.take(i - 1));
            assert(entries@.take(i as int).last() == *entry);
        }
        if entry.hotel_code == key.hotel_code && entry.source == key.source && entry.room_code
            == key.room_code {
            return Some(&entry.room_name);
        }
        assert(entry@.key() != key@);
        i = i - 1;
    }
    None
}

/// The room names of a run, each under its key.
///
/// `vstd` specifies hash maps that are keyed by one string, and the key here
/// has three. So the records of one hotel stand together in a list of their
/// own, a hash map leads from the hotel's code to that list, and the list is
/// searched from its end, where the latest record of a key stands.
pub struct RoomTable {
    index: StringHashMap<usize>,
    lists: Vec<Vec<RoomName>>,
}

impl View for RoomTable {
    type V = Map<RoomKeyView, Seq<char>>;

    closed spec fn view(&self) -> Map<RoomKeyView, Seq<char>> {
        Map::new(
            |key: RoomKeyView|
                self.index@.contains_key(key.hotel_code) && self.list_of(
                    key.hotel_code,
                ).contains_key(key),
            |key: RoomKeyView| self.list_of(key.hotel_code)[key],
        )
    }
}

impl RoomTable {
    /// What the list of a hotel holds.
    spec fn list_of(&self, hotel_code: Seq<char>) -> Map<RoomKeyView, Seq<char>> {
        map_of_entries(self.lists@[self.index@[hotel_code] as int]@)
    }

    /// True when the index leads to lists that exist.
    pub closed spec fn wf(&self) -> bool {
        forall|code: Seq<char>| #[trigger]
            self.index@.contains_key(code) ==> self.index@[code] < self.lists@.len()
    }

    /// The empty table.
    pub fn new() -> (table: RoomTable)
        ensures
            table.wf(),
            table@ == Map::<RoomKeyView, Seq<char>>::empty(),
    {
        let table = RoomTable { index: StringHashMap::new(), lists: Vec::new() };
        assert(table@ =~= Map::<RoomKeyView, Seq<char>>::empty());
        table
    }

    /// Puts a room name under its key, in place of any name that was there.
    pub fn insert(&mut self, room: RoomName)
        requires
            old(self).wf(),
        ensures
            final(self).wf(),
            final(self)@ == old(self)@.insert(room@.key(), room.room_name@),
    {
        let found = match self.index.get(room.hotel_code.as_str()) {
            Some(at) => Some(*at),
            None => None,
        };
        let at = match found {
            Some(at) => at,
            None => {
                let at = self.lists.len();
                self.lists.push(Vec::new());
                self.index.insert(room.hotel_code.clone(), at);
                at
            },
        };
        let ghost index = self.index@;
        let ghost lists = self.lists@;
        let ghost before = self.lists@[at as int]@;
        self.lists[at].push(room);
        proof {
            let key = room@.key();
            let name = room.room_name@;
            let target = old(self)@.insert(key, name);
            assert(self.lists@[at as int]@.drop_last() =~= before);
            assert(map_of_entries(self.lists@[at as int]@) == map_of_entries(before).insert(
                key,
                name,
            ));
            assert(index.contains_key(key.hotel_code) && index[key.hotel_code] == at);
            if found is None {
                assert(map_of_entries(before) =~= Map::<RoomKeyView, Seq<char>>::empty());
            }
            assert forall|k: RoomKeyView| self@.contains_key(k) == target.contains_key(k) && (
            self@.contains_key(k) ==> self@[k] == target[k]) by {
                let code = k.hotel_code;
                if code == key.hotel_code {
                    if found is Some {
                        assert(old(self).list_of(code) == map_of_entries(before));
                    }
                } else if index.contains_key(code) {
                    assert(old(self).index@.contains_key(code));
                    assert(old(self).index@[code] == index[code]);
                    let j = index[code] as int;
                    if j != at {
                        assert(self.lists@[j] == lists[j]);
                        assert(lists[j] == old(self).lists@[j]);
                    } else {
                        assert(k != key);
                        assert(old(self).list_of(code) == map_of_entries(before));
                    }
                } else {
                    assert(!old(self).index@.contains_key(code));
                }
            }
            assert(self@ =~= target);
        }
    }

    /// Looks a room name up by its key.
    pub fn get(&self, key: &RoomKey) -> (r: Option<&String>)
        requires
            self.wf(),
        ensures
            match r {
                Some(name) => self@.contains_key(key@) && name@ == self@[key@],
                None => !self@.contains_key(key@),
            },
    {
        match self.index.get(key.hotel_code.as_str()) {
            Some(at) => find_last(&self.lists[*at], key),
            None => None,
        }
    }
}

/// Builds the room-name table from the records of its stream, and reports
/// the records that describe no room name.
pub fn room_names_from_rows(rows: &Vec<Result<Vec<String>, String>>) -> (r: (RoomTable, Vec<Diagnostic>))
    ensures
        r.0.wf(),
        r.0@ == rooms_of_rows(rows_view(rows@)),
        diagnostics_view(r.1@) == room_diagnostics(rows_view(rows@)),
{
    let mut table = RoomTable::new();
    let mut diagnostics: Vec<Diagnostic> = Vec::new();
    let ghost all = rows_view(rows@);
    let mut i: usize = 0;
    proof {
        assert(diagnostics_view(diagnostics@) =~= Seq::<DiagnosticView>::empty());
    }
    while i < rows.len()
        invariant
            i <= rows@.len(),
            all == rows_view(rows@),
            table.wf(),
            table@ == rooms_of_rows(all.take(i as int)),
            diagnostics_view(diagnostics@) == room_diagnostics(all.take(i as int)),
        decreases rows@.len() - i,
    {
        proof {
            assert(all.take(i + 1).drop_last() =~= all.take(i as int));
            assert(all.take(i + 1).last() == row_view(rows@[i as int]));
        }
        match RoomName::from_row(&rows[i]) {
            Ok(room) => {
                table.insert(room);
            },
            Err(reason) => {
                diagnostics.push(Diagnostic { stream: Stream::RoomNames, index: i, reason });
            },
        }
        i = i + 1;
    }
    proof {
        assert(all.take(i as int) =~= all);
    }
    (table, diagnostics)
}

/// Builds the room-name table from its stream, and reports the records that
/// describe no room name.
pub fn prepare_room_names(data: &[u8]) -> (r: (RoomTable, Vec<Diagnostic>))
    ensures
        r.0.wf(),
        r.0@ == rooms_of_rows(csv_rows(data@, ROOM_DELIMITER)),
        diagnostics_view(r.1@) == room_diagnostics(csv_rows(data@, ROOM_DELIMITER)),
{
    let rows = read_rows(data, ROOM_DELIMITER);
    room_names_from_rows(&rows)
}

} // verus!
