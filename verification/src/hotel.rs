//! The hotel table: one JSON object per line, keyed by the hotel's code.

use crate::decimal::{decimal_of, Decimal};
use crate::diagnostic::{diagnostics_view, Diagnostic, DiagnosticView, Reason, ReasonView, Stream};
use crate::json::{json_member, member, member_view, Member, MemberView};
use crate::lines::{lines_of, lines_view, split_lines};
use vstd::hash_map::StringHashMap;
use vstd::prelude::*;
use vstd::slice::slice_to_vec;
use vstd::string::*;

verus! {

/// What the table knows of one hotel.
#[derive(Clone, Debug, PartialEq, Eq)]
pub struct Hotel {
    pub id: String,
    pub name: String,
    pub category: Decimal,
    pub city: String,
}

/// A `Hotel` with its texts as sequences of characters.
pub struct HotelView {
    pub id: Seq<char>,
    pub name: Seq<char>,
    pub category: Decimal,
    pub city: Seq<char>,
}

impl View for Hotel {
    type V = HotelView;

    open spec fn view(&self) -> HotelView {
        HotelView { id: self.id@, name: self.name@, category: self.category, city: self.city@ }
    }
}

/// The hotel that four members of a JSON object describe, or the first
/// reason, in this order, why they describe none: one of them, in the order
/// code, name, category, city, stands for a line that is no JSON document;
/// one of them, in the same order, is missing or of another kind than a
/// hotel needs. Code, name and city are strings. The category is a number
/// in a form that is an amount.
pub open spec fn hotel_of_members(
    line: Seq<u8>,
    id: Result<MemberView, Seq<char>>,
    name: Result<MemberView, Seq<char>>,
    category: Result<MemberView, Seq<char>>,
    city: Result<MemberView, Seq<char>>,
) -> Result<HotelView, ReasonView> {
    if id is Err {
        Err(ReasonView::NotJson { line, error: id->Err_0 })
    } else if name is Err {
        Err(ReasonView::NotJson { line, error: name->Err_0 })
    } else if category is Err {
        Err(ReasonView::NotJson { line, error: category->Err_0 })
    } else if city is Err {
        Err(ReasonView::NotJson { line, error: city->Err_0 })
    } else if !(id->Ok_0 is Text) {
        Err(ReasonView::BadMember { line, member: "id"@ })
    } else if !(name->Ok_0 is Text) {
        Err(ReasonView::BadMember { line, member: "name"@ })
    } else if !(category->Ok_0 is Number) || decimal_of(category->Ok_0->Number_0) is None {
        Err(ReasonView::BadMember { line, member: "category"@ })
    } else if !(city->Ok_0 is Text) {
        Err(ReasonView::BadMember { line, member: "city"@ })
    } else {
        Ok(
            HotelView {
                id: id->Ok_0->Text_0,
                name: name->Ok_0->Text_0,
                category: decimal_of(category->Ok_0->Number_0)->0,
                city: city->Ok_0->Text_0,
            },
        )
    }
}

/// The hotel that a line of the hotel table describes, or why it describes
/// none.
pub open spec fn hotel_of_line(line: Seq<u8>) -> Result<HotelView, ReasonView> {
    hotel_of_members(
        line,
        json_member(line, "id"@),
        json_member(line, "name"@),
        json_member(line, "category"@),
        json_member(line, "city"@),
    )
}

/// The table that a sequence of lines describes: each line that describes a
/// hotel puts it under its code, in place of any hotel that an earlier line
/// put there.
pub open spec fn hotels_of_lines(lines: Seq<Seq<u8>>) -> Map<Seq<char>, HotelView>
    decreases lines.len(),
{
    if lines.len() == 0 {
        Map::empty()
    } else {
        let earlier = hotels_of_lines(lines.drop_last());
        match hotel_of_line(lines.last()) {
            Ok(hotel) => earlier.insert(hotel.id, hotel),
            Err(_) => earlier,
        }
    }
}

/// One diagnostic for each line that describes no hotel, in the order of the
/// lines: the line's position, the line as it stood, and why it describes
/// no hotel.
pub open spec fn hotel_diagnostics(lines: Seq<Seq<u8>>) -> Seq<DiagnosticView>
    decreases lines.len(),
{
    if lines.len() == 0 {
        Seq::empty()
    } else {
        let earlier = hotel_diagnostics(lines.drop_last());
        match hotel_of_line(lines.last()) {
            Ok(_) => earlier,
            Err(reason) => earlier.push(
                DiagnosticView { stream: Stream::Hotels, index: lines.len() - 1, reason },
            ),
        }
    }
}

/// The reason that names a member of a line.
fn bad_member(line: &[u8], member: &str) -> (r: Reason)
    ensures
        r@ == (ReasonView::BadMember { line: line@, member: member@ }),
{
    Reason::BadMember { line: slice_to_vec(line), member: String::from_str(member) }
}

impl Hotel {
    /// True when the category is an amount that the report can show.
    pub open spec fn wf(&self) -> bool {
        self.category.wf()
    }

    /// Makes a hotel of the four members of a line, or says why they make
    /// none.
    pub fn from_members(
        line: &[u8],
        id: Result<Member, String>,
        name: Result<Member, String>,
        category: Result<Member, String>,
        city: Result<Member, String>,
    ) -> (r: Result<Hotel, Reason>)
        ensures
            match r {
                Ok(hotel) => hotel.wf() && hotel_of_members(
                    line@,
                    member_view(id),
                    member_view(name),
                    member_view(category),
                    member_view(city),
                ) == Ok::<HotelView, ReasonView>(hotel@),
                Err(reason) => hotel_of_members(
                    line@,
                    member_view(id),
                    member_view(name),
                    member_view(category),
                    member_view(city),
                ) == Err::<HotelView, ReasonView>(reason@),
            },
    {
        let id = match id {
            Ok(id) => id,
            Err(error) => {
                return Err(Reason::NotJson { line: slice_to_vec(line), error });
            },
        };
        let name = match name {
            Ok(name) => name,
            Err(error) => {
                return Err(Reason::NotJson { line: slice_to_vec(line), error });
            },
        };
        let category = match category {
            Ok(category) => category,
            Err(error) => {
                return Err(Reason::NotJson { line: slice_to_vec(line), error });
            },
        };
        let city = match city {
            Ok(city) => city,
            Err(error) => {
                return Err(Reason::NotJson { line: slice_to_vec(line), error });
            },
        };
        let id = match id {
            Member::Text(id) => id,
            _ => {
                return Err(bad_member(line, "id"));
            },
        };
        let name = match name {
            Member::Text(name) => name,
            _ => {
                return Err(bad_member(line, "name"));
            },
        };
        let category = match category {
            Member::Number(text) => match Decimal::parse(text.as_str()) {
                Some(category) => category,
                None => {
                    return Err(bad_member(line, "category"));
                },
            },
            _ => {
                return Err(bad_member(line, "category"));
            },
        };
        let city = match city {
            Member::Text(city) => city,
            _ => {
                return Err(bad_member(line, "city"));
            },
        };
        Ok(Hotel { id, name, category, city })
    }

    /// Reads one line of the hotel table.
    pub fn parse(line: &[u8]) -> (r: Result<Hotel, Reason>)
        ensures
            match r {
                Ok(hotel) => hotel.wf() && hotel_of_line(line@) == Ok::<HotelView, ReasonView>(
                    hotel@,
                ),
                Err(reason) => hotel_of_line(line@) == Err::<HotelView, ReasonView>(reason@),
            },
    {
        let id = match member(line, "id") {
            Ok(id) => id,
            Err(error) => {
                return Err(Reason::NotJson { line: slice_to_vec(line), error });
            },
        };
        Hotel::from_members(
            line,
            Ok(id),
            member(line, "name"),
            member(line, "category"),
            member(line, "city"),
        )
    }
}

/// The hotels of a run, each under its code.
pub struct HotelTable {
    map: StringHashMap<Hotel>,
}

impl View for HotelTable {
    type V = Map<Seq<char>, HotelView>;

    closed spec fn view(&self) -> Map<Seq<char>, HotelView> {
        self.map@.map_values(|hotel: Hotel| hotel@)
    }
}

impl HotelTable {
    /// True when every hotel of the table is well formed and stands under
    /// its own code.
    pub closed spec fn wf(&self) -> bool {
        forall|code: Seq<char>| #[trigger]
            self.map@.contains_key(code) ==> self.map@[code].wf() && self.map@[code].id@ == code
    }

    /// The empty table.
    pub fn new() -> (table: HotelTable)
        ensures
            table.wf(),
            table@ == Map::<Seq<char>, HotelView>::empty(),
    {
        let table = HotelTable { map: StringHashMap::new() };
        table
    }

    /// Puts a hotel under its code, in place of any hotel that was there.
    pub fn insert(&mut self, hotel: Hotel)
        requires
            old(self).wf(),
            hotel.wf(),
        ensures
            final(self).wf(),
            final(self)@ == old(self)@.insert(hotel.id@, hotel@),
    {
        let code = hotel.id.clone();
        self.map.insert(code, hotel);
    }

    /// Looks a hotel up by its code.
    pub fn get(&self, code: &str) -> (r: Option<&Hotel>)
        requires
            self.wf(),
        ensures
            match r {
                Some(hotel) => self@.contains_key(code@) && hotel@ == self@[code@] && hotel.wf()
                    && hotel.id@ == code@,
                None => !self@.contains_key(code@),
            },
    {
        self.map.get(code)
    }
}

/// Builds the hotel table from the lines of its stream, and reports the
/// lines that describe no hotel.
pub fn hotels_from_lines(lines: &Vec<Vec<u8>>) -> (r: (HotelTable, Vec<Diagnostic>))
    ensures
        r.0.wf(),
        r.0@ == hotels_of_lines(lines_view(lines@)),
        diagnostics_view(r.1@) == hotel_diagnostics(lines_view(lines@)),
{
    let mut table = HotelTable::new();
    let mut diagnostics: Vec<Diagnostic> = Vec::new();
    let ghost all = lines_view(lines@);
    let mut i: usize = 0;
    while i < lines.len()
        invariant
            i <= lines@.len(),
            all == lines_view(lines@),
            table.wf(),
            table@ == hotels_of_lines(all.take(i as int)),
            diagnostics_view(diagnostics@) == hotel_diagnostics(all.take(i as int)),
        decreases lines@.len() - i,
    {
        proof {
            assert(all.take(i + 1).drop_last() =~= all.take(i as int));
        }
        match Hotel::parse(lines[i].as_slice()) {
            Ok(hotel) => {
                table.insert(hotel);
            },
            Err(reason) => {
                diagnostics.push(Diagnostic { stream: Stream::Hotels, index: i, reason });
            },
        }
        i = i + 1;
    }
    proof {
        assert(all.take(i as int) =~= all);
    }
    (table, diagnostics)
}

/// Builds the hotel table from its stream, and reports the lines that
/// describe no hotel.
pub fn prepare_hotels(data: &[u8]) -> (r: (HotelTable, Vec<Diagnostic>))
    ensures
        r.0.wf(),
        r.0@ == hotels_of_lines(lines_of(data@)),
        diagnostics_view(r.1@) == hotel_diagnostics(lines_of(data@)),
{
    let lines = split_lines(data);
    hotels_from_lines(&lines)
}

} // verus!
