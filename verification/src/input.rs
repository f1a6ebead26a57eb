//! The booking feed: records whose columns a header names.

use crate::date::{checkin_of, deserialize_checkin, Date};
use crate::decimal::{decimal_of, Decimal};
use crate::delimited::{fields_view, row_view};
use crate::diagnostic::{Reason, ReasonView};
use crate::text::{count_of, parse_count};
use vstd::prelude::*;
use vstd::string::*;

verus! {

/// One booking of the feed.
#[derive(Clone, Debug, PartialEq, Eq)]
pub struct Input {
    pub city_code: String,
    pub hotel_code: String,
    pub room_type: String,
    pub room_code: String,
    pub meal: String,
    pub checkin: Date,
    pub adults: u32,
    pub children: u32,
    /// The price of one night for all occupants together.
    pub price: Decimal,
    pub source: String,
}

/// An `Input` with its texts as sequences of characters.
pub struct InputView {
    pub city_code: Seq<char>,
    pub hotel_code: Seq<char>,
    pub room_type: Seq<char>,
    pub room_code: Seq<char>,
    pub meal: Seq<char>,
    pub checkin: Date,
    pub adults: u32,
    pub children: u32,
    pub price: Decimal,
    pub source: Seq<char>,
}

impl View for Input {
    type V = InputView;

    open spec fn view(&self) -> InputView {
        InputView {
            city_code: self.city_code@,
            hotel_code: self.hotel_code@,
            room_type: self.room_type@,
            room_code: self.room_code@,
            meal: self.meal@,
            checkin: self.checkin,
            adults: self.adults,
            children: self.children,
            price: self.price,
            source: self.source@,
        }
    }
}

impl InputView {
    /// True when the booking has a check-in day with a day after it, a price
    /// that the report can show, and at least one occupant.
    pub open spec fn wf(&self) -> bool {
        &&& self.checkin.wf()
        &&& self.checkin.has_next()
        &&& self.price.wf()
        &&& self.adults + self.children > 0
    }
}

impl Input {
    /// True when the booking has a check-in day with a day after it, a price
    /// that the report can show, and at least one occupant.
    pub open spec fn wf(&self) -> bool {
        self@.wf()
    }
}

/// Where each column of the feed stands in a record.
#[derive(Clone, Copy, Debug, PartialEq, Eq)]
pub struct Columns {
    /// The number of fields that every record must have.
    pub width: usize,
    pub city_code: usize,
    pub hotel_code: usize,
    pub room_type: usize,
    pub room_code: usize,
    pub meal: usize,
    pub checkin: usize,
    pub adults: usize,
    pub children: usize,
    pub price: usize,
    pub source: usize,
}

/// `Columns` with its positions as mathematical integers.
pub struct ColumnsView {
    pub width: int,
    pub city_code: int,
    pub hotel_code: int,
    pub room_type: int,
    pub room_code: int,
    pub meal: int,
    pub checkin: int,
    pub adults: int,
    pub children: int,
    pub price: int,
    pub source: int,
}

impl View for Columns {
    type V = ColumnsView;

    open spec fn view(&self) -> ColumnsView {
        ColumnsView {
            width: self.width as int,
            city_code: self.city_code as int,
            hotel_code: self.hotel_code as int,
            room_type: self.room_type as int,
            room_code: self.room_code as int,
            meal: self.meal as int,
            checkin: self.checkin as int,
            adults: self.adults as int,
            children: self.children as int,
            price: self.price as int,
            source: self.source as int,
        }
    }
}

impl ColumnsView {
    /// True when a record of `len` fields has a field at every position.
    pub open spec fn within(&self, len: int) -> bool {
        &&& 0 <= self.city_code < len
        &&& 0 <= self.hotel_code < len
        &&& 0 <= self.room_type < len
        &&& 0 <= self.room_code < len
        &&& 0 <= self.meal < len
        &&& 0 <= self.checkin < len
        &&& 0 <= self.adults < len
        &&& 0 <= self.children < len
        &&& 0 <= self.price < len
        &&& 0 <= self.source < len
    }
}

/// The ten columns in the order in which the feed is documented, and no
/// others.
pub open spec fn positional_columns() -> ColumnsView {
    ColumnsView {
        width: 10,
        city_code: 0,
        hotel_code: 1,
        room_type: 2,
        room_code: 3,
        meal: 4,
        checkin: 5,
        adults: 6,
        children: 7,
        price: 8,
        source: 9,
    }
}

/// The position of the column `name` in a header that names it exactly once.
pub open spec fn column_of(names: Seq<Seq<char>>, name: Seq<char>) -> Option<int> {
    if names.index_of_first(name) is Some && names.index_of_first(name) == names.index_of_last(
        name,
    ) {
        names.index_of_first(name)
    } else {
        None
    }
}

/// Where the columns stand under a header: by name where the header could be
/// read, each of the ten names exactly once, and every record as long as the
/// header; the ten columns in the documented order where it could not.
pub open spec fn columns_of(header: Result<Seq<Seq<char>>, Seq<char>>) -> Option<ColumnsView> {
    match header {
        Err(_) => Some(positional_columns()),
        Ok(names) => if column_of(names, "city_code"@) is Some && column_of(
            names,
            "hotel_code"@,
        ) is Some && column_of(names, "room_type"@) is Some && column_of(names, "room_code"@)
            is Some && column_of(names, "meal"@) is Some && column_of(names, "checkin"@) is Some
            && column_of(names, "adults"@) is Some && column_of(names, "children"@) is Some
            && column_of(names, "price"@) is Some && column_of(names, "source"@) is Some {
            Some(
                ColumnsView {
                    width: names.len() as int,
                    city_code: column_of(names, "city_code"@)->0,
                    hotel_code: column_of(names, "hotel_code"@)->0,
                    room_type: column_of(names, "room_type"@)->0,
                    room_code: column_of(names, "room_code"@)->0,
                    meal: column_of(names, "meal"@)->0,
                    checkin: column_of(names, "checkin"@)->0,
                    adults: column_of(names, "adults"@)->0,
                    children: column_of(names, "children"@)->0,
                    price: column_of(names, "price"@)->0,
                    source: column_of(names, "source"@)->0,
                },
            )
        } else {
            None
        },
    }
}

/// The booking that a record describes under the given columns, or the first
/// reason, in this order, why it describes none: the record could not be
/// read; the header does not name every column; the record has another
/// number of fields than the header; a column lies beyond the record;
/// check-in, adults, children or price cannot be read; there is no occupant;
/// check-in has no day after it.
pub open spec fn input_of(
    columns: Option<ColumnsView>,
    row: Result<Seq<Seq<char>>, Seq<char>>,
) -> Result<InputView, ReasonView> {
    if row is Err {
        Err(ReasonView::Unreadable { error: row->Err_0 })
    } else if columns is None {
        Err(ReasonView::MissingColumn)
    } else if row->Ok_0.len() != columns->0.width {
        Err(
            ReasonView::WrongLength {
                expected: columns->0.width,
                found: row->Ok_0.len() as int,
            },
        )
    } else if !columns->0.within(row->Ok_0.len() as int) {
        Err(ReasonView::MissingColumn)
    } else if checkin_of(row->Ok_0[columns->0.checkin]) is None {
        Err(ReasonView::BadCheckin { text: row->Ok_0[columns->0.checkin] })
    } else if count_of(row->Ok_0[columns->0.adults]) is None {
        Err(ReasonView::BadAdults { text: row->Ok_0[columns->0.adults] })
    } else if count_of(row->Ok_0[columns->0.children]) is None {
        Err(ReasonView::BadChildren { text: row->Ok_0[columns->0.children] })
    } else if decimal_of(row->Ok_0[columns->0.price]) is None {
        Err(ReasonView::BadPrice { text: row->Ok_0[columns->0.price] })
    } else if count_of(row->Ok_0[columns->0.adults])->0 + count_of(
        row->Ok_0[columns->0.children],
    )->0 == 0 {
        Err(ReasonView::NoOccupants)
    } else if !checkin_of(row->Ok_0[columns->0.checkin])->0.has_next() {
        Err(ReasonView::NoCheckout)
    } else {
        Ok(
            InputView {
                city_code: row->Ok_0[columns->0.city_code],
                hotel_code: row->Ok_0[columns->0.hotel_code],
                room_type: row->Ok_0[columns->0.room_type],
                room_code: row->Ok_0[columns->0.room_code],
                meal: row->Ok_0[columns->0.meal],
                checkin: checkin_of(row->Ok_0[columns->0.checkin])->0,
                adults: count_of(row->Ok_0[columns->0.adults])->0,
                children: count_of(row->Ok_0[columns->0.children])->0,
                price: decimal_of(row->Ok_0[columns->0.price])->0,
                source: row->Ok_0[columns->0.source],
            },
        )
    }
}

/// The positions of an optional `Columns`.
pub open spec fn columns_view(columns: Option<Columns>) -> Option<ColumnsView> {
    match columns {
        Some(c) => Some(c@),
        None => None,
    }
}

/// Finds the column `name` in a header.
fn find_column(names: &Vec<String>, name: &str) -> (r: Option<usize>)
    ensures
        match r {
            Some(i) => column_of(fields_view(names@), name@) == Some(i as int),
            None => column_of(fields_view(names@), name@) is None,
        },
{
    let wanted = String::from_str(name);
    let ghost all = fields_view(names@);
    let mut first: Option<usize> = None;
    let mut last: usize = 0;
    let mut i: usize = 0;
    while i < names.len()
        invariant
            i <= names@.len(),
            all == fields_view(names@),
            wanted@ == name@,
            match first {
                Some(f) => {
                    &&& f <= last < i
                    &&& all[f as int] == name@
                    &&& all[last as int] == name@
                    &&& forall|j: int| 0 <= j < f ==> all[j] != name@
                    &&& forall|j: int| last < j < i ==> all[j] != name@
                },
                None => forall|j: int| 0 <= j < i ==> all[j] != name@,
            },
        decreases names@.len() - i,
    {
        if names[i] == wanted {
            if first.is_none() {
                first = Some(i);
            }
            last = i;
        }
        i = i + 1;
    }
    proof {
        all.index_of_first_ensures(name@);
        all.index_of_last_ensures(name@);
    }
    match first {
        Some(f) => if f == last {
            Some(f)
        } else {
            None
        },
        None => None,
    }
}

impl Columns {
    /// The ten columns in the order in which the feed is documented, and
    /// no others.
    pub fn positional() -> (r: Columns)
        ensures
            r@ == positional_columns(),
    {
        Columns {
            width: 10,
            city_code: 0,
            hotel_code: 1,
            room_type: 2,
            room_code: 3,
            meal: 4,
            checkin: 5,
            adults: 6,
            children: 7,
            price: 8,
            source: 9,
        }
    }

    /// Finds the columns under a header.
    pub fn resolve(header: &Result<Vec<String>, String>) -> (r: Option<Columns>)
        ensures
            columns_view(r) == columns_of(row_view(*header)),
    {
        let names = match header {
            Ok(names) => names,
            Err(_) => {
                return Some(Columns::positional());
            },
        };
        let city_code = find_column(names, "city_code");
        let hotel_code = find_column(names, "hotel_code");
        let room_type = find_column(names, "room_type");
        let room_code = find_column(names, "room_code");
        let meal = find_column(names, "meal");
        let checkin = find_column(names, "checkin");
        let adults = find_column(names, "adults");
        let children = find_column(names, "children");
        let price = find_column(names, "price");
        let source = find_column(names, "source");
        match (
            city_code,
            hotel_code,
            room_type,
            room_code,
            meal,
            checkin,
            adults,
            children,
            price,
            source,
        ) {
            (
                Some(city_code),
                Some(hotel_code),
                Some(room_type),
                Some(room_code),
                Some(meal),
                Some(checkin),
                Some(adults),
                Some(children),
                Some(price),
                Some(source),
            ) => Some(
                Columns {
                    width: names.len(),
                    city_code,
                    hotel_code,
                    room_type,
                    room_code,
                    meal,
                    checkin,
                    adults,
                    children,
                    price,
                    source,
                },
            ),
            _ => None,
        }
    }

    /// Tells whether a record of `len` fields has a field at every position.
    fn fits(&self, len: usize) -> (r: bool)
        ensures
            r == self@.within(len as int),
    {
        self.city_code < len && self.hotel_code < len && self.room_type < len && self.room_code
            < len && self.meal < len && self.checkin < len && self.adults < len && self.children
            < len && self.price < len && self.source < len
    }
}

impl Input {
    /// Reads one record of the feed.
    pub fn from_row(columns: &Option<Columns>, row: &Result<Vec<String>, String>) -> (r: Result<
        Input,
        Reason,
    >)
        ensures
            match r {
                Ok(input) => input.wf() && input_of(columns_view(*columns), row_view(*row)) == Ok::<
                    InputView,
                    ReasonView,
                >(input@),
                Err(reason) => input_of(columns_view(*columns), row_view(*row)) == Err::<
                    InputView,
                    ReasonView,
                >(reason@),
            },
    {
        let fields = match row {
            Ok(fields) => fields,
            Err(error) => {
                return Err(Reason::Unreadable { error: error.clone() });
            },
        };
        let columns = match columns {
            Some(columns) => columns,
            None => {
                return Err(Reason::MissingColumn);
            },
        };
        if fields.len() != columns.width {
            return Err(Reason::WrongLength { expected: columns.width, found: fields.len() });
        }
        if !columns.fits(fields.len()) {
            return Err(Reason::MissingColumn);
        }
        let checkin = match deserialize_checkin(fields[columns.checkin].as_str()) {
            Some(checkin) => checkin,
            None => {
                return Err(Reason::BadCheckin { text: fields[columns.checkin].clone() });
            },
        };
        let adults = match parse_count(fields[columns.adults].as_str()) {
            Some(adults) => adults,
            None => {
                return Err(Reason::BadAdults { text: fields[columns.adults].clone() });
            },
        };
        let children = match parse_count(fields[columns.children].as_str()) {
            Some(children) => children,
            None => {
                return Err(Reason::BadChildren { text: fields[columns.children].clone() });
            },
        };
        let price = match Decimal::parse(fields[columns.price].as_str()) {
            Some(price) => price,
            None => {
                return Err(Reason::BadPrice { text: fields[columns.price].clone() });
            },
        };
        if adults == 0 && children == 0 {
            return Err(Reason::NoOccupants);
        }
        if checkin.is_last() {
            return Err(Reason::NoCheckout);
        }
        Ok(
            Input {
                city_code: fields[columns.city_code].clone(),
                hotel_code: fields[columns.hotel_code].clone(),
                room_type: fields[columns.room_type].clone(),
                room_code: fields[columns.room_code].clone(),
                meal: fields[columns.meal].clone(),
                checkin,
                adults,
                children,
                price,
                source: fields[columns.source].clone(),
            },
        )
    }
}

} // verus!
