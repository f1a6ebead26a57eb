//! The rows of the report: a booking joined with its hotel and its room
//! name, with the derived fields worked out.

use crate::date::Date;
use crate::decimal::{fixed_text, Decimal};
use crate::delimited::fields_view;
use crate::diagnostic::{Reason, ReasonView};
use crate::hotel::{Hotel, HotelTable, HotelView};
use crate::input::{Input, InputView};
use crate::room::{RoomKey, RoomKeyView, RoomTable};
use crate::text::{nat_string, nat_text};
use vstd::prelude::*;
use vstd::string::*;

verus! {

/// One row of the report.
#[derive(Clone, Debug, PartialEq, Eq)]
pub struct Output {
    /// Room type and meal plan with a space between them.
    pub room_type_with_meal: String,
    pub room_code: String,
    pub source: String,
    pub hotel_name: String,
    pub city_name: String,
    pub city_code: String,
    /// The hotel's category with one decimal.
    pub hotel_category: String,
    /// Adults and children together.
    pub pax: u64,
    pub adults: u32,
    pub children: u32,
    pub room_name: String,
    pub checkin: Date,
    /// The day after check-in.
    pub checkout: Date,
    /// The price of one night for one occupant, with two decimals.
    pub price: String,
}

/// An `Output` with its texts as sequences of characters.
pub struct OutputView {
    pub room_type_with_meal: Seq<char>,
    pub room_code: Seq<char>,
    pub source: Seq<char>,
    pub hotel_name: Seq<char>,
    pub city_name: Seq<char>,
    pub city_code: Seq<char>,
    pub hotel_category: Seq<char>,
    pub pax: u64,
    pub adults: u32,
    pub children: u32,
    pub room_name: Seq<char>,
    pub checkin: Date,
    pub checkout: Date,
    pub price: Seq<char>,
}

impl View for Output {
    type V = OutputView;

    open spec fn view(&self) -> OutputView {
        OutputView {
            room_type_with_meal: self.room_type_with_meal@,
            room_code: self.room_code@,
            source: self.source@,
            hotel_name: self.hotel_name@,
            city_name: self.city_name@,
            city_code: self.city_code@,
            hotel_category: self.hotel_category@,
            pax: self.pax,
            adults: self.adults,
            children: self.children,
            room_name: self.room_name@,
            checkin: self.checkin,
            checkout: self.checkout,
            price: self.price@,
        }
    }
}

/// How the report shows a price shared among `pax` occupants: the exact
/// quotient, rounded to the nearest hundredth, a tie away from zero, with two
/// decimals.
pub open spec fn price_text(price: Decimal, pax: nat) -> Seq<char> {
    fixed_text(price.negative, price.share(pax, 2), 2)
}

/// How the report shows a category: rounded to the nearest tenth, a tie away
/// from zero, with one decimal.
pub open spec fn category_text(category: Decimal) -> Seq<char> {
    fixed_text(category.negative, category.share(1, 1), 1)
}

/// The row that a booking, its hotel and its room name make.
pub open spec fn output_of(input: InputView, hotel: HotelView, room_name: Seq<char>) -> OutputView {
    OutputView {
        room_type_with_meal: input.room_type + seq![' '] + input.meal,
        room_code: input.room_code,
        source: input.source,
        hotel_name: hotel.name,
        city_name: hotel.city,
        city_code: input.city_code,
        hotel_category: category_text(hotel.category),
        pax: (input.adults + input.children) as u64,
        adults: input.adults,
        children: input.children,
        room_name: room_name,
        checkin: input.checkin,
        checkout: input.checkin.next(),
        price: price_text(input.price, (input.adults + input.children) as nat),
    }
}

/// The row that a booking makes with the two tables, or why it makes none:
/// the hotel is looked up first, and the room name only where the hotel was
/// found.
pub open spec fn enriched(
    input: InputView,
    hotels: Map<Seq<char>, HotelView>,
    rooms: Map<RoomKeyView, Seq<char>>,
) -> Result<OutputView, ReasonView> {
    let key = RoomKeyView {
        hotel_code: input.hotel_code,
        source: input.source,
        room_code: input.room_code,
    };
    if !hotels.contains_key(input.hotel_code) {
        Err(ReasonView::UnknownHotel { hotel_code: input.hotel_code })
    } else if !rooms.contains_key(key) {
        Err(ReasonView::UnknownRoom { hotel_code: input.hotel_code, room_code: input.room_code })
    } else {
        Ok(output_of(input, hotels[input.hotel_code], rooms[key]))
    }
}

/// The names of the report's columns, in their order.
pub open spec fn header_row() -> Seq<Seq<char>> {
    seq![
        "room_type meal"@,
        "room_code"@,
        "source"@,
        "hotel_name"@,
        "city_name"@,
        "city_code"@,
        "hotel_category"@,
        "pax"@,
        "adults"@,
        "children"@,
        "room_name"@,
        "checkin"@,
        "checkout"@,
        "price"@,
    ]
}

impl OutputView {
    /// The fields of the row as the report shows them, in the order of its
    /// columns.
    pub open spec fn row(&self) -> Seq<Seq<char>> {
        seq![
            self.room_type_with_meal,
            self.room_code,
            self.source,
            self.hotel_name,
            self.city_name,
            self.city_code,
            self.hotel_category,
            nat_text(self.pax as nat),
            nat_text(self.adults as nat),
            nat_text(self.children as nat),
            self.room_name,
            self.checkin.iso_text(),
            self.checkout.iso_text(),
            self.price,
        ]
    }
}

/// Writes a price shared among `pax` occupants.
pub fn serialize_price(price: &Decimal, pax: u64) -> (r: String)
    requires
        price.wf(),
        pax > 0,
    ensures
        r@ == price_text(*price, pax as nat),
{
    price.share_text(pax, 2)
}

/// Writes a category.
pub fn serialize_category(category: &Decimal) -> (r: String)
    requires
        category.wf(),
    ensures
        r@ == category_text(*category),
{
    category.share_text(1, 1)
}

/// The names of the report's columns, in their order.
pub fn header() -> (r: Vec<String>)
    ensures
        fields_view(r@) == header_row(),
{
    let mut names: Vec<String> = Vec::new();
    names.push(String::from_str("room_type meal"));
    names.push(String::from_str("room_code"));
    names.push(String::from_str("source"));
    names.push(String::from_str("hotel_name"));
    names.push(String::from_str("city_name"));
    names.push(String::from_str("city_code"));
    names.push(String::from_str("hotel_category"));
    names.push(String::from_str("pax"));
    names.push(String::from_str("adults"));
    names.push(String::from_str("children"));
    names.push(String::from_str("room_name"));
    names.push(String::from_str("checkin"));
    names.push(String::from_str("checkout"));
    names.push(String::from_str("price"));
    names
}

impl Output {
    /// Joins a booking with its hotel and its room name.
    pub fn new(input: Input, hotel: &Hotel, room_name: String) -> (r: Output)
        requires
            input.wf(),
            hotel.wf(),
        ensures
            r@ == output_of(input@, hotel@, room_name@),
            r.checkin.wf(),
            r.checkout.wf(),
    {
        proof {
            reveal_strlit(" ");
            assert(" "@ =~= seq![' ']);
        }
        let pax: u64 = input.adults as u64 + input.children as u64;
        let price = serialize_price(&input.price, pax);
        let hotel_category = serialize_category(&hotel.category);
        let checkout = input.checkin.succ();
        let mut room_type_with_meal = input.room_type;
        room_type_with_meal.append(" ");
        room_type_with_meal.append(input.meal.as_str());
        Output {
            room_type_with_meal,
            room_code: input.room_code,
            source: input.source,
            hotel_name: hotel.name.clone(),
            city_name: hotel.city.clone(),
            city_code: input.city_code,
            hotel_category,
            pax,
            adults: input.adults,
            children: input.children,
            room_name,
            checkin: input.checkin,
            checkout,
            price,
        }
    }

    /// The fields of the row as the report shows them, in the order of its
    /// columns.
    pub fn to_row(&self) -> (r: Vec<String>)
        ensures
            fields_view(r@) == self@.row(),
    {
        let mut fields: Vec<String> = Vec::new();
        fields.push(self.room_type_with_meal.clone());
        fields.push(self.room_code.clone());
        fields.push(self.source.clone());
        fields.push(self.hotel_name.clone());
        fields.push(self.city_name.clone());
        fields.push(self.city_code.clone());
        fields.push(self.hotel_category.clone());
        fields.push(nat_string(self.pax as u128));
        fields.push(nat_string(self.adults as u128));
        fields.push(nat_string(self.children as u128));
        fields.push(self.room_name.clone());
        fields.push(self.checkin.to_iso_string());
        fields.push(self.checkout.to_iso_string());
        fields.push(self.price.clone());
        fields
    }
}

/// Joins a booking with the two tables: the hotel is looked up first, and
/// the room name only where the hotel was found.
pub fn enrich(input: Input, hotels: &HotelTable, rooms: &RoomTable) -> (r: Result<Output, Reason>)
    requires
        input.wf(),
        hotels.wf(),
        rooms.wf(),
    ensures
        match r {
            Ok(output) => enriched(input@, hotels@, rooms@) == Ok::<OutputView, ReasonView>(output@)
                && output.checkin.wf() && output.checkout.wf(),
            Err(reason) => enriched(input@, hotels@, rooms@) == Err::<OutputView, ReasonView>(
                reason@,
            ),
        },
{
    let hotel = match hotels.get(input.hotel_code.as_str()) {
        Some(hotel) => hotel,
        None => {
            return Err(Reason::UnknownHotel { hotel_code: input.hotel_code });
        },
    };
    let key = RoomKey {
        hotel_code: input.hotel_code.clone(),
        source: input.source.clone(),
        room_code: input.room_code.clone(),
    };
    let room_name = match rooms.get(&key) {
        Some(name) => name.clone(),
        None => {
            return Err(
                Reason::UnknownRoom { hotel_code: input.hotel_code, room_code: input.room_code },
            );
        },
    };
    Ok(Output::new(input, hotel, room_name))
}

} // verus!
