//! Enrichment of a hotel-booking feed with reference data.
//!
//! Three byte streams come in: the booking feed, the hotel table and the
//! room-name table. One report and a list of diagnostics come out. Every
//! function here is a pure function of its arguments.
//!
//! Every line and every record is judged by itself: one that cannot be used
//! is left out and reported, and the others are not touched by it. The
//! report always begins with its header line.
//!
//! Amounts are exact decimals. Where an amount is divided or shortened, the
//! result is rounded to the nearest unit, a tie away from zero. Dates are
//! shown as year, month and day with hyphens between them.

pub mod date;
pub mod decimal;
pub mod delimited;
pub mod diagnostic;
pub mod feed;
pub mod hotel;
pub mod input;
pub mod json;
pub mod laws;
pub mod lines;
pub mod output;
pub mod pipeline;
pub mod report;
pub mod room;
pub mod text;
