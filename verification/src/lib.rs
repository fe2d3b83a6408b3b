//! Conversion between the proleptic Gregorian calendar and the Japanese
//! imperial era calendar (wareki).
//!
//! The crate holds a fixed table of eras, each with the Gregorian day on which
//! it began, and two conversions over that table: [`to_wareki`] names the era
//! and the era year of a Gregorian day, and [`from_wareki`] rebuilds the
//! Gregorian day from an era designator, an era year, a month and a day.
//! Every function carries a contract that Verus proves; the laws that tie the
//! two conversions together are stated as proof functions in [`laws`].

pub mod c_api;
pub mod convert;
pub mod date;
pub mod designator;
pub mod era;
pub mod laws;
pub mod lookup;
pub mod table_laws;

pub use c_api::CGregorianDate;
pub use convert::{from_wareki, to_wareki, Wareki, WarekiError};
pub use date::GregorianDate;
pub use era::{eras, Era, EraData};
