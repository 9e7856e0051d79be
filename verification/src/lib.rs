//! Event listings from two differently shaped HTML sources, normalised
//! into one record format.

pub mod aggregate;
pub mod calendar;
pub mod common;
pub mod dates;
pub mod html;
pub mod lib19hz;
pub mod libfoopee;
pub mod server;
pub mod table;
pub mod text;
