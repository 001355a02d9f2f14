//! Verified core of the ezpz toolkit: the decisions that sit around the
//! technical-analysis plugin, the table viewer and the file formatter.

pub mod text;

pub mod params;
pub mod formatter;
pub mod layout;
pub mod components;
pub mod viewer;
pub mod schema;
pub mod series;
pub mod standard;
