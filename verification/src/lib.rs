//! A terminal-resident, incrementally updated tabular viewer core.
//!
//! The library owns the logic of the viewer: formatting counts with
//! base-1024 magnitude suffixes, distributing horizontal space across
//! columns, virtualizing an append-only row sequence behind a scrolling
//! viewport, partitioning the terminal surface into regions, and modelling
//! the phases of the background computation that produces the rows.
//! Drawing itself (styled text into a terminal) is left to the caller,
//! which receives a fully computed render plan each refresh tick.

pub mod cells;
pub mod column;
pub mod dep;
pub mod layout;
pub mod magnitude;
pub mod screen;
pub mod status;
pub mod table_view;
