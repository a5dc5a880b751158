//! Verified core of an interactive map-exploration UI: a catalog of named
//! islets, a single-selection state machine with exclusive highlighting, and
//! the two-stage fetch pipeline that resolves a selection to a remote page,
//! scrapes an embedded screenshot path out of it, and gates the fetched image
//! on an averaged-color heuristic before committing it to the display.

pub mod catalog;
pub mod gate;
pub mod phase;
pub mod pipeline;
pub mod scrape;
pub mod scroll;
pub mod selection;
