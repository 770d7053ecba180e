//! OCSF: the event schema, its builders and its renderings.

pub mod attribute_laws;
pub mod attributes;
pub mod builders;
pub mod document;
pub mod enums;
pub mod event_laws;
pub mod events;
pub mod line_laws;
pub mod objects;
pub mod raw_laws;
pub mod raw_text;
pub mod reading;
pub mod reading_laws;
pub mod round_trip;
pub mod shorthand;
