//! Card search over an upstream trading-card database: the upstream response
//! format, its normalisation into uniform card records, and the engine that
//! addresses the upstream search endpoint.
pub mod card;
pub mod infrastructure;
pub mod json;
pub mod scryfall;
pub mod upstream;
