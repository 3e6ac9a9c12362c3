//! Looks up a household's next waste collection on the council's bin-collection page,
//! works out which bins are due and on which date, and renders the result as JSON.
pub mod bins;
pub mod config;
pub mod date;
pub mod extract;
pub mod pipeline;
pub mod report;
pub mod text;
