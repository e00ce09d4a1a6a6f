//! Logic of a small directory file server: request resolution, content
//! classification, listing rendering and the index synchronisation cycle.

pub mod args;
pub mod error;
pub mod listing;
pub mod media;
pub mod reorder;
pub mod resolve;
pub mod response;
pub mod scan;
pub mod startup;
pub mod sync;
pub mod text;
