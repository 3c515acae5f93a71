//! Tasks and everything recorded under them.
pub mod encode;
pub mod model;
pub mod store;
pub mod written;
