//! What holds of the library as a whole.
pub mod composition;
pub mod configuration;
pub mod executable;
pub mod notation;
pub mod session;
