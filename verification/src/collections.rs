//! Containers built directly on tagged storage.

pub mod laws;
pub mod raw;
pub mod vect;

pub use vect::Drain;
pub use vect::IntoIter;
pub use vect::Vect;
