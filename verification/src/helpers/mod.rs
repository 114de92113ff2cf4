//! Helpers shared by the rest of the library.

pub mod lookup;
pub mod order;
pub mod strings;
pub mod text;
