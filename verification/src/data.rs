//! Data types that come with the library.
pub mod ne_vec;
pub mod validated;
