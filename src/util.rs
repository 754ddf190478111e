//! Small general-purpose collections.

pub mod bool_vec;
