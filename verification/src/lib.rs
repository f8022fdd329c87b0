//! A compiler for the UDMF textmap dialect: source text is parsed, checked against the
//! schema of each entity kind and linked into a level graph with stable keys, and a graph
//! is written back as text.

pub mod map;
pub mod number;
pub mod point;
pub mod string8;
pub mod wad;

pub use crate::number::{Decimal, Number};
pub use crate::point::Point;
pub use crate::string8::{IntoString8Error, String8};
