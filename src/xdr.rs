//! XDR: External Data Representation Standard (IETF RFC 4506).

pub mod mapping;
pub mod primitive;
pub mod string;


pub use crate::xdr::mapping::{Bitmask, Enum, EnumMapping};
pub use crate::xdr::primitive::{I32, I64, U32, U64};

pub use crate::xdr::string::String;
