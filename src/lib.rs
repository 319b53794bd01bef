//! Byte buffers that read and write themselves as hexadecimal text, in a
//! fixed-length form (whose length is a type parameter) and a growable one.
//!
//! `codec` holds the digit-level rules and the loops shared by every buffer;
//! `laws` states what holds across calls (formatting then parsing gives the
//! bytes back, and so on).
pub mod codec;
pub mod error;
pub mod fmt;
pub mod hex_array;
pub mod hex_slice;
pub mod hex_string;
pub mod hex_vector;
pub mod laws;
mod wrappers;

pub use codec::{
    decode_byte, decode_nibble, encode_byte, parse_quartet, parse_quartet_lower,
    parse_quartet_upper, to_hex_lower, to_hex_upper, Case, CasePolicy,
};
pub use error::{Error, FromSliceError, FromStrError, HexArrayError, HexVectorError};
pub use fmt::{Lower, Upper};
pub use hex_array::HexArray;
pub use hex_slice::HexSlice;
pub use hex_string::{HexString, HexStringN};
pub use hex_vector::HexVector;
