//! Decoding and structural validation of DEX containers from raw bytes.

pub mod dex;
pub mod endian;
pub mod error;
pub mod header;
pub mod laws;
pub mod layout;
pub mod reader;
pub mod text;
pub mod types;

pub use dex::Dex;
pub use error::Error;
pub use header::Header;
pub use layout::{ENDIAN_CONSTANT, HEADER_SIZE, REVERSE_ENDIAN_CONSTANT};
pub use types::{ClassDef, Field, Method, Prototype};
