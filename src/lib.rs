//! Reading fixed-width integers, length-prefixed arrays and length-prefixed
//! strings from a sequential byte source.

pub mod bytes;
pub mod cursor;
pub mod decoder;
pub mod error;
pub mod lemmas;
pub mod reader;
pub mod source;

pub use bytes::{be4, be8, i32_be, i32_le, i64_be, i64_le, le4, le8, u32_be, u32_le, u64_be, u64_le};
pub use cursor::ByteReader;
pub use decoder::{Decoder, I32Be, I32Le, I64Be, I64Le, U32Be, U32Le, U64Be, U64Le};
pub use error::{ReadError, ReaderResult};
pub use reader::ReadExt;
pub use source::ByteSource;
