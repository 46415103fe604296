//! Binary wire codec for a game network protocol.
//!
//! Values are encoded into and decoded from explicit byte buffers with a
//! moving cursor: `encode` appends the value's exact wire bytes to a
//! `Vec<u8>` sink, `decode` reads them from a byte source at a cursor
//! position, and `len` predicts how many bytes `encode` will write.
//!
//! The layers, leaves first:
//! - [`codec`]: fixed-width big-endian integer codecs, the foundation.
//! - [`enum_codec`]: a generic adapter that lifts a one-byte discriminant
//!   table into a codec for a closed enumerated type.
//! - [`consts`]: the enumerated protocol types (dimension, difficulty,
//!   gamemode, chat color).
//! - [`slot`]: the optional inventory-slot record, which embeds an
//!   externally encoded tagged binary blob.

pub mod codec;
pub mod consts;
pub mod enum_codec;
pub mod slot;
