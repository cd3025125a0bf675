//! Encoding and decoding of 2D locations in an Anoto-style dot pattern.
//!
//! A codec turns page coordinates into a matrix of two-bit symbols in which
//! every small window is unique, and turns any such window back into its
//! position, its section and its rotation.
pub mod exceptions;
pub mod integer;
pub mod bitmatrix;
pub mod sequences;
pub mod helpers;
pub mod codec;
pub mod anoto_sequences;
pub mod defaults;
pub mod round_trip;

pub use bitmatrix::BitMatrix;
pub use codec::AnotoCodec;
pub use exceptions::{CodecError, DecodeFailure, DecodingError};

pub mod window_tables;
