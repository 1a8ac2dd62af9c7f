//! Codec for the TASD container format: a header followed by a flat sequence
//! of key / length / payload frames, each holding one typed record.

pub mod bytes;
pub mod codec;
pub mod lookup;
pub mod text;
pub mod util;
