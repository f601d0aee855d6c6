//! A streaming session driver for the LZHAM codec.
//!
//! The codec itself is an opaque engine that works through a chunked
//! primitive: it is handed the unconsumed rest of the input and the free room
//! of the output, and answers with how much it took, what it produced and a
//! status. This crate holds everything around that primitive, and nothing of
//! the engine: the caller brings it along as a function from a chunk and a
//! room to an answer.
//!
//! - [`rate`] maps a table update rate to the intervals it stands for.
//! - [`compress`] and [`decompress`] hold, for each direction, the options
//!   and the configuration record made of them, the statuses, the session,
//!   and one run of the loop that feeds the engine until it reports a
//!   terminal status.
//! - [`stream`] holds what the two loops share: the output buffer, which
//!   tracks its valid length apart from its capacity, and the bookkeeping of
//!   the offsets.
//!
//! A run takes in one answer at a time with `advance`, or calls the engine
//! itself until the end with `drive`. What it does with each answer is a
//! function of the run and the answer alone, written down in
//! [`stream::StreamModel::next`] and [`stream::StreamModel::verdict`].

pub mod compress;
pub mod decompress;
pub mod rate;
pub mod stream;

pub use compress::{compress, compress_with_options, CompressionOptions};
pub use decompress::{decompress, decompress_with_options, DecompressionOptions};
pub use rate::{TableUpdateInterval, TableUpdateRate};
