//! Compression related items.

pub mod options;
pub mod run;
pub mod session;
pub mod status;

pub use options::{CompressionFlag, CompressionLevel, CompressionOptions, CompressionParams};
pub use run::{CompressionModel, CompressionReply, CompressionRun, INITIAL_CAPACITY};
pub use session::Compressor;
pub use status::{CompressionStatus, COMPRESSION_CODES};

use vstd::prelude::*;

verus! {

/// The configuration record of the default [`options`].
///
/// [`options`]: CompressionOptions
pub open spec fn default_compression_params() -> CompressionParams {
    CompressionParams {
        dict_size_log2: 26,
        level: 2,
        table_update_rate: 8,
        max_helper_threads: 0,
        compress_flags: 0,
        num_seed_bytes: 0,
        seed_bytes: None,
        table_max_update_interval: 64,
        table_update_interval_slow_rate: 64,
    }
}

/// Begins to compress `input` with default [`options`]: the session to set
/// the engine up with, and the run to drive.
///
/// [`options`]: CompressionOptions
pub fn compress(input: Vec<u8>) -> (r: (Compressor, CompressionRun))
    ensures
        r.0.is_active(),
        r.0.spec_params() == default_compression_params(),
        r.1.wf(),
        r.1@ == CompressionModel::start(input@, INITIAL_CAPACITY as nat),
{
    compress_with_options(input, CompressionOptions::default())
}

/// Begins to compress `input` with provided [`options`]: the session to set
/// the engine up with, and the run to drive.
///
/// [`options`]: CompressionOptions
pub fn compress_with_options(input: Vec<u8>, options: CompressionOptions) -> (r: (
    Compressor,
    CompressionRun,
))
    ensures
        r.0.is_active(),
        r.0.spec_params() == options.params(),
        r.1.wf(),
        r.1@ == CompressionModel::start(input@, INITIAL_CAPACITY as nat),
{
    let compressor = Compressor::from_options(options);
    let run = compressor.compress(input);
    (compressor, run)
}

} // verus!
