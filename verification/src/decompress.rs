//! Decompression related items.

pub mod options;
pub mod run;
pub mod session;
pub mod status;

pub use options::{DecompressionFlag, DecompressionOptions, DecompressionParams};
pub use run::{DecompressionModel, DecompressionReply, DecompressionRun};
pub use session::Decompressor;
pub use status::{DecompressionStatus, DECOMPRESSION_CODES};

use vstd::prelude::*;

verus! {

/// The configuration record of the default [`options`].
///
/// [`options`]: DecompressionOptions
pub open spec fn default_decompression_params() -> DecompressionParams {
    DecompressionParams {
        dict_size_log2: 26,
        table_update_rate: 8,
        decompress_flags: 0,
        num_seed_bytes: 0,
        seed_bytes: None,
        table_max_update_interval: 64,
        table_update_interval_slow_rate: 64,
    }
}

/// Begins to decompress `input`, of which `uncompressed_size` bytes are to
/// come, with default [`options`]: the session to set the engine up with, and
/// the run to drive.
///
/// [`options`]: DecompressionOptions
pub fn decompress(input: Vec<u8>, uncompressed_size: usize) -> (r: (Decompressor, DecompressionRun))
    requires
        uncompressed_size <= isize::MAX,
    ensures
        r.0.is_active(),
        r.0.spec_params() == default_decompression_params(),
        r.1.wf(),
        r.1@ == DecompressionModel::start(input@, uncompressed_size as nat),
{
    decompress_with_options(input, uncompressed_size, DecompressionOptions::default())
}

/// Begins to decompress `input`, of which `uncompressed_size` bytes are to
/// come, with provided [`options`]: the session to set the engine up with,
/// and the run to drive.
///
/// [`options`]: DecompressionOptions
pub fn decompress_with_options(
    input: Vec<u8>,
    uncompressed_size: usize,
    options: DecompressionOptions,
) -> (r: (Decompressor, DecompressionRun))
    requires
        uncompressed_size <= isize::MAX,
    ensures
        r.0.is_active(),
        r.0.spec_params() == options.params(),
        r.1.wf(),
        r.1@ == DecompressionModel::start(input@, uncompressed_size as nat),
{
    let decompressor = Decompressor::from_options(options);
    let run = decompressor.decompress(input, uncompressed_size);
    (decompressor, run)
}

} // verus!
