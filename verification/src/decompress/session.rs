//! The decompression session.

use crate::decompress::options::DecompressionOptions;
use crate::decompress::options::DecompressionParams;
use crate::decompress::run::DecompressionModel;
use crate::decompress::run::DecompressionRun;
use vstd::prelude::*;

verus! {

/// A decompression session: the configuration record that the engine is set
/// up with, and whether the engine's handle for it is still alive.
///
/// A session is active from [`Decompressor::from_options`] until
/// [`Decompressor::deinit`], and only an active one decompresses.
#[derive(Debug)]
pub struct Decompressor {
    params: DecompressionParams,
    active: bool,
}

impl Decompressor {
    /// The configuration record of the session.
    pub closed spec fn spec_params(&self) -> DecompressionParams {
        self.params
    }

    /// Whether the session is active.
    pub closed spec fn spec_is_active(&self) -> bool {
        self.active
    }

    /// Creates a new [`Decompressor`] from [`options`].
    ///
    /// [`options`]: DecompressionOptions
    pub fn from_options(options: DecompressionOptions) -> (r: Self)
        ensures
            r.is_active(),
            r.spec_params() == options.params(),
    {
        Decompressor { params: options.to_c_type(), active: true }
    }

    /// The configuration record of the session.
    pub fn params(&self) -> (r: &DecompressionParams)
        ensures
            *r == self.spec_params(),
    {
        &self.params
    }

    /// Whether the session is active.
    #[verifier::when_used_as_spec(spec_is_active)]
    pub fn is_active(&self) -> (r: bool)
        ensures
            r == self.spec_is_active(),
    {
        self.active
    }

    /// Reinitializes the decompressor with new [`options`].
    ///
    /// [`options`]: DecompressionOptions
    pub fn reinit(self, options: DecompressionOptions) -> (r: Self)
        requires
            self.is_active(),
        ensures
            r.is_active(),
            r.spec_params() == options.params(),
    {
        Decompressor { params: options.to_c_type(), active: true }
    }

    /// Deinitializes the decompressor.
    ///
    /// It cannot be used to decompress further.
    pub fn deinit(&mut self)
        requires
            old(self).is_active(),
        ensures
            !final(self).is_active(),
            final(self).spec_params() == old(self).spec_params(),
    {
        self.active = false;
    }

    /// Begins to decompress `input`, of which `uncompressed_size` bytes are
    /// to come, with the [`options`] that the session was made from.
    ///
    /// [`options`]: DecompressionOptions
    pub fn decompress(&self, input: Vec<u8>, uncompressed_size: usize) -> (run: DecompressionRun)
        requires
            self.is_active(),
            uncompressed_size <= isize::MAX,
        ensures
            run.wf(),
            run@ == DecompressionModel::start(input@, uncompressed_size as nat),
    {
        DecompressionRun::new(input, uncompressed_size)
    }
}

} // verus!
