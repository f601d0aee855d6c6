//! The compression session.

use crate::compress::options::CompressionOptions;
use crate::compress::options::CompressionParams;
use crate::compress::run::CompressionModel;
use crate::compress::run::CompressionRun;
use crate::compress::run::INITIAL_CAPACITY;
use vstd::prelude::*;

verus! {

/// A compression session: the configuration record that the engine is set
/// up with, and whether the engine's handle for it is still alive.
///
/// A session is active from [`Compressor::from_options`] until
/// [`Compressor::deinit`], and only an active one compresses.
#[derive(Debug)]
pub struct Compressor {
    params: CompressionParams,
    active: bool,
}

impl Compressor {
    /// The configuration record of the session.
    pub closed spec fn spec_params(&self) -> CompressionParams {
        self.params
    }

    /// Whether the session is active.
    pub closed spec fn spec_is_active(&self) -> bool {
        self.active
    }

    /// Creates a new [`Compressor`] from [`options`].
    ///
    /// [`options`]: CompressionOptions
    pub fn from_options(options: CompressionOptions) -> (r: Self)
        ensures
            r.is_active(),
            r.spec_params() == options.params(),
    {
        Compressor { params: options.to_c_type(), active: true }
    }

    /// The configuration record of the session.
    pub fn params(&self) -> (r: &CompressionParams)
        ensures
            *r == self.spec_params(),
    {
        &self.params
    }

    /// Whether the session is active.
    #[verifier::when_used_as_spec(spec_is_active)]
    pub fn is_active(&self) -> (r: bool)
        ensures
            r == self.spec_is_active(),
    {
        self.active
    }

    /// Reinitializes the compressor: the same record, and a session that is
    /// as new.
    pub fn reinit(self) -> (r: Self)
        requires
            self.is_active(),
        ensures
            r.is_active(),
            r.spec_params() == self.spec_params(),
    {
        Compressor { params: self.params, active: true }
    }

    /// Deinitializes the compressor.
    ///
    /// It cannot be used to compress further.
    pub fn deinit(&mut self)
        requires
            old(self).is_active(),
        ensures
            !final(self).is_active(),
            final(self).spec_params() == old(self).spec_params(),
    {
        self.active = false;
    }

    /// Begins to compress `input` with the [`options`] that the session was
    /// made from.
    ///
    /// [`options`]: CompressionOptions
    pub fn compress(&self, input: Vec<u8>) -> (run: CompressionRun)
        requires
            self.is_active(),
        ensures
            run.wf(),
            run@ == CompressionModel::start(input@, INITIAL_CAPACITY as nat),
    {
        CompressionRun::new(input)
    }
}

} // verus!
