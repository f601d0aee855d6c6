//! The statuses of compression.

use crate::stream::Signal;
use vstd::prelude::*;

verus! {

/// How many status codes the engine has for compression: the codes are the
/// numbers below this one.
pub const COMPRESSION_CODES: u32 = 8;

/// The status of compression.
///
/// The first three are continuable: the engine expects another call. From
/// [`CompressionStatus::Success`] on they are terminal. The driver itself
/// reports [`CompressionStatus::Failed`] where it gives a run up.
#[derive(Clone, Copy, Debug, PartialEq, Eq, Structural)]
pub enum CompressionStatus {
    NotFinished,
    NeedsMoreInput,
    HasMoreOutput,
    Success,
    Failed,
    FailedInitialization,
    InvalidParameter,
    OutputBufferTooSmall,
}

impl CompressionStatus {
    /// The engine's number for this status.
    pub open spec fn code(self) -> u32 {
        match self {
            CompressionStatus::NotFinished => 0,
            CompressionStatus::NeedsMoreInput => 1,
            CompressionStatus::HasMoreOutput => 2,
            CompressionStatus::Success => 3,
            CompressionStatus::Failed => 4,
            CompressionStatus::FailedInitialization => 5,
            CompressionStatus::InvalidParameter => 6,
            CompressionStatus::OutputBufferTooSmall => 7,
        }
    }

    /// Whether no further call of the engine follows this status.
    pub open spec fn is_terminal(self) -> bool {
        self.code() >= CompressionStatus::Success.code()
    }

    /// What this status means to the loop.
    pub open spec fn signal(self) -> Signal {
        if self.is_terminal() {
            Signal::Terminal
        } else if self == CompressionStatus::HasMoreOutput {
            Signal::MoreRoom
        } else {
            Signal::Again
        }
    }

    /// The status that the engine's number `status` stands for.
    pub fn from_c_type(status: u32) -> (r: Self)
        requires
            status < COMPRESSION_CODES,
        ensures
            r.code() == status,
    {
        match status {
            0 => CompressionStatus::NotFinished,
            1 => CompressionStatus::NeedsMoreInput,
            2 => CompressionStatus::HasMoreOutput,
            3 => CompressionStatus::Success,
            4 => CompressionStatus::Failed,
            5 => CompressionStatus::FailedInitialization,
            6 => CompressionStatus::InvalidParameter,
            _ => CompressionStatus::OutputBufferTooSmall,
        }
    }

    /// The engine's number for this status.
    pub fn to_c_type(self) -> (r: u32)
        ensures
            r == self.code(),
    {
        match self {
            CompressionStatus::NotFinished => 0,
            CompressionStatus::NeedsMoreInput => 1,
            CompressionStatus::HasMoreOutput => 2,
            CompressionStatus::Success => 3,
            CompressionStatus::Failed => 4,
            CompressionStatus::FailedInitialization => 5,
            CompressionStatus::InvalidParameter => 6,
            CompressionStatus::OutputBufferTooSmall => 7,
        }
    }

    /// Whether the status is of success or not.
    pub fn is_success(&self) -> (r: bool)
        ensures
            r == (*self == CompressionStatus::Success),
    {
        match self {
            CompressionStatus::Success => true,
            _ => false,
        }
    }

    /// Whether the status is success or a failure code.
    ///
    /// If failure, it cannot be recovered.
    pub fn is_success_or_first_failure(&self) -> (r: bool)
        ensures
            r == self.is_terminal(),
    {
        self.to_c_type() >= 3
    }

    /// The status that the caller gets for a run that came to this status:
    /// this one if its streams could be read and written, and
    /// [`CompressionStatus::Failed`] if not.
    pub fn after_io(self, io_ok: bool) -> (r: Self)
        ensures
            r == if io_ok {
                self
            } else {
                CompressionStatus::Failed
            },
    {
        if io_ok {
            self
        } else {
            CompressionStatus::Failed
        }
    }

    /// What this status means to the loop.
    pub fn to_signal(&self) -> (r: Signal)
        ensures
            r == self.signal(),
    {
        if self.is_success_or_first_failure() {
            Signal::Terminal
        } else {
            match self {
                CompressionStatus::HasMoreOutput => Signal::MoreRoom,
                _ => Signal::Again,
            }
        }
    }
}

/// Each status has a code of its own below [`COMPRESSION_CODES`], and each
/// such code is that of a status. The continuable statuses are the three
/// below success, which is the first terminal one; each status above it is a
/// failure of its own.
pub proof fn lemma_compression_codes(a: CompressionStatus, b: CompressionStatus, code: u32)
    ensures
        a.code() < COMPRESSION_CODES,
        a.code() == b.code() ==> a == b,
        code < COMPRESSION_CODES ==> exists|s: CompressionStatus| s.code() == code,
        !a.is_terminal() <==> a == CompressionStatus::NotFinished || a
            == CompressionStatus::NeedsMoreInput || a == CompressionStatus::HasMoreOutput,
        a.is_terminal() && a != CompressionStatus::Success ==> a.code()
            > CompressionStatus::Success.code(),
{
    if code < COMPRESSION_CODES {
        let s = if code == 0 {
            CompressionStatus::NotFinished
        } else if code == 1 {
            CompressionStatus::NeedsMoreInput
        } else if code == 2 {
            CompressionStatus::HasMoreOutput
        } else if code == 3 {
            CompressionStatus::Success
        } else if code == 4 {
            CompressionStatus::Failed
        } else if code == 5 {
            CompressionStatus::FailedInitialization
        } else if code == 6 {
            CompressionStatus::InvalidParameter
        } else {
            CompressionStatus::OutputBufferTooSmall
        };
        assert(s.code() == code);
    }
}

} // verus!
