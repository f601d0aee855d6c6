//! The statuses of decompression.

use crate::stream::Signal;
use vstd::prelude::*;

verus! {

/// How many status codes the engine has for decompression: the codes are the
/// numbers below this one.
pub const DECOMPRESSION_CODES: u32 = 16;

/// The status of decompression.
///
/// The first three are continuable: the engine expects another call. From
/// [`DecompressionStatus::Success`] on they are terminal. The last,
/// [`DecompressionStatus::Failed`], is none of the engine's: the driver
/// reports it where it gives a run up.
#[derive(Clone, Copy, Debug, PartialEq, Eq, Structural)]
pub enum DecompressionStatus {
    NotFinished,
    HasMoreOutput,
    NeedsMoreInput,
    Success,
    FailedInitialization,
    OutputBufferTooSmall,
    ExpectedMoreRawBytes,
    BadCode,
    Adler32,
    BadRawBlock,
    BadCompBlockSyncCheck,
    BadZlibHeader,
    NeedSeedBytes,
    BadSeedBytes,
    BadSyncBlock,
    InvalidParameter,
    Failed,
}

impl DecompressionStatus {
    /// The number of this status: the engine's, and the next free one for
    /// [`DecompressionStatus::Failed`].
    pub open spec fn code(self) -> u32 {
        match self {
            DecompressionStatus::NotFinished => 0,
            DecompressionStatus::HasMoreOutput => 1,
            DecompressionStatus::NeedsMoreInput => 2,
            DecompressionStatus::Success => 3,
            DecompressionStatus::FailedInitialization => 4,
            DecompressionStatus::OutputBufferTooSmall => 5,
            DecompressionStatus::ExpectedMoreRawBytes => 6,
            DecompressionStatus::BadCode => 7,
            DecompressionStatus::Adler32 => 8,
            DecompressionStatus::BadRawBlock => 9,
            DecompressionStatus::BadCompBlockSyncCheck => 10,
            DecompressionStatus::BadZlibHeader => 11,
            DecompressionStatus::NeedSeedBytes => 12,
            DecompressionStatus::BadSeedBytes => 13,
            DecompressionStatus::BadSyncBlock => 14,
            DecompressionStatus::InvalidParameter => 15,
            DecompressionStatus::Failed => 16,
        }
    }

    /// Whether no further call of the engine follows this status.
    pub open spec fn is_terminal(self) -> bool {
        self.code() >= DecompressionStatus::Success.code()
    }

    /// What this status means to the loop. The output of decompression has
    /// its size from the start, so no status asks for more room.
    pub open spec fn signal(self) -> Signal {
        if self.is_terminal() {
            Signal::Terminal
        } else {
            Signal::Again
        }
    }

    /// The status that the engine's number `status` stands for.
    pub fn from_c_type(status: u32) -> (r: Self)
        requires
            status < DECOMPRESSION_CODES,
        ensures
            r.code() == status,
    {
        match status {
            0 => DecompressionStatus::NotFinished,
            1 => DecompressionStatus::HasMoreOutput,
            2 => DecompressionStatus::NeedsMoreInput,
            3 => DecompressionStatus::Success,
            4 => DecompressionStatus::FailedInitialization,
            5 => DecompressionStatus::OutputBufferTooSmall,
            6 => DecompressionStatus::ExpectedMoreRawBytes,
            7 => DecompressionStatus::BadCode,
            8 => DecompressionStatus::Adler32,
            9 => DecompressionStatus::BadRawBlock,
            10 => DecompressionStatus::BadCompBlockSyncCheck,
            11 => DecompressionStatus::BadZlibHeader,
            12 => DecompressionStatus::NeedSeedBytes,
            13 => DecompressionStatus::BadSeedBytes,
            14 => DecompressionStatus::BadSyncBlock,
            _ => DecompressionStatus::InvalidParameter,
        }
    }

    /// The number of this status.
    pub fn to_c_type(self) -> (r: u32)
        ensures
            r == self.code(),
    {
        match self {
            DecompressionStatus::NotFinished => 0,
            DecompressionStatus::HasMoreOutput => 1,
            DecompressionStatus::NeedsMoreInput => 2,
            DecompressionStatus::Success => 3,
            DecompressionStatus::FailedInitialization => 4,
            DecompressionStatus::OutputBufferTooSmall => 5,
            DecompressionStatus::ExpectedMoreRawBytes => 6,
            DecompressionStatus::BadCode => 7,
            DecompressionStatus::Adler32 => 8,
            DecompressionStatus::BadRawBlock => 9,
            DecompressionStatus::BadCompBlockSyncCheck => 10,
            DecompressionStatus::BadZlibHeader => 11,
            DecompressionStatus::NeedSeedBytes => 12,
            DecompressionStatus::BadSeedBytes => 13,
            DecompressionStatus::BadSyncBlock => 14,
            DecompressionStatus::InvalidParameter => 15,
            DecompressionStatus::Failed => 16,
        }
    }

    /// Whether the status is of success or not.
    pub fn is_success(&self) -> (r: bool)
        ensures
            r == (*self == DecompressionStatus::Success),
    {
        match self {
            DecompressionStatus::Success => true,
            _ => false,
        }
    }

    /// Whether the status is success or a failure code.
    ///
    /// If failure, it cannot be recovered.
    pub fn is_success_or_first_failure(&self) -> (r: bool)
        ensures
            r == self.is_terminal(),
    {
        self.to_c_type() >= 3
    }

    /// The status that the caller gets for a run that came to this status:
    /// this one if its streams could be read and written, and
    /// [`DecompressionStatus::Failed`] if not.
    pub fn after_io(self, io_ok: bool) -> (r: Self)
        ensures
            r == if io_ok {
                self
            } else {
                DecompressionStatus::Failed
            },
    {
        if io_ok {
            self
        } else {
            DecompressionStatus::Failed
        }
    }

    /// What this status means to the loop.
    pub fn to_signal(&self) -> (r: Signal)
        ensures
            r == self.signal(),
    {
        if self.is_success_or_first_failure() {
            Signal::Terminal
        } else {
            Signal::Again
        }
    }
}

/// Each status has a code of its own, and each code below
/// [`DECOMPRESSION_CODES`] is that of a status of the engine, none of which
/// is [`DecompressionStatus::Failed`]. The continuable statuses are the three
/// below success, which is the first terminal one; each status above it is a
/// failure of its own.
pub proof fn lemma_decompression_codes(a: DecompressionStatus, b: DecompressionStatus, code: u32)
    ensures
        a.code() <= DECOMPRESSION_CODES,
        a.code() == DECOMPRESSION_CODES <==> a == DecompressionStatus::Failed,
        a.code() == b.code() ==> a == b,
        code < DECOMPRESSION_CODES ==> exists|s: DecompressionStatus|
            s.code() == code && s != DecompressionStatus::Failed,
        !a.is_terminal() <==> a == DecompressionStatus::NotFinished || a
            == DecompressionStatus::HasMoreOutput || a == DecompressionStatus::NeedsMoreInput,
        a.is_terminal() && a != DecompressionStatus::Success ==> a.code()
            > DecompressionStatus::Success.code(),
{
    if code < DECOMPRESSION_CODES {
        let s = if code == 0 {
            DecompressionStatus::NotFinished
        } else if code == 1 {
            DecompressionStatus::HasMoreOutput
        } else if code == 2 {
            DecompressionStatus::NeedsMoreInput
        } else if code == 3 {
            DecompressionStatus::Success
        } else if code == 4 {
            DecompressionStatus::FailedInitialization
        } else if code == 5 {
            DecompressionStatus::OutputBufferTooSmall
        } else if code == 6 {
            DecompressionStatus::ExpectedMoreRawBytes
        } else if code == 7 {
            DecompressionStatus::BadCode
        } else if code == 8 {
            DecompressionStatus::Adler32
        } else if code == 9 {
            DecompressionStatus::BadRawBlock
        } else if code == 10 {
            DecompressionStatus::BadCompBlockSyncCheck
        } else if code == 11 {
            DecompressionStatus::BadZlibHeader
        } else if code == 12 {
            DecompressionStatus::NeedSeedBytes
        } else if code == 13 {
            DecompressionStatus::BadSeedBytes
        } else if code == 14 {
            DecompressionStatus::BadSyncBlock
        } else {
            DecompressionStatus::InvalidParameter
        };
        assert(s.code() == code && s != DecompressionStatus::Failed);
    }
}

} // verus!
