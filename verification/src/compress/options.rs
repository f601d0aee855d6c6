//! The options of compression and the configuration record made of them.

use crate::rate::interval_of_rate;
use crate::rate::TableUpdateInterval;
use crate::rate::TableUpdateRate;
use vstd::prelude::*;

verus! {

/// Options to tweak compression.
#[derive(Clone, Debug)]
pub struct CompressionOptions {
    /// The base 2 log of the dictionary size.
    pub dict_size_log2: u32,
    /// The level of compression.
    pub compression_level: CompressionLevel,
    /// The table update rate. Its interval is that of the configuration
    /// record unless `table_update_interval` gives one.
    pub table_update_rate: TableUpdateRate,
    /// The maximum number of helper threads to use.
    pub max_helper_threads: i32,
    /// Flags to pass to the compression.
    pub compression_flags: Option<CompressionFlag>,
    /// Number of seed bytes to load.
    pub num_seed_bytes: Option<u32>,
    /// A vector of seed bytes to load.
    pub p_seed_bytes: Option<Vec<u8>>,
    /// The table update interval. Where it is given, it is the interval of
    /// the configuration record; see [`CompressionOptions::interval`].
    pub table_update_interval: Option<TableUpdateInterval>,
}

/// The level of compression.
#[derive(Clone, Copy, Debug, PartialEq, Eq, Structural)]
pub enum CompressionLevel {
    /// Fastest compression.
    Fastest,
    /// Fast compression.
    Faster,
    /// Default compression.
    Default,
    /// Moderate compression.
    Better,
    /// Slowest compression.
    Uber,
}

/// Flag to tweak compression.
#[derive(Clone, Copy, Debug, PartialEq, Eq, Structural)]
pub enum CompressionFlag {
    ExtremeParsing,
    DeterminisiticParsing,
    HighCompressionRatio,
    WriteZlibStream,
}

/// The engine's configuration record for compression, but for the size of
/// the record itself.
#[derive(Clone, Debug)]
pub struct CompressionParams {
    pub dict_size_log2: u32,
    pub level: u32,
    pub table_update_rate: u32,
    pub max_helper_threads: i32,
    pub compress_flags: u32,
    pub num_seed_bytes: u32,
    /// The seed bytes, `None` where the record holds no pointer to any.
    pub seed_bytes: Option<Vec<u8>>,
    pub table_max_update_interval: u32,
    pub table_update_interval_slow_rate: u32,
}

impl CompressionLevel {
    /// The engine's number for this level.
    pub open spec fn code(self) -> u32 {
        match self {
            CompressionLevel::Fastest => 0,
            CompressionLevel::Faster => 1,
            CompressionLevel::Default => 2,
            CompressionLevel::Better => 3,
            CompressionLevel::Uber => 4,
        }
    }

    /// The engine's number for this level.
    pub fn to_c_type(self) -> (r: u32)
        ensures
            r == self.code(),
    {
        match self {
            CompressionLevel::Fastest => 0,
            CompressionLevel::Faster => 1,
            CompressionLevel::Default => 2,
            CompressionLevel::Better => 3,
            CompressionLevel::Uber => 4,
        }
    }
}

impl CompressionFlag {
    /// The engine's bit for this flag.
    pub open spec fn bits(self) -> u32 {
        match self {
            CompressionFlag::ExtremeParsing => 2,
            CompressionFlag::DeterminisiticParsing => 4,
            CompressionFlag::HighCompressionRatio => 16,
            CompressionFlag::WriteZlibStream => 32,
        }
    }

    /// The engine's bit for this flag.
    pub fn to_c_type(self) -> (r: u32)
        ensures
            r == self.bits(),
    {
        match self {
            CompressionFlag::ExtremeParsing => 2,
            CompressionFlag::DeterminisiticParsing => 4,
            CompressionFlag::HighCompressionRatio => 16,
            CompressionFlag::WriteZlibStream => 32,
        }
    }
}

impl core::ops::BitOr for CompressionFlag {
    type Output = Self;

    /// The engine is handed one flag at most: the left one stays.
    fn bitor(self, _rhs: Self) -> (r: Self) {
        self
    }
}

impl vstd::std_specs::ops::BitOrSpecImpl for CompressionFlag {
    open spec fn obeys_bitor_spec() -> bool {
        true
    }

    open spec fn bitor_req(self, rhs: Self) -> bool {
        true
    }

    open spec fn bitor_spec(self, rhs: Self) -> Self {
        self
    }
}

impl CompressionOptions {
    /// The interval that the configuration record carries: the one that the
    /// options give, which goes before the rate; without one, the interval
    /// that the options' own rate stands for. A rate that the table does not
    /// know stands for none, and the record then gets the interval of the
    /// default rate.
    pub open spec fn interval(self) -> TableUpdateInterval {
        match self.table_update_interval {
            Some(interval) => interval,
            None => if self.table_update_rate.valid() {
                interval_of_rate(self.table_update_rate.rate())
            } else {
                interval_of_rate(8)
            },
        }
    }

    /// The configuration record of these options: the scalar fields as they
    /// are, the interval of [`CompressionOptions::interval`], and zero or
    /// nothing for what the options leave out.
    pub open spec fn params(self) -> CompressionParams {
        CompressionParams {
            dict_size_log2: self.dict_size_log2,
            level: self.compression_level.code(),
            table_update_rate: self.table_update_rate.rate(),
            max_helper_threads: self.max_helper_threads,
            compress_flags: match self.compression_flags {
                Some(flag) => flag.bits(),
                None => 0,
            },
            num_seed_bytes: match self.num_seed_bytes {
                Some(count) => count,
                None => 0,
            },
            seed_bytes: self.p_seed_bytes,
            table_max_update_interval: self.interval().0,
            table_update_interval_slow_rate: self.interval().1,
        }
    }

    /// Makes the engine's configuration record of the options.
    pub fn to_c_type(self) -> (r: CompressionParams)
        ensures
            r == self.params(),
    {
        let (max, slow) = match self.table_update_interval {
            Some(interval) => interval.to_c_type(),
            None => if self.table_update_rate.is_valid() {
                self.table_update_rate.table_update_settings().to_c_type()
            } else {
                TableUpdateInterval::default().to_c_type()
            },
        };
        CompressionParams {
            dict_size_log2: self.dict_size_log2,
            level: self.compression_level.to_c_type(),
            table_update_rate: self.table_update_rate.to_c_type(),
            max_helper_threads: self.max_helper_threads,
            compress_flags: match self.compression_flags {
                Some(flag) => flag.to_c_type(),
                None => 0,
            },
            num_seed_bytes: match self.num_seed_bytes {
                Some(count) => count,
                None => 0,
            },
            seed_bytes: self.p_seed_bytes,
            table_max_update_interval: max,
            table_update_interval_slow_rate: slow,
        }
    }
}

impl Default for CompressionOptions {
    fn default() -> (r: Self)
        ensures
            r.dict_size_log2 == 26,
            r.compression_level == CompressionLevel::Default,
            r.table_update_rate.rate() == 8,
            r.max_helper_threads == 0,
            r.compression_flags.is_none(),
            r.num_seed_bytes.is_none(),
            r.p_seed_bytes.is_none(),
            r.table_update_interval.is_none(),
    {
        CompressionOptions {
            dict_size_log2: 26,
            compression_level: CompressionLevel::Default,
            table_update_rate: TableUpdateRate::default_rate(),
            max_helper_threads: 0,
            compression_flags: None,
            num_seed_bytes: None,
            p_seed_bytes: None,
            table_update_interval: None,
        }
    }
}

/// An interval that the options give is the interval of the record, whatever
/// the rate beside it. Options that give none get the interval that their
/// own rate stands for, or `(64, 64)` where the table does not know the rate.
/// The rate itself goes into the record as it is.
pub proof fn lemma_explicit_interval_goes_first(options: CompressionOptions)
    ensures
        options.table_update_interval matches Some(interval) ==> {
            &&& options.params().table_max_update_interval == interval.0
            &&& options.params().table_update_interval_slow_rate == interval.1
        },
        options.table_update_interval.is_none() && options.table_update_rate.valid() ==> {
            &&& options.params().table_max_update_interval == interval_of_rate(
                options.table_update_rate.rate(),
            ).0
            &&& options.params().table_update_interval_slow_rate == interval_of_rate(
                options.table_update_rate.rate(),
            ).1
        },
        options.table_update_interval.is_none() && !options.table_update_rate.valid() ==> {
            &&& options.params().table_max_update_interval == 64
            &&& options.params().table_update_interval_slow_rate == 64
        },
        options.params().table_update_rate == options.table_update_rate.rate(),
{
}

} // verus!
