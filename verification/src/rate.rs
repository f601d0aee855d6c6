//! Table update rates and the intervals they stand for.

use vstd::prelude::*;

verus! {

/// The table update rate for compression and decompression.
///
/// A rate is made by [`TableUpdateRate::new`] or is one of the four presets.
/// The engine knows the rates `1` to `20`; see [`TableUpdateRate::valid`].
#[derive(Clone, Copy, Debug)]
pub struct TableUpdateRate(pub(crate) u32);

/// The table update interval for compression and decompression: the largest
/// update interval, then the slow update rate.
#[derive(Clone, Copy, Debug)]
pub struct TableUpdateInterval(pub u32, pub u32);

/// The largest update interval of each rate, that of rate `1` first.
pub open spec fn max_interval_table() -> Seq<u32> {
    seq![
        4, 5, 6, 7, 8,
        16, 32, 64, 98, 128,
        192, 256, 512, 1024, 2048,
        2048, 2048, 2048, 2048, 2048,
    ]
}

/// The slow update rate of each rate, that of rate `1` first.
pub open spec fn slow_rate_table() -> Seq<u32> {
    seq![
        32, 33, 34, 35, 36,
        48, 72, 64, 80, 96,
        112, 128, 160, 192, 224,
        256, 288, 320, 352, 384,
    ]
}

/// The interval that the rate `rate` stands for, for `1 <= rate <= 20`.
pub open spec fn interval_of_rate(rate: u32) -> TableUpdateInterval
    recommends
        1 <= rate <= 20,
{
    TableUpdateInterval(max_interval_table()[rate - 1], slow_rate_table()[rate - 1])
}

/// The rate that [`TableUpdateRate::new`] makes of a number: a number above
/// the fastest preset becomes the fastest preset, any other number above the
/// slowest preset becomes the slowest preset, and `0` and `1` stay.
pub open spec fn clamped_rate(rate: u32) -> u32 {
    if rate > 20 {
        20
    } else if rate > 1 {
        1
    } else {
        rate
    }
}

impl TableUpdateRate {
    /// The number that this rate carries.
    pub closed spec fn rate(self) -> u32 {
        self.0
    }

    /// Whether the engine's table knows this rate.
    pub open spec fn valid(self) -> bool {
        1 <= self.rate() <= 20
    }

    /// The fastest table update rate. It has a rate of `20`.
    pub fn fast() -> (r: Self)
        ensures
            r.rate() == 20,
    {
        TableUpdateRate(20)
    }

    /// The default table update rate. It has a rate of `8`.
    pub fn default_rate() -> (r: Self)
        ensures
            r.rate() == 8,
    {
        TableUpdateRate(8)
    }

    /// A moderately slow table update rate. It has a rate of `2`.
    pub fn slow() -> (r: Self)
        ensures
            r.rate() == 2,
    {
        TableUpdateRate(2)
    }

    /// The slowest table update rate. It has a rate of `1`.
    pub fn very_slow() -> (r: Self)
        ensures
            r.rate() == 1,
    {
        TableUpdateRate(1)
    }

    /// Whether the engine's table knows this rate.
    pub fn is_valid(&self) -> (r: bool)
        ensures
            r == self.valid(),
    {
        1 <= self.0 && self.0 <= 20
    }

    /// Makes a rate of the number `rate`, by the rule of [`clamped_rate`].
    pub fn new(rate: u32) -> (r: Self)
        ensures
            r.rate() == clamped_rate(rate),
            r.valid() <==> rate >= 1,
    {
        if rate > 20 {
            Self::fast()
        } else if rate > 1 {
            Self::very_slow()
        } else {
            TableUpdateRate(rate)
        }
    }

    /// Converts the update rate into its [`TableUpdateInterval`].
    pub fn table_update_settings(&self) -> (r: TableUpdateInterval)
        requires
            self.valid(),
        ensures
            r == interval_of_rate(self.rate()),
            r.0 > 0,
            r.1 > 0,
    {
        let (max, slow): (u32, u32) = match self.0 {
            1 => (4, 32),
            2 => (5, 33),
            3 => (6, 34),
            4 => (7, 35),
            5 => (8, 36),
            6 => (16, 48),
            7 => (32, 72),
            8 => (64, 64),
            9 => (98, 80),
            10 => (128, 96),
            11 => (192, 112),
            12 => (256, 128),
            13 => (512, 160),
            14 => (1024, 192),
            15 => (2048, 224),
            16 => (2048, 128 + (16 * 8)),
            17 => (2048, 128 + (16 * 10)),
            18 => (2048, 128 + (16 * 12)),
            19 => (2048, 128 + (16 * 14)),
            _ => (2048, 128 + (16 * 16)),
        };
        TableUpdateInterval(max, slow)
    }

    /// The number that the engine's configuration record takes for this rate.
    pub fn to_c_type(self) -> (r: u32)
        ensures
            r == self.rate(),
    {
        self.0
    }
}

impl TableUpdateInterval {
    /// Creates a new interval from a [`TableUpdateRate`].
    pub fn from_rate(rate: &TableUpdateRate) -> (r: Self)
        requires
            rate.valid(),
        ensures
            r == interval_of_rate(rate.rate()),
    {
        rate.table_update_settings()
    }

    /// The two numbers that the engine's configuration record takes for this
    /// interval.
    pub fn to_c_type(self) -> (r: (u32, u32))
        ensures
            r == (self.0, self.1),
    {
        (self.0, self.1)
    }
}

impl Default for TableUpdateInterval {
    /// The interval of the default rate.
    fn default() -> (r: Self)
        ensures
            r == interval_of_rate(8),
            r == TableUpdateInterval(64, 64),
    {
        TableUpdateRate::default_rate().table_update_settings()
    }
}

/// A rate is the number it carries and nothing else: two rates made from the
/// same number are equal and stand for the same interval.
pub proof fn lemma_settings_are_a_function_of_the_number(
    a: TableUpdateRate,
    b: TableUpdateRate,
    number: u32,
)
    requires
        a.rate() == clamped_rate(number),
        b.rate() == clamped_rate(number),
    ensures
        a == b,
        interval_of_rate(a.rate()) == interval_of_rate(b.rate()),
{
}

/// Every number above the fastest preset gives the fastest preset's
/// interval, and every other number above the slowest preset gives the
/// slowest preset's.
pub proof fn lemma_clamping(number: u32)
    ensures
        number > 20 ==> interval_of_rate(clamped_rate(number)) == TableUpdateInterval(2048, 384),
        1 < number <= 20 ==> interval_of_rate(clamped_rate(number)) == TableUpdateInterval(4, 32),
        number >= 1 ==> 1 <= clamped_rate(number) <= 20,
{
}

/// Both numbers of an interval are positive, the largest update interval
/// never shrinks as the rate rises, and from rate `16` on the slow update
/// rate is `128 + 16 * k` with `k` going from `8` to `16` in steps of two.
pub proof fn lemma_interval_table(rate: u32)
    requires
        1 <= rate <= 20,
    ensures
        interval_of_rate(rate).0 > 0,
        interval_of_rate(rate).1 > 0,
        rate < 20 ==> interval_of_rate(rate).0 <= interval_of_rate((rate + 1) as u32).0,
        rate >= 16 ==> interval_of_rate(rate).0 == 2048 && interval_of_rate(rate).1 == 128 + 16
            * (8 + 2 * (rate - 16)),
{
}

} // verus!
