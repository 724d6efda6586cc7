//! The sensor sample that the service accepts, stores and serves.

use vstd::prelude::*;

verus! {

/// The seven measured values of one sample.
///
/// Concentrations are unsigned 16-bit counts. Temperature and humidity are
/// single-precision numbers carried as their IEEE-754 bit patterns, so that a
/// value read back is bit for bit the value that was submitted.
#[derive(Clone, Copy, Debug, PartialEq, Eq, Structural)]
pub struct Measurement {
    pub eco2: u16,
    pub ech2o: u16,
    pub tvoc: u16,
    pub pm2_5: u16,
    pub pm10: u16,
    pub temperature_bits: u32,
    pub humidity_bits: u32,
}

/// One sample, as submitted (`id` and `timestamp` carry no meaning) or as
/// stored (both are set by the storage layer).
#[derive(Clone, Debug, PartialEq, Eq)]
pub struct Reading {
    pub id: Option<i64>,
    pub timestamp: Option<String>,
    pub values: Measurement,
}

/// Mathematical value of a [`Reading`].
pub struct ReadingView {
    pub id: Option<i64>,
    pub timestamp: Option<Seq<char>>,
    pub values: Measurement,
}

/// The text behind an optional string.
pub open spec fn text_of(s: Option<String>) -> Option<Seq<char>> {
    match s {
        Some(t) => Some(t@),
        None => None,
    }
}

/// The values of a list of readings, in the same order.
pub open spec fn views(list: Seq<Reading>) -> Seq<ReadingView> {
    list.map_values(|r: Reading| r@)
}

impl View for Reading {
    type V = ReadingView;

    open spec fn view(&self) -> ReadingView {
        ReadingView { id: self.id, timestamp: text_of(self.timestamp), values: self.values }
    }
}

impl ReadingView {
    /// A stored row: identifier and creation time are both present.
    pub open spec fn is_stored(self) -> bool {
        self.id is Some && self.timestamp is Some
    }

    /// The row that storage keeps for `values` under `id`, created at `timestamp`.
    pub open spec fn stored(id: i64, timestamp: Seq<char>, values: Measurement) -> ReadingView {
        ReadingView { id: Some(id), timestamp: Some(timestamp), values }
    }
}

impl Measurement {
    /// The sample in which every value is zero, which is what an absent field
    /// of a submission stands for.
    pub fn zero() -> (m: Measurement)
        ensures
            m == (Measurement {
                eco2: 0,
                ech2o: 0,
                tvoc: 0,
                pm2_5: 0,
                pm10: 0,
                temperature_bits: 0,
                humidity_bits: 0,
            }),
    {
        Measurement {
            eco2: 0,
            ech2o: 0,
            tvoc: 0,
            pm2_5: 0,
            pm10: 0,
            temperature_bits: 0,
            humidity_bits: 0,
        }
    }
}

/// The value of an optional field: zero where the field is absent.
pub open spec fn or_zero_u16(field: Option<u16>) -> u16 {
    match field {
        Some(v) => v,
        None => 0,
    }
}

/// The value of an optional field: zero where the field is absent.
pub open spec fn or_zero_u32(field: Option<u32>) -> u32 {
    match field {
        Some(v) => v,
        None => 0,
    }
}

impl Measurement {
    /// The sample for a submission in which any field may be missing: a
    /// missing field counts as zero.
    pub fn with_defaults(
        eco2: Option<u16>,
        ech2o: Option<u16>,
        tvoc: Option<u16>,
        pm2_5: Option<u16>,
        pm10: Option<u16>,
        temperature_bits: Option<u32>,
        humidity_bits: Option<u32>,
    ) -> (m: Measurement)
        ensures
            m == (Measurement {
                eco2: or_zero_u16(eco2),
                ech2o: or_zero_u16(ech2o),
                tvoc: or_zero_u16(tvoc),
                pm2_5: or_zero_u16(pm2_5),
                pm10: or_zero_u16(pm10),
                temperature_bits: or_zero_u32(temperature_bits),
                humidity_bits: or_zero_u32(humidity_bits),
            }),
    {
        Measurement {
            eco2: count_or_zero(eco2),
            ech2o: count_or_zero(ech2o),
            tvoc: count_or_zero(tvoc),
            pm2_5: count_or_zero(pm2_5),
            pm10: count_or_zero(pm10),
            temperature_bits: bits_or_zero(temperature_bits),
            humidity_bits: bits_or_zero(humidity_bits),
        }
    }
}

fn count_or_zero(field: Option<u16>) -> (v: u16)
    ensures
        v == or_zero_u16(field),
{
    match field {
        Some(v) => v,
        None => 0,
    }
}

fn bits_or_zero(field: Option<u32>) -> (v: u32)
    ensures
        v == or_zero_u32(field),
{
    match field {
        Some(v) => v,
        None => 0,
    }
}

impl Reading {
    /// A submission: the measured values with no identifier and no time.
    pub fn submission(values: Measurement) -> (r: Reading)
        ensures
            r@ == (ReadingView { id: None, timestamp: None, values }),
    {
        Reading { id: None, timestamp: None, values }
    }

    /// A stored row.
    pub fn stored(id: i64, timestamp: String, values: Measurement) -> (r: Reading)
        ensures
            r@ == ReadingView::stored(id, timestamp@, values),
    {
        Reading { id: Some(id), timestamp: Some(timestamp), values }
    }

    /// An independent copy with the same value.
    pub fn duplicate(&self) -> (r: Reading)
        ensures
            r@ == self@,
    {
        let timestamp = match &self.timestamp {
            Some(t) => Some(t.clone()),
            None => None,
        };
        Reading { id: self.id, timestamp, values: self.values }
    }
}

} // verus!
