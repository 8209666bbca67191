//! Measurement records and their CSV encoding.

use vstd::prelude::*;
use vstd::string::*;

use crate::text::{decimal, dec, fixed_point, fixed_point_text};

verus! {

/// One measurement of a sweep.
#[derive(Debug, PartialEq, Eq)]
pub struct MeasurementRecord {
    /// When the power was read, as ISO-8601 UTC text.
    pub timestamp: String,
    /// The current setpoint, in microamperes.
    pub current_ua: i64,
    /// The power reading, verbatim as the power meter sent it.
    pub power_dbm: String,
    /// The power-meter module that was read.
    pub module: u8,
}

impl MeasurementRecord {
    /// A field-for-field copy.
    pub fn duplicate(&self) -> (r: MeasurementRecord)
        ensures
            r == *self,
    {
        MeasurementRecord {
            timestamp: self.timestamp.clone(),
            current_ua: self.current_ua,
            power_dbm: self.power_dbm.clone(),
            module: self.module,
        }
    }
}

/// The column names of the persisted artifact.
pub open spec fn header_fields() -> Seq<Seq<char>> {
    seq!["timestamp"@, "current_ma"@, "power_dbm"@, "module"@]
}

/// The fields of one record as text: the timestamp, the current in
/// milliamperes, the power reading unchanged, and the module number.
pub open spec fn record_fields(r: MeasurementRecord) -> Seq<Seq<char>> {
    seq![r.timestamp@, fixed_point_text(r.current_ua as int, 3), r.power_dbm@, dec(r.module as nat)]
}

/// The bytes that the csv crate writes for one record, terminator included.
pub uninterp spec fn csv_record_of(fields: Seq<Seq<char>>) -> Seq<u8>;

/// The CSV rows of a sequence of records, in order, without a header.
pub open spec fn csv_rows(records: Seq<MeasurementRecord>) -> Seq<u8>
    decreases records.len(),
{
    if records.len() == 0 {
        Seq::empty()
    } else {
        csv_rows(records.drop_last()) + csv_record_of(record_fields(records.last()))
    }
}

/// The whole artifact: the header row, then one row per record in order.
pub open spec fn csv_document(records: Seq<MeasurementRecord>) -> Seq<u8> {
    csv_record_of(header_fields()) + csv_rows(records)
}

/// Relies on `csv::Writer::write_record`: the bytes of one record, written to
/// a fresh writer over a `Vec<u8>` and taken back with `into_inner`. A first
/// record is never checked against an earlier field count, and writing to a
/// `Vec<u8>` does not fail.
#[verifier::external_body]
fn csv_record(fields: &Vec<String>) -> (r: Vec<u8>)
    ensures
        r@ == csv_record_of(fields@.map_values(|s: String| s@)),
{
    let mut writer = csv::Writer::from_writer(Vec::new());
    if let Err(_) = writer.write_record(fields) {
        return Vec::new();
    }
    match writer.into_inner() {
        Ok(bytes) => bytes,
        Err(_) => Vec::new(),
    }
}

/// The fields of one record as text.
pub fn record_to_fields(record: &MeasurementRecord) -> (r: Vec<String>)
    ensures
        r@.map_values(|s: String| s@) == record_fields(*record),
{
    let r = vec![
        record.timestamp.clone(),
        fixed_point(record.current_ua, 3),
        record.power_dbm.clone(),
        decimal(record.module as u64),
    ];
    assert(r@.map_values(|s: String| s@) =~= record_fields(*record));
    r
}

/// The column names as text.
pub fn header_to_fields() -> (r: Vec<String>)
    ensures
        r@.map_values(|s: String| s@) == header_fields(),
{
    let r = vec![
        String::from_str("timestamp"),
        String::from_str("current_ma"),
        String::from_str("power_dbm"),
        String::from_str("module"),
    ];
    assert(r@.map_values(|s: String| s@) =~= header_fields());
    r
}

/// Encodes a run as the persisted artifact: a header row and one CSV row per
/// record, in acquisition order.
pub fn encode_records(records: &Vec<MeasurementRecord>) -> (r: Vec<u8>)
    ensures
        r@ == csv_document(records@),
{
    let mut out = csv_record(&header_to_fields());
    let ghost head = out@;
    let mut i: usize = 0;
    while i < records.len()
        invariant
            i <= records@.len(),
            head == csv_record_of(header_fields()),
            out@ == head + csv_rows(records@.subrange(0, i as int)),
        decreases records@.len() - i,
    {
        let mut row = csv_record(&record_to_fields(&records[i]));
        let ghost prefix = records@.subrange(0, i as int);
        out.append(&mut row);
        i = i + 1;
        assert(records@.subrange(0, i as int).drop_last() =~= prefix);
    }
    assert(records@.subrange(0, records@.len() as int) =~= records@);
    out
}

} // verus!
