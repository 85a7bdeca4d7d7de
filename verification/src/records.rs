//! Measurement records and their CSV serialization.  A record keeps the
//! device-reported power text unparsed, as the instrument sent it; the
//! current is held in microamps and printed in milliamps.  The column
//! headers are fixed, and the power column is labelled `power_dBm` whatever
//! unit was configured, as the file format has always had it.

use vstd::prelude::*;

use crate::numfmt::{scaled_string, spec_digits, spec_scaled_signed, u64_string};

verus! {

/// One sample of the sweep: when it was taken, the current that was set, the
/// power text the meter reported, and the module it came from.
pub struct MeasurementRecord {
    pub timestamp: String,
    pub current_ua: i64,
    pub power_dbm: String,
    pub module: u8,
}

/// The mathematical content of a record.
pub struct RecordView {
    pub timestamp: Seq<char>,
    pub current_ua: int,
    pub power_dbm: Seq<char>,
    pub module: u8,
}

impl View for MeasurementRecord {
    type V = RecordView;

    open spec fn view(&self) -> RecordView {
        RecordView {
            timestamp: self.timestamp@,
            current_ua: self.current_ua as int,
            power_dbm: self.power_dbm@,
            module: self.module,
        }
    }
}

pub open spec fn records_view(rs: Seq<MeasurementRecord>) -> Seq<RecordView> {
    rs.map_values(|r: MeasurementRecord| r@)
}

pub open spec fn spec_header_row() -> Seq<Seq<char>> {
    seq!["timestamp"@, "current_mA"@, "power_dBm"@, "module"@]
}

/// A record's CSV row: the timestamp, the current in milliamps, the power
/// text, and the module number.
pub open spec fn spec_record_row(r: RecordView) -> Seq<Seq<char>> {
    seq![r.timestamp, spec_scaled_signed(r.current_ua, 3), r.power_dbm, spec_digits(
        r.module as nat,
    )]
}

/// The full table: the fixed header, then one row per record, in order.
pub open spec fn spec_csv_rows(rs: Seq<RecordView>) -> Seq<Seq<Seq<char>>> {
    seq![spec_header_row()] + rs.map_values(|r: RecordView| spec_record_row(r))
}

/// What the csv crate makes of a table of fields.
pub uninterp spec fn csv_encoding(rows: Seq<Seq<Seq<char>>>) -> Seq<u8>;

/// Relies on csv::Writer of the csv crate: the rows are written in order
/// with write_record into an in-memory buffer, so the encoding is a function
/// of the field text alone.  Its only error sources are a row whose field
/// count differs from the first row's and the underlying writer, and
/// writing to memory cannot fail, so with rows of equal field count the
/// encoding always succeeds.
#[verifier::external_body]
fn encode_rows(rows: &Vec<Vec<String>>) -> (r: Vec<u8>)
    requires
        forall|i: int| 0 <= i < rows@.len() ==> #[trigger] rows@[i]@.len() == rows@[0]@.len(),
    ensures
        r@ == csv_encoding(rows.deep_view()),
{
    let mut w = csv::Writer::from_writer(Vec::new());
    for row in rows.iter() {
        w.write_record(row.iter().map(|f| f.as_bytes())).expect("rows have equal field counts");
    }
    w.into_inner().expect("writing to memory cannot fail")
}

/// The CSV file body for a run's records: the header row and one row per
/// record, encoded by the csv crate.
pub fn csv_bytes(records: &Vec<MeasurementRecord>) -> (r: Vec<u8>)
    ensures
        r@ == csv_encoding(spec_csv_rows(records_view(records@))),
{
    let mut rows: Vec<Vec<String>> = Vec::new();
    let mut header: Vec<String> = Vec::new();
    header.push(String::from_str("timestamp"));
    header.push(String::from_str("current_mA"));
    header.push(String::from_str("power_dBm"));
    header.push(String::from_str("module"));
    rows.push(header);
    assert(rows.deep_view() =~~= spec_csv_rows(records_view(records@.take(0))));
    let n = records.len();
    let mut idx: usize = 0;
    while idx < n
        invariant
            0 <= idx <= n == records.len(),
            rows.deep_view() =~~= spec_csv_rows(records_view(records@.take(idx as int))),
        decreases n - idx,
    {
        let rec = &records[idx];
        let mut row: Vec<String> = Vec::new();
        row.push(rec.timestamp.clone());
        row.push(scaled_string(rec.current_ua, 3));
        row.push(rec.power_dbm.clone());
        row.push(u64_string(rec.module as u64));
        let ghost prev = rows.deep_view();
        rows.push(row);
        proof {
            let i = idx as int;
            assert(rows.deep_view() =~~= prev.push(row.deep_view()));
            assert(row.deep_view() =~~= spec_record_row(records@[i]@));
            assert(records_view(records@.take(i + 1)) =~~= records_view(records@.take(i)).push(
                records@[i]@,
            ));
            assert(spec_csv_rows(records_view(records@.take(i)).push(records@[i]@)) =~~= spec_csv_rows(
                records_view(records@.take(i)),
            ).push(spec_record_row(records@[i]@)));
            assert(rows.deep_view() =~~= spec_csv_rows(records_view(records@.take(i + 1))));
        }
        idx = idx + 1;
    }
    proof {
        assert(records@.take(n as int) =~= records@);
        let dv = rows.deep_view();
        assert forall|i: int| 0 <= i < rows@.len() implies #[trigger] rows@[i]@.len() == rows@[0]@.len() by {
            assert(dv[i] == rows@[i].deep_view());
            assert(dv[i].len() == rows@[i]@.len());
            assert(dv[0].len() == rows@[0]@.len());
            if i > 0 {
                assert(dv[i] == spec_record_row(records_view(records@)[i - 1]));
            }
        }
    }
    encode_rows(&rows)
}

} // verus!
