//! One iteration of the ingestion loop: read line, extract, and — when
//! recording is active — build the data record to append.

use vstd::prelude::*;

use crate::extract::{fields_of, is_telemetry, parse_line, payload_of, ParseOutcome};
use crate::record::{data_cells, data_record, Record, RecordKind};
use crate::text::normalize_spec;

verus! {

/// The data row one raw line appends to the stream, given the recording state
/// observed at extraction time, if any.
pub open spec fn ingest_row(active: bool, raw: Seq<u8>, ts: Seq<u8>) -> Option<Seq<Seq<u8>>> {
    let d = normalize_spec(raw);
    if active && is_telemetry(d) && fields_of(d).len() == 4 {
        Some(data_cells(ts, fields_of(d)))
    } else {
        None
    }
}

/// What one raw line produced.
pub enum IngestOutcome {
    /// The line lacks the marker token: dropped, no side effect.
    Ignored,
    /// Telemetry arrived while recording was inactive: nothing appended.
    GateClosed,
    /// Telemetry whose payload has the wrong field count: a diagnostic
    /// with the expected and actual counts and the offending payload.
    WrongArity { expected: usize, actual: usize, payload: Vec<u8> },
    /// The data record to append.
    Append(Record),
}

/// Processes one raw line against the recording state observed when the line
/// was extracted.
pub fn ingest_line(active: bool, raw: &Vec<u8>, timestamp: Vec<u8>) -> (r: IngestOutcome)
    ensures
        ({
            let d = normalize_spec(raw@);
            match r {
                IngestOutcome::Ignored => !is_telemetry(d),
                IngestOutcome::GateClosed => is_telemetry(d) && !active,
                IngestOutcome::WrongArity { expected, actual, payload } => is_telemetry(d)
                    && active && fields_of(d).len() != 4 && expected == 4
                    && actual == fields_of(d).len() && payload@ == payload_of(d),
                IngestOutcome::Append(rec) => is_telemetry(d) && active
                    && fields_of(d).len() == 4 && rec.wf() && rec.kind == RecordKind::Data
                    && Some(rec.cells()) == ingest_row(active, raw@, timestamp@),
            }
        }),
        (r is Append) <==> ingest_row(active, raw@, timestamp@) is Some,
{
    match parse_line(raw) {
        ParseOutcome::NotTelemetry => IngestOutcome::Ignored,
        ParseOutcome::WrongArity { expected, actual, payload } => {
            if active {
                IngestOutcome::WrongArity { expected, actual, payload }
            } else {
                IngestOutcome::GateClosed
            }
        },
        ParseOutcome::Fields(fields) => {
            if active {
                IngestOutcome::Append(data_record(timestamp, fields))
            } else {
                IngestOutcome::GateClosed
            }
        },
    }
}

} // verus!
