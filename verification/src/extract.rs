//! The payload extractor: turns one raw line into either a discarded
//! line, a rejected payload, or exactly four field strings.

use vstd::prelude::*;

use crate::text::{
    contains_seq, copy_range, find_first, first_match, normalize, normalize_spec, split_commas,
    split_fields, trim_spec, trim_vec,
};

verus! {

/// The marker token identifying a telemetry line: `UDP packet contents:`.
pub open spec fn marker_token() -> Seq<u8> {
    seq![
        0x55, 0x44, 0x50, 0x20, 0x70, 0x61, 0x63, 0x6b, 0x65, 0x74, 0x20, 0x63, 0x6f, 0x6e,
        0x74, 0x65, 0x6e, 0x74, 0x73, 0x3a,
    ]
}

/// The marker token as a byte vector.
pub fn marker_token_bytes() -> (r: Vec<u8>)
    ensures
        r@ == marker_token(),
{
    let mut v: Vec<u8> = Vec::new();
    v.push(0x55);
    v.push(0x44);
    v.push(0x50);
    v.push(0x20);
    v.push(0x70);
    v.push(0x61);
    v.push(0x63);
    v.push(0x6b);
    v.push(0x65);
    v.push(0x74);
    v.push(0x20);
    v.push(0x63);
    v.push(0x6f);
    v.push(0x6e);
    v.push(0x74);
    v.push(0x65);
    v.push(0x6e);
    v.push(0x74);
    v.push(0x73);
    v.push(0x3a);
    proof {
        assert(v@ =~= marker_token());
    }
    v
}

/// True when a normalized line carries the marker token.
pub open spec fn is_telemetry(d: Seq<u8>) -> bool {
    contains_seq(d, marker_token())
}

/// The payload of a normalized telemetry line: everything after the first
/// occurrence of the marker token, trimmed.
pub open spec fn payload_of(d: Seq<u8>) -> Seq<u8> {
    trim_spec(d.skip(first_match(d, marker_token()) + marker_token().len()))
}

/// The comma-separated fields of a normalized telemetry line's payload.
pub open spec fn fields_of(d: Seq<u8>) -> Seq<Seq<u8>> {
    split_commas(payload_of(d))
}

/// True when a normalized line is telemetry whose payload splits into
/// exactly four fields.
pub open spec fn well_formed(d: Seq<u8>) -> bool {
    is_telemetry(d) && fields_of(d).len() == 4
}

/// What the extractor yields for one raw line.
pub enum ParseOutcome {
    /// The line lacks the marker token and is dropped with no side effect.
    NotTelemetry,
    /// The payload split into the wrong number of fields; the diagnostic
    /// carries the expected and actual counts and the offending payload.
    WrongArity { expected: usize, actual: usize, payload: Vec<u8> },
    /// Exactly four field strings, left as raw text.
    Fields(Vec<Vec<u8>>),
}

/// Normalizes a raw line and extracts its payload fields.
pub fn parse_line(raw: &Vec<u8>) -> (r: ParseOutcome)
    ensures
        ({
            let d = normalize_spec(raw@);
            match r {
                ParseOutcome::NotTelemetry => !is_telemetry(d),
                ParseOutcome::WrongArity { expected, actual, payload } => is_telemetry(d)
                    && fields_of(d).len() != 4 && expected == 4 && actual == fields_of(d).len()
                    && payload@ == payload_of(d),
                ParseOutcome::Fields(f) => is_telemetry(d) && fields_of(d).len() == 4
                    && f.deep_view() == fields_of(d) && f@.len() == 4,
            }
        }),
{
    let d = normalize(raw);
    let token = marker_token_bytes();
    match find_first(&d, &token) {
        None => ParseOutcome::NotTelemetry,
        Some(i) => {
            let dn = d.len();
            proof {
                assert(i + token@.len() <= dn);
            }
            let tail = copy_range(&d, i + token.len(), dn);
            proof {
                assert(tail@ =~= d@.skip(first_match(d@, marker_token()) + marker_token().len()));
            }
            let payload = trim_vec(&tail);
            let fields = split_fields(&payload);
            if fields.len() == 4 {
                proof {
                    assert(fields.deep_view().len() == fields@.len());
                }
                ParseOutcome::Fields(fields)
            } else {
                proof {
                    assert(fields.deep_view().len() == fields@.len());
                }
                ParseOutcome::WrongArity { expected: 4, actual: fields.len(), payload }
            }
        },
    }
}

} // verus!
