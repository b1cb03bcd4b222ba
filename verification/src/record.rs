//! Structured records: data rows and operator start/stop marker rows,
//! each rendered as seven cells matching the output header.

use vstd::prelude::*;

use crate::dec::{dec_rep, u64_to_dec};

verus! {

/// The kind of a record in the output stream.
#[derive(Clone, Copy, PartialEq, Eq, Structural, Debug)]
pub enum RecordKind {
    Data,
    Start,
    Stop,
}

/// The cell text naming a data row.
pub open spec fn word_data() -> Seq<u8> {
    seq![0x64, 0x61, 0x74, 0x61]
}

/// The cell text naming a start marker row.
pub open spec fn word_start() -> Seq<u8> {
    seq![0x73, 0x74, 0x61, 0x72, 0x74]
}

/// The cell text naming a stop marker row.
pub open spec fn word_stop() -> Seq<u8> {
    seq![0x73, 0x74, 0x6f, 0x70]
}

/// The label of every stop marker row.
pub open spec fn end_label() -> Seq<u8> {
    seq![0x65, 0x6e, 0x64, 0x20, 0x6f, 0x66, 0x20, 0x72, 0x75, 0x6e]
}

/// The label of the start marker for run number `n`.
pub open spec fn run_label(n: nat) -> Seq<u8> {
    seq![0x72, 0x75, 0x6e, 0x20] + dec_rep(n)
}

/// The cell text of a record kind.
pub open spec fn kind_word(k: RecordKind) -> Seq<u8> {
    match k {
        RecordKind::Data => word_data(),
        RecordKind::Start => word_start(),
        RecordKind::Stop => word_stop(),
    }
}

/// One row of the output stream: a kind, a timestamp, a run label and
/// four payload values; marker rows leave the values blank, data rows
/// leave the label blank.
pub struct Record {
    pub kind: RecordKind,
    pub timestamp: Vec<u8>,
    pub label: Vec<u8>,
    pub v1: Vec<u8>,
    pub v2: Vec<u8>,
    pub v3: Vec<u8>,
    pub v4: Vec<u8>,
}

impl Record {
    /// The seven cells of this record, in output order.
    pub open spec fn cells(self) -> Seq<Seq<u8>> {
        seq![
            kind_word(self.kind),
            self.timestamp@,
            self.label@,
            self.v1@,
            self.v2@,
            self.v3@,
            self.v4@,
        ]
    }

    /// The cells carry the kind named in the `kind` field.
    pub open spec fn wf(self) -> bool {
        match self.kind {
            RecordKind::Data => self.label@.len() == 0,
            RecordKind::Start => self.v1@.len() == 0 && self.v2@.len() == 0
                && self.v3@.len() == 0 && self.v4@.len() == 0,
            RecordKind::Stop => self.label@ == end_label() && self.v1@.len() == 0
                && self.v2@.len() == 0 && self.v3@.len() == 0 && self.v4@.len() == 0,
        }
    }

    /// Renders the record as its seven cells.
    pub fn row(&self) -> (r: Vec<Vec<u8>>)
        ensures
            r.deep_view() == self.cells(),
    {
        let mut r: Vec<Vec<u8>> = Vec::new();
        r.push(kind_word_bytes(self.kind));
        r.push(clone_bytes(&self.timestamp));
        r.push(clone_bytes(&self.label));
        r.push(clone_bytes(&self.v1));
        r.push(clone_bytes(&self.v2));
        r.push(clone_bytes(&self.v3));
        r.push(clone_bytes(&self.v4));
        proof {
            assert(r.deep_view() =~~= self.cells());
        }
        r
    }
}

/// Copies a byte vector.
pub fn clone_bytes(v: &Vec<u8>) -> (r: Vec<u8>)
    ensures
        r@ == v@,
{
    let mut r: Vec<u8> = Vec::new();
    let n = v.len();
    let mut i: usize = 0;
    while i < n
        invariant
            0 <= i <= n == v@.len(),
            r@ == v@.take(i as int),
        decreases n - i,
    {
        proof {
            assert(v@.take(i + 1).drop_last() =~= v@.take(i as int));
        }
        r.push(v[i]);
        proof {
            assert(r@ =~= v@.take(i + 1));
        }
        i = i + 1;
    }
    proof {
        assert(v@.take(n as int) =~= v@);
    }
    r
}

/// The cell text of a record kind.
pub fn kind_word_bytes(k: RecordKind) -> (r: Vec<u8>)
    ensures
        r@ == kind_word(k),
{
    let mut v: Vec<u8> = Vec::new();
    match k {
        RecordKind::Data => {
            v.push(0x64);
            v.push(0x61);
            v.push(0x74);
            v.push(0x61);
            proof {
                assert(v@ =~= word_data());
            }
        },
        RecordKind::Start => {
            v.push(0x73);
            v.push(0x74);
            v.push(0x61);
            v.push(0x72);
            v.push(0x74);
            proof {
                assert(v@ =~= word_start());
            }
        },
        RecordKind::Stop => {
            v.push(0x73);
            v.push(0x74);
            v.push(0x6f);
            v.push(0x70);
            proof {
                assert(v@ =~= word_stop());
            }
        },
    }
    v
}

/// The label of the start marker for run number `n`.
pub fn run_label_bytes(n: u64) -> (r: Vec<u8>)
    ensures
        r@ == run_label(n as nat),
{
    let mut v: Vec<u8> = Vec::new();
    v.push(0x72);
    v.push(0x75);
    v.push(0x6e);
    v.push(0x20);
    let mut digits = u64_to_dec(n);
    let k = digits.len();
    let mut i: usize = 0;
    while i < k
        invariant
            0 <= i <= k == digits@.len(),
            digits@ == dec_rep(n as nat),
            v@ == seq![0x72, 0x75, 0x6e, 0x20] + digits@.take(i as int),
        decreases k - i,
    {
        v.push(digits[i]);
        proof {
            assert(v@ =~= seq![0x72, 0x75, 0x6e, 0x20] + digits@.take(i + 1));
        }
        i = i + 1;
    }
    proof {
        assert(digits@.take(k as int) =~= digits@);
    }
    v
}

/// The cells of a data row: blank label, the four payload fields verbatim.
pub open spec fn data_cells(ts: Seq<u8>, f: Seq<Seq<u8>>) -> Seq<Seq<u8>> {
    seq![word_data(), ts, Seq::<u8>::empty(), f[0], f[1], f[2], f[3]]
}

/// The cells of the start marker for run number `n`.
pub open spec fn start_cells(ts: Seq<u8>, n: nat) -> Seq<Seq<u8>> {
    seq![
        word_start(),
        ts,
        run_label(n),
        Seq::<u8>::empty(),
        Seq::<u8>::empty(),
        Seq::<u8>::empty(),
        Seq::<u8>::empty(),
    ]
}

/// The cells of a stop marker.
pub open spec fn stop_cells(ts: Seq<u8>) -> Seq<Seq<u8>> {
    seq![
        word_stop(),
        ts,
        end_label(),
        Seq::<u8>::empty(),
        Seq::<u8>::empty(),
        Seq::<u8>::empty(),
        Seq::<u8>::empty(),
    ]
}

/// Builds the data record for a timestamp and four payload fields.
pub fn data_record(timestamp: Vec<u8>, fields: Vec<Vec<u8>>) -> (r: Record)
    requires
        fields@.len() == 4,
    ensures
        r.wf(),
        r.kind == RecordKind::Data,
        r.cells() == data_cells(timestamp@, fields.deep_view()),
{
    let ghost f0 = fields.deep_view();
    let mut fields = fields;
    let v4 = fields.pop().unwrap();
    let v3 = fields.pop().unwrap();
    let v2 = fields.pop().unwrap();
    let v1 = fields.pop().unwrap();
    let r = Record {
        kind: RecordKind::Data,
        timestamp,
        label: Vec::new(),
        v1,
        v2,
        v3,
        v4,
    };
    proof {
        assert(r.cells() =~~= data_cells(r.timestamp@, f0));
    }
    r
}

/// The cells of the header row written once at stream creation.
pub open spec fn header_cells() -> Seq<Seq<u8>> {
    seq![
        seq![0x54, 0x79, 0x70, 0x65],
        seq![0x54, 0x69, 0x6d, 0x65, 0x73, 0x74, 0x61, 0x6d, 0x70],
        seq![0x52, 0x75, 0x6e, 0x2f, 0x45, 0x6e, 0x64],
        seq![0x56, 0x61, 0x6c, 0x75, 0x65, 0x31],
        seq![0x56, 0x61, 0x6c, 0x75, 0x65, 0x32],
        seq![0x56, 0x61, 0x6c, 0x75, 0x65, 0x33],
        seq![0x56, 0x61, 0x6c, 0x75, 0x65, 0x34],
    ]
}

/// Builds the seven header cells.
pub fn header_row() -> (r: Vec<Vec<u8>>)
    ensures
        r.deep_view() == header_cells(),
{
    let mut r: Vec<Vec<u8>> = Vec::new();
    let mut c: Vec<u8> = Vec::new();
    c.push(0x54);
    c.push(0x79);
    c.push(0x70);
    c.push(0x65);
    r.push(c);
    let mut c: Vec<u8> = Vec::new();
    c.push(0x54);
    c.push(0x69);
    c.push(0x6d);
    c.push(0x65);
    c.push(0x73);
    c.push(0x74);
    c.push(0x61);
    c.push(0x6d);
    c.push(0x70);
    r.push(c);
    let mut c: Vec<u8> = Vec::new();
    c.push(0x52);
    c.push(0x75);
    c.push(0x6e);
    c.push(0x2f);
    c.push(0x45);
    c.push(0x6e);
    c.push(0x64);
    r.push(c);
    let mut c: Vec<u8> = Vec::new();
    c.push(0x56);
    c.push(0x61);
    c.push(0x6c);
    c.push(0x75);
    c.push(0x65);
    c.push(0x31);
    r.push(c);
    let mut c: Vec<u8> = Vec::new();
    c.push(0x56);
    c.push(0x61);
    c.push(0x6c);
    c.push(0x75);
    c.push(0x65);
    c.push(0x32);
    r.push(c);
    let mut c: Vec<u8> = Vec::new();
    c.push(0x56);
    c.push(0x61);
    c.push(0x6c);
    c.push(0x75);
    c.push(0x65);
    c.push(0x33);
    r.push(c);
    let mut c: Vec<u8> = Vec::new();
    c.push(0x56);
    c.push(0x61);
    c.push(0x6c);
    c.push(0x75);
    c.push(0x65);
    c.push(0x34);
    r.push(c);
    proof {
        assert(r.deep_view() =~~= header_cells());
    }
    r
}

/// Builds the start marker record for run number `n`.
pub fn start_record(timestamp: Vec<u8>, n: u64) -> (r: Record)
    ensures
        r.wf(),
        r.kind == RecordKind::Start,
        r.cells() == start_cells(timestamp@, n as nat),
{
    let r = Record {
        kind: RecordKind::Start,
        timestamp,
        label: run_label_bytes(n),
        v1: Vec::new(),
        v2: Vec::new(),
        v3: Vec::new(),
        v4: Vec::new(),
    };
    proof {
        assert(r.cells() =~~= start_cells(r.timestamp@, n as nat));
    }
    r
}

/// Builds a stop marker record.
pub fn stop_record(timestamp: Vec<u8>) -> (r: Record)
    ensures
        r.wf(),
        r.kind == RecordKind::Stop,
        r.cells() == stop_cells(timestamp@),
{
    let mut label: Vec<u8> = Vec::new();
    label.push(0x65);
    label.push(0x6e);
    label.push(0x64);
    label.push(0x20);
    label.push(0x6f);
    label.push(0x66);
    label.push(0x20);
    label.push(0x72);
    label.push(0x75);
    label.push(0x6e);
    proof {
        assert(label@ =~= end_label());
    }
    let r = Record {
        kind: RecordKind::Stop,
        timestamp,
        label,
        v1: Vec::new(),
        v2: Vec::new(),
        v3: Vec::new(),
        v4: Vec::new(),
    };
    proof {
        assert(r.cells() =~~= stop_cells(r.timestamp@));
    }
    r
}

} // verus!
