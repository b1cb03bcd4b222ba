//! Stream-level laws: what whole traces of lines and commands do to the
//! record stream.

use vstd::prelude::*;

use crate::control::{command_of, control_marker, control_next, Command, ControlState};
use crate::extract::{fields_of, is_telemetry, well_formed};
use crate::ingest::ingest_row;
use crate::record::{data_cells, start_cells};
use crate::text::normalize_spec;

verus! {

/// The rows a sequence of raw lines appends while recording holds one
/// state, each line paired with the timestamp observed for it.
pub open spec fn ingest_rows(active: bool, lines: Seq<Seq<u8>>, stamps: Seq<Seq<u8>>) -> Seq<
    Seq<Seq<u8>>,
>
    decreases lines.len(),
{
    if lines.len() == 0 {
        Seq::empty()
    } else {
        let rest = ingest_rows(active, lines.skip(1), stamps.skip(1));
        match ingest_row(active, lines[0], stamps[0]) {
            Some(c) => seq![c] + rest,
            None => rest,
        }
    }
}

/// Filter completeness: raw lines lacking the marker token never append a
/// record, whatever the recording state.
pub proof fn lemma_filter_completeness(active: bool, lines: Seq<Seq<u8>>, stamps: Seq<Seq<u8>>)
    requires
        forall|i: int| 0 <= i < lines.len() ==> !is_telemetry(normalize_spec(#[trigger] lines[i])),
    ensures
        ingest_rows(active, lines, stamps) == Seq::<Seq<Seq<u8>>>::empty(),
    decreases lines.len(),
{
    if lines.len() > 0 {
        assert forall|i: int| 0 <= i < lines.skip(1).len() implies !is_telemetry(
            normalize_spec(#[trigger] lines.skip(1)[i]),
        ) by {
            assert(lines.skip(1)[i] == lines[i + 1]);
        }
        lemma_filter_completeness(active, lines.skip(1), stamps.skip(1));
    }
    assert(ingest_rows(active, lines, stamps) =~= Seq::<Seq<Seq<u8>>>::empty());
}

/// Arity guard: telemetry whose payload has a field count other than four
/// never appends a record, whatever the recording state.
pub proof fn lemma_arity_guard(active: bool, raw: Seq<u8>, ts: Seq<u8>)
    requires
        fields_of(normalize_spec(raw)).len() != 4,
    ensures
        ingest_row(active, raw, ts) is None,
{
}

/// Enforcement of the recording state: while recording is inactive at
/// extraction time, no data record ever reaches the stream.
pub proof fn lemma_gate_enforcement(lines: Seq<Seq<u8>>, stamps: Seq<Seq<u8>>)
    ensures
        ingest_rows(false, lines, stamps) == Seq::<Seq<Seq<u8>>>::empty(),
    decreases lines.len(),
{
    if lines.len() > 0 {
        lemma_gate_enforcement(lines.skip(1), stamps.skip(1));
    }
    assert(ingest_rows(false, lines, stamps) =~= Seq::<Seq<Seq<u8>>>::empty());
}

/// Round trip: N well-formed payloads ingested while recording is active
/// yield exactly N data rows, in arrival order, each carrying its four
/// field values verbatim.
#[verifier::rlimit(50)]
pub proof fn lemma_round_trip(lines: Seq<Seq<u8>>, stamps: Seq<Seq<u8>>)
    requires
        lines.len() == stamps.len(),
        forall|i: int| 0 <= i < lines.len() ==> well_formed(normalize_spec(#[trigger] lines[i])),
    ensures
        ingest_rows(true, lines, stamps).len() == lines.len(),
        forall|i: int| 0 <= i < lines.len() ==> ingest_rows(true, lines, stamps)[i]
            == data_cells(stamps[i], fields_of(normalize_spec(lines[i]))),
    decreases lines.len(),
{
    if lines.len() > 0 {
        assert forall|i: int| 0 <= i < lines.skip(1).len() implies well_formed(
            normalize_spec(#[trigger] lines.skip(1)[i]),
        ) by {
            assert(lines.skip(1)[i] == lines[i + 1]);
        }
        lemma_round_trip(lines.skip(1), stamps.skip(1));
        let head = data_cells(stamps[0], fields_of(normalize_spec(lines[0])));
        let rest = ingest_rows(true, lines.skip(1), stamps.skip(1));
        assert(ingest_rows(true, lines, stamps) == seq![head] + rest);
        assert forall|i: int| 0 <= i < lines.len() implies ingest_rows(true, lines, stamps)[i]
            == data_cells(stamps[i], fields_of(normalize_spec(lines[i]))) by {
            if i > 0 {
                assert((seq![head] + rest)[i] == rest[i - 1]);
                assert(lines.skip(1)[i - 1] == lines[i]);
                assert(stamps.skip(1)[i - 1] == stamps[i]);
            }
        }
    }
}

/// The run counter never falls: it rises by one on each successful
/// `start` and is otherwise untouched, never reset.
pub proof fn lemma_run_count_monotonic(st: ControlState, input: Seq<u8>)
    requires
        st.run_count < u64::MAX,
    ensures
        control_next(st, input).run_count >= st.run_count,
        control_next(st, input).run_count <= st.run_count + 1,
{
}

/// Idempotence: a second `start` in a row changes nothing — recording
/// activates once, exactly one start marker is emitted, and the run
/// counter rises by exactly one.
pub proof fn lemma_start_idempotent(
    st: ControlState,
    first_input: Seq<u8>,
    second_input: Seq<u8>,
    t1: Seq<u8>,
    t2: Seq<u8>,
)
    requires
        !st.active,
        st.run_count < u64::MAX,
        command_of(first_input) == Command::Start,
        command_of(second_input) == Command::Start,
    ensures
        ({
            let st1 = control_next(st, first_input);
            let st2 = control_next(st1, second_input);
            st1.active && st1.run_count == st.run_count + 1 && control_marker(st, first_input, t1)
                == Some(start_cells(t1, st.run_count as nat)) && st2 == st1 && control_marker(
                st1,
                second_input,
                t2,
            ) is None
        }),
{
}

} // verus!
