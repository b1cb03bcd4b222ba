use serial_logger::control::{Command, ControlOutcome, ControlState};
use serial_logger::csvout::{encode_header, encode_record};
use serial_logger::dec::u64_to_dec;
use serial_logger::extract::{parse_line, ParseOutcome};
use serial_logger::ingest::{ingest_line, IngestOutcome};
use serial_logger::record::{data_record, run_label_bytes, start_record, stop_record, Record};
use serial_logger::text::{bytes_eq, normalize, split_fields};

fn bytes(s: &str) -> Vec<u8> {
    s.as_bytes().to_vec()
}

fn parse_command(s: &str) -> Command {
    serial_logger::control::parse_command(&bytes(s))
}

fn cells_of(rec: &Record) -> Vec<String> {
    rec.row().iter().map(|c| String::from_utf8(c.clone()).unwrap()).collect()
}

#[test]
fn normalize_trims_and_strips_tabs() {
    let r = normalize(&bytes(" \t hello\tworld \r\n"));
    assert_eq!(r, bytes("helloworld"));
}

#[test]
fn split_fields_counts_commas() {
    let f = split_fields(&bytes("1,2.5,,x"));
    assert_eq!(f, vec![bytes("1"), bytes("2.5"), bytes(""), bytes("x")]);
    let one = split_fields(&bytes(""));
    assert_eq!(one, vec![bytes("")]);
}

#[test]
fn bytes_eq_compares_contents() {
    assert!(bytes_eq(&bytes("start"), &bytes("start")));
    assert!(!bytes_eq(&bytes("start"), &bytes("stop")));
}

#[test]
fn decimal_rendering() {
    assert_eq!(u64_to_dec(0), bytes("0"));
    assert_eq!(u64_to_dec(7), bytes("7"));
    assert_eq!(u64_to_dec(12345), bytes("12345"));
    assert_eq!(run_label_bytes(0), bytes("run 0"));
    assert_eq!(run_label_bytes(42), bytes("run 42"));
}

#[test]
fn parse_drops_lines_without_marker() {
    match parse_line(&bytes("noise")) {
        ParseOutcome::NotTelemetry => {}
        _ => panic!("a line without the marker token must be dropped"),
    }
    match parse_line(&bytes("UDP packet contents 1,2,3,4")) {
        ParseOutcome::NotTelemetry => {}
        _ => panic!("the token must match in full, colon included"),
    }
}

#[test]
fn parse_yields_four_fields_verbatim() {
    match parse_line(&bytes("...UDP packet contents: 7551870,-2.45,-3.69,-9.15\r\n")) {
        ParseOutcome::Fields(f) => {
            assert_eq!(
                f,
                vec![bytes("7551870"), bytes("-2.45"), bytes("-3.69"), bytes("-9.15")]
            );
        }
        _ => panic!("a well-formed payload must yield its four fields"),
    }
}

#[test]
fn parse_takes_payload_after_first_marker_occurrence() {
    match parse_line(&bytes("x: UDP packet contents: 1,2,3,4")) {
        ParseOutcome::Fields(f) => {
            assert_eq!(f, vec![bytes("1"), bytes("2"), bytes("3"), bytes("4")]);
        }
        _ => panic!("an earlier colon must not shift the payload"),
    }
}

#[test]
fn parse_rejects_wrong_arity_with_diagnostic() {
    match parse_line(&bytes("UDP packet contents: 1,2,3")) {
        ParseOutcome::WrongArity { expected, actual, payload } => {
            assert_eq!(expected, 4);
            assert_eq!(actual, 3);
            assert_eq!(payload, bytes("1,2,3"));
        }
        _ => panic!("three fields must be rejected"),
    }
    match parse_line(&bytes("UDP packet contents: 1,2,3,4,5")) {
        ParseOutcome::WrongArity { expected, actual, .. } => {
            assert_eq!(expected, 4);
            assert_eq!(actual, 5);
        }
        _ => panic!("five fields must be rejected"),
    }
}

#[test]
fn parse_rejects_empty_payload() {
    match parse_line(&bytes("UDP packet contents:")) {
        ParseOutcome::WrongArity { expected, actual, payload } => {
            assert_eq!(expected, 4);
            assert_eq!(actual, 1);
            assert_eq!(payload, bytes(""));
        }
        _ => panic!("a bare marker line has one empty field, not four"),
    }
}

#[test]
fn ingest_ignores_noise_whatever_the_gate() {
    for active in [false, true] {
        match ingest_line(active, &bytes("noise"), bytes("ts")) {
            IngestOutcome::Ignored => {}
            _ => panic!("noise must never append a record"),
        }
    }
}

#[test]
fn ingest_appends_nothing_while_gate_inactive() {
    let lines = ["UDP packet contents: 1,2,3,4", "UDP packet contents: 5,6,7,8"];
    for line in lines {
        match ingest_line(false, &bytes(line), bytes("ts")) {
            IngestOutcome::GateClosed => {}
            _ => panic!("an inactive gate must keep data rows out of the stream"),
        }
    }
}

#[test]
fn ingest_malformed_payload_appends_nothing() {
    match ingest_line(true, &bytes("UDP packet contents: 1,2,3"), bytes("ts")) {
        IngestOutcome::WrongArity { expected, actual, payload } => {
            assert_eq!(expected, 4);
            assert_eq!(actual, 3);
            assert_eq!(payload, bytes("1,2,3"));
        }
        _ => panic!("a malformed payload must yield a diagnostic, not a record"),
    }
}

#[test]
fn ingest_round_trip_preserves_fields_in_order() {
    let lines = [
        "UDP packet contents: 1,2,3,4",
        "UDP packet contents: 5.5,6,7,8",
        "UDP packet contents: a,b,c,d",
    ];
    let mut rows: Vec<Vec<String>> = Vec::new();
    for (i, line) in lines.iter().enumerate() {
        match ingest_line(true, &bytes(line), bytes(&format!("t{}", i))) {
            IngestOutcome::Append(rec) => rows.push(cells_of(&rec)),
            _ => panic!("a well-formed payload must append while active"),
        }
    }
    assert_eq!(rows.len(), 3);
    assert_eq!(rows[0], vec!["data", "t0", "", "1", "2", "3", "4"]);
    assert_eq!(rows[1], vec!["data", "t1", "", "5.5", "6", "7", "8"]);
    assert_eq!(rows[2], vec!["data", "t2", "", "a", "b", "c", "d"]);
}

#[test]
fn command_recognition_is_trimmed_and_case_sensitive() {
    assert!(matches!(parse_command("start"), Command::Start));
    assert!(matches!(parse_command("  start \n"), Command::Start));
    assert!(matches!(parse_command("stop"), Command::Stop));
    assert!(matches!(parse_command("exit"), Command::Exit));
    assert!(matches!(parse_command("Start"), Command::Other));
    assert!(matches!(parse_command("go"), Command::Other));
    assert!(matches!(parse_command(""), Command::Other));
}

#[test]
fn start_twice_activates_once() {
    let mut st = ControlState::new();
    match st.step(&bytes("start"), bytes("t1")) {
        ControlOutcome::Started(rec) => {
            assert_eq!(cells_of(&rec), vec!["start", "t1", "run 0", "", "", "", ""]);
        }
        _ => panic!("the first start must activate"),
    }
    assert!(st.active);
    assert_eq!(st.run_count, 1);
    match st.step(&bytes("start"), bytes("t2")) {
        ControlOutcome::AlreadyActive => {}
        _ => panic!("a second start must be a no-op"),
    }
    assert!(st.active);
    assert_eq!(st.run_count, 1);
}

#[test]
fn stop_when_inactive_is_a_no_op() {
    let mut st = ControlState::new();
    match st.step(&bytes("stop"), bytes("t")) {
        ControlOutcome::NotActive => {}
        _ => panic!("stop while inactive must change nothing"),
    }
    assert!(!st.active);
    assert_eq!(st.run_count, 0);
}

#[test]
fn unknown_input_changes_nothing() {
    let mut st = ControlState::new();
    match st.step(&bytes("frobnicate"), bytes("t")) {
        ControlOutcome::Unknown => {}
        _ => panic!("unrecognized input must be a no-op"),
    }
    assert!(!st.active);
    assert_eq!(st.run_count, 0);
}

#[test]
fn exit_while_active_emits_trailing_stop_marker() {
    let mut st = ControlState::new();
    let _ = st.step(&bytes("start"), bytes("t1"));
    match st.step(&bytes("exit"), bytes("t2")) {
        ControlOutcome::Exit(Some(rec)) => {
            assert_eq!(cells_of(&rec), vec!["stop", "t2", "end of run", "", "", "", ""]);
        }
        _ => panic!("exit while active must emit a stop marker"),
    }
    assert!(!st.active);
}

#[test]
fn exit_while_inactive_emits_no_marker() {
    let mut st = ControlState::new();
    match st.step(&bytes("exit"), bytes("t")) {
        ControlOutcome::Exit(None) => {}
        _ => panic!("exit while inactive must emit nothing"),
    }
}

#[test]
fn run_counter_rises_per_successful_start() {
    let mut st = ControlState::new();
    for i in 0..3u64 {
        match st.step(&bytes("start"), bytes("t")) {
            ControlOutcome::Started(rec) => {
                assert_eq!(rec.label, bytes(&format!("run {}", i)));
            }
            _ => panic!("start after stop must activate again"),
        }
        let _ = st.step(&bytes("stop"), bytes("t"));
    }
    assert_eq!(st.run_count, 3);
}

#[test]
fn header_line_is_the_fixed_seven_columns() {
    assert_eq!(
        encode_header(),
        bytes("Type,Timestamp,Run/End,Value1,Value2,Value3,Value4\n")
    );
}

#[test]
fn marker_and_data_lines_encode_plainly() {
    let start = start_record(bytes("2024-01-01 00:00:00"), 0);
    assert_eq!(encode_record(&start), bytes("start,2024-01-01 00:00:00,run 0,,,,\n"));
    let stop = stop_record(bytes("2024-01-01 00:00:05"));
    assert_eq!(encode_record(&stop), bytes("stop,2024-01-01 00:00:05,end of run,,,,\n"));
    let data = data_record(
        bytes("2024-01-01 00:00:01"),
        vec![bytes("100"), bytes("1.0"), bytes("2.0"), bytes("3.0")],
    );
    assert_eq!(
        encode_record(&data),
        bytes("data,2024-01-01 00:00:01,,100,1.0,2.0,3.0\n")
    );
}

#[test]
fn cells_needing_quotes_are_quoted() {
    let data = data_record(
        bytes("ts"),
        vec![bytes("a\"b"), bytes("c"), bytes("d"), bytes("e")],
    );
    assert_eq!(encode_record(&data), bytes("data,ts,,\"a\"\"b\",c,d,e\n"));
}

#[test]
fn end_to_end_scenario() {
    let mut st = ControlState::new();
    let mut out: Vec<u8> = encode_header();

    // "noise" arrives before any start: nothing is appended.
    match ingest_line(st.active, &bytes("noise"), bytes("ts0")) {
        IngestOutcome::Ignored => {}
        _ => panic!("noise must be ignored"),
    }

    match st.step(&bytes("start"), bytes("ts1")) {
        ControlOutcome::Started(rec) => out.extend_from_slice(&encode_record(&rec)),
        _ => panic!("start must activate"),
    }

    match ingest_line(st.active, &bytes("...UDP packet contents: 100,1.0,2.0,3.0"), bytes("ts2")) {
        IngestOutcome::Append(rec) => out.extend_from_slice(&encode_record(&rec)),
        _ => panic!("the data line must be appended"),
    }

    match st.step(&bytes("stop"), bytes("ts3")) {
        ControlOutcome::Stopped(rec) => out.extend_from_slice(&encode_record(&rec)),
        _ => panic!("stop must deactivate"),
    }

    let expected = "Type,Timestamp,Run/End,Value1,Value2,Value3,Value4\n\
                    start,ts1,run 0,,,,\n\
                    data,ts2,,100,1.0,2.0,3.0\n\
                    stop,ts3,end of run,,,,\n";
    assert_eq!(String::from_utf8(out).unwrap(), expected);
}
