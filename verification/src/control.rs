//! The control surface: operator commands flip the recording gate and
//! emit start/stop marker records.

use vstd::prelude::*;

use crate::record::{
    start_cells, start_record, stop_cells, stop_record, Record, RecordKind,
};
use crate::text::{bytes_eq, trim_spec, trim_vec};

verus! {

/// The `start` command word.
pub open spec fn cmd_start() -> Seq<u8> {
    seq![0x73, 0x74, 0x61, 0x72, 0x74]
}

/// The `stop` command word.
pub open spec fn cmd_stop() -> Seq<u8> {
    seq![0x73, 0x74, 0x6f, 0x70]
}

/// The `exit` command word.
pub open spec fn cmd_exit() -> Seq<u8> {
    seq![0x65, 0x78, 0x69, 0x74]
}

/// An operator command, recognized case-sensitively after trimming.
#[derive(Clone, Copy, PartialEq, Eq, Structural, Debug)]
pub enum Command {
    Start,
    Stop,
    Exit,
    Other,
}

/// The command a line of operator input denotes.
pub open spec fn command_of(s: Seq<u8>) -> Command {
    let t = trim_spec(s);
    if t == cmd_start() {
        Command::Start
    } else if t == cmd_stop() {
        Command::Stop
    } else if t == cmd_exit() {
        Command::Exit
    } else {
        Command::Other
    }
}

/// Recognizes one line of operator input.
pub fn parse_command(input: &Vec<u8>) -> (c: Command)
    ensures
        c == command_of(input@),
{
    let t = trim_vec(input);
    let mut w: Vec<u8> = Vec::new();
    w.push(0x73);
    w.push(0x74);
    w.push(0x61);
    w.push(0x72);
    w.push(0x74);
    proof {
        assert(w@ =~= cmd_start());
    }
    if bytes_eq(&t, &w) {
        return Command::Start;
    }
    let mut w: Vec<u8> = Vec::new();
    w.push(0x73);
    w.push(0x74);
    w.push(0x6f);
    w.push(0x70);
    proof {
        assert(w@ =~= cmd_stop());
    }
    if bytes_eq(&t, &w) {
        return Command::Stop;
    }
    let mut w: Vec<u8> = Vec::new();
    w.push(0x65);
    w.push(0x78);
    w.push(0x69);
    w.push(0x74);
    proof {
        assert(w@ =~= cmd_exit());
    }
    if bytes_eq(&t, &w) {
        return Command::Exit;
    }
    Command::Other
}

/// The state the control loop owns: the recording gate and the run
/// counter, monotonically increasing from zero and never reset.
#[derive(Clone, Copy, PartialEq, Eq, Structural, Debug)]
pub struct ControlState {
    pub active: bool,
    pub run_count: u64,
}

/// The state after one line of operator input.
pub open spec fn control_next(st: ControlState, input: Seq<u8>) -> ControlState {
    match command_of(input) {
        Command::Start => if !st.active {
            ControlState { active: true, run_count: (st.run_count + 1) as u64 }
        } else {
            st
        },
        Command::Stop => if st.active {
            ControlState { active: false, run_count: st.run_count }
        } else {
            st
        },
        Command::Exit => ControlState { active: false, run_count: st.run_count },
        Command::Other => st,
    }
}

/// The marker row one line of operator input appends to the stream, if any.
pub open spec fn control_marker(st: ControlState, input: Seq<u8>, ts: Seq<u8>) -> Option<
    Seq<Seq<u8>>,
> {
    match command_of(input) {
        Command::Start => if !st.active {
            Some(start_cells(ts, st.run_count as nat))
        } else {
            None
        },
        Command::Stop => if st.active {
            Some(stop_cells(ts))
        } else {
            None
        },
        Command::Exit => if st.active {
            Some(stop_cells(ts))
        } else {
            None
        },
        Command::Other => None,
    }
}

/// What one line of operator input produced.
pub enum ControlOutcome {
    /// Recording was activated; the start marker to append.
    Started(Record),
    /// `start` while already recording: informational message only.
    AlreadyActive,
    /// Recording was deactivated; the stop marker to append.
    Stopped(Record),
    /// `stop` while not recording: informational message only.
    NotActive,
    /// `exit`: the process terminates after appending the trailing stop
    /// marker, present exactly when recording was active.
    Exit(Option<Record>),
    /// Unrecognized input: help message, no state change.
    Unknown,
}

impl ControlState {
    /// The state at startup: gate inactive, run counter at zero.
    pub fn new() -> (st: ControlState)
        ensures
            !st.active,
            st.run_count == 0,
    {
        ControlState { active: false, run_count: 0 }
    }

    /// Applies one line of operator input: flips the recording state as the command
    /// asks and yields the marker record to append, if any.
    pub fn step(&mut self, input: &Vec<u8>, timestamp: Vec<u8>) -> (r: ControlOutcome)
        requires
            old(self).run_count < u64::MAX,
        ensures
            *final(self) == control_next(*old(self), input@),
            match r {
                ControlOutcome::Started(rec) => command_of(input@) == Command::Start
                    && !old(self).active && rec.wf() && rec.kind == RecordKind::Start
                    && Some(rec.cells()) == control_marker(*old(self), input@, timestamp@),
                ControlOutcome::AlreadyActive => command_of(input@) == Command::Start
                    && old(self).active,
                ControlOutcome::Stopped(rec) => command_of(input@) == Command::Stop
                    && old(self).active && rec.wf() && rec.kind == RecordKind::Stop
                    && Some(rec.cells()) == control_marker(*old(self), input@, timestamp@),
                ControlOutcome::NotActive => command_of(input@) == Command::Stop
                    && !old(self).active,
                ControlOutcome::Exit(opt) => command_of(input@) == Command::Exit && match opt {
                    Some(rec) => old(self).active && rec.wf() && rec.kind == RecordKind::Stop
                        && Some(rec.cells()) == control_marker(*old(self), input@, timestamp@),
                    None => !old(self).active,
                },
                ControlOutcome::Unknown => command_of(input@) == Command::Other,
            },
    {
        match parse_command(input) {
            Command::Start => {
                if !self.active {
                    self.active = true;
                    let n = self.run_count;
                    self.run_count = n + 1;
                    ControlOutcome::Started(start_record(timestamp, n))
                } else {
                    ControlOutcome::AlreadyActive
                }
            },
            Command::Stop => {
                if self.active {
                    self.active = false;
                    ControlOutcome::Stopped(stop_record(timestamp))
                } else {
                    ControlOutcome::NotActive
                }
            },
            Command::Exit => {
                if self.active {
                    self.active = false;
                    ControlOutcome::Exit(Some(stop_record(timestamp)))
                } else {
                    ControlOutcome::Exit(None)
                }
            },
            Command::Other => ControlOutcome::Unknown,
        }
    }
}

} // verus!
