use mysql_exec::{
    execute_buffered, AggregatedResult, CommandState, ErrPacket, ExecuteError, Execution, Expect,
    OkPacket, Packet, Phase, Step, MORE_RESULTS_EXISTS,
};

const AUTOCOMMIT: u16 = 0x0002;

fn ok(affected_rows: u64, last_insert_id: u64, status: u16) -> OkPacket {
    OkPacket { affected_rows, last_insert_id, status, warnings: 0 }
}

fn more(affected_rows: u64, last_insert_id: u64) -> Packet {
    Packet::Success(ok(affected_rows, last_insert_id, AUTOCOMMIT | MORE_RESULTS_EXISTS))
}

fn last(affected_rows: u64, last_insert_id: u64) -> Packet {
    Packet::Success(ok(affected_rows, last_insert_id, AUTOCOMMIT))
}

fn server_error(code: u16, message: &str) -> Packet {
    Packet::Error(ErrPacket { code, message: message.to_string() })
}

/// A packet channel stand-in: hands out a scripted response and counts reads.
struct Script {
    packets: Vec<Packet>,
    reads: usize,
    writes: usize,
}

impl Script {
    fn new(packets: Vec<Packet>) -> Script {
        Script { packets, reads: 0, writes: 0 }
    }

    /// Drives one execution the way a connection does.
    fn execute(&mut self, commands: &mut CommandState) -> Result<AggregatedResult, ExecuteError> {
        let mut exec = Execution::start(commands)?;
        self.writes += 1;
        let mut step = exec.query_written(commands);
        loop {
            match step {
                Step::Read(_) => {
                    if self.reads >= self.packets.len() {
                        return Err(ExecuteError::Incomplete);
                    }
                    let p = self.packets[self.reads].clone();
                    self.reads += 1;
                    step = exec.on_packet(commands, &p);
                }
                Step::Finished(r) => return Ok(r),
                Step::Failed(e) => return Err(e),
            }
        }
    }
}

#[test]
fn single_statement_without_rows() {
    let mut commands = CommandState::new();
    let (r, used) = execute_buffered(&mut commands, &vec![last(7, 42)]);
    let r = r.unwrap();
    assert_eq!(r.affected_rows, 7);
    assert_eq!(r.last_insert_id, 42);
    assert_eq!(r.status, AUTOCOMMIT);
    assert_eq!(used, 1);
    assert_eq!(commands, CommandState::Idle);
}

#[test]
fn single_statement_rows_are_counted() {
    let mut commands = CommandState::new();
    let packets = vec![
        Packet::ResultSetHeader { columns: 2 },
        Packet::Column,
        Packet::Column,
        Packet::Row,
        Packet::Row,
        Packet::Row,
        last(0, 0),
    ];
    let (r, used) = execute_buffered(&mut commands, &packets);
    let r = r.unwrap();
    assert_eq!(r.affected_rows, 3);
    assert_eq!(used, 7);
    assert_eq!(commands, CommandState::Idle);
}

#[test]
fn empty_result_set_still_drains_columns() {
    let mut commands = CommandState::new();
    let packets = vec![Packet::ResultSetHeader { columns: 1 }, Packet::Column, last(0, 0)];
    let (r, used) = execute_buffered(&mut commands, &packets);
    assert_eq!(r.unwrap().affected_rows, 0);
    assert_eq!(used, 3);
}

#[test]
fn header_without_columns_goes_to_rows() {
    let mut commands = CommandState::new();
    let packets = vec![Packet::ResultSetHeader { columns: 0 }, Packet::Row, last(0, 0)];
    let (r, used) = execute_buffered(&mut commands, &packets);
    assert_eq!(r.unwrap().affected_rows, 1);
    assert_eq!(used, 3);
}

#[test]
fn batch_sums_and_folds_once_per_statement() {
    let mut script = Script::new(vec![more(1, 10), more(2, 11), last(3, 12), last(100, 99)]);
    let mut commands = CommandState::new();
    let r = script.execute(&mut commands).unwrap();
    assert_eq!(r.affected_rows, 6);
    assert_eq!(r.last_insert_id, 12);
    assert_eq!(r.status, AUTOCOMMIT | MORE_RESULTS_EXISTS);
    assert_eq!(script.reads, 3);
    assert_eq!(commands, CommandState::Idle);
}

#[test]
fn batch_mixing_result_sets_and_outcomes() {
    let mut commands = CommandState::new();
    let packets = vec![
        more(4, 1),
        Packet::ResultSetHeader { columns: 1 },
        Packet::Column,
        Packet::Row,
        Packet::Row,
        Packet::Success(ok(0, 0, AUTOCOMMIT | MORE_RESULTS_EXISTS)),
        last(5, 9),
    ];
    let (r, used) = execute_buffered(&mut commands, &packets);
    let r = r.unwrap();
    assert_eq!(r.affected_rows, 11);
    assert_eq!(r.last_insert_id, 9);
    assert_eq!(used, 7);
    assert_eq!(commands, CommandState::Idle);
}

#[test]
fn mid_batch_error_stops_reading() {
    let mut script =
        Script::new(vec![more(1, 10), server_error(1064, "syntax error"), last(3, 12)]);
    let mut commands = CommandState::new();
    let r = script.execute(&mut commands);
    match r {
        Err(ExecuteError::Server(e)) => {
            assert_eq!(e.code, 1064);
            assert_eq!(e.message, "syntax error");
        }
        other => panic!("expected a server error, got {:?}", other),
    }
    assert_eq!(script.reads, 2);
    assert_eq!(commands, CommandState::AwaitingResponse);
}

#[test]
fn mid_batch_error_buffered() {
    let mut commands = CommandState::new();
    let packets = vec![more(1, 10), server_error(1146, "no such table"), last(3, 12)];
    let (r, used) = execute_buffered(&mut commands, &packets);
    assert!(matches!(r, Err(ExecuteError::Server(ErrPacket { code: 1146, .. }))));
    assert_eq!(used, 2);
}

#[test]
fn error_inside_result_set() {
    let mut commands = CommandState::new();
    let packets = vec![
        Packet::ResultSetHeader { columns: 1 },
        Packet::Column,
        Packet::Row,
        server_error(1317, "interrupted"),
    ];
    let (r, used) = execute_buffered(&mut commands, &packets);
    assert!(matches!(r, Err(ExecuteError::Server(ErrPacket { code: 1317, .. }))));
    assert_eq!(used, 4);
}

#[test]
fn busy_connection_fails_without_writing() {
    let mut script = Script::new(vec![last(1, 1)]);
    let mut commands = CommandState::AwaitingResponse;
    let r = script.execute(&mut commands);
    assert!(matches!(r, Err(ExecuteError::CommandInProgress)));
    assert_eq!(script.writes, 0);
    assert_eq!(script.reads, 0);
    assert_eq!(commands, CommandState::AwaitingResponse);

    let (r, used) = execute_buffered(&mut commands, &vec![last(1, 1)]);
    assert!(matches!(r, Err(ExecuteError::CommandInProgress)));
    assert_eq!(used, 0);
}

#[test]
fn undrained_execution_blocks_the_next() {
    let mut commands = CommandState::new();
    let (r, _) = execute_buffered(&mut commands, &vec![more(1, 1)]);
    assert!(matches!(r, Err(ExecuteError::Incomplete)));
    assert_eq!(commands, CommandState::AwaitingResponse);
    let (r, used) = execute_buffered(&mut commands, &vec![last(1, 1)]);
    assert!(matches!(r, Err(ExecuteError::CommandInProgress)));
    assert_eq!(used, 0);
}

#[test]
fn idle_again_after_each_success() {
    let mut commands = CommandState::new();
    let (r, _) = execute_buffered(&mut commands, &vec![last(1, 1)]);
    assert!(r.is_ok());
    assert_eq!(commands, CommandState::Idle);
    let packets = vec![
        Packet::ResultSetHeader { columns: 1 },
        Packet::Column,
        Packet::Success(ok(0, 0, MORE_RESULTS_EXISTS)),
        Packet::ResultSetHeader { columns: 1 },
        Packet::Column,
        Packet::Row,
        last(0, 0),
    ];
    let (r, _) = execute_buffered(&mut commands, &packets);
    assert_eq!(r.unwrap().affected_rows, 1);
    assert_eq!(commands, CommandState::Idle);
}

#[test]
fn sum_and_last_id_over_many_outcomes() {
    let counts: Vec<u64> = vec![3, 0, 8, 1, 20];
    let mut packets = Vec::new();
    for (i, a) in counts.iter().enumerate() {
        if i + 1 < counts.len() {
            packets.push(more(*a, 100 + i as u64));
        } else {
            packets.push(last(*a, 100 + i as u64));
        }
    }
    let mut commands = CommandState::new();
    let (r, used) = execute_buffered(&mut commands, &packets);
    let r = r.unwrap();
    assert_eq!(r.affected_rows, 32);
    assert_eq!(r.last_insert_id, 104);
    assert_eq!(used, 5);
}

#[test]
fn unexpected_packets_are_refused() {
    let mut commands = CommandState::new();
    let (r, used) = execute_buffered(&mut commands, &vec![Packet::Row]);
    assert!(matches!(r, Err(ExecuteError::UnexpectedPacket)));
    assert_eq!(used, 1);

    let mut commands = CommandState::new();
    let packets = vec![Packet::ResultSetHeader { columns: 2 }, Packet::Column, Packet::Row];
    let (r, used) = execute_buffered(&mut commands, &packets);
    assert!(matches!(r, Err(ExecuteError::UnexpectedPacket)));
    assert_eq!(used, 3);

    let mut commands = CommandState::new();
    let packets = vec![Packet::ResultSetHeader { columns: 1 }, Packet::Column, Packet::Column];
    let (r, _) = execute_buffered(&mut commands, &packets);
    assert!(matches!(r, Err(ExecuteError::UnexpectedPacket)));
}

#[test]
fn truncated_response_is_incomplete() {
    let mut commands = CommandState::new();
    let (r, used) = execute_buffered(&mut commands, &vec![]);
    assert!(matches!(r, Err(ExecuteError::Incomplete)));
    assert_eq!(used, 0);
    let packets = vec![Packet::ResultSetHeader { columns: 1 }, Packet::Column, Packet::Row];
    let mut commands = CommandState::new();
    let (r, used) = execute_buffered(&mut commands, &packets);
    assert!(matches!(r, Err(ExecuteError::Incomplete)));
    assert_eq!(used, 3);
}

#[test]
fn machine_asks_for_the_right_decoding() {
    let mut commands = CommandState::new();
    let mut exec = Execution::start(&commands).unwrap();
    assert_eq!(exec.phase, Phase::Sending);
    assert!(matches!(exec.query_written(&mut commands), Step::Read(Expect::Response)));
    assert_eq!(commands, CommandState::AwaitingResponse);
    let s = exec.on_packet(&mut commands, &Packet::ResultSetHeader { columns: 2 });
    assert!(matches!(s, Step::Read(Expect::Column)));
    assert_eq!(exec.phase, Phase::Columns { remaining: 2 });
    assert!(matches!(exec.on_packet(&mut commands, &Packet::Column), Step::Read(Expect::Column)));
    assert!(matches!(exec.on_packet(&mut commands, &Packet::Column), Step::Read(Expect::Row)));
    assert!(matches!(exec.on_packet(&mut commands, &Packet::Row), Step::Read(Expect::Row)));
    let s = exec.on_packet(&mut commands, &more(0, 0));
    assert!(matches!(s, Step::Read(Expect::Response)));
    assert_eq!(commands, CommandState::AwaitingResponse);
    let s = exec.on_packet(&mut commands, &last(2, 5));
    match s {
        Step::Finished(r) => {
            assert_eq!(r.affected_rows, 3);
            assert_eq!(r.last_insert_id, 5);
        }
        other => panic!("expected the end, got {:?}", other),
    }
    assert_eq!(exec.phase, Phase::Done);
    assert_eq!(commands, CommandState::Idle);
    let s = exec.on_packet(&mut commands, &last(1, 1));
    assert!(matches!(s, Step::Failed(ExecuteError::UnexpectedPacket)));
}

#[test]
fn query_written_twice_is_refused() {
    let mut commands = CommandState::new();
    let mut exec = Execution::start(&commands).unwrap();
    exec.query_written(&mut commands);
    let s = exec.query_written(&mut commands);
    assert!(matches!(s, Step::Failed(ExecuteError::CommandInProgress)));
    assert_eq!(exec.phase, Phase::Done);
    assert_eq!(commands, CommandState::AwaitingResponse);
}

#[test]
fn fold_rules() {
    let mut acc = AggregatedResult::new();
    acc.fold(&OkPacket { affected_rows: 2, last_insert_id: 7, status: 0x0001, warnings: 3 });
    acc.fold(&OkPacket { affected_rows: 5, last_insert_id: 0, status: 0x0010, warnings: 4 });
    assert_eq!(
        acc,
        AggregatedResult { affected_rows: 7, last_insert_id: 0, status: 0x0011, warnings: 7 }
    );
    acc.count_row();
    assert_eq!(acc.affected_rows, 8);
}

#[test]
fn counts_saturate() {
    let mut acc = AggregatedResult::new();
    acc.fold(&OkPacket { affected_rows: u64::MAX - 1, last_insert_id: 1, status: 0, warnings: u16::MAX });
    acc.count_row();
    assert_eq!(acc.affected_rows, u64::MAX);
    acc.count_row();
    acc.fold(&OkPacket { affected_rows: 9, last_insert_id: 2, status: 0, warnings: 1 });
    assert_eq!(acc.affected_rows, u64::MAX);
    assert_eq!(acc.warnings, u16::MAX);
}

#[test]
fn more_results_flag() {
    assert!(ok(0, 0, MORE_RESULTS_EXISTS).more_results());
    assert!(ok(0, 0, MORE_RESULTS_EXISTS | AUTOCOMMIT).more_results());
    assert!(!ok(0, 0, AUTOCOMMIT).more_results());
}

#[test]
fn command_state_transitions() {
    let mut commands = CommandState::new();
    assert!(commands.is_idle());
    assert!(commands.begin().is_ok());
    assert_eq!(commands, CommandState::AwaitingResponse);
    assert!(matches!(commands.begin(), Err(ExecuteError::CommandInProgress)));
    assert_eq!(commands, CommandState::AwaitingResponse);
    commands.rearm();
    assert_eq!(commands, CommandState::AwaitingResponse);
    commands.end();
    assert!(commands.is_idle());
}
