//! The query executor as an explicit state machine. The caller performs the
//! I/O: it writes the query, reports that, then reads and decodes each packet
//! the machine asks for and hands it over, until the machine finishes.

use vstd::prelude::*;

use crate::command::CommandState;
use crate::error::ExecuteError;
use crate::packet::{more_results_spec, ErrPacket, OkPacket, Packet};
use crate::result::{empty_result, folded, with_row, AggregatedResult};

verus! {

/// Where an execution stands.
#[derive(Clone, Copy, Debug, PartialEq, Eq, Structural)]
pub enum Phase {
    /// The query has not been written yet.
    Sending,
    /// The next packet is a statement outcome or a result-set header.
    AwaitingOutcome,
    /// Column definitions of a result set are being skipped.
    Columns { remaining: u64 },
    /// Rows of a result set are being counted, up to its terminal packet.
    Rows,
    /// The execution has finished, successfully or not.
    Done,
}

/// How the caller is to decode the next packet it reads.
#[derive(Clone, Copy, Debug, PartialEq, Eq, Structural)]
pub enum Expect {
    /// A statement outcome or a result-set header.
    Response,
    /// A column definition.
    Column,
    /// A row or the terminal outcome of a result set.
    Row,
}

/// What the caller is to do next.
#[derive(Clone, Debug)]
pub enum Step {
    /// Read one more packet and decode it as told.
    Read(Expect),
    /// The execution succeeded with this aggregate.
    Finished(AggregatedResult),
    /// The execution failed.
    Failed(ExecuteError),
}

/// One execution of a text query on a connection.
#[derive(Clone, Copy, Debug)]
pub struct Execution {
    pub phase: Phase,
    pub result: AggregatedResult,
}

/// The machine right after its query was sent and the command begun.
pub open spec fn awaiting_first() -> Execution {
    Execution { phase: Phase::AwaitingOutcome, result: empty_result() }
}

/// The machine stopped with an error.
pub open spec fn failed_with(m: Execution, e: ExecuteError) -> (Execution, Step) {
    (Execution { phase: Phase::Done, result: m.result }, Step::Failed(e))
}

/// A statement outcome folded in: go on with the next statement when the
/// server announced one, else finish.
pub open spec fn after_outcome(m: Execution, ok: OkPacket) -> (Execution, Step) {
    let acc = folded(m.result, ok);
    if more_results_spec(ok) {
        (Execution { phase: Phase::AwaitingOutcome, result: acc }, Step::Read(Expect::Response))
    } else {
        (Execution { phase: Phase::Done, result: acc }, Step::Finished(acc))
    }
}

/// The transition once the query has been written.
pub open spec fn after_write(m: Execution, cs: CommandState) -> (Execution, Step) {
    if m.phase == Phase::Sending && cs == CommandState::Idle {
        (Execution { phase: Phase::AwaitingOutcome, result: m.result }, Step::Read(Expect::Response))
    } else {
        failed_with(m, ExecuteError::CommandInProgress)
    }
}

/// The transition on one packet read.
pub open spec fn after_packet(m: Execution, p: Packet) -> (Execution, Step) {
    match m.phase {
        Phase::AwaitingOutcome => match p {
            Packet::Success(ok) => after_outcome(m, ok),
            Packet::Error(e) => failed_with(m, ExecuteError::Server(e)),
            Packet::ResultSetHeader { columns } => if columns == 0 {
                (Execution { phase: Phase::Rows, result: m.result }, Step::Read(Expect::Row))
            } else {
                (
                    Execution { phase: Phase::Columns { remaining: columns }, result: m.result },
                    Step::Read(Expect::Column),
                )
            },
            _ => failed_with(m, ExecuteError::UnexpectedPacket),
        },
        Phase::Columns { remaining } => match p {
            Packet::Column => if remaining <= 1 {
                (Execution { phase: Phase::Rows, result: m.result }, Step::Read(Expect::Row))
            } else {
                (
                    Execution {
                        phase: Phase::Columns { remaining: (remaining - 1) as u64 },
                        result: m.result,
                    },
                    Step::Read(Expect::Column),
                )
            },
            _ => failed_with(m, ExecuteError::UnexpectedPacket),
        },
        Phase::Rows => match p {
            Packet::Row => (
                Execution { phase: Phase::Rows, result: with_row(m.result) },
                Step::Read(Expect::Row),
            ),
            Packet::Success(ok) => after_outcome(m, ok),
            Packet::Error(e) => failed_with(m, ExecuteError::Server(e)),
            _ => failed_with(m, ExecuteError::UnexpectedPacket),
        },
        _ => failed_with(m, ExecuteError::UnexpectedPacket),
    }
}

/// The command state once a transition has given `s`: a finished execution
/// frees the connection, a further statement keeps its command slot, and
/// anything else leaves the state as it was.
pub open spec fn commands_after(cs: CommandState, s: Step) -> CommandState {
    match s {
        Step::Finished(_) => CommandState::Idle,
        Step::Read(Expect::Response) => CommandState::AwaitingResponse,
        _ => cs,
    }
}

/// The result of feeding `ps` to `m` until it finishes, and how many packets
/// it took; `Incomplete` where `ps` ran out first.
pub open spec fn run(m: Execution, ps: Seq<Packet>) -> (Result<AggregatedResult, ExecuteError>, nat)
    decreases ps.len(),
{
    if ps.len() == 0 {
        (Err(ExecuteError::Incomplete), 0)
    } else {
        let (m2, s) = after_packet(m, ps[0]);
        match s {
            Step::Read(_) => {
                let (r, n) = run(m2, ps.drop_first());
                (r, n + 1)
            },
            Step::Finished(a) => (Ok(a), 1),
            Step::Failed(e) => (Err(e), 1),
        }
    }
}

/// The error for a server's error packet, which it carries unchanged.
fn server_error(e: &ErrPacket) -> (r: ExecuteError)
    ensures
        r == ExecuteError::Server(*e),
{
    ExecuteError::Server(ErrPacket { code: e.code, message: e.message.clone() })
}

impl Execution {
    /// Prepares an execution. Refused while another command is outstanding,
    /// before anything is written.
    pub fn start(commands: &CommandState) -> (r: Result<Execution, ExecuteError>)
        ensures
            *commands == CommandState::Idle ==> r == Ok::<Execution, ExecuteError>(
                Execution { phase: Phase::Sending, result: empty_result() },
            ),
            *commands != CommandState::Idle ==> r == Err::<Execution, ExecuteError>(
                ExecuteError::CommandInProgress,
            ),
    {
        if commands.is_idle() {
            Ok(Execution { phase: Phase::Sending, result: AggregatedResult::new() })
        } else {
            Err(ExecuteError::CommandInProgress)
        }
    }

    /// Records that the query packet was written: the command begins.
    pub fn query_written(&mut self, commands: &mut CommandState) -> (s: Step)
        ensures
            (*final(self), s) == after_write(*old(self), *old(commands)),
            *final(commands) == commands_after(*old(commands), s),
    {
        match self.phase {
            Phase::Sending => match commands.begin() {
                Ok(()) => {
                    self.phase = Phase::AwaitingOutcome;
                    Step::Read(Expect::Response)
                },
                Err(e) => self.fail(e),
            },
            _ => self.fail(ExecuteError::CommandInProgress),
        }
    }

    fn fail(&mut self, e: ExecuteError) -> (s: Step)
        ensures
            (*final(self), s) == failed_with(*old(self), e),
    {
        self.phase = Phase::Done;
        Step::Failed(e)
    }

    /// Folds a statement outcome in and decides whether another follows.
    fn outcome(&mut self, commands: &mut CommandState, ok: &OkPacket) -> (s: Step)
        ensures
            (*final(self), s) == after_outcome(*old(self), *ok),
            *final(commands) == commands_after(*old(commands), s),
    {
        self.result.fold(ok);
        if ok.more_results() {
            self.phase = Phase::AwaitingOutcome;
            commands.rearm();
            Step::Read(Expect::Response)
        } else {
            self.phase = Phase::Done;
            commands.end();
            Step::Finished(self.result)
        }
    }

    /// Handles one packet read from the response.
    pub fn on_packet(&mut self, commands: &mut CommandState, p: &Packet) -> (s: Step)
        ensures
            (*final(self), s) == after_packet(*old(self), *p),
            *final(commands) == commands_after(*old(commands), s),
    {
        match self.phase {
            Phase::AwaitingOutcome => match p {
                Packet::Success(ok) => self.outcome(commands, ok),
                Packet::Error(e) => self.fail(server_error(e)),
                Packet::ResultSetHeader { columns } => {
                    if *columns == 0 {
                        self.phase = Phase::Rows;
                        Step::Read(Expect::Row)
                    } else {
                        self.phase = Phase::Columns { remaining: *columns };
                        Step::Read(Expect::Column)
                    }
                },
                _ => self.fail(ExecuteError::UnexpectedPacket),
            },
            Phase::Columns { remaining } => match p {
                Packet::Column => {
                    if remaining <= 1 {
                        self.phase = Phase::Rows;
                        Step::Read(Expect::Row)
                    } else {
                        self.phase = Phase::Columns { remaining: remaining - 1 };
                        Step::Read(Expect::Column)
                    }
                },
                _ => self.fail(ExecuteError::UnexpectedPacket),
            },
            Phase::Rows => match p {
                Packet::Row => {
                    self.result.count_row();
                    Step::Read(Expect::Row)
                },
                Packet::Success(ok) => self.outcome(commands, ok),
                Packet::Error(e) => self.fail(server_error(e)),
                _ => self.fail(ExecuteError::UnexpectedPacket),
            },
            _ => self.fail(ExecuteError::UnexpectedPacket),
        }
    }
}

/// Runs one execution whose query has been written and whose response has
/// been read in full into `packets`. Returns the outcome and the number of
/// packets used; nothing past the packet that ended the execution is looked
/// at. Refused, with nothing used, while another command is outstanding.
pub fn execute_buffered(commands: &mut CommandState, packets: &Vec<Packet>) -> (r: (
    Result<AggregatedResult, ExecuteError>,
    usize,
))
    ensures
        *old(commands) != CommandState::Idle ==> r.0 == Err::<AggregatedResult, ExecuteError>(
            ExecuteError::CommandInProgress,
        ) && r.1 == 0 && *final(commands) == *old(commands),
        *old(commands) == CommandState::Idle ==> r.0 == run(awaiting_first(), packets@).0 && r.1
            == run(awaiting_first(), packets@).1,
        *old(commands) == CommandState::Idle ==> *final(commands) == (if r.0 is Ok {
            CommandState::Idle
        } else {
            CommandState::AwaitingResponse
        }),
{
    let mut exec = match Execution::start(commands) {
        Ok(exec) => exec,
        Err(e) => return (Err(e), 0),
    };
    let first = exec.query_written(commands);
    let mut i: usize = 0;
    assert(packets@.subrange(0, packets@.len() as int) =~= packets@);
    loop
        invariant
            i <= packets.len(),
            *old(commands) == CommandState::Idle,
            *commands == CommandState::AwaitingResponse,
            run(awaiting_first(), packets@).0 == run(
                exec,
                packets@.subrange(i as int, packets@.len() as int),
            ).0,
            run(awaiting_first(), packets@).1 == run(
                exec,
                packets@.subrange(i as int, packets@.len() as int),
            ).1 + i,
        decreases packets.len() - i,
    {
        if i >= packets.len() {
            return (Err(ExecuteError::Incomplete), i);
        }
        let ghost rest = packets@.subrange(i as int, packets@.len() as int);
        proof {
            assert(rest[0] == packets@[i as int]);
            assert(rest.drop_first() =~= packets@.subrange(i + 1, packets@.len() as int));
        }
        let s = exec.on_packet(commands, &packets[i]);
        i = i + 1;
        match s {
            Step::Read(_) => {},
            Step::Finished(a) => return (Ok(a), i),
            Step::Failed(e) => return (Err(e), i),
        }
    }
}

} // verus!
