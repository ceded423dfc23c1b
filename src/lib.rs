//! Execution core of a MySQL text-protocol client: tracks the command in
//! flight on a connection and reduces the packets of a (possibly
//! multi-statement) response into one aggregated outcome.

pub mod command;
pub mod error;
pub mod executor;
pub mod lemmas;
pub mod packet;
pub mod result;

pub use command::CommandState;
pub use error::ExecuteError;
pub use executor::{execute_buffered, Execution, Expect, Phase, Step};
pub use packet::{ErrPacket, OkPacket, Packet, MORE_RESULTS_EXISTS};
pub use result::AggregatedResult;
