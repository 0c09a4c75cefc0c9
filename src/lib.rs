//! Control protocol of a process-supervision daemon: the wire codec of
//! commands and responses, the dispatch of a decoded request to a handler,
//! and the connection queue that sits between a blocking accept loop and
//! the code that services connections.

pub mod command;
pub mod error;
pub mod handler;
pub mod response;
pub mod transport;

pub use command::{Command, Request};
pub use error::{DecodeFault, ProcessErr};
pub use handler::{dispatch, unknown_command_response, CommandHandler};
pub use response::{Response, BYTES_PER_PID};
pub use transport::{complete_write, AcceptOutcome, Transport, UnixSocketTp, QUEUE_CAPACITY};
