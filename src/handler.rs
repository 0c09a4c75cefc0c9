use vstd::prelude::*;
use vstd::string::*;

use crate::command::{Command, Request};
use crate::response::{response_wire, Response};

verus! {

/// The process-lifecycle manager's side of the protocol: it turns a decoded
/// request into a response, reporting its own failures as a message with no
/// PID.
pub trait CommandHandler {
    fn handle_command(r: Request) -> Response;
}

/// The message returned for a request that names no operation.
pub open spec fn unknown_command_text() -> Seq<char> {
    "unknown command"@
}

/// The response to a request that names no operation: an error message and
/// no PID.
pub fn unknown_command_response() -> (r: Response)
    ensures
        r@ == (unknown_command_text(), None::<u32>),
{
    Response::new(String::from_str("unknown command"), None)
}

/// Services one request body: decodes the command, rejects `Unknown` without
/// consulting the handler, and otherwise hands the handler a request for the
/// decoded command and encodes its answer.
pub fn dispatch<H: CommandHandler>(request: &Vec<u8>) -> (r: Vec<u8>)
    ensures
        Command::decoded(request@) == Command::Unknown ==> r@ == response_wire(
            unknown_command_text(),
            None,
        ),
        Command::decoded(request@) != Command::Unknown ==> exists|resp: Response|
            call_ensures(H::handle_command, (Request { cmd: Command::decoded(request@) },), resp)
                && r@ == response_wire(resp@.0, resp@.1),
{
    let cmd = Command::decode(request);
    match cmd {
        Command::Unknown => unknown_command_response().encode(),
        _ => {
            let resp = H::handle_command(Request { cmd });
            resp.encode()
        },
    }
}

} // verus!
