use vstd::prelude::*;

verus! {

/// A control operation sent from a client to the daemon.
///
/// The seven named operations travel as their ordinal byte `0..=6`;
/// `Unknown` travels as `7` and is what every malformed request decodes to.
#[derive(Debug, Clone, Copy, PartialEq, Eq, Structural)]
pub enum Command {
    Start,
    Stop,
    Restart,
    Kill,
    Reload,
    Status,
    Exit,
    Unknown,
}

impl Command {
    /// The wire byte of a command.
    pub open spec fn code(self) -> u8 {
        match self {
            Command::Start => 0,
            Command::Stop => 1,
            Command::Restart => 2,
            Command::Kill => 3,
            Command::Reload => 4,
            Command::Status => 5,
            Command::Exit => 6,
            Command::Unknown => 7,
        }
    }

    /// The command that a single wire byte names; bytes above `6` name none.
    pub open spec fn from_code(b: u8) -> Command {
        if b == 0 {
            Command::Start
        } else if b == 1 {
            Command::Stop
        } else if b == 2 {
            Command::Restart
        } else if b == 3 {
            Command::Kill
        } else if b == 4 {
            Command::Reload
        } else if b == 5 {
            Command::Status
        } else if b == 6 {
            Command::Exit
        } else {
            Command::Unknown
        }
    }

    /// What a request body decodes to: only a body of exactly one byte can
    /// name an operation.
    pub open spec fn decoded(bytes: Seq<u8>) -> Command {
        if bytes.len() == 1 {
            Command::from_code(bytes[0])
        } else {
            Command::Unknown
        }
    }

    /// Encodes the command as its single wire byte.
    pub fn encode(self) -> (r: Vec<u8>)
        ensures
            r@ == seq![self.code()],
    {
        let b: u8 = match self {
            Command::Start => 0,
            Command::Stop => 1,
            Command::Restart => 2,
            Command::Kill => 3,
            Command::Reload => 4,
            Command::Status => 5,
            Command::Exit => 6,
            Command::Unknown => 7,
        };
        let mut r: Vec<u8> = Vec::new();
        r.push(b);
        assert(r@ =~= seq![self.code()]);
        r
    }

    /// Decodes a request body. Total: anything that is not one byte in
    /// `0..=6` is `Unknown`.
    pub fn decode(bytes: &Vec<u8>) -> (r: Command)
        ensures
            r == Command::decoded(bytes@),
    {
        if bytes.len() != 1 {
            return Command::Unknown;
        }
        match bytes[0] {
            0 => Command::Start,
            1 => Command::Stop,
            2 => Command::Restart,
            3 => Command::Kill,
            4 => Command::Reload,
            5 => Command::Status,
            6 => Command::Exit,
            _ => Command::Unknown,
        }
    }

    /// The command that a command-line name stands for.
    pub open spec fn named(name: Seq<char>) -> Command {
        if name == "start"@ {
            Command::Start
        } else if name == "stop"@ {
            Command::Stop
        } else if name == "restart"@ {
            Command::Restart
        } else if name == "kill"@ {
            Command::Kill
        } else if name == "reload"@ {
            Command::Reload
        } else if name == "status"@ {
            Command::Status
        } else if name == "exit"@ {
            Command::Exit
        } else {
            Command::Unknown
        }
    }

    /// Looks a command up by its command-line name; any other name is `Unknown`.
    pub fn from_name(name: &str) -> (r: Command)
        ensures
            r == Command::named(name@),
    {
        if same_text(name, "start") {
            Command::Start
        } else if same_text(name, "stop") {
            Command::Stop
        } else if same_text(name, "restart") {
            Command::Restart
        } else if same_text(name, "kill") {
            Command::Kill
        } else if same_text(name, "reload") {
            Command::Reload
        } else if same_text(name, "status") {
            Command::Status
        } else if same_text(name, "exit") {
            Command::Exit
        } else {
            Command::Unknown
        }
    }
}

/// Character-wise comparison of two strings.
fn same_text(a: &str, b: &str) -> (r: bool)
    ensures
        r == (a@ == b@),
{
    let n = a.unicode_len();
    if n != b.unicode_len() {
        return false;
    }
    let mut i: usize = 0;
    while i < n
        invariant
            n == a@.len(),
            n == b@.len(),
            i <= n,
            a@.subrange(0, i as int) == b@.subrange(0, i as int),
        decreases n - i,
    {
        if a.get_char(i) != b.get_char(i) {
            assert(a@[i as int] != b@[i as int]);
            return false;
        }
        assert(a@.subrange(0, i + 1) =~= a@.subrange(0, i as int).push(a@[i as int]));
        assert(b@.subrange(0, i + 1) =~= b@.subrange(0, i as int).push(b@[i as int]));
        i = i + 1;
    }
    assert(a@ =~= a@.subrange(0, n as int));
    assert(b@ =~= b@.subrange(0, n as int));
    true
}

impl<'a> From<&'a str> for Command {
    fn from(name: &'a str) -> (r: Command) {
        Command::from_name(name)
    }
}

impl<'a> vstd::std_specs::convert::FromSpecImpl<&'a str> for Command {
    open spec fn obeys_from_spec() -> bool {
        true
    }

    open spec fn from_spec(name: &'a str) -> Command {
        Command::named(name@)
    }
}

impl From<Vec<u8>> for Command {
    fn from(code: Vec<u8>) -> (r: Command) {
        Command::decode(&code)
    }
}

impl vstd::std_specs::convert::FromSpecImpl<Vec<u8>> for Command {
    open spec fn obeys_from_spec() -> bool {
        true
    }

    open spec fn from_spec(code: Vec<u8>) -> Command {
        Command::decoded(code@)
    }
}

impl From<Command> for Vec<u8> {
    fn from(c: Command) -> (r: Vec<u8>) {
        c.encode()
    }
}

/// The bytes are stated on `encode`: two vectors with the same contents
/// need not be the same value in a specification, so no value is promised here.
impl vstd::std_specs::convert::FromSpecImpl<Command> for Vec<u8> {
    open spec fn obeys_from_spec() -> bool {
        false
    }

    open spec fn from_spec(c: Command) -> Vec<u8> {
        choose|v: Vec<u8>| v@ == seq![c.code()]
    }
}

/// Decoding the wire byte of any command gives that command back; for
/// `Unknown` this is the byte `7`, which decodes to `Unknown` again.
pub proof fn lemma_command_round_trip(c: Command)
    ensures
        Command::decoded(seq![c.code()]) == c,
{
}

/// Every request body that is not a single byte in `0..=6` decodes to `Unknown`.
pub proof fn lemma_unknown_absorbs(bytes: Seq<u8>)
    requires
        bytes.len() != 1 || bytes[0] > 6,
    ensures
        Command::decoded(bytes) == Command::Unknown,
{
}

/// One command, as a client sends it to the daemon.
#[derive(Debug, Clone, Copy, PartialEq, Eq, Structural)]
pub struct Request {
    pub cmd: Command,
}

impl Request {
    /// The wire form of a request: always the one byte of its command.
    pub fn encode(self) -> (r: Vec<u8>)
        ensures
            r@ == seq![self.cmd.code()],
    {
        self.cmd.encode()
    }

    /// Decodes a request body; malformed bodies carry `Unknown`.
    pub fn decode(bytes: &Vec<u8>) -> (r: Request)
        ensures
            r.cmd == Command::decoded(bytes@),
    {
        Request { cmd: Command::decode(bytes) }
    }
}

impl From<Request> for Vec<u8> {
    fn from(r: Request) -> (v: Vec<u8>) {
        r.encode()
    }
}

/// The bytes are stated on `encode`: two vectors with the same contents
/// need not be the same value in a specification, so no value is promised here.
impl vstd::std_specs::convert::FromSpecImpl<Request> for Vec<u8> {
    open spec fn obeys_from_spec() -> bool {
        false
    }

    open spec fn from_spec(r: Request) -> Vec<u8> {
        choose|v: Vec<u8>| v@ == seq![r.cmd.code()]
    }
}

impl From<Vec<u8>> for Request {
    fn from(v: Vec<u8>) -> (r: Request) {
        Request::decode(&v)
    }
}

impl vstd::std_specs::convert::FromSpecImpl<Vec<u8>> for Request {
    open spec fn obeys_from_spec() -> bool {
        true
    }

    open spec fn from_spec(v: Vec<u8>) -> Request {
        Request { cmd: Command::decoded(v@) }
    }
}

} // verus!
