use vstd::prelude::*;
use vstd::string::*;
use vstd::utf8::*;

use crate::error::{DecodeFault, ProcessErr};

verus! {

/// Number of bytes of the PID field that opens every response body.
pub const BYTES_PER_PID: usize = 4;

/// The result of one command: a message and, where one is known, the PID of
/// the process concerned.
///
/// On the wire the PID field holds `0` for "no PID", so `Some(0)` and `None`
/// are sent alike and `Some(0)` never comes back from a decode.
#[derive(Debug)]
pub struct Response {
    message: String,
    sup_pid: Option<u32>,
}

impl View for Response {
    type V = (Seq<char>, Option<u32>);

    closed spec fn view(&self) -> (Seq<char>, Option<u32>) {
        (self.message@, self.sup_pid)
    }
}

/// The value sent in the PID field: the PID, or `0` for none.
pub open spec fn pid_field(p: Option<u32>) -> u32 {
    match p {
        Some(v) => v,
        None => 0,
    }
}

/// What a received PID field means: `0` is "no PID".
pub open spec fn pid_of_field(v: u32) -> Option<u32> {
    if v == 0 {
        None
    } else {
        Some(v)
    }
}

/// A `u32` as four bytes, most significant first.
pub open spec fn be_bytes(v: u32) -> Seq<u8> {
    seq![(v >> 24u32) as u8, (v >> 16u32) as u8, (v >> 8u32) as u8, v as u8]
}

/// The `u32` that four bytes hold, the first the most significant.
pub open spec fn be_value(b0: u8, b1: u8, b2: u8, b3: u8) -> u32 {
    ((b0 as u32) << 24u32) | ((b1 as u32) << 16u32) | ((b2 as u32) << 8u32) | (b3 as u32)
}

/// The wire form of a response: the PID field, then the UTF-8 bytes of the
/// message. The end of the message is the end of the stream.
pub open spec fn response_wire(message: Seq<char>, sup_pid: Option<u32>) -> Seq<u8> {
    be_bytes(pid_field(sup_pid)) + encode_utf8(message)
}

/// What a response body decodes to.
pub open spec fn response_parsed(bytes: Seq<u8>) -> Result<(Seq<char>, Option<u32>), DecodeFault> {
    if bytes.len() < 4 {
        Err(DecodeFault::MissingPid)
    } else if !valid_utf8(bytes.subrange(4, bytes.len() as int)) {
        Err(DecodeFault::InvalidMessage)
    } else {
        Ok(
            (
                decode_utf8(bytes.subrange(4, bytes.len() as int)),
                pid_of_field(be_value(bytes[0], bytes[1], bytes[2], bytes[3])),
            ),
        )
    }
}

/// Relies on `String::from_utf8`: it accepts exactly the well-formed UTF-8
/// byte sequences, and the string it returns is made of those very bytes.
#[verifier::external_body]
fn string_from_utf8(bytes: Vec<u8>) -> (r: Option<String>)
    ensures
        r is Some <==> valid_utf8(bytes@),
        r matches Some(s) ==> encode_utf8(s@) == bytes@,
{
    String::from_utf8(bytes).ok()
}

/// The character of a decimal digit.
pub open spec fn digit_char(d: nat) -> char {
    seq!['0', '1', '2', '3', '4', '5', '6', '7', '8', '9'][d as int]
}

/// The decimal digits of `n`, without sign or leading zeros.
pub open spec fn decimal(n: nat) -> Seq<char>
    decreases n,
{
    if n < 10 {
        seq![digit_char(n)]
    } else {
        decimal(n / 10).push(digit_char(n % 10))
    }
}

/// The one-character string of a decimal digit.
fn digit_str(d: u32) -> (r: &'static str)
    requires
        d < 10,
    ensures
        r@ =~= seq![digit_char(d as nat)],
{
    match d {
        0 => {
            proof {
                reveal_strlit("0");
            }
            "0"
        },
        1 => {
            proof {
                reveal_strlit("1");
            }
            "1"
        },
        2 => {
            proof {
                reveal_strlit("2");
            }
            "2"
        },
        3 => {
            proof {
                reveal_strlit("3");
            }
            "3"
        },
        4 => {
            proof {
                reveal_strlit("4");
            }
            "4"
        },
        5 => {
            proof {
                reveal_strlit("5");
            }
            "5"
        },
        6 => {
            proof {
                reveal_strlit("6");
            }
            "6"
        },
        7 => {
            proof {
                reveal_strlit("7");
            }
            "7"
        },
        8 => {
            proof {
                reveal_strlit("8");
            }
            "8"
        },
        _ => {
            proof {
                reveal_strlit("9");
            }
            "9"
        },
    }
}

/// The decimal digits of `n`, most significant first.
fn decimal_text(n: u32) -> (r: String)
    ensures
        r@ == decimal(n as nat),
    decreases n,
{
    if n < 10 {
        String::from_str(digit_str(n))
    } else {
        let head = decimal_text(n / 10);
        let r = head.concat(digit_str(n % 10));
        assert(r@ =~= decimal((n / 10) as nat).push(digit_char((n % 10) as nat)));
        r
    }
}

/// How a response reads to a person: the message, followed by the PID
/// when there is one.
pub open spec fn described(message: Seq<char>, sup_pid: Option<u32>) -> Seq<char> {
    match sup_pid {
        Some(p) => message + ", pid is "@ + decimal(p as nat),
        None => message,
    }
}

impl Response {
    pub fn new(message: String, sup_pid: Option<u32>) -> (r: Response)
        ensures
            r@ == (message@, sup_pid),
    {
        Response { message, sup_pid }
    }

    pub fn message(&self) -> (r: &str)
        ensures
            r@ == self@.0,
    {
        self.message.as_str()
    }

    pub fn sup_pid(&self) -> (r: Option<u32>)
        ensures
            r == self@.1,
    {
        self.sup_pid
    }

    /// The response as text for a person: `"<message>, pid is <pid>"`, or the
    /// message alone when there is no PID.
    pub fn describe(&self) -> (r: String)
        ensures
            r@ == described(self@.0, self@.1),
    {
        match self.sup_pid {
            Some(pid) => {
                let head = self.message.clone().concat(", pid is ");
                let digits = decimal_text(pid);
                head.concat(digits.as_str())
            },
            None => self.message.clone(),
        }
    }

    /// The four bytes of the PID field, most significant first; `0` when
    /// there is no PID.
    fn marshal_sup_pid(&self) -> (r: Vec<u8>)
        ensures
            r@ == be_bytes(pid_field(self.sup_pid)),
    {
        let pid: u32 = match self.sup_pid {
            Some(pid) => pid,
            None => 0,
        };
        let mut r: Vec<u8> = Vec::new();
        r.push((pid >> 24u32) as u8);
        r.push((pid >> 16u32) as u8);
        r.push((pid >> 8u32) as u8);
        r.push(pid as u8);
        assert(r@ =~= be_bytes(pid_field(self.sup_pid)));
        r
    }

    /// The UTF-8 bytes of the message.
    fn marshal_msg(&self) -> (r: Vec<u8>)
        ensures
            r@ == encode_utf8(self.message@),
    {
        self.message.as_str().as_bytes_vec()
    }

    /// Encodes the response for the wire.
    pub fn encode(&self) -> (r: Vec<u8>)
        ensures
            r@ == response_wire(self@.0, self@.1),
    {
        let mut r = self.marshal_sup_pid();
        let mut msg = self.marshal_msg();
        r.append(&mut msg);
        r
    }

    /// The PID that a four-byte field names, read most significant byte first.
    fn unmarshal_sup_pid(b0: u8, b1: u8, b2: u8, b3: u8) -> (r: Option<u32>)
        ensures
            r == pid_of_field(be_value(b0, b1, b2, b3)),
    {
        let pid: u32 = ((b0 as u32) << 24u32) | ((b1 as u32) << 16u32) | ((b2 as u32) << 8u32)
            | (b3 as u32);
        if pid == 0 {
            None
        } else {
            Some(pid)
        }
    }

    /// The message held by the bytes that follow the PID field.
    fn unmarshal_msg(bytes: &Vec<u8>) -> (r: Option<String>)
        requires
            bytes@.len() >= BYTES_PER_PID,
        ensures
            r is Some <==> valid_utf8(bytes@.subrange(4, bytes@.len() as int)),
            r matches Some(s) ==> s@ == decode_utf8(bytes@.subrange(4, bytes@.len() as int)),
    {
        let mut rest: Vec<u8> = Vec::new();
        let mut i: usize = BYTES_PER_PID;
        while i < bytes.len()
            invariant
                BYTES_PER_PID <= i <= bytes@.len(),
                rest@ == bytes@.subrange(4, i as int),
            decreases bytes@.len() - i,
        {
            rest.push(bytes[i]);
            assert(bytes@.subrange(4, i + 1) =~= bytes@.subrange(4, i as int).push(bytes@[i as int]));
            i = i + 1;
        }
        let r = string_from_utf8(rest);
        proof {
            if let Some(s) = &r {
                encode_utf8_decode_utf8(s@);
            }
        }
        r
    }

    /// Decodes a response body. Fails with `DecodeFailed` when the PID field
    /// is incomplete or the message is not well-formed UTF-8.
    pub fn decode(bytes: &Vec<u8>) -> (r: Result<Response, ProcessErr>)
        ensures
            match response_parsed(bytes@) {
                Ok(v) => r matches Ok(resp) && resp@ == v,
                Err(f) => r == Err::<Response, ProcessErr>(ProcessErr::DecodeFailed(f)),
            },
    {
        if bytes.len() < BYTES_PER_PID {
            return Err(ProcessErr::DecodeFailed(DecodeFault::MissingPid));
        }
        let sup_pid = Response::unmarshal_sup_pid(bytes[0], bytes[1], bytes[2], bytes[3]);
        match Response::unmarshal_msg(bytes) {
            Some(message) => Ok(Response { message, sup_pid }),
            None => Err(ProcessErr::DecodeFailed(DecodeFault::InvalidMessage)),
        }
    }
}

/// Four bytes written most significant first read back as the same value.
pub proof fn lemma_be_round_trip(v: u32)
    ensures
        be_value(be_bytes(v)[0], be_bytes(v)[1], be_bytes(v)[2], be_bytes(v)[3]) == v,
{
    assert(((((v >> 24u32) as u8) as u32) << 24u32) | ((((v >> 16u32) as u8) as u32) << 16u32)
        | ((((v >> 8u32) as u8) as u32) << 8u32) | ((v as u8) as u32) == v) by (bit_vector);
}

/// Decoding the encoding of a response gives the same message and PID, for
/// every message and every PID other than the reserved `0`.
pub proof fn lemma_response_round_trip(message: Seq<char>, sup_pid: Option<u32>)
    requires
        sup_pid != Some(0u32),
    ensures
        response_parsed(response_wire(message, sup_pid)) == Ok::<
            (Seq<char>, Option<u32>),
            DecodeFault,
        >((message, sup_pid)),
{
    let f = pid_field(sup_pid);
    let w = response_wire(message, sup_pid);
    assert(w.subrange(4, w.len() as int) =~= encode_utf8(message));
    encode_utf8_valid_utf8(message);
    encode_utf8_decode_utf8(message);
    lemma_be_round_trip(f);
}

/// A response without a PID and one with the PID `0` have the same wire
/// form, whose PID field is four zero bytes.
pub proof fn lemma_sentinel_pid(message: Seq<char>)
    ensures
        response_wire(message, None) == response_wire(message, Some(0u32)),
        response_wire(message, None).subrange(0, 4) == seq![0u8, 0u8, 0u8, 0u8],
{
    assert((0u32 >> 24u32) as u8 == 0u8 && (0u32 >> 16u32) as u8 == 0u8 && (0u32 >> 8u32) as u8
        == 0u8 && 0u32 as u8 == 0u8) by (bit_vector);
    assert(response_wire(message, None).subrange(0, 4) =~= seq![0u8, 0u8, 0u8, 0u8]);
}

} // verus!
