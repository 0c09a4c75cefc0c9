use sup_rs::{
    dispatch, unknown_command_response, Command, CommandHandler, DecodeFault, ProcessErr, Request,
    Response,
};

const NAMED: [Command; 7] = [
    Command::Start,
    Command::Stop,
    Command::Restart,
    Command::Kill,
    Command::Reload,
    Command::Status,
    Command::Exit,
];

#[test]
fn command_codes_are_ordinals() {
    for (i, c) in NAMED.iter().enumerate() {
        assert_eq!(c.encode(), vec![i as u8]);
    }
    assert_eq!(Command::Unknown.encode(), vec![7]);
}

#[test]
fn command_round_trip() {
    for c in NAMED.iter() {
        assert_eq!(Command::decode(&c.encode()), *c);
        assert_eq!(Command::from(c.encode()), *c);
    }
}

#[test]
fn unknown_absorbs_malformed_bodies() {
    assert_eq!(Command::decode(&vec![]), Command::Unknown);
    assert_eq!(Command::decode(&vec![0, 0]), Command::Unknown);
    assert_eq!(Command::decode(&vec![1, 2, 3]), Command::Unknown);
    assert_eq!(Command::decode(&vec![7]), Command::Unknown);
    assert_eq!(Command::decode(&vec![8]), Command::Unknown);
    assert_eq!(Command::decode(&vec![255]), Command::Unknown);
    assert_eq!(Command::decode(&Command::Unknown.encode()), Command::Unknown);
}

#[test]
fn command_names() {
    let names = ["start", "stop", "restart", "kill", "reload", "status", "exit"];
    for (n, c) in names.iter().zip(NAMED.iter()) {
        assert_eq!(Command::from_name(n), *c);
        assert_eq!(Command::from(*n), *c);
    }
    assert_eq!(Command::from_name("Start"), Command::Unknown);
    assert_eq!(Command::from_name(""), Command::Unknown);
    assert_eq!(Command::from_name("starts"), Command::Unknown);
}

#[test]
fn request_is_one_byte() {
    assert_eq!(Request { cmd: Command::Start }.encode(), vec![0]);
    assert_eq!(Request { cmd: Command::Exit }.encode(), vec![6]);
    assert_eq!(Request::decode(&vec![4]).cmd, Command::Reload);
    assert_eq!(Request::from(vec![5]).cmd, Command::Status);
    assert_eq!(Request::from(vec![5, 5]).cmd, Command::Unknown);
}

#[test]
fn response_encoding_is_big_endian() {
    let r = Response::new("started".to_string(), Some(4242));
    let mut expected = vec![0u8, 0, 16, 146];
    expected.extend_from_slice(b"started");
    assert_eq!(r.encode(), expected);
    let r = Response::new("x".to_string(), Some(0x0102_0304));
    assert_eq!(r.encode(), vec![1, 2, 3, 4, b'x']);
}

#[test]
fn response_round_trip() {
    let cases: Vec<(&str, Option<u32>)> = vec![
        ("", None),
        ("started", Some(4242)),
        ("stopped", Some(1)),
        ("pid max", Some(u32::MAX)),
        ("h\u{e9}llo \u{4e16}\u{754c} \u{1f600}", Some(0xDEAD_BEEF)),
        ("no pid", None),
    ];
    for (m, p) in cases {
        let bytes = Response::new(m.to_string(), p).encode();
        let back = Response::decode(&bytes).unwrap();
        assert_eq!(back.message(), m);
        assert_eq!(back.sup_pid(), p);
    }
}

#[test]
fn sentinel_pid_is_none() {
    let none = Response::new(String::new(), None).encode();
    let zero = Response::new(String::new(), Some(0)).encode();
    assert_eq!(none, vec![0, 0, 0, 0]);
    assert_eq!(zero, none);
    assert_eq!(Response::decode(&zero).unwrap().sup_pid(), None);
}

#[test]
fn response_decode_failures() {
    assert_eq!(
        Response::decode(&vec![]).unwrap_err(),
        ProcessErr::DecodeFailed(DecodeFault::MissingPid)
    );
    assert_eq!(
        Response::decode(&vec![0, 0, 1]).unwrap_err(),
        ProcessErr::DecodeFailed(DecodeFault::MissingPid)
    );
    assert_eq!(
        Response::decode(&vec![0, 0, 0, 1, 0xff, 0xfe]).unwrap_err(),
        ProcessErr::DecodeFailed(DecodeFault::InvalidMessage)
    );
    assert_eq!(
        Response::decode(&vec![0, 0, 0, 1, 0xc3]).unwrap_err(),
        ProcessErr::DecodeFailed(DecodeFault::InvalidMessage)
    );
    let empty = Response::decode(&vec![0, 0, 0, 9]).unwrap();
    assert_eq!(empty.message(), "");
    assert_eq!(empty.sup_pid(), Some(9));
}

#[test]
fn response_describe() {
    assert_eq!(
        Response::new("started".to_string(), Some(4242)).describe(),
        "started, pid is 4242"
    );
    assert_eq!(
        Response::new("x".to_string(), Some(u32::MAX)).describe(),
        "x, pid is 4294967295"
    );
    assert_eq!(Response::new("y".to_string(), Some(7)).describe(), "y, pid is 7");
    assert_eq!(Response::new("gone".to_string(), None).describe(), "gone");
}

struct Starter;

impl CommandHandler for Starter {
    fn handle_command(r: Request) -> Response {
        match r.cmd {
            Command::Start => Response::new("started".to_string(), Some(4242)),
            Command::Unknown => panic!("unknown commands must not reach the handler"),
            _ => Response::new("not supported".to_string(), None),
        }
    }
}

#[test]
fn end_to_end_start() {
    let request = Request { cmd: Command::Start }.encode();
    assert_eq!(request, vec![0x00]);
    let reply = dispatch::<Starter>(&request);
    let mut expected = vec![0u8, 0, 16, 146];
    expected.extend_from_slice(b"started");
    assert_eq!(reply, expected);
    let back = Response::decode(&reply).unwrap();
    assert_eq!(back.message(), "started");
    assert_eq!(back.sup_pid(), Some(4242));
}

#[test]
fn malformed_request_is_rejected() {
    let reply = dispatch::<Starter>(&vec![0, 1, 2]);
    assert_eq!(reply, unknown_command_response().encode());
    let back = Response::decode(&reply).unwrap();
    assert_eq!(back.message(), "unknown command");
    assert_eq!(back.sup_pid(), None);
    assert_eq!(dispatch::<Starter>(&vec![7]), reply);
    assert_eq!(dispatch::<Starter>(&vec![]), reply);
}

#[test]
fn other_commands_reach_handler() {
    let back = Response::decode(&dispatch::<Starter>(&vec![5])).unwrap();
    assert_eq!(back.message(), "not supported");
    assert_eq!(back.sup_pid(), None);
}

#[test]
fn into_bytes_conversions() {
    assert_eq!(Vec::<u8>::from(Command::Kill), vec![3]);
    assert_eq!(Vec::<u8>::from(Command::Unknown), vec![7]);
    assert_eq!(Vec::<u8>::from(Request { cmd: Command::Start }), vec![0x00]);
    assert_eq!(Vec::<u8>::from(Request { cmd: Command::Status }), vec![5]);
}

#[test]
fn describe_pid_digits() {
    assert_eq!(Response::new("a".to_string(), Some(10)).describe(), "a, pid is 10");
    assert_eq!(Response::new("b".to_string(), Some(1000000)).describe(), "b, pid is 1000000");
    assert_eq!(Response::new("c".to_string(), Some(9)).describe(), "c, pid is 9");
}
