use vstd::prelude::*;
use vstd::string::*;

use crossbeam::channel::{Receiver, Sender};

use crate::error::ProcessErr;

verus! {

#[verifier::external_type_specification]
#[verifier::external_body]
#[verifier::reject_recursive_types(T)]
pub struct ExSender<T>(Sender<T>);

#[verifier::external_type_specification]
#[verifier::external_body]
#[verifier::reject_recursive_types(T)]
pub struct ExReceiver<T>(Receiver<T>);

/// How many accepted connections may wait for service. When the queue is
/// full the accept loop blocks in `on_accept` and so stops accepting.
pub const QUEUE_CAPACITY: usize = 64;

/// Relies on `crossbeam::channel::bounded`: a first-in-first-out channel with
/// `cap` slots (none for `0`, where each send waits for a receive). It panics
/// only for a capacity too large to index.
#[verifier::external_body]
fn bounded_queue<C>(cap: usize) -> (r: (Sender<C>, Receiver<C>))
    requires
        cap <= 0x1000_0000,
{
    crossbeam::channel::bounded(cap)
}

/// Relies on `crossbeam::channel::Sender::send`: blocks while the channel is
/// full and fails only once every receiver is gone. Which of the two happens
/// depends on the other side, so nothing is stated of it.
#[verifier::external_body]
fn queue_send<C>(s: &Sender<C>, c: C) -> (r: bool) {
    s.send(c).is_ok()
}

/// Relies on `crossbeam::channel::Receiver::recv`: blocks until the oldest
/// queued item can be taken, and fails only once the channel is empty and
/// every sender is gone. What comes out depends on the other side, so
/// nothing is stated of it.
#[verifier::external_body]
fn queue_recv<C>(r: &Receiver<C>) -> (out: Result<C, String>) {
    match r.recv() {
        Ok(c) => Ok(c),
        Err(e) => Err(e.to_string()),
    }
}

/// The operations of a control transport over a connection type `T`: a
/// client connects once and writes; a server runs its accept loop and reads
/// the connections that it queued, in the order they were accepted.
pub trait Transport<T> {
    /// Establishes the single outbound connection.
    fn connect(&mut self) -> Result<(), ProcessErr>;

    /// Runs the accept loop; returns only when setting it up failed.
    fn serve(&self) -> ProcessErr;

    /// Waits for the next queued connection.
    fn read(&self) -> Result<T, ProcessErr>;

    /// Sends `v` on the held connection, half-closes it for writing and
    /// hands it back so that the reply can still be read.
    fn write(self, v: Vec<u8>) -> Result<T, ProcessErr>;
}

/// What became of one attempt of the accept loop.
#[derive(Debug, PartialEq, Eq)]
pub enum AcceptOutcome {
    /// The connection waits in the queue.
    Queued,
    /// The accept itself failed; the loop goes on.
    AcceptFailed(String),
    /// The queue was never set up; the connection is dropped.
    QueueUnavailable,
    /// Every receiver of the queue is gone; the connection is dropped.
    QueueClosed,
}

/// A control transport addressed by a filesystem path, over connections of
/// type `C`. It holds at most one outbound connection, and the queue that
/// hands accepted connections from the accept loop to the servicing side.
#[verifier::reject_recursive_types(C)]
pub struct UnixSocketTp<C> {
    socket_path: String,
    stream: Option<C>,
    listen_recv: Option<Receiver<C>>,
    listen_send: Option<Sender<C>>,
}

impl<C> UnixSocketTp<C> {
    /// The address of the socket.
    pub closed spec fn path(&self) -> Seq<char> {
        self.socket_path@
    }

    /// The outbound connection held, if any.
    pub closed spec fn connection(&self) -> Option<C> {
        self.stream
    }

    /// Whether the servicing side of the queue is there.
    pub closed spec fn can_receive(&self) -> bool {
        self.listen_recv is Some
    }

    /// Whether the accepting side of the queue is there.
    pub closed spec fn can_send(&self) -> bool {
        self.listen_send is Some
    }

    /// A transport for `socket_path`, holding no connection, with its queue
    /// set up.
    pub fn new(socket_path: String) -> (r: UnixSocketTp<C>)
        ensures
            r.path() == socket_path@,
            r.connection() is None,
            r.can_receive(),
            r.can_send(),
    {
        let (s, r) = bounded_queue(QUEUE_CAPACITY);
        UnixSocketTp { socket_path, stream: None, listen_recv: Some(r), listen_send: Some(s) }
    }

    pub fn socket_path(&self) -> (r: &str)
        ensures
            r@ == self.path(),
    {
        self.socket_path.as_str()
    }

    /// Takes `conn` as the outbound connection. A second connection is
    /// refused while one is held, and the transport is left unchanged.
    pub fn attach(&mut self, conn: C) -> (r: Result<(), ProcessErr>)
        ensures
            old(self).connection() is Some ==> r == Err::<(), ProcessErr>(
                ProcessErr::AlreadyConnected,
            ) && *final(self) == *old(self),
            old(self).connection() is None ==> r is Ok && final(self).connection() == Some(conn),
            final(self).path() == old(self).path(),
            final(self).can_receive() == old(self).can_receive(),
            final(self).can_send() == old(self).can_send(),
    {
        if self.stream.is_some() {
            return Err(ProcessErr::AlreadyConnected);
        }
        self.stream = Some(conn);
        Ok(())
    }

    /// Gives up the transport for its outbound connection, the first step of
    /// a write; fails with `NotYetConnected` when none is held.
    pub fn into_connection(self) -> (r: Result<C, ProcessErr>)
        ensures
            self.connection() matches Some(c) ==> r == Ok::<C, ProcessErr>(c),
            self.connection() is None ==> (r matches Err(ProcessErr::NotYetConnected(op)) && op@
                == "write"@),
    {
        match self.stream {
            Some(c) => Ok(c),
            None => Err(ProcessErr::NotYetConnected(String::from_str("write"))),
        }
    }

    /// One turn of the accept loop, given what the accept returned: an
    /// accepted connection goes into the queue; a failed accept is reported
    /// and the loop goes on.
    pub fn on_accept(&self, accepted: Result<C, String>) -> (r: AcceptOutcome)
        ensures
            accepted matches Err(e) ==> r == AcceptOutcome::AcceptFailed(e),
            accepted is Ok && !self.can_send() ==> r == AcceptOutcome::QueueUnavailable,
            accepted is Ok && self.can_send() ==> r == AcceptOutcome::Queued || r
                == AcceptOutcome::QueueClosed,
    {
        match accepted {
            Err(e) => AcceptOutcome::AcceptFailed(e),
            Ok(c) => match &self.listen_send {
                None => AcceptOutcome::QueueUnavailable,
                Some(s) => {
                    if queue_send(s, c) {
                        AcceptOutcome::Queued
                    } else {
                        AcceptOutcome::QueueClosed
                    }
                },
            },
        }
    }

    /// Waits for the next accepted connection, oldest first. Fails with
    /// `ChannelUnavailable` when the queue was never set up, and with
    /// `ChannelDisconnected` once it is empty and the accept side is gone.
    pub fn read(&self) -> (r: Result<C, ProcessErr>)
        ensures
            !self.can_receive() ==> (r matches Err(ProcessErr::ChannelUnavailable(op)) && op@
                == "recv"@),
            self.can_receive() ==> r is Ok || r is Err && r->Err_0 is ChannelDisconnected,
    {
        match &self.listen_recv {
            None => Err(ProcessErr::ChannelUnavailable(String::from_str("recv"))),
            Some(rcv) => match queue_recv(rcv) {
                Ok(c) => Ok(c),
                Err(e) => Err(ProcessErr::ChannelDisconnected(e)),
            },
        }
    }
}

/// The result of a write, given what sending the bytes and then half-closing
/// the connection returned. `half_closed` is read only when `sent` is `Ok`,
/// since a connection whose send failed is not half-closed.
pub fn complete_write<C>(conn: C, sent: Result<(), String>, half_closed: Result<(), String>) -> (r:
    Result<C, ProcessErr>)
    ensures
        sent matches Err(e) ==> r == Err::<C, ProcessErr>(ProcessErr::SendFailed(e)),
        sent is Ok && half_closed is Err ==> (r matches Err(ProcessErr::HalfCloseFailed(op, cause))
            && op@ == "write"@ && cause == half_closed->Err_0),
        sent is Ok && half_closed is Ok ==> r == Ok::<C, ProcessErr>(conn),
{
    match sent {
        Err(e) => Err(ProcessErr::SendFailed(e)),
        Ok(()) => match half_closed {
            Err(e) => Err(ProcessErr::HalfCloseFailed(String::from_str("write"), e)),
            Ok(()) => Ok(conn),
        },
    }
}

} // verus!
