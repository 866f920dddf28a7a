//! TCP sockets, and the attempt to connect one to a host by name.
//!
//! Connecting takes a series of calls into the socket stack, and what one call
//! returns decides which call comes next. [`Connecting`] holds where such an
//! attempt stands. [`Connecting::action`] names the call to make now, and
//! [`Connecting::step`] takes what that call returned. Both are total: a state
//! can be asked again, and an event that does not answer the pending action
//! leaves the state as it is.

use crate::address::{candidate_of, AddressRecord, SocketAddress, AF_INET};
use crate::error::{classified, classify, Error, FailurePoint};
use crate::hostname::{fits, null_terminated, terminated};
use crate::register::{get_last_error, LastErrorRegister};
use vstd::prelude::*;
use vstd::string::StringSliceAdditionalSpecFns;

verus! {

/// The socket type of stream sockets, as the socket stack numbers it.
pub const SOCK_STREAM: i32 = 1;

/// The protocol number of TCP, as the socket stack numbers it.
pub const IPPROTO_TCP: i32 = 1;

/// The descriptor flag that makes calls on a socket return at once.
pub const O_NONBLOCK: i32 = 1;

/// A connection to a remote TCP/IP device using plain TCP.
///
/// The value owns a descriptor that the socket stack opened for the family
/// [`AF_INET`], the type [`SOCK_STREAM`] and the protocol [`IPPROTO_TCP`].
/// The descriptor is never negative: a socket that could not be opened does
/// not become a `TcpSocket`.
#[derive(Debug)]
pub struct TcpSocket {
    fd: i32,
}

impl TcpSocket {
    #[verifier::type_invariant]
    spec fn is_open(&self) -> bool {
        self.fd >= 0
    }

    /// The descriptor that the socket owns.
    pub closed spec fn descriptor(&self) -> i32 {
        self.fd
    }

    /// Get the underlying socket ID for this socket.
    pub fn get_fd(&self) -> (fd: i32)
        ensures
            fd == self.descriptor(),
            fd >= 0,
    {
        proof {
            use_type_invariant(self);
        }
        self.fd
    }
}

/// The restrictions that are put on the resolver's answers.
#[derive(Clone, Copy, Debug, PartialEq, Eq)]
pub struct Hints {
    /// The input flags.
    pub flags: i32,
    /// The only socket family that is asked for.
    pub family: i32,
    /// The only socket type that is asked for.
    pub socktype: i32,
    /// The protocol, zero for any.
    pub protocol: i32,
}

/// The hints of every resolution: IPv4 stream sockets, no flags.
pub open spec fn stream_hints() -> Hints {
    Hints { flags: 0, family: AF_INET, socktype: SOCK_STREAM, protocol: 0 }
}

/// Where an attempt to connect stands: which answer it is waiting for.
#[derive(Clone, Copy, Debug, PartialEq, Eq)]
pub enum Stage {
    /// The resolver has been asked for the addresses of the host.
    Resolving,
    /// The descriptor's flags are being read, before a candidate is tried.
    ReadingFlags,
    /// The descriptor is being put into non-blocking mode.
    EnteringNonBlocking,
    /// The connection to the current candidate is being started.
    Connecting,
    /// The socket is being waited on until it can be written to.
    Waiting,
    /// The socket's pending error is being read.
    ReadingPendingError,
    /// The descriptor's flags are being put back.
    RestoringFlags,
    /// The address chain is being given back to the resolver.
    Releasing,
    /// The last-error register is being read, for the error to return.
    ReadingLastError,
    /// The attempt is over.
    Finished,
}

/// A call into the socket stack that an attempt asks for, or its end.
#[derive(Debug, PartialEq, Eq)]
pub enum Action {
    /// Resolve `hostname`, which ends in a NUL, with no service name.
    Resolve { hostname: Vec<u8>, hints: Hints },
    /// Read the flags of the descriptor.
    GetFlags { descriptor: i32 },
    /// Set the flags of the descriptor.
    SetFlags { descriptor: i32, flags: i32 },
    /// Start connecting the descriptor to the address.
    Connect { descriptor: i32, address: SocketAddress },
    /// Wait until the descriptor, and no other, is ready for writing, for at
    /// most the given time.
    Wait { descriptor: i32, seconds: u32, microseconds: u32 },
    /// Read the pending error of the socket, a 16-bit value.
    GetPendingError { descriptor: i32 },
    /// Give the address chain that the resolver produced back to it.
    Release,
    /// Read the last-error register.
    ReadLastError,
    /// Make no further call: the attempt has ended with this result.
    Done(Result<(), Error>),
}

/// An [`Action`] as a mathematical value.
pub enum ActionView {
    Resolve { hostname: Seq<u8>, hints: Hints },
    GetFlags { descriptor: i32 },
    SetFlags { descriptor: i32, flags: i32 },
    Connect { descriptor: i32, address: SocketAddress },
    Wait { descriptor: i32, seconds: u32, microseconds: u32 },
    GetPendingError { descriptor: i32 },
    Release,
    ReadLastError,
    Done(Result<(), Error>),
}

impl View for Action {
    type V = ActionView;

    open spec fn view(&self) -> ActionView {
        match *self {
            Action::Resolve { hostname, hints } => ActionView::Resolve {
                hostname: hostname@,
                hints,
            },
            Action::GetFlags { descriptor } => ActionView::GetFlags { descriptor },
            Action::SetFlags { descriptor, flags } => ActionView::SetFlags { descriptor, flags },
            Action::Connect { descriptor, address } => ActionView::Connect { descriptor, address },
            Action::Wait { descriptor, seconds, microseconds } => ActionView::Wait {
                descriptor,
                seconds,
                microseconds,
            },
            Action::GetPendingError { descriptor } => ActionView::GetPendingError { descriptor },
            Action::Release => ActionView::Release,
            Action::ReadLastError => ActionView::ReadLastError,
            Action::Done(result) => ActionView::Done(result),
        }
    }
}

/// What a call into the socket stack returned.
#[derive(Debug, PartialEq, Eq)]
pub enum Event {
    /// The resolver returned `code` and the chain of these records, in the
    /// resolver's order. The chain is empty where the resolver produced none.
    Resolved { code: i32, chain: Vec<AddressRecord> },
    /// The flags of the descriptor were read.
    Flags(i32),
    /// The flags of the descriptor were set.
    FlagsSet,
    /// The call that starts a connection returned this code.
    ConnectReturned(i32),
    /// The wait returned: the number of descriptors that are ready, zero
    /// after the time has run out, anything else for an error.
    WaitReturned(i32),
    /// The pending error of the socket was read.
    PendingError(u16),
    /// The address chain was given back.
    Released,
    /// The last-error register was read.
    LastError(i32),
}

/// An [`Event`] as a mathematical value.
pub enum EventView {
    Resolved { code: i32, chain: Seq<AddressRecord> },
    Flags(i32),
    FlagsSet,
    ConnectReturned(i32),
    WaitReturned(i32),
    PendingError(u16),
    Released,
    LastError(i32),
}

impl View for Event {
    type V = EventView;

    open spec fn view(&self) -> EventView {
        match *self {
            Event::Resolved { code, chain } => EventView::Resolved { code, chain: chain@ },
            Event::Flags(flags) => EventView::Flags(flags),
            Event::FlagsSet => EventView::FlagsSet,
            Event::ConnectReturned(code) => EventView::ConnectReturned(code),
            Event::WaitReturned(ready) => EventView::WaitReturned(ready),
            Event::PendingError(value) => EventView::PendingError(value),
            Event::Released => EventView::Released,
            Event::LastError(value) => EventView::LastError(value),
        }
    }
}

/// An attempt to connect a socket, between two calls into the socket stack.
#[derive(Debug)]
pub struct Connecting {
    descriptor: i32,
    port: u16,
    timeout: u32,
    name: Vec<u8>,
    stage: Stage,
    chain: Vec<AddressRecord>,
    position: usize,
    saved_flags: i32,
    code: i32,
    timed_out: bool,
    point: FailurePoint,
    outcome: Result<(), Error>,
}

/// A [`Connecting`] as a mathematical value.
pub struct ConnectingView {
    /// The descriptor of the socket that is being connected.
    pub descriptor: i32,
    /// The port to connect to, in host order.
    pub port: u16,
    /// The time in seconds that one candidate is waited for.
    pub timeout: u32,
    /// The hostname with its terminating NUL.
    pub name: Seq<u8>,
    /// Which answer the attempt is waiting for.
    pub stage: Stage,
    /// The address chain that the attempt owns; empty before resolution and
    /// after the release.
    pub chain: Seq<AddressRecord>,
    /// The index in `chain` of the candidate that is being tried.
    pub position: int,
    /// The flags that the descriptor had before the current candidate.
    pub saved_flags: i32,
    /// The code that is retained: of the resolver, then of the last attempt.
    pub code: i32,
    /// Whether the wait on the current candidate ran out of time.
    pub timed_out: bool,
    /// The point at which the attempt fails, if it fails.
    pub point: FailurePoint,
    /// The result, once the stage is `Finished`.
    pub outcome: Result<(), Error>,
}

/// The code that is retained of a candidate whose socket did not become
/// ready, where the connect call returned `connect` and the wait `ready`.
///
/// After a timeout it is what the connect call returned. A wait that failed
/// is a failed attempt whatever the connect call returned: where that was
/// zero, the code is what the wait returned, which is not zero.
pub open spec fn unready_code(connect: i32, ready: i32) -> i32 {
    if ready != 0 && connect == 0 {
        ready
    } else {
        connect
    }
}

/// The name of the operation in the errors of a connection attempt.
pub open spec fn operation() -> &'static str {
    "tcp_connect"
}

/// The state in which an attempt starts, for a hostname of these UTF-8 bytes.
///
/// A hostname that fits is to be resolved. One that does not fit ends the
/// attempt on the spot, with no call made.
pub open spec fn start(descriptor: i32, hostname: Seq<u8>, port: u16, timeout: u32)
    -> ConnectingView {
    ConnectingView {
        descriptor,
        port,
        timeout,
        name: if fits(hostname) {
            terminated(hostname)
        } else {
            Seq::empty()
        },
        stage: if fits(hostname) {
            Stage::Resolving
        } else {
            Stage::Finished
        },
        chain: Seq::empty(),
        position: 0,
        saved_flags: 0,
        code: 0,
        timed_out: false,
        point: FailurePoint::Connect,
        outcome: if fits(hostname) {
            Ok(())
        } else {
            Err(Error::HostnameTooLong)
        },
    }
}

impl ConnectingView {
    /// Whether the state is one that an attempt can be in: while a candidate
    /// is being tried, `position` is the index of a record of the chain.
    pub open spec fn valid(self) -> bool {
        self.trying() ==> 0 <= self.position < self.chain.len()
    }

    /// Whether a candidate is being tried.
    pub open spec fn trying(self) -> bool {
        match self.stage {
            Stage::ReadingFlags
            | Stage::EnteringNonBlocking
            | Stage::Connecting
            | Stage::Waiting
            | Stage::ReadingPendingError
            | Stage::RestoringFlags => true,
            _ => false,
        }
    }

    /// Whether the attempt ends in an error: the resolution failed, or the
    /// code that is retained from the last candidate is not zero.
    pub open spec fn fails(self) -> bool {
        self.point == FailurePoint::Resolution || self.code != 0
    }

    /// Whether no further candidate is tried after the current one: it timed
    /// out, it succeeded, or it is the last of the chain.
    pub open spec fn stops(self) -> bool {
        self.timed_out || self.code == 0 || self.position + 1 >= self.chain.len()
    }

    /// The call that the attempt asks for in this state.
    pub open spec fn pending(self) -> ActionView {
        match self.stage {
            Stage::Resolving => ActionView::Resolve { hostname: self.name, hints: stream_hints() },
            Stage::ReadingFlags => ActionView::GetFlags { descriptor: self.descriptor },
            Stage::EnteringNonBlocking => ActionView::SetFlags {
                descriptor: self.descriptor,
                flags: self.saved_flags | O_NONBLOCK,
            },
            Stage::Connecting => ActionView::Connect {
                descriptor: self.descriptor,
                address: candidate_of(self.chain[self.position], self.port),
            },
            Stage::Waiting => ActionView::Wait {
                descriptor: self.descriptor,
                seconds: self.timeout,
                microseconds: 0,
            },
            Stage::ReadingPendingError => ActionView::GetPendingError {
                descriptor: self.descriptor,
            },
            Stage::RestoringFlags => ActionView::SetFlags {
                descriptor: self.descriptor,
                flags: self.saved_flags,
            },
            Stage::Releasing => ActionView::Release,
            Stage::ReadingLastError => ActionView::ReadLastError,
            Stage::Finished => ActionView::Done(self.outcome),
        }
    }

    /// The state after `event`. An event that does not answer the pending
    /// action changes nothing.
    pub open spec fn advance(self, event: EventView) -> ConnectingView {
        match (self.stage, event) {
            (Stage::Resolving, EventView::Resolved { code, chain }) => {
                if code != 0 || chain.len() == 0 {
                    ConnectingView {
                        stage: if chain.len() == 0 {
                            Stage::ReadingLastError
                        } else {
                            Stage::Releasing
                        },
                        chain,
                        code,
                        point: FailurePoint::Resolution,
                        ..self
                    }
                } else {
                    ConnectingView { stage: Stage::ReadingFlags, chain, position: 0, code, ..self }
                }
            },
            (Stage::ReadingFlags, EventView::Flags(flags)) => ConnectingView {
                stage: Stage::EnteringNonBlocking,
                saved_flags: flags,
                ..self
            },
            (Stage::EnteringNonBlocking, EventView::FlagsSet) => ConnectingView {
                stage: Stage::Connecting,
                ..self
            },
            (Stage::Connecting, EventView::ConnectReturned(code)) => ConnectingView {
                stage: Stage::Waiting,
                code,
                ..self
            },
            (Stage::Waiting, EventView::WaitReturned(ready)) => {
                if ready == 1 {
                    ConnectingView { stage: Stage::ReadingPendingError, timed_out: false, ..self }
                } else {
                    ConnectingView {
                        stage: Stage::RestoringFlags,
                        timed_out: ready == 0,
                        code: unready_code(self.code, ready),
                        ..self
                    }
                }
            },
            (Stage::ReadingPendingError, EventView::PendingError(value)) => ConnectingView {
                stage: Stage::RestoringFlags,
                code: value as i32,
                ..self
            },
            (Stage::RestoringFlags, EventView::FlagsSet) => {
                if self.stops() {
                    ConnectingView { stage: Stage::Releasing, ..self }
                } else {
                    ConnectingView {
                        stage: Stage::ReadingFlags,
                        position: self.position + 1,
                        ..self
                    }
                }
            },
            (Stage::Releasing, EventView::Released) => {
                if self.fails() {
                    ConnectingView { stage: Stage::ReadingLastError, chain: Seq::empty(), ..self }
                } else {
                    ConnectingView {
                        stage: Stage::Finished,
                        chain: Seq::empty(),
                        outcome: Ok(()),
                        ..self
                    }
                }
            },
            (Stage::ReadingLastError, EventView::LastError(value)) => ConnectingView {
                stage: Stage::Finished,
                outcome: Err(classified(self.point, operation(), self.code, value)),
                ..self
            },
            _ => self,
        }
    }
}

impl View for Connecting {
    type V = ConnectingView;

    closed spec fn view(&self) -> ConnectingView {
        ConnectingView {
            descriptor: self.descriptor,
            port: self.port,
            timeout: self.timeout,
            name: self.name@,
            stage: self.stage,
            chain: self.chain@,
            position: self.position as int,
            saved_flags: self.saved_flags,
            code: self.code,
            timed_out: self.timed_out,
            point: self.point,
            outcome: self.outcome,
        }
    }
}

impl TcpSocket {
    /// Create a new TCP socket from what opening one returned.
    ///
    /// `descriptor` is the value that the socket stack returned when it was
    /// asked for a socket of family [`AF_INET`], type [`SOCK_STREAM`] and
    /// protocol [`IPPROTO_TCP`]. A negative value is the stack's way to
    /// refuse; the error then carries it, with the register's value.
    pub fn new(descriptor: i32, register: &LastErrorRegister) -> (socket: Result<TcpSocket, Error>)
        ensures
            socket is Ok <==> descriptor >= 0,
            socket matches Ok(opened) ==> opened.descriptor() == descriptor,
            socket matches Err(error) ==> error == classified(
                FailurePoint::Open,
                "new_socket",
                descriptor,
                register@,
            ),
    {
        if descriptor < 0 {
            Err(classify(FailurePoint::Open, "new_socket", descriptor, get_last_error(register)))
        } else {
            Ok(TcpSocket { fd: descriptor })
        }
    }

    /// Look up the hostname and for each result returned, try to connect to
    /// it.
    ///
    /// This starts the attempt and makes no call: the calls are those that
    /// the returned state asks for. `timeout` is in seconds and bounds the
    /// wait on each candidate.
    pub fn connect(&self, hostname: &str, port: u16, timeout: u32) -> (attempt: Connecting)
        ensures
            attempt@ == start(self.descriptor(), hostname.spec_bytes(), port, timeout),
            attempt@.valid(),
    {
        match null_terminated(hostname) {
            Ok(name) => Connecting {
                descriptor: self.fd,
                port,
                timeout,
                name,
                stage: Stage::Resolving,
                chain: Vec::new(),
                position: 0,
                saved_flags: 0,
                code: 0,
                timed_out: false,
                point: FailurePoint::Connect,
                outcome: Ok(()),
            },
            Err(error) => Connecting {
                descriptor: self.fd,
                port,
                timeout,
                name: Vec::new(),
                stage: Stage::Finished,
                chain: Vec::new(),
                position: 0,
                saved_flags: 0,
                code: 0,
                timed_out: false,
                point: FailurePoint::Connect,
                outcome: Err(error),
            },
        }
    }
}

impl Connecting {
    #[verifier::type_invariant]
    spec fn well_formed(&self) -> bool {
        self@.valid()
    }

    /// The call to make now, or the result if the attempt is over.
    pub fn action(&self) -> (action: Action)
        ensures
            action@ == self@.pending(),
            self@.valid(),
    {
        proof {
            use_type_invariant(self);
        }
        match self.stage {
            Stage::Resolving => Action::Resolve {
                hostname: self.name.clone(),
                hints: Hints { flags: 0, family: AF_INET, socktype: SOCK_STREAM, protocol: 0 },
            },
            Stage::ReadingFlags => Action::GetFlags { descriptor: self.descriptor },
            Stage::EnteringNonBlocking => Action::SetFlags {
                descriptor: self.descriptor,
                flags: self.saved_flags | O_NONBLOCK,
            },
            Stage::Connecting => Action::Connect {
                descriptor: self.descriptor,
                address: self.chain[self.position].candidate(self.port),
            },
            Stage::Waiting => Action::Wait {
                descriptor: self.descriptor,
                seconds: self.timeout,
                microseconds: 0,
            },
            Stage::ReadingPendingError => Action::GetPendingError { descriptor: self.descriptor },
            Stage::RestoringFlags => Action::SetFlags {
                descriptor: self.descriptor,
                flags: self.saved_flags,
            },
            Stage::Releasing => Action::Release,
            Stage::ReadingLastError => Action::ReadLastError,
            Stage::Finished => Action::Done(self.outcome),
        }
    }

    /// Takes what the pending call returned, and moves on.
    pub fn step(self, event: Event) -> (next: Connecting)
        ensures
            next@ == self@.advance(event@),
            next@.valid(),
    {
        proof {
            use_type_invariant(&self);
        }
        match (self.stage, event) {
            (Stage::Resolving, Event::Resolved { code, chain }) => {
                if code != 0 || chain.len() == 0 {
                    let stage = if chain.len() == 0 {
                        Stage::ReadingLastError
                    } else {
                        Stage::Releasing
                    };
                    Connecting { stage, chain, code, point: FailurePoint::Resolution, ..self }
                } else {
                    Connecting { stage: Stage::ReadingFlags, chain, position: 0, code, ..self }
                }
            },
            (Stage::ReadingFlags, Event::Flags(flags)) => Connecting {
                stage: Stage::EnteringNonBlocking,
                saved_flags: flags,
                ..self
            },
            (Stage::EnteringNonBlocking, Event::FlagsSet) => Connecting {
                stage: Stage::Connecting,
                ..self
            },
            (Stage::Connecting, Event::ConnectReturned(code)) => Connecting {
                stage: Stage::Waiting,
                code,
                ..self
            },
            (Stage::Waiting, Event::WaitReturned(ready)) => {
                if ready == 1 {
                    Connecting { stage: Stage::ReadingPendingError, timed_out: false, ..self }
                } else {
                    let code = if ready != 0 && self.code == 0 {
                        ready
                    } else {
                        self.code
                    };
                    Connecting { stage: Stage::RestoringFlags, timed_out: ready == 0, code, ..self }
                }
            },
            (Stage::ReadingPendingError, Event::PendingError(value)) => Connecting {
                stage: Stage::RestoringFlags,
                code: value as i32,
                ..self
            },
            (Stage::RestoringFlags, Event::FlagsSet) => {
                assert(self.position < self.chain.len());
                if self.timed_out || self.code == 0 || self.position + 1 >= self.chain.len() {
                    Connecting { stage: Stage::Releasing, ..self }
                } else {
                    Connecting {
                        stage: Stage::ReadingFlags,
                        position: self.position + 1,
                        ..self
                    }
                }
            },
            (Stage::Releasing, Event::Released) => {
                let fails = match self.point {
                    FailurePoint::Resolution => true,
                    _ => self.code != 0,
                };
                if fails {
                    Connecting { stage: Stage::ReadingLastError, chain: Vec::new(), ..self }
                } else {
                    Connecting {
                        stage: Stage::Finished,
                        chain: Vec::new(),
                        outcome: Ok(()),
                        ..self
                    }
                }
            },
            (Stage::ReadingLastError, Event::LastError(value)) => {
                let error = classify(self.point, "tcp_connect", self.code, value);
                Connecting { stage: Stage::Finished, outcome: Err(error), ..self }
            },
            (_, _) => self,
        }
    }

    /// Whether the attempt is over: the action is then `Done`, and stays so.
    pub fn is_finished(&self) -> (finished: bool)
        ensures
            finished == (self@.stage == Stage::Finished),
    {
        match self.stage {
            Stage::Finished => true,
            _ => false,
        }
    }
}

} // verus!
