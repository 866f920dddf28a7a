//! Connection establishment for the TCP/IP socket stack that a cellular modem
//! offloads.
//!
//! Given a hostname, a port and a timeout, the library decides which calls
//! into the modem's socket stack are made and in which order: the name is
//! resolved, each resolved address is tried in turn with the socket in
//! non-blocking mode, and the outcome is reported as success or as a
//! classified [`Error`].
//!
//! The library never touches the modem itself. A connection attempt is a value
//! of type [`Connecting`]: it names the next call to make as an [`Action`],
//! and takes what the call returned as an [`Event`]. The caller owns the loop
//! that performs the calls. Module `world` describes a socket stack as a
//! mathematical object, and module `laws` proves what holds of every attempt
//! that is run to its end against such a stack.

pub mod address;
pub mod error;
pub mod hostname;
pub mod laws;
pub mod os;
pub mod register;
pub mod tcp;
pub mod world;

pub use address::{htons, AddressRecord, SocketAddress};
pub use error::{classify, Error, FailurePoint};
pub use register::{get_last_error, LastErrorRegister};
pub use tcp::{Action, Connecting, Event, Hints, Stage, TcpSocket};
