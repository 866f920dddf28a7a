//! The NUL-terminated copy of a hostname that is handed to the resolver.

use crate::error::Error;
use core::fmt::Write;
use vstd::prelude::*;
use vstd::string::StringSliceAdditionalSpecFns;

verus! {

/// The size in bytes of the buffer that holds a hostname and its terminating
/// NUL.
pub const NAME_CAPACITY: usize = 64;

/// Whether a hostname of these bytes fits the buffer together with its NUL.
pub open spec fn fits(hostname: Seq<u8>) -> bool {
    hostname.len() < NAME_CAPACITY
}

/// The bytes of a hostname followed by one NUL.
pub open spec fn terminated(hostname: Seq<u8>) -> Seq<u8> {
    hostname.push(0u8)
}

/// Formats `hostname` and a NUL into a `heapless::String` of
/// [`NAME_CAPACITY`] bytes with `write!`, and copies the bytes out.
///
/// `heapless::String::write_str` appends a string only if it fits what is left
/// of the capacity, and fails without writing otherwise. So the result is
/// `Some` exactly if the UTF-8 bytes of the hostname and the NUL fit together,
/// and then it holds those bytes in that order.
#[verifier::external_body]
fn write_terminated(hostname: &str) -> (name: Option<Vec<u8>>)
    ensures
        name is Some <==> fits(hostname.spec_bytes()),
        name matches Some(bytes) ==> bytes@ == terminated(hostname.spec_bytes()),
{
    let mut buffer: heapless::String<heapless::consts::U64> = heapless::String::new();
    match write!(buffer, "{}\0", hostname) {
        Ok(()) => Some(buffer.as_bytes().to_vec()),
        Err(_) => None,
    }
}

/// Makes the NUL-terminated copy of `hostname`, or says that it is too long.
pub fn null_terminated(hostname: &str) -> (name: Result<Vec<u8>, Error>)
    ensures
        name is Ok <==> fits(hostname.spec_bytes()),
        name matches Ok(bytes) ==> bytes@ == terminated(hostname.spec_bytes()),
        name matches Err(error) ==> error == Error::HostnameTooLong,
{
    match write_terminated(hostname) {
        Some(bytes) => Ok(bytes),
        None => Err(Error::HostnameTooLong),
    }
}

} // verus!
