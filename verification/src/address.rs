//! Resolved address records and the candidate addresses made from them.

use vstd::prelude::*;

verus! {

/// The socket family of IPv4 addresses, as the socket stack numbers it.
pub const AF_INET: i32 = 2;

/// One record of the chain that name resolution produces.
#[derive(Clone, Copy, Debug, PartialEq, Eq)]
pub struct AddressRecord {
    /// The length tag of the socket address.
    pub length: u8,
    /// The socket family of the address.
    pub family: i32,
    /// The port that the resolver put in; a placeholder, never used.
    pub port: u16,
    /// The raw IPv4 address, as the resolver stored it.
    pub address: u32,
}

/// An address to connect to: a resolved address with the caller's port.
#[derive(Clone, Copy, Debug, PartialEq, Eq)]
pub struct SocketAddress {
    /// The length tag of the socket address.
    pub length: u8,
    /// The socket family, always IPv4.
    pub family: i32,
    /// The port, in network byte order.
    pub port: u16,
    /// The raw IPv4 address, as the resolver stored it.
    pub address: u32,
}

/// The 16-bit value whose two bytes are those of `port` in the other order.
pub open spec fn network_order(port: u16) -> u16 {
    ((port % 256) * 256 + port / 256) as u16
}

/// The candidate address for `record` and the requested `port`.
pub open spec fn candidate_of(record: AddressRecord, port: u16) -> SocketAddress {
    SocketAddress {
        length: record.length,
        family: AF_INET,
        port: network_order(port),
        address: record.address,
    }
}

/// Converts a port number from host order to network order.
///
/// The modem's host processor is little-endian, so the two bytes are swapped
/// whatever the value is. Swapping twice gives the value back.
pub fn htons(input: u16) -> (output: u16)
    ensures
        output == network_order(input),
        network_order(output) == input,
{
    let top: u16 = (input >> 8) & 0xff;
    let bottom: u16 = input & 0xff;
    let output: u16 = (bottom << 8) | top;
    assert(output == ((input % 256) * 256 + input / 256) as u16) by (bit_vector)
        requires
            output == ((input & 0xff) << 8) | ((input >> 8) & 0xff),
    ;
    assert(((output % 256) * 256 + output / 256) as u16 == input) by (bit_vector)
        requires
            output == ((input & 0xff) << 8) | ((input >> 8) & 0xff),
    ;
    output
}

impl AddressRecord {
    /// Makes the candidate address for this record: the requested port is
    /// substituted in network byte order, the address bytes and the length
    /// tag are kept.
    pub fn candidate(&self, port: u16) -> (address: SocketAddress)
        ensures
            address == candidate_of(*self, port),
    {
        SocketAddress {
            length: self.length,
            family: AF_INET,
            port: htons(port),
            address: self.address,
        }
    }
}

} // verus!
