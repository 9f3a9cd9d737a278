//! Protocol numbers, buffer sizes and timing constants shared by the engine.

use vstd::prelude::*;

verus! {

/// Socket family number of the custom delay-tolerant transport.
pub const AF_BP: i32 = 28;

/// Socket family number for IPv4 sockets.
pub const AF_INET: i32 = 2;

/// Socket family number for IPv6 sockets.
pub const AF_INET6: i32 = 10;

/// Scheme identifier of the `ipn:` naming scheme inside the custom family.
pub const BP_SCHEME_IPN: u32 = 1;

/// Stream socket type number.
pub const SOCK_STREAM: i32 = 1;

/// Datagram socket type number.
pub const SOCK_DGRAM: i32 = 2;

/// Protocol number of TCP.
pub const IPPROTO_TCP: i32 = 6;

/// Protocol number of UDP.
pub const IPPROTO_UDP: i32 = 17;

/// Read buffer size for one stream read.
pub const TCP_BUFFER_SIZE: usize = 4096;

/// Largest payload a single datagram can carry.
pub const UDP_MAX_DATAGRAM_SIZE: usize = 65507;

/// Sleep interval, in milliseconds, between retries of a receive or accept
/// call that reported would-block.
pub const POLLING_INTERVAL_MS: u64 = 10;

/// Delivery delay, in milliseconds, applied to received-data events when the
/// delay option is switched on but no value is configured.
pub const DEFAULT_RECEIVE_DELAY_MS: u64 = 1000;

/// Byte size of the platform's generic socket-address storage, into which the
/// custom transport's address record is copied.
pub const SOCKADDR_STORAGE_LEN: usize = 128;

/// Width in bytes of the serialized low-level address record of the custom
/// transport: a 2-byte family, 2 bytes of alignment padding, and three 4-byte
/// little-endian fields.
pub const BP_SOCKADDR_LEN: usize = 16;

} // verus!
