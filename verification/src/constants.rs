//! The values a configuration starts from where nothing else is said.

use vstd::prelude::*;

verus! {

/// The TCP port registered for OPC UA.
pub const DEFAULT_OPC_UA_SERVER_PORT: u16 = 4840;

/// Seconds a client has to say hello after it has connected.
pub const DEFAULT_HELLO_TIMEOUT_SECONDS: u32 = 120;

/// Most elements that an array read from the wire may have.
pub const DEFAULT_MAX_ARRAY_LENGTH: u32 = 1000;

/// Most characters that a string read from the wire may have.
pub const DEFAULT_MAX_STRING_LENGTH: u32 = 65536;

/// Most bytes that a byte string read from the wire may have.
pub const DEFAULT_MAX_BYTE_STRING_LENGTH: u32 = 65536;

} // verus!
