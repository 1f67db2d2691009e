//! Wire-protocol library for exchanging structured command/response messages
//! ("telegrams") with an embedded device over a short-range wireless link.
//!
//! The library covers the frame codec (layout, checksum, validation), the
//! side-channel control-command codec, the request/response exchange outcomes,
//! the batch sequence runner, and the TCP-to-wireless bridge state machine.
//! The wireless transport and the TCP listener themselves are outside
//! collaborators: callers perform the I/O and hand byte buffers in and out.

pub mod bridge;
pub mod bytes;
pub mod checksum;
pub mod prefab;
pub mod protocol;
pub mod sequence;
pub mod telegram;
