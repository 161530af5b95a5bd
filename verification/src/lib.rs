//! Wire-level message envelope for a hub process relaying messages between
//! peers of an overlay network: the closed set of message shapes, a stable
//! textual on-the-wire encoding with a proven encode/decode round trip, a
//! human-readable classification per message kind, and a total preorder used
//! to prioritise queued messages.
use vstd::prelude::*;

pub mod classify;
pub mod codec;
pub mod convert;
pub mod decode;
pub mod digits;
pub mod encode;
pub mod ext;
pub mod jstr;
pub mod msg;
pub mod order;
pub mod text;

pub use crate::msg::ClientToLib3h;
pub use crate::msg::ClientToLib3hResponse;
pub use crate::msg::Lib3hToClient;
pub use crate::msg::Lib3hToClientResponse;
pub use crate::msg::StatusData;
pub use crate::msg::WireError;
pub use crate::msg::WireMessage;

verus! {

/// Protocol revision implemented by this envelope format; informational,
/// reported through `StatusData` and never consulted by the decoder.
pub const WIRE_VERSION: u32 = 1;

} // verus!
