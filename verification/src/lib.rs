//! A status reporter for a foreign-function bridge.
//!
//! The bridge answers one question: what is its status? The answer is a fixed
//! line of text, handed over as a zero-terminated byte string written into a
//! region that the caller owns. A caller that does not know how large a
//! region to bring asks first with a capacity that is too small and is told
//! the size that is needed.

pub mod message;
pub mod status;

pub use message::{status_text, STATUS_MESSAGE_LEN};
pub use status::{get_bridge_status, write_status_message};
