//! The two halves of a TCP bridge, as verified state machines.
//!
//! A bridge carries TCP connections from one place to another by way of [`Action`] values. One
//! half, the *listening* one, accepts connections; the other, the *emitting* one, opens a
//! connection of its own for each of them. What happens on the sockets of one half is *extracted*
//! from it as an action and *input* to the other half.
//!
//! A [`TcpBridge`] decides; it performs no input or output itself. Its methods say what to wait
//! for, what to read, where to connect and what to write, and take back what came of it.

pub mod bridge;
pub mod interface;
pub mod laws;
pub mod promises;
pub mod state;

pub use bridge::TcpBridge;
/// Describes possible actions to/from `vlink` bridges
pub use interface::Action;
pub use interface::{Effect, ErrorAction, ErrorKind, Extractable, Extraction, IoError, LocalAddress};
