//! Session core for a StarCraft II API client.
//!
//! The library models the wire protocol spoken with a single game-engine
//! peer over one duplex connection: the binary envelope codec, the closed
//! taxonomy of request/response kinds, the lifecycle status machine that
//! says which reply is legal in which phase, the classifier that turns
//! embedded application errors into one uniform error type, and the
//! session state that ties them together one exchange at a time.
//!
//! All I/O stays outside the library: callers hand frames in and take
//! frames out as plain byte vectors. The frame format is the library's
//! own canonical encoding (see [`wire`]), spoken by both the client and
//! the server side of this crate.

pub mod act;
pub mod action;
pub mod common;
pub mod draw;
pub mod grid;
pub mod ids;
pub mod launch;
pub mod linalg;
pub mod msg;
pub mod request;
pub mod server;
pub mod session;
pub mod status;
pub mod unit;
pub mod wire;
