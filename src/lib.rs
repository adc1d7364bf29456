//! Decoding of the socket activation environment that a service supervisor
//! hands to a process it starts with pre-opened listening sockets.

mod activation;
mod error;
mod fd;
mod names;
mod number;

pub use activation::{decode, SD_LISTEN_FDS_START};
pub use error::Error;
pub use fd::OwnedFd;
pub use number::parse_u32;
