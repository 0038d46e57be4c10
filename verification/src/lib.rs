//! LAN peer discovery over UDP multicast, with a small arithmetic game
//! riding on top.
//!
//! The library holds the verified core: the discovery codec, the multicast
//! address rules, the host/client role state machine, the problem generator's
//! arithmetic, and the input-handling rules of the terminal front end. The
//! sockets and the terminal itself live outside the library and drive these
//! functions with plain values.

pub mod addr;
pub mod codec;
pub mod discovery;
pub mod game;
pub mod transport;
pub mod ui;

