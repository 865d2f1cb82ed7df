//! The connection side of the router.

pub mod websocket;
