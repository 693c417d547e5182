//! Real-time chat relay: clients register by identity when their socket
//! opens, and each decoded frame is routed to one peer, both peers of a
//! chat, or every registered peer. Also the plain-value model of the HTTP
//! responses and cross-origin headers of the surrounding web backend.
pub mod cors;
pub mod message;
pub mod registry;
pub mod relay;
pub mod response;
pub mod text;
