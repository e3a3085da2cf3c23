//! Responder-side handling of SPDM requests: ERROR responses, HEARTBEAT,
//! VENDOR_DEFINED_REQUEST and PSK_EXCHANGE, over a verified message codec.

pub mod protocol;
pub mod codec;
pub mod message;
pub mod crypto;
pub mod context;
pub mod responder;
pub mod vendor;
pub mod opaque;
pub mod psk_exchange;
pub mod software_crypto;
