pub mod error_rsp;
pub mod heartbeat_rsp;
pub mod vendor_rsp;
pub mod psk_exchange_rsp;
