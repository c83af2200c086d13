//! A local Modbus client: JSON-RPC framing, method dispatch, the connection
//! registry and the transport decisions, verified.
pub mod json;
pub mod text;
pub mod types;
pub mod rpc;
pub mod engine;
pub mod driver;
pub mod ws;
pub mod assets;
pub mod protocol;
