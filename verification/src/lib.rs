//! Configuration of an OPC UA server: the endpoints it exposes, the security
//! each of them asks for, the transport parameters, and the rules that say
//! when such a configuration is legal.

pub mod config;
pub mod constants;
pub mod endpoint;
pub mod security;
pub mod text;
