//! Discovery and reconfiguration of IP cameras that speak the SADP
//! broadcast protocol: the message model, the wire codec, the password
//! digest and the decisions of the discovery and update sessions.

pub mod codec;
pub mod password;
pub mod probe;
pub mod reply;
pub mod request;
pub mod response;
pub mod session;
pub mod table;
pub mod text;
pub mod update;
pub mod wire;
