//! The subscription handshake: what was asked for, and what the exchange has
//! said of it so far.

pub mod mapper;
pub mod subscription;
pub mod validator;
