//! Core logic of an authenticating HTTP gateway: the frame codec spoken to
//! the Auth process over a local socket, the Auth process's request
//! dispatcher, and the gateway's routing and admission decisions.
use vstd::prelude::*;

pub mod frame;
pub mod records;
pub mod flow;
pub mod dispatch;
pub mod text;
pub mod routing;
pub mod gateway;
