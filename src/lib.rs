pub mod auth;
pub mod consts;
pub mod ports;
pub mod protocol;
pub mod session;
pub mod snake;
