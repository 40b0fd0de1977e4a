pub mod domain;
pub mod env;
pub mod numeral;
pub mod ports;
pub mod server;
pub mod sign_up;
pub mod stubs;
