pub mod addr;
pub mod capture;
pub mod command;
pub mod frame;
pub mod hex;
pub mod network;
pub mod transport;
