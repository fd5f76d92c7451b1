pub mod client;
pub mod command;
pub mod opcode;
pub mod packet;
pub mod queue;
pub mod text;

pub use client::Client;
