//! Protocol core of a vector-graphics rendering driver: the framed wire
//! codec, the outbound events, the command dispatcher and the script
//! interpreter that turns drawing bytecode into backend calls.

pub mod commands;
pub mod dispatch;
pub mod events;
pub mod input;
pub mod script;
pub mod text;
pub mod types;
pub mod wire;
