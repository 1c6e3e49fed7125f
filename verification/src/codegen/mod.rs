pub mod bot_command;
pub mod emit;
pub mod event_arg;
pub mod macros;
