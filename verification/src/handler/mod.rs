pub mod dispatch;
pub mod events;
pub mod processes;
pub mod results;
