//! A QQ bot framework: event dispatch to modules, bot command grammar,
//! session token encoding, login decisions and the template bot's rules.
use vstd::prelude::*;

pub mod entities;
pub mod client;
pub mod codegen;
pub mod handler;
pub mod login;
pub mod message;
pub mod patterns;
pub mod proxy;
pub mod scheduler;
pub mod session;
pub mod template;
pub mod text;

verus! {

} // verus!
