pub mod event;
pub mod sys;

pub use event::{Event, PollOpt, Ready, Token};
pub use sys::poll::millis;
pub use sys::PollError;
