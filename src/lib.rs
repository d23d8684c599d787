//! A chat bot's core: user registration, per-channel notification
//! subscriptions with a cooldown, direct-message fan-out, admin grants, and
//! the relay of a reaction on a notification back to the message it came from.

pub mod model;
pub mod eligibility;
pub mod store;
pub mod constants;
mod clock;
pub mod replies;
pub mod commands;
pub mod handlers;
pub mod fanout;
pub mod relay;
