//! What goes out when the aggregator notifies, and through which channels.

pub mod email;
pub mod generic;
pub mod gotify;
pub mod matrix;
pub mod pushover;
pub mod slack;
pub mod telegram;
pub mod twilio;
pub mod webex;
pub mod webhook;
pub mod xmpp;
pub mod zulip;
