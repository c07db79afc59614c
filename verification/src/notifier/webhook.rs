//! The web hook channel.

use vstd::prelude::*;

use crate::config::notify::WebHook;
use crate::notifier::generic::{Notification, Notifier};

verus! {

/// The web hook channel.
pub struct WebHookNotifier;

/// The kind of a notification, as the payload names it.
#[derive(Clone, Copy, Debug, PartialEq, Eq, Structural)]
pub enum WebHookPayloadType {
    Startup,
    Changed,
    Reminder,
}

impl WebHookPayloadType {
    pub open spec fn spec_as_str(self) -> Seq<char> {
        match self {
            WebHookPayloadType::Startup => "startup"@,
            WebHookPayloadType::Changed => "changed"@,
            WebHookPayloadType::Reminder => "reminder"@,
        }
    }

    /// The kind as the payload writes it.
    pub fn as_str(&self) -> (text: &'static str)
        ensures
            text@ == self.spec_as_str(),
    {
        match self {
            WebHookPayloadType::Startup => "startup",
            WebHookPayloadType::Changed => "changed",
            WebHookPayloadType::Reminder => "reminder",
        }
    }
}

impl Notifier for WebHookNotifier {
    type Config = WebHook;

    open spec fn takes(config: &WebHook, notification: &Notification) -> bool {
        true
    }

    open spec fn spec_name() -> Seq<char> {
        "webhook"@
    }

    fn can_notify(config: &WebHook, notification: &Notification) -> (taken: bool) {
        true
    }

    fn name() -> (name: &'static str) {
        "webhook"
    }
}

impl WebHookNotifier {
    /// The kind of the notification: a startup alert, else a change, else a
    /// reminder.
    pub fn payload_type(notification: &Notification) -> (hook_type: WebHookPayloadType)
        ensures
            hook_type == if notification.startup {
                WebHookPayloadType::Startup
            } else if notification.changed {
                WebHookPayloadType::Changed
            } else {
                WebHookPayloadType::Reminder
            },
    {
        if notification.startup {
            WebHookPayloadType::Startup
        } else if notification.changed {
            WebHookPayloadType::Changed
        } else {
            WebHookPayloadType::Reminder
        }
    }
}

} // verus!
