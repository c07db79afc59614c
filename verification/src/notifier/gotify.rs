//! The Gotify channel.

use vstd::prelude::*;
use vstd::string::StringExecFns;

use crate::config::notify::Gotify;
use crate::notifier::generic::{Notification, Notifier};
use crate::text::{join, joined};

verus! {

/// The Gotify channel.
pub struct GotifyNotifier;

impl Notifier for GotifyNotifier {
    type Config = Gotify;

    open spec fn takes(config: &Gotify, notification: &Notification) -> bool {
        !config.reminders_only || !notification.changed
    }

    open spec fn spec_name() -> Seq<char> {
        "gotify"@
    }

    fn can_notify(config: &Gotify, notification: &Notification) -> (taken: bool) {
        notification.expected(config.reminders_only)
    }

    fn name() -> (name: &'static str) {
        "gotify"
    }
}

impl GotifyNotifier {
    /// The text of the message: a line for a startup alert or a reminder, then
    /// the status in capitals, the dead replicas line by line, and the time.
    pub open spec fn spec_message(notification: Notification) -> Seq<char> {
        (if notification.startup {
            "This is a startup alert.\n\n"@
        } else if !notification.changed {
            "This is a reminder.\n\n"@
        } else {
            Seq::<char>::empty()
        })
            + "Status: "@
            + notification.status.spec_as_upper()
            + "\nNodes:\n"@
            + joined(notification.replicas@, "\n"@)
            + "\nTime: "@
            + notification.time@
    }

    /// Writes the text that `spec_message` describes.
    pub fn message(notification: &Notification) -> (text: String)
        ensures
            text@ == Self::spec_message(*notification),
    {
        let mut text = String::new();
        if notification.startup {
            text.append("This is a startup alert.\n\n");
        } else if !notification.changed {
            text.append("This is a reminder.\n\n");
        }
        text.append("Status: ");
        text.append(notification.status.as_upper());
        text.append("\nNodes:\n");
        text.append(join(&notification.replicas, "\n").as_str());
        text.append("\nTime: ");
        text.append(notification.time.as_str());
        assert(text@ =~= Self::spec_message(*notification));
        text
    }

    /// The address that takes the message for the application.
    pub open spec fn spec_url(gotify: Gotify) -> Seq<char> {
        gotify.app_url@ + "message?token="@ + gotify.app_token@
    }

    /// Writes the text that `spec_url` describes.
    pub fn url(gotify: &Gotify) -> (text: String)
        ensures
            text@ == Self::spec_url(*gotify),
    {
        let mut text = String::new();
        text.append(gotify.app_url.as_str());
        text.append("message?token=");
        text.append(gotify.app_token.as_str());
        assert(text@ =~= Self::spec_url(*gotify));
        text
    }

    /// The priority of the message: the highest for a reminder, and none for
    /// a change.
    pub fn priority(notification: &Notification) -> (priority: Option<&'static str>)
        ensures
            priority.is_some() == !notification.changed,
            priority matches Some(text) ==> text@ == "10"@,
    {
        if !notification.changed {
            Some("10")
        } else {
            None
        }
    }
}

} // verus!
