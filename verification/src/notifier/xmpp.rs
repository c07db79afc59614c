//! The XMPP channel.

use vstd::prelude::*;
use vstd::string::StringExecFns;

use crate::config::notify::Xmpp;
use crate::config::Branding;
use crate::notifier::generic::{Notification, Notifier};
use crate::text::{join, joined};
use crate::text::{decimal, decimal_string};

verus! {

/// The XMPP channel.
pub struct XMPPNotifier;

impl Notifier for XMPPNotifier {
    type Config = Xmpp;

    open spec fn takes(config: &Xmpp, notification: &Notification) -> bool {
        !config.reminders_only || !notification.changed
    }

    open spec fn spec_name() -> Seq<char> {
        "xmpp"@
    }

    fn can_notify(config: &Xmpp, notification: &Notification) -> (taken: bool) {
        notification.expected(config.reminders_only)
    }

    fn name() -> (name: &'static str) {
        "xmpp"
    }
}

impl XMPPNotifier {
    /// The text of the message: what kind of notification it is and from which
    /// page, then the status, the dead replicas, the time and the address of the
    /// page.
    pub open spec fn spec_message(notification: Notification, branding: Branding) -> Seq<char> {
        (if notification.startup {
            "Startup alert for: "@
        } else if !notification.changed {
            "Reminder for: "@
        } else {
            Seq::<char>::empty()
        })
            + branding.page_title@
            + "\n\nStatus: "@
            + notification.status.spec_label()
            + "\nNodes: "@
            + joined(notification.replicas@, ", "@)
            + "\nTime: "@
            + notification.time@
            + "\nURL: "@
            + branding.page_url@
    }

    /// Writes the text that `spec_message` describes.
    pub fn message(notification: &Notification, branding: &Branding) -> (text: String)
        ensures
            text@ == Self::spec_message(*notification, *branding),
    {
        let mut text = String::new();
        if notification.startup {
            text.append("Startup alert for: ");
        } else if !notification.changed {
            text.append("Reminder for: ");
        }
        text.append(branding.page_title.as_str());
        text.append("\n\nStatus: ");
        text.append(notification.status.label());
        text.append("\nNodes: ");
        text.append(join(&notification.replicas, ", ").as_str());
        text.append("\nTime: ");
        text.append(notification.time.as_str());
        text.append("\nURL: ");
        text.append(branding.page_url.as_str());
        assert(text@ =~= Self::spec_message(*notification, *branding));
        text
    }

    /// The identifier of the message stanza sent at the time `unix_seconds`.
    pub open spec fn spec_stanza_id(unix_seconds: u64) -> Seq<char> {
        "overvakt-"@ + decimal(unix_seconds as nat)
    }

    /// Writes the text that `spec_stanza_id` describes.
    pub fn stanza_id(unix_seconds: u64) -> (text: String)
        ensures
            text@ == Self::spec_stanza_id(unix_seconds),
    {
        let mut text = String::new();
        text.append("overvakt-");
        text.append(decimal_string(unix_seconds as u128).as_str());
        assert(text@ =~= Self::spec_stanza_id(unix_seconds));
        text
    }
}

} // verus!
