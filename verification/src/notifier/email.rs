//! The mail channel.

use vstd::prelude::*;
use vstd::string::StringExecFns;

use crate::config::notify::Email;
use crate::config::Branding;
use crate::notifier::generic::{Notification, Notifier};
use crate::text::{join, joined};
use crate::text::{decimal, decimal_string};

verus! {

/// The mail channel.
pub struct EmailNotifier;

impl Notifier for EmailNotifier {
    type Config = Email;

    open spec fn takes(config: &Email, notification: &Notification) -> bool {
        !config.reminders_only || !notification.changed
    }

    open spec fn spec_name() -> Seq<char> {
        "email"@
    }

    fn can_notify(config: &Email, notification: &Notification) -> (taken: bool) {
        notification.expected(config.reminders_only)
    }

    fn name() -> (name: &'static str) {
        "email"
    }
}

impl EmailNotifier {
    /// The text of the mail: what kind of notification it is and from which
    /// page, then the status, the dead replicas, the time and the address of the
    /// page.
    pub open spec fn spec_message(notification: Notification, branding: Branding) -> Seq<char> {
        (if notification.startup {
            "Status startup alert from: "@
        } else if notification.changed {
            "Status change report from: "@
        } else {
            "Status unchanged reminder from: "@
        })
            + branding.page_title@
            + "\n\n--\nStatus: "@
            + notification.status.spec_label()
            + "\nNodes: "@
            + joined(notification.replicas@, ", "@)
            + "\nTime: "@
            + notification.time@
            + "\nURL: "@
            + branding.page_url@
            + "\n--\n\nTo unsubscribe, please edit your status page configuration."@
    }

    /// Writes the text that `spec_message` describes.
    pub fn message(notification: &Notification, branding: &Branding) -> (text: String)
        ensures
            text@ == Self::spec_message(*notification, *branding),
    {
        let mut text = String::new();
        if notification.startup {
            text.append("Status startup alert from: ");
        } else if notification.changed {
            text.append("Status change report from: ");
        } else {
            text.append("Status unchanged reminder from: ");
        }
        text.append(branding.page_title.as_str());
        text.append("\n\n--\nStatus: ");
        text.append(notification.status.label());
        text.append("\nNodes: ");
        text.append(join(&notification.replicas, ", ").as_str());
        text.append("\nTime: ");
        text.append(notification.time.as_str());
        text.append("\nURL: ");
        text.append(branding.page_url.as_str());
        text.append("\n--\n\nTo unsubscribe, please edit your status page configuration.");
        assert(text@ =~= Self::spec_message(*notification, *branding));
        text
    }

    /// The subject of the mail: the status in capitals, and the dead replicas.
    pub open spec fn spec_subject(notification: Notification) -> Seq<char> {
        notification.status.spec_as_upper() + " | "@ + joined(notification.replicas@, ", "@)
    }

    /// Writes the text that `spec_subject` describes.
    pub fn subject(notification: &Notification) -> (text: String)
        ensures
            text@ == Self::spec_subject(*notification),
    {
        let mut text = String::new();
        text.append(notification.status.as_upper());
        text.append(" | ");
        text.append(join(&notification.replicas, ", ").as_str());
        assert(text@ =~= Self::spec_subject(*notification));
        text
    }

    /// The address of the mail relay: host and port.
    pub open spec fn spec_relay_address(smtp_host: Seq<char>, smtp_port: u16) -> Seq<char> {
        smtp_host + ":"@ + decimal(smtp_port as nat)
    }

    /// Writes the text that `spec_relay_address` describes.
    pub fn relay_address(smtp_host: &str, smtp_port: u16) -> (text: String)
        ensures
            text@ == Self::spec_relay_address(smtp_host@, smtp_port),
    {
        let mut text = String::new();
        text.append(smtp_host);
        text.append(":");
        text.append(decimal_string(smtp_port as u128).as_str());
        assert(text@ =~= Self::spec_relay_address(smtp_host@, smtp_port));
        text
    }
}

} // verus!
