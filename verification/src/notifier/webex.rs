//! The Webex channel.

use vstd::prelude::*;
use vstd::string::StringExecFns;

use crate::config::notify::WebEx;
use crate::config::Branding;
use crate::notifier::generic::{Notification, Notifier};
use crate::text::{join, joined};

verus! {

/// The Webex channel.
pub struct WebExNotifier;

impl Notifier for WebExNotifier {
    type Config = WebEx;

    open spec fn takes(config: &WebEx, notification: &Notification) -> bool {
        !config.reminders_only || !notification.changed
    }

    open spec fn spec_name() -> Seq<char> {
        "webex"@
    }

    fn can_notify(config: &WebEx, notification: &Notification) -> (taken: bool) {
        notification.expected(config.reminders_only)
    }

    fn name() -> (name: &'static str) {
        "webex"
    }
}

impl WebExNotifier {
    /// The text of the message: what kind of notification it is and from which
    /// page, then the status, the dead replicas, the time and the address of the
    /// page.
    pub open spec fn spec_message(notification: Notification, branding: Branding) -> Seq<char> {
        (if notification.startup {
            "Status startup alert from: "@
        } else if notification.changed {
            "Status change report from: "@
        } else {
            "Status unchanged reminder from: "@
        })
            + branding.page_title@
            + "\nStatus: "@
            + notification.status.spec_label()
            + "\nNodes: "@
            + joined(notification.replicas@, ", "@)
            + "\nTime: "@
            + notification.time@
            + "\nURL: "@
            + branding.page_url@
    }

    /// Writes the text that `spec_message` describes.
    pub fn message(notification: &Notification, branding: &Branding) -> (text: String)
        ensures
            text@ == Self::spec_message(*notification, *branding),
    {
        let mut text = String::new();
        if notification.startup {
            text.append("Status startup alert from: ");
        } else if notification.changed {
            text.append("Status change report from: ");
        } else {
            text.append("Status unchanged reminder from: ");
        }
        text.append(branding.page_title.as_str());
        text.append("\nStatus: ");
        text.append(notification.status.label());
        text.append("\nNodes: ");
        text.append(join(&notification.replicas, ", ").as_str());
        text.append("\nTime: ");
        text.append(notification.time.as_str());
        text.append("\nURL: ");
        text.append(branding.page_url.as_str());
        assert(text@ =~= Self::spec_message(*notification, *branding));
        text
    }

    /// The value of the authorization header.
    pub open spec fn spec_authorization(webex: WebEx) -> Seq<char> {
        "Bearer "@ + webex.token@
    }

    /// Writes the text that `spec_authorization` describes.
    pub fn authorization(webex: &WebEx) -> (text: String)
        ensures
            text@ == Self::spec_authorization(*webex),
    {
        let mut text = String::new();
        text.append("Bearer ");
        text.append(webex.token.as_str());
        assert(text@ =~= Self::spec_authorization(*webex));
        text
    }
}

} // verus!
