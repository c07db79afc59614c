//! The Zulip channel.

use vstd::prelude::*;
use vstd::string::StringExecFns;

use crate::config::notify::Zulip;
use crate::config::Branding;
use crate::notifier::generic::{Notification, Notifier};
use crate::prober::status::Status;
use crate::text::{join, joined};

verus! {

/// The Zulip channel.
pub struct ZulipNotifier;

/// The kind of message that is sent.
pub const ZULIP_MESSAGE_TYPE: &'static str = "stream";

/// The topic under which messages are sent.
pub const ZULIP_MESSAGE_TOPIC: &'static str = "\u{d6}vervakt status";

/// What `url::Url::join` makes of a reference against a base address that
/// `url::Url::parse` has read; nothing where either refuses.
pub uninterp spec fn joined_url(base: Seq<char>, reference: Seq<char>) -> Option<Seq<char>>;

/// `url::Url::join`, on the base as `url::Url::parse` reads it, with the
/// result turned into a `String`.
#[verifier::external_body]
fn join_url(base: &str, reference: &str) -> (url: Option<String>)
    ensures
        joined_url(base@, reference@) == match url {
            Some(text) => Some(text@),
            None => None,
        },
{
    url::Url::parse(base).ok()?.join(reference).ok().map(String::from)
}

impl Notifier for ZulipNotifier {
    type Config = Zulip;

    open spec fn takes(config: &Zulip, notification: &Notification) -> bool {
        !config.reminders_only || !notification.changed
    }

    open spec fn spec_name() -> Seq<char> {
        "zulip"@
    }

    fn can_notify(config: &Zulip, notification: &Notification) -> (taken: bool) {
        notification.expected(config.reminders_only)
    }

    fn name() -> (name: &'static str) {
        "zulip"
    }
}

impl ZulipNotifier {
    /// The status as the message words it.
    pub open spec fn spec_status_text(status: Status) -> Seq<char> {
        match status {
            Status::Dead => " *dead* :boom:"@,
            Status::Healthy => " *healthy* :check_mark:"@,
            Status::Sick => " *sick* :sick:"@,
        }
    }

    /// Words a status.
    pub fn status_text(status: &Status) -> (text: &'static str)
        ensures
            text@ == Self::spec_status_text(*status),
    {
        match status {
            Status::Dead => " *dead* :boom:",
            Status::Healthy => " *healthy* :check_mark:",
            Status::Sick => " *sick* :sick:",
        }
    }

    /// The text of the message: the sentence that tells the status, the dead
    /// replicas where there are any, then the status, the time and the address
    /// of the page.
    pub open spec fn spec_message(notification: Notification, branding: Branding) -> Seq<char> {
        (if notification.startup {
            "Status started up, as: "@
        } else if notification.changed {
            "Status changed to: "@
        } else {
            "Status is still: "@
        })
            + Self::spec_status_text(notification.status)
            + "."@
            + (if notification.replicas@.len() > 0 {
            "\n **Nodes**: *"@ + joined(notification.replicas@, ", "@) + "*."@
        } else {
            Seq::<char>::empty()
        })
            + "\n **Status**: "@
            + notification.status.spec_label()
            + "\n **Time**: "@
            + notification.time@
            + "\n **Page**: "@
            + branding.page_url@
    }

    /// Writes the text that `spec_message` describes.
    pub fn message(notification: &Notification, branding: &Branding) -> (text: String)
        ensures
            text@ == Self::spec_message(*notification, *branding),
    {
        let mut text = String::new();
        if notification.startup {
            text.append("Status started up, as: ");
        } else if notification.changed {
            text.append("Status changed to: ");
        } else {
            text.append("Status is still: ");
        }
        text.append(Self::status_text(&notification.status));
        text.append(".");
        if notification.replicas.len() > 0 {
            text.append("\n **Nodes**: *");
            text.append(join(&notification.replicas, ", ").as_str());
            text.append("*.");
        }
        text.append("\n **Status**: ");
        text.append(notification.status.label());
        text.append("\n **Time**: ");
        text.append(notification.time.as_str());
        text.append("\n **Page**: ");
        text.append(branding.page_url.as_str());
        assert(text@ =~= Self::spec_message(*notification, *branding));
        text
    }

    /// The address that takes messages: `messages` below the address of the
    /// interface; nothing where that address cannot be joined with it.
    pub fn url(zulip: &Zulip) -> (url: Option<String>)
        ensures
            joined_url(zulip.api_url@, "messages"@) == match url {
                Some(text) => Some(text@),
                None => None,
            },
    {
        join_url(zulip.api_url.as_str(), "messages")
    }
}

} // verus!
