//! The Slack channel.

use vstd::prelude::*;
use vstd::string::StringExecFns;

use crate::config::notify::Slack;
use crate::notifier::generic::{Notification, Notifier};
use crate::prober::status::Status;
use crate::text::{join, joined};

verus! {

/// The Slack channel.
pub struct SlackNotifier;

impl Notifier for SlackNotifier {
    type Config = Slack;

    open spec fn takes(config: &Slack, notification: &Notification) -> bool {
        !config.reminders_only || !notification.changed
    }

    open spec fn spec_name() -> Seq<char> {
        "slack"@
    }

    fn can_notify(config: &Slack, notification: &Notification) -> (taken: bool) {
        notification.expected(config.reminders_only)
    }

    fn name() -> (name: &'static str) {
        "slack"
    }
}

impl SlackNotifier {
    /// The colour of the attachment.
    pub open spec fn spec_status_to_color(status: Status) -> Seq<char> {
        match status {
            Status::Healthy => "good"@,
            Status::Sick => "warning"@,
            Status::Dead => "danger"@,
        }
    }

    /// Names the colour of a status.
    pub fn status_to_color(status: &Status) -> (color: &'static str)
        ensures
            color@ == Self::spec_status_to_color(*status),
    {
        match status {
            Status::Healthy => "good",
            Status::Sick => "warning",
            Status::Dead => "danger",
        }
    }

    /// The sentence that tells the status.
    pub open spec fn spec_message_text(notification: Notification) -> Seq<char> {
        (if notification.startup {
            "Status started up, as: *"@
        } else if notification.changed {
            "Status changed to: *"@
        } else {
            "Status is still: *"@
        })
            + notification.status.spec_as_str()
            + "*."@
    }

    /// Writes the text that `spec_message_text` describes.
    pub fn message_text(notification: &Notification) -> (text: String)
        ensures
            text@ == Self::spec_message_text(*notification),
    {
        let mut text = String::new();
        if notification.startup {
            text.append("Status started up, as: *");
        } else if notification.changed {
            text.append("Status changed to: *");
        } else {
            text.append("Status is still: *");
        }
        text.append(notification.status.as_str());
        text.append("*.");
        assert(text@ =~= Self::spec_message_text(*notification));
        text
    }

    /// The text of the attachment where it cannot be shown: the sentence, and
    /// the dead replicas where there are any.
    pub open spec fn spec_fallback(notification: Notification) -> Seq<char> {
        (if notification.startup {
            "Status started up, as: *"@
        } else if notification.changed {
            "Status changed to: *"@
        } else {
            "Status is still: *"@
        })
            + notification.status.spec_as_str()
            + "*."@
            + (if notification.replicas@.len() > 0 {
            " Nodes: *"@ + joined(notification.replicas@, ", "@) + "*."@
        } else {
            Seq::<char>::empty()
        })
    }

    /// Writes the text that `spec_fallback` describes.
    pub fn fallback(notification: &Notification) -> (text: String)
        ensures
            text@ == Self::spec_fallback(*notification),
    {
        let mut text = String::new();
        if notification.startup {
            text.append("Status started up, as: *");
        } else if notification.changed {
            text.append("Status changed to: *");
        } else {
            text.append("Status is still: *");
        }
        text.append(notification.status.as_str());
        text.append("*.");
        if notification.replicas.len() > 0 {
            text.append(" Nodes: *");
            text.append(join(&notification.replicas, ", ").as_str());
            text.append("*.");
        }
        assert(text@ =~= Self::spec_fallback(*notification));
        text
    }

    /// The text of the message: a mention of the channel where the settings ask
    /// for one, the sentence, and the dead replicas where there are any.
    pub open spec fn spec_text(slack: Slack, notification: Notification) -> Seq<char> {
        (if slack.mention_channel {
            "<!channel> "@
        } else {
            Seq::<char>::empty()
        })
            + (if notification.startup {
            "Status started up, as: *"@
        } else if notification.changed {
            "Status changed to: *"@
        } else {
            "Status is still: *"@
        })
            + notification.status.spec_as_str()
            + "*."@
            + (if notification.replicas@.len() > 0 {
            " Nodes: *"@ + joined(notification.replicas@, ", "@) + "*."@
        } else {
            Seq::<char>::empty()
        })
    }

    /// Writes the text that `spec_text` describes.
    pub fn text(slack: &Slack, notification: &Notification) -> (text: String)
        ensures
            text@ == Self::spec_text(*slack, *notification),
    {
        let mut text = String::new();
        if slack.mention_channel {
            text.append("<!channel> ");
        }
        if notification.startup {
            text.append("Status started up, as: *");
        } else if notification.changed {
            text.append("Status changed to: *");
        } else {
            text.append("Status is still: *");
        }
        text.append(notification.status.as_str());
        text.append("*.");
        if notification.replicas.len() > 0 {
            text.append(" Nodes: *");
            text.append(join(&notification.replicas, ", ").as_str());
            text.append("*.");
        }
        assert(text@ =~= Self::spec_text(*slack, *notification));
        text
    }
}

} // verus!
