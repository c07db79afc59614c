//! The Pushover channel.

use vstd::prelude::*;
use vstd::string::StringExecFns;

use crate::config::notify::Pushover;
use crate::config::Branding;
use crate::notifier::generic::{Notification, Notifier};
use crate::prober::status::Status;
use crate::text::{join, joined};

verus! {

/// The Pushover channel.
pub struct PushoverNotifier;

impl Notifier for PushoverNotifier {
    type Config = Pushover;

    open spec fn takes(config: &Pushover, notification: &Notification) -> bool {
        !config.reminders_only || !notification.changed
    }

    open spec fn spec_name() -> Seq<char> {
        "pushover"@
    }

    fn can_notify(config: &Pushover, notification: &Notification) -> (taken: bool) {
        notification.expected(config.reminders_only)
    }

    fn name() -> (name: &'static str) {
        "pushover"
    }
}

impl PushoverNotifier {
    /// The colour in which the status is written.
    pub open spec fn spec_status_to_color(status: Status) -> Seq<char> {
        match status {
            Status::Healthy => "#54A158"@,
            Status::Sick => "#D5A048"@,
            Status::Dead => "#C4291C"@,
        }
    }

    /// Names the colour of a status.
    pub fn status_to_color(status: &Status) -> (color: &'static str)
        ensures
            color@ == Self::spec_status_to_color(*status),
    {
        match status {
            Status::Healthy => "#54A158",
            Status::Sick => "#D5A048",
            Status::Dead => "#C4291C",
        }
    }

    /// The text of the message, marked up: a line for a startup alert or a
    /// reminder, then the status in capitals and in its colour, the dead
    /// replicas, and the time.
    pub open spec fn spec_message(notification: Notification) -> Seq<char> {
        (if notification.startup {
            "<b><i>This is a startup alert.</i></b>\n\n"@
        } else if !notification.changed {
            "<b><i>This is a reminder.</i></b>\n\n"@
        } else {
            Seq::<char>::empty()
        })
            + "<u>Status:</u> <b><font color=\""@
            + Self::spec_status_to_color(notification.status)
            + "\">"@
            + notification.status.spec_as_upper()
            + "</font></b>\n<u>Nodes:</u> "@
            + joined(notification.replicas@, ", "@)
            + "\n<u>Time:</u> "@
            + notification.time@
    }

    /// Writes the text that `spec_message` describes.
    pub fn message(notification: &Notification) -> (text: String)
        ensures
            text@ == Self::spec_message(*notification),
    {
        let mut text = String::new();
        if notification.startup {
            text.append("<b><i>This is a startup alert.</i></b>\n\n");
        } else if !notification.changed {
            text.append("<b><i>This is a reminder.</i></b>\n\n");
        }
        text.append("<u>Status:</u> <b><font color=\"");
        text.append(Self::status_to_color(&notification.status));
        text.append("\">");
        text.append(notification.status.as_upper());
        text.append("</font></b>\n<u>Nodes:</u> ");
        text.append(join(&notification.replicas, ", ").as_str());
        text.append("\n<u>Time:</u> ");
        text.append(notification.time.as_str());
        assert(text@ =~= Self::spec_message(*notification));
        text
    }

    /// The title of the link to the page.
    pub open spec fn spec_url_title(branding: Branding) -> Seq<char> {
        "Details on "@ + branding.page_title@
    }

    /// Writes the text that `spec_url_title` describes.
    pub fn url_title(branding: &Branding) -> (text: String)
        ensures
            text@ == Self::spec_url_title(*branding),
    {
        let mut text = String::new();
        text.append("Details on ");
        text.append(branding.page_title.as_str());
        assert(text@ =~= Self::spec_url_title(*branding));
        text
    }

    /// The priority of the message: high for a reminder, and none for a
    /// change.
    pub fn priority(notification: &Notification) -> (priority: Option<&'static str>)
        ensures
            priority.is_some() == !notification.changed,
            priority matches Some(text) ==> text@ == "1"@,
    {
        if !notification.changed {
            Some("1")
        } else {
            None
        }
    }
}

} // verus!
