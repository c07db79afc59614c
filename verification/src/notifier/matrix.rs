//! The Matrix channel.

use vstd::prelude::*;
use vstd::string::StringExecFns;

use crate::config::notify::Matrix;
use crate::config::Branding;
use crate::notifier::generic::{Notification, Notifier};
use crate::text::{count_by_node, decimal, decimal_string, nodes_in_order, replicas_under};

verus! {

/// The Matrix channel.
pub struct MatrixNotifier;

/// What a message says where it cannot show its formatted text.
pub const MATRIX_MESSAGE_BODY: &'static str = "You received a \u{d6}vervakt alert.";

/// The type of the message.
pub const MATRIX_MESSAGE_TYPE: &'static str = "m.text";

/// The format of the formatted text.
pub const MATRIX_MESSAGE_FORMAT: &'static str = "org.matrix.custom.html";

impl Notifier for MatrixNotifier {
    type Config = Matrix;

    open spec fn takes(config: &Matrix, notification: &Notification) -> bool {
        !config.reminders_only || !notification.changed
    }

    open spec fn spec_name() -> Seq<char> {
        "matrix"@
    }

    fn can_notify(config: &Matrix, notification: &Notification) -> (taken: bool) {
        notification.expected(config.reminders_only)
    }

    fn name() -> (name: &'static str) {
        "matrix"
    }
}

impl MatrixNotifier {
    /// The paragraph that tells the status.
    pub open spec fn spec_format_status(notification: Notification) -> Seq<char> {
        "<p>"@
            + notification.status.spec_as_icon()
            + " "@
            + (if notification.startup {
            "Status started up, as"@
        } else if notification.changed {
            "Status changed to"@
        } else {
            "Status is still"@
        })
            + ": <em>"@
            + notification.status.spec_as_upper()
            + "</em>.</p>"@
    }

    /// Writes the text that `spec_format_status` describes.
    pub fn format_status(notification: &Notification) -> (text: String)
        ensures
            text@ == Self::spec_format_status(*notification),
    {
        let mut text = String::new();
        text.append("<p>");
        text.append(notification.status.as_icon());
        text.append(" ");
        if notification.startup {
            text.append("Status started up, as");
        } else if notification.changed {
            text.append("Status changed to");
        } else {
            text.append("Status is still");
        }
        text.append(": <em>");
        text.append(notification.status.as_upper());
        text.append("</em>.</p>");
        assert(text@ =~= Self::spec_format_status(*notification));
        text
    }

    /// The list item of one service and node with `count` dead replicas.
    pub open spec fn spec_format_replica_item(notification: Notification, node: Seq<char>, count: nat) -> Seq<char> {
        "<li><code>"@
            + node
            + "</code>: "@
            + decimal(count)
            + " "@
            + notification.status.spec_as_str()
            + "</li>"@
    }

    /// Writes the text that `spec_format_replica_item` describes.
    pub fn format_replica_item(notification: &Notification, node: &str, count: usize) -> (text: String)
        ensures
            text@ == Self::spec_format_replica_item(*notification, node@, count as nat),
    {
        let mut text = String::new();
        text.append("<li><code>");
        text.append(node);
        text.append("</code>: ");
        text.append(decimal_string(count as u128).as_str());
        text.append(" ");
        text.append(notification.status.as_str());
        text.append("</li>");
        assert(text@ =~= Self::spec_format_replica_item(*notification, node@, count as nat));
        text
    }

    /// The list items of the first `upto` services and nodes of the
    /// notification, each with the number of its dead replicas.
    pub open spec fn spec_replica_items(notification: Notification, upto: int) -> Seq<char>
        decreases upto,
    {
        if upto <= 0 {
            Seq::empty()
        } else {
            let paths = notification.replicas@;
            let node = nodes_in_order(paths, paths.len() as int)[upto - 1];
            Self::spec_replica_items(notification, upto - 1) + Self::spec_format_replica_item(
                notification,
                node,
                replicas_under(paths, node, paths.len() as int),
            )
        }
    }

    /// The list of the services and nodes with dead replicas, in the order
    /// in which the notification first names them, each with the number of
    /// its dead replicas; nothing where there is no dead replica.
    pub open spec fn spec_format_replicas(notification: Notification) -> Seq<char> {
        let paths = notification.replicas@;
        let nodes = nodes_in_order(paths, paths.len() as int);
        if nodes.len() == 0 {
            Seq::empty()
        } else {
            "<ul>"@ + Self::spec_replica_items(notification, nodes.len() as int) + "</ul>"@
        }
    }

    /// Writes the list that `spec_format_replicas` describes.
    pub fn format_replicas(notification: &Notification) -> (text: String)
        ensures
            text@ == Self::spec_format_replicas(*notification),
    {
        let counts = count_by_node(&notification.replicas);
        if counts.len() == 0 {
            return String::new();
        }
        let mut text = String::new();
        text.append("<ul>");
        let mut index: usize = 0;
        while index < counts.len()
            invariant
                index <= counts.len(),
                counts@.len() == nodes_in_order(
                    notification.replicas@,
                    notification.replicas@.len() as int,
                ).len(),
                forall|i: int|
                    0 <= i < counts@.len() ==> (#[trigger] counts@[i]).0@ == nodes_in_order(
                        notification.replicas@,
                        notification.replicas@.len() as int,
                    )[i] && counts@[i].1 == replicas_under(
                        notification.replicas@,
                        counts@[i].0@,
                        notification.replicas@.len() as int,
                    ),
                text@ == "<ul>"@ + Self::spec_replica_items(*notification, index as int),
            decreases counts.len() - index,
        {
            let item = Self::format_replica_item(notification, counts[index].0.as_str(), counts[index].1);
            text.append(item.as_str());
            assert(text@ =~= "<ul>"@ + Self::spec_replica_items(*notification, index + 1));
            index = index + 1;
        }
        text.append("</ul>");
        text
    }

    /// The paragraph that links to the page.
    pub open spec fn spec_format_status_page(branding: Branding) -> Seq<char> {
        "<p>Status page: "@ + branding.page_url@ + "</p>"@
    }

    /// Writes the text that `spec_format_status_page` describes.
    pub fn format_status_page(branding: &Branding) -> (text: String)
        ensures
            text@ == Self::spec_format_status_page(*branding),
    {
        let mut text = String::new();
        text.append("<p>Status page: ");
        text.append(branding.page_url.as_str());
        text.append("</p>");
        assert(text@ =~= Self::spec_format_status_page(*branding));
        text
    }

    /// The paragraph that tells the time.
    pub open spec fn spec_format_time(notification: Notification) -> Seq<char> {
        "<p>Time: "@ + notification.time@ + "</p>"@
    }

    /// Writes the text that `spec_format_time` describes.
    pub fn format_time(notification: &Notification) -> (text: String)
        ensures
            text@ == Self::spec_format_time(*notification),
    {
        let mut text = String::new();
        text.append("<p>Time: ");
        text.append(notification.time.as_str());
        text.append("</p>");
        assert(text@ =~= Self::spec_format_time(*notification));
        text
    }

    /// The text of the message: the status, the list of services and nodes with
    /// dead replicas, the link to the page, and the time.
    pub open spec fn spec_format_message(notification: Notification, branding: Branding) -> Seq<char> {
        Self::spec_format_status(notification)
            + Self::spec_format_replicas(notification)
            + Self::spec_format_status_page(branding)
            + Self::spec_format_time(notification)
    }

    /// Writes the text that `spec_format_message` describes.
    pub fn format_message(notification: &Notification, branding: &Branding) -> (text: String)
        ensures
            text@ == Self::spec_format_message(*notification, *branding),
    {
        let mut text = String::new();
        text.append(Self::format_status(notification).as_str());
        text.append(Self::format_replicas(notification).as_str());
        text.append(Self::format_status_page(branding).as_str());
        text.append(Self::format_time(notification).as_str());
        assert(text@ =~= Self::spec_format_message(*notification, *branding));
        text
    }

    /// The address that takes messages for the room.
    pub open spec fn spec_url(matrix: Matrix) -> Seq<char> {
        matrix.homeserver_url@
            + "_matrix/client/r0/rooms/"@
            + matrix.room_id@
            + "/send/m.room.message?access_token="@
            + matrix.access_token@
    }

    /// Writes the text that `spec_url` describes.
    pub fn url(matrix: &Matrix) -> (text: String)
        ensures
            text@ == Self::spec_url(*matrix),
    {
        let mut text = String::new();
        text.append(matrix.homeserver_url.as_str());
        text.append("_matrix/client/r0/rooms/");
        text.append(matrix.room_id.as_str());
        text.append("/send/m.room.message?access_token=");
        text.append(matrix.access_token.as_str());
        assert(text@ =~= Self::spec_url(*matrix));
        text
    }
}

} // verus!
