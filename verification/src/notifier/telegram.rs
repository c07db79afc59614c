//! The Telegram channel.

use vstd::prelude::*;
use vstd::string::StringExecFns;

use crate::config::notify::Telegram;
use crate::config::Branding;
use crate::notifier::generic::{Notification, Notifier};
use crate::text::{
    count_by_node, decimal, decimal_string, nodes_in_order, parse_unsigned, replicas_under,
    unsigned_number,
};

verus! {

/// The Telegram channel.
pub struct TelegramNotifier;

/// Whom a message is for.
pub enum TelegramChatID {
    Group(String),
    User(u64),
}

impl Notifier for TelegramNotifier {
    type Config = Telegram;

    open spec fn takes(config: &Telegram, notification: &Notification) -> bool {
        !config.reminders_only || !notification.changed
    }

    open spec fn spec_name() -> Seq<char> {
        "telegram"@
    }

    fn can_notify(config: &Telegram, notification: &Notification) -> (taken: bool) {
        notification.expected(config.reminders_only)
    }

    fn name() -> (name: &'static str) {
        "telegram"
    }
}

impl TelegramNotifier {
    /// The first line of the message: the sentence that tells the status.
    pub open spec fn spec_headline(notification: Notification) -> Seq<char> {
        notification.status.spec_as_icon()
            + " "@
            + (if notification.startup {
            "Status started up, as: *"@
        } else if notification.changed {
            "Status changed to: *"@
        } else {
            "Status is still: *"@
        })
            + notification.status.spec_as_upper()
            + "*.\n"@
    }

    /// Writes the text that `spec_headline` describes.
    pub fn headline(notification: &Notification) -> (text: String)
        ensures
            text@ == Self::spec_headline(*notification),
    {
        let mut text = String::new();
        text.append(notification.status.as_icon());
        text.append(" ");
        if notification.startup {
            text.append("Status started up, as: *");
        } else if notification.changed {
            text.append("Status changed to: *");
        } else {
            text.append("Status is still: *");
        }
        text.append(notification.status.as_upper());
        text.append("*.\n");
        assert(text@ =~= Self::spec_headline(*notification));
        text
    }

    /// The line of one service and node with `count` dead replicas.
    pub open spec fn spec_node_line(notification: Notification, node: Seq<char>, count: nat) -> Seq<char> {
        "- `"@ + node + "`: "@ + decimal(count) + " "@ + notification.status.spec_as_str()
    }

    /// Writes the text that `spec_node_line` describes.
    pub fn node_line(notification: &Notification, node: &str, count: usize) -> (text: String)
        ensures
            text@ == Self::spec_node_line(*notification, node@, count as nat),
    {
        let mut text = String::new();
        text.append("- `");
        text.append(node);
        text.append("`: ");
        text.append(decimal_string(count as u128).as_str());
        text.append(" ");
        text.append(notification.status.as_str());
        assert(text@ =~= Self::spec_node_line(*notification, node@, count as nat));
        text
    }

    /// The lines of the first `upto` services and nodes of the
    /// notification, one below the other.
    pub open spec fn spec_node_lines(notification: Notification, upto: int) -> Seq<char>
        decreases upto,
    {
        if upto <= 0 {
            Seq::empty()
        } else {
            let paths = notification.replicas@;
            let node = nodes_in_order(paths, paths.len() as int)[upto - 1];
            let line = Self::spec_node_line(notification, node, replicas_under(paths, node, paths.len() as int));
            if upto == 1 {
                line
            } else {
                Self::spec_node_lines(notification, upto - 1) + "\n"@ + line
            }
        }
    }

    /// The text of the message: the headline, a line for each service and
    /// node with dead replicas, in the order in which the notification
    /// first names them, and the link to the page.
    pub open spec fn spec_message(notification: Notification, branding: Branding) -> Seq<char> {
        let paths = notification.replicas@;
        Self::spec_headline(notification) + Self::spec_node_lines(
            notification,
            nodes_in_order(paths, paths.len() as int).len() as int,
        ) + "\nLink: "@ + branding.page_url@
    }

    /// Writes the text that `spec_message` describes.
    pub fn message(notification: &Notification, branding: &Branding) -> (text: String)
        ensures
            text@ == Self::spec_message(*notification, *branding),
    {
        let counts = count_by_node(&notification.replicas);
        let mut text = Self::headline(notification);
        let mut index: usize = 0;
        while index < counts.len()
            invariant
                index <= counts.len(),
                counts@.len() == nodes_in_order(
                    notification.replicas@,
                    notification.replicas@.len() as int,
                ).len(),
                forall|i: int|
                    0 <= i < counts@.len() ==> (#[trigger] counts@[i]).0@ == nodes_in_order(
                        notification.replicas@,
                        notification.replicas@.len() as int,
                    )[i] && counts@[i].1 == replicas_under(
                        notification.replicas@,
                        counts@[i].0@,
                        notification.replicas@.len() as int,
                    ),
                text@ == Self::spec_headline(*notification) + Self::spec_node_lines(
                    *notification,
                    index as int,
                ),
            decreases counts.len() - index,
        {
            if index > 0 {
                text.append("\n");
            }
            let line = Self::node_line(notification, counts[index].0.as_str(), counts[index].1);
            text.append(line.as_str());
            assert(text@ =~= Self::spec_headline(*notification) + Self::spec_node_lines(
                *notification,
                index + 1,
            ));
            index = index + 1;
        }
        text.append("\nLink: ");
        text.append(branding.page_url.as_str());
        text
    }

    /// Whom the message is for: a user where the configured chat is a
    /// number, and a group by its name where it is not.
    pub fn chat_id(telegram: &Telegram) -> (chat: TelegramChatID)
        ensures
            match unsigned_number(telegram.chat_id@) {
                Some(id) => chat == TelegramChatID::User(id),
                None => chat matches TelegramChatID::Group(name) && name == telegram.chat_id,
            },
    {
        match parse_unsigned(telegram.chat_id.as_str()) {
            Some(id) => TelegramChatID::User(id),
            None => TelegramChatID::Group(telegram.chat_id.clone()),
        }
    }

    /// The address that takes messages for the bot.
    pub open spec fn spec_url(telegram: Telegram) -> Seq<char> {
        "https://api.telegram.org/bot"@ + telegram.bot_token@ + "/sendMessage"@
    }

    /// Writes the text that `spec_url` describes.
    pub fn url(telegram: &Telegram) -> (text: String)
        ensures
            text@ == Self::spec_url(*telegram),
    {
        let mut text = String::new();
        text.append("https://api.telegram.org/bot");
        text.append(telegram.bot_token.as_str());
        text.append("/sendMessage");
        assert(text@ =~= Self::spec_url(*telegram));
        text
    }
}

} // verus!
