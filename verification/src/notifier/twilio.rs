//! The Twilio channel.

use vstd::prelude::*;
use vstd::string::StringExecFns;

use crate::config::notify::Twilio;
use crate::config::Branding;
use crate::notifier::generic::{Notification, Notifier};
use crate::text::{join, joined};
use vstd::string::StringSliceAdditionalSpecFns;
use vstd::utf8::{decode_utf8, encode_utf8, is_char_boundary, valid_utf8};

verus! {

/// The Twilio channel.
pub struct TwilioNotifier;

/// The mark at the end of a message that was cut.
pub const TEXT_MESSAGE_TRUNCATED_INDICATOR: &'static str = "[..]";

/// The bytes that a message may have.
pub const TEXT_MESSAGE_MAXIMUM_LENGTH: usize = 1000;

impl Notifier for TwilioNotifier {
    type Config = Twilio;

    open spec fn takes(config: &Twilio, notification: &Notification) -> bool {
        !config.reminders_only || !notification.changed
    }

    open spec fn spec_name() -> Seq<char> {
        "twilio"@
    }

    fn can_notify(config: &Twilio, notification: &Notification) -> (taken: bool) {
        notification.expected(config.reminders_only)
    }

    fn name() -> (name: &'static str) {
        "twilio"
    }
}

impl TwilioNotifier {
    /// The text of the message before it is cut to length: what kind of
    /// notification it is and from which page, then the status, the dead
    /// replicas and the time.
    pub open spec fn spec_message(notification: Notification, branding: Branding) -> Seq<char> {
        (if notification.startup {
            "Startup alert for: "@
        } else if !notification.changed {
            "Reminder for: "@
        } else {
            Seq::<char>::empty()
        })
            + branding.page_title@
            + "\n\nStatus: "@
            + notification.status.spec_label()
            + "\nNodes: "@
            + joined(notification.replicas@, ", "@)
            + "\nTime: "@
            + notification.time@
            + "\n"@
    }

    /// Writes the text that `spec_message` describes.
    pub fn message(notification: &Notification, branding: &Branding) -> (text: String)
        ensures
            text@ == Self::spec_message(*notification, *branding),
    {
        let mut text = String::new();
        if notification.startup {
            text.append("Startup alert for: ");
        } else if !notification.changed {
            text.append("Reminder for: ");
        }
        text.append(branding.page_title.as_str());
        text.append("\n\nStatus: ");
        text.append(notification.status.label());
        text.append("\nNodes: ");
        text.append(join(&notification.replicas, ", ").as_str());
        text.append("\nTime: ");
        text.append(notification.time.as_str());
        text.append("\n");
        assert(text@ =~= Self::spec_message(*notification, *branding));
        text
    }

    /// The address that takes messages for the account.
    pub open spec fn spec_generate_api_url(account_sid: Seq<char>) -> Seq<char> {
        "https://api.twilio.com/2010-04-01/Accounts/"@ + account_sid + "/Messages.json"@
    }

    /// Writes the text that `spec_generate_api_url` describes.
    pub fn generate_api_url(account_sid: &str) -> (text: String)
        ensures
            text@ == Self::spec_generate_api_url(account_sid@),
    {
        let mut text = String::new();
        text.append("https://api.twilio.com/2010-04-01/Accounts/");
        text.append(account_sid);
        text.append("/Messages.json");
        assert(text@ =~= Self::spec_generate_api_url(account_sid@));
        text
    }

    /// Where a message is cut: at the last character boundary that is not
    /// past `limit` bytes.
    pub open spec fn cut_position(bytes: Seq<u8>, limit: int) -> int
        decreases limit,
    {
        if limit <= 0 {
            0
        } else if is_char_boundary(bytes, limit) {
            limit
        } else {
            Self::cut_position(bytes, limit - 1)
        }
    }

    /// A message cut to length: one of more than 1000 bytes keeps what fits
    /// into 996 bytes without splitting a character, and ends in a mark
    /// that shows it was cut.
    pub open spec fn spec_trim(message: Seq<char>) -> Seq<char> {
        let bytes = encode_utf8(message);
        if bytes.len() > TEXT_MESSAGE_MAXIMUM_LENGTH {
            decode_utf8(bytes.subrange(0, Self::cut_position(bytes, TEXT_MESSAGE_MAXIMUM_LENGTH - 4)))
                + "[..]"@
        } else {
            message
        }
    }

    /// Cuts a message to the length that a text message may have.
    pub fn trim(message: String) -> (text: String)
        ensures
            text@ == Self::spec_trim(message@),
    {
        broadcast use vstd::utf8::encode_utf8_valid_utf8;
        broadcast use vstd::utf8::encode_utf8_decode_utf8;
        broadcast use vstd::utf8::is_char_boundary_start_end_of_seq;

        if message.as_str().as_bytes().len() > TEXT_MESSAGE_MAXIMUM_LENGTH {
            let whole = message.as_str();
            let mut cut: usize = TEXT_MESSAGE_MAXIMUM_LENGTH - 4;
            while !whole.is_char_boundary(cut)
                invariant
                    whole@ == message@,
                    valid_utf8(whole.spec_bytes()),
                    is_char_boundary(whole.spec_bytes(), 0),
                    cut <= TEXT_MESSAGE_MAXIMUM_LENGTH - 4,
                    Self::cut_position(whole.spec_bytes(), cut as int) == Self::cut_position(
                        whole.spec_bytes(),
                        TEXT_MESSAGE_MAXIMUM_LENGTH - 4,
                    ),
                decreases cut,
            {
                cut = cut - 1;
            }
            let parts = whole.split_at(cut);
            let mut text = parts.0.to_owned();
            text.append(TEXT_MESSAGE_TRUNCATED_INDICATOR);
            proof {
                assert(Self::cut_position(encode_utf8(message@), cut as int) == cut);
                assert(decode_utf8(encode_utf8(parts.0@)) == parts.0@);
            }
            text
        } else {
            message
        }
    }
}

} // verus!
