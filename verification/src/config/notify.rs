//! When to notify, and the channels to notify through.

use vstd::prelude::*;

verus! {

/// The notification settings. A channel that is not configured is `None`.
pub struct Notify {
    /// Whether a notification goes out when the aggregator starts.
    pub startup_notification: bool,
    /// Seconds between two reminders of a lasting outage; no reminders
    /// where it is `None`.
    pub reminder_interval: Option<u64>,
    /// How the reminder interval grows with each reminder sent.
    pub reminder_backoff_function: ReminderBackoffFunction,
    /// The value at which the backoff counter stops growing.
    pub reminder_backoff_limit: u16,
    pub email: Option<Email>,
    pub twilio: Option<Twilio>,
    pub slack: Option<Slack>,
    pub zulip: Option<Zulip>,
    pub telegram: Option<Telegram>,
    pub pushover: Option<Pushover>,
    pub gotify: Option<Gotify>,
    pub xmpp: Option<Xmpp>,
    pub matrix: Option<Matrix>,
    pub webex: Option<WebEx>,
    pub webhook: Option<WebHook>,
}

/// The power of the backoff counter by which the reminder interval is
/// multiplied.
#[derive(Clone, Copy, Debug, PartialEq, Eq, Structural)]
pub enum ReminderBackoffFunction {
    /// No backoff: every reminder comes after the same interval.
    Disabled,
    Linear,
    Square,
    Cubic,
}

impl ReminderBackoffFunction {
    /// The exponent: 0 for `Disabled`, 1 for `Linear`, 2 for `Square`, 3 for
    /// `Cubic`.
    pub open spec fn spec_exponent(self) -> nat {
        match self {
            ReminderBackoffFunction::Disabled => 0,
            ReminderBackoffFunction::Linear => 1,
            ReminderBackoffFunction::Square => 2,
            ReminderBackoffFunction::Cubic => 3,
        }
    }

    /// The exponent as a number.
    pub fn exponent(self) -> (e: u32)
        ensures
            e == self.spec_exponent(),
    {
        match self {
            ReminderBackoffFunction::Disabled => 0,
            ReminderBackoffFunction::Linear => 1,
            ReminderBackoffFunction::Square => 2,
            ReminderBackoffFunction::Cubic => 3,
        }
    }
}

impl Default for ReminderBackoffFunction {
    fn default() -> (function: Self)
        ensures
            function == ReminderBackoffFunction::Disabled,
    {
        ReminderBackoffFunction::Disabled
    }
}

/// The settings of the mail channel.
pub struct Email {
    pub to: String,
    pub from: String,
    pub smtp_host: String,
    pub smtp_port: u16,
    pub smtp_username: Option<String>,
    pub smtp_password: Option<String>,
    pub smtp_encrypt: bool,
    pub reminders_only: bool,
}

/// The settings of the Twilio channel.
pub struct Twilio {
    pub to: Vec<String>,
    pub service_sid: String,
    pub account_sid: String,
    pub auth_token: String,
    pub reminders_only: bool,
}

/// The settings of the Slack channel.
pub struct Slack {
    pub hook_url: String,
    pub mention_channel: bool,
    pub reminders_only: bool,
}

/// The settings of the Zulip channel.
pub struct Zulip {
    pub bot_email: String,
    pub bot_api_key: String,
    pub channel: String,
    pub api_url: String,
    pub reminders_only: bool,
}

/// The settings of the Telegram channel.
pub struct Telegram {
    pub bot_token: String,
    pub chat_id: String,
    pub reminders_only: bool,
}

/// The settings of the Pushover channel.
pub struct Pushover {
    pub app_token: String,
    pub user_keys: Vec<String>,
    pub reminders_only: bool,
}

/// The settings of the Gotify channel.
pub struct Gotify {
    pub app_url: String,
    pub app_token: String,
    pub reminders_only: bool,
}

/// The settings of the XMPP channel.
pub struct Xmpp {
    pub to: String,
    pub from: String,
    pub xmpp_password: String,
    pub reminders_only: bool,
}

/// The settings of the Matrix channel.
pub struct Matrix {
    pub homeserver_url: String,
    pub access_token: String,
    pub room_id: String,
    pub reminders_only: bool,
}

/// The settings of the Webex channel.
pub struct WebEx {
    pub endpoint_url: String,
    pub token: String,
    pub room_id: String,
    pub reminders_only: bool,
}

/// The settings of the web hook channel.
pub struct WebHook {
    pub hook_url: String,
}

} // verus!
