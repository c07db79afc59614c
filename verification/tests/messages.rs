use overvakt::config::notify::{Gotify, Matrix, Slack, Telegram, WebEx, Zulip};
use overvakt::config::Branding;
use overvakt::notifier::email::EmailNotifier;
use overvakt::notifier::generic::Notification;
use overvakt::notifier::gotify::GotifyNotifier;
use overvakt::notifier::matrix::{
    MatrixNotifier, MATRIX_MESSAGE_BODY, MATRIX_MESSAGE_FORMAT, MATRIX_MESSAGE_TYPE,
};
use overvakt::notifier::pushover::PushoverNotifier;
use overvakt::notifier::slack::SlackNotifier;
use overvakt::notifier::telegram::{TelegramChatID, TelegramNotifier};
use overvakt::notifier::twilio::{TwilioNotifier, TEXT_MESSAGE_MAXIMUM_LENGTH};
use overvakt::notifier::webex::WebExNotifier;
use overvakt::notifier::webhook::{WebHookNotifier, WebHookPayloadType};
use overvakt::notifier::xmpp::XMPPNotifier;
use overvakt::notifier::zulip::{ZulipNotifier, ZULIP_MESSAGE_TOPIC, ZULIP_MESSAGE_TYPE};
use overvakt::prober::probe::user_agent;
use overvakt::prober::status::Status;

fn branding() -> Branding {
    Branding { page_title: "Acme Status".to_string(), page_url: "https://status.acme.org/".to_string() }
}

fn notification(status: Status, replicas: &[&str], changed: bool, startup: bool) -> Notification {
    Notification {
        status,
        time: "10:00:00 UTC+00:00".to_string(),
        replicas: replicas.iter().map(|path| path.to_string()).collect(),
        changed,
        startup,
    }
}

fn dead() -> Notification {
    notification(Status::Dead, &["web:api:http://a", "web:api:http://b", "db:main:0"], true, false)
}

fn reminder() -> Notification {
    notification(Status::Dead, &["web:api:http://b"], false, false)
}

fn startup() -> Notification {
    notification(Status::Healthy, &[], true, true)
}

#[test]
fn status_labels() {
    assert_eq!(Status::Healthy.label(), "Healthy");
    assert_eq!(Status::Sick.label(), "Sick");
    assert_eq!(Status::Dead.label(), "Dead");
    assert_eq!(Status::Healthy.as_upper(), "HEALTHY");
    assert_eq!(Status::Sick.as_upper(), "SICK");
    assert_eq!(Status::Dead.as_upper(), "DEAD");
}

#[test]
fn email_message_and_subject() {
    assert_eq!(
        EmailNotifier::message(&dead(), &branding()),
        "Status change report from: Acme Status\n\n--\nStatus: Dead\nNodes: web:api:http://a, web:api:http://b, db:main:0\nTime: 10:00:00 UTC+00:00\nURL: https://status.acme.org/\n--\n\nTo unsubscribe, please edit your status page configuration."
    );
    assert!(EmailNotifier::message(&reminder(), &branding())
        .starts_with("Status unchanged reminder from: Acme Status\n\n--\nStatus: Dead\n"));
    assert!(EmailNotifier::message(&startup(), &branding())
        .starts_with("Status startup alert from: Acme Status\n\n--\nStatus: Healthy\nNodes: \nTime: "));
    assert_eq!(EmailNotifier::subject(&dead()), "DEAD | web:api:http://a, web:api:http://b, db:main:0");
    assert_eq!(EmailNotifier::subject(&startup()), "HEALTHY | ");
    assert_eq!(EmailNotifier::relay_address("smtp.acme.org", 587), "smtp.acme.org:587");
    assert_eq!(EmailNotifier::relay_address("localhost", 0), "localhost:0");
}

#[test]
fn gotify_message_url_and_priority() {
    assert_eq!(
        GotifyNotifier::message(&dead()),
        "Status: DEAD\nNodes:\nweb:api:http://a\nweb:api:http://b\ndb:main:0\nTime: 10:00:00 UTC+00:00"
    );
    assert_eq!(
        GotifyNotifier::message(&reminder()),
        "This is a reminder.\n\nStatus: DEAD\nNodes:\nweb:api:http://b\nTime: 10:00:00 UTC+00:00"
    );
    assert_eq!(
        GotifyNotifier::message(&startup()),
        "This is a startup alert.\n\nStatus: HEALTHY\nNodes:\n\nTime: 10:00:00 UTC+00:00"
    );
    let gotify = Gotify {
        app_url: "https://gotify.acme.org/".to_string(),
        app_token: "abc".to_string(),
        reminders_only: false,
    };
    assert_eq!(GotifyNotifier::url(&gotify), "https://gotify.acme.org/message?token=abc");
    assert_eq!(GotifyNotifier::priority(&dead()), None);
    assert_eq!(GotifyNotifier::priority(&reminder()), Some("10"));
}

#[test]
fn matrix_message() {
    assert_eq!(
        MatrixNotifier::format_status(&dead()),
        "<p>\u{274c} Status changed to: <em>DEAD</em>.</p>"
    );
    assert_eq!(
        MatrixNotifier::format_status(&reminder()),
        "<p>\u{274c} Status is still: <em>DEAD</em>.</p>"
    );
    assert_eq!(
        MatrixNotifier::format_status(&startup()),
        "<p>\u{2705} Status started up, as: <em>HEALTHY</em>.</p>"
    );
    assert_eq!(
        MatrixNotifier::format_replicas(&dead()),
        "<ul><li><code>web:api</code>: 2 dead</li><li><code>db:main</code>: 1 dead</li></ul>"
    );
    assert_eq!(MatrixNotifier::format_replicas(&startup()), "");
    assert_eq!(
        MatrixNotifier::format_status_page(&branding()),
        "<p>Status page: https://status.acme.org/</p>"
    );
    assert_eq!(MatrixNotifier::format_time(&dead()), "<p>Time: 10:00:00 UTC+00:00</p>");
    assert_eq!(
        MatrixNotifier::format_message(&dead(), &branding()),
        "<p>\u{274c} Status changed to: <em>DEAD</em>.</p><ul><li><code>web:api</code>: 2 dead</li><li><code>db:main</code>: 1 dead</li></ul><p>Status page: https://status.acme.org/</p><p>Time: 10:00:00 UTC+00:00</p>"
    );
    let matrix = Matrix {
        homeserver_url: "https://matrix.acme.org/".to_string(),
        access_token: "abc".to_string(),
        room_id: "!room:acme.org".to_string(),
        reminders_only: false,
    };
    assert_eq!(
        MatrixNotifier::url(&matrix),
        "https://matrix.acme.org/_matrix/client/r0/rooms/!room:acme.org/send/m.room.message?access_token=abc"
    );
    assert_eq!(MATRIX_MESSAGE_BODY, "You received a \u{d6}vervakt alert.");
    assert_eq!(MATRIX_MESSAGE_TYPE, "m.text");
    assert_eq!(MATRIX_MESSAGE_FORMAT, "org.matrix.custom.html");
}

#[test]
fn pushover_message() {
    assert_eq!(PushoverNotifier::status_to_color(&Status::Healthy), "#54A158");
    assert_eq!(PushoverNotifier::status_to_color(&Status::Sick), "#D5A048");
    assert_eq!(PushoverNotifier::status_to_color(&Status::Dead), "#C4291C");
    assert_eq!(
        PushoverNotifier::message(&dead()),
        "<u>Status:</u> <b><font color=\"#C4291C\">DEAD</font></b>\n<u>Nodes:</u> web:api:http://a, web:api:http://b, db:main:0\n<u>Time:</u> 10:00:00 UTC+00:00"
    );
    assert!(PushoverNotifier::message(&reminder())
        .starts_with("<b><i>This is a reminder.</i></b>\n\n<u>Status:</u> "));
    assert!(PushoverNotifier::message(&startup())
        .starts_with("<b><i>This is a startup alert.</i></b>\n\n<u>Status:</u> <b><font color=\"#54A158\">HEALTHY"));
    assert_eq!(PushoverNotifier::url_title(&branding()), "Details on Acme Status");
    assert_eq!(PushoverNotifier::priority(&dead()), None);
    assert_eq!(PushoverNotifier::priority(&reminder()), Some("1"));
}

#[test]
fn slack_message() {
    assert_eq!(SlackNotifier::status_to_color(&Status::Healthy), "good");
    assert_eq!(SlackNotifier::status_to_color(&Status::Sick), "warning");
    assert_eq!(SlackNotifier::status_to_color(&Status::Dead), "danger");
    let mut slack =
        Slack { hook_url: "https://hooks.acme.org/x".to_string(), mention_channel: false, reminders_only: false };
    assert_eq!(SlackNotifier::message_text(&dead()), "Status changed to: *dead*.");
    assert_eq!(SlackNotifier::message_text(&reminder()), "Status is still: *dead*.");
    assert_eq!(SlackNotifier::message_text(&startup()), "Status started up, as: *healthy*.");
    assert_eq!(
        SlackNotifier::text(&slack, &dead()),
        "Status changed to: *dead*. Nodes: *web:api:http://a, web:api:http://b, db:main:0*."
    );
    assert_eq!(SlackNotifier::fallback(&dead()), SlackNotifier::text(&slack, &dead()));
    assert_eq!(SlackNotifier::fallback(&startup()), "Status started up, as: *healthy*.");
    slack.mention_channel = true;
    assert_eq!(
        SlackNotifier::text(&slack, &reminder()),
        "<!channel> Status is still: *dead*. Nodes: *web:api:http://b*."
    );
    assert_eq!(SlackNotifier::text(&slack, &startup()), "<!channel> Status started up, as: *healthy*.");
}

#[test]
fn telegram_message() {
    assert_eq!(
        TelegramNotifier::message(&dead(), &branding()),
        "\u{274c} Status changed to: *DEAD*.\n- `web:api`: 2 dead\n- `db:main`: 1 dead\nLink: https://status.acme.org/"
    );
    assert_eq!(
        TelegramNotifier::message(&startup(), &branding()),
        "\u{2705} Status started up, as: *HEALTHY*.\n\nLink: https://status.acme.org/"
    );
    assert_eq!(
        TelegramNotifier::message(&notification(Status::Sick, &["a:b:c"], false, false), &branding()),
        "\u{26a0} Status is still: *SICK*.\n- `a:b`: 1 sick\nLink: https://status.acme.org/"
    );
    let mut telegram =
        Telegram { bot_token: "123:abc".to_string(), chat_id: "987654".to_string(), reminders_only: false };
    assert_eq!(TelegramNotifier::url(&telegram), "https://api.telegram.org/bot123:abc/sendMessage");
    assert!(matches!(TelegramNotifier::chat_id(&telegram), TelegramChatID::User(987654)));
    telegram.chat_id = "@acme_status".to_string();
    assert!(matches!(TelegramNotifier::chat_id(&telegram), TelegramChatID::Group(name) if name == "@acme_status"));
    telegram.chat_id = "-100123".to_string();
    assert!(matches!(TelegramNotifier::chat_id(&telegram), TelegramChatID::Group(name) if name == "-100123"));
}

#[test]
fn twilio_message() {
    assert_eq!(
        TwilioNotifier::message(&dead(), &branding()),
        "Acme Status\n\nStatus: Dead\nNodes: web:api:http://a, web:api:http://b, db:main:0\nTime: 10:00:00 UTC+00:00\n"
    );
    assert!(TwilioNotifier::message(&reminder(), &branding()).starts_with("Reminder for: Acme Status\n\n"));
    assert!(TwilioNotifier::message(&startup(), &branding()).starts_with("Startup alert for: Acme Status\n\n"));
    assert_eq!(
        TwilioNotifier::generate_api_url("AC123"),
        "https://api.twilio.com/2010-04-01/Accounts/AC123/Messages.json"
    );
}

#[test]
fn twilio_trims_long_messages() {
    assert_eq!(TEXT_MESSAGE_MAXIMUM_LENGTH, 1000);
    let short = "a".repeat(1000);
    assert_eq!(TwilioNotifier::trim(short.clone()), short);
    assert_eq!(TwilioNotifier::trim(String::new()), "");
    let long = "a".repeat(1001);
    let trimmed = TwilioNotifier::trim(long);
    assert_eq!(trimmed.len(), 1000);
    assert_eq!(trimmed, format!("{}[..]", "a".repeat(996)));
    // A character of two bytes that would be split is left out as a whole.
    let long = format!("{}\u{e9}{}", "a".repeat(995), "b".repeat(100));
    assert_eq!(TwilioNotifier::trim(long), format!("{}[..]", "a".repeat(995)));
    let long = format!("{}\u{e9}{}", "a".repeat(994), "b".repeat(100));
    assert_eq!(TwilioNotifier::trim(long), format!("{}\u{e9}[..]", "a".repeat(994)));
}

#[test]
fn webex_message() {
    assert_eq!(
        WebExNotifier::message(&dead(), &branding()),
        "Status change report from: Acme Status\nStatus: Dead\nNodes: web:api:http://a, web:api:http://b, db:main:0\nTime: 10:00:00 UTC+00:00\nURL: https://status.acme.org/"
    );
    assert!(WebExNotifier::message(&reminder(), &branding()).starts_with("Status unchanged reminder from: "));
    assert!(WebExNotifier::message(&startup(), &branding()).starts_with("Status startup alert from: "));
    let webex = WebEx {
        endpoint_url: "https://webex.acme.org/".to_string(),
        token: "abc".to_string(),
        room_id: "room".to_string(),
        reminders_only: false,
    };
    assert_eq!(WebExNotifier::authorization(&webex), "Bearer abc");
}

#[test]
fn webhook_payload_type() {
    assert_eq!(WebHookNotifier::payload_type(&startup()), WebHookPayloadType::Startup);
    assert_eq!(WebHookNotifier::payload_type(&dead()), WebHookPayloadType::Changed);
    assert_eq!(WebHookNotifier::payload_type(&reminder()), WebHookPayloadType::Reminder);
    assert_eq!(WebHookPayloadType::Startup.as_str(), "startup");
    assert_eq!(WebHookPayloadType::Changed.as_str(), "changed");
    assert_eq!(WebHookPayloadType::Reminder.as_str(), "reminder");
}

#[test]
fn xmpp_message() {
    assert_eq!(
        XMPPNotifier::message(&dead(), &branding()),
        "Acme Status\n\nStatus: Dead\nNodes: web:api:http://a, web:api:http://b, db:main:0\nTime: 10:00:00 UTC+00:00\nURL: https://status.acme.org/"
    );
    assert!(XMPPNotifier::message(&reminder(), &branding()).starts_with("Reminder for: Acme Status\n\nStatus: "));
    assert!(XMPPNotifier::message(&startup(), &branding()).starts_with("Startup alert for: Acme Status\n\n"));
    assert_eq!(XMPPNotifier::stanza_id(1700000000), "overvakt-1700000000");
    assert_eq!(XMPPNotifier::stanza_id(0), "overvakt-0");
}

#[test]
fn zulip_message_and_url() {
    assert_eq!(
        ZulipNotifier::message(&dead(), &branding()),
        "Status changed to:  *dead* :boom:.\n **Nodes**: *web:api:http://a, web:api:http://b, db:main:0*.\n **Status**: Dead\n **Time**: 10:00:00 UTC+00:00\n **Page**: https://status.acme.org/"
    );
    assert_eq!(
        ZulipNotifier::message(&startup(), &branding()),
        "Status started up, as:  *healthy* :check_mark:.\n **Status**: Healthy\n **Time**: 10:00:00 UTC+00:00\n **Page**: https://status.acme.org/"
    );
    assert!(ZulipNotifier::message(&notification(Status::Sick, &[], false, false), &branding())
        .starts_with("Status is still:  *sick* :sick:.\n **Status**: Sick\n"));
    let mut zulip = Zulip {
        bot_email: "bot@acme.org".to_string(),
        bot_api_key: "abc".to_string(),
        channel: "status".to_string(),
        api_url: "https://zulip.acme.org/api/v1/".to_string(),
        reminders_only: false,
    };
    assert_eq!(ZulipNotifier::url(&zulip).as_deref(), Some("https://zulip.acme.org/api/v1/messages"));
    zulip.api_url = "https://zulip.acme.org/api/v1".to_string();
    assert_eq!(ZulipNotifier::url(&zulip).as_deref(), Some("https://zulip.acme.org/api/messages"));
    zulip.api_url = "not an address".to_string();
    assert_eq!(ZulipNotifier::url(&zulip), None);
    assert_eq!(ZULIP_MESSAGE_TYPE, "stream");
    assert_eq!(ZULIP_MESSAGE_TOPIC, "\u{d6}vervakt status");
}

#[test]
fn user_agent_names_the_page() {
    assert_eq!(user_agent(&branding()), "vigil (+https://status.acme.org/)");
}
