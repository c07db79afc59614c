use overvakt::aggregator::manager::BumpedStates;
use overvakt::config::notify::{
    Email, Gotify, Matrix, Notify, Pushover, ReminderBackoffFunction, Slack, Telegram, Twilio, WebEx,
    WebHook, Xmpp, Zulip,
};
use overvakt::notifier::email::EmailNotifier;
use overvakt::notifier::generic::{
    configured_channels, Channel, Dispatch, DispatchStep, Notification, Notifier, NotifyRun, NotifyStep,
    DISPATCH_TIMEOUT_SECONDS, DISPATCH_TRY_ATTEMPT_TIMES, DISPATCH_TRY_WAIT_SECONDS,
};
use overvakt::notifier::gotify::GotifyNotifier;
use overvakt::notifier::matrix::MatrixNotifier;
use overvakt::notifier::pushover::PushoverNotifier;
use overvakt::notifier::slack::SlackNotifier;
use overvakt::notifier::telegram::TelegramNotifier;
use overvakt::notifier::twilio::TwilioNotifier;
use overvakt::notifier::webex::WebExNotifier;
use overvakt::notifier::webhook::WebHookNotifier;
use overvakt::notifier::xmpp::XMPPNotifier;
use overvakt::notifier::zulip::ZulipNotifier;
use overvakt::prober::status::Status;

fn notification(changed: bool, startup: bool) -> Notification {
    Notification {
        status: Status::Dead,
        time: "10:00:00 UTC+00:00".to_string(),
        replicas: vec!["web:api:http://b".to_string()],
        changed,
        startup,
    }
}

fn no_channels() -> Notify {
    Notify {
        startup_notification: true,
        reminder_interval: None,
        reminder_backoff_function: ReminderBackoffFunction::Disabled,
        reminder_backoff_limit: 3,
        email: None,
        twilio: None,
        slack: None,
        zulip: None,
        telegram: None,
        pushover: None,
        gotify: None,
        xmpp: None,
        matrix: None,
        webex: None,
        webhook: None,
    }
}

fn email(reminders_only: bool) -> Email {
    Email {
        to: "ops@example.org".to_string(),
        from: "status@example.org".to_string(),
        smtp_host: "localhost".to_string(),
        smtp_port: 587,
        smtp_username: None,
        smtp_password: None,
        smtp_encrypt: true,
        reminders_only,
    }
}

fn slack(reminders_only: bool) -> Slack {
    Slack { hook_url: "https://hooks.example.org/x".to_string(), mention_channel: false, reminders_only }
}

fn telegram(reminders_only: bool) -> Telegram {
    Telegram { bot_token: "token".to_string(), chat_id: "1".to_string(), reminders_only }
}

fn webhook() -> WebHook {
    WebHook { hook_url: "https://hooks.example.org/y".to_string() }
}

fn all_channels() -> Notify {
    let mut notify = no_channels();
    notify.email = Some(email(false));
    notify.twilio = Some(Twilio {
        to: vec!["+100".to_string()],
        service_sid: "s".to_string(),
        account_sid: "a".to_string(),
        auth_token: "token".to_string(),
        reminders_only: false,
    });
    notify.slack = Some(slack(false));
    notify.zulip = Some(Zulip {
        bot_email: "bot@example.org".to_string(),
        bot_api_key: "token".to_string(),
        channel: "status".to_string(),
        api_url: "https://zulip.example.org/api/v1/".to_string(),
        reminders_only: false,
    });
    notify.telegram = Some(telegram(false));
    notify.pushover = Some(Pushover {
        app_token: "token".to_string(),
        user_keys: vec!["u".to_string()],
        reminders_only: false,
    });
    notify.gotify = Some(Gotify {
        app_url: "https://gotify.example.org/".to_string(),
        app_token: "token".to_string(),
        reminders_only: false,
    });
    notify.xmpp = Some(Xmpp {
        to: "ops@example.org".to_string(),
        from: "status@example.org".to_string(),
        xmpp_password: "token".to_string(),
        reminders_only: false,
    });
    notify.matrix = Some(Matrix {
        homeserver_url: "https://matrix.example.org/".to_string(),
        access_token: "token".to_string(),
        room_id: "!room".to_string(),
        reminders_only: false,
    });
    notify.webex = Some(WebEx {
        endpoint_url: "https://webex.example.org/".to_string(),
        token: "token".to_string(),
        room_id: "room".to_string(),
        reminders_only: false,
    });
    notify.webhook = Some(webhook());
    notify
}

#[test]
fn dispatch_constants() {
    assert_eq!(DISPATCH_TRY_WAIT_SECONDS, 2);
    assert_eq!(DISPATCH_TRY_ATTEMPT_TIMES, 3);
    assert_eq!(DISPATCH_TIMEOUT_SECONDS, 10);
}

#[test]
fn expected_unless_reminders_only_and_changed() {
    assert!(notification(true, false).expected(false));
    assert!(notification(false, false).expected(false));
    assert!(notification(false, false).expected(true));
    assert!(!notification(true, false).expected(true));
}

#[test]
fn notification_of_bumped_states() {
    let bumped = BumpedStates {
        status: Status::Dead,
        replicas: vec!["a:b:c".to_string(), "d:e:f".to_string()],
        changed: true,
        startup: false,
    };
    let built = Notification::new(&bumped, 3_723_000_000_000);
    assert_eq!(built.status, Status::Dead);
    assert_eq!(built.time, "01:02:03 UTC+00:00");
    assert_eq!(built.replicas, vec!["a:b:c".to_string(), "d:e:f".to_string()]);
    assert!(built.changed);
    assert!(!built.startup);
}

#[test]
fn channel_names() {
    assert_eq!(EmailNotifier::name(), "email");
    assert_eq!(TwilioNotifier::name(), "twilio");
    assert_eq!(SlackNotifier::name(), "slack");
    assert_eq!(ZulipNotifier::name(), "zulip");
    assert_eq!(TelegramNotifier::name(), "telegram");
    assert_eq!(PushoverNotifier::name(), "pushover");
    assert_eq!(GotifyNotifier::name(), "gotify");
    assert_eq!(MatrixNotifier::name(), "matrix");
    assert_eq!(WebExNotifier::name(), "webex");
    assert_eq!(WebHookNotifier::name(), "webhook");
    assert_eq!(XMPPNotifier::name(), "xmpp");
    assert_eq!(Channel::Email.name(), "email");
    assert_eq!(Channel::WebHook.name(), "webhook");
    assert_eq!(Channel::Xmpp.name(), "xmpp");
}

#[test]
fn channels_for_reminders_only_skip_changes() {
    assert!(EmailNotifier::can_notify(&email(false), &notification(true, false)));
    assert!(!EmailNotifier::can_notify(&email(true), &notification(true, false)));
    assert!(EmailNotifier::can_notify(&email(true), &notification(false, false)));
    assert!(!SlackNotifier::can_notify(&slack(true), &notification(true, true)));
    assert!(TelegramNotifier::can_notify(&telegram(true), &notification(false, false)));
    assert!(WebHookNotifier::can_notify(&webhook(), &notification(true, false)));
    assert!(WebHookNotifier::can_notify(&webhook(), &notification(false, false)));
}

#[test]
fn channel_can_notify_needs_the_channel_configured() {
    let mut notify = no_channels();
    assert!(!Channel::Email.can_notify(&notify, &notification(false, false)));
    assert!(!Channel::WebHook.can_notify(&notify, &notification(false, false)));
    notify.email = Some(email(true));
    notify.webhook = Some(webhook());
    assert!(Channel::Email.can_notify(&notify, &notification(false, false)));
    assert!(!Channel::Email.can_notify(&notify, &notification(true, false)));
    assert!(Channel::WebHook.can_notify(&notify, &notification(true, false)));
    assert!(!Channel::Slack.can_notify(&notify, &notification(false, false)));
}

#[test]
fn configured_channels_come_in_the_order_of_dispatch() {
    assert_eq!(configured_channels(&no_channels()), vec![]);
    assert_eq!(
        configured_channels(&all_channels()),
        vec![
            Channel::Email,
            Channel::Twilio,
            Channel::Slack,
            Channel::Zulip,
            Channel::Telegram,
            Channel::Pushover,
            Channel::Gotify,
            Channel::Matrix,
            Channel::WebEx,
            Channel::WebHook,
            Channel::Xmpp,
        ]
    );
    let mut some = no_channels();
    some.webhook = Some(webhook());
    some.slack = Some(slack(false));
    assert_eq!(configured_channels(&some), vec![Channel::Slack, Channel::WebHook]);
}

#[test]
fn dispatch_tries_three_times_with_a_wait_before_the_second_and_third() {
    let mut dispatch = Dispatch::start(true);
    assert_eq!(dispatch.next(), DispatchStep::Attempt { wait_seconds: 0 });
    dispatch.record(Err("first".to_string()));
    assert_eq!(dispatch.next(), DispatchStep::Attempt { wait_seconds: 2 });
    dispatch.record(Err("second".to_string()));
    assert_eq!(dispatch.next(), DispatchStep::Attempt { wait_seconds: 2 });
    dispatch.record(Err("third".to_string()));
    assert_eq!(dispatch.next(), DispatchStep::Done);
    dispatch.record(Err("ignored".to_string()));
    let error = dispatch.finish("slack").err().unwrap();
    assert_eq!(error.name, "slack");
    assert_eq!(error.errors, vec!["first".to_string(), "second".to_string(), "third".to_string()]);
}

#[test]
fn dispatch_ends_at_the_first_success() {
    let mut dispatch = Dispatch::start(true);
    dispatch.record(Err("first".to_string()));
    dispatch.record(Ok(()));
    assert_eq!(dispatch.next(), DispatchStep::Done);
    assert!(dispatch.finish("email").is_ok());
}

#[test]
fn dispatch_to_a_channel_starts_by_asking_the_channel() {
    let skipped = Notification::dispatch::<EmailNotifier>(&email(true), &notification(true, false));
    assert!(!skipped.can_notify);
    assert_eq!(skipped.next(), DispatchStep::Done);
    assert!(skipped.finish(EmailNotifier::name()).is_ok());
    let taken = Notification::dispatch::<EmailNotifier>(&email(true), &notification(false, false));
    assert!(taken.can_notify);
    assert_eq!(taken.next(), DispatchStep::Attempt { wait_seconds: 0 });
    let always = Notification::dispatch::<WebHookNotifier>(&webhook(), &notification(true, false));
    assert!(always.can_notify);
}

#[test]
fn dispatch_of_a_skipped_channel_is_done_and_well() {
    let dispatch = Dispatch::start(false);
    assert_eq!(dispatch.next(), DispatchStep::Done);
    assert!(dispatch.finish("email").is_ok());
}

#[test]
fn notify_run_goes_through_the_taking_channels_in_order() {
    let mut notify = no_channels();
    notify.email = Some(email(true));
    notify.slack = Some(slack(false));
    notify.webhook = Some(webhook());
    // A change: the email channel, for reminders only, is skipped.
    let mut run = NotifyRun::start(&notify, &notification(true, false));
    assert_eq!(run.next(), NotifyStep::Attempt { channel: Channel::Slack, wait_seconds: 0 });
    run.record(Ok(()));
    assert_eq!(run.next(), NotifyStep::Attempt { channel: Channel::WebHook, wait_seconds: 0 });
    run.record(Ok(()));
    assert_eq!(run.next(), NotifyStep::Done);
    assert!(run.finish().is_ok());
    // A reminder goes through all three.
    let run = NotifyRun::start(&notify, &notification(false, false));
    assert_eq!(run.next(), NotifyStep::Attempt { channel: Channel::Email, wait_seconds: 0 });
}

#[test]
fn notify_run_failure_of_one_channel_does_not_block_the_others() {
    let mut notify = no_channels();
    notify.slack = Some(slack(false));
    notify.telegram = Some(telegram(false));
    notify.webhook = Some(webhook());
    let mut run = NotifyRun::start(&notify, &notification(true, false));
    let mut waits = Vec::new();
    let mut attempts = Vec::new();
    while let NotifyStep::Attempt { channel, wait_seconds } = run.next() {
        waits.push(wait_seconds);
        attempts.push(channel);
        match channel {
            Channel::Telegram => run.record(Ok(())),
            other => run.record(Err(format!("{} is down", other.name()))),
        }
        assert!(attempts.len() < 100);
    }
    assert_eq!(
        attempts,
        vec![
            Channel::Slack,
            Channel::Slack,
            Channel::Slack,
            Channel::Telegram,
            Channel::WebHook,
            Channel::WebHook,
            Channel::WebHook,
        ]
    );
    assert_eq!(waits, vec![0, 2, 2, 0, 0, 2, 2]);
    // One channel has delivered: the notification has not failed.
    assert!(run.finish().is_ok());
}

#[test]
fn notify_run_fails_where_every_configured_channel_fails() {
    let mut notify = no_channels();
    notify.slack = Some(slack(false));
    notify.webhook = Some(webhook());
    let mut run = NotifyRun::start(&notify, &notification(true, false));
    let mut attempts = 0;
    while let NotifyStep::Attempt { channel, wait_seconds: _ } = run.next() {
        attempts += 1;
        run.record(Err(format!("{} is down", channel.name())));
        assert!(attempts < 100);
    }
    assert_eq!(attempts, 6);
    let errors = run.finish().err().unwrap();
    assert_eq!(errors.len(), 2);
    assert_eq!(errors[0].name, "slack");
    assert_eq!(errors[0].errors, vec!["slack is down".to_string(); 3]);
    assert_eq!(errors[1].name, "webhook");
    assert_eq!(errors[1].errors.len(), 3);
}

#[test]
fn notify_run_with_a_skipped_channel_has_not_failed() {
    let mut notify = no_channels();
    notify.email = Some(email(true));
    notify.slack = Some(slack(false));
    // A change: the email channel is skipped, and the only channel tried fails.
    let mut run = NotifyRun::start(&notify, &notification(true, false));
    let mut attempts = 0;
    while let NotifyStep::Attempt { channel, wait_seconds: _ } = run.next() {
        assert_eq!(channel, Channel::Slack);
        attempts += 1;
        run.record(Err("down".to_string()));
        assert!(attempts < 100);
    }
    assert_eq!(attempts, 3);
    assert!(run.finish().is_ok());
}

#[test]
fn notify_run_succeeds_after_a_retry() {
    let mut notify = no_channels();
    notify.webhook = Some(webhook());
    let mut run = NotifyRun::start(&notify, &notification(false, false));
    run.record(Err("timeout".to_string()));
    assert_eq!(run.next(), NotifyStep::Attempt { channel: Channel::WebHook, wait_seconds: 2 });
    run.record(Err("timeout".to_string()));
    assert_eq!(run.next(), NotifyStep::Attempt { channel: Channel::WebHook, wait_seconds: 2 });
    run.record(Ok(()));
    assert_eq!(run.next(), NotifyStep::Done);
    run.record(Err("late".to_string()));
    assert!(run.finish().is_ok());
}

#[test]
fn notify_run_without_channels_is_done_and_well() {
    let run = NotifyRun::start(&no_channels(), &notification(true, false));
    assert_eq!(run.next(), NotifyStep::Done);
    assert!(run.finish().is_ok());
}
