//! The notification, and the rules of its dispatch: which channels take it,
//! how often a channel is tried, and when the dispatch has failed.

use vstd::prelude::*;

use crate::aggregator::manager::{time_as_string, time_text, BumpedStates};
use crate::config::notify::Notify;
use crate::notifier::email::EmailNotifier;
use crate::notifier::gotify::GotifyNotifier;
use crate::notifier::matrix::MatrixNotifier;
use crate::notifier::pushover::PushoverNotifier;
use crate::notifier::slack::SlackNotifier;
use crate::notifier::telegram::TelegramNotifier;
use crate::notifier::twilio::TwilioNotifier;
use crate::notifier::webex::WebExNotifier;
use crate::notifier::webhook::WebHookNotifier;
use crate::notifier::xmpp::XMPPNotifier;
use crate::notifier::zulip::ZulipNotifier;
use crate::prober::status::Status;

verus! {

/// The seconds to wait before a channel is tried again.
pub const DISPATCH_TRY_WAIT_SECONDS: u64 = 2;

/// How often a channel is tried at most.
pub const DISPATCH_TRY_ATTEMPT_TIMES: u8 = 3;

/// The seconds after which an attempt is given up.
pub const DISPATCH_TIMEOUT_SECONDS: u64 = 10;

/// What the channels are told.
#[derive(Debug)]
pub struct Notification {
    pub status: Status,
    /// The time of the notification, as text.
    pub time: String,
    /// The paths of the dead replicas.
    pub replicas: Vec<String>,
    /// Whether the status changed; a notification of an unchanged status is
    /// a reminder.
    pub changed: bool,
    /// Whether this is the notification sent when the aggregator starts.
    pub startup: bool,
}

impl Notification {
    /// Whether a channel takes this notification: a channel for reminders
    /// only takes none that tells of a change.
    pub fn expected(&self, reminders_only: bool) -> (taken: bool)
        ensures
            taken == (!reminders_only || !self.changed),
    {
        !reminders_only || !self.changed
    }

    /// The dispatch of a notification to one channel, before the first
    /// attempt: the channel is tried where it takes the notification, and
    /// is done with at once where it does not.
    pub fn dispatch<N: Notifier>(notify: &N::Config, notification: &Notification) -> (dispatch: Dispatch)
        ensures
            dispatch.can_notify == N::takes(notify, notification),
            !dispatch.delivered,
            dispatch.errors@.len() == 0,
    {
        Dispatch::start(N::can_notify(notify, notification))
    }

    /// The notification of what a pass found, sent at the time `now`.
    pub fn new(bumped_states: &BumpedStates, now: u128) -> (notification: Notification)
        ensures
            notification.status == bumped_states.status,
            notification.time@ == time_text(now),
            notification.replicas@ == bumped_states.replicas@,
            notification.changed == bumped_states.changed,
            notification.startup == bumped_states.startup,
    {
        let mut replicas: Vec<String> = Vec::new();
        let mut index: usize = 0;
        while index < bumped_states.replicas.len()
            invariant
                index <= bumped_states.replicas.len(),
                replicas@ == bumped_states.replicas@.take(index as int),
            decreases bumped_states.replicas.len() - index,
        {
            replicas.push(bumped_states.replicas[index].clone());
            assert(replicas@ =~= bumped_states.replicas@.take(index + 1));
            index = index + 1;
        }
        assert(bumped_states.replicas@.take(index as int) =~= bumped_states.replicas@);
        Notification {
            status: bumped_states.status,
            time: time_as_string(now),
            replicas,
            changed: bumped_states.changed,
            startup: bumped_states.startup,
        }
    }
}

/// A channel through which notifications go out.
pub trait Notifier {
    /// The settings of the channel.
    type Config;

    /// Whether the channel, with these settings, takes the notification.
    spec fn takes(config: &Self::Config, notification: &Notification) -> bool;

    /// The name of the channel.
    spec fn spec_name() -> Seq<char>;

    fn can_notify(config: &Self::Config, notification: &Notification) -> (taken: bool)
        ensures
            taken == Self::takes(config, notification),
    ;

    fn name() -> (name: &'static str)
        ensures
            name@ == Self::spec_name(),
    ;
}

/// The failure of one channel: its name, and what went wrong at each
/// attempt.
#[derive(Debug)]
pub struct Error {
    pub name: &'static str,
    pub errors: Vec<String>,
}

/// What is to be done next in the dispatch to one channel.
#[derive(Clone, Copy, Debug, PartialEq, Eq, Structural)]
pub enum DispatchStep {
    /// Wait for so many seconds, then attempt to deliver.
    Attempt { wait_seconds: u64 },
    /// Nothing more: the channel was skipped, has delivered, or has failed
    /// for good.
    Done,
}

/// The dispatch of a notification to one channel.
pub struct Dispatch {
    /// Whether the channel takes the notification at all.
    pub can_notify: bool,
    /// Whether an attempt has succeeded.
    pub delivered: bool,
    /// What went wrong at each failed attempt.
    pub errors: Vec<String>,
}

impl Dispatch {
    /// Whether another attempt is to be made: the channel takes the
    /// notification, has not delivered, and has been tried less than three
    /// times.
    pub open spec fn wants_attempt(self) -> bool {
        self.can_notify && !self.delivered && self.errors@.len() < DISPATCH_TRY_ATTEMPT_TIMES
    }

    /// The next step: an attempt where one is wanted, at once for the first
    /// and after the wait for the others.
    pub open spec fn spec_next(self) -> DispatchStep {
        if self.wants_attempt() {
            DispatchStep::Attempt {
                wait_seconds: if self.errors@.len() == 0 {
                    0
                } else {
                    DISPATCH_TRY_WAIT_SECONDS
                },
            }
        } else {
            DispatchStep::Done
        }
    }

    /// Whether the dispatch has failed: the channel takes the notification
    /// and has not delivered.
    pub open spec fn has_failed(self) -> bool {
        self.can_notify && !self.delivered
    }

    /// The dispatch before the first attempt.
    pub fn start(can_notify: bool) -> (dispatch: Dispatch)
        ensures
            dispatch.can_notify == can_notify,
            !dispatch.delivered,
            dispatch.errors@.len() == 0,
    {
        Dispatch { can_notify, delivered: false, errors: Vec::new() }
    }

    /// Says what is to be done next.
    pub fn next(&self) -> (step: DispatchStep)
        ensures
            step == self.spec_next(),
    {
        if self.can_notify && !self.delivered && self.errors.len() < 3 {
            if self.errors.len() == 0 {
                DispatchStep::Attempt { wait_seconds: 0 }
            } else {
                DispatchStep::Attempt { wait_seconds: DISPATCH_TRY_WAIT_SECONDS }
            }
        } else {
            DispatchStep::Done
        }
    }

    /// Takes the outcome of an attempt into account: a success ends the
    /// dispatch, a failure is kept. Where no attempt was wanted nothing
    /// changes.
    pub fn record(&mut self, outcome: Result<(), String>)
        ensures
            final(self).can_notify == old(self).can_notify,
            !old(self).wants_attempt() ==> final(self).delivered == old(self).delivered
                && final(self).errors@ == old(self).errors@,
            old(self).wants_attempt() ==> match outcome {
                Ok(_) => final(self).delivered && final(self).errors@ == old(self).errors@,
                Err(error) => !final(self).delivered && final(self).errors@ == old(self).errors@.push(
                    error,
                ),
            },
    {
        if self.can_notify && !self.delivered && self.errors.len() < 3 {
            match outcome {
                Ok(_) => {
                    self.delivered = true;
                },
                Err(error) => {
                    self.errors.push(error);
                },
            }
        }
    }

    /// How the dispatch ended: well where the channel was skipped or has
    /// delivered, and else with the channel's name and the failures.
    pub fn finish(self, name: &'static str) -> (result: Result<(), Error>)
        ensures
            result.is_err() == self.has_failed(),
            result matches Err(error) ==> error.name == name && error.errors@ == self.errors@,
    {
        if self.can_notify && !self.delivered {
            Err(Error { name, errors: self.errors })
        } else {
            Ok(())
        }
    }
}

/// A channel that keeps failing is tried three times and no more: the
/// dispatch wants an attempt exactly while fewer than three have failed.
pub proof fn lemma_dispatch_attempts_are_bounded(dispatch: Dispatch)
    requires
        dispatch.can_notify,
        !dispatch.delivered,
    ensures
        dispatch.wants_attempt() == (dispatch.errors@.len() < 3),
        dispatch.spec_next() == if dispatch.errors@.len() == 0 {
            (DispatchStep::Attempt { wait_seconds: 0 })
        } else if dispatch.errors@.len() < 3 {
            (DispatchStep::Attempt { wait_seconds: 2 })
        } else {
            DispatchStep::Done
        },
{
}

/// The channels that a notification can go through.
#[derive(Clone, Copy, Debug, PartialEq, Eq, Structural)]
pub enum Channel {
    Email,
    Twilio,
    Slack,
    Zulip,
    Telegram,
    Pushover,
    Gotify,
    Matrix,
    WebEx,
    WebHook,
    Xmpp,
}

/// Every channel, in the order in which they are tried.
pub open spec fn all_channels() -> Seq<Channel> {
    seq![
        Channel::Email,
        Channel::Twilio,
        Channel::Slack,
        Channel::Zulip,
        Channel::Telegram,
        Channel::Pushover,
        Channel::Gotify,
        Channel::Matrix,
        Channel::WebEx,
        Channel::WebHook,
        Channel::Xmpp,
    ]
}

/// Whether the settings configure the channel.
pub open spec fn is_configured(notify: Notify, channel: Channel) -> bool {
    match channel {
        Channel::Email => notify.email.is_some(),
        Channel::Twilio => notify.twilio.is_some(),
        Channel::Slack => notify.slack.is_some(),
        Channel::Zulip => notify.zulip.is_some(),
        Channel::Telegram => notify.telegram.is_some(),
        Channel::Pushover => notify.pushover.is_some(),
        Channel::Gotify => notify.gotify.is_some(),
        Channel::Matrix => notify.matrix.is_some(),
        Channel::WebEx => notify.webex.is_some(),
        Channel::WebHook => notify.webhook.is_some(),
        Channel::Xmpp => notify.xmpp.is_some(),
    }
}

/// Whether a channel takes a notification: it is configured, and where it
/// is for reminders only the notification tells of no change. The web hook
/// takes every notification.
pub open spec fn channel_takes(notify: Notify, channel: Channel, notification: Notification) -> bool {
    match channel {
        Channel::Email => notify.email matches Some(c) && (!c.reminders_only || !notification.changed),
        Channel::Twilio => notify.twilio matches Some(c) && (!c.reminders_only || !notification.changed),
        Channel::Slack => notify.slack matches Some(c) && (!c.reminders_only || !notification.changed),
        Channel::Zulip => notify.zulip matches Some(c) && (!c.reminders_only || !notification.changed),
        Channel::Telegram => notify.telegram matches Some(c) && (!c.reminders_only
            || !notification.changed),
        Channel::Pushover => notify.pushover matches Some(c) && (!c.reminders_only
            || !notification.changed),
        Channel::Gotify => notify.gotify matches Some(c) && (!c.reminders_only || !notification.changed),
        Channel::Matrix => notify.matrix matches Some(c) && (!c.reminders_only || !notification.changed),
        Channel::WebEx => notify.webex matches Some(c) && (!c.reminders_only || !notification.changed),
        Channel::WebHook => notify.webhook.is_some(),
        Channel::Xmpp => notify.xmpp matches Some(c) && (!c.reminders_only || !notification.changed),
    }
}

impl Channel {
    /// The name of the channel.
    pub open spec fn spec_name(self) -> Seq<char> {
        match self {
            Channel::Email => "email"@,
            Channel::Twilio => "twilio"@,
            Channel::Slack => "slack"@,
            Channel::Zulip => "zulip"@,
            Channel::Telegram => "telegram"@,
            Channel::Pushover => "pushover"@,
            Channel::Gotify => "gotify"@,
            Channel::Matrix => "matrix"@,
            Channel::WebEx => "webex"@,
            Channel::WebHook => "webhook"@,
            Channel::Xmpp => "xmpp"@,
        }
    }

    /// Names the channel.
    pub fn name(self) -> (name: &'static str)
        ensures
            name@ == self.spec_name(),
    {
        match self {
            Channel::Email => EmailNotifier::name(),
            Channel::Twilio => TwilioNotifier::name(),
            Channel::Slack => SlackNotifier::name(),
            Channel::Zulip => ZulipNotifier::name(),
            Channel::Telegram => TelegramNotifier::name(),
            Channel::Pushover => PushoverNotifier::name(),
            Channel::Gotify => GotifyNotifier::name(),
            Channel::Matrix => MatrixNotifier::name(),
            Channel::WebEx => WebExNotifier::name(),
            Channel::WebHook => WebHookNotifier::name(),
            Channel::Xmpp => XMPPNotifier::name(),
        }
    }

    /// Whether the channel takes the notification.
    pub fn can_notify(self, notify: &Notify, notification: &Notification) -> (taken: bool)
        ensures
            taken == channel_takes(*notify, self, *notification),
    {
        match self {
            Channel::Email => match &notify.email {
                Some(config) => EmailNotifier::can_notify(config, notification),
                None => false,
            },
            Channel::Twilio => match &notify.twilio {
                Some(config) => TwilioNotifier::can_notify(config, notification),
                None => false,
            },
            Channel::Slack => match &notify.slack {
                Some(config) => SlackNotifier::can_notify(config, notification),
                None => false,
            },
            Channel::Zulip => match &notify.zulip {
                Some(config) => ZulipNotifier::can_notify(config, notification),
                None => false,
            },
            Channel::Telegram => match &notify.telegram {
                Some(config) => TelegramNotifier::can_notify(config, notification),
                None => false,
            },
            Channel::Pushover => match &notify.pushover {
                Some(config) => PushoverNotifier::can_notify(config, notification),
                None => false,
            },
            Channel::Gotify => match &notify.gotify {
                Some(config) => GotifyNotifier::can_notify(config, notification),
                None => false,
            },
            Channel::Matrix => match &notify.matrix {
                Some(config) => MatrixNotifier::can_notify(config, notification),
                None => false,
            },
            Channel::WebEx => match &notify.webex {
                Some(config) => WebExNotifier::can_notify(config, notification),
                None => false,
            },
            Channel::WebHook => match &notify.webhook {
                Some(config) => WebHookNotifier::can_notify(config, notification),
                None => false,
            },
            Channel::Xmpp => match &notify.xmpp {
                Some(config) => XMPPNotifier::can_notify(config, notification),
                None => false,
            },
        }
    }
}

/// The configured channels, in the order in which they are tried.
pub fn configured_channels(notify: &Notify) -> (channels: Vec<Channel>)
    ensures
        channels@ == all_channels().filter(|channel: Channel| is_configured(*notify, channel)),
{
    let mut channels: Vec<Channel> = Vec::new();
    let ghost wanted = |channel: Channel| is_configured(*notify, channel);
    let ghost mut seen: Seq<Channel> = Seq::empty();
    proof {
        assert(seen.filter(wanted) =~= Seq::<Channel>::empty()) by {
            reveal(Seq::filter);
        }
    }
    if notify.email.is_some() {
        channels.push(Channel::Email);
    }
    proof {
        lemma_filter_push(seen, Channel::Email, wanted);
        seen = seen.push(Channel::Email);
    }
    if notify.twilio.is_some() {
        channels.push(Channel::Twilio);
    }
    proof {
        lemma_filter_push(seen, Channel::Twilio, wanted);
        seen = seen.push(Channel::Twilio);
    }
    if notify.slack.is_some() {
        channels.push(Channel::Slack);
    }
    proof {
        lemma_filter_push(seen, Channel::Slack, wanted);
        seen = seen.push(Channel::Slack);
    }
    if notify.zulip.is_some() {
        channels.push(Channel::Zulip);
    }
    proof {
        lemma_filter_push(seen, Channel::Zulip, wanted);
        seen = seen.push(Channel::Zulip);
    }
    if notify.telegram.is_some() {
        channels.push(Channel::Telegram);
    }
    proof {
        lemma_filter_push(seen, Channel::Telegram, wanted);
        seen = seen.push(Channel::Telegram);
    }
    if notify.pushover.is_some() {
        channels.push(Channel::Pushover);
    }
    proof {
        lemma_filter_push(seen, Channel::Pushover, wanted);
        seen = seen.push(Channel::Pushover);
    }
    if notify.gotify.is_some() {
        channels.push(Channel::Gotify);
    }
    proof {
        lemma_filter_push(seen, Channel::Gotify, wanted);
        seen = seen.push(Channel::Gotify);
    }
    if notify.matrix.is_some() {
        channels.push(Channel::Matrix);
    }
    proof {
        lemma_filter_push(seen, Channel::Matrix, wanted);
        seen = seen.push(Channel::Matrix);
    }
    if notify.webex.is_some() {
        channels.push(Channel::WebEx);
    }
    proof {
        lemma_filter_push(seen, Channel::WebEx, wanted);
        seen = seen.push(Channel::WebEx);
    }
    if notify.webhook.is_some() {
        channels.push(Channel::WebHook);
    }
    proof {
        lemma_filter_push(seen, Channel::WebHook, wanted);
        seen = seen.push(Channel::WebHook);
    }
    if notify.xmpp.is_some() {
        channels.push(Channel::Xmpp);
    }
    proof {
        lemma_filter_push(seen, Channel::Xmpp, wanted);
        seen = seen.push(Channel::Xmpp);
        assert(seen =~= all_channels());
    }
    channels
}

/// Filtering a sequence with one more item: the item comes last where it
/// passes, and is left out where it does not.
proof fn lemma_filter_push(items: Seq<Channel>, item: Channel, wanted: spec_fn(Channel) -> bool)
    ensures
        items.push(item).filter(wanted) == if wanted(item) {
            items.filter(wanted).push(item)
        } else {
            items.filter(wanted)
        },
{
    reveal(Seq::filter);
    assert(items.push(item).drop_last() =~= items);
}

/// The channels that take a notification, in the order in which they are
/// tried.
pub open spec fn taking_channels(notify: Notify, notification: Notification) -> Seq<Channel> {
    all_channels().filter(|channel: Channel| channel_takes(notify, channel, notification))
}

/// What is to be done next to get a notification out.
#[derive(Clone, Copy, Debug, PartialEq, Eq, Structural)]
pub enum NotifyStep {
    /// Wait for so many seconds, then attempt to deliver through the
    /// channel.
    Attempt { channel: Channel, wait_seconds: u64 },
    /// Nothing more: every channel has delivered or failed for good.
    Done,
}

/// A notification on its way through the channels: one channel after the
/// other, each tried until it delivers or has failed three times. The
/// failure of one channel does not keep the next from being tried. The
/// notification has failed where every configured channel has.
pub struct NotifyRun {
    configured: usize,
    channels: Vec<Channel>,
    position: usize,
    current: Dispatch,
    failures: Vec<Error>,
}

impl NotifyRun {
    #[verifier::type_invariant]
    spec fn inv(self) -> bool {
        &&& self.position <= self.channels@.len()
        &&& self.current.wants_attempt()
    }

    /// The number of channels that the settings configure.
    pub closed spec fn configured(self) -> nat {
        self.configured as nat
    }

    /// The channels that the run goes through.
    pub closed spec fn channels(self) -> Seq<Channel> {
        self.channels@
    }

    /// How many of the channels are done with.
    pub closed spec fn position(self) -> nat {
        self.position as nat
    }

    /// What went wrong at the attempts on the channel at hand.
    pub closed spec fn attempt_errors(self) -> Seq<String> {
        self.current.errors@
    }

    /// The channels that have failed for good.
    pub closed spec fn failures(self) -> Seq<Error> {
        self.failures@
    }

    /// The next step: an attempt on the channel at hand, at once where it
    /// is the first on that channel and after the wait where it is not.
    pub open spec fn spec_next(self) -> NotifyStep {
        if self.position() < self.channels().len() {
            NotifyStep::Attempt {
                channel: self.channels()[self.position() as int],
                wait_seconds: if self.attempt_errors().len() == 0 {
                    0
                } else {
                    DISPATCH_TRY_WAIT_SECONDS
                },
            }
        } else {
            NotifyStep::Done
        }
    }

    /// The attempts that the run can still ask for at most: three for each
    /// channel that is not done with, less those made on the channel at
    /// hand.
    pub open spec fn attempts_left(self) -> int {
        (self.channels().len() - self.position()) * DISPATCH_TRY_ATTEMPT_TIMES
            - self.attempt_errors().len()
    }

    /// Whether the notification has failed: a channel is configured, and
    /// every configured channel has failed for good. A channel that did not
    /// take the notification has not failed.
    pub open spec fn has_failed(self) -> bool {
        self.failures().len() > 0 && self.failures().len() == self.configured()
    }

    /// The run of a notification through the channels that take it.
    pub fn start(notify: &Notify, notification: &Notification) -> (run: NotifyRun)
        ensures
            run.configured() == all_channels().filter(
                |channel: Channel| is_configured(*notify, channel),
            ).len(),
            run.channels() == taking_channels(*notify, *notification),
            run.position() == 0,
            run.attempt_errors().len() == 0,
            run.failures().len() == 0,
    {
        let configured = configured_channels(notify);
        let ghost takes = |channel: Channel| channel_takes(*notify, channel, *notification);
        let ghost wanted = |channel: Channel| is_configured(*notify, channel);
        let mut channels: Vec<Channel> = Vec::new();
        let mut index: usize = 0;
        proof {
            assert(configured@.take(0).filter(takes) =~= Seq::<Channel>::empty()) by {
                reveal(Seq::filter);
            }
        }
        while index < configured.len()
            invariant
                index <= configured.len(),
                takes == |channel: Channel| channel_takes(*notify, channel, *notification),
                channels@ == configured@.take(index as int).filter(takes),
            decreases configured.len() - index,
        {
            let channel = configured[index];
            proof {
                lemma_filter_push(configured@.take(index as int), channel, takes);
                assert(configured@.take(index as int).push(channel) =~= configured@.take(index + 1));
            }
            if channel.can_notify(notify, notification) {
                channels.push(channel);
            }
            index = index + 1;
        }
        proof {
            assert(configured@.take(index as int) =~= configured@);
            lemma_filter_twice(all_channels(), wanted, takes);
        }
        NotifyRun {
            configured: configured.len(),
            channels,
            position: 0,
            current: Dispatch::start(true),
            failures: Vec::new(),
        }
    }

    /// Says what is to be done next.
    pub fn next(&self) -> (step: NotifyStep)
        ensures
            step == self.spec_next(),
    {
        proof {
            use_type_invariant(self);
        }
        if self.position < self.channels.len() {
            match self.current.next() {
                DispatchStep::Attempt { wait_seconds } => NotifyStep::Attempt {
                    channel: self.channels[self.position],
                    wait_seconds,
                },
                DispatchStep::Done => NotifyStep::Done,
            }
        } else {
            NotifyStep::Done
        }
    }

    /// Takes the outcome of the attempt that `next` asked for into account.
    ///
    /// After a success the run moves on to the next channel. A failure is
    /// kept; the third on one channel makes that channel fail for good,
    /// with its name and the three failures, and the run moves on. Where
    /// the run is done nothing changes.
    pub fn record(&mut self, outcome: Result<(), String>)
        ensures
            final(self).configured() == old(self).configured(),
            final(self).channels() == old(self).channels(),
            old(self).spec_next() != NotifyStep::Done ==> 0 <= final(self).attempts_left() < old(
                self,
            ).attempts_left(),
            old(self).spec_next() == NotifyStep::Done ==> {
                &&& final(self).position() == old(self).position()
                &&& final(self).attempt_errors() == old(self).attempt_errors()
                &&& final(self).failures() == old(self).failures()
            },
            old(self).spec_next() != NotifyStep::Done ==> match outcome {
                Ok(_) => {
                    &&& final(self).position() == old(self).position() + 1
                    &&& final(self).attempt_errors().len() == 0
                    &&& final(self).failures() == old(self).failures()
                },
                Err(error) => if old(self).attempt_errors().len() + 1 < DISPATCH_TRY_ATTEMPT_TIMES {
                    &&& final(self).position() == old(self).position()
                    &&& final(self).attempt_errors() == old(self).attempt_errors().push(error)
                    &&& final(self).failures() == old(self).failures()
                } else {
                    &&& final(self).position() == old(self).position() + 1
                    &&& final(self).attempt_errors().len() == 0
                    &&& final(self).failures().len() == old(self).failures().len() + 1
                    &&& final(self).failures().drop_last() == old(self).failures()
                    &&& final(self).failures().last().name@ == old(self).channels()[old(self).position() as int].spec_name()
                    &&& final(self).failures().last().errors@ == old(self).attempt_errors().push(error)
                },
            },
    {
        proof {
            use_type_invariant(&*self);
        }
        let mut taken = NotifyRun {
            configured: 0,
            channels: Vec::new(),
            position: 0,
            current: Dispatch::start(true),
            failures: Vec::new(),
        };
        std::mem::swap(self, &mut taken);
        let NotifyRun { configured, channels, position, current, failures } = taken;
        let mut position = position;
        let mut current = current;
        let mut failures = failures;
        if position < channels.len() {
            current.record(outcome);
            if current.next() == DispatchStep::Done {
                let ghost before = failures@;
                if let Err(failure) = current.finish(channels[position].name()) {
                    failures.push(failure);
                    assert(failures@.drop_last() =~= before);
                }
                position = position + 1;
                current = Dispatch::start(true);
            }
        }
        *self = NotifyRun { configured, channels, position, current, failures };
    }

    /// How the notification ended: with the failures of the channels where
    /// it has failed, and well where it has not.
    pub fn finish(self) -> (result: Result<(), Vec<Error>>)
        ensures
            result.is_err() == self.has_failed(),
            result matches Err(errors) ==> errors@ == self.failures(),
    {
        let NotifyRun { configured, channels, position, current, failures } = self;
        if failures.len() > 0 && failures.len() == configured {
            Err(failures)
        } else {
            Ok(())
        }
    }
}

/// Filtering by a condition and then by a narrower one is filtering by the
/// narrower one.
proof fn lemma_filter_twice(
    items: Seq<Channel>,
    wider: spec_fn(Channel) -> bool,
    narrower: spec_fn(Channel) -> bool,
)
    requires
        forall|channel: Channel| #[trigger] narrower(channel) ==> wider(channel),
    ensures
        items.filter(wider).filter(narrower) == items.filter(narrower),
    decreases items.len(),
{
    reveal(Seq::filter);
    if items.len() > 0 {
        lemma_filter_twice(items.drop_last(), wider, narrower);
        if wider(items.last()) {
            lemma_filter_push(items.drop_last().filter(wider), items.last(), narrower);
        }
    }
}

} // verus!
