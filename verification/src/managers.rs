//! The two services that consume the broker: a watcher of the error queue,
//! and the log manager that relays errors to Slack and records activity.

use vstd::prelude::*;
use crate::consumer::{Action, Consumer, Event, Phase, Role, transition};
use crate::settings::{ConsumerSettings, tag_for};

verus! {

/// Watches the error queue and reports each error record; it does not
/// acknowledge deliveries.
pub struct ErrorManager {
    pub mq_url: String,
    pub mq_exchange: String,
    pub consumer: Consumer,
}

impl ErrorManager {
    /// A watcher of the error queue on this broker and exchange, not yet started.
    pub fn new(mq_url: String, mq_exchange: String) -> (res: ErrorManager)
        ensures
            res.mq_url@ == mq_url@,
            res.mq_exchange@ == mq_exchange@,
            res.consumer == (Consumer { role: Role::ErrorWatch, phase: Phase::Idle }),
    {
        ErrorManager { mq_url, mq_exchange, consumer: Consumer::new(Role::ErrorWatch) }
    }

    /// The settings its setup steps use.
    pub fn settings(&self) -> (res: ConsumerSettings)
        ensures
            res.fits(Role::ErrorWatch, self.mq_url@, self.mq_exchange@),
            exists|desktop_env: Seq<char>| res.consumer_tag@ == tag_for(desktop_env),
    {
        ConsumerSettings::for_this_desktop(Role::ErrorWatch, self.mq_url.clone(), self.mq_exchange.clone())
    }

    /// Takes one event of its consumer and returns the actions to perform.
    pub fn handle(&mut self, event: Event) -> (actions: Vec<Action>)
        ensures
            final(self).mq_url == old(self).mq_url,
            final(self).mq_exchange == old(self).mq_exchange,
            final(self).consumer == transition(old(self).consumer, event).0,
            actions@ == transition(old(self).consumer, event).1,
    {
        self.consumer.step(event)
    }
}

/// Runs two consumers on one broker: one relays each error record to the
/// Slack hook, the other records each activity; both acknowledge every
/// delivery.
pub struct LogManager {
    pub mq_url: String,
    pub mq_exchange: String,
    pub error_slack_hook: String,
}

impl LogManager {
    /// A log manager on this broker and exchange, posting errors to this hook.
    pub fn new(mq_url: String, mq_exchange: String, error_slack_hook: String) -> (res: LogManager)
        ensures
            res.mq_url@ == mq_url@,
            res.mq_exchange@ == mq_exchange@,
            res.error_slack_hook@ == error_slack_hook@,
    {
        LogManager { mq_url, mq_exchange, error_slack_hook }
    }

    /// The consumer that relays errors, not yet started.
    pub fn error_consumer(&self) -> (res: Consumer)
        ensures
            res == (Consumer { role: Role::ErrorAlerts, phase: Phase::Idle }),
    {
        Consumer::new(Role::ErrorAlerts)
    }

    /// The consumer that records activity, not yet started.
    pub fn log_consumer(&self) -> (res: Consumer)
        ensures
            res == (Consumer { role: Role::ActivityLog, phase: Phase::Idle }),
    {
        Consumer::new(Role::ActivityLog)
    }

    /// The settings of the consumer that relays errors.
    pub fn error_settings(&self) -> (res: ConsumerSettings)
        ensures
            res.fits(Role::ErrorAlerts, self.mq_url@, self.mq_exchange@),
            exists|desktop_env: Seq<char>| res.consumer_tag@ == tag_for(desktop_env),
    {
        ConsumerSettings::for_this_desktop(Role::ErrorAlerts, self.mq_url.clone(), self.mq_exchange.clone())
    }

    /// The settings of the consumer that records activity.
    pub fn log_settings(&self) -> (res: ConsumerSettings)
        ensures
            res.fits(Role::ActivityLog, self.mq_url@, self.mq_exchange@),
            exists|desktop_env: Seq<char>| res.consumer_tag@ == tag_for(desktop_env),
    {
        ConsumerSettings::for_this_desktop(Role::ActivityLog, self.mq_url.clone(), self.mq_exchange.clone())
    }
}

} // verus!
