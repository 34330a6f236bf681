//! The broker settings of each consumer, as plain values that the runtime
//! hands to the broker client.

use vstd::prelude::*;
use crate::consumer::{Role, queue_of};

verus! {

/// The kinds of exchange a broker offers.
#[derive(Clone, Copy, PartialEq, Eq, Structural, Debug)]
pub enum ExchangeKind {
    Direct,
    Fanout,
    Topic,
    Headers,
}

/// Options of a queue declaration.
#[derive(Clone, Copy, PartialEq, Eq, Structural, Debug)]
pub struct QueueOptions {
    pub passive: bool,
    pub durable: bool,
    pub exclusive: bool,
    pub auto_delete: bool,
    pub nowait: bool,
}

/// Options of a subscription.
#[derive(Clone, Copy, PartialEq, Eq, Structural, Debug)]
pub struct ConsumeOptions {
    pub no_local: bool,
    pub no_ack: bool,
    pub exclusive: bool,
    pub nowait: bool,
}

/// Everything a consumer's setup steps need.
#[derive(Clone, Debug)]
pub struct ConsumerSettings {
    pub url: String,
    pub exchange: String,
    pub exchange_kind: ExchangeKind,
    pub queue: String,
    pub queue_options: QueueOptions,
    pub prefetch_count: u16,
    pub qos_global: bool,
    pub consumer_tag: String,
    pub consume_options: ConsumeOptions,
}

/// The queue every consumer declares: durable, shared, kept when unused.
pub open spec fn durable_queue() -> QueueOptions {
    QueueOptions { passive: false, durable: true, exclusive: false, auto_delete: false, nowait: false }
}

/// Every consumer subscribes with explicit acknowledgement, not exclusively.
pub open spec fn acknowledged_consume() -> ConsumeOptions {
    ConsumeOptions { no_local: false, no_ack: false, exclusive: false, nowait: false }
}

/// The consumer tag for a desktop environment name.
pub open spec fn tag_for(desktop_env: Seq<char>) -> Seq<char> {
    "thalia_"@ + desktop_env
}

impl ConsumerSettings {
    /// Whether these are the settings of a `role` consumer on this broker and
    /// exchange: a topic exchange, the role's queue declared durable, one
    /// unacknowledged delivery at a time per consumer, and a subscription that
    /// acknowledges explicitly; the tag is left to the caller.
    pub open spec fn fits(self, role: Role, url: Seq<char>, exchange: Seq<char>) -> bool {
        &&& self.url@ == url
        &&& self.exchange@ == exchange
        &&& self.exchange_kind == ExchangeKind::Topic
        &&& self.queue@ == queue_of(role)
        &&& self.queue_options == durable_queue()
        &&& self.prefetch_count == 1
        &&& !self.qos_global
        &&& self.consume_options == acknowledged_consume()
    }

    /// The settings of a `role` consumer whose tag names `desktop_env`.
    pub fn new(role: Role, url: String, exchange: String, desktop_env: &str) -> (res: ConsumerSettings)
        ensures
            res.fits(role, url@, exchange@),
            res.consumer_tag@ == tag_for(desktop_env@),
    {
        ConsumerSettings {
            url,
            exchange,
            exchange_kind: ExchangeKind::Topic,
            queue: String::from_str(role.queue()),
            queue_options: QueueOptions {
                passive: false,
                durable: true,
                exclusive: false,
                auto_delete: false,
                nowait: false,
            },
            prefetch_count: 1,
            qos_global: false,
            consumer_tag: consumer_tag(desktop_env),
            consume_options: ConsumeOptions {
                no_local: false,
                no_ack: false,
                exclusive: false,
                nowait: false,
            },
        }
    }

    /// The settings of a `role` consumer whose tag names the desktop
    /// environment this process runs in.
    pub fn for_this_desktop(role: Role, url: String, exchange: String) -> (res: ConsumerSettings)
        ensures
            res.fits(role, url@, exchange@),
            exists|desktop_env: Seq<char>| res.consumer_tag@ == tag_for(desktop_env),
    {
        let desktop_env = desktop_env_name();
        ConsumerSettings::new(role, url, exchange, desktop_env.as_str())
    }
}

/// Settings that fit a role read the activity log from `*.logs` and errors
/// from `*.error`, on a topic exchange, with a durable, shared queue that is
/// kept when unused, one unacknowledged delivery at a time, and explicit
/// acknowledgement; a consumer tag is `thalia_` followed by the desktop
/// environment.
pub proof fn lemma_settings_of_role(
    s: ConsumerSettings,
    role: Role,
    url: Seq<char>,
    exchange: Seq<char>,
    desktop_env: Seq<char>,
)
    requires
        s.fits(role, url, exchange),
    ensures
        role == Role::ActivityLog ==> s.queue@ == "*.logs"@,
        role != Role::ActivityLog ==> s.queue@ == "*.error"@,
        s.url@ == url,
        s.exchange@ == exchange,
        s.exchange_kind == ExchangeKind::Topic,
        !s.queue_options.passive && s.queue_options.durable && !s.queue_options.exclusive,
        !s.queue_options.auto_delete && !s.queue_options.nowait,
        s.prefetch_count == 1 && !s.qos_global,
        !s.consume_options.no_local && !s.consume_options.no_ack,
        !s.consume_options.exclusive && !s.consume_options.nowait,
        tag_for(desktop_env).len() == desktop_env.len() + 7,
        tag_for(desktop_env).subrange(0, 7) == "thalia_"@,
        tag_for(desktop_env).subrange(7, desktop_env.len() + 7int) == desktop_env,
{
    reveal_strlit("thalia_");
    assert(tag_for(desktop_env).subrange(0, 7) =~= "thalia_"@);
    assert(tag_for(desktop_env).subrange(7, desktop_env.len() + 7int) =~= desktop_env);
}

/// The tag a consumer subscribes under: `thalia_` and the desktop environment.
pub fn consumer_tag(desktop_env: &str) -> (res: String)
    ensures
        res@ == tag_for(desktop_env@),
{
    String::from_str("thalia_").concat(desktop_env)
}

/// Calls `whoami::desktop_env` and renders it with its `Display`; the desktop
/// environment depends on the machine, so nothing is stated of it.
#[verifier::external_body]
fn desktop_env_name() -> (res: String) {
    whoami::desktop_env().to_string()
}

} // verus!
