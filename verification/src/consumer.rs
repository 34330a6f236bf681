//! The queue consumer as a state machine: the runtime around it performs each
//! action it asks for and feeds back what happened as the next event.

use vstd::prelude::*;

verus! {

/// What a consumer is for.
#[derive(Clone, Copy, PartialEq, Eq, Structural, Debug)]
pub enum Role {
    /// Reads `*.error`, reports each error, posts it to Slack, and acknowledges every delivery.
    ErrorAlerts,
    /// Reads `*.logs`, reports each activity, and acknowledges every delivery.
    ActivityLog,
    /// Reads `*.error` and reports each error; it never acknowledges.
    ErrorWatch,
}

/// The steps that bring a consumer up, in the order they are taken.
#[derive(Clone, Copy, PartialEq, Eq, Structural, Debug)]
pub enum SetupStep {
    CreatePool,
    GetConnection,
    CreateChannel,
    DeclareExchange,
    DeclareQueue,
    SetQos,
    Subscribe,
}

/// What made a consumer give up.
#[derive(Clone, Copy, PartialEq, Eq, Structural, Debug)]
pub enum Failure {
    /// A setup step did not succeed.
    Setup(SetupStep),
    /// The delivery stream yielded an error.
    Delivery,
}

/// Where a consumer stands.
#[derive(Clone, Copy, PartialEq, Eq, Structural, Debug)]
pub enum Phase {
    Idle,
    /// The step was asked for and its outcome is awaited.
    Setup(SetupStep),
    Consuming,
    Stopped,
    Failed(Failure),
}

/// What happened since the consumer last acted.
#[derive(Clone, Copy, PartialEq, Eq, Structural, Debug)]
pub enum Event {
    /// The runtime starts the consumer.
    Start,
    /// The setup step that was asked for succeeded.
    StepSucceeded,
    /// The setup step that was asked for failed.
    StepFailed,
    /// Shutdown was signalled.
    Shutdown,
    /// Polling the delivery stream gave nothing.
    StreamEmpty,
    /// A delivery arrived; `parsed` tells whether its body is a well-formed record.
    Delivery { parsed: bool },
    /// Polling the delivery stream gave an error.
    DeliveryError,
}

/// What the runtime is asked to do, in order.
#[derive(Clone, Copy, PartialEq, Eq, Structural, Debug)]
pub enum Action {
    /// Take this setup step and report its outcome.
    Perform(SetupStep),
    /// Wait for the next delivery or for shutdown, whichever comes first.
    AwaitNext,
    /// Report the record of the current delivery.
    Report,
    /// Post the record of the current delivery to Slack.
    PostToSlack,
    /// Acknowledge the current delivery.
    Acknowledge,
    /// Give up with the message of this failure.
    Abort(Failure),
}

/// A consumer: its role and where it stands.
#[derive(Clone, Copy, PartialEq, Eq, Structural, Debug)]
pub struct Consumer {
    pub role: Role,
    pub phase: Phase,
}

/// The queue a role reads.
pub open spec fn queue_of(role: Role) -> Seq<char> {
    match role {
        Role::ActivityLog => "*.logs"@,
        _ => "*.error"@,
    }
}

/// Whether a role acknowledges deliveries.
pub open spec fn acknowledges(role: Role) -> bool {
    role != Role::ErrorWatch
}

/// Whether a role posts records to Slack.
pub open spec fn posts_to_slack(role: Role) -> bool {
    role == Role::ErrorAlerts
}

/// The setup step after `s`, if any.
pub open spec fn step_after(s: SetupStep) -> Option<SetupStep> {
    match s {
        SetupStep::CreatePool => Some(SetupStep::GetConnection),
        SetupStep::GetConnection => Some(SetupStep::CreateChannel),
        SetupStep::CreateChannel => Some(SetupStep::DeclareExchange),
        SetupStep::DeclareExchange => Some(SetupStep::DeclareQueue),
        SetupStep::DeclareQueue => Some(SetupStep::SetQos),
        SetupStep::SetQos => Some(SetupStep::Subscribe),
        SetupStep::Subscribe => None,
    }
}

/// The message a consumer gives up with.
pub open spec fn failure_message(f: Failure) -> Seq<char> {
    match f {
        Failure::Setup(SetupStep::CreatePool) => "Problem creating an AMQP connection pool!"@,
        Failure::Setup(SetupStep::GetConnection) => "Expected MQ pool to provide a connection."@,
        Failure::Setup(SetupStep::CreateChannel) => "Expected MQ Connection to provide a channel"@,
        Failure::Setup(SetupStep::DeclareExchange) => "Expected MQ Exchange declaration to succeed."@,
        Failure::Setup(SetupStep::DeclareQueue) => "Expected MQ Queue declaration to succeed."@,
        Failure::Setup(SetupStep::SetQos) => "MQ Channel QOS must be set!"@,
        Failure::Setup(SetupStep::Subscribe) => "Consumer should be actively connected"@,
        Failure::Delivery => "Error in consumer!"@,
    }
}

/// What a consumer in `role` does with a delivery: report a parsed record,
/// post it to Slack when the role does so, acknowledge when the role does so,
/// and wait for the next one.
pub open spec fn delivery_actions(role: Role, parsed: bool) -> Seq<Action> {
    (if parsed { seq![Action::Report] } else { Seq::empty() })
        + (if parsed && posts_to_slack(role) { seq![Action::PostToSlack] } else { Seq::empty() })
        + (if acknowledges(role) { seq![Action::Acknowledge] } else { Seq::empty() })
        + seq![Action::AwaitNext]
}

/// Whether a phase is one the consumer never leaves.
pub open spec fn is_final(p: Phase) -> bool {
    p is Stopped || p is Failed
}

/// One step of the consumer: its next state and the actions it asks for.
/// Events that do not fit the phase change nothing and ask for nothing.
pub open spec fn transition(c: Consumer, e: Event) -> (Consumer, Seq<Action>) {
    match c.phase {
        Phase::Idle => match e {
            Event::Start => (
                Consumer { phase: Phase::Setup(SetupStep::CreatePool), ..c },
                seq![Action::Perform(SetupStep::CreatePool)],
            ),
            _ => (c, Seq::empty()),
        },
        Phase::Setup(s) => match e {
            Event::StepSucceeded => match step_after(s) {
                Some(n) => (Consumer { phase: Phase::Setup(n), ..c }, seq![Action::Perform(n)]),
                None => (Consumer { phase: Phase::Consuming, ..c }, seq![Action::AwaitNext]),
            },
            Event::StepFailed => (
                Consumer { phase: Phase::Failed(Failure::Setup(s)), ..c },
                seq![Action::Abort(Failure::Setup(s))],
            ),
            _ => (c, Seq::empty()),
        },
        Phase::Consuming => match e {
            Event::Shutdown => (Consumer { phase: Phase::Stopped, ..c }, Seq::empty()),
            Event::StreamEmpty => (c, seq![Action::AwaitNext]),
            Event::Delivery { parsed } => (c, delivery_actions(c.role, parsed)),
            Event::DeliveryError => (
                Consumer { phase: Phase::Failed(Failure::Delivery), ..c },
                seq![Action::Abort(Failure::Delivery)],
            ),
            _ => (c, Seq::empty()),
        },
        _ => (c, Seq::empty()),
    }
}

impl Role {
    /// The queue this role reads.
    pub fn queue(&self) -> (res: &'static str)
        ensures
            res@ == queue_of(*self),
    {
        match self {
            Role::ActivityLog => "*.logs",
            _ => "*.error",
        }
    }

    /// Whether this role acknowledges deliveries.
    pub fn acknowledges(&self) -> (res: bool)
        ensures
            res == acknowledges(*self),
    {
        match self {
            Role::ErrorWatch => false,
            _ => true,
        }
    }

    /// Whether this role posts records to Slack.
    pub fn posts_to_slack(&self) -> (res: bool)
        ensures
            res == posts_to_slack(*self),
    {
        match self {
            Role::ErrorAlerts => true,
            _ => false,
        }
    }

    /// The words that open the report of a record.
    pub fn received_label(&self) -> (res: &'static str)
        ensures
            res@ == (if *self == Role::ActivityLog { "New activity received"@ } else { "New error received"@ }),
    {
        match self {
            Role::ActivityLog => "New activity received",
            _ => "New error received",
        }
    }
}

impl SetupStep {
    /// The step after this one, if any.
    pub fn next(&self) -> (res: Option<SetupStep>)
        ensures
            res == step_after(*self),
    {
        match self {
            SetupStep::CreatePool => Some(SetupStep::GetConnection),
            SetupStep::GetConnection => Some(SetupStep::CreateChannel),
            SetupStep::CreateChannel => Some(SetupStep::DeclareExchange),
            SetupStep::DeclareExchange => Some(SetupStep::DeclareQueue),
            SetupStep::DeclareQueue => Some(SetupStep::SetQos),
            SetupStep::SetQos => Some(SetupStep::Subscribe),
            SetupStep::Subscribe => None,
        }
    }
}

impl Failure {
    /// The message the consumer gives up with.
    pub fn message(&self) -> (res: &'static str)
        ensures
            res@ == failure_message(*self),
    {
        match self {
            Failure::Setup(SetupStep::CreatePool) => "Problem creating an AMQP connection pool!",
            Failure::Setup(SetupStep::GetConnection) => "Expected MQ pool to provide a connection.",
            Failure::Setup(SetupStep::CreateChannel) => "Expected MQ Connection to provide a channel",
            Failure::Setup(SetupStep::DeclareExchange) => "Expected MQ Exchange declaration to succeed.",
            Failure::Setup(SetupStep::DeclareQueue) => "Expected MQ Queue declaration to succeed.",
            Failure::Setup(SetupStep::SetQos) => "MQ Channel QOS must be set!",
            Failure::Setup(SetupStep::Subscribe) => "Consumer should be actively connected",
            Failure::Delivery => "Error in consumer!",
        }
    }
}

impl Consumer {
    /// A consumer in `role` that has not started.
    pub fn new(role: Role) -> (res: Consumer)
        ensures
            res.role == role,
            res.phase == Phase::Idle,
    {
        Consumer { role, phase: Phase::Idle }
    }

    /// Whether the consumer has stopped or given up for good.
    pub fn is_finished(&self) -> (res: bool)
        ensures
            res == is_final(self.phase),
    {
        match self.phase {
            Phase::Stopped | Phase::Failed(_) => true,
            _ => false,
        }
    }

    /// Takes one event and returns the actions to perform, in order.
    pub fn step(&mut self, event: Event) -> (actions: Vec<Action>)
        ensures
            *final(self) == transition(*old(self), event).0,
            actions@ == transition(*old(self), event).1,
            // a delivery or an empty poll leaves a consuming consumer
            // consuming, and its last action is to wait for the next one
            old(self).phase == Phase::Consuming && (event is Delivery || event is StreamEmpty)
                ==> *final(self) == *old(self) && actions@.len() > 0
                && actions@.last() == Action::AwaitNext,
            // a consumer that has stopped or given up does nothing more
            is_final(old(self).phase) ==> *final(self) == *old(self) && actions@.len() == 0,
            // an error from the delivery stream makes a consuming consumer of
            // any role give up with the delivery failure
            old(self).phase == Phase::Consuming && event == Event::DeliveryError
                ==> final(self).role == old(self).role
                && final(self).phase == Phase::Failed(Failure::Delivery)
                && actions@ == seq![Action::Abort(Failure::Delivery)],
    {
        let mut actions: Vec<Action> = Vec::new();
        match self.phase {
            Phase::Idle => {
                if let Event::Start = event {
                    self.phase = Phase::Setup(SetupStep::CreatePool);
                    actions.push(Action::Perform(SetupStep::CreatePool));
                }
            },
            Phase::Setup(s) => match event {
                Event::StepSucceeded => match s.next() {
                    Some(n) => {
                        self.phase = Phase::Setup(n);
                        actions.push(Action::Perform(n));
                    },
                    None => {
                        self.phase = Phase::Consuming;
                        actions.push(Action::AwaitNext);
                    },
                },
                Event::StepFailed => {
                    self.phase = Phase::Failed(Failure::Setup(s));
                    actions.push(Action::Abort(Failure::Setup(s)));
                },
                _ => {},
            },
            Phase::Consuming => match event {
                Event::Shutdown => {
                    self.phase = Phase::Stopped;
                },
                Event::StreamEmpty => {
                    actions.push(Action::AwaitNext);
                },
                Event::Delivery { parsed } => {
                    if parsed {
                        actions.push(Action::Report);
                    }
                    if parsed && self.role.posts_to_slack() {
                        actions.push(Action::PostToSlack);
                    }
                    if self.role.acknowledges() {
                        actions.push(Action::Acknowledge);
                    }
                    actions.push(Action::AwaitNext);
                    proof {
                        assert(actions@ =~= delivery_actions(self.role, parsed));
                    }
                },
                Event::DeliveryError => {
                    self.phase = Phase::Failed(Failure::Delivery);
                    actions.push(Action::Abort(Failure::Delivery));
                },
                _ => {},
            },
            _ => {},
        }
        actions
    }
}

} // verus!
