use thalia::consumer::{Action, Consumer, Event, Failure, Phase, Role, SetupStep};

const STEPS: [SetupStep; 7] = [
    SetupStep::CreatePool,
    SetupStep::GetConnection,
    SetupStep::CreateChannel,
    SetupStep::DeclareExchange,
    SetupStep::DeclareQueue,
    SetupStep::SetQos,
    SetupStep::Subscribe,
];

fn consuming(role: Role) -> Consumer {
    let mut c = Consumer::new(role);
    c.step(Event::Start);
    for _ in 0..7 {
        c.step(Event::StepSucceeded);
    }
    assert_eq!(c.phase, Phase::Consuming);
    c
}

fn count(actions: &[Action], a: Action) -> usize {
    actions.iter().filter(|x| **x == a).count()
}

#[test]
fn setup_steps_come_in_order() {
    let mut c = Consumer::new(Role::ErrorAlerts);
    let mut all = c.step(Event::Start);
    for _ in 0..7 {
        all.extend(c.step(Event::StepSucceeded));
    }
    let mut expected: Vec<Action> = STEPS.iter().map(|s| Action::Perform(*s)).collect();
    expected.push(Action::AwaitNext);
    assert_eq!(all, expected);
    assert_eq!(c.phase, Phase::Consuming);
}

#[test]
fn next_step_chain() {
    for i in 0..6 {
        assert_eq!(STEPS[i].next(), Some(STEPS[i + 1]));
    }
    assert_eq!(SetupStep::Subscribe.next(), None);
}

#[test]
fn events_out_of_place_are_ignored() {
    let mut c = Consumer::new(Role::ActivityLog);
    assert!(c.step(Event::StepSucceeded).is_empty());
    assert!(c.step(Event::Delivery { parsed: true }).is_empty());
    assert!(c.step(Event::Shutdown).is_empty());
    assert_eq!(c.phase, Phase::Idle);
    c.step(Event::Start);
    assert!(c.step(Event::Delivery { parsed: true }).is_empty());
    assert!(c.step(Event::Start).is_empty());
    assert_eq!(c.phase, Phase::Setup(SetupStep::CreatePool));
}

#[test]
fn failed_setup_step_aborts_with_its_message() {
    for (k, step) in STEPS.iter().enumerate() {
        let mut c = Consumer::new(Role::ErrorWatch);
        c.step(Event::Start);
        for _ in 0..k {
            c.step(Event::StepSucceeded);
        }
        assert_eq!(c.step(Event::StepFailed), vec![Action::Abort(Failure::Setup(*step))]);
        assert_eq!(c.phase, Phase::Failed(Failure::Setup(*step)));
        assert!(c.is_finished());
        assert!(c.step(Event::StepSucceeded).is_empty());
        assert!(c.step(Event::Delivery { parsed: true }).is_empty());
    }
}

#[test]
fn failure_messages() {
    assert_eq!(Failure::Setup(SetupStep::CreatePool).message(), "Problem creating an AMQP connection pool!");
    assert_eq!(Failure::Setup(SetupStep::GetConnection).message(), "Expected MQ pool to provide a connection.");
    assert_eq!(Failure::Setup(SetupStep::CreateChannel).message(), "Expected MQ Connection to provide a channel");
    assert_eq!(Failure::Setup(SetupStep::DeclareExchange).message(), "Expected MQ Exchange declaration to succeed.");
    assert_eq!(Failure::Setup(SetupStep::DeclareQueue).message(), "Expected MQ Queue declaration to succeed.");
    assert_eq!(Failure::Setup(SetupStep::SetQos).message(), "MQ Channel QOS must be set!");
    assert_eq!(Failure::Setup(SetupStep::Subscribe).message(), "Consumer should be actively connected");
    assert_eq!(Failure::Delivery.message(), "Error in consumer!");
}

#[test]
fn error_alerts_report_post_and_acknowledge() {
    let mut c = consuming(Role::ErrorAlerts);
    assert_eq!(
        c.step(Event::Delivery { parsed: true }),
        vec![Action::Report, Action::PostToSlack, Action::Acknowledge, Action::AwaitNext]
    );
    assert_eq!(c.step(Event::Delivery { parsed: false }), vec![Action::Acknowledge, Action::AwaitNext]);
    assert_eq!(c.phase, Phase::Consuming);
}

#[test]
fn activity_log_reports_and_acknowledges() {
    let mut c = consuming(Role::ActivityLog);
    assert_eq!(c.step(Event::Delivery { parsed: true }), vec![Action::Report, Action::Acknowledge, Action::AwaitNext]);
    assert_eq!(c.step(Event::Delivery { parsed: false }), vec![Action::Acknowledge, Action::AwaitNext]);
}

#[test]
fn error_watch_reports_without_acknowledging() {
    let mut c = consuming(Role::ErrorWatch);
    assert_eq!(c.step(Event::Delivery { parsed: true }), vec![Action::Report, Action::AwaitNext]);
    assert_eq!(c.step(Event::Delivery { parsed: false }), vec![Action::AwaitNext]);
}

#[test]
fn empty_poll_waits_again() {
    let mut c = consuming(Role::ErrorAlerts);
    assert_eq!(c.step(Event::StreamEmpty), vec![Action::AwaitNext]);
    assert_eq!(c.phase, Phase::Consuming);
}

#[test]
fn shutdown_stops_for_good() {
    let mut c = consuming(Role::ErrorAlerts);
    assert!(c.step(Event::Shutdown).is_empty());
    assert_eq!(c.phase, Phase::Stopped);
    assert!(c.is_finished());
    assert!(c.step(Event::Delivery { parsed: true }).is_empty());
    assert!(c.step(Event::Start).is_empty());
    assert_eq!(c.phase, Phase::Stopped);
}

#[test]
fn delivery_error_aborts() {
    let mut c = consuming(Role::ActivityLog);
    assert_eq!(c.step(Event::DeliveryError), vec![Action::Abort(Failure::Delivery)]);
    assert_eq!(c.phase, Phase::Failed(Failure::Delivery));
    assert!(c.step(Event::Delivery { parsed: true }).is_empty());
}

#[test]
fn every_delivery_acknowledged_once_until_shutdown() {
    let events = [
        Event::Delivery { parsed: true },
        Event::StreamEmpty,
        Event::Delivery { parsed: false },
        Event::Delivery { parsed: true },
        Event::StepSucceeded,
        Event::Shutdown,
        Event::Delivery { parsed: true },
    ];
    for role in [Role::ErrorAlerts, Role::ActivityLog, Role::ErrorWatch] {
        let mut c = consuming(role);
        let mut all = Vec::new();
        for e in events.iter() {
            all.extend(c.step(*e));
        }
        let acks = if role.acknowledges() { 3 } else { 0 };
        let posts = if role.posts_to_slack() { 2 } else { 0 };
        assert_eq!(count(&all, Action::Acknowledge), acks);
        assert_eq!(count(&all, Action::Report), 2);
        assert_eq!(count(&all, Action::PostToSlack), posts);
    }
}

#[test]
fn roles() {
    assert_eq!(Role::ErrorAlerts.queue(), "*.error");
    assert_eq!(Role::ErrorWatch.queue(), "*.error");
    assert_eq!(Role::ActivityLog.queue(), "*.logs");
    assert!(Role::ErrorAlerts.acknowledges());
    assert!(Role::ActivityLog.acknowledges());
    assert!(!Role::ErrorWatch.acknowledges());
    assert!(Role::ErrorAlerts.posts_to_slack());
    assert!(!Role::ActivityLog.posts_to_slack());
    assert!(!Role::ErrorWatch.posts_to_slack());
    assert_eq!(Role::ErrorAlerts.received_label(), "New error received");
    assert_eq!(Role::ErrorWatch.received_label(), "New error received");
    assert_eq!(Role::ActivityLog.received_label(), "New activity received");
}
