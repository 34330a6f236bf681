use thalia::service::{termination_outcome, RuntimeSettings, TerminationSignal};

#[test]
fn termination_notices() {
    assert_eq!(TerminationSignal::Alarm.notice(), "SIGALRM received, terminating the indexer now!");
    assert_eq!(TerminationSignal::Hangup.notice(), "SIGHUP received, terminating the indexer now!");
    assert_eq!(TerminationSignal::Interrupt.notice(), "SIGINT received, terminating the indexer now!");
    assert_eq!(TerminationSignal::Pipe.notice(), "SIGPIPE received, terminating the indexer now!");
    assert_eq!(TerminationSignal::Quit.notice(), "SIGQUIT received, terminating the indexer now!");
    assert_eq!(TerminationSignal::Terminate.notice(), "SIGTERM received, terminating the indexer now!");
    assert_eq!(TerminationSignal::UserDefined1.notice(), "SIGUSR1 received, terminating tdhe indexer now!");
    assert_eq!(TerminationSignal::UserDefined2.notice(), "SIGUSR2 received, terminating the indexer now!");
}

#[test]
fn termination_outcomes() {
    assert_eq!(termination_outcome(None), "Indexer was gracefully terminated.");
    assert_eq!(
        termination_outcome(Some("task panicked")),
        "There was an error terminating the application gracefully due to task panicked"
    );
}

#[test]
fn runtime_settings() {
    let r = RuntimeSettings::with_workers(8);
    assert_eq!(r.worker_threads, 8);
    assert_eq!(r.thread_keep_alive_secs, 60000);
    assert_eq!(r.thread_stack_size, 96 * 1024 * 1024);
    let here = RuntimeSettings::for_this_machine();
    assert!(here.worker_threads >= 1);
    assert_eq!(here.thread_stack_size, 100663296);
}
