//! How the service process itself runs and ends.

use vstd::prelude::*;

verus! {

/// The signals on which the service terminates.
#[derive(Clone, Copy, PartialEq, Eq, Structural, Debug)]
pub enum TerminationSignal {
    Alarm,
    Hangup,
    Interrupt,
    Pipe,
    Quit,
    Terminate,
    UserDefined1,
    UserDefined2,
}

/// What the service records when a signal ends it.
pub open spec fn notice_of(signal: TerminationSignal) -> Seq<char> {
    match signal {
        TerminationSignal::Alarm => "SIGALRM received, terminating the indexer now!"@,
        TerminationSignal::Hangup => "SIGHUP received, terminating the indexer now!"@,
        TerminationSignal::Interrupt => "SIGINT received, terminating the indexer now!"@,
        TerminationSignal::Pipe => "SIGPIPE received, terminating the indexer now!"@,
        TerminationSignal::Quit => "SIGQUIT received, terminating the indexer now!"@,
        TerminationSignal::Terminate => "SIGTERM received, terminating the indexer now!"@,
        TerminationSignal::UserDefined1 => "SIGUSR1 received, terminating tdhe indexer now!"@,
        TerminationSignal::UserDefined2 => "SIGUSR2 received, terminating the indexer now!"@,
    }
}

impl TerminationSignal {
    /// What the service records when this signal ends it.
    pub fn notice(&self) -> (res: &'static str)
        ensures
            res@ == notice_of(*self),
    {
        match self {
            TerminationSignal::Alarm => "SIGALRM received, terminating the indexer now!",
            TerminationSignal::Hangup => "SIGHUP received, terminating the indexer now!",
            TerminationSignal::Interrupt => "SIGINT received, terminating the indexer now!",
            TerminationSignal::Pipe => "SIGPIPE received, terminating the indexer now!",
            TerminationSignal::Quit => "SIGQUIT received, terminating the indexer now!",
            TerminationSignal::Terminate => "SIGTERM received, terminating the indexer now!",
            TerminationSignal::UserDefined1 => "SIGUSR1 received, terminating tdhe indexer now!",
            TerminationSignal::UserDefined2 => "SIGUSR2 received, terminating the indexer now!",
        }
    }
}

/// What the service records once its work has ended: the reason when it did
/// not end gracefully, a confirmation otherwise.
pub open spec fn outcome_of(failure: Option<Seq<char>>) -> Seq<char> {
    match failure {
        Some(reason) => "There was an error terminating the application gracefully due to "@ + reason,
        None => "Indexer was gracefully terminated."@,
    }
}

/// What the service records once its work has ended, given the reason it
/// failed to end gracefully, if it did.
pub fn termination_outcome(failure: Option<&str>) -> (res: String)
    ensures
        res@ == outcome_of(match failure {
            Some(reason) => Some(reason@),
            None => None,
        }),
{
    match failure {
        Some(reason) => String::from_str("There was an error terminating the application gracefully due to ").concat(reason),
        None => String::from_str("Indexer was gracefully terminated."),
    }
}

/// How idle worker threads are kept, in seconds.
pub const THREAD_KEEP_ALIVE_SECS: u64 = 60000;

/// The stack size of each worker thread, in bytes.
pub const THREAD_STACK_SIZE: usize = 100663296;

/// How the async runtime is built.
#[derive(Clone, Copy, PartialEq, Eq, Structural, Debug)]
pub struct RuntimeSettings {
    pub worker_threads: usize,
    pub thread_keep_alive_secs: u64,
    pub thread_stack_size: usize,
}

impl RuntimeSettings {
    /// A runtime with this many worker threads, each with a 96 MiB stack,
    /// idle threads kept for 60000 seconds.
    pub fn with_workers(worker_threads: usize) -> (res: RuntimeSettings)
        ensures
            res.worker_threads == worker_threads,
            res.thread_keep_alive_secs == 60000,
            res.thread_stack_size == 96 * 1024 * 1024,
    {
        RuntimeSettings {
            worker_threads,
            thread_keep_alive_secs: THREAD_KEEP_ALIVE_SECS,
            thread_stack_size: THREAD_STACK_SIZE,
        }
    }

    /// A runtime with one worker thread per CPU available to this process.
    pub fn for_this_machine() -> (res: RuntimeSettings)
        ensures
            res.worker_threads >= 1,
            res.thread_keep_alive_secs == 60000,
            res.thread_stack_size == 96 * 1024 * 1024,
    {
        RuntimeSettings::with_workers(available_cpus())
    }
}

/// Calls `num_cpus::get`, which its documentation says always returns at
/// least 1; how many CPUs there are depends on the machine, and nothing more
/// is stated.
#[verifier::external_body]
fn available_cpus() -> (res: usize)
    ensures
        res >= 1,
{
    num_cpus::get()
}

} // verus!
