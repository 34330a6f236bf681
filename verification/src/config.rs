//! Application settings taken from the process environment.

use vstd::prelude::*;

verus! {

/// What the standard library's Unicode upper-casing gives for a string.
pub uninterp spec fn uppercase(s: Seq<char>) -> Seq<char>;

/// Calls `str::to_uppercase`; the result is named `uppercase` of the input.
#[verifier::external_body]
fn to_uppercase(s: &str) -> (res: String)
    ensures
        res@ == uppercase(s@),
{
    s.to_uppercase()
}

/// An environment type (already upper-cased) that selects the per-machine broker URL.
pub open spec fn is_development(env_type: Seq<char>) -> bool {
    env_type == "DEVELOPMENT"@ || env_type == "DEV"@
}

/// Name of the variable that holds the broker URL.
pub open spec fn url_variable(env_type: Seq<char>, machine_name: Seq<char>) -> Seq<char> {
    if is_development(env_type) {
        machine_name + "_AMQP_URL"@
    } else {
        "AMQP_URL"@
    }
}

/// Only the environment types `DEVELOPMENT` and `DEV` read the broker URL
/// from the per-machine variable `<MACHINE>_AMQP_URL`; every other one reads
/// it from `AMQP_URL`.
pub proof fn lemma_url_variable_choice(env_type: Seq<char>, machine_name: Seq<char>)
    ensures
        is_development(env_type) <==> (env_type == "DEVELOPMENT"@ || env_type == "DEV"@),
        (env_type == "DEVELOPMENT"@ || env_type == "DEV"@)
            ==> url_variable(env_type, machine_name) == machine_name + "_AMQP_URL"@,
        !(env_type == "DEVELOPMENT"@ || env_type == "DEV"@)
            ==> url_variable(env_type, machine_name) == "AMQP_URL"@,
{
}

/// Upper-cases the raw value of the environment type.
pub fn environment_type(raw: &str) -> (res: String)
    ensures
        res@ == uppercase(raw@),
{
    to_uppercase(raw)
}

/// Whether the (upper-cased) environment type is a development one.
pub fn is_development_environment(env_type: &str) -> (res: bool)
    ensures
        res == is_development(env_type@),
        res <==> (env_type@ == "DEVELOPMENT"@ || env_type@ == "DEV"@),
{
    let s = String::from_str(env_type);
    s == String::from_str("DEVELOPMENT") || s == String::from_str("DEV")
}

/// The variable to read the broker URL from: `<MACHINE>_AMQP_URL` in a
/// development environment, `AMQP_URL` otherwise.
pub fn amqp_url_variable(env_type: &str, machine_name: &str) -> (res: String)
    ensures
        res@ == url_variable(env_type@, machine_name@),
{
    if is_development_environment(env_type) {
        String::from_str(machine_name).concat("_AMQP_URL")
    } else {
        String::from_str("AMQP_URL")
    }
}

/// Calls `whoami::username`; the user name depends on the machine, so
/// nothing is stated of it.
#[verifier::external_body]
fn current_username() -> (res: String) {
    whoami::username()
}

/// The name of this machine's user, upper-cased, as the per-machine variable
/// names use it.
pub fn machine_name() -> (res: String)
    ensures
        exists|user: Seq<char>| res@ == uppercase(user),
{
    let user = current_username();
    to_uppercase(user.as_str())
}

/// The variable that holds the environment type.
pub const ENVIRONMENT_VARIABLE: &'static str = "ENVIRONMENT";

/// The variable that holds the exchange name.
pub const EXCHANGE_VARIABLE: &'static str = "MQ_EXCHANGE";

/// The variable that holds the Slack hook for errors.
pub const SLACK_HOOK_VARIABLE: &'static str = "SLACK_HOOK";

/// The message of a missing variable.
pub open spec fn must_be_set(name: Seq<char>) -> Seq<char> {
    name + " must be set"@
}

/// The message given when the variable `name` is not set.
pub fn must_be_set_message(name: &str) -> (res: String)
    ensures
        res@ == must_be_set(name@),
{
    String::from_str(name).concat(" must be set")
}

/// The broker settings the service runs with.
#[derive(Clone, Debug)]
pub struct AppState {
    pub amqp_url: String,
    pub amqp_exchange: String,
}

impl AppState {
    /// Settings with this broker URL and exchange.
    pub fn new(amqp_url: String, amqp_exchange: String) -> (res: AppState)
        ensures
            res.amqp_url@ == amqp_url@,
            res.amqp_exchange@ == amqp_exchange@,
    {
        AppState { amqp_url, amqp_exchange }
    }
}

} // verus!
