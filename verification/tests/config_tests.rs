use thalia::config::{
    amqp_url_variable, environment_type, is_development_environment, machine_name,
    must_be_set_message, AppState, ENVIRONMENT_VARIABLE, EXCHANGE_VARIABLE, SLACK_HOOK_VARIABLE,
};

#[test]
fn environment_type_is_upper_cased() {
    assert_eq!(environment_type("dev"), "DEV");
    assert_eq!(environment_type("Production"), "PRODUCTION");
    assert_eq!(environment_type(""), "");
}

#[test]
fn development_environments() {
    assert!(is_development_environment("DEVELOPMENT"));
    assert!(is_development_environment("DEV"));
    assert!(!is_development_environment("dev"));
    assert!(!is_development_environment("PRODUCTION"));
    assert!(!is_development_environment("DEVELOP"));
    assert!(!is_development_environment(""));
}

#[test]
fn development_reads_the_machine_url() {
    assert_eq!(amqp_url_variable("DEV", "ALICE"), "ALICE_AMQP_URL");
    assert_eq!(amqp_url_variable("DEVELOPMENT", "BOB"), "BOB_AMQP_URL");
}

#[test]
fn other_environments_read_the_shared_url() {
    assert_eq!(amqp_url_variable("PRODUCTION", "ALICE"), "AMQP_URL");
    assert_eq!(amqp_url_variable("STAGING", "ALICE"), "AMQP_URL");
    assert_eq!(amqp_url_variable("", "ALICE"), "AMQP_URL");
}

#[test]
fn raw_environment_goes_through_upper_casing() {
    let env_type = environment_type("development");
    assert_eq!(amqp_url_variable(&env_type, "CAROL"), "CAROL_AMQP_URL");
}

#[test]
fn machine_name_is_upper_case() {
    let name = machine_name();
    assert_eq!(name, name.to_uppercase());
}

#[test]
fn missing_variable_messages() {
    assert_eq!(must_be_set_message("AMQP_URL"), "AMQP_URL must be set");
    assert_eq!(must_be_set_message("ALICE_AMQP_URL"), "ALICE_AMQP_URL must be set");
    assert_eq!(must_be_set_message(ENVIRONMENT_VARIABLE), "ENVIRONMENT must be set");
    assert_eq!(must_be_set_message(EXCHANGE_VARIABLE), "MQ_EXCHANGE must be set");
    assert_eq!(must_be_set_message(SLACK_HOOK_VARIABLE), "SLACK_HOOK must be set");
}

#[test]
fn app_state_holds_its_settings() {
    let state = AppState::new("amqp://localhost".to_string(), "events".to_string());
    let copy = state.clone();
    assert_eq!(copy.amqp_url, "amqp://localhost");
    assert_eq!(copy.amqp_exchange, "events");
}
