use autogen::config::{
    copy_configs, AgentSettings, Config, ASSISTANT_DESCRIPTION, ASSISTANT_SYSTEM_MESSAGE,
    DEFAULT_MODEL, DEFAULT_REPLY, MAILBOX_CAPACITY, MAX_CONSECUTIVE_AUTO_REPLY,
};

fn sample(model: &str) -> Config {
    Config {
        model: model.to_owned(),
        base_url: "https://example.invalid/v1".to_owned(),
        api_key: "not-a-real-key".to_owned(),
        api_type: Some("open".to_owned()),
        api_version: None,
    }
}

#[test]
fn constants_have_their_documented_values() {
    assert_eq!(DEFAULT_MODEL, "gpt-4");
    assert_eq!(MAX_CONSECUTIVE_AUTO_REPLY, 100);
    assert_eq!(MAILBOX_CAPACITY, 100);
    assert_eq!(DEFAULT_REPLY, "fake message");
}

#[test]
fn plain_settings_have_no_description_and_no_system_message() {
    let settings = AgentSettings::default();
    assert_eq!(settings.model, "gpt-4");
    assert_eq!(settings.description, "");
    assert_eq!(settings.system_message, "");
    assert_eq!(settings.max_consecutive_auto_reply, 100);
}

#[test]
fn assistant_settings_carry_the_assistant_texts() {
    let settings = AgentSettings::assistant();
    assert_eq!(settings.model, "gpt-4");
    assert_eq!(settings.description, ASSISTANT_DESCRIPTION);
    assert_eq!(settings.system_message, ASSISTANT_SYSTEM_MESSAGE);
    assert_eq!(settings.max_consecutive_auto_reply, 100);
    assert!(settings.system_message.starts_with("You are a helpful AI assistant.\nSolve tasks"));
    assert!(settings.system_message.ends_with("Reply \"TERMINATE\" in the end when everything is done."));
}

#[test]
fn settings_clone_is_equal() {
    let mut settings = AgentSettings::assistant();
    settings.max_consecutive_auto_reply = 7;
    settings.model = "other".to_owned();
    let copy = settings.clone();
    assert_eq!(copy, settings);
    assert_eq!(copy.max_consecutive_auto_reply, 7);
}

#[test]
fn config_clone_is_equal() {
    let config = sample("gpt-4");
    let copy = config.clone();
    assert_eq!(copy, config);
    assert_eq!(copy.api_type, Some("open".to_owned()));
    assert_eq!(copy.api_version, None);
}

#[test]
fn copy_configs_keeps_entries_and_order() {
    let list = vec![sample("a"), sample("b"), sample("c")];
    let copy = copy_configs(&list);
    assert_eq!(copy, list);
    assert_eq!(copy[0].model, "a");
    assert_eq!(copy[2].model, "c");
}

#[test]
fn copy_configs_of_nothing_is_nothing() {
    assert_eq!(copy_configs(&Vec::new()), Vec::<Config>::new());
}
