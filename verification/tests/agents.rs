use std::sync::{Arc, Mutex};

use autogen::agent::assistant::Assistant;
use autogen::agent::user_proxy::UserProxy;
use autogen::agent::{
    Agent, AgentCtx, AgentMessage, AgentReplyTrigger, AssistantAgent, Delivery, ReplyCallback,
    ReplySource,
};
use autogen::config::{AgentSettings, Config};
use autogen::error::AgentError;
use autogen::log::ConversationLog;

struct Recording {
    calls: Arc<Mutex<u32>>,
    payload: Option<String>,
}

impl ReplyCallback for Recording {
    fn reply(&mut self, _log: &mut ConversationLog) -> Option<String> {
        *self.calls.lock().unwrap() += 1;
        self.payload.clone()
    }
}

struct Summarising;

impl ReplyCallback for Summarising {
    fn reply(&mut self, log: &mut ConversationLog) -> Option<String> {
        let seen = log.exchanged("user");
        log.append("audit", format!("asked after {seen} payloads"));
        Some(format!("seen {seen}"))
    }
}

fn text(s: &str) -> String {
    s.to_owned()
}

fn arrival(to: &str, from: &str, message: &str, request_reply: bool) -> Delivery {
    Delivery {
        to: AgentCtx::new(to),
        envelope: AgentMessage::Receive {
            recipient: AgentCtx::new(from),
            message: text(message),
            request_reply,
        },
    }
}

fn limited(ceiling: u32) -> AgentSettings {
    let mut settings = AgentSettings::default();
    settings.max_consecutive_auto_reply = ceiling;
    settings
}

fn config(model: &str) -> Config {
    Config {
        model: text(model),
        base_url: text("https://example.invalid/v1"),
        api_key: text("not-a-real-key"),
        api_type: None,
        api_version: Some(text("2024-01-01")),
    }
}

#[test]
fn agent_ctx_is_its_name() {
    let ctx = AgentCtx::new("user_proxy");
    assert_eq!(ctx.name, "user_proxy");
    assert_eq!(ctx.clone(), ctx);
    assert_ne!(ctx, AgentCtx::new("assistant"));
}

#[test]
fn messages_clone_equal() {
    let message = AgentMessage::Send {
        recipient: AgentCtx::new("assistant"),
        message: text("hello"),
        request_reply: true,
    };
    assert_eq!(message.clone(), message);
    assert_eq!(AgentMessage::Reset.clone(), AgentMessage::Reset);
    let delivery = arrival("assistant", "user", "hello", false);
    assert_eq!(delivery.clone(), delivery);
}

#[test]
fn new_user_proxy_has_exchanged_nothing() {
    let user = UserProxy::new("user_proxy", vec![config("gpt-4")]);
    assert_eq!(user.ctx, AgentCtx::new("user_proxy"));
    assert_eq!(user.config_list, vec![config("gpt-4")]);
    assert!(user.messages.is_empty());
    assert_eq!(user.consecutive_auto_replies, 0);
    assert_eq!(user.settings, AgentSettings::default());
}

#[test]
fn new_assistant_has_no_callbacks() {
    let assistant = Assistant::new("assistant", Vec::new());
    assert_eq!(assistant.ctx, AgentCtx::new("assistant"));
    assert!(assistant.messages.is_empty());
    assert_eq!(assistant.consecutive_auto_replies, 0);
    assert_eq!(assistant.settings, AgentSettings::assistant());
    assert_eq!(assistant.reply_fn_list.len(), 0);
    assert_eq!(assistant.reply_source(&AgentCtx::new("user")), ReplySource::Default);
}

#[test]
fn generate_reply_is_the_placeholder_for_both_agents() {
    let user = UserProxy::new("user", Vec::new());
    let assistant = Assistant::new("assistant", Vec::new());
    assert_eq!(user.generate_reply(), Some(text("fake message")));
    assert_eq!(assistant.generate_reply(), Some(text("fake message")));
}

#[test]
fn initiate_chat_sends_like_send() {
    let mut opener = UserProxy::new("user", Vec::new());
    let mut sender = UserProxy::new("user", Vec::new());
    let first = opener.initiate_chat(AgentCtx::new("assistant"), text("ping"), true);
    let second = sender.send(AgentCtx::new("assistant"), text("ping"), true);
    assert_eq!(first, second);
    assert_eq!(first, arrival("assistant", "user", "ping", true));
    assert_eq!(opener.messages.history("assistant"), sender.messages.history("assistant"));
    assert_eq!(opener.messages.history("assistant"), vec![text("ping")]);
}

#[test]
fn initiate_chat_envelope_reaches_the_recipient_with_the_sender_as_reply_address() {
    let mut a = UserProxy::new("a", Vec::new());
    let opening = AgentMessage::InitiateChat {
        recipient: AgentCtx::new("b"),
        message: text("M"),
        request_reply: true,
    };
    let delivery = a.handle(opening).unwrap().unwrap();
    assert_eq!(delivery.to, AgentCtx::new("b"));
    assert_eq!(
        delivery.envelope,
        AgentMessage::Receive { recipient: AgentCtx::new("a"), message: text("M"), request_reply: true }
    );
    let mut b = Assistant::new("b", Vec::new());
    b.handle(delivery.envelope).unwrap();
    assert_eq!(b.messages.history("a")[0], "M");
}

#[test]
fn receive_without_request_sends_nothing() {
    let mut user = UserProxy::new("user", Vec::new());
    let end = user.receive(AgentCtx::new("assistant"), text("fyi"), false);
    assert_eq!(end, Ok(None));
    assert_eq!(user.messages.history("assistant"), vec![text("fyi")]);
    assert_eq!(user.consecutive_auto_replies, 0);

    let mut assistant = Assistant::new("assistant", Vec::new());
    let calls = Arc::new(Mutex::new(0));
    assistant
        .register_repply(
            AgentReplyTrigger::Name(text("user")),
            Box::new(Recording { calls: calls.clone(), payload: Some(text("x")) }),
        )
        .unwrap();
    let end = assistant.receive(AgentCtx::new("user"), text("fyi"), false);
    assert_eq!(end, Ok(None));
    assert_eq!(*calls.lock().unwrap(), 0);
    assert_eq!(assistant.messages.history("user"), vec![text("fyi")]);
}

#[test]
fn default_reply_is_sent_once_per_request() {
    let mut assistant = Assistant::new("assistant", Vec::new());
    for round in 1..=3u32 {
        let end = assistant.receive(AgentCtx::new("user"), text("ask"), true);
        assert_eq!(end, Ok(Some(arrival("user", "assistant", "fake message", true))));
        assert_eq!(assistant.consecutive_auto_replies, round);
        assert_eq!(assistant.messages.exchanged("user"), 2 * round as usize);
    }
    assert_eq!(
        assistant.messages.history("user"),
        vec![
            text("ask"),
            text("fake message"),
            text("ask"),
            text("fake message"),
            text("ask"),
            text("fake message")
        ]
    );
}

#[test]
fn default_reply_is_used_when_only_other_triggers_are_registered() {
    let calls = Arc::new(Mutex::new(0));
    let mut assistant = Assistant::new("assistant", Vec::new());
    assistant
        .register_repply(
            AgentReplyTrigger::Name(text("critic")),
            Box::new(Recording { calls: calls.clone(), payload: Some(text("custom")) }),
        )
        .unwrap();
    let end = assistant.receive(AgentCtx::new("user"), text("ask"), true);
    assert_eq!(end, Ok(Some(arrival("user", "assistant", "fake message", true))));
    assert_eq!(*calls.lock().unwrap(), 0);
}

#[test]
fn registered_callback_is_invoked_instead_of_the_default_generator() {
    let calls = Arc::new(Mutex::new(0));
    let mut assistant = Assistant::new("assistant", Vec::new());
    let done = assistant.register_repply(
        AgentReplyTrigger::Name(text("user")),
        Box::new(Recording { calls: calls.clone(), payload: Some(text("custom reply")) }),
    );
    assert_eq!(done, Ok(()));
    assert_eq!(assistant.reply_source(&AgentCtx::new("user")), ReplySource::Registered(0));
    let end = assistant.receive(AgentCtx::new("user"), text("ask"), true);
    assert_eq!(end, Ok(Some(arrival("user", "assistant", "custom reply", true))));
    assert_eq!(*calls.lock().unwrap(), 1);
    assert_eq!(assistant.messages.history("user"), vec![text("ask"), text("custom reply")]);
    assert_eq!(assistant.consecutive_auto_replies, 1);
}

#[test]
fn callback_sees_the_log_after_the_arrival_and_may_change_it() {
    let mut assistant = Assistant::new("assistant", Vec::new());
    assistant
        .register_repply(AgentReplyTrigger::Name(text("user")), Box::new(Summarising))
        .unwrap();
    let end = assistant.handle(AgentMessage::Receive {
        recipient: AgentCtx::new("user"),
        message: text("first"),
        request_reply: true,
    });
    assert_eq!(end, Ok(Some(arrival("user", "assistant", "seen 1", true))));
    assert_eq!(assistant.messages.history("user"), vec![text("first"), text("seen 1")]);
    assert_eq!(assistant.messages.history("audit"), vec![text("asked after 1 payloads")]);
}

#[test]
fn duplicate_trigger_is_refused_and_the_first_callback_stays() {
    let first = Arc::new(Mutex::new(0));
    let second = Arc::new(Mutex::new(0));
    let mut assistant = Assistant::new("assistant", Vec::new());
    assistant
        .register_repply(
            AgentReplyTrigger::Name(text("user")),
            Box::new(Recording { calls: first.clone(), payload: Some(text("first")) }),
        )
        .unwrap();
    let done = assistant.register_repply(
        AgentReplyTrigger::Name(text("user")),
        Box::new(Recording { calls: second.clone(), payload: Some(text("second")) }),
    );
    assert_eq!(done, Err(AgentError::DuplicateTrigger));
    assert_eq!(assistant.reply_fn_list.len(), 1);
    let end = assistant.receive(AgentCtx::new("user"), text("ask"), true);
    assert_eq!(end, Ok(Some(arrival("user", "assistant", "first", true))));
    assert_eq!(*first.lock().unwrap(), 1);
    assert_eq!(*second.lock().unwrap(), 0);
}

#[test]
fn ceiling_stops_automatic_replies_and_is_reported() {
    let mut user = UserProxy::with_settings("user", Vec::new(), limited(2));
    let asks = |agent: &mut UserProxy| agent.receive(AgentCtx::new("assistant"), text("ask"), true);
    assert_eq!(asks(&mut user), Ok(Some(arrival("assistant", "user", "fake message", true))));
    assert_eq!(asks(&mut user), Ok(Some(arrival("assistant", "user", "fake message", true))));
    assert_eq!(asks(&mut user), Err(AgentError::ReplyCeilingExceeded));
    assert_eq!(asks(&mut user), Err(AgentError::ReplyCeilingExceeded));
    assert_eq!(user.consecutive_auto_replies, 2);
    assert_eq!(user.messages.exchanged("assistant"), 6);
    assert_eq!(user.receive(AgentCtx::new("assistant"), text("fyi"), false), Ok(None));
}

#[test]
fn ceiling_of_zero_never_replies() {
    let mut user = UserProxy::with_settings("user", Vec::new(), limited(0));
    let end = user.receive(AgentCtx::new("assistant"), text("ask"), true);
    assert_eq!(end, Err(AgentError::ReplyCeilingExceeded));
    assert_eq!(user.messages.history("assistant"), vec![text("ask")]);
}

#[test]
fn ceiling_holds_for_registered_callbacks_too() {
    let calls = Arc::new(Mutex::new(0));
    let mut settings = AgentSettings::assistant();
    settings.max_consecutive_auto_reply = 1;
    let mut assistant = Assistant::with_settings("assistant", Vec::new(), settings);
    assistant
        .register_repply(
            AgentReplyTrigger::Name(text("user")),
            Box::new(Recording { calls: calls.clone(), payload: Some(text("custom")) }),
        )
        .unwrap();
    assert!(assistant.receive(AgentCtx::new("user"), text("ask"), true).unwrap().is_some());
    let end = assistant.receive(AgentCtx::new("user"), text("ask"), true);
    assert_eq!(end, Err(AgentError::ReplyCeilingExceeded));
    assert_eq!(*calls.lock().unwrap(), 1);
}

#[test]
fn reset_clears_the_log_for_all_counterparts_and_nothing_else() {
    let mut user = UserProxy::new("user", vec![config("gpt-4")]);
    let mut other = Assistant::new("assistant", Vec::new());
    user.send(AgentCtx::new("assistant"), text("one"), false);
    user.send(AgentCtx::new("critic"), text("two"), false);
    user.receive(AgentCtx::new("assistant"), text("ask"), true).unwrap();
    other.receive(AgentCtx::new("user"), text("one"), false).unwrap();
    assert_eq!(user.consecutive_auto_replies, 1);

    let end = user.handle(AgentMessage::Reset);
    assert_eq!(end, Ok(None));
    assert!(user.messages.is_empty());
    assert_eq!(user.messages.history("assistant"), Vec::<String>::new());
    assert_eq!(user.messages.history("critic"), Vec::<String>::new());
    assert_eq!(user.consecutive_auto_replies, 0);
    assert_eq!(user.ctx, AgentCtx::new("user"));
    assert_eq!(user.config_list, vec![config("gpt-4")]);
    assert_eq!(other.messages.history("user"), vec![text("one")]);
}

#[test]
fn reset_keeps_the_callbacks_of_an_assistant() {
    let calls = Arc::new(Mutex::new(0));
    let mut assistant = Assistant::new("assistant", Vec::new());
    assistant
        .register_repply(
            AgentReplyTrigger::Name(text("user")),
            Box::new(Recording { calls: calls.clone(), payload: None }),
        )
        .unwrap();
    assistant.receive(AgentCtx::new("user"), text("x"), false).unwrap();
    assistant.reset();
    assert!(assistant.messages.is_empty());
    assert_eq!(assistant.reply_source(&AgentCtx::new("user")), ReplySource::Registered(0));
}

#[test]
fn reset_after_the_ceiling_allows_replies_again() {
    let mut user = UserProxy::with_settings("user", Vec::new(), limited(1));
    user.receive(AgentCtx::new("assistant"), text("ask"), true).unwrap();
    assert_eq!(
        user.receive(AgentCtx::new("assistant"), text("ask"), true),
        Err(AgentError::ReplyCeilingExceeded)
    );
    user.reset();
    assert_eq!(
        user.receive(AgentCtx::new("assistant"), text("ask"), true),
        Ok(Some(arrival("assistant", "user", "fake message", true)))
    );
}

#[test]
fn process_received_message_of_the_user_proxy_logs_only() {
    let mut user = UserProxy::new("user", Vec::new());
    user.process_received_message(&AgentCtx::new("assistant"), text("note"));
    assert_eq!(user.messages.history("assistant"), vec![text("note")]);
    assert_eq!(user.consecutive_auto_replies, 0);
}
