use autogen::log::ConversationLog;

fn text(s: &str) -> String {
    s.to_owned()
}

#[test]
fn new_log_is_empty() {
    let log = ConversationLog::new();
    assert!(log.is_empty());
    assert_eq!(log.history("anyone"), Vec::<String>::new());
    assert_eq!(log.exchanged("anyone"), 0);
}

#[test]
fn append_keeps_order_per_counterpart() {
    let mut log = ConversationLog::new();
    log.append("assistant", text("one"));
    log.append("critic", text("uno"));
    log.append("assistant", text("two"));
    log.append("assistant", text("three"));
    assert_eq!(log.history("assistant"), vec![text("one"), text("two"), text("three")]);
    assert_eq!(log.history("critic"), vec![text("uno")]);
    assert_eq!(log.exchanged("assistant"), 3);
    assert_eq!(log.exchanged("critic"), 1);
    assert!(!log.is_empty());
}

#[test]
fn append_creates_the_history_of_a_new_counterpart() {
    let mut log = ConversationLog::new();
    assert_eq!(log.exchanged("assistant"), 0);
    log.append("assistant", text("hello"));
    assert_eq!(log.history("assistant"), vec![text("hello")]);
}

#[test]
fn history_of_an_unknown_counterpart_is_empty() {
    let mut log = ConversationLog::new();
    log.append("assistant", text("hello"));
    assert_eq!(log.history("nobody"), Vec::<String>::new());
    assert_eq!(log.history("assistan"), Vec::<String>::new());
    assert_eq!(log.history("assistant "), Vec::<String>::new());
    assert_eq!(log.history(""), Vec::<String>::new());
}

#[test]
fn history_is_a_copy() {
    let mut log = ConversationLog::new();
    log.append("assistant", text("hello"));
    let mut copy = log.history("assistant");
    copy.push(text("not in the log"));
    assert_eq!(log.history("assistant"), vec![text("hello")]);
}

#[test]
fn empty_name_and_empty_payload_are_kept() {
    let mut log = ConversationLog::new();
    log.append("", text(""));
    log.append("", text("x"));
    assert_eq!(log.history(""), vec![text(""), text("x")]);
    assert!(!log.is_empty());
}

#[test]
fn the_same_payload_twice_is_logged_twice() {
    let mut log = ConversationLog::new();
    log.append("assistant", text("again"));
    log.append("assistant", text("again"));
    assert_eq!(log.history("assistant"), vec![text("again"), text("again")]);
}

#[test]
fn clear_forgets_every_counterpart() {
    let mut log = ConversationLog::new();
    log.append("assistant", text("one"));
    log.append("critic", text("two"));
    log.clear();
    assert!(log.is_empty());
    assert_eq!(log.history("assistant"), Vec::<String>::new());
    assert_eq!(log.history("critic"), Vec::<String>::new());
    log.append("assistant", text("after"));
    assert_eq!(log.history("assistant"), vec![text("after")]);
}

#[test]
fn clear_of_an_empty_log_leaves_it_empty() {
    let mut log = ConversationLog::new();
    log.clear();
    assert!(log.is_empty());
}
