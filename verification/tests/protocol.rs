use toolbridge::dispatch::CallbackReply;
use toolbridge::dispatch::continuation_flag;
use toolbridge::dispatch::relay_messages;
use toolbridge::host::HostValue;

fn messages(xs: &[&str]) -> Vec<String> {
    xs.iter().map(|s| s.to_string()).collect()
}

#[test]
fn callback_reply_decides_fail_closed() {
    assert!(continuation_flag(&CallbackReply::Absent));
    assert!(!continuation_flag(&CallbackReply::Raised));
    assert!(continuation_flag(&CallbackReply::Returned(HostValue::Bool(true))));
    assert!(!continuation_flag(&CallbackReply::Returned(HostValue::Bool(false))));
    // A non-boolean return means stop.
    assert!(!continuation_flag(&CallbackReply::Returned(HostValue::Int(1))));
    assert!(!continuation_flag(&CallbackReply::Returned(HostValue::Str("yes".to_string()))));
    assert!(!continuation_flag(&CallbackReply::Returned(HostValue::Null)));
}

#[test]
fn stop_after_second_message_emits_no_further() {
    // The callback accepts "m1" and refuses "m2": the procedure observes a
    // stop request after the second message and never emits "m3".
    let msgs = messages(&["m1", "m2", "m3"]);
    let replies = vec![
        CallbackReply::Returned(HostValue::Bool(true)),
        CallbackReply::Returned(HostValue::Bool(false)),
        CallbackReply::Returned(HostValue::Bool(true)),
    ];
    let log = relay_messages(&msgs, &replies);
    assert_eq!(log.delivered, messages(&["m1", "m2"]));
    assert!(log.stopped);
}

#[test]
fn missing_callback_never_observes_a_stop() {
    let msgs = messages(&["m1", "m2", "m3"]);
    let replies = vec![CallbackReply::Absent, CallbackReply::Absent, CallbackReply::Absent];
    let log = relay_messages(&msgs, &replies);
    assert_eq!(log.delivered, msgs);
    assert!(!log.stopped);
}

#[test]
fn raising_callback_stops_immediately() {
    let msgs = messages(&["a", "b"]);
    let replies = vec![CallbackReply::Raised, CallbackReply::Absent];
    let log = relay_messages(&msgs, &replies);
    assert_eq!(log.delivered, messages(&["a"]));
    assert!(log.stopped);
}

#[test]
fn all_true_replies_deliver_everything() {
    let msgs = messages(&["a", "b"]);
    let replies = vec![
        CallbackReply::Returned(HostValue::Bool(true)),
        CallbackReply::Returned(HostValue::Bool(true)),
    ];
    let log = relay_messages(&msgs, &replies);
    assert_eq!(log.delivered, msgs);
    assert!(!log.stopped);
}

#[test]
fn no_messages_means_nothing_delivered() {
    let log = relay_messages(&vec![], &vec![]);
    assert!(log.delivered.is_empty());
    assert!(!log.stopped);
}
