use ama::classify;
use ama::ReceivedStreamData;
use ama::ReceivedStreamDataEvent;

#[test]
fn classify_events_api_user_message() {
    let frame = "{\"type\":\"events_api\",\"envelope_id\":\"E-1\",\"payload\":{\"event_id\":\"Ev1\",\"type\":\"event_callback\",\"event\":{\"user\":\"U1\",\"type\":\"message\",\"ts\":\"123.45\",\"client_msg_id\":\"M1\",\"text\":\"hi\"}}}";
    let env = classify(frame).expect("frame should classify");
    match &env {
        ReceivedStreamData::EventsApi { id, payload } => {
            assert_eq!(id, "E-1");
            assert_eq!(payload.event_id, "Ev1");
            assert_eq!(payload.event_type, "event_callback");
            match &payload.event {
                ReceivedStreamDataEvent::User(u) => {
                    assert_eq!(u.user_id, "U1");
                    assert_eq!(u.category, "message");
                    assert_eq!(u.create_timestamp, "123.45");
                    assert_eq!(u.message_id, "M1");
                    assert_eq!(u.content, "hi");
                }
                other => panic!("expected user event, got {:?}", other),
            }
        }
        other => panic!("expected events_api, got {:?}", other),
    }
    assert_eq!(env.get_id().as_deref(), Some("E-1"));
    let body = env.get_body().expect("events_api has a body");
    assert_eq!(body.id, "E-1");
    assert_eq!(body.payload.event_id, "Ev1");
    assert!(env.get_command().is_none());
    assert!(!env.is_disconnect());
}

#[test]
fn untagged_union_without_user_field_is_bot() {
    // The event has bot_id, type, ts and text but neither user nor
    // subtype, so the fixed decode order lands on the bot shape.
    let frame = "{\"type\":\"events_api\",\"envelope_id\":\"E7\",\"payload\":{\"event_id\":\"E1\",\"type\":\"message\",\"event\":{\"event_id\":\"E1\",\"type\":\"message\",\"bot_id\":\"B1\",\"ts\":\"123\",\"text\":\"hi\"}}}";
    let env = classify(frame).expect("frame should classify");
    match &env {
        ReceivedStreamData::EventsApi { payload, .. } => match &payload.event {
            ReceivedStreamDataEvent::Bot(b) => {
                assert_eq!(b.bot_id, "B1");
                assert_eq!(b.create_timestamp, "123");
                assert_eq!(b.content, "hi");
            }
            other => panic!("expected bot event, got {:?}", other),
        },
        other => panic!("expected events_api, got {:?}", other),
    }
}

#[test]
fn untagged_union_with_subtype_is_application() {
    let frame = "{\"type\":\"events_api\",\"envelope_id\":\"E8\",\"payload\":{\"event_id\":\"Ev8\",\"type\":\"event_callback\",\"event\":{\"bot_id\":\"B2\",\"type\":\"message\",\"subtype\":\"bot_message\",\"ts\":\"9.9\",\"text\":\"note\",\"attachments\":[{\"title\":\"t1\",\"text\":\"b1\"},{\"title\":\"t2\",\"text\":\"b2\"}]}}}";
    let env = classify(frame).expect("frame should classify");
    match &env {
        ReceivedStreamData::EventsApi { payload, .. } => match &payload.event {
            ReceivedStreamDataEvent::Application(a) => {
                assert_eq!(a.bot_id, "B2");
                assert_eq!(a.sub_category, "bot_message");
                assert_eq!(a.attachments.len(), 2);
                assert_eq!(a.attachments[0].title, "t1");
                assert_eq!(a.attachments[1].content, "b2");
            }
            other => panic!("expected application event, got {:?}", other),
        },
        other => panic!("expected events_api, got {:?}", other),
    }
}

#[test]
fn application_without_attachments_gets_empty_row() {
    let frame = "{\"type\":\"events_api\",\"envelope_id\":\"E9\",\"payload\":{\"event_id\":\"Ev9\",\"type\":\"event_callback\",\"event\":{\"bot_id\":\"B3\",\"type\":\"message\",\"subtype\":\"me_message\",\"ts\":\"1\",\"text\":\"x\"}}}";
    let env = classify(frame).expect("frame should classify");
    match &env {
        ReceivedStreamData::EventsApi { payload, .. } => match &payload.event {
            ReceivedStreamDataEvent::Application(a) => {
                assert!(a.attachments.is_empty());
            }
            other => panic!("expected application event, got {:?}", other),
        },
        other => panic!("expected events_api, got {:?}", other),
    }
}

#[test]
fn classify_hello_has_no_id() {
    let env = classify("{\"type\":\"hello\",\"num_connections\":3}").expect("hello classifies");
    match &env {
        ReceivedStreamData::Hello { num_connections } => assert_eq!(*num_connections, 3),
        other => panic!("expected hello, got {:?}", other),
    }
    assert!(env.get_id().is_none());
    assert!(env.get_body().is_none());
}

#[test]
fn classify_disconnect() {
    let env = classify("{\"type\":\"disconnect\",\"reason\":\"test\"}").expect("disconnect classifies");
    match &env {
        ReceivedStreamData::Disconnect { reason } => assert_eq!(reason, "test"),
        other => panic!("expected disconnect, got {:?}", other),
    }
    assert!(env.is_disconnect());
    assert!(env.get_id().is_none());
}

#[test]
fn classify_slash_command() {
    let frame = "{\"type\":\"slash_commands\",\"envelope_id\":\"C1\",\"payload\":{\"trigger_id\":\"T1\",\"command\":\"/make\",\"text\":\"args here\",\"user_name\":\"sam\",\"channel_id\":\"CH1\"}}";
    let env = classify(frame).expect("command classifies");
    assert_eq!(env.get_id().as_deref(), Some("C1"));
    let cmd = env.get_command().expect("slash command has a command");
    assert_eq!(cmd.id, "C1");
    assert_eq!(cmd.payload.trigger_id, "T1");
    assert_eq!(cmd.payload.command, "/make");
    assert_eq!(cmd.payload.command_args, "args here");
    assert_eq!(cmd.payload.user_name, "sam");
    assert_eq!(cmd.payload.channel_id, "CH1");
}

#[test]
fn classify_interactive() {
    let frame = "{\"type\":\"interactive\",\"envelope_id\":\"I1\",\"payload\":{\"type\":\"view_submission\",\"view\":{\"state\":{\"values\":[1,2]}}}}";
    let env = classify(frame).expect("interactive classifies");
    assert_eq!(env.get_id().as_deref(), Some("I1"));
    match &env {
        ReceivedStreamData::Interactive { payload, .. } => {
            assert_eq!(payload.category, "view_submission");
            let vals = payload.view.state.get("values").expect("state keeps its shape");
            assert!(matches!(vals, ama::JsonValue::Arr(_)));
        }
        other => panic!("expected interactive, got {:?}", other),
    }
}

#[test]
fn unknown_kind_is_unhandled_not_an_error() {
    let env = classify("{\"type\":\"brand_new_kind\",\"anything\":1}").expect("unknown tags stay usable");
    match &env {
        ReceivedStreamData::Unhandled { kind } => assert_eq!(kind, "brand_new_kind"),
        other => panic!("expected unhandled, got {:?}", other),
    }
    assert!(env.get_id().is_none());
}

#[test]
fn malformed_json_is_a_decode_error_with_raw_text() {
    let raw = "{\"type\":\"hello\",";
    let err = classify(raw).expect_err("truncated JSON must not classify");
    assert_eq!(err.raw, raw);
}

#[test]
fn missing_type_tag_is_a_decode_error() {
    assert!(classify("{\"envelope_id\":\"X\"}").is_err());
}

#[test]
fn hello_with_unusable_connection_count_is_a_decode_error() {
    assert!(classify("{\"type\":\"hello\",\"num_connections\":\"three\"}").is_err());
    assert!(classify("{\"type\":\"hello\"}").is_err());
}

#[test]
fn interactive_without_view_state_is_a_decode_error() {
    let frame = "{\"type\":\"interactive\",\"envelope_id\":\"I2\",\"payload\":{\"type\":\"view_submission\",\"view\":{}}}";
    assert!(classify(frame).is_err());
}

#[test]
fn event_matching_no_shape_is_a_decode_error() {
    // No user, no bot_id: none of the three event shapes fits.
    let frame = "{\"type\":\"events_api\",\"envelope_id\":\"E-2\",\"payload\":{\"event_id\":\"Ev\",\"type\":\"event_callback\",\"event\":{\"ts\":\"1\",\"text\":\"hi\"}}}";
    assert!(classify(frame).is_err());
}
