use ama::SendStreamAcknowledge;
use ama::JsonValue;

#[test]
fn ack_wire_text_is_exactly_the_wire_shape() {
    let ack = SendStreamAcknowledge::new("E-123");
    assert_eq!(ack.id, "E-123");
    assert_eq!(ack.to_text(), "{\"envelope_id\":\"E-123\"}");
}

#[test]
fn ack_round_trips_through_the_parser() {
    let txt = SendStreamAcknowledge::new("abc-42").to_text();
    let v = ama::json::parse_json(&txt).expect("the ack must parse");
    match &v {
        JsonValue::Obj(fields) => assert_eq!(fields.len(), 1, "no extra fields"),
        other => panic!("the ack must be an object, got {:?}", other),
    }
    let id = v
        .get("envelope_id")
        .expect("the one field is envelope_id")
        .str_value()
        .expect("and it is a string");
    assert_eq!(id, "abc-42");
}

#[test]
fn ack_round_trips_under_serde_json_too() {
    let txt = SendStreamAcknowledge::new("E9").to_text();
    let v: serde_json::Value = serde_json::from_str(&txt).expect("well-formed JSON");
    let obj = v.as_object().expect("an object");
    assert_eq!(obj.len(), 1);
    assert_eq!(obj.get("envelope_id").and_then(|x| x.as_str()), Some("E9"));
}

#[test]
fn ack_escapes_and_recovers_awkward_ids() {
    for id in ["with\"quote", "back\\slash", "line\nbreak", "tab\there"] {
        let txt = SendStreamAcknowledge::new(id).to_text();
        let v: serde_json::Value = serde_json::from_str(&txt).expect("escaped JSON parses");
        assert_eq!(v.get("envelope_id").and_then(|x| x.as_str()), Some(id));
        let ours = ama::json::parse_json(&txt).expect("our parser agrees");
        let back = ours.get("envelope_id").unwrap().str_value().unwrap();
        assert_eq!(back, id);
    }
}
