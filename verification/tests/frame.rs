use discidium::api::frame::{heartbeat_frame, identify_frame};

fn json(text: &str) -> serde_json::Value {
    serde_json::from_str(text).unwrap()
}

#[test]
fn heartbeat_frame_carries_the_sequence() {
    assert_eq!(heartbeat_frame(Some(3)), r#"{"d":3,"op":1}"#);
    assert_eq!(json(&heartbeat_frame(Some(3))), json(r#"{"op":1,"d":3}"#));
    assert_eq!(json(&heartbeat_frame(Some(0))), json(r#"{"op":1,"d":0}"#));
    assert_eq!(
        json(&heartbeat_frame(Some(usize::MAX))),
        json(&format!(r#"{{"op":1,"d":{}}}"#, usize::MAX))
    );
}

#[test]
fn heartbeat_frame_without_a_sequence_carries_null() {
    assert_eq!(heartbeat_frame(None), r#"{"d":null,"op":1}"#);
    assert_eq!(json(&heartbeat_frame(None)), json(r#"{"op":1,"d":null}"#));
}

#[test]
fn identify_frame_is_the_documented_one() {
    let expected = json(
        r#"{"op":2,"d":{"token":"t0k3n","properties":{"os":"linux","browser":"discidium",
        "device":"discidium"},"large_threshold":50,"compress":true}}"#,
    );
    assert_eq!(json(&identify_frame("t0k3n", "linux")), expected);
}

#[test]
fn identify_frame_escapes_what_it_is_given() {
    let frame = json(&identify_frame("a\"b\\c\n", "os/2 \u{1F600}"));
    assert_eq!(frame["op"], 2);
    assert_eq!(frame["d"]["token"], "a\"b\\c\n");
    assert_eq!(frame["d"]["properties"]["os"], "os/2 \u{1F600}");
    assert_eq!(frame["d"]["large_threshold"], 50);
    assert_eq!(frame["d"]["compress"], true);
    assert_eq!(frame["d"].as_object().unwrap().len(), 4);
    assert_eq!(frame["d"]["properties"].as_object().unwrap().len(), 3);
    assert_eq!(frame.as_object().unwrap().len(), 2);
}
