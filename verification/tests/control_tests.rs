use audio_forwarder::codec::Codec;
use audio_forwarder::control::{
    apply_control, interpret_control, ControlAction, ControlData, ControlEnvelope,
};
use audio_forwarder::packet::encode_frame;

fn envelope(msg_type: &str, data: Option<ControlData>) -> ControlEnvelope {
    ControlEnvelope {
        msg_type: msg_type.to_string(),
        data,
    }
}

#[test]
fn voice_context_with_source_sets_the_source_tag() {
    // {"type":"VOICE_CONTEXT","data":{"source":7}}
    let message = envelope("VOICE_CONTEXT", Some(ControlData { source: Some(7) }));
    assert_eq!(interpret_control(Some(&message)), ControlAction::SetSource(7));
    let source = apply_control(1, Some(&message));
    assert_eq!(source, 7);
    let frame = encode_frame(source, Codec::Pcm16Le, 2, 48_000, 5, 0, &[0; 4]);
    assert_eq!(frame[5], 7);
}

#[test]
fn unparsed_text_leaves_the_source_tag_unchanged() {
    assert_eq!(interpret_control(None), ControlAction::PassThrough);
    assert_eq!(apply_control(3, None), 3);
    assert_eq!(apply_control(255, None), 255);
}

#[test]
fn other_message_types_pass_through() {
    let message = envelope("PING", Some(ControlData { source: Some(7) }));
    assert_eq!(interpret_control(Some(&message)), ControlAction::PassThrough);
    assert_eq!(apply_control(1, Some(&message)), 1);
    let lower = envelope("voice_context", Some(ControlData { source: Some(7) }));
    assert_eq!(interpret_control(Some(&lower)), ControlAction::PassThrough);
    let empty = envelope("", Some(ControlData { source: Some(7) }));
    assert_eq!(interpret_control(Some(&empty)), ControlAction::PassThrough);
}

#[test]
fn voice_context_without_a_source_passes_through() {
    let no_data = envelope("VOICE_CONTEXT", None);
    assert_eq!(interpret_control(Some(&no_data)), ControlAction::PassThrough);
    assert_eq!(apply_control(4, Some(&no_data)), 4);
    let no_source = envelope("VOICE_CONTEXT", Some(ControlData { source: None }));
    assert_eq!(interpret_control(Some(&no_source)), ControlAction::PassThrough);
    assert_eq!(apply_control(4, Some(&no_source)), 4);
}

#[test]
fn voice_context_takes_the_whole_range_of_sources() {
    for source in [0u8, 1, 127, 255] {
        let message = envelope("VOICE_CONTEXT", Some(ControlData { source: Some(source) }));
        assert_eq!(interpret_control(Some(&message)), ControlAction::SetSource(source));
        assert_eq!(apply_control(9, Some(&message)), source);
    }
}

fn read_envelope(text: &str) -> Option<ControlEnvelope> {
    let value: serde_json::Value = serde_json::from_str(text).ok()?;
    let msg_type = value.get("type")?.as_str()?.to_string();
    let data = match value.get("data") {
        Some(data) if !data.is_null() => Some(ControlData {
            source: data
                .get("source")
                .and_then(|source| source.as_u64())
                .and_then(|source| u8::try_from(source).ok()),
        }),
        _ => None,
    };
    Some(ControlEnvelope { msg_type, data })
}

#[test]
fn voice_context_text_retargets_the_next_frame() {
    let parsed = read_envelope("{\"type\":\"VOICE_CONTEXT\",\"data\":{\"source\":7}}");
    assert!(parsed.is_some());
    let source = apply_control(1, parsed.as_ref());
    assert_eq!(source, 7);
    let frame = encode_frame(source, Codec::Pcm16Le, 2, 48_000, 0, 0, &[0; 4]);
    assert_eq!(frame[5], 7);
}

#[test]
fn malformed_text_changes_nothing() {
    let parsed = read_envelope("{\"type\":\"VOICE_CONTEXT\",\"data\":{\"source\":7}");
    assert!(parsed.is_none());
    assert_eq!(interpret_control(parsed.as_ref()), ControlAction::PassThrough);
    assert_eq!(apply_control(1, parsed.as_ref()), 1);
    let frame = encode_frame(apply_control(1, parsed.as_ref()), Codec::Pcm16Le, 2, 48_000, 0, 0, &[]);
    assert_eq!(frame[5], 1);
}

#[test]
fn informational_text_changes_nothing() {
    for text in ["hello", "", "{}", "{\"type\":\"STATUS\",\"data\":{\"source\":7}}", "[1,2]"] {
        let parsed = read_envelope(text);
        assert_eq!(apply_control(9, parsed.as_ref()), 9);
    }
}
