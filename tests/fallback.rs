use detector_gateway::api::{
    has_detections, DetectionResult, Detections, GenerationChoice, GenerationMessage,
    InputDetection, OrchestratorResponse, OutputDetection, StreamingChoice, StreamingDelta,
    StreamingResponse,
};
use detector_gateway::fallback::{apply_fallback, apply_stream_fallback, check_payload_detections};

fn result() -> DetectionResult {
    DetectionResult {
        start: serde_json::Value::from(0),
        end: 5,
        text: "hello".to_string(),
        detection_type: "pii".to_string(),
        detection: "EmailAddress".to_string(),
        detector_id: "regex".to_string(),
        score: serde_json::Number::from_f64(1.0).unwrap(),
    }
}

fn input_detections() -> Detections {
    Detections {
        input: Some(vec![InputDetection {
            message_index: 0,
            results: Some(vec![result()]),
        }]),
        output: None,
    }
}

fn model_choice(text: &str) -> GenerationChoice {
    GenerationChoice {
        finish_reason: "length".to_string(),
        index: 0,
        message: GenerationMessage {
            content: text.to_string(),
            refusal: None,
            role: "assistant".to_string(),
            tool_calls: None,
            audio: None,
        },
        logprobs: None,
    }
}

fn reply(detections: Option<Detections>) -> OrchestratorResponse {
    OrchestratorResponse {
        id: "chatcmpl-1".to_string(),
        choices: vec![model_choice("first"), model_choice("second")],
        created: 1700000000,
        model: "granite".to_string(),
        service_tier: None,
        system_fingerprint: None,
        object: Some("chat.completion".to_string()),
        usage: serde_json::Value::Null,
        detections,
        warnings: None,
    }
}

fn chunk(detections: Option<Detections>, n_choices: u32) -> StreamingResponse {
    StreamingResponse {
        id: "chunk-1".to_string(),
        object: "chat.completion.chunk".to_string(),
        created: 1700000000,
        model: "granite".to_string(),
        choices: (0..n_choices)
            .map(|i| StreamingChoice {
                index: i,
                delta: StreamingDelta {
                    content: Some("hi".to_string()),
                    role: None,
                    tool_calls: None,
                },
                logprobs: None,
                finish_reason: None,
                stop_reason: None,
            })
            .collect(),
        usage: None,
        detections,
        warnings: None,
    }
}

fn assert_fallback_choices(r: &OrchestratorResponse, text: &str) {
    assert_eq!(r.choices.len(), 1);
    let c = &r.choices[0];
    assert_eq!(c.finish_reason, "stop");
    assert_eq!(c.index, 0);
    assert_eq!(c.message.role, "assistant");
    assert_eq!(c.message.content, text);
    assert!(c.message.refusal.is_none());
    assert!(c.logprobs.is_none());
}

#[test]
fn detection_replaces_all_choices() {
    let mut r = reply(Some(input_detections()));
    apply_fallback(&mut r, &Some("blocked".to_string()));
    assert_fallback_choices(&r, "blocked");
    assert_eq!(r.id, "chatcmpl-1");
    assert!(r.detections.is_some());
}

#[test]
fn no_detections_keeps_choices() {
    let mut r = reply(None);
    apply_fallback(&mut r, &Some("blocked".to_string()));
    assert_eq!(r.choices.len(), 2);
    assert_eq!(r.choices[0].message.content, "first");
    assert_eq!(r.choices[1].message.content, "second");
    assert_eq!(r.choices[0].finish_reason, "length");
}

#[test]
fn no_fallback_message_keeps_choices() {
    let mut r = reply(Some(input_detections()));
    apply_fallback(&mut r, &None);
    assert_eq!(r.choices.len(), 2);
    assert_eq!(r.choices[0].message.content, "first");
}

#[test]
fn empty_detections_keep_choices() {
    let mut r = reply(Some(Detections {
        input: Some(vec![]),
        output: None,
    }));
    apply_fallback(&mut r, &Some("blocked".to_string()));
    assert_eq!(r.choices.len(), 2);
}

#[test]
fn output_detections_fire() {
    let d = Some(Detections {
        input: None,
        output: Some(vec![OutputDetection {
            choice_index: 0,
            results: None,
        }]),
    });
    assert!(has_detections(&d));
    assert!(!has_detections(&None));
}

#[test]
fn applying_twice_changes_nothing_more() {
    let mut r = reply(Some(input_detections()));
    apply_fallback(&mut r, &Some("blocked".to_string()));
    apply_fallback(&mut r, &Some("blocked".to_string()));
    assert_fallback_choices(&r, "blocked");

    let mut c = chunk(Some(input_detections()), 2);
    apply_stream_fallback(&mut c, &Some("blocked".to_string()));
    apply_stream_fallback(&mut c, &Some("blocked".to_string()));
    assert_eq!(c.choices[0].delta.content.as_deref(), Some("blocked"));
    assert_eq!(c.choices[0].finish_reason.as_deref(), Some("stop"));
    assert_eq!(c.choices[1].delta.content.as_deref(), Some("hi"));
}

#[test]
fn fallback_choice_is_owed_only_with_message_and_detections() {
    let c = check_payload_detections(&Some(input_detections()), Some("no".to_string())).unwrap();
    assert_eq!(c.message.content, "no");
    assert_eq!(c.finish_reason, "stop");
    assert!(check_payload_detections(&None, Some("no".to_string())).is_none());
    assert!(check_payload_detections(&Some(input_detections()), None).is_none());
}

#[test]
fn streamed_detection_rewrites_first_choice_only() {
    let mut c = chunk(
        Some(Detections {
            input: None,
            output: Some(vec![OutputDetection {
                choice_index: 0,
                results: Some(vec![result()]),
            }]),
        }),
        2,
    );
    apply_stream_fallback(&mut c, &Some("blocked".to_string()));
    assert_eq!(c.choices[0].delta.content.as_deref(), Some("blocked"));
    assert_eq!(c.choices[0].delta.role.as_deref(), Some("assistant"));
    assert!(c.choices[0].delta.tool_calls.is_none());
    assert_eq!(c.choices[0].finish_reason.as_deref(), Some("stop"));
    assert_eq!(c.choices[0].index, 0);
    assert_eq!(c.choices[1].delta.content.as_deref(), Some("hi"));
    assert!(c.choices[1].finish_reason.is_none());
}

#[test]
fn streamed_chunk_without_detection_passes() {
    let mut c = chunk(None, 1);
    apply_stream_fallback(&mut c, &Some("blocked".to_string()));
    assert_eq!(c.choices[0].delta.content.as_deref(), Some("hi"));
    assert!(c.choices[0].finish_reason.is_none());
}

#[test]
fn streamed_chunk_without_choices_passes() {
    let mut c = chunk(Some(input_detections()), 0);
    apply_stream_fallback(&mut c, &Some("blocked".to_string()));
    assert!(c.choices.is_empty());
}

#[test]
fn new_message_is_from_assistant() {
    let m = GenerationMessage::new("x".to_string());
    assert_eq!(m.content, "x");
    assert_eq!(m.role, "assistant");
    assert!(m.tool_calls.is_none() && m.audio.is_none() && m.refusal.is_none());
}
