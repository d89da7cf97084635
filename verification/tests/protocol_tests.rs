use asr_session::aggregator::{Aggregator, SessionOutcome, Step};
use asr_session::codec::{classify, classify_frame, finish_task_text, run_task_text, FrameFields, InboundEvent};

#[test]
fn run_task_text_is_exact() {
    let t = run_task_text("0123456789abcdef0123456789abcdef");
    assert_eq!(
        t,
        "{\"header\":{\"action\":\"run-task\",\"task_id\":\"0123456789abcdef0123456789abcdef\",\"streaming\":\"duplex\"},\"payload\":{\"task_group\":\"audio\",\"task\":\"asr\",\"function\":\"recognition\",\"model\":\"paraformer-realtime-v2\",\"parameters\":{\"format\":\"pcm\",\"sample_rate\":16000},\"input\":{}}}"
    );
}

#[test]
fn finish_task_text_is_exact() {
    let t = finish_task_text("0123456789abcdef0123456789abcdef");
    assert_eq!(
        t,
        "{\"header\":{\"action\":\"finish-task\",\"task_id\":\"0123456789abcdef0123456789abcdef\",\"streaming\":\"duplex\"},\"payload\":{\"input\":{}}}"
    );
}

#[test]
fn run_task_text_is_valid_json() {
    let t = run_task_text("feedfacefeedfacefeedfacefeedface");
    let v: serde_json::Value = serde_json::from_str(&t).expect("run-task must be valid JSON");
    assert_eq!(v["header"]["action"].as_str(), Some("run-task"));
    assert_eq!(
        v["header"]["task_id"].as_str(),
        Some("feedfacefeedfacefeedfacefeedface")
    );
    assert_eq!(v["header"]["streaming"].as_str(), Some("duplex"));
    assert_eq!(v["payload"]["task_group"].as_str(), Some("audio"));
    assert_eq!(v["payload"]["task"].as_str(), Some("asr"));
    assert_eq!(v["payload"]["function"].as_str(), Some("recognition"));
    assert_eq!(
        v["payload"]["model"].as_str(),
        Some("paraformer-realtime-v2")
    );
    assert_eq!(v["payload"]["parameters"]["format"].as_str(), Some("pcm"));
    assert_eq!(v["payload"]["parameters"]["sample_rate"].as_i64(), Some(16000));
}

#[test]
fn finish_task_text_is_valid_json() {
    let t = finish_task_text("feedfacefeedfacefeedfacefeedface");
    let v: serde_json::Value = serde_json::from_str(&t).expect("finish-task must be valid JSON");
    assert_eq!(v["header"]["action"].as_str(), Some("finish-task"));
    assert_eq!(v["payload"]["input"].as_object().map(|o| o.len()), Some(0));
}

#[test]
fn classify_frame_task_started() {
    let ev = classify_frame("{\"header\":{\"event\":\"task-started\",\"task_id\":\"x\"}}");
    assert_eq!(ev, InboundEvent::TaskStarted);
}

#[test]
fn classify_frame_result_generated_final() {
    let ev = classify_frame(
        "{\"header\":{\"event\":\"result-generated\"},\"payload\":{\"output\":{\"sentence\":{\"text\":\"hello\",\"sentence_end\":true}}}}",
    );
    assert_eq!(
        ev,
        InboundEvent::ResultGenerated { text: Some("hello".to_string()), sentence_end: true }
    );
}

#[test]
fn classify_frame_result_generated_interim() {
    let ev = classify_frame(
        "{\"header\":{\"event\":\"result-generated\"},\"payload\":{\"output\":{\"sentence\":{\"text\":\"hel\",\"sentence_end\":false}}}}",
    );
    assert_eq!(
        ev,
        InboundEvent::ResultGenerated { text: Some("hel".to_string()), sentence_end: false }
    );
}

#[test]
fn classify_frame_result_generated_without_flag() {
    let ev = classify_frame(
        "{\"header\":{\"event\":\"result-generated\"},\"payload\":{\"output\":{\"sentence\":{\"text\":\"hel\"}}}}",
    );
    assert_eq!(
        ev,
        InboundEvent::ResultGenerated { text: Some("hel".to_string()), sentence_end: false }
    );
}

#[test]
fn classify_frame_task_finished() {
    let ev = classify_frame("{\"header\":{\"event\":\"task-finished\"}}");
    assert_eq!(ev, InboundEvent::TaskFinished);
}

#[test]
fn classify_frame_task_failed_with_error_message() {
    let ev = classify_frame(
        "{\"header\":{\"event\":\"task-failed\",\"error_message\":\"model unavailable\"}}",
    );
    assert_eq!(
        ev,
        InboundEvent::TaskFailed {
            error_message: Some("model unavailable".to_string()),
            message: None
        }
    );
}

#[test]
fn classify_frame_task_failed_with_fallback_message() {
    let ev = classify_frame("{\"header\":{\"event\":\"task-failed\",\"message\":\"bad request\"}}");
    assert_eq!(
        ev,
        InboundEvent::TaskFailed { error_message: None, message: Some("bad request".to_string()) }
    );
}

#[test]
fn classify_frame_unknown_event_is_unrecognized() {
    let ev = classify_frame("{\"header\":{\"event\":\"task-paused\"}}");
    assert_eq!(ev, InboundEvent::Unrecognized);
}

#[test]
fn classify_frame_malformed_is_unrecognized() {
    assert_eq!(classify_frame("this is not json"), InboundEvent::Unrecognized);
    assert_eq!(classify_frame(""), InboundEvent::Unrecognized);
    assert_eq!(classify_frame("{\"payload\":{}}"), InboundEvent::Unrecognized);
    assert_eq!(classify_frame("{\"header\":{\"event\":42}}"), InboundEvent::Unrecognized);
}

#[test]
fn classify_fields_directly() {
    let f = FrameFields {
        event: Some("task-started".to_string()),
        error_message: None,
        message: None,
        sentence_text: None,
        sentence_end: None,
    };
    assert_eq!(classify(f), InboundEvent::TaskStarted);

    let f = FrameFields {
        event: None,
        error_message: None,
        message: None,
        sentence_text: Some("orphan".to_string()),
        sentence_end: Some(true),
    };
    assert_eq!(classify(f), InboundEvent::Unrecognized);
}

#[test]
fn frames_drive_a_whole_session_to_success() {
    let frames = [
        "{\"header\":{\"event\":\"task-started\"}}",
        "{\"header\":{\"event\":\"result-generated\"},\"payload\":{\"output\":{\"sentence\":{\"text\":\"S1\",\"sentence_end\":true}}}}",
        "not even json",
        "{\"header\":{\"event\":\"result-generated\"},\"payload\":{\"output\":{\"sentence\":{\"text\":\"interim\",\"sentence_end\":false}}}}",
        "{\"header\":{\"event\":\"result-generated\"},\"payload\":{\"output\":{\"sentence\":{\"text\":\"S2\",\"sentence_end\":true}}}}",
        "{\"header\":{\"event\":\"task-finished\"}}",
    ];
    let mut aggregator = Aggregator::new();
    let mut fired: usize = 0;
    for frame in frames {
        match aggregator.on_event(classify_frame(frame)) {
            Step::Proceed { fire_signal } => {
                if fire_signal {
                    fired += 1;
                }
            }
            Step::Terminal(outcome) => {
                assert_eq!(fired, 1);
                assert_eq!(outcome, SessionOutcome::Success("S1S2".to_string()));
                return;
            }
        }
    }
    panic!("the task-finished frame must end the session");
}
