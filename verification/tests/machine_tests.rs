use asr_session::aggregator::{Aggregator, SessionOutcome, Step};
use asr_session::codec::InboundEvent;
use asr_session::connect::{bearer_token, retry_delay_ms, upgrade_request, ConnectRetry};
use asr_session::errors::AsrError;
use asr_session::session::{session_timed_out, start_session, validate_inputs, SESSION_TIMEOUT_MS};
use asr_session::streamer::{audio_chunk, chunk_count, AudioStreamer, StreamEmit, AUDIO_CHUNK_BYTES};

#[test]
fn empty_credential_fails_fast() {
    assert_eq!(
        validate_inputs("", &vec![1u8, 2, 3]),
        Err(AsrError::ConfigurationError)
    );
    match start_session("", vec![1u8, 2, 3]) {
        Err(AsrError::ConfigurationError) => {}
        other => panic!("expected a configuration error, got {:?}", other.map(|_| ())),
    }
}

#[test]
fn empty_audio_fails_fast() {
    assert_eq!(validate_inputs("key", &Vec::new()), Err(AsrError::InputError));
    match start_session("key", Vec::new()) {
        Err(AsrError::InputError) => {}
        other => panic!("expected an input error, got {:?}", other.map(|_| ())),
    }
}

#[test]
fn valid_inputs_start_a_session() {
    assert_eq!(validate_inputs("key", &vec![0u8; 10]), Ok(()));
    let setup = start_session("key", vec![0u8; 10]).expect("setup must succeed");
    assert_eq!(setup.task_id.len(), 32);
    assert!(setup.task_id.chars().all(|c| c.is_ascii_hexdigit() && !c.is_ascii_uppercase()));
    assert!(!setup.task_id.contains('-'));
}

#[test]
fn retry_delays_are_one_then_two_seconds() {
    assert_eq!(retry_delay_ms(0), 1000);
    assert_eq!(retry_delay_ms(1), 2000);
    assert_eq!(retry_delay_ms(2), 4000);
    assert_eq!(retry_delay_ms(7), 4000);
}

#[test]
fn retry_policy_allows_exactly_two_retries() {
    let mut r = ConnectRetry::new();
    assert_eq!(r.on_failure("first refusal".to_string()), Some(1000));
    assert_eq!(r.on_failure("second refusal".to_string()), Some(2000));
    assert_eq!(r.on_failure("third refusal".to_string()), None);
    match r.give_up_error() {
        AsrError::ConnectionError(d) => assert_eq!(d, "third refusal"),
        other => panic!("expected a connection error, got {:?}", other),
    }
}

#[test]
fn chunk_count_is_ceiling_division() {
    assert_eq!(chunk_count(0), 0);
    assert_eq!(chunk_count(1), 1);
    assert_eq!(chunk_count(AUDIO_CHUNK_BYTES - 1), 1);
    assert_eq!(chunk_count(AUDIO_CHUNK_BYTES), 1);
    assert_eq!(chunk_count(AUDIO_CHUNK_BYTES + 1), 2);
    assert_eq!(chunk_count(2 * AUDIO_CHUNK_BYTES), 2);
    assert_eq!(chunk_count(7000), 3);
}

#[test]
fn chunks_partition_the_audio() {
    let audio: Vec<u8> = (0..7000u32).map(|i| (i % 251) as u8).collect();
    let n = chunk_count(audio.len());
    assert_eq!(n, 3);
    let mut rebuilt: Vec<u8> = Vec::new();
    for i in 0..n {
        let c = audio_chunk(&audio, i);
        if i + 1 < n {
            assert_eq!(c.len(), AUDIO_CHUNK_BYTES);
        } else {
            assert_eq!(c.len(), 7000 % AUDIO_CHUNK_BYTES);
        }
        rebuilt.extend_from_slice(&c);
    }
    assert_eq!(rebuilt, audio);
}

#[test]
fn last_chunk_is_full_when_length_divides_evenly() {
    let audio = vec![7u8; 2 * AUDIO_CHUNK_BYTES];
    let n = chunk_count(audio.len());
    assert_eq!(n, 2);
    assert_eq!(audio_chunk(&audio, n - 1).len(), AUDIO_CHUNK_BYTES);
}

#[test]
fn streamer_sends_nothing_before_the_signal() {
    let mut s = AudioStreamer::new(vec![1u8; 100]);
    for _ in 0..5 {
        assert!(matches!(s.poll(), StreamEmit::Idle));
    }
}

#[test]
fn streamer_sends_chunks_then_finish_after_the_signal() {
    let audio: Vec<u8> = (0..(AUDIO_CHUNK_BYTES + 10) as u32).map(|i| i as u8).collect();
    let mut s = AudioStreamer::new(audio.clone());
    s.start();
    match s.poll() {
        StreamEmit::Chunk(c) => assert_eq!(c[..], audio[..AUDIO_CHUNK_BYTES]),
        other => panic!("expected the first chunk, got {:?}", other),
    }
    match s.poll() {
        StreamEmit::Chunk(c) => assert_eq!(c[..], audio[AUDIO_CHUNK_BYTES..]),
        other => panic!("expected the last chunk, got {:?}", other),
    }
    assert!(matches!(s.poll(), StreamEmit::Finish));
    assert!(matches!(s.poll(), StreamEmit::Idle));
}

#[test]
fn streamer_is_silent_after_cancellation() {
    let mut s = AudioStreamer::new(vec![9u8; 5 * AUDIO_CHUNK_BYTES]);
    s.start();
    assert!(matches!(s.poll(), StreamEmit::Chunk(_)));
    s.cancel();
    for _ in 0..10 {
        assert!(matches!(s.poll(), StreamEmit::Idle));
    }
    s.start();
    assert!(matches!(s.poll(), StreamEmit::Idle));
}

fn final_sentence(text: &str) -> InboundEvent {
    InboundEvent::ResultGenerated { text: Some(text.to_string()), sentence_end: true }
}

#[test]
fn transcript_grows_only_on_final_sentences() {
    let mut a = Aggregator::new();
    a.on_event(InboundEvent::TaskStarted);
    a.on_event(InboundEvent::ResultGenerated {
        text: Some("partial".to_string()),
        sentence_end: false,
    });
    assert_eq!(a.transcript().as_str(), "");
    a.on_event(InboundEvent::ResultGenerated { text: None, sentence_end: true });
    assert_eq!(a.transcript().as_str(), "");
    a.on_event(final_sentence("one "));
    a.on_event(InboundEvent::Unrecognized);
    a.on_event(final_sentence("two"));
    assert_eq!(a.transcript().as_str(), "one two");
}

#[test]
fn task_finished_after_two_sentences_yields_their_concatenation() {
    let mut a = Aggregator::new();
    assert_eq!(
        a.on_event(InboundEvent::TaskStarted),
        Step::Proceed { fire_signal: true }
    );
    assert_eq!(a.on_event(final_sentence("S1")), Step::Proceed { fire_signal: false });
    assert_eq!(a.on_event(final_sentence("S2")), Step::Proceed { fire_signal: false });
    match a.on_event(InboundEvent::TaskFinished) {
        Step::Terminal(SessionOutcome::Success(t)) => assert_eq!(t, "S1S2"),
        other => panic!("expected success, got {:?}", other),
    }
}

#[test]
fn signal_fires_on_first_task_started_only() {
    let mut a = Aggregator::new();
    assert_eq!(
        a.on_event(InboundEvent::TaskStarted),
        Step::Proceed { fire_signal: true }
    );
    assert_eq!(
        a.on_event(InboundEvent::TaskStarted),
        Step::Proceed { fire_signal: false }
    );
}

#[test]
fn task_failed_surfaces_the_server_message() {
    let mut a = Aggregator::new();
    match a.on_event(InboundEvent::TaskFailed {
        error_message: Some("model unavailable".to_string()),
        message: None,
    }) {
        Step::Terminal(SessionOutcome::Failure(e)) => {
            assert_eq!(e, AsrError::RemoteTaskFailure("model unavailable".to_string()));
            assert!(e.message().contains("model unavailable"));
        }
        other => panic!("expected failure, got {:?}", other),
    }
}

#[test]
fn task_failed_falls_back_to_header_message_then_fixed_text() {
    let mut a = Aggregator::new();
    match a.on_event(InboundEvent::TaskFailed {
        error_message: None,
        message: Some("quota exceeded".to_string()),
    }) {
        Step::Terminal(SessionOutcome::Failure(AsrError::RemoteTaskFailure(m))) => {
            assert_eq!(m, "quota exceeded")
        }
        other => panic!("expected failure, got {:?}", other),
    }
    let mut a = Aggregator::new();
    match a.on_event(InboundEvent::TaskFailed { error_message: None, message: None }) {
        Step::Terminal(SessionOutcome::Failure(AsrError::RemoteTaskFailure(m))) => {
            assert_eq!(m, "Unknown error")
        }
        other => panic!("expected failure, got {:?}", other),
    }
}

#[test]
fn session_without_task_started_and_without_text_is_empty() {
    let mut a = Aggregator::new();
    a.on_event(InboundEvent::Unrecognized);
    a.on_event(InboundEvent::ResultGenerated {
        text: Some("interim".to_string()),
        sentence_end: false,
    });
    assert_eq!(a.conclude(), SessionOutcome::Failure(AsrError::EmptyResultError));
}

#[test]
fn interrupted_session_with_text_is_a_degraded_success() {
    let mut a = Aggregator::new();
    a.on_event(InboundEvent::TaskStarted);
    a.on_event(final_sentence("kept"));
    assert_eq!(a.conclude(), SessionOutcome::Success("kept".to_string()));
}

#[test]
fn timeout_is_a_strict_sixty_second_bound() {
    assert_eq!(SESSION_TIMEOUT_MS, 60000);
    assert!(!session_timed_out(0));
    assert!(!session_timed_out(SESSION_TIMEOUT_MS));
    assert!(session_timed_out(SESSION_TIMEOUT_MS + 1));
}

#[test]
fn bearer_token_prefixes_the_credential() {
    assert_eq!(bearer_token("abc123"), "Bearer abc123");
}

#[test]
fn upgrade_request_accepts_a_normal_credential() {
    assert!(upgrade_request("a-normal-token").is_ok());
}

#[test]
fn upgrade_request_rejects_an_illegal_header_value() {
    match upgrade_request("bad\nvalue") {
        Err(AsrError::ConnectionError(_)) => {}
        other => panic!("expected a connection error, got {:?}", other.map(|_| ())),
    }
    match upgrade_request("del\u{7f}byte") {
        Err(AsrError::ConnectionError(_)) => {}
        other => panic!("expected a connection error, got {:?}", other.map(|_| ())),
    }
}

#[test]
fn upgrade_request_accepts_every_legal_header_value() {
    assert!(upgrade_request("with\ttab").is_ok());
    assert!(upgrade_request("non-ascii \u{00e9}\u{4e2d}").is_ok());
}
