use vstd::prelude::*;

verus! {

/// One inbound server frame, classified into the closed set of protocol
/// events. Frames that do not parse, or whose event name is unknown, are
/// `Unrecognized` and never abort a session: the protocol is deliberately
/// permissive about unexpected message shapes.
#[derive(Debug, PartialEq, Eq)]
pub enum InboundEvent {
    /// The server accepted the task; audio may start flowing.
    TaskStarted,
    /// A recognition result, final exactly when `sentence_end` holds.
    ResultGenerated { text: Option<String>, sentence_end: bool },
    /// The task completed; the transcript is whole.
    TaskFinished,
    /// The task failed, with the server's error and fallback messages.
    TaskFailed { error_message: Option<String>, message: Option<String> },
    /// Anything else: ignored, the session continues.
    Unrecognized,
}

/// The fields of an inbound frame that the protocol reads, pulled out of
/// the JSON document; absent wherever the frame does not carry them.
#[derive(Debug)]
pub struct FrameFields {
    pub event: Option<String>,
    pub error_message: Option<String>,
    pub message: Option<String>,
    pub sentence_text: Option<String>,
    pub sentence_end: Option<bool>,
}

/// How a frame's fields map to a protocol event: classification goes by
/// the header's `event` name alone, and every unknown or absent name is
/// `Unrecognized`.
pub open spec fn spec_classify(f: FrameFields) -> InboundEvent {
    match f.event {
        Some(e) => if e@ == "task-started"@ {
            InboundEvent::TaskStarted
        } else if e@ == "result-generated"@ {
            InboundEvent::ResultGenerated {
                text: f.sentence_text,
                sentence_end: f.sentence_end == Some(true),
            }
        } else if e@ == "task-finished"@ {
            InboundEvent::TaskFinished
        } else if e@ == "task-failed"@ {
            InboundEvent::TaskFailed { error_message: f.error_message, message: f.message }
        } else {
            InboundEvent::Unrecognized
        },
        None => InboundEvent::Unrecognized,
    }
}

/// Whether a `String` holds exactly the characters of `b`.
fn str_eq(a: &String, b: &str) -> (r: bool)
    ensures
        r == (a@ == b@),
{
    let bs = String::from_str(b);
    a.eq(&bs)
}

/// Classify a frame's extracted fields into the protocol event.
pub fn classify(f: FrameFields) -> (ev: InboundEvent)
    ensures
        ev == spec_classify(f),
{
    match f.event {
        None => InboundEvent::Unrecognized,
        Some(e) => {
            if str_eq(&e, "task-started") {
                InboundEvent::TaskStarted
            } else if str_eq(&e, "result-generated") {
                let sentence_end = match f.sentence_end {
                    Some(true) => true,
                    _ => false,
                };
                InboundEvent::ResultGenerated { text: f.sentence_text, sentence_end }
            } else if str_eq(&e, "task-finished") {
                InboundEvent::TaskFinished
            } else if str_eq(&e, "task-failed") {
                InboundEvent::TaskFailed {
                    error_message: f.error_message,
                    message: f.message,
                }
            } else {
                InboundEvent::Unrecognized
            }
        },
    }
}

/// An optional string as the specifications see it: its characters.
pub open spec fn view_opt(s: Option<String>) -> Option<Seq<char>> {
    match s {
        Some(x) => Some(x@),
        None => None,
    }
}

/// The string under `header.event` of a frame text, absent when the text
/// is no JSON document or does not carry the field. What the parser
/// extracts is a function of the text alone; this names it.
pub uninterp spec fn frame_event(s: Seq<char>) -> Option<Seq<char>>;

/// The string under `header.error_message` of a frame text.
pub uninterp spec fn frame_error_message(s: Seq<char>) -> Option<Seq<char>>;

/// The string under `header.message` of a frame text.
pub uninterp spec fn frame_message(s: Seq<char>) -> Option<Seq<char>>;

/// The string under `payload.output.sentence.text` of a frame text.
pub uninterp spec fn frame_sentence_text(s: Seq<char>) -> Option<Seq<char>>;

/// The boolean under `payload.output.sentence.sentence_end` of a frame
/// text.
pub uninterp spec fn frame_sentence_end(s: Seq<char>) -> Option<bool>;

/// Relies on serde_json's from_str, Value::get and Value::as_str: the
/// string under `header.event`, or nothing.
#[verifier::external_body]
fn read_event(text: &str) -> (r: Option<String>)
    ensures
        view_opt(r) == frame_event(text@),
{
    let doc: serde_json::Value = match serde_json::from_str(text) {
        Ok(v) => v,
        Err(_) => return None,
    };
    let header = match doc.get("header") { Some(h) => h, None => return None };
    let field = match header.get("event") { Some(f) => f, None => return None };
    match field.as_str() {
        Some(s) => Some(s.to_owned()),
        None => None,
    }
}

/// Relies on serde_json's from_str, Value::get and Value::as_str: the
/// string under `header.error_message`, or nothing.
#[verifier::external_body]
fn read_error_message(text: &str) -> (r: Option<String>)
    ensures
        view_opt(r) == frame_error_message(text@),
{
    let doc: serde_json::Value = match serde_json::from_str(text) {
        Ok(v) => v,
        Err(_) => return None,
    };
    let header = match doc.get("header") { Some(h) => h, None => return None };
    let field = match header.get("error_message") { Some(f) => f, None => return None };
    match field.as_str() {
        Some(s) => Some(s.to_owned()),
        None => None,
    }
}

/// Relies on serde_json's from_str, Value::get and Value::as_str: the
/// string under `header.message`, or nothing.
#[verifier::external_body]
fn read_message(text: &str) -> (r: Option<String>)
    ensures
        view_opt(r) == frame_message(text@),
{
    let doc: serde_json::Value = match serde_json::from_str(text) {
        Ok(v) => v,
        Err(_) => return None,
    };
    let header = match doc.get("header") { Some(h) => h, None => return None };
    let field = match header.get("message") { Some(f) => f, None => return None };
    match field.as_str() {
        Some(s) => Some(s.to_owned()),
        None => None,
    }
}

/// Relies on serde_json's from_str, Value::get and Value::as_str: the
/// string under `payload.output.sentence.text`, or nothing.
#[verifier::external_body]
fn read_sentence_text(text: &str) -> (r: Option<String>)
    ensures
        view_opt(r) == frame_sentence_text(text@),
{
    let doc: serde_json::Value = match serde_json::from_str(text) {
        Ok(v) => v,
        Err(_) => return None,
    };
    let payload = match doc.get("payload") { Some(p) => p, None => return None };
    let output = match payload.get("output") { Some(o) => o, None => return None };
    let sentence = match output.get("sentence") { Some(s) => s, None => return None };
    let field = match sentence.get("text") { Some(f) => f, None => return None };
    match field.as_str() {
        Some(s) => Some(s.to_owned()),
        None => None,
    }
}

/// Relies on serde_json's from_str, Value::get and Value::as_bool: the
/// boolean under `payload.output.sentence.sentence_end`, or nothing.
#[verifier::external_body]
fn read_sentence_end(text: &str) -> (r: Option<bool>)
    ensures
        r == frame_sentence_end(text@),
{
    let doc: serde_json::Value = match serde_json::from_str(text) {
        Ok(v) => v,
        Err(_) => return None,
    };
    let payload = match doc.get("payload") { Some(p) => p, None => return None };
    let output = match payload.get("output") { Some(o) => o, None => return None };
    let sentence = match output.get("sentence") { Some(s) => s, None => return None };
    let field = match sentence.get("sentence_end") { Some(f) => f, None => return None };
    field.as_bool()
}

/// Pull the protocol-relevant fields out of one inbound text frame:
/// `header.event`, the header's error and fallback messages, and the
/// sentence under `payload.output.sentence`, each exactly the field the
/// parser finds in the text. Whatever the frame fails to carry is left
/// absent; classification decides what that means.
pub fn read_frame_fields(text: &str) -> (f: FrameFields)
    ensures
        view_opt(f.event) == frame_event(text@),
        view_opt(f.error_message) == frame_error_message(text@),
        view_opt(f.message) == frame_message(text@),
        view_opt(f.sentence_text) == frame_sentence_text(text@),
        f.sentence_end == frame_sentence_end(text@),
{
    FrameFields {
        event: read_event(text),
        error_message: read_error_message(text),
        message: read_message(text),
        sentence_text: read_sentence_text(text),
        sentence_end: read_sentence_end(text),
    }
}

/// Classify one inbound text frame: field extraction, then the exactly
/// specified mapping of `classify`, pinned here over the extracted
/// fields of the text. A frame without a known event name under
/// `header.event` is never more than `Unrecognized`.
pub fn classify_frame(text: &str) -> (ev: InboundEvent)
    ensures
        frame_event(text@) is None ==> ev is Unrecognized,
        frame_event(text@) == Some("task-started"@) ==> ev is TaskStarted,
        frame_event(text@) == Some("result-generated"@) ==> (ev matches InboundEvent::ResultGenerated {
            text: t,
            sentence_end,
        } && view_opt(t) == frame_sentence_text(text@) && sentence_end == (frame_sentence_end(
            text@,
        ) == Some(true))),
        frame_event(text@) == Some("task-finished"@) ==> ev is TaskFinished,
        frame_event(text@) == Some("task-failed"@) ==> (ev matches InboundEvent::TaskFailed {
            error_message,
            message,
        } && view_opt(error_message) == frame_error_message(text@) && view_opt(message)
            == frame_message(text@)),
        (frame_event(text@) matches Some(e) && e != "task-started"@ && e != "result-generated"@
            && e != "task-finished"@ && e != "task-failed"@) ==> ev is Unrecognized,
{
    proof {
        reveal_strlit("task-started");
        reveal_strlit("result-generated");
        reveal_strlit("task-finished");
        reveal_strlit("task-failed");
        assert("task-started"@.len() == 12);
        assert("result-generated"@.len() == 16);
        assert("task-finished"@.len() == 13);
        assert("task-failed"@.len() == 11);
    }
    classify(read_frame_fields(text))
}

/// The exact run-task request text for a task id: the header names the
/// action and duplex streaming; the payload fixes the recognition task,
/// the model, and PCM input at a 16 kHz sample rate.
pub open spec fn spec_run_task_text(task_id: Seq<char>) -> Seq<char> {
    "{\"header\":{\"action\":\"run-task\",\"task_id\":\""@ + task_id
        + "\",\"streaming\":\"duplex\"},\"payload\":{\"task_group\":\"audio\",\"task\":\"asr\",\"function\":\"recognition\",\"model\":\"paraformer-realtime-v2\",\"parameters\":{\"format\":\"pcm\",\"sample_rate\":16000},\"input\":{}}}"@
}

/// The exact finish-task request text for a task id.
pub open spec fn spec_finish_task_text(task_id: Seq<char>) -> Seq<char> {
    "{\"header\":{\"action\":\"finish-task\",\"task_id\":\""@ + task_id
        + "\",\"streaming\":\"duplex\"},\"payload\":{\"input\":{}}}"@
}

/// Serialize the run-task control message, sent once, immediately after
/// the connection opens and before any audio.
pub fn run_task_text(task_id: &str) -> (t: String)
    ensures
        t@ == spec_run_task_text(task_id@),
{
    let t = String::from_str("{\"header\":{\"action\":\"run-task\",\"task_id\":\"").concat(
        task_id,
    ).concat(
        "\",\"streaming\":\"duplex\"},\"payload\":{\"task_group\":\"audio\",\"task\":\"asr\",\"function\":\"recognition\",\"model\":\"paraformer-realtime-v2\",\"parameters\":{\"format\":\"pcm\",\"sample_rate\":16000},\"input\":{}}}",
    );
    proof {
        assert(t@ =~= spec_run_task_text(task_id@));
    }
    t
}

/// Serialize the finish-task control message, sent once, after the last
/// audio chunk.
pub fn finish_task_text(task_id: &str) -> (t: String)
    ensures
        t@ == spec_finish_task_text(task_id@),
{
    let t = String::from_str("{\"header\":{\"action\":\"finish-task\",\"task_id\":\"").concat(
        task_id,
    ).concat("\",\"streaming\":\"duplex\"},\"payload\":{\"input\":{}}}");
    proof {
        assert(t@ =~= spec_finish_task_text(task_id@));
    }
    t
}

} // verus!
