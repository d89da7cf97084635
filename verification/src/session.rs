use vstd::prelude::*;
use crate::aggregator::{Aggregator, AggregatorModel};
use crate::errors::AsrError;
use crate::streamer::{AudioStreamer, StreamPhase, StreamerModel};

verus! {

/// Wall-clock bound on one session's consume loop, in milliseconds,
/// measured from loop start and checked once per received frame.
pub const SESSION_TIMEOUT_MS: u64 = 60000;

/// Whether the consume loop's soft timeout has elapsed.
pub fn session_timed_out(elapsed_ms: u64) -> (t: bool)
    ensures
        t == (elapsed_ms > SESSION_TIMEOUT_MS),
{
    elapsed_ms > SESSION_TIMEOUT_MS
}

/// Check a session's inputs before any I/O is attempted: an empty
/// credential is a configuration error; with a credential present,
/// empty audio is an input error.
pub fn validate_inputs(credential: &str, audio: &Vec<u8>) -> (r: Result<(), AsrError>)
    ensures
        credential@.len() == 0 ==> r == Err::<(), AsrError>(AsrError::ConfigurationError),
        credential@.len() > 0 && audio@.len() == 0 ==> r == Err::<(), AsrError>(
            AsrError::InputError,
        ),
        credential@.len() > 0 && audio@.len() > 0 ==> r is Ok,
{
    if credential.is_empty() {
        Err(AsrError::ConfigurationError)
    } else if audio.len() == 0 {
        Err(AsrError::InputError)
    } else {
        Ok(())
    }
}

/// A lowercase hexadecimal digit.
pub open spec fn is_lower_hex_char(c: char) -> bool {
    (('0' as u32) <= (c as u32) && (c as u32) <= ('9' as u32)) || (('a' as u32) <= (c as u32) && (c
        as u32) <= ('f' as u32))
}

/// Relies on uuid: a fresh random version-4 identifier in its simple
/// format, 32 lowercase hexadecimal digits and nothing else. The value
/// is random; only its shape is promised.
#[verifier::external_body]
fn new_simple_uuid() -> (s: String)
    ensures
        s@.len() == 32,
        forall|i: int| 0 <= i < s@.len() ==> is_lower_hex_char(#[trigger] s@[i]),
{
    uuid::Uuid::new_v4().simple().to_string()
}

/// Everything one validated session starts from: its task id, minted
/// once and never reused, and the producer and consumer in their
/// initial states.
pub struct SessionSetup {
    pub task_id: String,
    pub streamer: AudioStreamer,
    pub aggregator: Aggregator,
}

/// Validate the inputs and prepare one session. Fails fast, before any
/// network work, on an empty credential or empty audio; otherwise the
/// task id is a fresh 32-digit identifier, the producer holds the whole
/// audio buffer and waits for the start signal, and the consumer starts
/// with an empty transcript.
pub fn start_session(credential: &str, audio: Vec<u8>) -> (r: Result<SessionSetup, AsrError>)
    ensures
        credential@.len() == 0 ==> r == Err::<SessionSetup, AsrError>(
            AsrError::ConfigurationError,
        ),
        credential@.len() > 0 && audio@.len() == 0 ==> r == Err::<SessionSetup, AsrError>(
            AsrError::InputError,
        ),
        credential@.len() > 0 && audio@.len() > 0 ==> (r matches Ok(s) && s.task_id@.len() == 32
            && (forall|i: int| 0 <= i < s.task_id@.len() ==> is_lower_hex_char(
            #[trigger] s.task_id@[i],
        )) && s.streamer@ == (StreamerModel {
            audio: audio@,
            sent: 0,
            phase: StreamPhase::Waiting,
        }) && s.aggregator@ == (AggregatorModel {
            started: false,
            transcript: Seq::<char>::empty(),
        })),
{
    match validate_inputs(credential, &audio) {
        Err(e) => Err(e),
        Ok(()) => {
            let task_id = new_simple_uuid();
            let streamer = AudioStreamer::new(audio);
            let aggregator = Aggregator::new();
            Ok(SessionSetup { task_id, streamer, aggregator })
        },
    }
}

} // verus!
