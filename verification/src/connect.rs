use vstd::prelude::*;
use crate::errors::AsrError;

verus! {

/// Connection retries allowed after the initial attempt: three attempts
/// in all.
pub const MAX_CONNECT_RETRIES: usize = 2;

/// The delay inserted before retry `attempt` (0-indexed), in
/// milliseconds: one second doubled per attempt, capped at four seconds.
pub open spec fn spec_retry_delay_ms(attempt: nat) -> int {
    1000 * (if vstd::arithmetic::power2::pow2(attempt) < 4 {
        vstd::arithmetic::power2::pow2(attempt) as int
    } else {
        4
    })
}

/// The backoff delay before retrying after failed attempt `attempt`.
pub fn retry_delay_ms(attempt: usize) -> (d: u64)
    ensures
        d == spec_retry_delay_ms(attempt as nat),
{
    proof {
        vstd::arithmetic::power2::lemma2_to64();
        if attempt > 2 {
            vstd::arithmetic::power2::lemma_pow2_strictly_increases(2, attempt as nat);
        }
    }
    if attempt == 0 {
        1000
    } else if attempt == 1 {
        2000
    } else {
        4000
    }
}

/// Law: the backoff schedule is exactly one second, then two, and is
/// capped at four seconds for every later attempt.
pub proof fn lemma_backoff_schedule()
    ensures
        spec_retry_delay_ms(0) == 1000,
        spec_retry_delay_ms(1) == 2000,
        forall|k: nat| k >= 2 ==> #[trigger] spec_retry_delay_ms(k) == 4000,
{
    vstd::arithmetic::power2::lemma2_to64();
    assert forall|k: nat| k >= 2 implies #[trigger] spec_retry_delay_ms(k) == 4000 by {
        vstd::arithmetic::power2::lemma2_to64();
        if k > 2 {
            vstd::arithmetic::power2::lemma_pow2_strictly_increases(2, k);
        }
    }
}

/// The text of the most recent connection error, empty before any
/// failure has been recorded.
pub open spec fn spec_last_error_text(last: Option<String>) -> Seq<char> {
    match last {
        Some(s) => s@,
        None => Seq::empty(),
    }
}

/// The retry policy of the connection establisher: it counts failed
/// attempts, hands out the backoff delay between them, retains the most
/// recent error, and stops after the fixed bound.
pub struct ConnectRetry {
    /// Attempts that have failed so far.
    pub attempts_failed: usize,
    /// The most recent failure, kept for the final error.
    pub last_error: Option<String>,
}

impl ConnectRetry {
    /// A fresh policy: nothing attempted, no error retained.
    pub fn new() -> (r: ConnectRetry)
        ensures
            r.attempts_failed == 0,
            r.last_error is None,
    {
        ConnectRetry { attempts_failed: 0, last_error: None }
    }

    /// Record one failed attempt. The result says what the establisher
    /// does next: sleep for the returned backoff delay and retry, or,
    /// once the bound is exhausted, give up with no further delay.
    pub fn on_failure(&mut self, detail: String) -> (next: Option<u64>)
        requires
            old(self).attempts_failed <= MAX_CONNECT_RETRIES,
        ensures
            final(self).attempts_failed == old(self).attempts_failed + 1,
            (final(self).last_error matches Some(d) && d@ == detail@),
            old(self).attempts_failed < MAX_CONNECT_RETRIES ==> (next matches Some(ms) && ms
                == spec_retry_delay_ms(old(self).attempts_failed as nat)),
            old(self).attempts_failed == MAX_CONNECT_RETRIES ==> next is None,
    {
        let attempt = self.attempts_failed;
        self.attempts_failed = attempt + 1;
        self.last_error = Some(detail);
        if attempt < MAX_CONNECT_RETRIES {
            Some(retry_delay_ms(attempt))
        } else {
            None
        }
    }

    /// The error surfaced when every attempt has failed: the most recent
    /// underlying failure, verbatim.
    pub fn give_up_error(&self) -> (e: AsrError)
        ensures
            (e matches AsrError::ConnectionError(d) && d@ == spec_last_error_text(
                self.last_error,
            )),
    {
        match &self.last_error {
            Some(s) => AsrError::ConnectionError(s.clone()),
            None => AsrError::ConnectionError(String::new()),
        }
    }
}

/// A character that http accepts inside a header value: horizontal tab,
/// or any code point of 32 or more except delete. Every byte of a
/// multi-byte character is 128 or more, so this character-level test
/// matches http's byte-level one.
pub open spec fn legal_header_char(c: char) -> bool {
    c == '\t' || ((c as u32) >= 32 && (c as u32) != 127)
}

/// Whether a whole string is a legal http header value.
pub open spec fn header_value_ok(s: Seq<char>) -> bool {
    forall|i: int| 0 <= i < s.len() ==> legal_header_char(#[trigger] s[i])
}

/// A character of the base64 alphabet, padding included.
pub open spec fn is_base64_char(c: char) -> bool {
    ||| (('A' as u32) <= (c as u32) && (c as u32) <= ('Z' as u32))
    ||| (('a' as u32) <= (c as u32) && (c as u32) <= ('z' as u32))
    ||| (('0' as u32) <= (c as u32) && (c as u32) <= ('9' as u32))
    ||| c == '+'
    ||| c == '/'
    ||| c == '='
}

/// The Authorization header value carrying the caller's credential.
pub fn bearer_token(credential: &str) -> (h: String)
    ensures
        h@ == "Bearer "@ + credential@,
{
    String::from_str("Bearer ").concat(credential)
}

#[verifier::external_type_specification]
#[verifier::external_body]
#[verifier::reject_recursive_types(T)]
pub struct ExHttpRequest<T>(tokio_tungstenite::tungstenite::http::Request<T>);

/// Relies on tungstenite's generate_key: a fresh random
/// Sec-WebSocket-Key, the base64 encoding of 16 random bytes — 24
/// characters of the base64 alphabet. The value is random; only its
/// shape is promised.
#[verifier::external_body]
fn handshake_key() -> (k: String)
    ensures
        k@.len() == 24,
        forall|i: int| 0 <= i < k@.len() ==> is_base64_char(#[trigger] k@[i]),
{
    tokio_tungstenite::tungstenite::handshake::client::generate_key()
}

/// Relies on the http request builder, as tungstenite re-exports it:
/// assembles the upgrade request for the fixed recognition endpoint
/// (wss://dashscope.aliyuncs.com/api-ws/v1/inference/) with the standard
/// WebSocket handshake headers, the given Sec-WebSocket-Key, and the
/// given Authorization value. The fixed parts always pass its checks, so
/// it succeeds exactly when both given values are legal header values
/// (http rejects a byte only below 32, tab excepted, or at 127).
#[verifier::external_body]
fn build_upgrade_request(auth: &str, key: &str) -> (r: Result<
    tokio_tungstenite::tungstenite::http::Request<()>,
    String,
>)
    ensures
        (r is Ok) == (header_value_ok(auth@) && header_value_ok(key@)),
{
    tokio_tungstenite::tungstenite::http::Request::builder()
        .uri("wss://dashscope.aliyuncs.com/api-ws/v1/inference/")
        .header("Authorization", auth)
        .header("Host", "dashscope.aliyuncs.com")
        .header("Connection", "Upgrade")
        .header("Upgrade", "websocket")
        .header("Sec-WebSocket-Version", "13")
        .header("Sec-WebSocket-Key", key)
        .body(())
        .map_err(|e| format!("Request build error: {}", e))
}

/// The authenticated upgrade request that opens one session: the fixed
/// endpoint, a fresh handshake key, and the bearer credential. It
/// succeeds exactly when the Authorization value built from the
/// credential is a legal header value; the generated key always is.
pub fn upgrade_request(credential: &str) -> (r: Result<
    tokio_tungstenite::tungstenite::http::Request<()>,
    AsrError,
>)
    ensures
        r is Ok <==> header_value_ok("Bearer "@ + credential@),
        r matches Err(e) ==> e is ConnectionError,
{
    let auth = bearer_token(credential);
    let key = handshake_key();
    proof {
        assert forall|i: int| 0 <= i < key@.len() implies legal_header_char(#[trigger] key@[i]) by {
            assert(is_base64_char(key@[i]));
        }
    }
    match build_upgrade_request(auth.as_str(), key.as_str()) {
        Ok(req) => Ok(req),
        Err(detail) => Err(AsrError::ConnectionError(detail)),
    }
}

} // verus!
