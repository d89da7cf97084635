use vstd::prelude::*;

verus! {

/// One recorded consultation session.
#[derive(Debug, Clone, PartialEq, Eq)]
pub struct Session {
    pub session_id: String,
    pub patient_id: Option<String>,
    pub patient_name: Option<String>,
    pub session_type: String,
    pub start_time: i64,
    pub end_time: Option<i64>,
    pub status: String,
    pub metadata: Option<String>,
    pub created_at: i64,
}

/// One recorded message within a session.
#[derive(Debug, Clone, PartialEq, Eq)]
pub struct Message {
    pub message_id: String,
    pub session_id: String,
    pub role: String,
    pub content: String,
    pub images: Option<String>,
    pub token_count: Option<i32>,
    pub llm_model: Option<String>,
    pub latency_ms: Option<i32>,
    pub created_at: i64,
}

/// One recorded piece of user feedback on a target item.
#[derive(Debug, Clone, PartialEq, Eq)]
pub struct Feedback {
    pub feedback_id: String,
    pub session_id: String,
    pub target_type: String,
    pub target_id: String,
    pub feedback_type: String,
    pub rating: Option<i32>,
    pub reason: Option<String>,
    pub original_value: Option<String>,
    pub modified_value: Option<String>,
    pub created_at: i64,
}

/// One recorded operation, with its outcome and duration.
#[derive(Debug, Clone, PartialEq, Eq)]
pub struct OperationLog {
    pub log_id: String,
    pub session_id: Option<String>,
    pub operation_type: String,
    pub operation_name: String,
    pub details: Option<String>,
    pub success: bool,
    pub duration_ms: Option<i32>,
    pub created_at: i64,
}

/// Relies on std's SystemTime: the seconds of the Unix epoch at the
/// call, zero if the clock reads before the epoch. The clock is no
/// function of the arguments; only non-negativity is promised.
#[verifier::external_body]
fn unix_clock_seconds() -> (t: i64)
    ensures
        t >= 0,
{
    match std::time::SystemTime::now().duration_since(std::time::UNIX_EPOCH) {
        Ok(d) => i64::try_from(d.as_secs()).unwrap_or(i64::MAX),
        Err(_) => 0,
    }
}

/// The Unix timestamp stamped onto every persisted record: whole
/// seconds, never negative.
pub fn current_timestamp() -> (t: i64)
    ensures
        t >= 0,
{
    unix_clock_seconds()
}

/// The positions that carry a hyphen in a canonical hyphenated
/// identifier.
pub open spec fn id_hyphen_position(i: int) -> bool {
    i == 8 || i == 13 || i == 18 || i == 23
}

/// Whether a character sequence has the canonical hyphenated identifier
/// shape: 36 characters, hyphens exactly at their four positions,
/// lowercase hexadecimal digits everywhere else.
pub open spec fn is_hyphenated_id(s: Seq<char>) -> bool {
    &&& s.len() == 36
    &&& forall|i: int| 0 <= i < 36 && id_hyphen_position(i) ==> #[trigger] s[i] == '-'
    &&& forall|i: int|
        0 <= i < 36 && !id_hyphen_position(i) ==> crate::session::is_lower_hex_char(
            #[trigger] s[i],
        )
}

/// Relies on uuid: a fresh random version-4 identifier in its canonical
/// hyphenated form. The value is random; only its shape is promised.
#[verifier::external_body]
fn new_hyphenated_uuid() -> (s: String)
    ensures
        is_hyphenated_id(s@),
{
    uuid::Uuid::new_v4().to_string()
}

/// A fresh identifier for one persisted record.
pub fn fresh_record_id() -> (s: String)
    ensures
        is_hyphenated_id(s@),
{
    new_hyphenated_uuid()
}

/// Restrict a statistics or export query to an optional closed time
/// range over `column`: the WHERE clause and, in order, the values its
/// placeholders bind to. No bound at all yields the empty clause.
pub fn date_filter(column: &str, start: Option<i64>, end: Option<i64>) -> (r: (String, Vec<i64>))
    ensures
        start is Some && end is Some ==> r.0@ == "WHERE "@ + column@ + " BETWEEN ?1 AND ?2"@
            && r.1@ == seq![start->0, end->0],
        start is Some && end is None ==> r.0@ == "WHERE "@ + column@ + " >= ?1"@ && r.1@ == seq![
            start->0,
        ],
        start is None && end is Some ==> r.0@ == "WHERE "@ + column@ + " <= ?1"@ && r.1@ == seq![
            end->0,
        ],
        start is None && end is None ==> r.0@ == Seq::<char>::empty() && r.1@
            == Seq::<i64>::empty(),
{
    let mut params: Vec<i64> = Vec::new();
    let clause = match (start, end) {
        (Some(s), Some(e)) => {
            params.push(s);
            params.push(e);
            String::from_str("WHERE ").concat(column).concat(" BETWEEN ?1 AND ?2")
        },
        (Some(s), None) => {
            params.push(s);
            String::from_str("WHERE ").concat(column).concat(" >= ?1")
        },
        (None, Some(e)) => {
            params.push(e);
            String::from_str("WHERE ").concat(column).concat(" <= ?1")
        },
        (None, None) => String::new(),
    };
    (clause, params)
}

} // verus!
