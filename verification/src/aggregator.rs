use vstd::prelude::*;
use crate::codec::InboundEvent;
use crate::errors::AsrError;

verus! {

/// The terminal result of one session: the whole transcript, or one
/// typed error. Produced exactly once per session.
#[derive(Debug, PartialEq, Eq)]
pub enum SessionOutcome {
    Success(String),
    Failure(AsrError),
}

/// What the session loop must do after the aggregator consumed a frame.
#[derive(Debug, PartialEq, Eq)]
pub enum Step {
    /// Keep reading; fire the one-shot start signal exactly when asked.
    Proceed { fire_signal: bool },
    /// Cancel the producer and finish with this outcome.
    Terminal(SessionOutcome),
}

/// The aggregator as the specifications see it.
pub ghost struct AggregatorModel {
    /// Whether a task-started event has been observed (the signal fires
    /// on the first one only).
    pub started: bool,
    /// The accumulated transcript: final sentence texts, in arrival order.
    pub transcript: Seq<char>,
}

/// How one event changes the transcript: exactly the final sentences
/// (sentence end asserted, text present) append their text; interim
/// results and everything else leave it untouched. It never shrinks.
pub open spec fn spec_append_final_text(t: Seq<char>, ev: InboundEvent) -> Seq<char> {
    match ev {
        InboundEvent::ResultGenerated { text: Some(s), sentence_end: true } => t + s@,
        _ => t,
    }
}

/// Whether consuming `ev` fires the start signal: only the first
/// task-started event does, so the signal fires at most once.
pub open spec fn spec_fires_signal(started: bool, ev: InboundEvent) -> bool {
    ev is TaskStarted && !started
}

/// The failure text of a task-failed event: the server's error message,
/// else its header-level message, else a fixed fallback.
pub open spec fn spec_failed_text(error_message: Option<String>, message: Option<String>) -> Seq<
    char,
> {
    match error_message {
        Some(m) => m@,
        None => match message {
            Some(m) => m@,
            None => "Unknown error"@,
        },
    }
}

/// The consumer of inbound frames: drives the task life cycle, fires the
/// producer's start signal on the first task-started event, accumulates
/// final sentence texts in arrival order, and decides the terminal
/// outcome.
pub struct Aggregator {
    started: bool,
    transcript: String,
}

impl View for Aggregator {
    type V = AggregatorModel;

    closed spec fn view(&self) -> AggregatorModel {
        AggregatorModel { started: self.started, transcript: self.transcript@ }
    }
}

impl Aggregator {
    /// A fresh aggregator: no signal fired, empty transcript.
    pub fn new() -> (a: Aggregator)
        ensures
            a@ == (AggregatorModel { started: false, transcript: Seq::<char>::empty() }),
    {
        let a = Aggregator { started: false, transcript: String::new() };
        proof {
            assert(a@.transcript =~= Seq::<char>::empty());
        }
        a
    }

    /// Consume one classified inbound event.
    ///
    /// Final sentence texts are appended to the transcript; a task-started
    /// event asks the loop to fire the signal on its first arrival only;
    /// task-finished yields the accumulated transcript as the success
    /// outcome; task-failed yields the server's message as the failure;
    /// unrecognized frames and interim results change nothing.
    pub fn on_event(&mut self, ev: InboundEvent) -> (step: Step)
        ensures
            final(self)@.transcript == spec_append_final_text(old(self)@.transcript, ev),
            final(self)@.started == (old(self)@.started || ev is TaskStarted),
            ev is TaskStarted || ev is ResultGenerated || ev is Unrecognized ==> step
                == (Step::Proceed { fire_signal: spec_fires_signal(old(self)@.started, ev) }),
            ev is TaskFinished ==> (step matches Step::Terminal(SessionOutcome::Success(t))
                && t@ == old(self)@.transcript),
            ev matches InboundEvent::TaskFailed { error_message, message } ==> (step matches Step::Terminal(
                SessionOutcome::Failure(AsrError::RemoteTaskFailure(m)),
            ) && m@ == spec_failed_text(error_message, message)),
    {
        match ev {
            InboundEvent::TaskStarted => {
                let fire_signal = !self.started;
                self.started = true;
                Step::Proceed { fire_signal }
            },
            InboundEvent::ResultGenerated { text, sentence_end } => {
                if sentence_end {
                    if let Some(t) = &text {
                        self.transcript.append(t.as_str());
                    }
                }
                Step::Proceed { fire_signal: false }
            },
            InboundEvent::TaskFinished => {
                Step::Terminal(SessionOutcome::Success(self.transcript.clone()))
            },
            InboundEvent::TaskFailed { error_message, message } => {
                let detail = match error_message {
                    Some(m) => m,
                    None => match message {
                        Some(m) => m,
                        None => String::from_str("Unknown error"),
                    },
                };
                Step::Terminal(SessionOutcome::Failure(AsrError::RemoteTaskFailure(detail)))
            },
            InboundEvent::Unrecognized => Step::Proceed { fire_signal: false },
        }
    }

    /// The text accumulated so far.
    pub fn transcript(&self) -> (t: &String)
        ensures
            t@ == self@.transcript,
    {
        &self.transcript
    }

    /// The outcome when the consume loop ends without a terminal event
    /// (timeout, a close frame, or an exhausted socket): any accumulated
    /// text is returned as a degraded success; with none, the session
    /// failed to produce a result.
    pub fn conclude(self) -> (o: SessionOutcome)
        ensures
            self@.transcript.len() > 0 ==> (o matches SessionOutcome::Success(t) && t@
                == self@.transcript),
            self@.transcript.len() == 0 ==> o == SessionOutcome::Failure(
                AsrError::EmptyResultError,
            ),
    {
        if self.transcript.as_str().is_empty() {
            SessionOutcome::Failure(AsrError::EmptyResultError)
        } else {
            SessionOutcome::Success(self.transcript)
        }
    }
}

/// The text one event contributes to the transcript.
pub open spec fn spec_event_text(ev: InboundEvent) -> Seq<char> {
    match ev {
        InboundEvent::ResultGenerated { text: Some(s), sentence_end: true } => s@,
        _ => Seq::empty(),
    }
}

/// The transcript after consuming a whole sequence of events.
pub open spec fn spec_transcript_after(t: Seq<char>, evs: Seq<InboundEvent>) -> Seq<char>
    decreases evs.len(),
{
    if evs.len() == 0 {
        t
    } else {
        spec_transcript_after(spec_append_final_text(t, evs[0]), evs.drop_first())
    }
}

/// The concatenation, in order, of the final sentence texts in `evs`.
pub open spec fn spec_final_texts(evs: Seq<InboundEvent>) -> Seq<char>
    decreases evs.len(),
{
    if evs.len() == 0 {
        Seq::empty()
    } else {
        spec_event_text(evs[0]) + spec_final_texts(evs.drop_first())
    }
}

/// Law: the transcript grows only by final sentence texts, in arrival
/// order. After any event sequence it equals what it was plus the
/// concatenation of the final texts, so it is append-only and interim
/// results never touch it.
pub proof fn lemma_transcript_is_final_text_concat(t: Seq<char>, evs: Seq<InboundEvent>)
    ensures
        spec_transcript_after(t, evs) == t + spec_final_texts(evs),
    decreases evs.len(),
{
    if evs.len() == 0 {
        assert(spec_transcript_after(t, evs) =~= t + spec_final_texts(evs));
    } else {
        lemma_transcript_is_final_text_concat(spec_append_final_text(t, evs[0]), evs.drop_first());
        assert(spec_append_final_text(t, evs[0]) =~= t + spec_event_text(evs[0]));
        assert((t + spec_event_text(evs[0])) + spec_final_texts(evs.drop_first()) =~= t + (
        spec_event_text(evs[0]) + spec_final_texts(evs.drop_first())));
    }
}

/// Law: the start signal can only come from a task-started event.
pub proof fn lemma_signal_only_on_task_started(started: bool, ev: InboundEvent)
    ensures
        spec_fires_signal(started, ev) ==> ev is TaskStarted,
        spec_fires_signal(true, ev) == false,
{
}

/// Whether an event ends the session.
pub open spec fn spec_is_terminal(ev: InboundEvent) -> bool {
    ev is TaskFinished || ev is TaskFailed
}

/// A terminal outcome as the specifications see it: the transcript of a
/// success, or the failure text of a task-failed event.
pub ghost enum OutcomeModel {
    Success(Seq<char>),
    Failure(Seq<char>),
}

/// The whole consume loop, as the specifications see it: events fold
/// into the transcript until the first terminal event decides the
/// outcome; whatever follows a terminal event is never consumed.
pub open spec fn spec_consume(t: Seq<char>, evs: Seq<InboundEvent>) -> (Seq<char>, Option<
    OutcomeModel,
>)
    decreases evs.len(),
{
    if evs.len() == 0 {
        (t, None)
    } else {
        match evs[0] {
            InboundEvent::TaskFinished => (t, Some(OutcomeModel::Success(t))),
            InboundEvent::TaskFailed { error_message, message } => (
                t,
                Some(OutcomeModel::Failure(spec_failed_text(error_message, message))),
            ),
            _ => spec_consume(spec_append_final_text(t, evs[0]), evs.drop_first()),
        }
    }
}

/// A run over non-terminal events reaches no outcome and folds every
/// event into the transcript.
proof fn lemma_consume_no_terminal(t: Seq<char>, evs: Seq<InboundEvent>)
    requires
        forall|i: int| 0 <= i < evs.len() ==> !#[trigger] spec_is_terminal(evs[i]),
    ensures
        spec_consume(t, evs) == (spec_transcript_after(t, evs), None::<OutcomeModel>),
    decreases evs.len(),
{
    if evs.len() > 0 {
        assert(!spec_is_terminal(evs[0]));
        assert(forall|i: int|
            0 <= i < evs.drop_first().len() ==> !#[trigger] spec_is_terminal(evs.drop_first()[i]));
        lemma_consume_no_terminal(spec_append_final_text(t, evs[0]), evs.drop_first());
    }
}

/// Law: however many final sentences arrive, a session that consumes
/// non-terminal events `evs` and then a task-finished event succeeds
/// with exactly their final texts, concatenated in arrival order.
pub proof fn lemma_success_concatenates_final_texts(evs: Seq<InboundEvent>)
    requires
        forall|i: int| 0 <= i < evs.len() ==> !#[trigger] spec_is_terminal(evs[i]),
    ensures
        spec_consume(Seq::<char>::empty(), evs.push(InboundEvent::TaskFinished)).1 == Some(
            OutcomeModel::Success(spec_final_texts(evs)),
        ),
    decreases evs.len(),
{
    let closed = evs.push(InboundEvent::TaskFinished);
    if evs.len() == 0 {
        assert(closed[0] is TaskFinished);
        assert(spec_final_texts(evs) =~= Seq::<char>::empty());
    } else {
        assert(closed[0] == evs[0]);
        assert(!spec_is_terminal(evs[0]));
        assert(closed.drop_first() =~= evs.drop_first().push(InboundEvent::TaskFinished));
        assert(forall|i: int|
            0 <= i < evs.drop_first().len() ==> !#[trigger] spec_is_terminal(evs.drop_first()[i]));
        lemma_success_concatenates_final_texts(evs.drop_first());
        lemma_consume_shifts(spec_append_final_text(Seq::<char>::empty(), evs[0]), evs.drop_first());
    }
}

/// Prepending accumulated text to a run prepends it to its success.
proof fn lemma_consume_shifts(t: Seq<char>, evs: Seq<InboundEvent>)
    requires
        forall|i: int| 0 <= i < evs.len() ==> !#[trigger] spec_is_terminal(evs[i]),
    ensures
        spec_consume(t, evs.push(InboundEvent::TaskFinished)).1 == Some(
            OutcomeModel::Success(t + spec_final_texts(evs)),
        ),
    decreases evs.len(),
{
    let closed = evs.push(InboundEvent::TaskFinished);
    if evs.len() == 0 {
        assert(closed[0] is TaskFinished);
        assert(t + spec_final_texts(evs) =~= t);
    } else {
        assert(closed[0] == evs[0]);
        assert(!spec_is_terminal(evs[0]));
        assert(closed.drop_first() =~= evs.drop_first().push(InboundEvent::TaskFinished));
        assert(forall|i: int|
            0 <= i < evs.drop_first().len() ==> !#[trigger] spec_is_terminal(evs.drop_first()[i]));
        lemma_consume_shifts(spec_append_final_text(t, evs[0]), evs.drop_first());
        assert(spec_append_final_text(t, evs[0]) =~= t + spec_event_text(evs[0]));
        assert((t + spec_event_text(evs[0])) + spec_final_texts(evs.drop_first()) =~= t + (
        spec_event_text(evs[0]) + spec_final_texts(evs.drop_first())));
    }
}

/// Whether a task-started event has been observed once `evs` has been
/// consumed on top of an initial observation state.
pub open spec fn spec_started_after(started: bool, evs: Seq<InboundEvent>) -> bool
    decreases evs.len(),
{
    if evs.len() == 0 {
        started
    } else {
        spec_started_after(started || evs[0] is TaskStarted, evs.drop_first())
    }
}

/// An observed task-started event is never forgotten.
proof fn lemma_started_stays(started: bool, evs: Seq<InboundEvent>)
    requires
        started,
    ensures
        spec_started_after(started, evs),
    decreases evs.len(),
{
    if evs.len() > 0 {
        lemma_started_stays(started || evs[0] is TaskStarted, evs.drop_first());
    }
}

/// A sequence holding a task-started event leaves the signal state set.
proof fn lemma_started_after_task_started(started: bool, evs: Seq<InboundEvent>, k: int)
    requires
        0 <= k < evs.len(),
        evs[k] is TaskStarted,
    ensures
        spec_started_after(started, evs),
    decreases evs.len(),
{
    if k == 0 {
        lemma_started_stays(started || evs[0] is TaskStarted, evs.drop_first());
    } else {
        lemma_started_after_task_started(started || evs[0] is TaskStarted, evs.drop_first(), k - 1);
    }
}

/// Law: the start signal fires at most once per session. If consuming
/// the event at position `i` fires it, no later event can fire it again.
pub proof fn lemma_signal_fires_at_most_once(
    started: bool,
    evs: Seq<InboundEvent>,
    i: int,
    j: int,
)
    requires
        0 <= i < j < evs.len(),
        spec_fires_signal(spec_started_after(started, evs.take(i)), evs[i]),
    ensures
        !spec_fires_signal(spec_started_after(started, evs.take(j)), evs[j]),
{
    assert(evs.take(j)[i] == evs[i]);
    lemma_started_after_task_started(started, evs.take(j), i);
}

/// Law: a session that accumulates no text ends empty. If no event in
/// the sequence carries a final sentence text, the transcript stays
/// empty, and `conclude` then reports that no result was produced.
pub proof fn lemma_no_text_stays_empty(evs: Seq<InboundEvent>)
    requires
        forall|i: int| 0 <= i < evs.len() ==> #[trigger] spec_event_text(evs[i]).len() == 0,
    ensures
        spec_transcript_after(Seq::<char>::empty(), evs).len() == 0,
    decreases evs.len(),
{
    lemma_transcript_is_final_text_concat(Seq::<char>::empty(), evs);
    lemma_final_texts_len(evs);
}

/// The concatenated final texts of an all-empty event sequence are empty.
proof fn lemma_final_texts_len(evs: Seq<InboundEvent>)
    requires
        forall|i: int| 0 <= i < evs.len() ==> #[trigger] spec_event_text(evs[i]).len() == 0,
    ensures
        spec_final_texts(evs).len() == 0,
    decreases evs.len(),
{
    if evs.len() > 0 {
        assert(spec_event_text(evs[0]).len() == 0);
        assert(forall|i: int|
            0 <= i < evs.drop_first().len() ==> #[trigger] spec_event_text(
                evs.drop_first()[i],
            ).len() == 0);
        lemma_final_texts_len(evs.drop_first());
    }
}

} // verus!
