use vstd::prelude::*;

verus! {

/// Number of bytes in one streamed audio chunk (about 100 ms of
/// 16 kHz, 16-bit, single-channel PCM).
pub const AUDIO_CHUNK_BYTES: usize = 3200;

/// Milliseconds the session loop pauses between chunk sends, so that the
/// nominal throughput of `AUDIO_CHUNK_BYTES / CHUNK_PACING_MS` bytes per
/// millisecond matches the declared 16 kHz, 16-bit sample rate.
pub const CHUNK_PACING_MS: u64 = 20;

/// The chunk size as a mathematical integer.
pub open spec fn chunk_bytes() -> int {
    AUDIO_CHUNK_BYTES as int
}

/// Number of chunks needed to stream `len` bytes of audio:
/// the ceiling of `len / AUDIO_CHUNK_BYTES`.
pub open spec fn spec_chunk_count(len: nat) -> nat {
    ((len + chunk_bytes() - 1) / chunk_bytes()) as nat
}

/// How many chunks an audio buffer of `len` bytes is streamed as.
pub fn chunk_count(len: usize) -> (n: usize)
    ensures
        n == spec_chunk_count(len as nat),
{
    let full: usize = len / AUDIO_CHUNK_BYTES;
    let rem: usize = len % AUDIO_CHUNK_BYTES;
    proof {
        vstd::arithmetic::div_mod::lemma_fundamental_div_mod(len as int, chunk_bytes());
        if rem == 0 {
            assert((len + chunk_bytes() - 1) / chunk_bytes() == len as int / chunk_bytes())
                by (nonlinear_arith)
                requires
                    len as int % chunk_bytes() == 0,
                    chunk_bytes() == 3200,
            ;
        } else {
            assert((len + chunk_bytes() - 1) / chunk_bytes() == len as int / chunk_bytes() + 1)
                by (nonlinear_arith)
                requires
                    len as int % chunk_bytes() != 0,
                    chunk_bytes() == 3200,
            ;
        }
    }
    if rem == 0 {
        full
    } else {
        full + 1
    }
}

/// The contents of chunk `i` of `audio`: the `i`-th consecutive window of
/// `AUDIO_CHUNK_BYTES` bytes, truncated at the end of the buffer.
pub open spec fn spec_chunk(audio: Seq<u8>, i: int) -> Seq<u8> {
    let start = i * chunk_bytes();
    let end = if audio.len() <= (i + 1) * chunk_bytes() {
        audio.len() as int
    } else {
        (i + 1) * chunk_bytes()
    };
    audio.subrange(start, end)
}

/// A chunk index below the chunk count starts strictly inside the buffer.
pub proof fn lemma_chunk_start_in_bounds(len: nat, i: nat)
    requires
        i < spec_chunk_count(len),
    ensures
        i * chunk_bytes() < len,
{
    assert(i * chunk_bytes() < len) by (nonlinear_arith)
        requires
            i < ((len + chunk_bytes() - 1) / chunk_bytes()) as nat,
            chunk_bytes() == 3200,
    ;
}

/// Law: every chunk except the last holds exactly `AUDIO_CHUNK_BYTES` bytes,
/// and the last holds `len mod AUDIO_CHUNK_BYTES` bytes, or a full chunk when
/// the length divides evenly.
pub proof fn lemma_chunk_sizes(audio: Seq<u8>, i: int)
    requires
        0 <= i < spec_chunk_count(audio.len()),
    ensures
        i + 1 < spec_chunk_count(audio.len()) ==> spec_chunk(audio, i).len() == chunk_bytes(),
        i + 1 == spec_chunk_count(audio.len()) ==> spec_chunk(audio, i).len() == (
        if audio.len() as int % chunk_bytes() == 0 {
            chunk_bytes()
        } else {
            audio.len() as int % chunk_bytes()
        }),
{
    lemma_chunk_start_in_bounds(audio.len(), i as nat);
    if i + 1 < spec_chunk_count(audio.len()) {
        assert((i + 1) * chunk_bytes() <= audio.len()) by (nonlinear_arith)
            requires
                i + 1 < ((audio.len() + chunk_bytes() - 1) / chunk_bytes()) as nat,
                chunk_bytes() == 3200,
        ;
        assert((i + 1) * chunk_bytes() - i * chunk_bytes() == chunk_bytes()) by (nonlinear_arith);
    } else {
        assert(audio.len() <= (i + 1) * chunk_bytes()) by (nonlinear_arith)
            requires
                i + 1 == ((audio.len() + chunk_bytes() - 1) / chunk_bytes()) as nat,
                chunk_bytes() == 3200,
        ;
        assert(audio.len() as int - i * chunk_bytes() == (if audio.len() as int % chunk_bytes()
            == 0 {
            chunk_bytes()
        } else {
            audio.len() as int % chunk_bytes()
        })) by (nonlinear_arith)
            requires
                i + 1 == ((audio.len() + chunk_bytes() - 1) / chunk_bytes()) as nat,
                i * chunk_bytes() < audio.len(),
                chunk_bytes() == 3200,
        ;
    }
}

/// The first `k` chunks of `audio`, concatenated in order.
pub open spec fn spec_chunks_prefix(audio: Seq<u8>, k: int) -> Seq<u8>
    decreases k,
{
    if k <= 0 {
        Seq::empty()
    } else {
        spec_chunks_prefix(audio, k - 1) + spec_chunk(audio, k - 1)
    }
}

/// How much of the buffer the first `k` chunks cover.
pub open spec fn spec_covered(len: nat, k: int) -> int {
    if len <= k * chunk_bytes() {
        len as int
    } else {
        k * chunk_bytes()
    }
}

proof fn lemma_chunks_prefix_take(audio: Seq<u8>, k: int)
    requires
        0 <= k <= spec_chunk_count(audio.len()),
    ensures
        spec_chunks_prefix(audio, k) == audio.take(spec_covered(audio.len(), k)),
    decreases k,
{
    if k <= 0 {
        assert(spec_chunks_prefix(audio, k) =~= audio.take(0));
    } else {
        lemma_chunks_prefix_take(audio, k - 1);
        lemma_chunk_start_in_bounds(audio.len(), (k - 1) as nat);
        assert((k - 1) * chunk_bytes() < audio.len() && (k - 1) * chunk_bytes() == k * chunk_bytes()
            - chunk_bytes()) by (nonlinear_arith)
            requires
                0 <= k - 1 < spec_chunk_count(audio.len()),
                (k - 1) * chunk_bytes() < audio.len(),
                chunk_bytes() == 3200,
        ;
        assert(spec_covered(audio.len(), k - 1) == (k - 1) * chunk_bytes());
        assert(audio.take((k - 1) * chunk_bytes()) + spec_chunk(audio, k - 1) =~= audio.take(
            spec_covered(audio.len(), k),
        ));
    }
}

/// Law: streamed to the end, the chunks reassemble the audio buffer
/// exactly: nothing is dropped, duplicated, or reordered.
pub proof fn lemma_chunks_reassemble(audio: Seq<u8>)
    ensures
        spec_chunks_prefix(audio, spec_chunk_count(audio.len()) as int) == audio,
{
    let count = spec_chunk_count(audio.len()) as int;
    assert(audio.len() <= count * chunk_bytes()) by (nonlinear_arith)
        requires
            count == ((audio.len() + chunk_bytes() - 1) / chunk_bytes()) as nat,
            chunk_bytes() == 3200,
    ;
    lemma_chunks_prefix_take(audio, count);
    assert(audio.take(audio.len() as int) =~= audio);
}

/// Copy of chunk `i` of `audio`, ready to be sent as one binary frame.
pub fn audio_chunk(audio: &Vec<u8>, i: usize) -> (c: Vec<u8>)
    requires
        (i as nat) < spec_chunk_count(audio@.len()),
    ensures
        c@ == spec_chunk(audio@, i as int),
{
    let n: usize = audio.len();
    proof {
        lemma_chunk_start_in_bounds(audio@.len(), i as nat);
    }
    let start: usize = i * AUDIO_CHUNK_BYTES;
    let end: usize = if n - start <= AUDIO_CHUNK_BYTES {
        n
    } else {
        start + AUDIO_CHUNK_BYTES
    };
    let mut c: Vec<u8> = Vec::new();
    let mut j: usize = start;
    while j < end
        invariant
            start <= j <= end <= audio@.len(),
            c@ == audio@.subrange(start as int, j as int),
        decreases end - j,
    {
        c.push(audio[j]);
        proof {
            assert(c@ =~= audio@.subrange(start as int, j + 1));
        }
        j += 1;
    }
    proof {
        assert(c@ =~= spec_chunk(audio@, i as int));
    }
    c
}

/// Where the audio producer stands in its life cycle.
#[derive(Debug, Clone, Copy, PartialEq, Eq, Structural)]
pub enum StreamPhase {
    /// Blocked on the one-shot start signal; nothing has been sent.
    Waiting,
    /// Unblocked; chunks are being handed out in order.
    Sending,
    /// Every chunk and the finish request have been handed out.
    Finished,
    /// Cancelled by the consumer; nothing more will ever be handed out.
    Cancelled,
}

/// What one poll of the streamer tells the session loop to do.
#[derive(Debug)]
pub enum StreamEmit {
    /// Send this chunk as one binary frame.
    Chunk(Vec<u8>),
    /// All audio is out: send the finish-task control message.
    Finish,
    /// Nothing to do in this state.
    Idle,
}

/// The streamer as the specifications see it.
pub ghost struct StreamerModel {
    pub audio: Seq<u8>,
    pub sent: nat,
    pub phase: StreamPhase,
}

/// What one poll emits, as the specifications see it.
pub ghost enum EmitModel {
    Chunk(Seq<u8>),
    Finish,
    Idle,
}

/// An input to the streamer: the start signal, a cancellation, or a poll.
pub ghost enum StreamCmd {
    Start,
    Cancel,
    Poll,
}

/// Receiving the start signal unblocks a waiting streamer; in any other
/// phase the signal is a no-op (it fires at most once, and cancellation
/// is never undone).
pub open spec fn spec_stream_start(m: StreamerModel) -> StreamerModel {
    if m.phase is Waiting {
        StreamerModel { phase: StreamPhase::Sending, ..m }
    } else {
        m
    }
}

/// Cancellation is unconditional and idempotent.
pub open spec fn spec_stream_cancel(m: StreamerModel) -> StreamerModel {
    StreamerModel { phase: StreamPhase::Cancelled, ..m }
}

/// One poll: while sending, hand out the next chunk in order; after the
/// last chunk, hand out the finish request once; otherwise stay idle.
pub open spec fn spec_stream_poll(m: StreamerModel) -> (StreamerModel, EmitModel) {
    if m.phase is Sending {
        if m.sent < spec_chunk_count(m.audio.len()) {
            (
                StreamerModel { sent: (m.sent + 1) as nat, ..m },
                EmitModel::Chunk(spec_chunk(m.audio, m.sent as int)),
            )
        } else {
            (StreamerModel { phase: StreamPhase::Finished, ..m }, EmitModel::Finish)
        }
    } else {
        (m, EmitModel::Idle)
    }
}

/// One streamer input, dispatched to its transition.
pub open spec fn spec_stream_step(m: StreamerModel, c: StreamCmd) -> (StreamerModel, EmitModel) {
    match c {
        StreamCmd::Start => (spec_stream_start(m), EmitModel::Idle),
        StreamCmd::Cancel => (spec_stream_cancel(m), EmitModel::Idle),
        StreamCmd::Poll => spec_stream_poll(m),
    }
}

/// Everything a streamer emits over a whole sequence of inputs.
pub open spec fn spec_stream_trace(m: StreamerModel, cs: Seq<StreamCmd>) -> Seq<EmitModel>
    decreases cs.len(),
{
    if cs.len() == 0 {
        Seq::empty()
    } else {
        seq![spec_stream_step(m, cs[0]).1] + spec_stream_trace(
            spec_stream_step(m, cs[0]).0,
            cs.drop_first(),
        )
    }
}

/// Law: before the start signal fires, the streamer sends nothing.
/// Whatever mixture of polls and cancellations reaches a still-waiting
/// streamer, its trace holds no chunk and no finish request.
pub proof fn lemma_no_frames_before_signal(m: StreamerModel, cs: Seq<StreamCmd>)
    requires
        m.phase is Waiting || m.phase is Cancelled,
        forall|i: int| 0 <= i < cs.len() ==> cs[i] !is Start,
    ensures
        spec_stream_trace(m, cs).len() == cs.len(),
        forall|i: int| 0 <= i < cs.len() ==> #[trigger] spec_stream_trace(m, cs)[i] is Idle,
    decreases cs.len(),
{
    if cs.len() > 0 {
        let (m2, e) = spec_stream_step(m, cs[0]);
        assert(e is Idle);
        assert(m2.phase is Waiting || m2.phase is Cancelled);
        assert(forall|i: int| 0 <= i < cs.drop_first().len() ==> cs.drop_first()[i] !is Start);
        lemma_no_frames_before_signal(m2, cs.drop_first());
        assert(forall|i: int|
            1 <= i < cs.len() ==> spec_stream_trace(m, cs)[i] == spec_stream_trace(
                m2,
                cs.drop_first(),
            )[i - 1]);
    }
}

/// Law: cancellation is final. Once a streamer is cancelled it emits
/// nothing further, whatever inputs follow, the start signal included.
pub proof fn lemma_silent_after_cancel(m: StreamerModel, cs: Seq<StreamCmd>)
    requires
        m.phase is Cancelled,
    ensures
        spec_stream_trace(m, cs).len() == cs.len(),
        forall|i: int| 0 <= i < cs.len() ==> #[trigger] spec_stream_trace(m, cs)[i] is Idle,
    decreases cs.len(),
{
    if cs.len() > 0 {
        let (m2, e) = spec_stream_step(m, cs[0]);
        assert(e is Idle);
        assert(m2.phase is Cancelled);
        lemma_silent_after_cancel(m2, cs.drop_first());
        assert(forall|i: int|
            1 <= i < cs.len() ==> spec_stream_trace(m, cs)[i] == spec_stream_trace(
                m2,
                cs.drop_first(),
            )[i - 1]);
    }
}

/// The audio producer: waits for the one-shot start signal, then hands out
/// the buffer as consecutive real-time chunks, then a finish request, and
/// obeys cancellation at any point.
pub struct AudioStreamer {
    audio: Vec<u8>,
    sent: usize,
    phase: StreamPhase,
}

impl View for AudioStreamer {
    type V = StreamerModel;

    closed spec fn view(&self) -> StreamerModel {
        StreamerModel { audio: self.audio@, sent: self.sent as nat, phase: self.phase }
    }
}

/// What a concrete emission looks like to the specifications.
pub open spec fn emit_model(e: StreamEmit) -> EmitModel {
    match e {
        StreamEmit::Chunk(v) => EmitModel::Chunk(v@),
        StreamEmit::Finish => EmitModel::Finish,
        StreamEmit::Idle => EmitModel::Idle,
    }
}

impl AudioStreamer {
    /// A fresh producer for one session's audio, blocked on the signal.
    pub fn new(audio: Vec<u8>) -> (s: AudioStreamer)
        ensures
            s@ == (StreamerModel { audio: audio@, sent: 0, phase: StreamPhase::Waiting }),
    {
        AudioStreamer { audio, sent: 0, phase: StreamPhase::Waiting }
    }

    /// The one-shot start signal has fired.
    pub fn start(&mut self)
        ensures
            final(self)@ == spec_stream_start(old(self)@),
    {
        if matches!(self.phase, StreamPhase::Waiting) {
            self.phase = StreamPhase::Sending;
        }
    }

    /// The consumer cancels the producer; idempotent.
    pub fn cancel(&mut self)
        ensures
            final(self)@ == spec_stream_cancel(old(self)@),
    {
        self.phase = StreamPhase::Cancelled;
    }

    /// One producer step: the next chunk, the finish request, or nothing.
    pub fn poll(&mut self) -> (e: StreamEmit)
        ensures
            final(self)@ == spec_stream_poll(old(self)@).0,
            emit_model(e) == spec_stream_poll(old(self)@).1,
    {
        match self.phase {
            StreamPhase::Sending => {
                let total = chunk_count(self.audio.len());
                if self.sent < total {
                    let c = audio_chunk(&self.audio, self.sent);
                    self.sent += 1;
                    StreamEmit::Chunk(c)
                } else {
                    self.phase = StreamPhase::Finished;
                    StreamEmit::Finish
                }
            },
            _ => StreamEmit::Idle,
        }
    }
}

} // verus!
