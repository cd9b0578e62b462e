//! Time-batched streaming of a child's output.
//!
//! A child process may write in arbitrarily small and frequent pieces. The
//! batcher collects the chunks that arrive within one window and hands them on
//! as one batch when the window ends, so that consumers are updated at a
//! bounded rate. When the producer disconnects, whatever is buffered goes out
//! at once as the final batch. Batching changes when text is delivered, never
//! what is delivered.
//!
//! The batcher does not wait or read by itself. Its caller waits on the chunk
//! queue for as long as [`StreamBatcher::poll`] allows and reports what came of
//! it; [`stream_batched`] batches a recorded sequence of such arrivals.

use vstd::prelude::*;

verus! {

/// The length of one batch window, in milliseconds.
pub const FLUSH_INTERVAL_MS: u64 = 200;

/// What waiting on the chunk queue came to.
#[derive(Clone, Debug, PartialEq, Eq)]
pub enum Arrival {
    /// A chunk of output arrived before the window ended.
    Chunk { text: String },
    /// The window ended with nothing more arriving.
    Timeout,
    /// The producer is gone: the stream has ended.
    Disconnected,
}

pub enum ArrivalView {
    Chunk { text: Seq<char> },
    Timeout,
    Disconnected,
}

impl View for Arrival {
    type V = ArrivalView;

    open spec fn view(&self) -> ArrivalView {
        match *self {
            Arrival::Chunk { text } => ArrivalView::Chunk { text: text@ },
            Arrival::Timeout => ArrivalView::Timeout,
            Arrival::Disconnected => ArrivalView::Disconnected,
        }
    }
}

/// One emission of the batcher.
#[derive(Clone, Debug, PartialEq, Eq)]
pub struct Batch {
    pub content: String,
    pub is_final: bool,
}

pub struct BatchView {
    pub content: Seq<char>,
    pub is_final: bool,
}

impl View for Batch {
    type V = BatchView;

    open spec fn view(&self) -> BatchView {
        BatchView { content: self.content@, is_final: self.is_final }
    }
}

/// The views of a vector of arrivals, element by element.
pub open spec fn arrival_views(arrivals: Seq<Arrival>) -> Seq<ArrivalView> {
    Seq::new(arrivals.len(), |i: int| arrivals[i]@)
}

/// The views of a vector of batches, element by element.
pub open spec fn batch_views(batches: Seq<Batch>) -> Seq<BatchView> {
    Seq::new(batches.len(), |i: int| batches[i]@)
}

/// A batcher run seen from outside: what is buffered, what was emitted so
/// far, and whether the final batch is out.
pub struct RunState {
    pub buffer: Seq<char>,
    pub emitted: Seq<BatchView>,
    pub finished: bool,
}

/// The state in which a run starts.
pub open spec fn initial_run() -> RunState {
    RunState { buffer: Seq::empty(), emitted: Seq::empty(), finished: false }
}

/// The state after one more arrival. A chunk is buffered. The end of a window
/// emits the buffer as a non-final batch if it holds anything. Disconnection
/// emits the buffer, empty or not, as the final batch. A finished run ignores
/// whatever follows.
pub open spec fn run_step(state: RunState, arrival: ArrivalView) -> RunState {
    if state.finished {
        state
    } else {
        match arrival {
            ArrivalView::Chunk { text } => RunState { buffer: state.buffer + text, ..state },
            ArrivalView::Timeout => if state.buffer.len() > 0 {
                RunState {
                    buffer: Seq::empty(),
                    emitted: state.emitted.push(
                        BatchView { content: state.buffer, is_final: false },
                    ),
                    finished: false,
                }
            } else {
                state
            },
            ArrivalView::Disconnected => RunState {
                buffer: Seq::empty(),
                emitted: state.emitted.push(BatchView { content: state.buffer, is_final: true }),
                finished: true,
            },
        }
    }
}

/// The state of a run after `arrivals`.
pub open spec fn run_after(arrivals: Seq<ArrivalView>) -> RunState
    decreases arrivals.len(),
{
    if arrivals.len() == 0 {
        initial_run()
    } else {
        run_step(run_after(arrivals.drop_last()), arrivals.last())
    }
}

/// The batches emitted for `arrivals`, in emission order.
pub open spec fn batches_of(arrivals: Seq<ArrivalView>) -> Seq<BatchView> {
    run_after(arrivals).emitted
}

/// The text an arrival brings: a chunk's text, and nothing for the others.
pub open spec fn chunk_text(arrival: ArrivalView) -> Seq<char> {
    match arrival {
        ArrivalView::Chunk { text } => text,
        _ => Seq::empty(),
    }
}

/// The text of all chunks among `arrivals`, concatenated in arrival order.
pub open spec fn all_text(arrivals: Seq<ArrivalView>) -> Seq<char>
    decreases arrivals.len(),
{
    if arrivals.len() == 0 {
        Seq::empty()
    } else {
        all_text(arrivals.drop_last()) + chunk_text(arrivals.last())
    }
}

/// The contents of `batches`, concatenated in emission order.
pub open spec fn emitted_text(batches: Seq<BatchView>) -> Seq<char>
    decreases batches.len(),
{
    if batches.len() == 0 {
        Seq::empty()
    } else {
        emitted_text(batches.drop_last()) + batches.last().content
    }
}

/// Whether the producer disconnects somewhere in `arrivals`.
pub open spec fn disconnected_in(arrivals: Seq<ArrivalView>) -> bool {
    exists|i: int| 0 <= i < arrivals.len() && #[trigger] arrivals[i] is Disconnected
}

/// The part of `arrivals` that belongs to the run: everything up to and
/// including the first disconnection, or all of it where there is none.
pub open spec fn run_of(arrivals: Seq<ArrivalView>) -> Seq<ArrivalView>
    decreases arrivals.len(),
{
    if arrivals.len() > 0 && disconnected_in(arrivals.drop_last()) {
        run_of(arrivals.drop_last())
    } else {
        arrivals
    }
}

proof fn lemma_emitted_text_push(batches: Seq<BatchView>, batch: BatchView)
    ensures
        emitted_text(batches.push(batch)) == emitted_text(batches) + batch.content,
{
    assert(batches.push(batch).drop_last() == batches);
}

proof fn lemma_disconnected_in_push(arrivals: Seq<ArrivalView>)
    requires
        arrivals.len() > 0,
    ensures
        disconnected_in(arrivals) <==> disconnected_in(arrivals.drop_last())
            || arrivals.last() is Disconnected,
{
    let before = arrivals.drop_last();
    if disconnected_in(arrivals) {
        let i = choose|i: int| 0 <= i < arrivals.len() && #[trigger] arrivals[i] is Disconnected;
        if i < before.len() {
            assert(before[i] is Disconnected);
        }
    }
    if disconnected_in(before) {
        let i = choose|i: int| 0 <= i < before.len() && #[trigger] before[i] is Disconnected;
        assert(arrivals[i] is Disconnected);
    }
    if arrivals.last() is Disconnected {
        assert(arrivals[arrivals.len() - 1] is Disconnected);
    }
}

/// Everything about a run that the laws below state, proved together by
/// induction over the arrivals.
proof fn lemma_run(arrivals: Seq<ArrivalView>)
    ensures
        run_after(arrivals).finished <==> disconnected_in(arrivals),
        emitted_text(run_after(arrivals).emitted) + run_after(arrivals).buffer == all_text(
            run_of(arrivals),
        ),
        run_after(arrivals).finished ==> {
            &&& run_after(arrivals).buffer.len() == 0
            &&& run_after(arrivals).emitted.len() > 0
            &&& run_after(arrivals).emitted.last().is_final
        },
        forall|i: int|
            0 <= i < run_after(arrivals).emitted.len() && (#[trigger] run_after(
                arrivals,
            ).emitted[i]).is_final ==> run_after(arrivals).finished && i == run_after(
                arrivals,
            ).emitted.len() - 1,
        forall|i: int|
            0 <= i < run_after(arrivals).emitted.len() && !(#[trigger] run_after(
                arrivals,
            ).emitted[i]).is_final ==> run_after(arrivals).emitted[i].content.len() > 0,
        run_after(run_of(arrivals)) == run_after(arrivals),
    decreases arrivals.len(),
{
    if arrivals.len() == 0 {
        assert(emitted_text(run_after(arrivals).emitted) + run_after(arrivals).buffer == all_text(
            run_of(arrivals),
        ));
    } else {
        let before = arrivals.drop_last();
        let last = arrivals.last();
        let prior = run_after(before);
        let state = run_after(arrivals);
        lemma_run(before);
        lemma_disconnected_in_push(arrivals);
        if !disconnected_in(before) {
            assert(run_of(arrivals) == arrivals);
            match last {
                ArrivalView::Chunk { text } => {
                    assert(emitted_text(state.emitted) + state.buffer == emitted_text(
                        prior.emitted,
                    ) + prior.buffer + text);
                },
                ArrivalView::Timeout => {
                    if prior.buffer.len() > 0 {
                        lemma_emitted_text_push(
                            prior.emitted,
                            BatchView { content: prior.buffer, is_final: false },
                        );
                    }
                    assert(emitted_text(state.emitted) + state.buffer == emitted_text(
                        prior.emitted,
                    ) + prior.buffer);
                    assert(all_text(arrivals) == all_text(before));
                },
                ArrivalView::Disconnected => {
                    lemma_emitted_text_push(
                        prior.emitted,
                        BatchView { content: prior.buffer, is_final: true },
                    );
                    assert(emitted_text(state.emitted) + state.buffer == emitted_text(
                        prior.emitted,
                    ) + prior.buffer);
                    assert(all_text(arrivals) == all_text(before));
                },
            }
        }
    }
}

/// Content preservation: the emitted contents, concatenated in emission order
/// and followed by what is still buffered, are exactly the text of the chunks
/// that arrived in the run, in arrival order. Once the producer has
/// disconnected nothing is buffered, and the emitted contents alone are that
/// text: nothing lost, nothing reordered, nothing repeated. In particular, of
/// arrivals that end with the one disconnection, the emitted contents are the
/// text of all chunks.
pub proof fn lemma_content_preserved(arrivals: Seq<ArrivalView>)
    ensures
        emitted_text(batches_of(arrivals)) + run_after(arrivals).buffer == all_text(
            run_of(arrivals),
        ),
        disconnected_in(arrivals) ==> emitted_text(batches_of(arrivals)) == all_text(
            run_of(arrivals),
        ),
        arrivals.len() > 0 && arrivals.last() is Disconnected && !disconnected_in(
            arrivals.drop_last(),
        ) ==> emitted_text(batches_of(arrivals)) == all_text(arrivals),
{
    lemma_run(arrivals);
    if arrivals.len() > 0 {
        lemma_disconnected_in_push(arrivals);
    }
    if disconnected_in(arrivals) {
        assert(emitted_text(batches_of(arrivals)) + run_after(arrivals).buffer == emitted_text(
            batches_of(arrivals),
        ));
    }
}

/// Exactly one final batch per run, and it is the last emission: a run whose
/// producer disconnected has emitted at least one batch and its last batch is
/// final; a batch that is final is the last one of such a run.
pub proof fn lemma_one_final_batch(arrivals: Seq<ArrivalView>)
    ensures
        disconnected_in(arrivals) ==> batches_of(arrivals).len() > 0 && batches_of(
            arrivals,
        ).last().is_final,
        forall|i: int|
            0 <= i < batches_of(arrivals).len() && (#[trigger] batches_of(arrivals)[i]).is_final
                ==> disconnected_in(arrivals) && i == batches_of(arrivals).len() - 1,
{
    lemma_run(arrivals);
}

/// A batch emitted at the end of a window is never empty: windows in which
/// nothing arrived emit nothing.
pub proof fn lemma_window_batches_hold_text(arrivals: Seq<ArrivalView>)
    ensures
        forall|i: int|
            0 <= i < batches_of(arrivals).len() && !(#[trigger] batches_of(arrivals)[i]).is_final
                ==> batches_of(arrivals)[i].content.len() > 0,
{
    lemma_run(arrivals);
}

/// Whatever arrives after the first disconnection changes nothing: the run
/// has stopped.
pub proof fn lemma_run_stops_at_disconnection(arrivals: Seq<ArrivalView>)
    ensures
        batches_of(run_of(arrivals)) == batches_of(arrivals),
{
    lemma_run(arrivals);
}

/// What the caller of a batcher does next.
#[derive(Clone, Copy, Debug, PartialEq, Eq, Structural)]
pub enum Wait {
    /// Wait on the chunk queue for at most this many milliseconds.
    For { millis: u64 },
    /// The window has ended: do not wait, report a timeout.
    Expired,
}

/// What one arrival does to a run.
#[derive(Debug)]
pub enum Step {
    /// The run goes on with `batcher`; `batch` is what the arrival emitted, if
    /// anything.
    Continue { batcher: StreamBatcher, batch: Option<Batch> },
    /// The run has ended with `batch`.
    Finished { batch: Batch },
}

/// The accumulation buffer of a run and the deadline of its current window.
///
/// Times are milliseconds on a clock of the caller's that never runs
/// backwards.
#[derive(Debug)]
pub struct StreamBatcher {
    buffer: String,
    deadline: Option<u64>,
}

/// A batcher seen from outside: the text buffered, and the time at which the
/// current window ends, if one is open.
pub struct BatcherView {
    pub buffer: Seq<char>,
    pub deadline: Option<u64>,
}

impl View for StreamBatcher {
    type V = BatcherView;

    closed spec fn view(&self) -> BatcherView {
        BatcherView { buffer: self.buffer@, deadline: self.deadline }
    }
}

/// The time at which a window opened at `now` ends.
pub open spec fn window_end(now: u64) -> u64 {
    if now + FLUSH_INTERVAL_MS > u64::MAX {
        u64::MAX
    } else {
        (now + FLUSH_INTERVAL_MS) as u64
    }
}

/// The deadline in force at time `now`: that of the open window, or that of
/// the window which opens now.
pub open spec fn deadline_at(deadline: Option<u64>, now: u64) -> u64 {
    match deadline {
        Some(end) => end,
        None => window_end(now),
    }
}

/// A window lasts the flush interval and no longer: at any time `now` at or
/// after its opening at `opened`, what is left of it is at most the flush
/// interval, and, short of the end of the clock, something is left of it
/// exactly while less than the flush interval has passed.
pub proof fn lemma_window_lasts_flush_interval(opened: u64, now: u64)
    requires
        opened <= now,
    ensures
        window_end(opened) - now <= FLUSH_INTERVAL_MS,
        opened + FLUSH_INTERVAL_MS <= u64::MAX ==> (window_end(opened) > now <==> now - opened
            < FLUSH_INTERVAL_MS),
{
}

impl StreamBatcher {
    /// A batcher with nothing buffered and no window open.
    pub fn new() -> (batcher: StreamBatcher)
        ensures
            batcher@ == (BatcherView { buffer: Seq::empty(), deadline: None }),
    {
        StreamBatcher { buffer: String::new(), deadline: None }
    }

    /// Says how long the caller may wait for the next chunk at time `now`.
    /// Where no window is open, one opens now and lasts the flush interval.
    /// The wait is what is left of the window; a window whose deadline has
    /// been reached is expired.
    pub fn poll(&mut self, now: u64) -> (wait: Wait)
        ensures
            final(self)@.buffer == old(self)@.buffer,
            final(self)@.deadline == Some(deadline_at(old(self)@.deadline, now)),
            wait == if deadline_at(old(self)@.deadline, now) > now {
                Wait::For { millis: (deadline_at(old(self)@.deadline, now) - now) as u64 }
            } else {
                Wait::Expired
            },
    {
        let end = match self.deadline {
            Some(end) => end,
            None => now.saturating_add(FLUSH_INTERVAL_MS),
        };
        self.deadline = Some(end);
        if end > now {
            Wait::For { millis: end - now }
        } else {
            Wait::Expired
        }
    }

    /// Buffers a chunk behind what is buffered already.
    pub fn push(&mut self, chunk: &str)
        ensures
            final(self)@.buffer == old(self)@.buffer + chunk@,
            final(self)@.deadline == old(self)@.deadline,
    {
        self.buffer.append(chunk);
    }

    /// Ends the current window. What is buffered goes out as one non-final
    /// batch; an empty buffer emits nothing. The next poll opens a new window.
    pub fn expire(&mut self) -> (batch: Option<Batch>)
        ensures
            final(self)@ == (BatcherView { buffer: Seq::empty(), deadline: None }),
            match batch {
                Some(b) => old(self)@.buffer.len() > 0 && b@ == (BatchView {
                    content: old(self)@.buffer,
                    is_final: false,
                }),
                None => old(self)@.buffer.len() == 0,
            },
    {
        self.deadline = None;
        if self.buffer.as_str().is_empty() {
            assert(self.buffer@ =~= Seq::empty());
            None
        } else {
            let mut content = String::new();
            core::mem::swap(&mut self.buffer, &mut content);
            Some(Batch { content, is_final: false })
        }
    }

    /// Ends the run: what is buffered, empty or not, goes out as the final batch.
    pub fn finish(self) -> (batch: Batch)
        ensures
            batch@ == (BatchView { content: self@.buffer, is_final: true }),
    {
        Batch { content: self.buffer, is_final: true }
    }

    /// Takes what waiting on the chunk queue came to. A chunk is buffered and
    /// the window stays open. A timeout ends the window and emits the buffer
    /// if it holds anything. Disconnection ends the run with the final batch.
    pub fn accept(self, arrival: Arrival) -> (step: Step)
        ensures
            match arrival@ {
                ArrivalView::Chunk { text } => {
                    &&& step matches Step::Continue { batcher, batch }
                    &&& batcher@ == (BatcherView {
                        buffer: self@.buffer + text,
                        deadline: self@.deadline,
                    })
                    &&& batch is None
                },
                ArrivalView::Timeout => {
                    &&& step matches Step::Continue { batcher, batch }
                    &&& batcher@ == (BatcherView { buffer: Seq::empty(), deadline: None })
                    &&& match batch {
                        Some(b) => self@.buffer.len() > 0 && b@ == (BatchView {
                            content: self@.buffer,
                            is_final: false,
                        }),
                        None => self@.buffer.len() == 0,
                    }
                },
                ArrivalView::Disconnected => {
                    &&& step matches Step::Finished { batch }
                    &&& batch@ == (BatchView { content: self@.buffer, is_final: true })
                },
            },
    {
        let mut batcher = self;
        match arrival {
            Arrival::Chunk { text } => {
                batcher.push(text.as_str());
                Step::Continue { batcher, batch: None }
            },
            Arrival::Timeout => {
                let batch = batcher.expire();
                Step::Continue { batcher, batch }
            },
            Arrival::Disconnected => Step::Finished { batch: batcher.finish() },
        }
    }
}

/// Batches a recorded run: the batches that a batcher emits when waiting on
/// the chunk queue comes to `arrivals`, one after the other. The run ends at
/// the first disconnection; arrivals recorded after it are not looked at.
pub fn stream_batched(arrivals: &Vec<Arrival>) -> (batches: Vec<Batch>)
    ensures
        batch_views(batches@) == batches_of(arrival_views(arrivals@)),
{
    let ghost trace = arrival_views(arrivals@);
    let mut batcher = StreamBatcher::new();
    let mut batches: Vec<Batch> = Vec::new();
    let mut i: usize = 0;
    assert(trace.take(0) =~= Seq::empty());
    while i < arrivals.len()
        invariant
            i <= arrivals@.len(),
            trace == arrival_views(arrivals@),
            run_after(trace.take(i as int)).buffer == batcher@.buffer,
            run_after(trace.take(i as int)).emitted == batch_views(batches@),
            !run_after(trace.take(i as int)).finished,
        decreases arrivals@.len() - i,
    {
        let ghost emitted = batch_views(batches@);
        assert(trace.take(i + 1).drop_last() =~= trace.take(i as int));
        assert(trace.take(i + 1).last() == arrivals@[i as int]@);
        match &arrivals[i] {
            Arrival::Chunk { text } => {
                batcher.push(text.as_str());
            },
            Arrival::Timeout => {
                match batcher.expire() {
                    Some(batch) => {
                        batches.push(batch);
                        assert(batch_views(batches@) =~= emitted.push(batch@));
                    },
                    None => {},
                }
            },
            Arrival::Disconnected => {
                let batch = batcher.finish();
                batches.push(batch);
                proof {
                    assert(batch_views(batches@) =~= emitted.push(batch@));
                    let run = trace.take(i + 1);
                    assert(run_after(run).emitted == batch_views(batches@));
                    assert(run[i as int] is Disconnected);
                    lemma_run_stops_after(trace, i + 1);
                }
                return batches;
            },
        }
        i = i + 1;
    }
    assert(trace.take(i as int) =~= trace);
    batches
}

/// A run that has finished after its first `n` arrivals is the same after
/// all of them.
proof fn lemma_run_stops_after(arrivals: Seq<ArrivalView>, n: int)
    requires
        0 <= n <= arrivals.len(),
        run_after(arrivals.take(n)).finished,
    ensures
        run_after(arrivals) == run_after(arrivals.take(n)),
    decreases arrivals.len() - n,
{
    if n == arrivals.len() {
        assert(arrivals.take(n) =~= arrivals);
    } else {
        assert(arrivals.take(n + 1).drop_last() =~= arrivals.take(n));
        lemma_run_stops_after(arrivals, n + 1);
    }
}

} // verus!
