//! What becomes of the batches of a streaming spell.
//!
//! A streaming preview publishes every batch that holds text as a chunk event
//! and signals the end of the stream after the final batch. A streaming paste
//! types every batch that holds text. Empty batches are never published or
//! typed.

use crate::batcher::{
    all_text, batches_of, disconnected_in, emitted_text, lemma_content_preserved,
    lemma_one_final_batch, run_after, run_of, ArrivalView, Batch, BatchView,
};
use vstd::prelude::*;

verus! {

/// A signal pushed to the preview surface.
#[derive(Clone, Debug, PartialEq, Eq)]
pub enum PreviewEvent {
    /// More output to show.
    Chunk { text: String },
    /// The stream has ended.
    End,
}

pub enum PreviewEventView {
    Chunk { text: Seq<char> },
    End,
}

impl View for PreviewEvent {
    type V = PreviewEventView;

    open spec fn view(&self) -> PreviewEventView {
        match *self {
            PreviewEvent::Chunk { text } => PreviewEventView::Chunk { text: text@ },
            PreviewEvent::End => PreviewEventView::End,
        }
    }
}

/// The views of a vector of events, element by element.
pub open spec fn event_views(events: Seq<PreviewEvent>) -> Seq<PreviewEventView> {
    Seq::new(events.len(), |i: int| events[i]@)
}

/// The events one batch is published as: a chunk if it holds text, then the
/// end of the stream if it is final.
pub open spec fn preview_events_of(batch: BatchView) -> Seq<PreviewEventView> {
    let chunk = if batch.content.len() > 0 {
        seq![PreviewEventView::Chunk { text: batch.content }]
    } else {
        Seq::empty()
    };
    let end = if batch.is_final {
        seq![PreviewEventView::End]
    } else {
        Seq::empty()
    };
    chunk + end
}

/// The events `batches` are published as, batch after batch.
pub open spec fn preview_run(batches: Seq<BatchView>) -> Seq<PreviewEventView>
    decreases batches.len(),
{
    if batches.len() == 0 {
        Seq::empty()
    } else {
        preview_run(batches.drop_last()) + preview_events_of(batches.last())
    }
}

/// The text an event shows: a chunk's text, and nothing for the end signal.
pub open spec fn event_text(event: PreviewEventView) -> Seq<char> {
    match event {
        PreviewEventView::Chunk { text } => text,
        PreviewEventView::End => Seq::empty(),
    }
}

/// The text of all chunk events among `events`, concatenated in order.
pub open spec fn published_text(events: Seq<PreviewEventView>) -> Seq<char>
    decreases events.len(),
{
    if events.len() == 0 {
        Seq::empty()
    } else {
        published_text(events.drop_last()) + event_text(events.last())
    }
}

/// The text typed for one batch: its content, or nothing where it is empty.
pub open spec fn typed_text_of(batch: BatchView) -> Option<Seq<char>> {
    if batch.content.len() > 0 {
        Some(batch.content)
    } else {
        None
    }
}

/// Publishes one batch to the preview: a chunk event if the batch holds text,
/// and the end signal if it is final.
pub fn preview_events(batch: &Batch) -> (events: Vec<PreviewEvent>)
    ensures
        event_views(events@) == preview_events_of(batch@),
{
    let mut events: Vec<PreviewEvent> = Vec::new();
    if !batch.content.as_str().is_empty() {
        events.push(PreviewEvent::Chunk { text: batch.content.clone() });
    }
    if batch.is_final {
        events.push(PreviewEvent::End);
    }
    assert(event_views(events@) =~= preview_events_of(batch@));
    events
}

/// What the preview is told when the command of a streaming preview could not
/// be started: that the stream has ended, and nothing else.
pub fn preview_events_unstarted() -> (events: Vec<PreviewEvent>)
    ensures
        event_views(events@) == seq![PreviewEventView::End],
{
    let mut events: Vec<PreviewEvent> = Vec::new();
    events.push(PreviewEvent::End);
    assert(event_views(events@) =~= seq![PreviewEventView::End]);
    events
}

/// The text to type for one batch of a streaming paste, if any: an empty
/// batch types nothing.
pub fn typed_text(batch: &Batch) -> (text: Option<&str>)
    ensures
        match text {
            Some(t) => typed_text_of(batch@) == Some(t@),
            None => typed_text_of(batch@) is None,
        },
{
    if batch.content.as_str().is_empty() {
        None
    } else {
        Some(batch.content.as_str())
    }
}

proof fn lemma_published_text_concat(a: Seq<PreviewEventView>, b: Seq<PreviewEventView>)
    ensures
        published_text(a + b) == published_text(a) + published_text(b),
    decreases b.len(),
{
    if b.len() == 0 {
        assert(a + b =~= a);
    } else {
        assert((a + b).drop_last() =~= a + b.drop_last());
        lemma_published_text_concat(a, b.drop_last());
    }
}

proof fn lemma_published_text_of_batch(batch: BatchView)
    ensures
        published_text(preview_events_of(batch)) == batch.content,
{
    let events = preview_events_of(batch);
    reveal_with_fuel(published_text, 3);
    if events.len() == 2 {
        assert(events.drop_last().drop_last() =~= Seq::empty());
    } else if events.len() == 1 {
        assert(events.drop_last() =~= Seq::empty());
    }
    assert(published_text(events) =~= batch.content);
}

/// Of batches of which only the last may be final: what is published shows
/// exactly the emitted text, no chunk event is empty, and the end signal
/// comes last and only after a final batch.
proof fn lemma_preview_run(batches: Seq<BatchView>)
    requires
        forall|i: int|
            0 <= i < batches.len() && (#[trigger] batches[i]).is_final ==> i == batches.len() - 1,
    ensures
        published_text(preview_run(batches)) == emitted_text(batches),
        forall|k: int|
            0 <= k < preview_run(batches).len() ==> (#[trigger] preview_run(batches)[k]
                matches PreviewEventView::Chunk { text } ==> text.len() > 0),
        forall|k: int|
            0 <= k < preview_run(batches).len() && #[trigger] preview_run(batches)[k] is End ==> {
                &&& k == preview_run(batches).len() - 1
                &&& batches.len() > 0
                &&& batches.last().is_final
            },
        batches.len() > 0 && batches.last().is_final ==> preview_run(batches).len() > 0
            && preview_run(batches).last() is End,
    decreases batches.len(),
{
    if batches.len() > 0 {
        let before = batches.drop_last();
        let last = batches.last();
        assert forall|i: int| 0 <= i < before.len() implies !(#[trigger] before[i]).is_final by {
            assert(batches[i] == before[i]);
        }
        lemma_preview_run(before);
        lemma_published_text_concat(preview_run(before), preview_events_of(last));
        lemma_published_text_of_batch(last);
        let earlier = preview_run(before);
        assert forall|k: int| 0 <= k < earlier.len() implies !(#[trigger] earlier[k] is End) by {
            if earlier[k] is End {
                assert(before.last().is_final);
                assert(before[before.len() - 1].is_final);
            }
        }
    }
}

/// The preview of a stream: the chunk events, in order, show exactly the text
/// of the chunks that arrived in the run, and none of them is empty. A run
/// whose producer disconnected is published as zero or more chunk events
/// followed by exactly one end signal; before that, no end signal is sent.
pub proof fn lemma_preview_stream(arrivals: Seq<ArrivalView>)
    ensures
        disconnected_in(arrivals) ==> published_text(preview_run(batches_of(arrivals)))
            == all_text(run_of(arrivals)),
        forall|k: int|
            0 <= k < preview_run(batches_of(arrivals)).len() ==> (#[trigger] preview_run(
                batches_of(arrivals),
            )[k] matches PreviewEventView::Chunk { text } ==> text.len() > 0),
        forall|k: int|
            0 <= k < preview_run(batches_of(arrivals)).len() && #[trigger] preview_run(
                batches_of(arrivals),
            )[k] is End ==> disconnected_in(arrivals) && k == preview_run(
                batches_of(arrivals),
            ).len() - 1,
        disconnected_in(arrivals) ==> preview_run(batches_of(arrivals)).len() > 0 && preview_run(
            batches_of(arrivals),
        ).last() is End,
{
    lemma_one_final_batch(arrivals);
    lemma_content_preserved(arrivals);
    lemma_preview_run(batches_of(arrivals));
    let batches = batches_of(arrivals);
    assert forall|k: int|
        0 <= k < preview_run(batches).len() && #[trigger] preview_run(
            batches,
        )[k] is End implies disconnected_in(arrivals) by {
        assert(batches[batches.len() - 1].is_final);
    }
}

/// A command that cannot be started is published like a stream that ended
/// before anything arrived.
pub proof fn lemma_unstarted_is_empty_stream()
    ensures
        preview_run(batches_of(seq![ArrivalView::Disconnected])) == seq![PreviewEventView::End],
{
    let arrivals = seq![ArrivalView::Disconnected];
    reveal_with_fuel(run_after, 2);
    reveal_with_fuel(preview_run, 2);
    assert(arrivals.drop_last() =~= Seq::empty());
    assert(arrivals.last() is Disconnected);
    let batches = batches_of(arrivals);
    assert(batches =~= seq![BatchView { content: Seq::empty(), is_final: true }]);
    assert(batches.drop_last() =~= Seq::empty());
    assert(preview_run(batches) =~= seq![PreviewEventView::End]);
}

} // verus!
