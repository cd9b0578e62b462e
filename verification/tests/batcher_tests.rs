use spellpaste::batcher::{stream_batched, Arrival, Batch, Step, StreamBatcher, Wait, FLUSH_INTERVAL_MS};
use spellpaste::stream::{preview_events, preview_events_unstarted, typed_text, PreviewEvent};

fn chunk(text: &str) -> Arrival {
    Arrival::Chunk { text: text.to_string() }
}

fn batch(content: &str, is_final: bool) -> Batch {
    Batch { content: content.to_string(), is_final }
}

fn joined(batches: &[Batch]) -> String {
    let mut text = String::new();
    for b in batches {
        text.push_str(&b.content);
    }
    text
}

#[test]
fn flush_interval_is_200_ms() {
    assert_eq!(FLUSH_INTERVAL_MS, 200);
}

#[test]
fn chunks_of_one_window_are_coalesced() {
    let arrivals = vec![chunk("a"), chunk("b"), chunk("c"), Arrival::Timeout, Arrival::Disconnected];
    let batches = stream_batched(&arrivals);
    assert_eq!(batches, vec![batch("abc", false), batch("", true)]);
}

#[test]
fn empty_window_emits_nothing() {
    let arrivals = vec![Arrival::Timeout, Arrival::Timeout, chunk("x"), Arrival::Timeout, Arrival::Timeout];
    let batches = stream_batched(&arrivals);
    assert_eq!(batches, vec![batch("x", false)]);
}

#[test]
fn disconnect_mid_window_flushes_buffer_as_final() {
    let arrivals = vec![chunk("par"), chunk("tial"), Arrival::Disconnected];
    let batches = stream_batched(&arrivals);
    assert_eq!(batches, vec![batch("partial", true)]);
}

#[test]
fn disconnect_with_empty_buffer_emits_empty_final() {
    let batches = stream_batched(&vec![Arrival::Disconnected]);
    assert_eq!(batches, vec![batch("", true)]);
}

#[test]
fn no_arrivals_no_batches() {
    let batches = stream_batched(&Vec::new());
    assert!(batches.is_empty());
}

#[test]
fn arrivals_after_disconnect_are_ignored() {
    let arrivals = vec![chunk("a"), Arrival::Disconnected, chunk("b"), Arrival::Timeout, Arrival::Disconnected];
    let batches = stream_batched(&arrivals);
    assert_eq!(batches, vec![batch("a", true)]);
}

#[test]
fn content_is_preserved_across_batch_boundaries() {
    let pieces = ["Hel", "lo", ", ", "Wor", "ld", "!", "\n", "second line"];
    let mut with_timeouts = Vec::new();
    let mut without = Vec::new();
    let mut expected = String::new();
    for (i, p) in pieces.iter().enumerate() {
        expected.push_str(p);
        with_timeouts.push(chunk(p));
        without.push(chunk(p));
        if i % 2 == 1 {
            with_timeouts.push(Arrival::Timeout);
        }
    }
    with_timeouts.push(Arrival::Disconnected);
    without.push(Arrival::Disconnected);
    let a = stream_batched(&with_timeouts);
    let b = stream_batched(&without);
    assert_eq!(joined(&a), expected);
    assert_eq!(joined(&b), expected);
    assert_eq!(a.len(), 5);
    assert_eq!(b.len(), 1);
}

#[test]
fn exactly_one_final_batch_and_it_is_last() {
    let arrivals = vec![chunk("a"), Arrival::Timeout, chunk("b"), Arrival::Timeout, chunk("c"), Arrival::Disconnected];
    let batches = stream_batched(&arrivals);
    let finals = batches.iter().filter(|b| b.is_final).count();
    assert_eq!(finals, 1);
    assert!(batches.last().unwrap().is_final);
    assert_eq!(batches, vec![batch("a", false), batch("b", false), batch("c", true)]);
}

#[test]
fn unfinished_run_has_no_final_batch() {
    let arrivals = vec![chunk("a"), Arrival::Timeout, chunk("b")];
    let batches = stream_batched(&arrivals);
    assert_eq!(batches, vec![batch("a", false)]);
}

#[test]
fn two_chunks_in_two_windows_then_end() {
    let arrivals = vec![chunk("a"), Arrival::Timeout, chunk("b"), Arrival::Disconnected];
    let batches = stream_batched(&arrivals);
    let mut events = Vec::new();
    for b in &batches {
        events.extend(preview_events(b));
    }
    assert_eq!(
        events,
        vec![
            PreviewEvent::Chunk { text: "a".to_string() },
            PreviewEvent::Chunk { text: "b".to_string() },
            PreviewEvent::End,
        ]
    );
}

#[test]
fn two_chunks_250_ms_apart_fall_into_separate_windows() {
    // "a" arrives at once, "b" 250 ms later, then the producer goes away.
    let mut batcher = StreamBatcher::new();
    let mut out = Vec::new();
    assert_eq!(batcher.poll(0), Wait::For { millis: 200 });
    batcher.push("a");
    assert_eq!(batcher.poll(1), Wait::For { millis: 199 });
    // nothing arrives until the deadline
    assert_eq!(batcher.poll(200), Wait::Expired);
    if let Some(b) = batcher.expire() {
        out.push(b);
    }
    assert_eq!(batcher.poll(200), Wait::For { millis: 200 });
    batcher.push("b");
    assert_eq!(batcher.poll(250), Wait::For { millis: 150 });
    out.push(batcher.finish());
    assert_eq!(out, vec![batch("a", false), batch("b", true)]);
}

#[test]
fn poll_opens_window_once_and_counts_down() {
    let mut batcher = StreamBatcher::new();
    assert_eq!(batcher.poll(1_000), Wait::For { millis: 200 });
    assert_eq!(batcher.poll(1_150), Wait::For { millis: 50 });
    assert_eq!(batcher.poll(1_199), Wait::For { millis: 1 });
    assert_eq!(batcher.poll(1_200), Wait::Expired);
    assert_eq!(batcher.poll(5_000), Wait::Expired);
    assert_eq!(batcher.expire(), None);
    assert_eq!(batcher.poll(5_000), Wait::For { millis: 200 });
}

#[test]
fn poll_at_end_of_time_saturates() {
    let mut batcher = StreamBatcher::new();
    assert_eq!(batcher.poll(u64::MAX - 10), Wait::For { millis: 10 });
    assert_eq!(batcher.poll(u64::MAX), Wait::Expired);
    let mut late = StreamBatcher::new();
    assert_eq!(late.poll(u64::MAX), Wait::Expired);
}

#[test]
fn expire_hands_out_buffer_and_clears_it() {
    let mut batcher = StreamBatcher::new();
    batcher.push("one");
    batcher.push("two");
    assert_eq!(batcher.expire(), Some(batch("onetwo", false)));
    assert_eq!(batcher.expire(), None);
    batcher.push("three");
    assert_eq!(batcher.finish(), batch("three", true));
}

#[test]
fn finish_on_empty_buffer_is_empty_final() {
    let batcher = StreamBatcher::new();
    assert_eq!(batcher.finish(), batch("", true));
}

#[test]
fn preview_skips_empty_chunk_but_signals_end() {
    assert_eq!(preview_events(&batch("", true)), vec![PreviewEvent::End]);
    assert_eq!(preview_events(&batch("", false)), Vec::new());
    assert_eq!(preview_events(&batch("x", false)), vec![PreviewEvent::Chunk { text: "x".to_string() }]);
    assert_eq!(
        preview_events(&batch("x", true)),
        vec![PreviewEvent::Chunk { text: "x".to_string() }, PreviewEvent::End]
    );
}

#[test]
fn unstarted_preview_only_ends() {
    assert_eq!(preview_events_unstarted(), vec![PreviewEvent::End]);
    let same: Vec<PreviewEvent> =
        stream_batched(&vec![Arrival::Disconnected]).iter().flat_map(|b| preview_events(b)).collect();
    assert_eq!(same, preview_events_unstarted());
}

#[test]
fn typed_text_skips_empty_batches() {
    assert_eq!(typed_text(&batch("", true)), None);
    assert_eq!(typed_text(&batch("", false)), None);
    assert_eq!(typed_text(&batch("i= 0\ni= 1\n", false)), Some("i= 0\ni= 1\n"));
    assert_eq!(typed_text(&batch("tail", true)), Some("tail"));
}

#[test]
fn typed_text_of_a_run_is_the_received_text() {
    let arrivals = vec![chunk("ab"), Arrival::Timeout, Arrival::Timeout, chunk("cd"), chunk("ef"), Arrival::Disconnected];
    let mut typed = String::new();
    for b in stream_batched(&arrivals) {
        if let Some(t) = typed_text(&b) {
            typed.push_str(t);
        }
    }
    assert_eq!(typed, "abcdef");
}

#[test]
fn accept_follows_the_arrivals() {
    let batcher = StreamBatcher::new();
    let batcher = match batcher.accept(chunk("ab")) {
        Step::Continue { batcher, batch: None } => batcher,
        other => panic!("unexpected step {other:?}"),
    };
    let batcher = match batcher.accept(chunk("cd")) {
        Step::Continue { batcher, batch: None } => batcher,
        other => panic!("unexpected step {other:?}"),
    };
    let batcher = match batcher.accept(Arrival::Timeout) {
        Step::Continue { batcher, batch: Some(b) } => {
            assert_eq!(b, batch("abcd", false));
            batcher
        }
        other => panic!("unexpected step {other:?}"),
    };
    let batcher = match batcher.accept(Arrival::Timeout) {
        Step::Continue { batcher, batch: None } => batcher,
        other => panic!("unexpected step {other:?}"),
    };
    let batcher = match batcher.accept(chunk("ef")) {
        Step::Continue { batcher, batch: None } => batcher,
        other => panic!("unexpected step {other:?}"),
    };
    match batcher.accept(Arrival::Disconnected) {
        Step::Finished { batch: b } => assert_eq!(b, batch("ef", true)),
        other => panic!("unexpected step {other:?}"),
    }
}
