use audio_recorder::engine::{
    EngineError, RawSegment, SamplingStrategy, Segment, TranscribeOptions, TranscriptionRun,
    CALLBACK_FAULT, SEGMENT_OUT_OF_ORDER, SPAN_REVERSED, TEXT_UNREADABLE,
};

fn raw(index: usize, start_time: i64, end_time: i64, text: &str) -> RawSegment {
    RawSegment { index, start_time, end_time, text: Some(text.to_string()) }
}

fn seg(start_time: i64, end_time: i64, text: &str) -> Segment {
    Segment { start_time, end_time, text: text.to_string() }
}

fn run() -> TranscriptionRun {
    TranscriptionRun::begin(&[1, 2, 3], &TranscribeOptions::default()).unwrap()
}

#[test]
fn empty_buffer_fails_before_any_notification() {
    let r = TranscriptionRun::begin(&[], &TranscribeOptions::default());
    assert!(matches!(r, Err(EngineError::EmptyInput)));
}

#[test]
fn default_options() {
    let o = TranscribeOptions::default();
    assert_eq!(o.language, None);
    assert!(!o.translate);
    assert_eq!(o.strategy, SamplingStrategy::Greedy { best_of: 1 });
    assert_eq!(o.timeout_ms, None);
}

#[test]
fn segments_are_delivered_in_index_order() {
    let mut r = run();
    assert_eq!(r.segment_ready(raw(0, 0, 120, "hello")), Some(seg(0, 120, "hello")));
    assert_eq!(r.segment_ready(raw(1, 110, 300, "world")), Some(seg(110, 300, "world")));
    assert_eq!(r.segment_ready(raw(2, 90, 95, "again")), Some(seg(90, 95, "again")));
    assert_eq!(r.delivered(), 3);
    assert_eq!(
        r.finish(Ok(()), 0),
        Ok(vec![seg(0, 120, "hello"), seg(110, 300, "world"), seg(90, 95, "again")])
    );
}

#[test]
fn unreadable_text_stops_delivery() {
    let mut r = run();
    assert_eq!(r.segment_ready(raw(0, 0, 10, "a")), Some(seg(0, 10, "a")));
    let bad = RawSegment { index: 1, start_time: 10, end_time: 20, text: None };
    assert_eq!(r.segment_ready(bad), None);
    assert_eq!(r.fault(), Some(EngineError::Internal(TEXT_UNREADABLE)));
    assert_eq!(r.segment_ready(raw(1, 10, 20, "b")), None);
    assert_eq!(r.delivered(), 1);
    assert_eq!(r.finish(Ok(()), 0), Err(EngineError::Internal(TEXT_UNREADABLE)));
}

#[test]
fn out_of_order_segment_is_a_fault() {
    let mut r = run();
    assert_eq!(r.segment_ready(raw(1, 0, 10, "skip")), None);
    assert_eq!(r.finish(Ok(()), 0), Err(EngineError::Internal(SEGMENT_OUT_OF_ORDER)));
}

#[test]
fn reversed_span_is_a_fault() {
    let mut r = run();
    assert_eq!(r.segment_ready(raw(0, 50, 40, "back")), None);
    assert_eq!(r.finish(Ok(()), 0), Err(EngineError::Internal(SPAN_REVERSED)));
}

#[test]
fn callback_fault_fails_the_call() {
    let mut r = run();
    assert_eq!(r.segment_ready(raw(0, 0, 10, "a")), Some(seg(0, 10, "a")));
    r.report_callback_fault();
    assert_eq!(r.segment_ready(raw(1, 10, 20, "b")), None);
    assert_eq!(r.finish(Ok(()), 0), Err(EngineError::Internal(CALLBACK_FAULT)));
}

#[test]
fn engine_failure_is_internal() {
    let r = run();
    assert_eq!(r.finish(Err(7), 0), Err(EngineError::Internal(7)));
}

#[test]
fn late_result_is_a_timeout() {
    let mut o = TranscribeOptions::default();
    o.timeout_ms = Some(1000);
    let r = TranscriptionRun::begin(&[0], &o).unwrap();
    assert_eq!(r.finish(Ok(()), 1001), Err(EngineError::Timeout));
    let r = TranscriptionRun::begin(&[0], &o).unwrap();
    assert_eq!(r.finish(Ok(()), 1000), Ok(vec![]));
}

#[test]
fn progress_is_clamped_and_never_decreases() {
    let mut r = run();
    assert_eq!(r.progress(), 0);
    assert_eq!(r.report_progress(-5), 0);
    assert_eq!(r.report_progress(40), 40);
    assert_eq!(r.report_progress(30), 40);
    assert_eq!(r.report_progress(250), 100);
    assert_eq!(r.report_progress(60), 100);
    assert_eq!(r.progress(), 100);
}
