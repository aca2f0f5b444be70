use audio_recorder::sink::{SampleSink, SinkError};

#[test]
fn length_is_sum_of_frame_lengths() {
    let mut sink = SampleSink::new(100);
    assert_eq!(sink.write(&[1, 2, 3]), Ok(()));
    assert_eq!(sink.write(&[]), Ok(()));
    assert_eq!(sink.write(&[4, 5]), Ok(()));
    assert_eq!(sink.write(&[6, 7, 8, 9]), Ok(()));
    assert_eq!(sink.finalize(), Ok(()));
    assert_eq!(sink.len(), 9);
    assert_eq!(sink.samples(), &vec![1, 2, 3, 4, 5, 6, 7, 8, 9]);
    assert_eq!(sink.finalize(), Ok(()));
    assert_eq!(sink.len(), 9);
    assert!(sink.is_finalized());
}

#[test]
fn writes_after_finalize_are_dropped() {
    let mut sink = SampleSink::new(10);
    assert_eq!(sink.write(&[10, -10]), Ok(()));
    assert_eq!(sink.finalize(), Ok(()));
    assert_eq!(sink.write(&[1, 2, 3]), Ok(()));
    assert_eq!(sink.write(&[1; 50]), Ok(()));
    assert_eq!(sink.samples(), &vec![10, -10]);
}

#[test]
fn frame_that_does_not_fit_is_refused_whole() {
    let mut sink = SampleSink::new(4);
    assert_eq!(sink.write(&[1, 2, 3]), Ok(()));
    assert_eq!(sink.write(&[4, 5]), Err(SinkError::Full));
    assert_eq!(sink.samples(), &vec![1, 2, 3]);
    assert_eq!(sink.write(&[4]), Ok(()));
    assert_eq!(sink.len(), 4);
    assert_eq!(sink.capacity(), 4);
}

#[test]
fn write_converts_to_pcm() {
    let mut sink = SampleSink::new(3);
    assert_eq!(sink.write(&[100000, -100000, 3]), Ok(()));
    assert_eq!(sink.samples(), &vec![32767, -32767, 3]);
}

#[test]
fn empty_capacity_sink_refuses_samples() {
    let mut sink = SampleSink::new(0);
    assert_eq!(sink.write(&[]), Ok(()));
    assert_eq!(sink.write(&[0]), Err(SinkError::Full));
    assert_eq!(sink.len(), 0);
}
