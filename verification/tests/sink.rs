use audio_assistant::sink::SampleSink;

#[test]
fn sink_starts_empty() {
    let sink: SampleSink<f32> = SampleSink::new();
    assert_eq!(sink.len(), 0);
    assert!(sink.is_empty());
}

#[test]
fn sink_keeps_arrival_order() {
    let mut sink: SampleSink<f32> = SampleSink::new();
    sink.extend(&[0.1, 0.2, 0.3]);
    sink.push(0.4);
    sink.extend(&[]);
    sink.extend(&[0.5]);
    assert_eq!(sink.len(), 5);
    assert!(!sink.is_empty());
    assert_eq!(sink.drain_all(), vec![0.1, 0.2, 0.3, 0.4, 0.5]);
}

#[test]
fn sink_drains_oldest_first() {
    let mut sink: SampleSink<f32> = SampleSink::new();
    sink.extend(&[0.1, 0.2, 0.3]);
    sink.push(0.4);
    let front = sink.drain_front(3);
    assert_eq!(front, vec![0.1, 0.2, 0.3]);
    assert_eq!(sink.len(), 1);
    let rest = sink.drain_all();
    assert_eq!(rest, vec![0.4]);
    assert!(sink.is_empty());
}

#[test]
fn sink_drain_of_nothing_changes_nothing() {
    let mut sink: SampleSink<i16> = SampleSink::new();
    sink.extend(&[7, 8]);
    assert_eq!(sink.drain_front(0), Vec::<i16>::new());
    assert_eq!(sink.len(), 2);
    assert_eq!(sink.drain_front(2), vec![7, 8]);
    assert_eq!(sink.drain_all(), Vec::<i16>::new());
}

#[test]
fn sink_never_hands_a_sample_out_twice() {
    let mut sink: SampleSink<u32> = SampleSink::new();
    let stream: Vec<u32> = (0..1000).collect();
    sink.extend(&stream);
    let mut out: Vec<u32> = Vec::new();
    while sink.len() >= 64 {
        out.extend(sink.drain_front(64));
    }
    out.extend(sink.drain_all());
    assert_eq!(out, stream);
}
