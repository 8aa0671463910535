use captioninator::ingest::{FrameReader, ReadAction, ReadEvent, MAX_READ_ERRORS};

#[test]
fn six_failures_in_a_row_abort() {
    let mut reader = FrameReader::new();
    for n in 1..=5 {
        assert_eq!(reader.step(ReadEvent::Failed), ReadAction::Retry);
        assert_eq!(reader.errors(), n);
    }
    assert_eq!(reader.step(ReadEvent::Failed), ReadAction::Abort);
    assert_eq!(reader.errors(), 6);
    assert_eq!(reader.step(ReadEvent::Failed), ReadAction::Abort);
    assert_eq!(reader.errors(), 6);
}

#[test]
fn success_resets_failure_count() {
    for failures in 0..=MAX_READ_ERRORS {
        let mut reader = FrameReader::new();
        for _ in 0..failures {
            assert_eq!(reader.step(ReadEvent::Failed), ReadAction::Retry);
        }
        assert_eq!(reader.errors(), failures);
        assert_eq!(
            reader.step(ReadEvent::Frame(vec![1, 2, 3])),
            ReadAction::Forward(vec![1, 2, 3])
        );
        assert_eq!(reader.errors(), 0);
        for _ in 0..5 {
            assert_eq!(reader.step(ReadEvent::Failed), ReadAction::Retry);
        }
    }
}

#[test]
fn consumer_gone_shuts_down_silently() {
    let mut reader = FrameReader::new();
    reader.step(ReadEvent::Failed);
    assert_eq!(reader.step(ReadEvent::ConsumerGone), ReadAction::Shutdown);
    assert_eq!(reader.errors(), 1);
}

#[test]
fn frames_pass_through_unchanged() {
    let mut reader = FrameReader::new();
    let frame: Vec<u8> = (0..=255).collect();
    assert_eq!(
        reader.step(ReadEvent::Frame(frame.clone())),
        ReadAction::Forward(frame)
    );
    assert_eq!(
        reader.step(ReadEvent::Frame(Vec::new())),
        ReadAction::Forward(Vec::new())
    );
}
