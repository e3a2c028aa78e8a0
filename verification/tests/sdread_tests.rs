use sinus::sdread::{
    settings_after_read, ConfigRead, ReadAction, ReadEvent, INIT_RETRIES, RETRY_WAIT_MS,
};
use sinus::shapes::Shape;

/// Drives a reader with the outcomes in `events`, answering each action in turn,
/// and returns the actions it asked for.
fn run(buf_len: usize, events: &[ReadEvent]) -> Vec<ReadAction> {
    let mut r = ConfigRead::new(buf_len);
    let mut actions = vec![r.start()];
    for e in events {
        actions.push(r.step(*e));
    }
    actions
}

#[test]
fn new_reader_starts_with_init() {
    let r = ConfigRead::new(1024);
    assert_eq!(r, ConfigRead { failed_inits: 0, waiting: false, buf_len: 1024 });
    assert_eq!(r.start(), ReadAction::Init);
    assert_eq!(INIT_RETRIES, 3);
    assert_eq!(RETRY_WAIT_MS, 50);
}

#[test]
fn happy_path_reads_the_file() {
    let a = run(
        1024,
        &[ReadEvent::InitOk, ReadEvent::Opened { file_len: 100 }, ReadEvent::ReadOk { n: 100 }],
    );
    assert_eq!(
        a,
        vec![ReadAction::Init, ReadAction::Open, ReadAction::Read, ReadAction::Finish(Some(100))]
    );
}

#[test]
fn retries_then_succeeds() {
    let a = run(
        1024,
        &[
            ReadEvent::InitFailed,
            ReadEvent::Waited,
            ReadEvent::InitFailed,
            ReadEvent::Waited,
            ReadEvent::InitOk,
        ],
    );
    assert_eq!(
        a,
        vec![
            ReadAction::Init,
            ReadAction::Wait { ms: 50 },
            ReadAction::Init,
            ReadAction::Wait { ms: 50 },
            ReadAction::Init,
            ReadAction::Open,
        ]
    );
}

#[test]
fn gives_up_after_three_failed_inits() {
    let mut r = ConfigRead::new(1024);
    for _ in 0..2 {
        assert_eq!(r.step(ReadEvent::InitFailed), ReadAction::Wait { ms: 50 });
        assert!(r.waiting);
        assert_eq!(r.step(ReadEvent::Waited), ReadAction::Init);
        assert!(!r.waiting);
    }
    assert_eq!(r.step(ReadEvent::InitFailed), ReadAction::Wait { ms: 50 });
    assert_eq!(r.failed_inits, 3);
    assert_eq!(r.step(ReadEvent::Waited), ReadAction::Finish(None));
}

#[test]
fn oversized_file_is_rejected() {
    let mut r = ConfigRead::new(1024);
    assert_eq!(r.step(ReadEvent::Opened { file_len: 1025 }), ReadAction::Finish(None));
    assert_eq!(r.step(ReadEvent::Opened { file_len: 1024 }), ReadAction::Read);
    assert_eq!(r.step(ReadEvent::Opened { file_len: 0 }), ReadAction::Read);
    let mut r = ConfigRead::new(0);
    assert_eq!(r.step(ReadEvent::Opened { file_len: 1 }), ReadAction::Finish(None));
}

#[test]
fn open_and_read_errors_give_no_result() {
    let mut r = ConfigRead::new(1024);
    assert_eq!(r.step(ReadEvent::OpenFailed), ReadAction::Finish(None));
    assert_eq!(r.step(ReadEvent::ReadFailed), ReadAction::Finish(None));
    assert_eq!(r.step(ReadEvent::ReadOk { n: 7 }), ReadAction::Finish(Some(7)));
}

#[test]
fn fallback_when_nothing_was_read() {
    let s = settings_after_read(None, "shape = spiral\n");
    assert_eq!(s.shape, Shape::Spiral);
    let file = b"shape = rose\namplitude = 0.4\n";
    let s = settings_after_read(Some(&file[..]), "shape = spiral\n");
    assert_eq!(s.shape, Shape::Rose);
    assert_eq!(s.amplitude.len(), 1);
    let s = settings_after_read(Some(&[0xff][..]), "shape = spiral\n");
    assert_eq!(s.shape, Shape::Heart);
}
