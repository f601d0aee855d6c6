//! Single answers taken in by a run of each direction.

use lzham::compress::{CompressionReply, CompressionRun, CompressionStatus, INITIAL_CAPACITY};
use lzham::decompress::{DecompressionReply, DecompressionRun, DecompressionStatus};

fn packed(consumed: usize, produced: Vec<u8>, status: CompressionStatus) -> CompressionReply {
    CompressionReply { consumed, produced, status }
}

fn unpacked(consumed: usize, produced: Vec<u8>, status: DecompressionStatus) -> DecompressionReply {
    DecompressionReply { consumed, produced, status }
}

#[test]
fn compression_starts_with_the_capacity_hint() {
    assert_eq!(INITIAL_CAPACITY, 2 << 12);
    let run = CompressionRun::new(vec![1, 2, 3]);
    assert_eq!(run.capacity(), 8192);
    assert_eq!(run.room(), 8192);
    assert_eq!(run.in_offset(), 0);
    assert_eq!(run.out_offset(), 0);
    assert!(run.is_running());
}

#[test]
fn compression_ends_with_the_engine_s_terminal_status() {
    let mut run = CompressionRun::new(vec![1, 2, 3]);
    let status = run.advance(packed(3, vec![9, 9], CompressionStatus::Success));
    assert_eq!(status, Some(CompressionStatus::Success));
    assert!(!run.is_running());
    assert_eq!(run.status(), Some(CompressionStatus::Success));
    assert_eq!(run.in_offset(), 3);
    assert_eq!(run.output(), &[9, 9]);
    assert_eq!(run.finish(), Some(vec![9, 9]));
}

#[test]
fn compression_passes_each_failure_on_as_it_is() {
    for status in [
        CompressionStatus::Failed,
        CompressionStatus::FailedInitialization,
        CompressionStatus::InvalidParameter,
        CompressionStatus::OutputBufferTooSmall,
    ] {
        let mut run = CompressionRun::new(vec![1, 2, 3]);
        assert_eq!(run.advance(packed(0, vec![5], status)), Some(status));
        assert_eq!(run.status(), Some(status));
        assert_eq!(run.finish(), Some(vec![5]));
    }
}

#[test]
fn compression_grows_only_when_there_is_more_output() {
    let mut run = CompressionRun::new(vec![0; 100]);
    assert_eq!(run.advance(packed(10, vec![1; 80], CompressionStatus::NeedsMoreInput)), None);
    assert_eq!(run.capacity(), 8192);
    assert_eq!(run.advance(packed(10, vec![1; 80], CompressionStatus::NotFinished)), None);
    assert_eq!(run.capacity(), 8192);
    assert_eq!(run.advance(packed(10, vec![1; 80], CompressionStatus::HasMoreOutput)), None);
    assert_eq!(run.out_offset(), 240);
    assert_eq!(run.capacity(), 8192 + 240 / 8 + 6);
    assert_eq!(run.room(), 8192 + 36 - 240);
    assert_eq!(
        run.advance(packed(70, vec![], CompressionStatus::Success)),
        Some(CompressionStatus::Success)
    );
    assert_eq!(run.capacity(), 8192 + 36);
}

#[test]
fn compression_grows_a_full_buffer_by_an_eighth_and_six() {
    let mut run = CompressionRun::new(vec![0; 10]);
    assert_eq!(run.advance(packed(10, vec![3; 8192], CompressionStatus::HasMoreOutput)), None);
    assert_eq!(run.capacity(), 9222);
    assert_eq!(run.room(), 1030);
    assert_eq!(run.advance(packed(0, vec![3; 1030], CompressionStatus::HasMoreOutput)), None);
    assert_eq!(run.capacity(), 9222 + 9222 / 8 + 6);
    assert!(run.is_running());
}

#[test]
fn compression_fails_on_an_answer_that_overruns() {
    let mut run = CompressionRun::new(vec![1, 2, 3]);
    let status = run.advance(packed(4, vec![], CompressionStatus::Success));
    assert_eq!(status, Some(CompressionStatus::Failed));
    assert_eq!(run.in_offset(), 0);
    assert_eq!(run.finish(), None);

    let mut run = CompressionRun::new(vec![1, 2, 3]);
    let status = run.advance(packed(1, vec![0; 8193], CompressionStatus::HasMoreOutput));
    assert_eq!(status, Some(CompressionStatus::Failed));
    assert_eq!(run.in_offset(), 0);
    assert_eq!(run.out_offset(), 0);
    assert_eq!(run.capacity(), 8192);
    assert_eq!(run.finish(), None);
}

#[test]
fn compression_fails_on_the_third_stall_in_a_row() {
    let mut run = CompressionRun::new(vec![1, 2, 3]);
    assert_eq!(run.advance(packed(0, vec![], CompressionStatus::NotFinished)), None);
    assert_eq!(run.advance(packed(0, vec![], CompressionStatus::NeedsMoreInput)), None);
    assert_eq!(
        run.advance(packed(0, vec![], CompressionStatus::NotFinished)),
        Some(CompressionStatus::Failed)
    );
    assert!(!run.is_running());
    assert_eq!(run.finish(), None);
}

#[test]
fn decompression_has_the_declared_size_for_room() {
    let mut run = DecompressionRun::new(vec![1, 2, 3, 4], 10);
    assert_eq!(run.capacity(), 10);
    assert_eq!(run.room(), 10);
    assert_eq!(run.advance(unpacked(2, vec![7; 4], DecompressionStatus::NotFinished)), None);
    assert_eq!(run.room(), 6);
    assert_eq!(run.capacity(), 10);
    assert_eq!(run.pending_input(), &[3, 4]);
    assert_eq!(run.advance(unpacked(1, vec![7; 6], DecompressionStatus::HasMoreOutput)), None);
    assert_eq!(run.room(), 0);
    assert_eq!(run.capacity(), 10);
    assert_eq!(
        run.advance(unpacked(1, vec![], DecompressionStatus::Success)),
        Some(DecompressionStatus::Success)
    );
    assert_eq!(run.finish(), Some(vec![7; 10]));
}

#[test]
fn decompression_fails_before_it_writes_beyond_the_declared_size() {
    let mut run = DecompressionRun::new(vec![1, 2, 3, 4], 5);
    assert_eq!(run.advance(unpacked(1, vec![7; 3], DecompressionStatus::NotFinished)), None);
    let status = run.advance(unpacked(1, vec![8; 3], DecompressionStatus::Success));
    assert_eq!(status, Some(DecompressionStatus::Failed));
    assert_eq!(run.status(), Some(DecompressionStatus::Failed));
    assert_eq!(run.output(), &[7, 7, 7]);
    assert_eq!(run.out_offset(), 3);
    assert_eq!(run.in_offset(), 1);
    assert_eq!(run.capacity(), 5);
    assert_eq!(run.finish(), None);
}

#[test]
fn decompression_passes_each_failure_on_as_it_is() {
    for code in 4..16 {
        let status = DecompressionStatus::from_c_type(code);
        let mut run = DecompressionRun::new(vec![1, 2, 3], 2);
        assert_eq!(run.advance(unpacked(1, vec![5], status)), Some(status));
        assert_eq!(run.status(), Some(status));
        assert_eq!(run.finish(), Some(vec![5, 0]));
    }
}

#[test]
fn decompression_hands_out_a_buffer_of_the_declared_size() {
    let mut run = DecompressionRun::new(vec![1], 6);
    let status = run.advance(unpacked(1, vec![4, 5], DecompressionStatus::Success));
    assert_eq!(status, Some(DecompressionStatus::Success));
    assert_eq!(run.finish(), Some(vec![4, 5, 0, 0, 0, 0]));

    let mut run = DecompressionRun::new(vec![], 0);
    let status = run.advance(unpacked(0, vec![], DecompressionStatus::Success));
    assert_eq!(status, Some(DecompressionStatus::Success));
    assert_eq!(run.finish(), Some(vec![]));
}

#[test]
fn decompression_fails_on_the_third_stall_in_a_row() {
    let mut run = DecompressionRun::new(vec![1, 2, 3], 4);
    assert_eq!(run.advance(unpacked(3, vec![6; 4], DecompressionStatus::HasMoreOutput)), None);
    assert_eq!(run.advance(unpacked(0, vec![], DecompressionStatus::HasMoreOutput)), None);
    assert_eq!(run.advance(unpacked(0, vec![], DecompressionStatus::HasMoreOutput)), None);
    assert_eq!(
        run.advance(unpacked(0, vec![], DecompressionStatus::HasMoreOutput)),
        Some(DecompressionStatus::Failed)
    );
    assert_eq!(run.output(), &[6, 6, 6, 6]);
    assert_eq!(run.finish(), None);
}

#[test]
fn a_run_that_is_going_has_nothing_for_the_sink() {
    let mut run = CompressionRun::new(vec![1, 2, 3]);
    assert_eq!(run.advance(packed(1, vec![5], CompressionStatus::NotFinished)), None);
    assert_eq!(run.status(), None);
    assert_eq!(run.finish(), None);

    let run = DecompressionRun::new(vec![1, 2, 3], 3);
    assert_eq!(run.finish(), None);
}
