//! The output buffer and the bookkeeping that both directions share.

use lzham::stream::{Signal, StreamBuffer, StreamState, Verdict, STALL_LIMIT};

#[test]
fn a_new_buffer_is_empty() {
    let buffer = StreamBuffer::with_capacity(10);
    assert_eq!(buffer.len(), 0);
    assert_eq!(buffer.capacity(), 10);
    assert_eq!(buffer.room(), 10);
    assert!(buffer.as_slice().is_empty());
}

#[test]
fn appended_bytes_stand_behind_those_that_were_there() {
    let mut buffer = StreamBuffer::with_capacity(5);
    assert!(buffer.append(&[1, 2]));
    assert!(buffer.append(&[3]));
    assert_eq!(buffer.as_slice(), &[1, 2, 3]);
    assert_eq!(buffer.len(), 3);
    assert_eq!(buffer.room(), 2);
    assert_eq!(buffer.capacity(), 5);
}

#[test]
fn nothing_is_written_beyond_the_capacity() {
    let mut buffer = StreamBuffer::with_capacity(4);
    assert!(buffer.append(&[1, 2, 3]));
    assert!(!buffer.append(&[4, 5]));
    assert_eq!(buffer.as_slice(), &[1, 2, 3]);
    assert!(buffer.append(&[4]));
    assert_eq!(buffer.as_slice(), &[1, 2, 3, 4]);
    assert!(!buffer.append(&[5]));
    assert!(buffer.append(&[]));
    assert_eq!(buffer.into_bytes(), vec![1, 2, 3, 4]);
}

#[test]
fn a_buffer_grows_by_an_eighth_of_its_length_and_six() {
    let mut buffer = StreamBuffer::with_capacity(0);
    assert!(buffer.grow());
    assert_eq!(buffer.capacity(), 6);

    let mut buffer = StreamBuffer::with_capacity(100);
    assert!(buffer.append(&[0; 100]));
    assert!(buffer.grow());
    assert_eq!(buffer.capacity(), 100 + 12 + 6);
    assert_eq!(buffer.len(), 100);

    let mut buffer = StreamBuffer::with_capacity(8192);
    assert!(buffer.append(&vec![7; 8192]));
    assert!(buffer.grow());
    assert_eq!(buffer.capacity(), 8192 + 1024 + 6);
}

#[test]
fn a_buffer_does_not_grow_beyond_what_a_vector_holds() {
    let most = isize::MAX as usize;
    let mut buffer = StreamBuffer::with_capacity(most - 5);
    assert!(!buffer.grow());
    assert_eq!(buffer.capacity(), most - 5);

    let mut buffer = StreamBuffer::with_capacity(most - 6);
    assert!(buffer.grow());
    assert_eq!(buffer.capacity(), most);
    assert!(!buffer.grow());
}

#[test]
fn a_run_whose_buffer_cannot_grow_is_given_up() {
    let most = isize::MAX as usize;
    let mut state = StreamState::new(vec![1, 2, 3], most - 5);
    assert_eq!(state.advance(1, &[7], Signal::MoreRoom), Verdict::Abort);
    assert_eq!(state.capacity(), most - 5);
    assert_eq!(state.in_offset(), 1);
    assert_eq!(state.output(), &[7]);
}

#[test]
fn a_padded_buffer_has_zeros_up_to_its_capacity() {
    let mut buffer = StreamBuffer::with_capacity(5);
    assert!(buffer.append(&[9, 8]));
    assert_eq!(buffer.into_padded(), vec![9, 8, 0, 0, 0]);

    let mut buffer = StreamBuffer::with_capacity(2);
    assert!(buffer.append(&[9, 8]));
    assert_eq!(buffer.into_padded(), vec![9, 8]);
}

#[test]
fn an_answer_moves_both_offsets() {
    let mut state = StreamState::new(vec![1, 2, 3, 4], 10);
    assert_eq!(state.pending_input(), &[1, 2, 3, 4]);
    assert_eq!(state.advance(3, &[5, 6], Signal::Again), Verdict::Continue);
    assert_eq!(state.in_offset(), 3);
    assert_eq!(state.out_offset(), 2);
    assert_eq!(state.pending_input(), &[4]);
    assert_eq!(state.room(), 8);
    assert_eq!(state.capacity(), 10);
    assert_eq!(state.output(), &[5, 6]);
    assert_eq!(state.advance(1, &[7], Signal::Terminal), Verdict::Stop);
    assert!(state.pending_input().is_empty());
    assert_eq!(state.into_output().into_bytes(), vec![5, 6, 7]);
}

#[test]
fn an_answer_that_overruns_changes_nothing() {
    let mut state = StreamState::new(vec![1, 2], 3);
    assert_eq!(state.advance(3, &[], Signal::Terminal), Verdict::Abort);
    assert_eq!(state.in_offset(), 0);
    assert_eq!(state.advance(1, &[1, 2, 3, 4], Signal::Again), Verdict::Abort);
    assert_eq!(state.in_offset(), 0);
    assert_eq!(state.out_offset(), 0);
    assert_eq!(state.advance(2, &[1, 2, 3], Signal::Again), Verdict::Continue);
    assert_eq!(state.in_offset(), 2);
    assert_eq!(state.out_offset(), 3);
}

#[test]
fn the_call_for_more_room_raises_the_capacity() {
    let mut state = StreamState::new(vec![0; 64], 16);
    assert_eq!(state.advance(10, &[1; 16], Signal::MoreRoom), Verdict::Continue);
    assert_eq!(state.capacity(), 16 + 2 + 6);
    assert_eq!(state.room(), 8);
    assert_eq!(state.advance(0, &[], Signal::MoreRoom), Verdict::Continue);
    assert_eq!(state.capacity(), 24 + 2 + 6);
    assert_eq!(state.advance(1, &[], Signal::Again), Verdict::Continue);
    assert_eq!(state.capacity(), 32);
}

#[test]
fn the_third_answer_in_a_row_that_moves_nothing_ends_the_run() {
    assert_eq!(STALL_LIMIT, 3);
    let mut state = StreamState::new(vec![1, 2, 3], 8);
    assert_eq!(state.advance(0, &[], Signal::Again), Verdict::Continue);
    assert_eq!(state.advance(0, &[], Signal::Again), Verdict::Continue);
    assert_eq!(state.advance(0, &[], Signal::Again), Verdict::Abort);
}

#[test]
fn progress_clears_the_count_of_stalls() {
    let mut state = StreamState::new(vec![1, 2, 3], 8);
    assert_eq!(state.advance(0, &[], Signal::Again), Verdict::Continue);
    assert_eq!(state.advance(0, &[], Signal::Again), Verdict::Continue);
    assert_eq!(state.advance(1, &[], Signal::Again), Verdict::Continue);
    assert_eq!(state.advance(0, &[], Signal::Again), Verdict::Continue);
    assert_eq!(state.advance(0, &[], Signal::Again), Verdict::Continue);
    assert_eq!(state.advance(0, &[9], Signal::Again), Verdict::Continue);
    assert_eq!(state.advance(0, &[], Signal::Again), Verdict::Continue);
    assert_eq!(state.advance(0, &[], Signal::MoreRoom), Verdict::Continue);
    assert_eq!(state.advance(0, &[], Signal::Again), Verdict::Continue);
    assert_eq!(state.advance(0, &[], Signal::Again), Verdict::Continue);
    assert_eq!(state.advance(0, &[], Signal::Terminal), Verdict::Stop);
}
