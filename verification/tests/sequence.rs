//! Buffer discipline of token sequences: resizing, clearing, and the
//! trailing-window copy.

use llama_session::{LToken, LTokenSequence};

fn seq_of(ids: &[i32]) -> LTokenSequence {
    let mut s = LTokenSequence::new();
    for &id in ids {
        s.push(LToken(id));
    }
    s
}

fn ids_of(s: &LTokenSequence) -> Vec<i32> {
    let mut out = Vec::new();
    for i in 0..s.len() {
        out.push(s.get(i));
    }
    out
}

#[test]
fn new_sequence_is_empty() {
    let s = LTokenSequence::new();
    assert_eq!(s.len(), 0);
    assert!(s.is_empty());
}

#[test]
fn resize_grows_with_placeholder_padding() {
    let mut s = seq_of(&[5, 7]);
    s.resize(5);
    assert_eq!(s.len(), 5);
    assert_eq!(ids_of(&s), vec![5, 7, 0, 0, 0]);
}

#[test]
fn resize_shrinks_to_prefix() {
    let mut s = seq_of(&[5, 7, 9, 11]);
    s.resize(2);
    assert_eq!(s.len(), 2);
    assert_eq!(ids_of(&s), vec![5, 7]);
}

#[test]
fn resize_to_zero_empties() {
    let mut s = seq_of(&[5, 7]);
    s.resize(0);
    assert_eq!(s.len(), 0);
    assert!(s.is_empty());
}

#[test]
fn resize_to_same_length_changes_nothing() {
    let mut s = seq_of(&[3, 4, 5]);
    s.resize(3);
    assert_eq!(ids_of(&s), vec![3, 4, 5]);
}

#[test]
fn clear_zeroes_elements_but_keeps_length() {
    let mut s = seq_of(&[5, 7, 9]);
    s.clear();
    assert_eq!(s.len(), 3);
    assert_eq!(ids_of(&s), vec![0, 0, 0]);
}

#[test]
fn push_appends() {
    let mut s = seq_of(&[1]);
    s.push(LToken(2));
    assert_eq!(ids_of(&s), vec![1, 2]);
    assert_eq!(s.token_at(1), LToken(2));
}

#[test]
fn copy_trailing_from_shorter_source() {
    // dst length 8, src length 2: dst[6] = src[0], dst[7] = src[1], the
    // leading six elements untouched.
    let mut dst = seq_of(&[10, 11, 12, 13, 14, 15, 16, 17]);
    let src = seq_of(&[91, 92]);
    dst.copy_trailing(&src);
    assert_eq!(ids_of(&dst), vec![10, 11, 12, 13, 14, 15, 91, 92]);
}

#[test]
fn copy_trailing_from_longer_source() {
    // dst length 2, src length 5: dst takes the last two of src.
    let mut dst = seq_of(&[0, 0]);
    let src = seq_of(&[1, 2, 3, 4, 5]);
    dst.copy_trailing(&src);
    assert_eq!(ids_of(&dst), vec![4, 5]);
}

#[test]
fn copy_trailing_equal_lengths_copies_all() {
    let mut dst = seq_of(&[9, 9, 9]);
    let src = seq_of(&[1, 2, 3]);
    dst.copy_trailing(&src);
    assert_eq!(ids_of(&dst), vec![1, 2, 3]);
}

#[test]
fn copy_trailing_from_empty_source_changes_nothing() {
    let mut dst = seq_of(&[8, 9]);
    let src = LTokenSequence::new();
    dst.copy_trailing(&src);
    assert_eq!(ids_of(&dst), vec![8, 9]);
}

#[test]
fn copy_trailing_into_empty_destination_changes_nothing() {
    let mut dst = LTokenSequence::new();
    let src = seq_of(&[1, 2]);
    dst.copy_trailing(&src);
    assert_eq!(dst.len(), 0);
}

#[test]
fn sliding_window_discipline_clear_then_copy() {
    // The generation loop's window: clear first so no stale identifier
    // leaks, then take the tail of the stream.
    let mut window = LTokenSequence::new();
    window.resize(1);
    let stream = seq_of(&[4, 6, 8]);
    window.clear();
    window.copy_trailing(&stream);
    assert_eq!(ids_of(&window), vec![8]);
}

#[test]
fn default_token_is_zero() {
    assert_eq!(LToken::default_token(), 0);
}
