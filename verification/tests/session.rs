//! The session protocol: construction, evaluation admission and commit, the
//! sampling gate, and the codec decision functions.

use llama_session::token::render_length_check;
use llama_session::{LContext, LError, LSampleParams, LToken};

fn session() -> LContext {
    // window 8, vocabulary 100, beginning-of-stream 1, end-of-stream 2
    LContext::new(8, 100, 1, 2).unwrap()
}

#[test]
fn new_rejects_an_empty_vocabulary() {
    assert!(matches!(LContext::new(8, 0, 0, 0), Err(LError::ApiError(_))));
}

#[test]
fn new_rejects_out_of_vocabulary_sentinels() {
    assert!(matches!(LContext::new(8, 10, 10, 2), Err(LError::ApiError(_))));
    assert!(matches!(LContext::new(8, 10, 1, -3), Err(LError::ApiError(_))));
}

#[test]
fn new_session_is_fresh() {
    let c = session();
    assert_eq!(c.steps(), 0);
    assert_eq!(c.kv_count(), 0);
    assert_eq!(c.n_ctx(), 8);
    assert_eq!(c.n_vocab(), 100);
    assert_eq!(c.bos(), 1);
    assert_eq!(c.eos(), 2);
    assert!(c.history_tokens().is_empty());
}

#[test]
fn sample_before_any_evaluation_is_refused() {
    let mut c = session();
    let r = c.sample(None, 5);
    assert!(matches!(r, Err(LError::CannotSampleBeforeInference)));
    // no side effects on the session
    assert_eq!(c.steps(), 0);
    assert_eq!(c.kv_count(), 0);
    assert!(c.history_tokens().is_empty());
}

#[test]
fn evaluation_advances_steps_and_cache() {
    let mut c = session();
    c.load_prompt_admit(3).unwrap();
    c.step_commit(3, 0).unwrap();
    assert_eq!(c.steps(), 1);
    assert_eq!(c.kv_count(), 3);
    c.step_admit(1).unwrap();
    c.step_commit(1, 0).unwrap();
    assert_eq!(c.steps(), 2);
    assert_eq!(c.kv_count(), 4);
}

#[test]
fn admission_refuses_a_batch_that_would_reach_the_window() {
    let mut c = session();
    c.load_prompt_admit(3).unwrap();
    c.step_commit(3, 0).unwrap();
    // 3 in the cache, window 8: a batch of 5 would reach it, 4 still fits
    assert!(matches!(c.step_admit(5), Err(LError::OutOfBufferSpace(_))));
    assert!(c.step_admit(4).is_ok());
}

#[test]
fn prompt_longer_than_the_window_is_refused() {
    let mut c = session();
    assert!(matches!(c.load_prompt_admit(8), Err(LError::OutOfBufferSpace(_))));
    assert!(c.load_prompt_admit(7).is_ok());
}

#[test]
fn nonzero_evaluation_status_is_an_api_error_and_changes_nothing() {
    let mut c = session();
    c.load_prompt_admit(2).unwrap();
    let r = c.step_commit(2, -1);
    assert!(matches!(r, Err(LError::ApiError(_))));
    assert_eq!(c.steps(), 0);
    assert_eq!(c.kv_count(), 0);
}

#[test]
fn loading_a_prompt_resets_the_session() {
    let mut c = session();
    c.load_prompt_admit(3).unwrap();
    c.step_commit(3, 0).unwrap();
    c.sample(None, 5).unwrap();
    assert_eq!(c.history_tokens(), &vec![5]);
    c.load_prompt_admit(2).unwrap();
    assert_eq!(c.steps(), 0);
    assert_eq!(c.kv_count(), 0);
    assert!(c.history_tokens().is_empty());
}

#[test]
fn sample_returns_the_drawn_token_and_records_it() {
    let mut c = session();
    c.load_prompt_admit(1).unwrap();
    c.step_commit(1, 0).unwrap();
    let t = c.sample(None, 42).unwrap();
    assert_eq!(t, LToken(42));
    assert_eq!(c.history_tokens(), &vec![42]);
}

#[test]
fn sample_refuses_an_out_of_vocabulary_draw() {
    let mut c = session();
    c.load_prompt_admit(1).unwrap();
    c.step_commit(1, 0).unwrap();
    assert!(matches!(c.sample(None, 100), Err(LError::ApiError(_))));
    assert!(matches!(c.sample(None, -1), Err(LError::ApiError(_))));
    assert!(c.history_tokens().is_empty());
}

#[test]
fn sample_applies_the_given_history_bound() {
    let mut c = session();
    c.load_prompt_admit(1).unwrap();
    c.step_commit(1, 0).unwrap();
    let params = LSampleParams { repeat_history_length: 2, ..Default::default() };
    c.sample(Some(params), 10).unwrap();
    c.sample(Some(params), 11).unwrap();
    c.sample(Some(params), 12).unwrap();
    assert_eq!(c.history_tokens(), &vec![11, 12]);
}

#[test]
fn candidate_set_covers_the_vocabulary_and_is_never_empty() {
    let c = session();
    assert_eq!(c.candidate_count(), 100);
    let tiny = LContext::new(4, 1, 0, 0).unwrap();
    assert_eq!(tiny.candidate_count(), 1);
}

#[test]
fn repeat_scan_length_is_capped_by_the_bound() {
    let mut c = session();
    c.load_prompt_admit(1).unwrap();
    c.step_commit(1, 0).unwrap();
    let params = LSampleParams { repeat_history_length: 2, ..Default::default() };
    for id in 0..2 {
        c.sample(Some(params), id).unwrap();
    }
    // history holds 2; a bound of 1 scans 1, a bound of 10 scans all 2
    let narrow = LSampleParams { repeat_history_length: 1, ..Default::default() };
    assert_eq!(c.repeat_scan_length(&narrow), 1);
    let wide = LSampleParams { repeat_history_length: 10, ..Default::default() };
    assert_eq!(c.repeat_scan_length(&wide), 2);
}

#[test]
fn tokenize_request_sizes_one_slot_per_byte_plus_one() {
    let c = session();
    let buffer = c.tokenize_request("hello").unwrap();
    assert_eq!(buffer.len(), 6);
    for i in 0..buffer.len() {
        assert_eq!(buffer.get(i), 0);
    }
}

#[test]
fn tokenize_request_refuses_interior_nul() {
    let c = session();
    assert!(matches!(c.tokenize_request("he\0llo"), Err(LError::InvalidCString(_))));
}

#[test]
fn tokenize_finish_shrinks_to_the_returned_count() {
    let c = session();
    let mut buffer = c.tokenize_request("hello").unwrap();
    // pretend the native tokenizer wrote two tokens into the buffer
    buffer.set(0, 40);
    buffer.set(1, 41);
    let tokens = c.tokenize_finish(buffer, 2).unwrap();
    assert_eq!(tokens.len(), 2);
    assert_eq!(tokens.get(0), 40);
    assert_eq!(tokens.get(1), 41);
}

#[test]
fn tokenize_finish_surfaces_a_negative_count() {
    let c = session();
    let buffer = c.tokenize_request("hi").unwrap();
    assert!(matches!(c.tokenize_finish(buffer, -7), Err(LError::TokenizationError(_))));
}

#[test]
fn tokenize_finish_refuses_a_count_beyond_the_buffer() {
    let c = session();
    let buffer = c.tokenize_request("hi").unwrap();
    assert!(matches!(c.tokenize_finish(buffer, 4), Err(LError::TokenizationError(_))));
}

#[test]
fn sentinels_have_no_text_form() {
    let c = session();
    let bos = LToken(1);
    let eos = LToken(2);
    let plain = LToken(30);
    assert!(bos.is_beginning_of_stream(&c));
    assert!(!bos.has_str_value(&c));
    assert!(eos.is_end_of_stream(&c));
    assert!(!eos.has_str_value(&c));
    assert!(plain.has_str_value(&c));
    assert!(matches!(bos.render_admit(&c), Err(LError::TokenizationError(_))));
    assert!(matches!(eos.render_admit(&c), Err(LError::TokenizationError(_))));
    assert!(plain.render_admit(&c).is_ok());
}

#[test]
fn render_length_check_accepts_in_range_reports() {
    assert_eq!(render_length_check(0, 16).unwrap(), 0);
    assert_eq!(render_length_check(5, 16).unwrap(), 5);
    assert_eq!(render_length_check(16, 16).unwrap(), 16);
}

#[test]
fn render_length_check_refuses_bad_reports() {
    assert!(matches!(render_length_check(-1, 16), Err(LError::InvalidCString(_))));
    assert!(matches!(render_length_check(17, 16), Err(LError::ApiError(_))));
}

#[test]
fn token_conversions() {
    let t = LToken::from(9);
    assert_eq!(t, LToken(9));
    assert_eq!(t.id(), 9);
}

#[test]
fn error_kind_names_are_stable() {
    assert_eq!(LError::CannotSampleBeforeInference.kind_name(), "cannot sample before inference");
    assert_eq!(LError::ApiError(String::new()).kind_name(), "api error");
    assert_eq!(LError::InvalidCString(String::new()).kind_name(), "invalid C string");
    assert_eq!(LError::TokenizationError(String::new()).kind_name(), "tokenization error");
    assert_eq!(LError::OutOfBufferSpace(String::new()).kind_name(), "out of buffer space");
}

#[test]
fn error_duplicate_is_exact() {
    let e = LError::OutOfBufferSpace("window".to_string());
    let d = e.duplicate();
    assert!(matches!(d, LError::OutOfBufferSpace(s) if s == "window"));
}
