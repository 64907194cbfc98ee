//! The session: logical state of one loaded model context.
//!
//! The native model and context handles live in the unverified driver; the
//! session here carries everything the protocol decides on — the step
//! counter, the key-value cache occupancy against the bounded window, the
//! vocabulary size, the stream sentinels, and the repetition history — and
//! every rule over that state is proved. Evaluation and sampling are split at
//! the native boundary: an *admit* decision runs before the native call and
//! refuses work that would overflow or sample garbage, and a *commit*
//! decision folds the native status code back into the state.

use vstd::prelude::*;
use vstd::string::StringSliceAdditionalSpecFns;

use crate::error::LError;
use crate::history::{spec_record, RepetitionTracker};
use crate::params::LSampleParams;
use crate::sequence::LTokenSequence;
use crate::token::LToken;

verus! {

/// The sampling parameters actually in force: the ones given, or the
/// documented default when none were.
pub open spec fn spec_effective_params(params: Option<LSampleParams>) -> LSampleParams {
    match params {
        Some(p) => p,
        None => LSampleParams::spec_default(),
    }
}

/// The smaller of the configured scan bound and the number of tokens the
/// history actually holds: how many trailing history entries the repetition
/// penalty may scan.
pub open spec fn spec_scan_length(bound: nat, history_len: nat) -> nat {
    if bound <= history_len {
        bound
    } else {
        history_len
    }
}

/// The logical state of one model context.
///
/// `steps` counts successful evaluations since the last prompt load;
/// `kv_count` mirrors the native key-value cache occupancy, which advances by
/// the size of each evaluated batch and is bounded by the context window
/// `n_ctx`.
#[derive(Debug)]
pub struct LContext {
    steps: usize,
    kv_count: usize,
    n_ctx: usize,
    n_vocab: i32,
    bos: i32,
    eos: i32,
    history: RepetitionTracker,
}

impl LContext {
    /// Successful evaluations since the last prompt load.
    pub closed spec fn spec_steps(&self) -> usize {
        self.steps
    }

    /// Tokens currently held by the key-value cache.
    pub closed spec fn spec_kv_count(&self) -> usize {
        self.kv_count
    }

    /// Size of the context window, in tokens.
    pub closed spec fn spec_n_ctx(&self) -> usize {
        self.n_ctx
    }

    /// Size of the vocabulary.
    pub closed spec fn spec_n_vocab(&self) -> i32 {
        self.n_vocab
    }

    /// The beginning-of-stream sentinel identifier.
    pub closed spec fn spec_bos(&self) -> i32 {
        self.bos
    }

    /// The end-of-stream sentinel identifier.
    pub closed spec fn spec_eos(&self) -> i32 {
        self.eos
    }

    /// The repetition history, oldest first.
    pub closed spec fn spec_history(&self) -> Seq<i32> {
        self.history@
    }

    /// The model description is sane and the cache has not outgrown the
    /// window. Constructors establish this and every method preserves it.
    pub open spec fn wf(&self) -> bool {
        &&& self.spec_n_vocab() >= 1
        &&& 0 <= self.spec_bos() < self.spec_n_vocab()
        &&& 0 <= self.spec_eos() < self.spec_n_vocab()
        &&& self.spec_kv_count() <= self.spec_n_ctx()
    }

    /// The construction-time and sampling-time configuration of the session:
    /// everything except the step counter, the cache occupancy and the
    /// history.
    pub open spec fn same_model(&self, other: &LContext) -> bool {
        &&& self.spec_n_ctx() == other.spec_n_ctx()
        &&& self.spec_n_vocab() == other.spec_n_vocab()
        &&& self.spec_bos() == other.spec_bos()
        &&& self.spec_eos() == other.spec_eos()
    }

    /// A session over a model whose description the native layer reported:
    /// window size, vocabulary size, and the two sentinel identifiers.
    /// A report with an empty vocabulary or an out-of-vocabulary sentinel is
    /// refused.
    pub fn new(n_ctx: usize, n_vocab: i32, bos: i32, eos: i32) -> (r: Result<LContext, LError>)
        ensures
            (n_vocab >= 1 && 0 <= bos < n_vocab && 0 <= eos < n_vocab) <==> r is Ok,
            r is Err ==> r matches Err(LError::ApiError(_)),
            r matches Ok(c) ==> {
                &&& c.wf()
                &&& c.spec_steps() == 0
                &&& c.spec_kv_count() == 0
                &&& c.spec_n_ctx() == n_ctx
                &&& c.spec_n_vocab() == n_vocab
                &&& c.spec_bos() == bos
                &&& c.spec_eos() == eos
                &&& c.spec_history() == Seq::<i32>::empty()
            },
    {
        if n_vocab < 1 || bos < 0 || bos >= n_vocab || eos < 0 || eos >= n_vocab {
            return Err(LError::ApiError("native layer reported an unusable model description".to_owned()));
        }
        Ok(LContext {
            steps: 0,
            kv_count: 0,
            n_ctx,
            n_vocab,
            bos,
            eos,
            history: RepetitionTracker::new(),
        })
    }

    /// Successful evaluations since the last prompt load.
    pub fn steps(&self) -> (r: usize)
        ensures
            r == self.spec_steps(),
    {
        self.steps
    }

    /// Tokens currently held by the key-value cache.
    pub fn kv_count(&self) -> (r: usize)
        ensures
            r == self.spec_kv_count(),
    {
        self.kv_count
    }

    /// Size of the context window, in tokens.
    pub fn n_ctx(&self) -> (r: usize)
        ensures
            r == self.spec_n_ctx(),
    {
        self.n_ctx
    }

    /// Size of the vocabulary.
    pub fn n_vocab(&self) -> (r: i32)
        ensures
            r == self.spec_n_vocab(),
    {
        self.n_vocab
    }

    /// The beginning-of-stream sentinel identifier.
    pub fn bos(&self) -> (r: i32)
        ensures
            r == self.spec_bos(),
    {
        self.bos
    }

    /// The end-of-stream sentinel identifier.
    pub fn eos(&self) -> (r: i32)
        ensures
            r == self.spec_eos(),
    {
        self.eos
    }

    /// Read access to the repetition history, oldest first, for the native
    /// penalty stage.
    pub fn history_tokens(&self) -> (r: &Vec<i32>)
        ensures
            r@ == self.spec_history(),
    {
        self.history.raw_entries()
    }

    /// The candidate set of one sampling round covers the whole vocabulary,
    /// so it is never empty.
    pub fn candidate_count(&self) -> (r: usize)
        requires
            self.wf(),
        ensures
            r == self.spec_n_vocab(),
            r >= 1,
    {
        self.n_vocab as usize
    }

    /// How many trailing history entries the repetition penalty scans under
    /// `params`: the scan window is capped at the configured bound even when
    /// the session has retained more history.
    pub fn repeat_scan_length(&self, params: &LSampleParams) -> (r: usize)
        ensures
            r == spec_scan_length(
                params.repeat_history_length as nat,
                self.spec_history().len(),
            ),
    {
        let history_len = self.history.len();
        if params.repeat_history_length <= history_len {
            params.repeat_history_length
        } else {
            history_len
        }
    }

    /// The admission rule of evaluation: a batch of `input_len` tokens may be
    /// evaluated exactly when it still fits into the context window on top of
    /// what the cache already holds. Nothing changes; the refusal carries
    /// `OutOfBufferSpace`.
    pub fn step_admit(&self, input_len: usize) -> (r: Result<(), LError>)
        requires
            self.wf(),
        ensures
            r is Ok <==> self.spec_kv_count() + input_len < self.spec_n_ctx(),
            r is Err ==> r matches Err(LError::OutOfBufferSpace(_)),
    {
        if input_len < self.n_ctx - self.kv_count {
            Ok(())
        } else {
            Err(
                LError::OutOfBufferSpace(
                    "the requested batch does not fit into the remaining context window".to_owned(),
                ),
            )
        }
    }

    /// The commit rule of evaluation: fold the native status of an admitted
    /// batch back into the session. Status zero advances the cache by the
    /// batch size and counts one step; any other status changes nothing and
    /// surfaces as `ApiError`.
    pub fn step_commit(&mut self, input_len: usize, eval_status: i32) -> (r: Result<(), LError>)
        requires
            old(self).wf(),
            old(self).spec_kv_count() + input_len < old(self).spec_n_ctx(),
            old(self).spec_steps() < usize::MAX,
        ensures
            final(self).wf(),
            final(self).same_model(old(self)),
            final(self).spec_history() == old(self).spec_history(),
            eval_status == 0i32 ==> {
                &&& r is Ok
                &&& final(self).spec_steps() == old(self).spec_steps() + 1
                &&& final(self).spec_kv_count() == old(self).spec_kv_count() + input_len
            },
            eval_status != 0i32 ==> {
                &&& r matches Err(LError::ApiError(_))
                &&& *final(self) == *old(self)
            },
    {
        if eval_status != 0 {
            return Err(LError::ApiError("native evaluation returned a nonzero status".to_owned()));
        }
        self.kv_count = self.kv_count + input_len;
        self.steps = self.steps + 1;
        Ok(())
    }

    /// Start loading a prompt: reset the step counter, the cache occupancy
    /// and the repetition history — re-priming the cache from empty — then
    /// admit the prompt as the first batch.
    pub fn load_prompt_admit(&mut self, prompt_len: usize) -> (r: Result<(), LError>)
        requires
            old(self).wf(),
        ensures
            final(self).wf(),
            final(self).same_model(old(self)),
            final(self).spec_steps() == 0,
            final(self).spec_kv_count() == 0,
            final(self).spec_history() == Seq::<i32>::empty(),
            r is Ok <==> prompt_len < final(self).spec_n_ctx(),
            r is Err ==> r matches Err(LError::OutOfBufferSpace(_)),
    {
        self.steps = 0;
        self.kv_count = 0;
        self.history.clear();
        self.step_admit(prompt_len)
    }

    /// Accept one drawn token from the native sampling pipeline.
    ///
    /// Sampling against a never-evaluated context is refused with
    /// `CannotSampleBeforeInference` and leaves the session untouched. A draw
    /// outside the vocabulary is refused likewise, so a returned token is
    /// always a vocabulary identifier. An accepted draw is recorded into the
    /// repetition history under the bound of the parameters in force — the
    /// given ones, or the documented defaults when none were given.
    pub fn sample(&mut self, params: Option<LSampleParams>, drawn: i32) -> (r: Result<
        LToken,
        LError,
    >)
        requires
            old(self).wf(),
        ensures
            final(self).wf(),
            final(self).same_model(old(self)),
            final(self).spec_steps() == old(self).spec_steps(),
            final(self).spec_kv_count() == old(self).spec_kv_count(),
            old(self).spec_steps() == 0 ==> {
                &&& r == Err::<LToken, LError>(LError::CannotSampleBeforeInference)
                &&& *final(self) == *old(self)
            },
            old(self).spec_steps() >= 1 && 0 <= drawn < old(self).spec_n_vocab() ==> {
                &&& r == Ok::<LToken, LError>(LToken(drawn))
                &&& final(self).spec_history() == spec_record(
                    old(self).spec_history(),
                    drawn,
                    spec_effective_params(params).repeat_history_length as nat,
                )
            },
            old(self).spec_steps() >= 1 && !(0 <= drawn < old(self).spec_n_vocab()) ==> {
                &&& r matches Err(LError::ApiError(_))
                &&& *final(self) == *old(self)
            },
            r matches Ok(t) ==> 0 <= t.0 < old(self).spec_n_vocab(),
    {
        if self.steps == 0 {
            return Err(LError::CannotSampleBeforeInference);
        }
        let active = match params {
            Some(p) => p,
            None => LSampleParams::default(),
        };
        if drawn < 0 || drawn >= self.n_vocab {
            return Err(
                LError::ApiError("native pipeline drew a token outside the vocabulary".to_owned()),
            );
        }
        self.history.record(drawn, active.repeat_history_length);
        Ok(LToken(drawn))
    }

    /// Prepare a tokenization request for `value`: refuse text that cannot
    /// cross the C boundary (an interior NUL byte), and allocate a token
    /// buffer of one slot per byte plus one — an upper bound on how many
    /// tokens the text can produce — every slot holding the placeholder.
    pub fn tokenize_request(&self, value: &str) -> (r: Result<LTokenSequence, LError>)
        requires
            value.spec_bytes().len() < usize::MAX,
        ensures
            r is Ok <==> (forall|i: int|
                0 <= i < value.spec_bytes().len() ==> value.spec_bytes()[i] != 0u8),
            r matches Ok(buffer) ==> {
                &&& buffer@.len() == value.spec_bytes().len() + 1
                &&& forall|i: int| 0 <= i < buffer@.len() ==> buffer@[i] == 0i32
            },
            r is Err ==> r matches Err(LError::InvalidCString(_)),
    {
        let bytes = value.as_bytes();
        let n = bytes.len();
        let mut i: usize = 0;
        while i < n
            invariant
                n == value.spec_bytes().len(),
                bytes@ == value.spec_bytes(),
                i <= n,
                forall|j: int| 0 <= j < i ==> value.spec_bytes()[j] != 0u8,
            decreases n - i,
        {
            if bytes[i] == 0 {
                return Err(
                    LError::InvalidCString("text holds an interior NUL byte".to_owned()),
                );
            }
            i += 1;
        }
        let mut buffer = LTokenSequence::new();
        buffer.resize(n + 1);
        Ok(buffer)
    }

    /// Finish a tokenization request: the native tokenizer filled `buffer`
    /// and reported `returned_count`. A negative count is the native failure
    /// report; a count beyond the buffer can only be a native fault; an
    /// in-range count shrinks the buffer to exactly the tokens produced.
    pub fn tokenize_finish(&self, buffer: LTokenSequence, returned_count: i32) -> (r: Result<
        LTokenSequence,
        LError,
    >)
        ensures
            0 <= returned_count <= buffer@.len() ==> (r matches Ok(tokens) && tokens@ == buffer@.take(
                returned_count as int,
            )),
            returned_count < 0 ==> r matches Err(LError::TokenizationError(_)),
            returned_count > buffer@.len() ==> r matches Err(LError::TokenizationError(_)),
            r is Ok <==> 0 <= returned_count <= buffer@.len(),
    {
        if returned_count < 0 {
            return Err(
                LError::TokenizationError(
                    "native tokenizer returned a negative token count".to_owned(),
                ),
            );
        }
        let ghost orig = buffer@;
        let count = returned_count as usize;
        let mut tokens = buffer;
        if count > tokens.len() {
            return Err(
                LError::TokenizationError(
                    "native tokenizer returned more tokens than the buffer holds".to_owned(),
                ),
            );
        }
        tokens.resize(count);
        proof {
            assert(tokens@ =~= orig.take(returned_count as int));
        }
        Ok(tokens)
    }
}

} // verus!
