//! The generation control loop, as an explicit state machine.
//!
//! One generation request alternates between decisions (verified here) and
//! native work (evaluation, the sampling pipeline, rendering — performed by
//! the unverified driver). The machine hands the driver an [`LGenAction`]
//! saying which native call to make next; the driver feeds the call's result
//! back through the matching `on_*` method and receives the next action.
//! Every rule of the loop — the context-window admission, the round budget,
//! the sampling gate, sentinel handling, and the halt signal of the
//! incremental callback — is decided and proved inside the machine.

use vstd::prelude::*;

use crate::context::LContext;
use crate::error::LError;
use crate::history::spec_record;
use crate::params::LGeneratorParams;
use crate::sequence::LTokenSequence;
use crate::token::LToken;

verus! {

/// Why a finished generation stopped.
///
/// `Completed` and `Halted` are both success outcomes — a natural stop
/// (round budget spent or end-of-stream sampled) versus a caller-requested
/// early stop — and both yield the text rendered so far. Only `Failed`
/// discards the text and surfaces an error.
#[derive(Clone, Debug)]
pub enum LGenOutcome {
    /// The round budget was spent or the end-of-stream sentinel was sampled.
    Completed,
    /// The incremental callback asked to stop.
    Halted,
    /// An evaluation, sampling or rendering step failed; the error is fatal
    /// to this request.
    Failed(LError),
}

/// Where the machine stands: which result it is waiting for.
#[derive(Clone, Debug)]
pub enum LGenPhase {
    /// No request is running.
    Idle,
    /// The prompt batch was admitted; its native evaluation is in flight.
    AwaitingPromptEval,
    /// A one-token generation batch was admitted; its native evaluation is
    /// in flight.
    AwaitingStepEval,
    /// The native sampling pipeline is in flight.
    AwaitingSample,
    /// The native rendering of this token is in flight.
    AwaitingRender(LToken),
    /// The incremental callback is being consulted.
    AwaitingCallback,
    /// The request ended; `result` says how.
    Done(LGenOutcome),
}

/// What the driver should do next.
#[derive(Clone, Debug, PartialEq, Eq, Structural)]
pub enum LGenAction {
    /// Evaluate the current window (`eval_window`) of `count` tokens with
    /// `threads` worker threads, and report the status via `on_evaluated`.
    Evaluate { count: usize, threads: usize },
    /// Run the sampling pipeline over the current logits and report the
    /// drawn identifier via `on_sampled`.
    Sample,
    /// Render `token` to text and report it via `on_rendered`, or its
    /// failure via `on_render_failed`.
    Render { token: LToken },
    /// Consult the incremental callback with the text so far
    /// (`strings_so_far`) and report its answer via `on_callback`.
    Callback,
    /// The request ended; fetch the outcome from `result`.
    Finished,
}

/// The text a finished generation yields: every rendered piece joined in
/// order.
pub open spec fn spec_concat(strs: Seq<String>) -> Seq<char>
    decreases strs.len(),
{
    if strs.len() == 0 {
        Seq::<char>::empty()
    } else {
        spec_concat(strs.drop_last()) + strs.last()@
    }
}

/// The generation driver state: one session plus the running state of the
/// current request.
#[derive(Debug)]
pub struct LGenerator {
    context: LContext,
    phase: LGenPhase,
    params: LGeneratorParams,
    token_stream: LTokenSequence,
    gen_buffer: LTokenSequence,
    token_strings: Vec<String>,
    prompt_len: usize,
    rounds: usize,
}

impl LGenerator {
    /// The owned session.
    pub closed spec fn spec_context(&self) -> LContext {
        self.context
    }

    /// Where the machine stands.
    pub closed spec fn spec_phase(&self) -> LGenPhase {
        self.phase
    }

    /// The parameters of the current request.
    pub closed spec fn spec_params(&self) -> LGeneratorParams {
        self.params
    }

    /// The running token stream: the prompt followed by every accepted
    /// sampled token.
    pub closed spec fn spec_stream(&self) -> Seq<i32> {
        self.token_stream@
    }

    /// The sliding one-token window handed to each generation evaluation.
    pub closed spec fn spec_gen_buffer(&self) -> Seq<i32> {
        self.gen_buffer@
    }

    /// The rendered pieces accumulated so far, in order.
    pub closed spec fn spec_strings(&self) -> Seq<String> {
        self.token_strings@
    }

    /// How many tokens the prompt of the current request held.
    pub closed spec fn spec_prompt_len(&self) -> usize {
        self.prompt_len
    }

    /// How many generation rounds have begun.
    pub closed spec fn spec_rounds(&self) -> usize {
        self.rounds
    }

    /// What holds in every phase that is mid-request.
    pub open spec fn wf_active(&self) -> bool {
        &&& self.spec_context().wf()
        &&& self.spec_params().generate_tokens < usize::MAX
        &&& self.spec_gen_buffer().len() == 1
        &&& self.spec_rounds() <= self.spec_params().generate_tokens
    }

    /// The machine invariant. Established by `new` and `start`, preserved by
    /// every event handler; among other things it pins the cache occupancy
    /// to exactly the prompt length plus the committed rounds, so the
    /// context window can never be exceeded.
    pub open spec fn wf(&self) -> bool {
        match self.spec_phase() {
            LGenPhase::Idle => self.spec_context().wf(),
            LGenPhase::Done(_) => self.spec_context().wf(),
            LGenPhase::AwaitingPromptEval => {
                &&& self.wf_active()
                &&& self.spec_context().spec_steps() == 0
                &&& self.spec_context().spec_kv_count() == 0
                &&& self.spec_rounds() == 0
                &&& self.spec_strings().len() == 0
                &&& self.spec_prompt_len() == self.spec_stream().len()
                &&& self.spec_prompt_len() < self.spec_context().spec_n_ctx()
            },
            LGenPhase::AwaitingStepEval => {
                &&& self.wf_active()
                &&& self.spec_rounds() >= 1
                &&& self.spec_context().spec_steps() == self.spec_rounds()
                &&& self.spec_context().spec_kv_count() == self.spec_prompt_len()
                    + self.spec_rounds() - 1
                &&& self.spec_context().spec_kv_count() + 1 < self.spec_context().spec_n_ctx()
            },
            LGenPhase::AwaitingSample => {
                &&& self.wf_active()
                &&& self.spec_rounds() >= 1
                &&& self.spec_context().spec_steps() == self.spec_rounds() + 1
                &&& self.spec_context().spec_kv_count() == self.spec_prompt_len()
                    + self.spec_rounds()
            },
            LGenPhase::AwaitingRender(token) => {
                &&& self.wf_active()
                &&& self.spec_rounds() >= 1
                &&& self.spec_context().spec_steps() == self.spec_rounds() + 1
                &&& self.spec_context().spec_kv_count() == self.spec_prompt_len()
                    + self.spec_rounds()
                &&& token.0 != self.spec_context().spec_eos()
                &&& token.0 != self.spec_context().spec_bos()
            },
            LGenPhase::AwaitingCallback => {
                &&& self.wf_active()
                &&& self.spec_rounds() >= 1
                &&& self.spec_context().spec_steps() == self.spec_rounds() + 1
                &&& self.spec_context().spec_kv_count() == self.spec_prompt_len()
                    + self.spec_rounds()
            },
        }
    }

    /// A fresh machine over `context`, not yet running any request.
    pub fn new(context: LContext) -> (r: LGenerator)
        requires
            context.wf(),
        ensures
            r.wf(),
            r.spec_phase() matches LGenPhase::Idle,
            r.spec_context() == context,
    {
        LGenerator {
            context,
            phase: LGenPhase::Idle,
            params: LGeneratorParams {
                generate_tokens: 0,
                worker_thread_count: 0,
                sample_params: Default::default(),
            },
            token_stream: LTokenSequence::new(),
            gen_buffer: LTokenSequence::new(),
            token_strings: Vec::new(),
            prompt_len: 0,
            rounds: 0,
        }
    }

    /// Read access to the owned session, for the native calls the driver
    /// makes on its behalf.
    pub fn session(&self) -> (r: &LContext)
        ensures
            *r == self.spec_context(),
    {
        &self.context
    }

    /// The parameters of the current request.
    pub fn request_params(&self) -> (r: &LGeneratorParams)
        ensures
            *r == self.spec_params(),
    {
        &self.params
    }

    /// The rendered pieces so far, for the incremental callback.
    pub fn strings_so_far(&self) -> (r: &Vec<String>)
        ensures
            r@ == self.spec_strings(),
    {
        &self.token_strings
    }

    /// The token batch an issued `Evaluate` action refers to: the whole
    /// prompt for the prompt evaluation, the sliding window for a generation
    /// round.
    pub fn eval_window(&self) -> (r: &LTokenSequence)
        requires
            self.spec_phase() matches LGenPhase::AwaitingPromptEval || self.spec_phase() matches LGenPhase::AwaitingStepEval,
        ensures
            self.spec_phase() matches LGenPhase::AwaitingPromptEval ==> r@ == self.spec_stream(),
            self.spec_phase() matches LGenPhase::AwaitingStepEval ==> r@
                == self.spec_gen_buffer(),
    {
        match &self.phase {
            LGenPhase::AwaitingPromptEval => &self.token_stream,
            _ => &self.gen_buffer,
        }
    }

    /// Begin a request: remember the parameters, make the prompt the token
    /// stream, reset the session (step counter, cache, repetition history)
    /// and admit the prompt as the first batch. A prompt that does not fit
    /// into the context window fails the request immediately with
    /// `OutOfBufferSpace`.
    pub fn start(&mut self, prompt_tokens: LTokenSequence, params: LGeneratorParams) -> (a:
        LGenAction)
        requires
            old(self).wf(),
            params.generate_tokens < usize::MAX,
        ensures
            final(self).wf(),
            final(self).spec_context().same_model(&old(self).spec_context()),
            final(self).spec_params() == params,
            final(self).spec_strings().len() == 0,
            final(self).spec_stream() == prompt_tokens@,
            final(self).spec_context().spec_steps() == 0,
            final(self).spec_context().spec_kv_count() == 0,
            final(self).spec_context().spec_history() == Seq::<i32>::empty(),
            prompt_tokens@.len() < old(self).spec_context().spec_n_ctx() ==> {
                &&& final(self).spec_phase() matches LGenPhase::AwaitingPromptEval
                &&& a == (LGenAction::Evaluate {
                    count: prompt_tokens@.len() as usize,
                    threads: params.worker_thread_count,
                })
            },
            prompt_tokens@.len() >= old(self).spec_context().spec_n_ctx() ==> {
                &&& final(self).spec_phase() matches LGenPhase::Done(LGenOutcome::Failed(
                    LError::OutOfBufferSpace(_),
                ))
                &&& a == LGenAction::Finished
            },
    {
        self.params = params;
        self.token_stream = prompt_tokens;
        self.token_strings = Vec::new();
        self.rounds = 0;
        let mut window = LTokenSequence::new();
        window.resize(1);
        self.gen_buffer = window;
        let prompt_len = self.token_stream.len();
        self.prompt_len = prompt_len;
        match self.context.load_prompt_admit(prompt_len) {
            Ok(()) => {
                self.phase = LGenPhase::AwaitingPromptEval;
                LGenAction::Evaluate { count: prompt_len, threads: self.params.worker_thread_count }
            },
            Err(e) => {
                self.phase = LGenPhase::Done(LGenOutcome::Failed(e));
                LGenAction::Finished
            },
        }
    }

    /// Move on after a finished round (or after the prompt evaluation): stop
    /// with `Completed` when the round budget is spent, otherwise rebuild the
    /// sliding window from the tail of the token stream and admit the next
    /// one-token evaluation — failing with `OutOfBufferSpace` the moment it
    /// would no longer fit, so the window is never exceeded.
    fn next_round(&mut self) -> (a: LGenAction)
        requires
            old(self).spec_context().wf(),
            old(self).spec_params().generate_tokens < usize::MAX,
            old(self).spec_gen_buffer().len() == 1,
            old(self).spec_rounds() <= old(self).spec_params().generate_tokens,
            old(self).spec_context().spec_steps() == old(self).spec_rounds() + 1,
            old(self).spec_context().spec_kv_count() == old(self).spec_prompt_len() + old(self).spec_rounds(),
        ensures
            final(self).wf(),
            final(self).spec_context().same_model(&old(self).spec_context()),
            final(self).spec_context().spec_history() == old(self).spec_context().spec_history(),
            final(self).spec_context().spec_steps() == old(self).spec_context().spec_steps(),
            final(self).spec_context().spec_kv_count() == old(self).spec_context().spec_kv_count(),
            final(self).spec_stream() == old(self).spec_stream(),
            final(self).spec_strings() == old(self).spec_strings(),
            final(self).spec_params() == old(self).spec_params(),
            final(self).spec_prompt_len() == old(self).spec_prompt_len(),
            old(self).spec_rounds() == old(self).spec_params().generate_tokens ==> {
                &&& final(self).spec_phase() matches LGenPhase::Done(LGenOutcome::Completed)
                &&& a == LGenAction::Finished
            },
            old(self).spec_rounds() < old(self).spec_params().generate_tokens && old(self).spec_context().spec_kv_count() + 1 < old(self).spec_context().spec_n_ctx() ==> {
                &&& final(self).spec_phase() matches LGenPhase::AwaitingStepEval
                &&& a == (LGenAction::Evaluate {
                    count: 1usize,
                    threads: old(self).spec_params().worker_thread_count,
                })
                &&& final(self).spec_rounds() == old(self).spec_rounds() + 1
                &&& final(self).spec_gen_buffer() == (if old(self).spec_stream().len() >= 1 {
                    seq![old(self).spec_stream().last()]
                } else {
                    seq![0i32]
                })
            },
            old(self).spec_rounds() < old(self).spec_params().generate_tokens && old(self).spec_context().spec_kv_count() + 1 >= old(self).spec_context().spec_n_ctx() ==> {
                &&& final(self).spec_phase() matches LGenPhase::Done(LGenOutcome::Failed(
                    LError::OutOfBufferSpace(_),
                ))
                &&& a == LGenAction::Finished
            },
    {
        if self.rounds == self.params.generate_tokens {
            self.phase = LGenPhase::Done(LGenOutcome::Completed);
            return LGenAction::Finished;
        }
        self.gen_buffer.clear();
        self.gen_buffer.copy_trailing(&self.token_stream);
        proof {
            let stream = old(self).spec_stream();
            let cleared = self.gen_buffer@;
            if stream.len() >= 1 {
                assert(self.gen_buffer@ =~= seq![stream.last()]);
            } else {
                assert(self.gen_buffer@ =~= seq![0i32]);
            }
        }
        match self.context.step_admit(self.gen_buffer.len()) {
            Ok(()) => {
                self.rounds = self.rounds + 1;
                self.phase = LGenPhase::AwaitingStepEval;
                LGenAction::Evaluate { count: 1, threads: self.params.worker_thread_count }
            },
            Err(e) => {
                self.phase = LGenPhase::Done(LGenOutcome::Failed(e));
                LGenAction::Finished
            },
        }
    }

    /// Fold an evaluation status back in. A nonzero status fails the
    /// request. A successful prompt evaluation starts the first round — or
    /// completes at once, with nothing rendered, when zero tokens were
    /// requested. A successful round evaluation asks for a sample.
    pub fn on_evaluated(&mut self, status: i32) -> (a: LGenAction)
        requires
            old(self).wf(),
            old(self).spec_phase() matches LGenPhase::AwaitingPromptEval || old(self).spec_phase() matches LGenPhase::AwaitingStepEval,
        ensures
            final(self).wf(),
            final(self).spec_context().same_model(&old(self).spec_context()),
            final(self).spec_context().spec_history() == old(self).spec_context().spec_history(),
            final(self).spec_stream() == old(self).spec_stream(),
            final(self).spec_strings() == old(self).spec_strings(),
            final(self).spec_params() == old(self).spec_params(),
            status != 0i32 ==> {
                &&& final(self).spec_phase() matches LGenPhase::Done(LGenOutcome::Failed(
                    LError::ApiError(_),
                ))
                &&& a == LGenAction::Finished
            },
            status == 0i32 && (old(self).spec_phase() matches LGenPhase::AwaitingStepEval) ==> {
                &&& final(self).spec_phase() matches LGenPhase::AwaitingSample
                &&& a == LGenAction::Sample
                &&& final(self).spec_context().spec_steps() == old(self).spec_context().spec_steps() + 1
                &&& final(self).spec_context().spec_kv_count() == old(self).spec_context().spec_kv_count() + 1
            },
            status == 0i32 && (old(self).spec_phase() matches LGenPhase::AwaitingPromptEval) ==> {
                &&& final(self).spec_context().spec_kv_count() == old(self).spec_prompt_len()
                &&& (old(self).spec_params().generate_tokens == 0 ==> {
                    &&& final(self).spec_phase() matches LGenPhase::Done(LGenOutcome::Completed)
                    &&& a == LGenAction::Finished
                    &&& final(self).spec_strings().len() == 0
                })
                &&& (old(self).spec_params().generate_tokens >= 1 && old(self).spec_prompt_len()
                    + 1 < old(self).spec_context().spec_n_ctx() ==> {
                    &&& final(self).spec_phase() matches LGenPhase::AwaitingStepEval
                    &&& a == (LGenAction::Evaluate {
                        count: 1usize,
                        threads: old(self).spec_params().worker_thread_count,
                    })
                })
                &&& (old(self).spec_params().generate_tokens >= 1 && old(self).spec_prompt_len()
                    + 1 >= old(self).spec_context().spec_n_ctx() ==> {
                    &&& final(self).spec_phase() matches LGenPhase::Done(LGenOutcome::Failed(
                        LError::OutOfBufferSpace(_),
                    ))
                    &&& a == LGenAction::Finished
                })
            },
    {
        let is_prompt = match &self.phase {
            LGenPhase::AwaitingPromptEval => true,
            _ => false,
        };
        let count = if is_prompt {
            self.token_stream.len()
        } else {
            1
        };
        match self.context.step_commit(count, status) {
            Ok(()) => {
                if is_prompt {
                    self.next_round()
                } else {
                    self.phase = LGenPhase::AwaitingSample;
                    LGenAction::Sample
                }
            },
            Err(e) => {
                self.phase = LGenPhase::Done(LGenOutcome::Failed(e));
                LGenAction::Finished
            },
        }
    }

    /// Fold a drawn token back in. The draw is classified against the
    /// session's sentinels: the end-of-stream sentinel completes the request
    /// before any rendering — the text never holds a representation of it;
    /// a token without a text form skips rendering and the callback and
    /// moves to the next round; any other token is appended to the stream
    /// and sent to be rendered. Every accepted draw is recorded into the
    /// repetition history.
    pub fn on_sampled(&mut self, drawn: i32) -> (a: LGenAction)
        requires
            old(self).wf(),
            old(self).spec_phase() matches LGenPhase::AwaitingSample,
        ensures
            final(self).wf(),
            final(self).spec_context().same_model(&old(self).spec_context()),
            final(self).spec_strings() == old(self).spec_strings(),
            final(self).spec_params() == old(self).spec_params(),
            !(0 <= drawn < old(self).spec_context().spec_n_vocab()) ==> {
                &&& final(self).spec_phase() matches LGenPhase::Done(LGenOutcome::Failed(
                    LError::ApiError(_),
                ))
                &&& a == LGenAction::Finished
                &&& final(self).spec_stream() == old(self).spec_stream()
                &&& final(self).spec_context() == old(self).spec_context()
            },
            0 <= drawn < old(self).spec_context().spec_n_vocab() ==> final(self).spec_context().spec_history() == spec_record(
                old(self).spec_context().spec_history(),
                drawn,
                old(self).spec_params().sample_params.repeat_history_length as nat,
            ),
            0 <= drawn < old(self).spec_context().spec_n_vocab() && drawn == old(self).spec_context().spec_eos() ==> {
                &&& final(self).spec_phase() matches LGenPhase::Done(LGenOutcome::Completed)
                &&& a == LGenAction::Finished
                &&& final(self).spec_stream() == old(self).spec_stream()
            },
            0 <= drawn < old(self).spec_context().spec_n_vocab() && drawn != old(self).spec_context().spec_eos() ==> final(self).spec_stream() == old(self).spec_stream().push(drawn),
            0 <= drawn < old(self).spec_context().spec_n_vocab() && drawn != old(self).spec_context().spec_eos() && drawn != old(self).spec_context().spec_bos() ==> {
                &&& final(self).spec_phase() == (LGenPhase::AwaitingRender(LToken(drawn)))
                &&& a == (LGenAction::Render { token: LToken(drawn) })
            },
            0 <= drawn < old(self).spec_context().spec_n_vocab() && drawn != old(self).spec_context().spec_eos() && drawn == old(self).spec_context().spec_bos() ==> {
                &&& (old(self).spec_rounds() == old(self).spec_params().generate_tokens ==> {
                    &&& final(self).spec_phase() matches LGenPhase::Done(LGenOutcome::Completed)
                    &&& a == LGenAction::Finished
                })
                &&& (old(self).spec_rounds() < old(self).spec_params().generate_tokens && old(self).spec_context().spec_kv_count() + 1 < old(self).spec_context().spec_n_ctx()
                    ==> {
                    &&& final(self).spec_phase() matches LGenPhase::AwaitingStepEval
                    &&& a == (LGenAction::Evaluate {
                        count: 1usize,
                        threads: old(self).spec_params().worker_thread_count,
                    })
                })
                &&& (old(self).spec_rounds() < old(self).spec_params().generate_tokens && old(self).spec_context().spec_kv_count() + 1 >= old(self).spec_context().spec_n_ctx()
                    ==> {
                    &&& final(self).spec_phase() matches LGenPhase::Done(LGenOutcome::Failed(
                        LError::OutOfBufferSpace(_),
                    ))
                    &&& a == LGenAction::Finished
                })
            },
    {
        let params = self.params.sample_params;
        let token = match self.context.sample(Some(params), drawn) {
            Ok(t) => t,
            Err(e) => {
                self.phase = LGenPhase::Done(LGenOutcome::Failed(e));
                return LGenAction::Finished;
            },
        };
        if token.is_end_of_stream(&self.context) {
            self.phase = LGenPhase::Done(LGenOutcome::Completed);
            return LGenAction::Finished;
        }
        self.token_stream.push(token);
        if token.has_str_value(&self.context) {
            self.phase = LGenPhase::AwaitingRender(token);
            LGenAction::Render { token }
        } else {
            self.next_round()
        }
    }

    /// Fold a rendered piece back in: append it to the accumulated text and
    /// consult the incremental callback.
    pub fn on_rendered(&mut self, text: String) -> (a: LGenAction)
        requires
            old(self).wf(),
            old(self).spec_phase() matches LGenPhase::AwaitingRender(_),
        ensures
            final(self).wf(),
            final(self).spec_context() == old(self).spec_context(),
            final(self).spec_stream() == old(self).spec_stream(),
            final(self).spec_strings() == old(self).spec_strings().push(text),
            final(self).spec_params() == old(self).spec_params(),
            final(self).spec_phase() matches LGenPhase::AwaitingCallback,
            a == LGenAction::Callback,
    {
        self.token_strings.push(text);
        self.phase = LGenPhase::AwaitingCallback;
        LGenAction::Callback
    }

    /// A failed rendering is fatal to the request.
    pub fn on_render_failed(&mut self, error: LError) -> (a: LGenAction)
        requires
            old(self).wf(),
            old(self).spec_phase() matches LGenPhase::AwaitingRender(_),
        ensures
            final(self).wf(),
            final(self).spec_context() == old(self).spec_context(),
            final(self).spec_strings() == old(self).spec_strings(),
            final(self).spec_phase() == (LGenPhase::Done(LGenOutcome::Failed(error))),
            a == LGenAction::Finished,
    {
        self.phase = LGenPhase::Done(LGenOutcome::Failed(error));
        LGenAction::Finished
    }

    /// Fold the callback's answer back in: a halt signal ends the request
    /// with `Halted` — a success outcome whose text is everything rendered
    /// up to and including this step — and a continue signal moves to the
    /// next round.
    pub fn on_callback(&mut self, keep_going: bool) -> (a: LGenAction)
        requires
            old(self).wf(),
            old(self).spec_phase() matches LGenPhase::AwaitingCallback,
        ensures
            final(self).wf(),
            final(self).spec_context().same_model(&old(self).spec_context()),
            final(self).spec_context().spec_history() == old(self).spec_context().spec_history(),
            final(self).spec_stream() == old(self).spec_stream(),
            final(self).spec_strings() == old(self).spec_strings(),
            final(self).spec_params() == old(self).spec_params(),
            !keep_going ==> {
                &&& final(self).spec_phase() matches LGenPhase::Done(LGenOutcome::Halted)
                &&& a == LGenAction::Finished
                &&& final(self).spec_context() == old(self).spec_context()
            },
            keep_going ==> {
                &&& (old(self).spec_rounds() == old(self).spec_params().generate_tokens ==> {
                    &&& final(self).spec_phase() matches LGenPhase::Done(LGenOutcome::Completed)
                    &&& a == LGenAction::Finished
                })
                &&& (old(self).spec_rounds() < old(self).spec_params().generate_tokens && old(self).spec_context().spec_kv_count() + 1 < old(self).spec_context().spec_n_ctx()
                    ==> {
                    &&& final(self).spec_phase() matches LGenPhase::AwaitingStepEval
                    &&& a == (LGenAction::Evaluate {
                        count: 1usize,
                        threads: old(self).spec_params().worker_thread_count,
                    })
                })
                &&& (old(self).spec_rounds() < old(self).spec_params().generate_tokens && old(self).spec_context().spec_kv_count() + 1 >= old(self).spec_context().spec_n_ctx()
                    ==> {
                    &&& final(self).spec_phase() matches LGenPhase::Done(LGenOutcome::Failed(
                        LError::OutOfBufferSpace(_),
                    ))
                    &&& a == LGenAction::Finished
                })
            },
    {
        if !keep_going {
            self.phase = LGenPhase::Done(LGenOutcome::Halted);
            LGenAction::Finished
        } else {
            self.next_round()
        }
    }

    /// The outcome of a finished request: the joined rendered text on
    /// `Completed` and `Halted`, the error on `Failed` — text accumulated
    /// before a failure is discarded.
    pub fn result(&self) -> (r: Result<String, LError>)
        requires
            self.spec_phase() matches LGenPhase::Done(_),
        ensures
            self.spec_phase() matches LGenPhase::Done(LGenOutcome::Completed) ==> (r matches Ok(s)
                && s@ == spec_concat(self.spec_strings())),
            self.spec_phase() matches LGenPhase::Done(LGenOutcome::Halted) ==> (r matches Ok(s)
                && s@ == spec_concat(self.spec_strings())),
            forall|e: LError|
                self.spec_phase() == (LGenPhase::Done(LGenOutcome::Failed(e))) ==> r == Err::<
                    String,
                    LError,
                >(e),
    {
        match &self.phase {
            LGenPhase::Done(LGenOutcome::Failed(e)) => Err(e.duplicate()),
            _ => {
                let mut out = String::new();
                let n = self.token_strings.len();
                let mut i: usize = 0;
                while i < n
                    invariant
                        n == self.token_strings@.len(),
                        i <= n,
                        out@ == spec_concat(self.token_strings@.take(i as int)),
                    decreases n - i,
                {
                    out.append(self.token_strings[i].as_str());
                    proof {
                        assert(self.token_strings@.take(i + 1).drop_last() =~= self
                            .token_strings@.take(i as int));
                        assert(self.token_strings@.take(i + 1).last() == self.token_strings@[
                            i as int]);
                    }
                    i += 1;
                }
                proof {
                    assert(self.token_strings@.take(n as int) =~= self.token_strings@);
                }
                Ok(out)
            },
        }
    }

    /// The arithmetic of window exhaustion: when a prompt that fits is
    /// followed by a round budget that together with it would pass the
    /// window, there is a round — before the budget runs out — at which the
    /// one-token evaluation no longer fits, while every earlier round still
    /// does. Together with the admission rule this says the loop fails with
    /// `OutOfBufferSpace` at exactly that round instead of exceeding the
    /// window.
    pub proof fn lemma_window_exhaustion(prompt_len: nat, generate_tokens: nat, n_ctx: nat) -> (r:
        nat)
        requires
            prompt_len + generate_tokens >= n_ctx,
            prompt_len < n_ctx,
        ensures
            r == n_ctx - prompt_len - 1,
            r < generate_tokens,
            prompt_len + r + 1 >= n_ctx,
    {
        (n_ctx - prompt_len - 1) as nat
    }
}

} // verus!
