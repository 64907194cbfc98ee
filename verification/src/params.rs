//! Value configuration: sampling parameters, context construction parameters,
//! and generation-request parameters.
//!
//! The sampling filters themselves run in the native engine on real-valued
//! logits. The library never computes with those real values, so it carries
//! each of them as its IEEE-754 single-precision bit pattern: a plain `u32`
//! that the unverified driver turns back into a native float at the boundary.

use vstd::prelude::*;

verus! {

/// Bit pattern of the single-precision value 0.95, the default nucleus mass
/// threshold.
pub const DEFAULT_TOP_P_BITS: u32 = 0x3f73_3333;

/// Bit pattern of the single-precision value 0.8, the default temperature.
pub const DEFAULT_TEMP_BITS: u32 = 0x3f4c_cccd;

/// Bit pattern of the single-precision value 1.1, the default repetition
/// penalty.
pub const DEFAULT_REPEAT_PENALTY_BITS: u32 = 0x3f8c_cccd;

/// Bit pattern of the single-precision value 1.0, the neutral setting of the
/// tail-free and locally-typical filters.
pub const NEUTRAL_FILTER_BITS: u32 = 0x3f80_0000;

/// Parameters of the multi-stage sampling pipeline.
///
/// `top_k` and `repeat_history_length` are read by the library's own logic;
/// the `_bits` fields are single-precision bit patterns passed through to the
/// native filter stages untouched.
#[derive(Clone, Copy, Debug, PartialEq, Eq, Structural)]
pub struct LSampleParams {
    /// Candidates kept after the rank filter; zero or negative disables it.
    pub top_k: i32,
    /// Nucleus (top-p) mass threshold, as a bit pattern.
    pub top_p_bits: u32,
    /// Logit scaling temperature, as a bit pattern.
    pub temp_bits: u32,
    /// Multiplicative penalty on recently seen tokens, as a bit pattern.
    pub repeat_penalty_bits: u32,
    /// How many recently emitted tokens the repetition penalty may consider.
    pub repeat_history_length: usize,
    /// Tail-free sampling parameter, as a bit pattern.
    pub tfs_z_bits: u32,
    /// Locally-typical sampling parameter, as a bit pattern.
    pub typical_p_bits: u32,
}

impl LSampleParams {
    /// The documented default: `top_k` 40, `top_p` 0.95, `temp` 0.8,
    /// `repeat_penalty` 1.1, `tfs_z` 1.0, `typical_p` 1.0, and a repetition
    /// scan window of 1024 tokens.
    pub open spec fn spec_default() -> LSampleParams {
        LSampleParams {
            top_k: 40,
            top_p_bits: DEFAULT_TOP_P_BITS,
            temp_bits: DEFAULT_TEMP_BITS,
            repeat_penalty_bits: DEFAULT_REPEAT_PENALTY_BITS,
            repeat_history_length: 1024,
            tfs_z_bits: NEUTRAL_FILTER_BITS,
            typical_p_bits: NEUTRAL_FILTER_BITS,
        }
    }
}

impl Default for LSampleParams {
    /// The documented default parameter set.
    fn default() -> (r: LSampleParams)
        ensures
            r == LSampleParams::spec_default(),
    {
        LSampleParams {
            top_k: 40,
            top_p_bits: DEFAULT_TOP_P_BITS,
            temp_bits: DEFAULT_TEMP_BITS,
            repeat_penalty_bits: DEFAULT_REPEAT_PENALTY_BITS,
            repeat_history_length: 1024,
            tfs_z_bits: NEUTRAL_FILTER_BITS,
            typical_p_bits: NEUTRAL_FILTER_BITS,
        }
    }
}

/// Construction parameters of a session: model location, window size, seed,
/// and native backend flags. Consumed once when the session is built.
#[derive(Clone, Debug)]
pub struct LContextConfig {
    /// Filesystem path of the model to load.
    pub model_path: String,
    /// Seed of the sampling random stream.
    pub seed: u32,
    /// Size of the context window, in tokens.
    pub n_ctx: i32,
    /// Number of model parts; negative asks the native layer to detect it.
    pub n_parts: i32,
    /// Keep the key-value cache in half precision.
    pub f16_kv: bool,
    /// Lock model memory against swapping.
    pub use_mlock: bool,
    /// Load only the vocabulary, not the weights.
    pub vocab_only: bool,
    /// Compute logits for every position rather than the last one only.
    pub logits_all: bool,
    /// Run in embedding mode.
    pub embedding: bool,
    /// How many layers to offload to the GPU.
    pub n_gpu_layers: i32,
    /// Prefer reduced VRAM usage.
    pub low_vram: bool,
}

impl LContextConfig {
    /// A configuration for the model at `path`, with the documented defaults:
    /// seed 0, a 512-token window, auto-detected parts, half-precision
    /// key-value cache, and every other flag off.
    pub fn new(path: &str) -> (r: LContextConfig)
        ensures
            r.model_path@ == path@,
            r.seed == 0u32,
            r.n_ctx == 512i32,
            r.n_parts == -1i32,
            r.f16_kv == true,
            r.use_mlock == false,
            r.vocab_only == false,
            r.logits_all == false,
            r.embedding == false,
            r.n_gpu_layers == 0i32,
            r.low_vram == false,
    {
        LContextConfig {
            model_path: path.to_owned(),
            seed: 0,
            n_ctx: 512,
            n_parts: -1,
            f16_kv: true,
            use_mlock: false,
            vocab_only: false,
            logits_all: false,
            embedding: false,
            n_gpu_layers: 0,
            low_vram: false,
        }
    }
}

/// Parameters of one generation request.
#[derive(Clone, Debug)]
pub struct LGeneratorParams {
    /// Generate at most this many tokens before halting.
    pub generate_tokens: usize,
    /// Worker-thread count hint handed to native evaluation.
    pub worker_thread_count: usize,
    /// Settings of the sampling pipeline.
    pub sample_params: LSampleParams,
}

} // verus!
