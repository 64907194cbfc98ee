//! Parameter defaults, including the single-precision bit patterns carried
//! for the native filter stages.

use llama_session::{LContextConfig, LSampleParams};

#[test]
fn sample_params_default_integer_fields() {
    let p = LSampleParams::default();
    assert_eq!(p.top_k, 40);
    assert_eq!(p.repeat_history_length, 1024);
}

#[test]
fn sample_params_default_bit_patterns_decode_to_the_documented_values() {
    let p = LSampleParams::default();
    assert_eq!(f32::from_bits(p.top_p_bits), 0.95f32);
    assert_eq!(f32::from_bits(p.temp_bits), 0.8f32);
    assert_eq!(f32::from_bits(p.repeat_penalty_bits), 1.1f32);
    assert_eq!(f32::from_bits(p.tfs_z_bits), 1.0f32);
    assert_eq!(f32::from_bits(p.typical_p_bits), 1.0f32);
}

#[test]
fn context_config_defaults() {
    let c = LContextConfig::new("models/model.gguf");
    assert_eq!(c.model_path, "models/model.gguf");
    assert_eq!(c.seed, 0);
    assert_eq!(c.n_ctx, 512);
    assert_eq!(c.n_parts, -1);
    assert!(c.f16_kv);
    assert!(!c.use_mlock);
    assert!(!c.vocab_only);
    assert!(!c.logits_all);
    assert!(!c.embedding);
    assert_eq!(c.n_gpu_layers, 0);
    assert!(!c.low_vram);
}
