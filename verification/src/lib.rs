//! Verified core of a memory-optimized latent-diffusion text-to-image
//! pipeline.
//!
//! The pipeline turns text prompts into images by iteratively denoising a
//! latent tensor with a neural network, under classifier-free guidance, and
//! finally decoding the latent into pixels. The neural networks themselves,
//! the floating-point arithmetic and all file and engine I/O live outside
//! this library; here stand the decisions and data movements that tie them
//! together, each with a proved contract:
//!
//! - input validation (image dimensions, prompt batches, negative-prompt
//!   broadcasting),
//! - the classifier-free-guidance gate and the batch layout it imposes
//!   (duplication of latents, unconditional-before-conditional embeddings,
//!   splitting and recombining noise predictions),
//! - the denoising loop's callback gate (warm-up threshold, scheduler order,
//!   per-variant frequency) and seed resolution,
//! - the bit-exact pixel clamp and the channel-first to channel-last layout
//!   change of the decoder's output.
//!
//! Tensors are carried as their raw scalar bit patterns (`u32` per scalar),
//! so every data movement is stated and proved element by element while the
//! arithmetic on the scalars stays on the inference engine's side.
mod config;
mod decode;
mod encode;
mod error;
mod guidance;
mod prompt;
mod sampler;
mod tensor;

pub use config::{manifest_supported, validate_manifest, FrameworkKind, PipelineKind, TokenizerKind};
pub use decode::{
    channel_last_data, channel_last_src, check_image_buffer, clamp_tensor, clamp_unit,
    clamp_unit_spec, f32_bits_is_nan, f32_bits_magnitude, lemma_channel_last_positions,
    lemma_clamp_unit_in_range, to_channel_last, unit_interval_bits,
};
pub use encode::{
    EncodePlan, assemble_embeddings, negative_batch_ok, plan_encode_inputs,
    resolve_negative_prompt,
};
pub use error::PipelineError;
pub use guidance::{
    GuidanceScale, apply_guidance, f32_bits_gt_one, lemma_guidance_disabled_layout,
    model_input_data, prepare_model_input,
};
pub use prompt::Prompt;
pub use sampler::{
    callback_fires, gate_open, lemma_cancellation_stops_the_loop,
    lemma_no_cancellation_runs_to_the_end, lemma_sampler_deterministic, resolve_seed,
    should_invoke_callback, steps_executed, steps_executed_from, variant_due, CallbackConfig,
    CallbackKind, LatentDims, LoopPlan,
};
pub use tensor::BatchTensor;
