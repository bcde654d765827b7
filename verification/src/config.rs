use vstd::prelude::*;
use crate::error::PipelineError;

verus! {

/// The pipeline family a manifest declares.
#[derive(Clone, Copy, Debug, PartialEq, Eq, Structural)]
pub enum PipelineKind {
    StableDiffusion,
    Other,
}

/// The model-file framework a manifest declares.
#[derive(Clone, Copy, Debug, PartialEq, Eq, Structural)]
pub enum FrameworkKind {
    Onnx,
    Other,
}

/// The tokenizer family a manifest declares.
#[derive(Clone, Copy, Debug, PartialEq, Eq, Structural)]
pub enum TokenizerKind {
    Clip,
    Other,
}

/// Whether a manifest's declared kinds are the ones this pipeline supports.
pub open spec fn manifest_supported(
    pipeline: PipelineKind,
    framework: FrameworkKind,
    tokenizer: TokenizerKind,
) -> bool {
    &&& pipeline is StableDiffusion
    &&& framework is Onnx
    &&& tokenizer is Clip
}

/// Accepts exactly the manifests that declare a stable-diffusion pipeline in
/// the ONNX framework with a CLIP tokenizer; everything else is a
/// configuration error, found at construction before any model is loaded.
pub fn validate_manifest(
    pipeline: PipelineKind,
    framework: FrameworkKind,
    tokenizer: TokenizerKind,
) -> (r: Result<(), PipelineError>)
    ensures
        r is Ok <==> manifest_supported(pipeline, framework, tokenizer),
        r is Err ==> r == Err::<(), PipelineError>(PipelineError::ConfigError),
{
    match (pipeline, framework, tokenizer) {
        (PipelineKind::StableDiffusion, FrameworkKind::Onnx, TokenizerKind::Clip) => Ok(()),
        _ => Err(PipelineError::ConfigError),
    }
}

} // verus!
