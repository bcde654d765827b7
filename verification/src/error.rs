use vstd::prelude::*;

verus! {

/// Every way a generation call can fail. Each error is surfaced to the
/// caller at once; none is retried, and a failed call yields no images.
#[derive(Clone, Copy, Debug, PartialEq, Eq, Structural)]
pub enum PipelineError {
    /// The pipeline manifest is missing, malformed, or names an unsupported
    /// pipeline, framework or tokenizer kind.
    ConfigError,
    /// The requested dimensions are not multiples of eight, or the negative
    /// prompt's batch size cannot be matched to the prompt's.
    ValidationError,
    /// A model stage file could not be opened or parsed.
    LoadError,
    /// The inference engine failed, or returned a tensor of an unexpected
    /// shape.
    InferenceError,
    /// An image buffer could not be constructed from decoded pixels.
    DecodeError,
}

impl PipelineError {
    /// A short human-readable name for the error kind.
    pub fn describe(&self) -> (r: &'static str)
        ensures
            r@ == match *self {
                PipelineError::ConfigError => "unsupported or malformed pipeline configuration"@,
                PipelineError::ValidationError => "invalid generation options"@,
                PipelineError::LoadError => "a model stage could not be loaded"@,
                PipelineError::InferenceError => "inference failed or returned a malformed tensor"@,
                PipelineError::DecodeError => "decoded pixels could not form an image"@,
            },
    {
        match *self {
            PipelineError::ConfigError => "unsupported or malformed pipeline configuration",
            PipelineError::ValidationError => "invalid generation options",
            PipelineError::LoadError => "a model stage could not be loaded",
            PipelineError::InferenceError => "inference failed or returned a malformed tensor",
            PipelineError::DecodeError => "decoded pixels could not form an image",
        }
    }
}

} // verus!
