use diffusers_core::{
    plan_encode_inputs, resolve_negative_prompt, FrameworkKind, LatentDims, PipelineError,
    PipelineKind, Prompt, TokenizerKind,
};

fn prompt_of(texts: &[&str]) -> Prompt {
    Prompt::from_texts(texts.iter().map(|s| s.to_string()).collect()).unwrap()
}

#[test]
fn dimensions_must_be_multiples_of_eight() {
    assert!(LatentDims::plan(1, 512, 512).is_ok());
    assert!(LatentDims::plan(1, 8, 8).is_ok());
    assert_eq!(
        LatentDims::plan(1, 511, 512),
        Err(PipelineError::ValidationError)
    );
    assert_eq!(
        LatentDims::plan(1, 512, 100),
        Err(PipelineError::ValidationError)
    );
    assert_eq!(
        LatentDims::plan(2, 9, 16),
        Err(PipelineError::ValidationError)
    );
}

#[test]
fn latent_dims_are_an_eighth_of_the_pixels() {
    let d = LatentDims::plan(1, 512, 512).unwrap();
    assert_eq!(d.batch, 1);
    assert_eq!(d.channels, 4);
    assert_eq!(d.height, 64);
    assert_eq!(d.width, 64);
    assert_eq!(d.row_len(), Some(4 * 64 * 64));
}

#[test]
fn single_negative_prompt_broadcasts_to_batch() {
    let neg = prompt_of(&["blurry"]);
    let resolved = resolve_negative_prompt(3, &neg).unwrap();
    assert_eq!(resolved.len(), 3);
    for i in 0..3 {
        assert_eq!(resolved.get(i).as_str(), "blurry");
    }
}

#[test]
fn matching_negative_prompt_is_kept() {
    let neg = prompt_of(&["a", "b"]);
    let resolved = resolve_negative_prompt(2, &neg).unwrap();
    assert_eq!(resolved.len(), 2);
    assert_eq!(resolved.get(0).as_str(), "a");
    assert_eq!(resolved.get(1).as_str(), "b");
}

#[test]
fn mismatched_negative_prompt_is_rejected() {
    let neg = prompt_of(&["a", "b"]);
    assert!(matches!(
        resolve_negative_prompt(3, &neg),
        Err(PipelineError::ValidationError)
    ));
    let neg = prompt_of(&["a", "b", "c"]);
    assert!(matches!(
        resolve_negative_prompt(2, &neg),
        Err(PipelineError::ValidationError)
    ));
}

#[test]
fn guidance_without_negative_prompt_uses_empty_texts() {
    let prompt = prompt_of(&["a red fox", "a blue fox"]);
    let plan = plan_encode_inputs(&prompt, true, None).unwrap();
    assert_eq!(plan.conditional.len(), 2);
    let uncond = plan.unconditional.expect("guidance needs an unconditional batch");
    assert_eq!(uncond.len(), 2);
    assert_eq!(uncond.get(0).as_str(), "");
    assert_eq!(uncond.get(1).as_str(), "");
}

#[test]
fn no_guidance_means_no_unconditional_batch() {
    let prompt = prompt_of(&["a red fox"]);
    let neg = prompt_of(&["blurry"]);
    let plan = plan_encode_inputs(&prompt, false, Some(&neg)).unwrap();
    assert!(plan.unconditional.is_none());
}

#[test]
fn empty_prompt_batch_is_rejected() {
    assert!(matches!(
        Prompt::from_texts(Vec::new()),
        Err(PipelineError::ValidationError)
    ));
}

#[test]
fn unsupported_manifests_are_config_errors() {
    assert!(diffusers_core::validate_manifest(
        PipelineKind::StableDiffusion,
        FrameworkKind::Onnx,
        TokenizerKind::Clip
    )
    .is_ok());
    assert_eq!(
        diffusers_core::validate_manifest(
            PipelineKind::Other,
            FrameworkKind::Onnx,
            TokenizerKind::Clip
        ),
        Err(PipelineError::ConfigError)
    );
    assert_eq!(
        diffusers_core::validate_manifest(
            PipelineKind::StableDiffusion,
            FrameworkKind::Other,
            TokenizerKind::Clip
        ),
        Err(PipelineError::ConfigError)
    );
    assert_eq!(
        diffusers_core::validate_manifest(
            PipelineKind::StableDiffusion,
            FrameworkKind::Onnx,
            TokenizerKind::Other
        ),
        Err(PipelineError::ConfigError)
    );
}
