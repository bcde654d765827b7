use diffusers_core::{
    apply_guidance, assemble_embeddings, prepare_model_input, resolve_seed, BatchTensor,
    CallbackConfig, CallbackKind, GuidanceScale, LoopPlan,
};

fn tensor(batch: usize, row: usize, values: &[f32]) -> BatchTensor {
    let data: Vec<u32> = values.iter().map(|v| v.to_bits()).collect();
    BatchTensor::from_data(batch, row, data).unwrap()
}

fn scalars(t: &BatchTensor) -> Vec<f32> {
    t.data.iter().map(|b| f32::from_bits(*b)).collect()
}

#[test]
fn guidance_gate_follows_the_scale() {
    for (scale, on) in [
        (7.5f32, true),
        (20.0, true),
        (1.0000001, true),
        (f32::INFINITY, true),
        (1.0, false),
        (0.5, false),
        (0.0, false),
        (-0.0, false),
        (-3.0, false),
        (f32::NAN, false),
        (f32::NEG_INFINITY, false),
    ] {
        let gs = GuidanceScale { bits: scale.to_bits() };
        assert_eq!(gs.enables_guidance(), on, "scale {scale}");
        assert_eq!(gs.enables_guidance(), scale > 1.0, "scale {scale}");
    }
}

#[test]
fn latents_are_duplicated_only_under_guidance() {
    let latents = tensor(1, 4, &[0.25, -1.5, 3.0, 0.0]);
    let plain = prepare_model_input(&latents, false).unwrap();
    assert_eq!(plain.batch, 1);
    assert_eq!(plain.data, latents.data);
    let doubled = prepare_model_input(&latents, true).unwrap();
    assert_eq!(doubled.batch, 2);
    assert_eq!(doubled.data[..4], latents.data[..]);
    assert_eq!(doubled.data[4..], latents.data[..]);
}

#[test]
fn embeddings_concatenate_unconditional_first() {
    // Batch of two prompts under guidance: the embedding batch axis becomes
    // four, ordered unconditional before conditional.
    let cond = tensor(2, 3, &[1.0, 2.0, 3.0, 4.0, 5.0, 6.0]);
    let uncond = tensor(2, 3, &[-1.0, -2.0, -3.0, -4.0, -5.0, -6.0]);
    let both = assemble_embeddings(cond, Some(uncond), true).unwrap();
    assert_eq!(both.batch, 4);
    assert_eq!(both.row, 3);
    assert_eq!(
        scalars(&both),
        vec![-1.0, -2.0, -3.0, -4.0, -5.0, -6.0, 1.0, 2.0, 3.0, 4.0, 5.0, 6.0]
    );
}

#[test]
fn embeddings_pass_through_without_guidance() {
    let cond = tensor(2, 2, &[1.0, 2.0, 3.0, 4.0]);
    let uncond = tensor(2, 2, &[9.0, 9.0, 9.0, 9.0]);
    let out = assemble_embeddings(cond, Some(uncond), false).unwrap();
    assert_eq!(out.batch, 2);
    assert_eq!(scalars(&out), vec![1.0, 2.0, 3.0, 4.0]);
}

#[test]
fn guidance_formula_is_exact() {
    // uncond + scale * (cond - uncond), elementwise over the two halves of
    // the prediction batch, for several scales.
    let uncond = [0.5f32, -1.0, 2.0, 0.0];
    let cond = [1.5f32, 1.0, -2.0, 4.0];
    for scale in [1.5f32, 5.0, 20.0] {
        let mut values = Vec::new();
        values.extend_from_slice(&uncond);
        values.extend_from_slice(&cond);
        let prediction = tensor(2, 4, &values);
        let combined = apply_guidance(&prediction, 1, |u: u32, c: u32| {
            let (u, c) = (f32::from_bits(u), f32::from_bits(c));
            (u + scale * (c - u)).to_bits()
        });
        assert_eq!(combined.batch, 1);
        let expected: Vec<f32> = uncond
            .iter()
            .zip(cond.iter())
            .map(|(u, c)| u + scale * (c - u))
            .collect();
        assert_eq!(scalars(&combined), expected, "scale {scale}");
    }
}

#[test]
fn guidance_pairs_rows_across_a_larger_batch() {
    // Batch size two: rows 0 and 1 are unconditional, rows 2 and 3
    // conditional; row k pairs with row k + 2.
    let prediction = tensor(4, 2, &[0.0, 1.0, 2.0, 3.0, 10.0, 11.0, 12.0, 13.0]);
    let combined = apply_guidance(&prediction, 2, |u: u32, c: u32| {
        let (u, c) = (f32::from_bits(u), f32::from_bits(c));
        (u + 2.0 * (c - u)).to_bits()
    });
    assert_eq!(combined.batch, 2);
    assert_eq!(scalars(&combined), vec![20.0, 21.0, 22.0, 23.0]);
}

#[test]
fn callback_gate_matches_the_warmup_formula() {
    // Twenty timesteps of an order-one scheduler, twenty steps requested:
    // the warm-up threshold is zero and no index is excluded.
    let plan = LoopPlan { timestep_count: 20, steps: 20, order: 1 };
    let progress = CallbackConfig { kind: CallbackKind::Progress, frequency: 5 };
    let fired: Vec<usize> = (0..20)
        .filter(|i| diffusers_core::should_invoke_callback(&plan, &progress, *i))
        .collect();
    // The final index is always past the warm-up test, but the variant's
    // own frequency still applies there: 19 is not a multiple of five.
    assert_eq!(fired, vec![0, 5, 10, 15]);
}

#[test]
fn decoding_callbacks_skip_the_first_step() {
    let plan = LoopPlan { timestep_count: 20, steps: 20, order: 1 };
    let decoded = CallbackConfig { kind: CallbackKind::Decoded, frequency: 5 };
    let fired: Vec<usize> = (0..20)
        .filter(|i| diffusers_core::should_invoke_callback(&plan, &decoded, *i))
        .collect();
    assert_eq!(fired, vec![5, 10, 15]);
    let approx = CallbackConfig { kind: CallbackKind::ApproximateDecoded, frequency: 1 };
    assert!(!diffusers_core::should_invoke_callback(&plan, &approx, 0));
    assert!(diffusers_core::should_invoke_callback(&plan, &approx, 1));
}

#[test]
fn callback_gate_respects_warmup_and_order() {
    // Second-order scheduler producing 40 timesteps for 15 requested steps:
    // the warm-up threshold is 40 - 30 = 10, so callbacks fire at odd
    // indices i with i + 1 > 10, and at the final index.
    let plan = LoopPlan { timestep_count: 40, steps: 15, order: 2 };
    let cb = CallbackConfig { kind: CallbackKind::Latents, frequency: 1 };
    let fired: Vec<usize> = (0..40)
        .filter(|i| diffusers_core::should_invoke_callback(&plan, &cb, *i))
        .collect();
    let expected: Vec<usize> = (0..40)
        .filter(|i| *i == 39 || (i + 1 > 10 && (i + 1) % 2 == 0))
        .collect();
    assert_eq!(fired, expected);
}

#[test]
fn negative_warmup_threshold_excludes_nothing() {
    // More steps requested than timesteps produced: the threshold
    // 5 - 3 * 4 is negative and every index past it only needs the order
    // test.
    let plan = LoopPlan { timestep_count: 5, steps: 3, order: 4 };
    let cb = CallbackConfig { kind: CallbackKind::Progress, frequency: 1 };
    let fired: Vec<usize> = (0..5)
        .filter(|i| diffusers_core::should_invoke_callback(&plan, &cb, *i))
        .collect();
    assert_eq!(fired, vec![3, 4]);
}

#[test]
fn requested_seed_is_used_verbatim() {
    assert_eq!(resolve_seed(Some(42)), 42);
    assert_eq!(resolve_seed(Some(u64::MAX)), u64::MAX);
    // An unseeded call draws some seed; replaying it must reproduce it.
    let drawn = resolve_seed(None);
    assert_eq!(resolve_seed(Some(drawn)), drawn);
}
