use vstd::prelude::*;
use crate::error::PipelineError;
use crate::tensor::{copy_bits, BatchTensor};

verus! {

/// The guidance scale, held as the bit pattern of the caller's 32-bit
/// floating-point multiplier. The library never computes with the value; it
/// only decides whether the scale exceeds one, and that comparison is pure
/// integer logic on the bit pattern.
#[derive(Clone, Copy, Debug, PartialEq, Eq, Structural)]
pub struct GuidanceScale {
    pub bits: u32,
}

/// Whether a 32-bit floating-point value, given by its bit pattern, compares
/// strictly greater than one. Non-negative floating-point values order as
/// their bit patterns do, one is `0x3F80_0000`, positive infinity is
/// `0x7F80_0000`; larger patterns are not numbers and every comparison on
/// them is false, as is every comparison on a value with the sign bit set.
pub open spec fn f32_bits_gt_one(bits: u32) -> bool {
    0x3F80_0000 < bits <= 0x7F80_0000
}

impl GuidanceScale {
    /// Classifier-free guidance is on exactly when the scale exceeds one;
    /// at one and below the guidance arithmetic would return the conditional
    /// prediction unchanged, so it is skipped altogether.
    pub fn enables_guidance(&self) -> (r: bool)
        ensures
            r == f32_bits_gt_one(self.bits),
    {
        0x3F80_0000 < self.bits && self.bits <= 0x7F80_0000
    }
}

/// The scalar buffer the denoiser is fed: the latents twice over when
/// guidance is on (the unconditional copy feeding the first embedding half,
/// the conditional copy the second), the latents unchanged otherwise.
pub open spec fn model_input_data(latents: Seq<u32>, use_guidance: bool) -> Seq<u32> {
    if use_guidance {
        latents + latents
    } else {
        latents
    }
}

/// Builds the denoiser input for one timestep from the current latents:
/// duplicated along the batch axis under guidance, copied unchanged without
/// it. A duplication too large for memory is a fatal inference error.
pub fn prepare_model_input(latents: &BatchTensor, use_guidance: bool) -> (r: Result<
    BatchTensor,
    PipelineError,
>)
    requires
        latents.wf(),
    ensures
        r is Ok <==> (use_guidance ==> {
            &&& 2 * latents.batch <= usize::MAX
            &&& 2 * latents.data@.len() <= usize::MAX
        }),
        r matches Ok(t) ==> {
            &&& t.wf()
            &&& t.row == latents.row
            &&& t.batch == (if use_guidance {
                2 * latents.batch
            } else {
                latents.batch as int
            })
            &&& t.data@ == model_input_data(latents.data@, use_guidance)
        },
        r is Err ==> r == Err::<BatchTensor, PipelineError>(PipelineError::InferenceError),
{
    if use_guidance {
        latents.duplicate_batch()
    } else {
        Ok(BatchTensor { batch: latents.batch, row: latents.row, data: copy_bits(&latents.data) })
    }
}

/// Applies classifier-free guidance to a noise prediction of batch size
/// `2 * batch`: the first `batch` elements are the unconditional prediction,
/// the last `batch` the conditional one, and scalar `k` of the result comes
/// from `f` on exactly that pair of scalars. The guidance arithmetic itself
/// (`uncond + scale * (cond - uncond)`) is floating point and lives in `f`,
/// outside this library; proved here is that it is fed precisely the paired
/// unconditional and conditional scalars, and nothing else.
pub fn apply_guidance<F: Fn(u32, u32) -> u32>(prediction: &BatchTensor, batch: usize, f: F) -> (r:
    BatchTensor)
    requires
        prediction.wf(),
        prediction.batch == 2 * batch,
        forall|x: u32, y: u32| #[trigger] call_requires(f, (x, y)),
    ensures
        r.wf(),
        r.batch == batch,
        r.row == prediction.row,
        r.data@.len() == batch * prediction.row,
        forall|k: int|
            0 <= k < r.data@.len() ==> call_ensures(
                f,
                (prediction.data@[k], prediction.data@[k + batch * prediction.row]),
                #[trigger] r.data@[k],
            ),
{
    let (uncond, cond) = prediction.split_batch(batch);
    let combined = uncond.combine_elementwise(&cond, f);
    proof {
        assert forall|k: int| 0 <= k < combined.data@.len() implies call_ensures(
            f,
            (prediction.data@[k], prediction.data@[k + batch * prediction.row]),
            #[trigger] combined.data@[k],
        ) by {
            assert(uncond.data@[k] == prediction.data@[k]);
            assert(cond.data@[k] == prediction.data@[k + batch * prediction.row]);
        }
    }
    combined
}

/// Law: when the guidance scale does not exceed one, guidance is off and
/// the denoiser input is the latent buffer unchanged: no duplication along
/// the batch axis ever happens. (`assemble_embeddings` states the matching
/// fact for embeddings: without guidance they pass through unchanged, with
/// no unconditional half in front.)
pub proof fn lemma_guidance_disabled_layout(scale: GuidanceScale, latents: Seq<u32>)
    requires
        !f32_bits_gt_one(scale.bits),
    ensures
        model_input_data(latents, f32_bits_gt_one(scale.bits)) == latents,
{
}

} // verus!
