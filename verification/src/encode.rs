use vstd::prelude::*;
use crate::error::PipelineError;
use crate::prompt::Prompt;
use crate::tensor::BatchTensor;

verus! {

/// The texts a prompt-encoding pass runs through the text encoder.
///
/// `conditional` carries the prompt batch itself. `unconditional` is present
/// exactly when classifier-free guidance is on: the resolved negative prompt
/// if one was supplied, a batch of empty texts otherwise. The embeddings of
/// the unconditional texts go before the conditional ones along the batch
/// axis (see `assemble_embeddings`).
pub struct EncodePlan {
    pub conditional: Prompt,
    pub unconditional: Option<Prompt>,
}

/// Whether a negative prompt of batch size `neg` can serve a prompt of
/// batch size `batch`: it matches directly, or it is a single text that is
/// broadcast to a larger batch.
pub open spec fn negative_batch_ok(batch: nat, neg: nat) -> bool {
    neg == batch || (neg == 1 && batch > 1)
}

/// Resolves a negative prompt against the prompt's batch size: kept as-is
/// when the sizes match, replicated when a single negative text faces a
/// larger batch, and a validation error on any other mismatch.
pub fn resolve_negative_prompt(batch: usize, negative: &Prompt) -> (r: Result<
    Prompt,
    PipelineError,
>)
    requires
        negative.wf(),
        batch >= 1,
    ensures
        r is Ok <==> negative_batch_ok(batch as nat, negative.spec_len()),
        r matches Ok(p) ==> {
            &&& p.wf()
            &&& p.spec_len() == batch
            &&& forall|i: int|
                0 <= i < batch ==> p.view_texts()[i] == (if negative.spec_len() == batch {
                    negative.view_texts()[i]
                } else {
                    negative.view_texts()[0]
                })
        },
        r is Err ==> r == Err::<Prompt, PipelineError>(PipelineError::ValidationError),
{
    let neg_len = negative.len();
    if batch > 1 && neg_len == 1 {
        Ok(Prompt::broadcast_single(negative.get(0), batch))
    } else if neg_len == batch {
        Ok(negative.duplicate())
    } else {
        Err(PipelineError::ValidationError)
    }
}

/// Plans the text-encoder inputs for one generation call: the conditional
/// batch is the prompt itself; an unconditional batch exists exactly when
/// guidance is on, and is the resolved negative prompt or, failing one, a
/// batch of empty texts. A negative prompt whose batch size can be neither
/// matched nor broadcast is a validation error.
pub fn plan_encode_inputs(prompt: &Prompt, use_guidance: bool, negative: Option<&Prompt>) -> (r:
    Result<EncodePlan, PipelineError>)
    requires
        prompt.wf(),
        negative matches Some(p) ==> p.wf(),
    ensures
        r is Ok <==> (negative matches Some(p) ==> negative_batch_ok(
            prompt.spec_len(),
            p.spec_len(),
        )),
        r matches Ok(plan) ==> {
            &&& plan.conditional.wf()
            &&& plan.conditional.spec_len() == prompt.spec_len()
            &&& plan.conditional.view_texts() == prompt.view_texts()
            &&& (plan.unconditional is Some <==> use_guidance)
            &&& plan.unconditional matches Some(u) ==> {
                &&& u.wf()
                &&& u.spec_len() == prompt.spec_len()
                &&& forall|i: int|
                    0 <= i < u.spec_len() ==> u.view_texts()[i] == (match negative {
                        Some(p) => if p.spec_len() == prompt.spec_len() {
                            p.view_texts()[i]
                        } else {
                            p.view_texts()[0]
                        },
                        None => Seq::<char>::empty(),
                    })
            }
        },
        r is Err ==> r == Err::<EncodePlan, PipelineError>(PipelineError::ValidationError),
{
    let batch = prompt.len();
    let resolved: Option<Prompt> = match negative {
        Some(p) => match resolve_negative_prompt(batch, p) {
            Ok(q) => Some(q),
            Err(e) => {
                return Err(e);
            },
        },
        None => None,
    };
    let unconditional: Option<Prompt> = if use_guidance {
        match resolved {
            Some(p) => Some(p),
            None => Some(Prompt::default_batched(batch)),
        }
    } else {
        None
    };
    Ok(EncodePlan { conditional: prompt.duplicate(), unconditional })
}

/// Lays the text embeddings out for the denoiser: under guidance, the
/// unconditional embeddings are concatenated before the conditional ones
/// along the batch axis; without guidance (or when the weighting routine
/// produced no unconditional embeddings) the conditional embeddings pass
/// through unchanged. Halves whose per-element layouts disagree, or whose
/// concatenation would not fit in memory, are a fatal inference error.
pub fn assemble_embeddings(cond: BatchTensor, uncond: Option<BatchTensor>, use_guidance: bool) -> (r:
    Result<BatchTensor, PipelineError>)
    requires
        cond.wf(),
        uncond matches Some(u) ==> u.wf(),
    ensures
        (!use_guidance || uncond is None) ==> r == Ok::<BatchTensor, PipelineError>(cond),
        use_guidance ==> (uncond matches Some(u) ==> {
            &&& (r is Ok <==> {
                &&& u.row == cond.row
                &&& u.batch + cond.batch <= usize::MAX
                &&& u.data@.len() + cond.data@.len() <= usize::MAX
            })
            &&& (r matches Ok(t) ==> {
                &&& t.wf()
                &&& t.batch == u.batch + cond.batch
                &&& t.row == cond.row
                &&& t.data@ == u.data@ + cond.data@
            })
        }),
        r is Err ==> r == Err::<BatchTensor, PipelineError>(PipelineError::InferenceError),
{
    if !use_guidance {
        return Ok(cond);
    }
    match uncond {
        Some(u) => u.concat_batch(&cond),
        None => Ok(cond),
    }
}

} // verus!
