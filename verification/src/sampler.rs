use vstd::prelude::*;
use rand::Rng;
use crate::error::PipelineError;

verus! {

/// The latent tensor shape for one generation call: `batch` images, four
/// latent channels, and one latent cell per eight-by-eight pixel block.
#[derive(Clone, Copy, Debug, PartialEq, Eq, Structural)]
pub struct LatentDims {
    /// Number of images generated: the prompt's batch size.
    pub batch: usize,
    /// Latent channels; the denoiser works on four.
    pub channels: u32,
    /// Latent rows: the requested pixel height over eight.
    pub height: u32,
    /// Latent columns: the requested pixel width over eight.
    pub width: u32,
}

impl LatentDims {
    /// Plans the latent shape from the requested output size. Dimensions
    /// not divisible by eight are a validation error, raised before any
    /// model stage is loaded.
    pub fn plan(batch: usize, width: u32, height: u32) -> (r: Result<LatentDims, PipelineError>)
        requires
            batch >= 1,
        ensures
            r is Ok <==> (width % 8 == 0 && height % 8 == 0),
            r matches Ok(d) ==> d == (LatentDims {
                batch,
                channels: 4u32,
                height: height / 8,
                width: width / 8,
            }),
            r is Err ==> r == Err::<LatentDims, PipelineError>(PipelineError::ValidationError),
    {
        if width % 8 != 0 || height % 8 != 0 {
            return Err(PipelineError::ValidationError);
        }
        Ok(LatentDims { batch, channels: 4, height: height / 8, width: width / 8 })
    }

    /// Scalars per batch element: channels times latent rows times latent
    /// columns, or none when the product does not fit in a machine word.
    pub fn row_len(&self) -> (r: Option<usize>)
        ensures
            r matches Some(n) ==> n == self.channels * self.height * self.width,
            r is None ==> self.channels * self.height * self.width > usize::MAX,
    {
        let c = self.channels as u128;
        let h = self.height as u128;
        let w = self.width as u128;
        proof {
            assert(c * h < 0x1_0000_0000_0000_0000u128) by (nonlinear_arith)
                requires
                    c < 0x1_0000_0000u128,
                    h < 0x1_0000_0000u128,
            ;
            assert(c * h * w < 0x1_0000_0000_0000_0000_0000_0000u128) by (nonlinear_arith)
                requires
                    c * h < 0x1_0000_0000_0000_0000u128,
                    w < 0x1_0000_0000u128,
                    0 <= c * h,
            ;
        }
        let n: u128 = c * h * w;
        if n <= usize::MAX as u128 {
            Some(n as usize)
        } else {
            None
        }
    }
}

/// One progress-callback configuration: which payload the user asked for,
/// and how often to produce it. Exactly one variant is active per call,
/// which this sum type enforces structurally.
#[derive(Clone, Copy, Debug, PartialEq, Eq, Structural)]
pub enum CallbackKind {
    /// Step index and timestep only.
    Progress,
    /// The raw latents after the step.
    Latents,
    /// The latents decoded through the full decoder network.
    Decoded,
    /// The latents decoded through the fast linear approximation.
    ApproximateDecoded,
}

/// The active callback variant and its sampling frequency (invoke every
/// `frequency` steps).
#[derive(Clone, Copy, Debug, PartialEq, Eq, Structural)]
pub struct CallbackConfig {
    pub kind: CallbackKind,
    pub frequency: usize,
}

/// The fixed frame of one denoising loop: how many timesteps the scheduler
/// produced, how many steps the caller requested, and the scheduler's step
/// multiplicity (its order).
#[derive(Clone, Copy, Debug, PartialEq, Eq, Structural)]
pub struct LoopPlan {
    pub timestep_count: usize,
    pub steps: usize,
    pub order: usize,
}

/// Whether the callback gate is open at timestep index `i`: always on the
/// final timestep, and otherwise past the warm-up threshold
/// `timestep_count - steps * order` and on a multiple of the scheduler
/// order. The threshold may be negative, in which case it excludes nothing.
pub open spec fn gate_open(plan: LoopPlan, i: int) -> bool {
    ||| i == plan.timestep_count - 1
    ||| (i + 1 > plan.timestep_count - plan.steps * plan.order && (i + 1) % (
    plan.order as int) == 0)
}

/// Whether the active callback variant is due at timestep index `i`: on a
/// multiple of its frequency, and — for the two decoding variants — never at
/// the very first step, where the latents are still pure noise.
pub open spec fn variant_due(cb: CallbackConfig, i: int) -> bool {
    &&& i % (cb.frequency as int) == 0
    &&& ((cb.kind is Decoded || cb.kind is ApproximateDecoded) ==> i != 0)
}

/// Whether the callback fires at timestep index `i`.
pub open spec fn callback_fires(plan: LoopPlan, cb: CallbackConfig, i: int) -> bool {
    gate_open(plan, i) && variant_due(cb, i)
}

/// Decides whether to invoke the user's callback after timestep `i`. When
/// the callback is invoked and returns false, the loop stops and the
/// latents reached so far are decoded as the result.
pub fn should_invoke_callback(plan: &LoopPlan, cb: &CallbackConfig, i: usize) -> (r: bool)
    requires
        plan.order >= 1,
        cb.frequency >= 1,
        i < plan.timestep_count,
    ensures
        r == callback_fires(*plan, *cb, i as int),
{
    let remaining: usize = plan.timestep_count - (i + 1);
    let past_warmup = match plan.steps.checked_mul(plan.order) {
        Some(p) => p > remaining,
        None => true,
    };
    let gate = i == plan.timestep_count - 1 || (past_warmup && (i + 1) % plan.order == 0);
    if !gate {
        return false;
    }
    let due = i % cb.frequency == 0 && (match cb.kind {
        CallbackKind::Decoded | CallbackKind::ApproximateDecoded => i != 0,
        _ => true,
    });
    due
}

/// The seed actually used: the requested one when given. When none is
/// given, one is drawn once from the thread's nondeterministic generator;
/// rerunning with the seed it reports reproduces the draw.
pub fn resolve_seed(requested: Option<u64>) -> (r: u64)
    ensures
        requested matches Some(s) ==> r == s,
{
    match requested {
        Some(s) => s,
        None => random_seed(),
    }
}

/// Relies on rand::thread_rng and rand::Rng::gen: one nondeterministic
/// machine word from the thread-local generator. Nothing can be promised of
/// a random value.
#[verifier::external_body]
fn random_seed() -> u64 {
    rand::thread_rng().gen::<u64>()
}

/// How many timesteps a denoising loop executes when the user's callback
/// would answer as `answers` says, starting from index `i`: indices are
/// visited in order, and the loop ends after the first index at which the
/// callback fires and answers false, or after the last timestep.
pub open spec fn steps_executed_from(
    plan: LoopPlan,
    cb: CallbackConfig,
    answers: Seq<bool>,
    i: int,
) -> int
    decreases plan.timestep_count - i,
{
    if i < 0 || i >= plan.timestep_count {
        plan.timestep_count as int
    } else if callback_fires(plan, cb, i) && !answers[i] {
        i + 1
    } else {
        steps_executed_from(plan, cb, answers, i + 1)
    }
}

/// How many timesteps a whole denoising loop executes, given the callback's
/// answers.
pub open spec fn steps_executed(plan: LoopPlan, cb: CallbackConfig, answers: Seq<bool>) -> int {
    steps_executed_from(plan, cb, answers, 0)
}

/// Law: cancellation stops the loop at once. If the callback fires at step
/// `k` and answers false, and at every earlier step where it fired it
/// answered true, then exactly the steps up to and including `k` execute
/// and no step beyond `k` does; the latents the loop leaves behind are the
/// ones step `k` produced, and they are what gets decoded.
pub proof fn lemma_cancellation_stops_the_loop(
    plan: LoopPlan,
    cb: CallbackConfig,
    answers: Seq<bool>,
    k: int,
)
    requires
        answers.len() == plan.timestep_count,
        0 <= k < plan.timestep_count,
        callback_fires(plan, cb, k),
        !answers[k],
        forall|j: int| 0 <= j < k && #[trigger] callback_fires(plan, cb, j) ==> answers[j],
    ensures
        steps_executed(plan, cb, answers) == k + 1,
{
    lemma_cancellation_from(plan, cb, answers, 0, k);
}

/// Law: a callback that never answers false never shortens the loop: all
/// timesteps execute.
pub proof fn lemma_no_cancellation_runs_to_the_end(
    plan: LoopPlan,
    cb: CallbackConfig,
    answers: Seq<bool>,
)
    requires
        answers.len() == plan.timestep_count,
        forall|j: int|
            0 <= j < plan.timestep_count && #[trigger] callback_fires(plan, cb, j) ==> answers[j],
    ensures
        steps_executed(plan, cb, answers) == plan.timestep_count,
{
    lemma_runs_on_from(plan, cb, answers, 0);
}

proof fn lemma_cancellation_from(
    plan: LoopPlan,
    cb: CallbackConfig,
    answers: Seq<bool>,
    i: int,
    k: int,
)
    requires
        answers.len() == plan.timestep_count,
        0 <= i <= k < plan.timestep_count,
        callback_fires(plan, cb, k),
        !answers[k],
        forall|j: int| i <= j < k && #[trigger] callback_fires(plan, cb, j) ==> answers[j],
    ensures
        steps_executed_from(plan, cb, answers, i) == k + 1,
    decreases k - i,
{
    if i < k {
        lemma_cancellation_from(plan, cb, answers, i + 1, k);
    }
}

proof fn lemma_runs_on_from(plan: LoopPlan, cb: CallbackConfig, answers: Seq<bool>, i: int)
    requires
        answers.len() == plan.timestep_count,
        0 <= i,
        forall|j: int|
            i <= j < plan.timestep_count && #[trigger] callback_fires(plan, cb, j) ==> answers[j],
    ensures
        steps_executed_from(plan, cb, answers, i) == plan.timestep_count,
    decreases plan.timestep_count - i,
{
    if i < plan.timestep_count {
        lemma_runs_on_from(plan, cb, answers, i + 1);
    }
}

/// Law: the sampler's decisions are functions of their inputs alone. Two
/// generation calls with the same options agree on whether the callback
/// fires at every step; together with the exact contracts on the data
/// movements (`prepare_model_input`, `apply_guidance`,
/// `assemble_embeddings`) and on `resolve_seed`, a repeated call with the
/// same seed, prompt and step count hands the scheduler and the inference
/// engine bit-identical inputs at every step, so a deterministic scheduler
/// and engine reproduce the images exactly.
pub proof fn lemma_sampler_deterministic(
    plan1: LoopPlan,
    plan2: LoopPlan,
    cb1: CallbackConfig,
    cb2: CallbackConfig,
    i: int,
)
    requires
        plan1 == plan2,
        cb1 == cb2,
    ensures
        callback_fires(plan1, cb1, i) == callback_fires(plan2, cb2, i),
{
}

} // verus!
