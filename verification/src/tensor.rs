use vstd::prelude::*;
use vstd::arithmetic::mul::{lemma_mul_inequality, lemma_mul_is_distributive_add_other_way};
use crate::error::PipelineError;

verus! {

/// A dense tensor, carried as the raw bit patterns of its scalars.
///
/// The inference engine works on floating-point tensors; this library never
/// computes on the scalars, it only validates shapes and moves data. Each
/// scalar is therefore held as its 32-bit pattern, which makes every data
/// movement a statement about integers that can be proved exactly.
///
/// `data` is batch-major: the scalars of batch element `b` are the `row`
/// entries starting at `b * row`. All axes after the leading (batch) axis
/// are flattened into `row`; where a function needs the finer layout (the
/// decoder's channel/height/width split) it takes those extents as
/// arguments.
pub struct BatchTensor {
    /// Extent of the leading (batch) axis.
    pub batch: usize,
    /// Number of scalars per batch element: the product of all other axes.
    pub row: usize,
    /// Scalar bit patterns, batch-major.
    pub data: Vec<u32>,
}

impl BatchTensor {
    /// Well-formed: the buffer holds exactly one row of scalars per batch
    /// element.
    pub open spec fn wf(self) -> bool {
        self.data@.len() == self.batch * self.row
    }

    /// Wraps a scalar buffer as a tensor of the given shape. This is the
    /// shape check applied to every buffer that comes back from the
    /// inference engine: a buffer whose length does not match the declared
    /// shape is a fatal inference error.
    pub fn from_data(batch: usize, row: usize, data: Vec<u32>) -> (r: Result<
        BatchTensor,
        PipelineError,
    >)
        ensures
            r is Ok <==> data@.len() == batch * row,
            r matches Ok(t) ==> t == (BatchTensor { batch, row, data }),
            r is Err ==> r == Err::<BatchTensor, PipelineError>(PipelineError::InferenceError),
    {
        let len = data.len();
        match batch.checked_mul(row) {
            Some(n) => {
                if len == n {
                    Ok(BatchTensor { batch, row, data })
                } else {
                    Err(PipelineError::InferenceError)
                }
            },
            None => Err(PipelineError::InferenceError),
        }
    }

    /// The tensor made of this tensor's batch followed by `other`'s, in
    /// order: the concatenation along the batch axis.
    pub fn concat_batch(&self, other: &BatchTensor) -> (r: Result<BatchTensor, PipelineError>)
        requires
            self.wf(),
            other.wf(),
        ensures
            r is Ok <==> {
                &&& self.row == other.row
                &&& self.batch + other.batch <= usize::MAX
                &&& self.data@.len() + other.data@.len() <= usize::MAX
            },
            r matches Ok(t) ==> {
                &&& t.wf()
                &&& t.batch == self.batch + other.batch
                &&& t.row == self.row
                &&& t.data@ == self.data@ + other.data@
            },
            r is Err ==> r == Err::<BatchTensor, PipelineError>(PipelineError::InferenceError),
    {
        if self.row != other.row {
            return Err(PipelineError::InferenceError);
        }
        let batch = match self.batch.checked_add(other.batch) {
            Some(b) => b,
            None => {
                return Err(PipelineError::InferenceError);
            },
        };
        if other.data.len() > usize::MAX - self.data.len() {
            return Err(PipelineError::InferenceError);
        }
        let mut data = copy_bits(&self.data);
        proof {
            assert(data@ =~= self.data@ + other.data@.subrange(0, 0));
        }
        let mut i: usize = 0;
        while i < other.data.len()
            invariant
                i <= other.data@.len(),
                data@ == self.data@ + other.data@.subrange(0, i as int),
                self.data@.len() + other.data@.len() <= usize::MAX,
            decreases other.data@.len() - i,
        {
            data.push(other.data[i]);
            i += 1;
            proof {
                assert(data@ =~= self.data@ + other.data@.subrange(0, i as int));
            }
        }
        proof {
            assert(other.data@.subrange(0, other.data@.len() as int) =~= other.data@);
            lemma_mul_is_distributive_add_other_way(
                self.row as int,
                self.batch as int,
                other.batch as int,
            );
        }
        Ok(BatchTensor { batch, row: self.row, data })
    }

    /// Two copies of this tensor stacked along the batch axis, the model
    /// input layout that classifier-free guidance asks for.
    pub fn duplicate_batch(&self) -> (r: Result<BatchTensor, PipelineError>)
        requires
            self.wf(),
        ensures
            r is Ok <==> {
                &&& 2 * self.batch <= usize::MAX
                &&& 2 * self.data@.len() <= usize::MAX
            },
            r matches Ok(t) ==> {
                &&& t.wf()
                &&& t.batch == 2 * self.batch
                &&& t.row == self.row
                &&& t.data@ == self.data@ + self.data@
            },
            r is Err ==> r == Err::<BatchTensor, PipelineError>(PipelineError::InferenceError),
    {
        self.concat_batch(self)
    }

    /// The batch element at index `sample`, as a tensor of batch size one.
    /// Decoding runs the network once per batch element, so the loop around
    /// it extracts each sample in turn.
    pub fn extract_sample(&self, sample: usize) -> (r: BatchTensor)
        requires
            self.wf(),
            sample < self.batch,
        ensures
            r.wf(),
            r.batch == 1,
            r.row == self.row,
            r.data@ == self.data@.subrange(sample * self.row, sample * self.row + self.row),
    {
        // Pins the buffer length to a machine word for the index bounds below.
        let _len = self.data.len();
        proof {
            lemma_mul_is_distributive_add_other_way(self.row as int, sample as int, 1);
            lemma_mul_inequality(sample as int + 1, self.batch as int, self.row as int);
        }
        let start: usize = sample * self.row;
        let mut data: Vec<u32> = Vec::new();
        proof {
            assert(data@ =~= self.data@.subrange(start as int, start as int));
        }
        let mut k: usize = 0;
        while k < self.row
            invariant
                k <= self.row,
                start == sample * self.row,
                start + self.row <= self.data@.len(),
                self.data@.len() <= usize::MAX,
                data@ == self.data@.subrange(start as int, start + k),
            decreases self.row - k,
        {
            data.push(self.data[start + k]);
            k += 1;
            proof {
                assert(data@ =~= self.data@.subrange(start as int, start + k));
            }
        }
        BatchTensor { batch: 1, row: self.row, data }
    }

    /// The first `half` and last `half` batch elements of a tensor of batch
    /// size `2 * half`: under guidance, the unconditional and conditional
    /// halves of the denoiser's output, in that order.
    pub fn split_batch(&self, half: usize) -> (r: (BatchTensor, BatchTensor))
        requires
            self.wf(),
            self.batch == 2 * half,
        ensures
            r.0.wf(),
            r.1.wf(),
            r.0.batch == half,
            r.1.batch == half,
            r.0.row == self.row,
            r.1.row == self.row,
            r.0.data@ == self.data@.subrange(0, half * self.row),
            r.1.data@ == self.data@.subrange(half * self.row, self.data@.len() as int),
            self.data@ == r.0.data@ + r.1.data@,
    {
        // Pins the buffer length to a machine word for the index bounds below.
        let _len = self.data.len();
        proof {
            lemma_mul_is_distributive_add_other_way(self.row as int, half as int, half as int);
        }
        let mid: usize = half * self.row;
        let mut front: Vec<u32> = Vec::new();
        proof {
            assert(front@ =~= self.data@.subrange(0, 0));
        }
        let mut k: usize = 0;
        while k < mid
            invariant
                k <= mid,
                mid <= self.data@.len(),
                front@ == self.data@.subrange(0, k as int),
            decreases mid - k,
        {
            front.push(self.data[k]);
            k += 1;
            proof {
                assert(front@ =~= self.data@.subrange(0, k as int));
            }
        }
        let mut back: Vec<u32> = Vec::new();
        proof {
            assert(back@ =~= self.data@.subrange(mid as int, mid as int));
        }
        let mut j: usize = mid;
        while j < self.data.len()
            invariant
                mid <= j <= self.data@.len(),
                back@ == self.data@.subrange(mid as int, j as int),
            decreases self.data@.len() - j,
        {
            back.push(self.data[j]);
            j += 1;
            proof {
                assert(back@ =~= self.data@.subrange(mid as int, j as int));
            }
        }
        proof {
            assert(self.data@ =~= self.data@.subrange(0, mid as int) + self.data@.subrange(
                mid as int,
                self.data@.len() as int,
            ));
        }
        (
            BatchTensor { batch: half, row: self.row, data: front },
            BatchTensor { batch: half, row: self.row, data: back },
        )
    }

    /// The elementwise combination of two tensors of the same shape: scalar
    /// `k` of the result is `f` applied to scalar `k` of `self` and scalar
    /// `k` of `other`. The arithmetic itself lives in `f`, outside this
    /// library; here it is proved that exactly the corresponding scalars are
    /// paired.
    pub fn combine_elementwise<F: Fn(u32, u32) -> u32>(&self, other: &BatchTensor, f: F) -> (r:
        BatchTensor)
        requires
            self.wf(),
            other.wf(),
            self.batch == other.batch,
            self.row == other.row,
            forall|x: u32, y: u32| #[trigger] call_requires(f, (x, y)),
        ensures
            r.wf(),
            r.batch == self.batch,
            r.row == self.row,
            r.data@.len() == self.data@.len(),
            forall|k: int|
                0 <= k < self.data@.len() ==> call_ensures(
                    f,
                    (self.data@[k], other.data@[k]),
                    #[trigger] r.data@[k],
                ),
    {
        let mut data: Vec<u32> = Vec::new();
        let mut k: usize = 0;
        while k < self.data.len()
            invariant
                k <= self.data@.len(),
                self.data@.len() == other.data@.len(),
                data@.len() == k,
                forall|x: u32, y: u32| #[trigger] call_requires(f, (x, y)),
                forall|j: int|
                    0 <= j < k ==> call_ensures(f, (self.data@[j], other.data@[j]), #[trigger] data@[j]),
            decreases self.data@.len() - k,
        {
            data.push(f(self.data[k], other.data[k]));
            k += 1;
        }
        BatchTensor { batch: self.batch, row: self.row, data }
    }
}

/// A fresh buffer with the same scalar bits.
pub(crate) fn copy_bits(v: &Vec<u32>) -> (r: Vec<u32>)
    ensures
        r@ == v@,
{
    let mut r: Vec<u32> = Vec::new();
    let mut i: usize = 0;
    while i < v.len()
        invariant
            i <= v@.len(),
            r@ == v@.subrange(0, i as int),
        decreases v@.len() - i,
    {
        r.push(v[i]);
        i += 1;
        proof {
            assert(r@ =~= v@.subrange(0, i as int));
        }
    }
    proof {
        assert(v@.subrange(0, v@.len() as int) =~= v@);
    }
    r
}

} // verus!
