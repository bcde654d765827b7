use vstd::prelude::*;
use crate::error::PipelineError;

verus! {

/// An ordered batch of text prompts. The batch size is the number of texts,
/// and a prompt is never empty: a generation call always has at least one
/// text to condition on.
pub struct Prompt {
    texts: Vec<String>,
}

impl Prompt {
    /// The batch as a sequence of character sequences.
    pub closed spec fn view_texts(self) -> Seq<Seq<char>> {
        self.texts@.map_values(|s: String| s@)
    }

    /// The batch size.
    pub open spec fn spec_len(self) -> nat {
        self.view_texts().len()
    }

    /// Well-formed: the batch holds at least one text.
    pub open spec fn wf(self) -> bool {
        self.spec_len() >= 1
    }

    /// Promotes a single text to a batch of size one.
    pub fn from_text(text: String) -> (r: Prompt)
        ensures
            r.wf(),
            r.spec_len() == 1,
            r.view_texts() == seq![text@],
    {
        let mut texts: Vec<String> = Vec::new();
        texts.push(text);
        let r = Prompt { texts };
        proof {
            assert(r.view_texts() =~= seq![text@]);
        }
        r
    }

    /// Wraps a batch of texts; an empty batch is rejected, since a prompt
    /// is never empty.
    pub fn from_texts(texts: Vec<String>) -> (r: Result<Prompt, PipelineError>)
        ensures
            r is Ok <==> texts@.len() >= 1,
            r matches Ok(p) ==> {
                &&& p.wf()
                &&& p.view_texts() == texts@.map_values(|s: String| s@)
            },
            r is Err ==> r == Err::<Prompt, PipelineError>(PipelineError::ValidationError),
    {
        if texts.len() >= 1 {
            Ok(Prompt { texts })
        } else {
            Err(PipelineError::ValidationError)
        }
    }

    /// A batch of `n` copies of one text: how a single negative prompt is
    /// broadcast to a larger prompt batch (replicated, not interpolated).
    pub fn broadcast_single(text: &String, n: usize) -> (r: Prompt)
        requires
            n >= 1,
        ensures
            r.wf(),
            r.spec_len() == n,
            forall|i: int| 0 <= i < n ==> r.view_texts()[i] == text@,
    {
        let mut texts: Vec<String> = Vec::new();
        let mut k: usize = 0;
        while k < n
            invariant
                k <= n,
                texts@.len() == k,
                forall|i: int| 0 <= i < k ==> texts@[i]@ == text@,
            decreases n - k,
        {
            texts.push(text.clone());
            k += 1;
        }
        Prompt { texts }
    }

    /// A batch of `n` empty texts: the unconditional input substituted when
    /// guidance is requested and no negative prompt is supplied.
    pub fn default_batched(n: usize) -> (r: Prompt)
        requires
            n >= 1,
        ensures
            r.wf(),
            r.spec_len() == n,
            forall|i: int| 0 <= i < n ==> r.view_texts()[i] == Seq::<char>::empty(),
    {
        let mut texts: Vec<String> = Vec::new();
        let mut k: usize = 0;
        while k < n
            invariant
                k <= n,
                texts@.len() == k,
                forall|i: int| 0 <= i < k ==> texts@[i]@ == Seq::<char>::empty(),
            decreases n - k,
        {
            texts.push(String::new());
            k += 1;
        }
        Prompt { texts }
    }

    /// The batch size.
    pub fn len(&self) -> (r: usize)
        ensures
            r == self.spec_len(),
    {
        self.texts.len()
    }

    /// The text at `i`.
    pub fn get(&self, i: usize) -> (r: &String)
        requires
            i < self.spec_len(),
        ensures
            r@ == self.view_texts()[i as int],
    {
        &self.texts[i]
    }

    /// A fresh prompt with the same texts.
    pub fn duplicate(&self) -> (r: Prompt)
        ensures
            r.spec_len() == self.spec_len(),
            r.view_texts() == self.view_texts(),
    {
        let mut texts: Vec<String> = Vec::new();
        let mut k: usize = 0;
        while k < self.texts.len()
            invariant
                k <= self.texts@.len(),
                texts@ == self.texts@.subrange(0, k as int),
            decreases self.texts@.len() - k,
        {
            texts.push(self.texts[k].clone());
            k += 1;
            proof {
                assert(texts@ =~= self.texts@.subrange(0, k as int));
            }
        }
        proof {
            assert(self.texts@.subrange(0, self.texts@.len() as int) =~= self.texts@);
        }
        Prompt { texts }
    }
}

} // verus!
