//! A byte buffer cut into equally long steps, one step for each feature report.

use vstd::prelude::*;

verus! {

/// A struct that carries data for a keyboard.
///
/// A setting that takes several packets is kept as one array. `step_count` and
/// `step_len` say how the array is cut: step `n` is the `step_len` bytes that
/// start at `n * step_len`. The view of the buffer is the sequence of its steps.
/// Bytes of the array behind the last step belong to no step: they are the
/// tail, which is never handed out as a step.
#[derive(Clone, Debug)]
pub struct Steps<const DATA_LEN: usize> {
    pub data: [u8; DATA_LEN],
    pub step_count: usize,
    pub step_len: usize,
}

/// Where one byte lies in a [`Steps`] buffer.
#[derive(Clone, Copy, Debug)]
pub struct Indexes {
    /// The N'th step.
    pub step: usize,
    /// The N'th value in the N'th step.
    pub index: usize,
}

/// The bytes of a freshly made step: the starter bytes, then zeros.
pub open spec fn seeded_step(starter: Seq<u8>, step_len: nat) -> Seq<u8> {
    Seq::new(step_len, |i: int| if i < starter.len() { starter[i] } else { 0u8 })
}

/// The byte at `index` of step `step`, in a buffer cut into steps of `len` bytes.
spec fn byte_at(data: Seq<u8>, len: int, step: int, index: int) -> u8 {
    data[step * len + index]
}

/// Step `step` of a buffer of `count` steps of `len` bytes lies inside the buffer.
proof fn lemma_step_bounds(step: int, count: int, len: int)
    by (nonlinear_arith)
    requires
        0 <= step < count,
        0 <= len,
    ensures
        0 <= step * len,
        (step + 1) * len == step * len + len,
        (step + 1) * len <= count * len,
        len * step == step * len,
{
}

impl<const DATA_LEN: usize> View for Steps<DATA_LEN> {
    type V = Seq<Seq<u8>>;

    open spec fn view(&self) -> Seq<Seq<u8>> {
        Seq::new(self.step_count as nat, |step: int| self.step_bytes(step))
    }
}

impl<const DATA_LEN: usize> Steps<DATA_LEN> {
    /// The array holds the steps.
    pub open spec fn wf(&self) -> bool {
        self.step_count * self.step_len <= DATA_LEN
    }

    /// The steps fill the array: there is no tail.
    pub open spec fn fills(&self) -> bool {
        self.step_count * self.step_len == DATA_LEN
    }

    /// The bytes behind the last step, which belong to no step.
    pub open spec fn tail(&self) -> Seq<u8> {
        self.data@.subrange(self.step_count * self.step_len, DATA_LEN as int)
    }

    /// The bytes of step `step`.
    pub open spec fn step_bytes(&self, step: int) -> Seq<u8> {
        self.data@.subrange(step * self.step_len, (step + 1) * self.step_len)
    }

    /// `at` names a byte of this buffer.
    pub open spec fn holds(&self, at: Indexes) -> bool {
        at.step < self.step_count && at.index < self.step_len
    }

    /// The place in `data` of the byte that `at` names.
    pub open spec fn position(&self, at: Indexes) -> int {
        self.step_len * at.step + at.index
    }

    /// Whether the array holds the steps.
    pub fn is_wf(&self) -> (out: bool)
        ensures
            out == self.wf(),
    {
        match self.step_count.checked_mul(self.step_len) {
            Some(stepped) => stepped <= DATA_LEN,
            None => false,
        }
    }

    /// The first `n` steps, laid end to end, are the first `n * step_len` bytes.
    proof fn lemma_prefix_covered(&self, n: nat)
        requires
            self.wf(),
            n <= self.step_count,
        ensures
            0 <= n * self.step_len <= DATA_LEN,
            Seq::new(n, |step: int| self.step_bytes(step)).flatten() == self.data@.subrange(
                0,
                n * self.step_len,
            ),
        decreases n,
    {
        let parts = Seq::new(n, |step: int| self.step_bytes(step));
        if n == 0 {
            assert(n * self.step_len == 0) by (nonlinear_arith)
                requires
                    n == 0,
            ;
            assert(parts =~= Seq::<Seq<u8>>::empty());
            assert(parts.flatten() =~= self.data@.subrange(0, 0));
        } else {
            let fewer = Seq::new((n - 1) as nat, |step: int| self.step_bytes(step));
            self.lemma_prefix_covered((n - 1) as nat);
            lemma_step_bounds(n - 1, self.step_count as int, self.step_len as int);
            assert(n * self.step_len == (n - 1) * self.step_len + self.step_len)
                by (nonlinear_arith);
            assert(self.step_bytes(n - 1) == self.data@.subrange(
                (n - 1) * self.step_len,
                n * self.step_len,
            ));
            assert(parts =~= fewer.push(self.step_bytes(n - 1)));
            fewer.lemma_flatten_push(self.step_bytes(n - 1));
            assert(parts.flatten() =~= self.data@.subrange(0, n * self.step_len));
        }
    }

    /// The steps cover the buffer with no overlap and no gap: there are
    /// `step_count` of them, each is `step_len` bytes long, and laid end to end
    /// in their order, with the tail behind them, they are `data`. Where the
    /// steps fill the array they are `data` by themselves.
    pub proof fn lemma_steps_cover(&self)
        requires
            self.wf(),
        ensures
            self@.len() == self.step_count,
            forall|step: int|
                0 <= step < self.step_count ==> (#[trigger] self@[step]).len() == self.step_len,
            self@.flatten() == self.data@.subrange(0, self.step_count * self.step_len),
            self@.flatten() + self.tail() == self.data@,
            self.fills() ==> self@.flatten() == self.data@,
    {
        self.lemma_prefix_covered(self.step_count as nat);
        assert(self.data@.subrange(0, self.step_count * self.step_len) + self.tail()
            =~= self.data@);
        assert(self.fills() ==> self.data@.subrange(0, DATA_LEN as int) =~= self.data@);
        assert forall|step: int| 0 <= step < self.step_count implies (#[trigger] self@[step]).len()
            == self.step_len by {
            lemma_step_bounds(step, self.step_count as int, self.step_len as int);
        }
    }

    /// Two buffers with the same steps and the same tail hold the same bytes.
    pub proof fn lemma_same_steps(&self, other: &Self)
        requires
            self.wf(),
            other.wf(),
            self@ == other@,
            self.tail() == other.tail(),
        ensures
            self.data@ == other.data@,
    {
        self.lemma_steps_cover();
        other.lemma_steps_cover();
    }

    /// The byte that `at` names is the byte of `data` at `position(at)`, and no
    /// two names share a position.
    pub proof fn lemma_position(&self, at: Indexes)
        requires
            self.wf(),
            self.holds(at),
        ensures
            0 <= self.position(at) < DATA_LEN,
            self@[at.step as int][at.index as int] == self.data@[self.position(at)],
            forall|other: Indexes|
                self.holds(other) && #[trigger] self.position(other) == self.position(at) ==> other
                    == at,
    {
        lemma_step_bounds(at.step as int, self.step_count as int, self.step_len as int);
        assert forall|other: Indexes|
            self.holds(other) && #[trigger] self.position(other) == self.position(at) implies other
            == at by {
            lemma_step_bounds(other.step as int, self.step_count as int, self.step_len as int);
            if other.step < at.step {
                lemma_step_bounds(other.step as int, at.step as int, self.step_len as int);
            } else if at.step < other.step {
                lemma_step_bounds(at.step as int, other.step as int, self.step_len as int);
            }
        }
    }

    /// A zero-filled buffer of `step_count` steps, each `step_len` bytes long and
    /// starting with `starter_bytes`. The array has to hold the steps, and the
    /// starter bytes have to fit into a step. What the array holds behind the
    /// last step stays zero.
    pub fn new(step_count: usize, step_len: usize, starter_bytes: &[u8]) -> (out: Self)
        requires
            step_count * step_len <= DATA_LEN,
            starter_bytes@.len() <= step_len,
        ensures
            out.wf(),
            out.step_count == step_count,
            out.step_len == step_len,
            out@ == Seq::new(
                step_count as nat,
                |step: int| seeded_step(starter_bytes@, step_len as nat),
            ),
            out.tail() == Seq::new((DATA_LEN - step_count * step_len) as nat, |i: int| 0u8),
    {
        let mut data: [u8; DATA_LEN] = [0u8; DATA_LEN];
        assert(data == vstd::array::spec_array_fill_for_copy_type::<u8, DATA_LEN>(0u8));
        assert(forall|p: int| 0 <= p < DATA_LEN ==> data@[p] == 0u8);
        let starter_len = starter_bytes.len();
        let ghost seed = seeded_step(starter_bytes@, step_len as nat);
        let mut step: usize = 0;
        assert(step * step_len == 0) by (nonlinear_arith)
            requires
                step == 0,
        ;
        while step < step_count
            invariant
                step <= step_count,
                step_count * step_len <= DATA_LEN,
                starter_len == starter_bytes@.len(),
                starter_len <= step_len,
                seed == seeded_step(starter_bytes@, step_len as nat),
                forall|s: int, j: int|
                    0 <= s < step && 0 <= j < step_len ==> #[trigger] byte_at(
                        data@,
                        step_len as int,
                        s,
                        j,
                    ) == seed[j],
                forall|p: int| step * step_len <= p < DATA_LEN ==> data@[p] == 0u8,
            decreases step_count - step,
        {
            proof {
                lemma_step_bounds(step as int, step_count as int, step_len as int);
            }
            let base = step * step_len;
            let mut i: usize = 0;
            while i < starter_len
                invariant
                    i <= starter_len,
                    step < step_count,
                    base == step * step_len,
                    base + step_len <= DATA_LEN,
                    starter_len == starter_bytes@.len(),
                    starter_len <= step_len,
                    forall|s: int, j: int|
                        0 <= s < step && 0 <= j < step_len ==> #[trigger] byte_at(
                            data@,
                            step_len as int,
                            s,
                            j,
                        ) == seed[j],
                    forall|j: int| 0 <= j < i ==> data@[base + j] == starter_bytes@[j],
                    forall|p: int| base + i <= p < DATA_LEN ==> data@[p] == 0u8,
                decreases starter_len - i,
            {
                let ghost before = data@;
                data[base + i] = starter_bytes[i];
                proof {
                    assert forall|s: int, j: int| 0 <= s < step && 0 <= j < step_len implies #[trigger] byte_at(
                        data@,
                        step_len as int,
                        s,
                        j,
                    ) == seed[j] by {
                        lemma_step_bounds(s, step as int, step_len as int);
                        assert(byte_at(before, step_len as int, s, j) == seed[j]);
                    }
                }
                i += 1;
            }
            proof {
                assert forall|s: int, j: int| 0 <= s < step + 1 && 0 <= j < step_len implies #[trigger] byte_at(
                    data@,
                    step_len as int,
                    s,
                    j,
                ) == seed[j] by {
                    if s == step {
                        assert(data@[base + j] == seed[j]);
                    }
                }
            }
            step += 1;
        }
        let out = Self { data, step_count, step_len };
        proof {
            assert(out.tail() =~= Seq::new(
                (DATA_LEN - step_count * step_len) as nat,
                |i: int| 0u8,
            ));
            assert forall|s: int| 0 <= s < step_count implies #[trigger] out@[s] =~= seed by {
                lemma_step_bounds(s, step_count as int, step_len as int);
                assert forall|j: int| 0 <= j < step_len implies out@[s][j] == seed[j] by {
                    assert(byte_at(data@, step_len as int, s, j) == seed[j]);
                }
            }
        }
        out
    }

    /// Each step in turn, from the first to the last.
    pub fn steps(&self) -> (out: Vec<&[u8]>)
        requires
            self.wf(),
        ensures
            out@.len() == self.step_count,
            forall|step: int|
                0 <= step < self.step_count ==> (#[trigger] out@[step])@ == self@[step],
            forall|step: int|
                0 <= step < self.step_count ==> (#[trigger] out@[step])@.len() == self.step_len,
    {
        proof {
            self.lemma_steps_cover();
        }
        let mut out: Vec<&[u8]> = Vec::new();
        let mut step: usize = 0;
        while step < self.step_count
            invariant
                self.wf(),
                step <= self.step_count,
                out@.len() == step,
                forall|s: int| 0 <= s < step ==> (#[trigger] out@[s])@ == self@[s],
            decreases self.step_count - step,
        {
            out.push(self.nth_step(step));
            step += 1;
        }
        out
    }

    /// Each step in turn, from the first to the last, for writing: what is left
    /// in them, laid end to end, becomes the stepped part of the buffer, and the
    /// tail stays as it is.
    pub fn steps_mut(&mut self) -> (out: Vec<&mut [u8]>)
        requires
            old(self).wf(),
        ensures
            out@.len() == old(self).step_count,
            forall|step: int|
                0 <= step < old(self).step_count ==> out@[step]@ == old(self)@[step],
            forall|step: int|
                0 <= step < old(self).step_count ==> out@[step]@.len() == old(self).step_len,
            final(self).step_count == old(self).step_count,
            final(self).step_len == old(self).step_len,
            final(self).data@ == Seq::new(out@.len(), |i: int| final(out@[i])@).flatten() + old(
                self,
            ).tail(),
    {
        let count = self.step_count;
        let len = self.step_len;
        let ghost before = self.data@;
        let mut out: Vec<&mut [u8]> = Vec::new();
        let all: &mut [u8] = &mut self.data;
        let ghost whole = final(all)@;
        let mut rest: &mut [u8] = all;
        let mut step: usize = 0;
        assert(Seq::new(out@.len(), |i: int| final(out@[i])@) =~= Seq::<Seq<u8>>::empty());
        while step < count
            invariant
                step <= count,
                count * len <= DATA_LEN,
                before.len() == DATA_LEN,
                out@.len() == step,
                rest@ == before.subrange(step * len, DATA_LEN as int),
                forall|s: int|
                    0 <= s < step ==> out@[s]@ == before.subrange(s * len, (s + 1) * len),
                forall|s: int| 0 <= s < step ==> out@[s]@.len() == len,
                whole == Seq::new(out@.len(), |i: int| final(out@[i])@).flatten() + final(rest)@,
            decreases count - step,
        {
            proof {
                lemma_step_bounds(step as int, count as int, len as int);
            }
            let ghost parts = Seq::new(out@.len(), |i: int| final(out@[i])@);
            let (head, tail) = rest.split_at_mut(len);
            let ghost head_final = final(head)@;
            out.push(head);
            rest = tail;
            proof {
                assert(Seq::new(out@.len(), |i: int| final(out@[i])@) =~= parts.push(head_final));
                parts.lemma_flatten_push(head_final);
            }
            step += 1;
        }
        out
    }

    /// The N'th step in the steps, for writing: what is left in it becomes the
    /// N'th step of the buffer, and the other steps and the tail stay as they are.
    #[inline(always)]
    pub fn nth_step_mut(&mut self, index: usize) -> (out: &mut [u8])
        requires
            old(self).wf(),
            index < old(self).step_count,
        ensures
            out@ == old(self)@[index as int],
            final(out)@.len() == old(self).step_len,
            final(self).step_count == old(self).step_count,
            final(self).step_len == old(self).step_len,
            final(self)@ == old(self)@.update(index as int, final(out)@),
            final(self).tail() == old(self).tail(),
    {
        proof {
            lemma_step_bounds(index as int, self.step_count as int, self.step_len as int);
        }
        let from = self.step_len * index;
        let len = self.step_len;
        let ghost count = self.step_count;
        let ghost before = self.data@;
        let all: &mut [u8] = &mut self.data;
        let ghost after = final(all)@;
        let (_, rest) = all.split_at_mut(from);
        let (step, _) = rest.split_at_mut(len);
        proof {
            assert(after == before.subrange(0, from as int) + final(step)@ + before.subrange(
                from + len,
                DATA_LEN as int,
            ));
            assert(after.len() == DATA_LEN);
            assert forall|s: int| 0 <= s < count && s != index implies #[trigger] after.subrange(
                s * len,
                (s + 1) * len,
            ) =~= before.subrange(s * len, (s + 1) * len) by {
                lemma_step_bounds(s, count as int, len as int);
                if s < index {
                    lemma_step_bounds(s, index as int, len as int);
                } else {
                    lemma_step_bounds(index as int, s, len as int);
                }
            }
            assert(after.subrange(index * len, (index + 1) * len) =~= final(step)@);
            assert(after.subrange(count * len, DATA_LEN as int) =~= before.subrange(
                count * len,
                DATA_LEN as int,
            ));
        }
        step
    }

    /// Get the N'th step in the steps, which has to be one of them.
    #[inline(always)]
    pub fn nth_step(&self, index: usize) -> (out: &[u8])
        requires
            self.wf(),
            index < self.step_count,
        ensures
            out@ == self@[index as int],
    {
        proof {
            lemma_step_bounds(index as int, self.step_count as int, self.step_len as int);
        }
        let from = self.step_len * index;
        let to = from + self.step_len;
        vstd::slice::slice_subrange(self.data.as_slice(), from, to)
    }
}

impl<const DATA_LEN: usize> vstd::std_specs::core::IndexSpecImpl<Indexes> for Steps<DATA_LEN> {
    open spec fn index_req(&self, index: &Indexes) -> bool {
        self.wf() && self.holds(*index)
    }
}

impl<const DATA_LEN: usize> core::ops::Index<Indexes> for Steps<DATA_LEN> {
    type Output = u8;

    /// The byte that `index` names, which has to be a byte of the buffer.
    #[inline(always)]
    fn index(&self, index: Indexes) -> (out: &u8)
        ensures
            *out == self@[index.step as int][index.index as int],
    {
        proof {
            lemma_step_bounds(index.step as int, self.step_count as int, self.step_len as int);
        }
        &self.data[self.step_len * index.step + index.index]
    }
}

impl<const DATA_LEN: usize> core::ops::IndexMut<Indexes> for Steps<DATA_LEN> {
    /// The byte that `index` names, which has to be a byte of the buffer, for
    /// writing: what is left in it becomes that byte, and every other byte stays.
    #[inline(always)]
    fn index_mut(&mut self, index: Indexes) -> (out: &mut u8)
        requires
            old(self).wf(),
            old(self).holds(index),
        ensures
            *out == old(self)@[index.step as int][index.index as int],
            final(self).step_count == old(self).step_count,
            final(self).step_len == old(self).step_len,
            final(self).data@ == old(self).data@.update(old(self).position(index), *final(out)),
            final(self)@ == old(self)@.update(
                index.step as int,
                old(self)@[index.step as int].update(index.index as int, *final(out)),
            ),
    {
        proof {
            lemma_step_bounds(index.step as int, self.step_count as int, self.step_len as int);
        }
        let ghost before = self.data@;
        let ghost count = self.step_count;
        let ghost len = self.step_len;
        let place = self.step_len * index.step + index.index;
        let out = &mut self.data[place];
        proof {
            let after = before.update(place as int, *final(out));
            assert forall|s: int| 0 <= s < count && s != index.step implies #[trigger] after.subrange(
                s * len,
                (s + 1) * len,
            ) =~= before.subrange(s * len, (s + 1) * len) by {
                lemma_step_bounds(s, count as int, len as int);
                if s < index.step {
                    lemma_step_bounds(s, index.step as int, len as int);
                } else {
                    lemma_step_bounds(index.step as int, s, len as int);
                }
            }
            assert(after.subrange(index.step * len, (index.step + 1) * len) =~= before.subrange(
                index.step * len,
                (index.step + 1) * len,
            ).update(index.index as int, *final(out)));
        }
        out
    }
}

impl<const DATA_LEN: usize> core::ops::Deref for Steps<DATA_LEN> {
    type Target = [u8];

    /// The whole buffer.
    #[inline(always)]
    fn deref(&self) -> (out: &[u8])
        ensures
            out@ == self.data@,
    {
        &self.data
    }
}

impl<const DATA_LEN: usize> core::ops::DerefMut for Steps<DATA_LEN> {
    /// The whole buffer, for writing.
    #[inline(always)]
    fn deref_mut(&mut self) -> (out: &mut [u8])
        ensures
            out@ == old(self).data@,
            final(self).data@ == final(out)@,
            final(self).step_count == old(self).step_count,
            final(self).step_len == old(self).step_len,
    {
        &mut self.data
    }
}

impl Indexes {
    #[inline(always)]
    pub fn new(step: usize, index: usize) -> (out: Self)
        ensures
            out.step == step,
            out.index == index,
    {
        Self { step, index }
    }
}

/// Create an array of [`Indexes`] with the length of `LEN`: consecutive
/// positions of step `step`, the first of them at `first`. The last position
/// has to be a `usize`.
pub fn same_step_indexes<const LEN: usize>(step: usize, first: usize) -> (out: [Indexes; LEN])
    requires
        first + LEN <= usize::MAX + 1,
    ensures
        forall|i: int|
            0 <= i < LEN ==> (#[trigger] out[i]).step == step && out[i].index == first + i,
{
    let mut arr: [Indexes; LEN] = [Indexes::new(step, first); LEN];
    let mut i: usize = 0;
    while i < LEN
        invariant
            i <= LEN,
            first + LEN <= usize::MAX + 1,
            forall|j: int|
                0 <= j < i ==> (#[trigger] arr[j]).step == step && arr[j].index == first + j,
        decreases LEN - i,
    {
        arr[i] = Indexes::new(step, first + i);
        i += 1;
    }
    arr
}

} // verus!
