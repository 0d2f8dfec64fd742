//! An accumulating sink for the dense rebuild: value/validity buffers that
//! grow by null runs and by contiguous copies out of a source array, and
//! freeze into a [`ValueArray`].

use vstd::prelude::*;

use crate::values::ValueArray;

verus! {

/// A growing result array.  Unlike [`ValueArray`] the validity bitmap is
/// always materialised, since nulls are appended explicitly.
#[derive(Debug)]
pub struct ArrayBuilder {
    pub values: Vec<u64>,
    pub validity: Vec<bool>,
}

impl ArrayBuilder {
    pub open spec fn wf(self) -> bool {
        self.validity@.len() == self.values@.len()
    }

    pub fn new() -> (b: ArrayBuilder)
        ensures
            b.wf(),
            b@.len() == 0,
    {
        ArrayBuilder { values: Vec::new(), validity: Vec::new() }
    }

    pub fn len(&self) -> (n: usize)
        ensures
            n == self@.len(),
    {
        self.values.len()
    }

    /// Appends `n` null slots.
    pub fn extend_nulls(&mut self, n: usize)
        requires
            old(self).wf(),
            old(self)@.len() + n <= usize::MAX,
        ensures
            final(self).wf(),
            final(self)@ == old(self)@ + Seq::new(n as nat, |i: int| Option::<u64>::None),
    {
        let ghost base = self@;
        proof {
            assert(self@ =~= base + Seq::new(0nat, |k: int| Option::<u64>::None));
        }
        let mut i: usize = 0;
        while i < n
            invariant
                self.wf(),
                i <= n,
                self@ == base + Seq::new(i as nat, |k: int| Option::<u64>::None),
                base == old(self)@,
            decreases n - i,
        {
            let ghost prev = *self;
            self.values.push(0);
            self.validity.push(false);
            proof {
                assert(prev@ == base + Seq::new(i as nat, |k: int| Option::<u64>::None));
                let target = base + Seq::new((i + 1) as nat, |k: int| Option::<u64>::None);
                assert(self@.len() == prev@.len() + 1);
                assert(target.len() == prev@.len() + 1);
                assert forall|k: int| 0 <= k < self@.len() implies self@[k] == target[k] by {
                    if k < prev.values@.len() {
                        assert(self@[k] == prev@[k]);
                    } else {
                        assert(self.validity@[k] == false);
                    }
                }
                assert(self@ =~= target);
            }
            i = i + 1;
        }
    }

    /// Appends the elements `[start, end)` of `src`, values and validity
    /// both.
    pub fn extend_from(&mut self, src: &ValueArray, start: usize, end: usize)
        requires
            old(self).wf(),
            src.wf(),
            start <= end,
            end <= src@.len(),
            old(self)@.len() + (end - start) <= usize::MAX,
        ensures
            final(self).wf(),
            final(self)@ == old(self)@ + src@.subrange(start as int, end as int),
    {
        let ghost base = self@;
        proof {
            assert(self@ =~= base + src@.subrange(start as int, start as int));
        }
        let mut i: usize = start;
        while i < end
            invariant
                self.wf(),
                src.wf(),
                start <= i <= end,
                end <= src.values.len(),
                self@ == base + src@.subrange(start as int, i as int),
                base == old(self)@,
            decreases end - i,
        {
            let ghost prev = *self;
            self.values.push(src.values[i]);
            match &src.validity {
                Option::None => self.validity.push(true),
                Option::Some(v) => self.validity.push(v[i]),
            }
            proof {
                assert(prev@ == base + src@.subrange(start as int, i as int));
                let target = base + src@.subrange(start as int, i + 1 as int);
                assert(self@.len() == prev@.len() + 1);
                assert(target.len() == prev@.len() + 1);
                assert(self.validity@[prev.values@.len() as int] == src.valid_at(i as int));
                assert(self.values@[prev.values@.len() as int] == src.values@[i as int]);
                assert forall|k: int| 0 <= k < self@.len() implies self@[k] == target[k] by {
                    if k < prev.values@.len() {
                        assert(self@[k] == prev@[k]);
                        assert(prev@[k] == target[k]);
                    } else {
                        assert(self@[k] == src@[i as int]);
                        assert(target[k] == src@[i as int]);
                    }
                }
                assert(self@ =~= target);
            }
            i = i + 1;
        }
    }

    /// The finished array.
    pub fn freeze(self) -> (r: ValueArray)
        requires
            self.wf(),
        ensures
            r.wf(),
            r@ == self@,
    {
        let r = ValueArray { values: self.values, validity: Option::Some(self.validity) };
        proof {
            assert(r@ =~= self@);
        }
        r
    }
}

impl View for ArrayBuilder {
    type V = Seq<Option<u64>>;

    open spec fn view(&self) -> Seq<Option<u64>> {
        Seq::new(
            self.values@.len(),
            |i: int|
                if self.validity@[i] {
                    Option::Some(self.values@[i])
                } else {
                    Option::None
                },
        )
    }
}

} // verus!
