//! The model of a child array: a value buffer plus an optional validity
//! bitmap.  An element is null when the bitmap is present and false at its
//! position; an absent bitmap means every element is valid.

use vstd::prelude::*;

verus! {

/// One child array of a union column: a buffer of values and an optional
/// validity bitmap.  The logical content is the view: a sequence of
/// `Option<u64>`, `None` standing for a null element.
#[derive(Debug)]
pub struct ValueArray {
    pub values: Vec<u64>,
    pub validity: Option<Vec<bool>>,
}

impl ValueArray {
    /// The validity bitmap, when present, covers every value.
    pub open spec fn wf(self) -> bool {
        match self.validity {
            Option::None => true,
            Option::Some(v) => v@.len() == self.values@.len(),
        }
    }

    /// Whether the element at `i` is valid (non-null).
    pub open spec fn valid_at(self, i: int) -> bool {
        match self.validity {
            Option::None => true,
            Option::Some(v) => v@[i],
        }
    }

    /// The validity bitmap as a mathematical value.
    pub open spec fn validity_view(self) -> Option<Seq<bool>> {
        match self.validity {
            Option::None => Option::None,
            Option::Some(v) => Option::Some(v@),
        }
    }

    pub fn len(&self) -> (n: usize)
        ensures
            n == self@.len(),
    {
        self.values.len()
    }

    /// The element at `i`: its value, or `None` when it is null there.
    pub fn get(&self, i: usize) -> (r: Option<u64>)
        requires
            self.wf(),
            i < self@.len(),
        ensures
            r == self@[i as int],
    {
        match &self.validity {
            Option::None => Option::Some(self.values[i]),
            Option::Some(v) => {
                if v[i] {
                    Option::Some(self.values[i])
                } else {
                    Option::None
                }
            },
        }
    }

    /// An array of plain values, every element valid.
    pub fn from_values(values: Vec<u64>) -> (r: ValueArray)
        ensures
            r.wf(),
            r.values@ == values@,
            r.validity_view() is None,
            r@.len() == values@.len(),
            forall|i: int| 0 <= i < values@.len() ==> r@[i] == Option::Some(values@[i]),
    {
        ValueArray { values, validity: Option::None }
    }

    /// Pairs a value buffer with a validity bitmap, refusing mismatched
    /// lengths.
    pub fn try_new(values: Vec<u64>, validity: Option<Vec<bool>>) -> (r: Option<ValueArray>)
        ensures
            match r {
                Option::Some(a) => {
                    &&& a.wf()
                    &&& a.values@ == values@
                    &&& a.validity_view() == (match validity {
                        Option::None => Option::<Seq<bool>>::None,
                        Option::Some(v) => Option::Some(v@),
                    })
                },
                Option::None => (match validity {
                    Option::None => false,
                    Option::Some(v) => v@.len() != values@.len(),
                }),
            },
    {
        match validity {
            Option::None => Option::Some(ValueArray { values, validity: Option::None }),
            Option::Some(v) => {
                if v.len() == values.len() {
                    Option::Some(ValueArray { values, validity: Option::Some(v) })
                } else {
                    Option::None
                }
            },
        }
    }

    /// A fresh all-null array of length `n`.
    pub fn new_null(n: usize) -> (r: ValueArray)
        ensures
            r.wf(),
            r@.len() == n,
            forall|i: int| 0 <= i < n ==> r@[i] is None,
    {
        let values: Vec<u64> = vec![0u64; n];
        let validity: Vec<bool> = vec![false; n];
        let r = ValueArray { values, validity: Option::Some(validity) };
        proof {
            assert forall|i: int| 0 <= i < n implies r@[i] is None by {}
        }
        r
    }

    /// A fresh zero-length array.
    pub fn new_empty() -> (r: ValueArray)
        ensures
            r.wf(),
            r@.len() == 0,
    {
        ValueArray { values: Vec::new(), validity: Option::None }
    }

    /// A zero-copy-style slice: the elements of `[start, start + count)`.
    pub fn slice_range(&self, start: usize, count: usize) -> (r: ValueArray)
        requires
            self.wf(),
            start + count <= self@.len(),
        ensures
            r.wf(),
            r@ == self@.subrange(start as int, start as int + count as int),
    {
        let mut values: Vec<u64> = Vec::new();
        let mut validity: Vec<bool> = Vec::new();
        let mut i: usize = 0;
        while i < count
            invariant
                self.wf(),
                start + count <= self.values.len(),
                i <= count,
                values@.len() == i,
                validity@.len() == i,
                forall|k: int| 0 <= k < i ==> values@[k] == self.values@[start + k],
                forall|k: int| 0 <= k < i ==> validity@[k] == self.valid_at(start + k),
            decreases count - i,
        {
            values.push(self.values[start + i]);
            match &self.validity {
                Option::None => validity.push(true),
                Option::Some(v) => validity.push(v[start + i]),
            }
            i = i + 1;
        }
        let r = ValueArray { values, validity: Option::Some(validity) };
        proof {
            assert(r@ =~= self@.subrange(start as int, start as int + count as int));
        }
        r
    }

    /// Gather: the elements of this array at `indices`, in order.
    pub fn take_at(&self, indices: &Vec<usize>) -> (r: ValueArray)
        requires
            self.wf(),
            forall|i: int| 0 <= i < indices@.len() ==> indices@[i] < self@.len(),
        ensures
            r.wf(),
            r@.len() == indices@.len(),
            forall|i: int| 0 <= i < indices@.len() ==> r@[i] == self@[indices@[i] as int],
    {
        let mut values: Vec<u64> = Vec::new();
        let mut validity: Vec<bool> = Vec::new();
        let n: usize = indices.len();
        let mut i: usize = 0;
        while i < n
            invariant
                self.wf(),
                n == indices@.len(),
                forall|k: int| 0 <= k < n ==> indices@[k] < self@.len(),
                i <= n,
                values@.len() == i,
                validity@.len() == i,
                forall|k: int| 0 <= k < i ==> values@[k] == self.values@[indices@[k] as int],
                forall|k: int| 0 <= k < i ==> validity@[k] == self.valid_at(indices@[k] as int),
            decreases n - i,
        {
            let j: usize = indices[i];
            values.push(self.values[j]);
            match &self.validity {
                Option::None => validity.push(true),
                Option::Some(v) => validity.push(v[j]),
            }
            i = i + 1;
        }
        let r = ValueArray { values, validity: Option::Some(validity) };
        proof {
            assert forall|k: int| 0 <= k < indices@.len() implies r@[k] == self@[indices@[k] as int]
            by {}
        }
        r
    }

    /// Whether every element is null.
    pub fn all_null(&self) -> (b: bool)
        requires
            self.wf(),
        ensures
            b <==> (forall|i: int| 0 <= i < self@.len() ==> self@[i] is None),
    {
        match &self.validity {
            Option::None => {
                let e = self.values.len() == 0;
                proof {
                    if !e {
                        assert(self@[0] is Some);
                    }
                }
                e
            },
            Option::Some(v) => {
                let n: usize = v.len();
                let mut i: usize = 0;
                while i < n
                    invariant
                        self.wf(),
                        self.validity_view() == Option::Some(v@),
                        n == self@.len(),
                        i <= n,
                        forall|k: int| 0 <= k < i ==> self@[k] is None,
                    decreases n - i,
                {
                    if v[i] {
                        proof {
                            assert(self@[i as int] is Some);
                        }
                        return false;
                    }
                    i = i + 1;
                }
                true
            },
        }
    }
}

impl View for ValueArray {
    type V = Seq<Option<u64>>;

    open spec fn view(&self) -> Seq<Option<u64>> {
        Seq::new(
            self.values@.len(),
            |i: int|
                if self.valid_at(i) {
                    Option::Some(self.values@[i])
                } else {
                    Option::None
                },
        )
    }
}

impl Clone for ValueArray {
    /// A metadata-level copy: the same values and the same validity.
    fn clone(&self) -> (r: Self)
        ensures
            r.values@ == self.values@,
            r.validity_view() == self.validity_view(),
            r@ == self@,
            r.wf() == self.wf(),
    {
        let values: Vec<u64> = self.values.clone();
        let validity: Option<Vec<bool>> = match &self.validity {
            Option::None => Option::None,
            Option::Some(v) => Option::Some(v.clone()),
        };
        proof {
            assert(values@ =~= self.values@);
            match (&validity, &self.validity) {
                (Option::Some(v), Option::Some(w)) => {
                    assert(v@ =~= w@);
                },
                _ => {},
            }
        }
        let r = ValueArray { values, validity };
        proof {
            assert(r@ =~= self@);
        }
        r
    }
}

} // verus!
