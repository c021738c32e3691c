use vstd::prelude::*;

use crate::value::Value;
use crate::value::clone_value;
use crate::value::value_view;
use crate::value::value_views;
use crate::value::lemma_value_views;

verus! {

broadcast use vstd::std_specs::vec::group_vec_axioms, vstd::seq::group_seq_axioms;

/// The structured view over one native call: the ordered argument
/// values, the receiver, a writable return-value slot, and whether the
/// call is a constructor invocation. The argument count is fixed at
/// construction; access beyond it yields "absent", never an error. No
/// conversion logic lives here — every accessor hands back an engine
/// value that the caller feeds into the conversion protocol.
#[derive(Debug)]
pub struct Arguments {
    pub values: Vec<Value>,
    pub this: Value,
    pub rval: Value,
    pub constructing: bool,
}

impl Arguments {
    /// Creates new [`Arguments`] from the values of a call record. The
    /// return-value slot starts out undefined.
    pub fn new(values: Vec<Value>, this: Value, constructing: bool) -> (a: Arguments)
        ensures
            a.values == values,
            a.this == this,
            a.rval is Undefined,
            a.constructing == constructing,
    {
        Arguments { values, this, rval: Value::Undefined, constructing }
    }

    /// The number of arguments passed to the function.
    pub fn len(&self) -> (n: usize)
        ensures
            n == self.values@.len(),
    {
        self.values.len()
    }

    /// The value at the given index, or "absent" where the index is
    /// at or beyond the argument count.
    pub fn value(&self, index: usize) -> (r: Option<Value>)
        ensures
            match r {
                Some(v) => index < self.values@.len() && value_view(v) == value_view(
                    self.values@[index as int],
                ),
                None => index >= self.values@.len(),
            },
    {
        if index < self.values.len() {
            Some(clone_value(&self.values[index]))
        } else {
            None
        }
    }

    /// The values at the contiguous index range `[start, end)`, absent
    /// indices silently skipped: exactly the present ones, in order.
    pub fn range(&self, start: usize, end: usize) -> (r: Vec<Value>)
        ensures
            value_views(r@) == value_views(self.values@).subrange(
                vstd::math::min(start as int, self.values@.len() as int),
                vstd::math::max(
                    vstd::math::min(start as int, self.values@.len() as int),
                    vstd::math::min(end as int, self.values@.len() as int),
                ),
            ),
    {
        let n = self.values.len();
        let lo: usize = if start < n {
            start
        } else {
            n
        };
        let hi0: usize = if end < n {
            end
        } else {
            n
        };
        let hi: usize = if hi0 < lo {
            lo
        } else {
            hi0
        };
        let mut out: Vec<Value> = Vec::new();
        let mut i: usize = lo;
        while i < hi
            invariant
                lo <= i,
                i <= hi || i == lo,
                hi <= n,
                n == self.values@.len(),
                out@.len() == i - lo,
                forall|k: int|
                    0 <= k < out@.len() ==> value_view(out@[k]) == value_view(
                        #[trigger] self.values@[lo + k],
                    ),
            decreases hi - i,
        {
            out.push(clone_value(&self.values[i]));
            i = i + 1;
        }
        proof {
            lemma_value_views(out@);
            lemma_value_views(self.values@);
            let l = vstd::math::min(start as int, self.values@.len() as int);
            let h = vstd::math::max(l, vstd::math::min(end as int, self.values@.len() as int));
            assert(l == lo as int && h == hi as int);
            assert forall|k: int|
                0 <= k < out@.len() implies value_views(out@)[k] == value_views(
                self.values@,
            ).subrange(l, h)[k] by {
                assert(value_view(out@[k]) == value_view(self.values@[lo + k]));
                assert(value_views(self.values@).subrange(l, h)[k] == value_views(
                    self.values@,
                )[l + k]);
            }
            assert(value_views(out@) =~= value_views(self.values@).subrange(l, h));
        }
        out
    }

    /// The receiver of the call.
    pub fn this(&self) -> (v: Value)
        ensures
            value_view(v) == value_view(self.this),
    {
        clone_value(&self.this)
    }

    /// The current content of the return-value slot.
    pub fn rval(&self) -> (v: Value)
        ensures
            value_view(v) == value_view(self.rval),
    {
        clone_value(&self.rval)
    }

    /// Writes the return-value slot; everything else is untouched.
    pub fn set_rval(&mut self, v: Value)
        ensures
            final(self).rval == v,
            final(self).values == old(self).values,
            final(self).this == old(self).this,
            final(self).constructing == old(self).constructing,
    {
        self.rval = v;
    }

    /// True if the function was called as a constructor.
    pub fn is_constructing(&self) -> (c: bool)
        ensures
            c == self.constructing,
    {
        self.constructing
    }
}

} // verus!
