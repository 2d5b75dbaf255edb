//! The bounded field-capture buffer: a single pass over an event's field
//! values records up to `N` (field handle, rendered text) pairs.

use vstd::prelude::*;

use crate::model::{placeholder_field, Field, PLACEHOLDER_CALLSITE};

verus! {

/// Slot contents of a capacity-`cap` capture buffer once the entries of
/// `captured` have been recorded: the captured entries in order, each
/// with its rendered text present, followed by placeholder slots whose
/// value is absent.
pub open spec fn padded_slots(cap: nat, captured: Seq<(Field, Seq<char>)>) -> Seq<
    (Field, Option<Seq<char>>),
> {
    Seq::new(
        cap,
        |i: int|
            if i < captured.len() {
                (captured[i].0, Some(captured[i].1))
            } else {
                (placeholder_field(), None)
            },
    )
}

/// Bounded single-pass capture buffer: a fixed array of `N` slots, each
/// holding a field handle and an optional rendered value, with an
/// insertion cursor. Fields recorded past the capacity are silently
/// dropped — a documented limitation, not an error.
pub struct Visitor<const N: usize> {
    index: usize,
    values: Vec<(Field, Option<String>)>,
}

impl<const N: usize> Visitor<N> {
    /// The slot contents, rendered texts viewed as character sequences.
    pub closed spec fn slots(self) -> Seq<(Field, Option<Seq<char>>)> {
        self.values.deep_view()
    }

    /// How many fields have been recorded and kept so far.
    pub closed spec fn count(self) -> int {
        self.index as int
    }

    /// The buffer holds exactly `N` slots and the cursor never passes
    /// the capacity.
    pub closed spec fn wf(self) -> bool {
        self.values.len() == N && self.index <= N
    }

    /// A fresh buffer: every slot holds the placeholder handle and an
    /// absent value, and the cursor is at the first slot.
    pub fn new() -> (r: Self)
        ensures
            r.wf(),
            r.count() == 0,
            r.slots() == padded_slots(N as nat, Seq::<(Field, Seq<char>)>::empty()),
    {
        let mut values: Vec<(Field, Option<String>)> = Vec::new();
        while values.len() < N
            invariant
                values.len() <= N,
                forall|i: int|
                    0 <= i < values.len() ==> #[trigger] values.deep_view()[i] == (
                    placeholder_field(),
                    None::<Seq<char>>,
                ),
            decreases N - values.len(),
        {
            let ghost prior = values.deep_view();
            values.push((Field { index: 0, callsite: PLACEHOLDER_CALLSITE }, None));
            proof {
                assert(values.deep_view() =~= prior.push(
                    (placeholder_field(), None::<Seq<char>>),
                ));
            }
        }
        let r = Visitor { index: 0, values };
        proof {
            assert(r.slots() =~= padded_slots(N as nat, Seq::<(Field, Seq<char>)>::empty()));
        }
        r
    }

    /// Records one field's rendered value at the cursor and advances it;
    /// when the cursor has already reached the capacity the call is a
    /// no-op and the field is silently dropped.
    pub fn record(&mut self, field: Field, text: String)
        requires
            old(self).wf(),
        ensures
            final(self).wf(),
            old(self).count() < N ==> {
                &&& final(self).count() == old(self).count() + 1
                &&& final(self).slots() == old(self).slots().update(
                    old(self).count(),
                    (field, Some(text@)),
                )
            },
            old(self).count() >= N ==> *final(self) == *old(self),
    {
        if self.index < N {
            let ghost prior = self.values.deep_view();
            self.values.set(self.index, (field, Some(text)));
            proof {
                assert(self.values.deep_view() =~= prior.update(
                    self.index as int,
                    (field, Some(text@)),
                ));
            }
            self.index = self.index + 1;
        }
    }

    /// Returns the full slot array in order; trailing unused slots hold
    /// the placeholder handle and an absent value, which consumers must
    /// read as "field not present", not as an error.
    pub fn get_values(&self) -> (r: Vec<(Field, Option<String>)>)
        requires
            self.wf(),
        ensures
            r.len() == N,
            r.deep_view() == self.slots(),
    {
        let mut r: Vec<(Field, Option<String>)> = Vec::new();
        let mut i: usize = 0;
        while i < self.values.len()
            invariant
                self.wf(),
                i <= self.values.len(),
                r.len() == i,
                forall|j: int|
                    0 <= j < i ==> #[trigger] r.deep_view()[j] == self.values.deep_view()[j],
            decreases self.values.len() - i,
        {
            let ghost prior = r.deep_view();
            let entry = &self.values[i];
            let value = match &entry.1 {
                Some(s) => Some(s.clone()),
                None => None,
            };
            r.push((entry.0, value));
            proof {
                assert(r.deep_view() =~= prior.push(self.values.deep_view()[i as int]));
            }
            i = i + 1;
        }
        proof {
            assert(r.deep_view() =~= self.slots());
        }
        r
    }
}

} // verus!
