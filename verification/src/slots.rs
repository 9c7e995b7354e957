//! Fixed one-place lists of positions, as they are handed to a queue
//! submission.
//!
//! The lists are `arrayvec::ArrayVec`s. What this module says of them is
//! taken from that crate and not proved here: the struct hides the vector,
//! [`slots`] names its contents, and `single` and `as_slice` state what the
//! vector's own functions do to them.

use arrayvec::ArrayVec;
use vstd::prelude::*;

verus! {

/// A list of positions with room for exactly one, kept in an
/// `arrayvec::ArrayVec<[usize; 1]>`.
#[verifier::external_body]
#[derive(Debug, PartialEq, Eq)]
pub struct SlotList {
    items: ArrayVec<[usize; 1]>,
}

/// The positions that the vector of a list holds, in order.
pub uninterp spec fn slots(list: SlotList) -> Seq<usize>;

impl View for SlotList {
    type V = Seq<usize>;

    open spec fn view(&self) -> Seq<usize> {
        slots(*self)
    }
}

impl SlotList {
    /// `ArrayVec::from` on a one-element array. The vector takes the array
    /// over whole, with its length set to the array's capacity, so it holds
    /// exactly the one position that was given.
    #[verifier::external_body]
    pub(crate) fn single(index: usize) -> (list: SlotList)
        ensures
            slots(list) == seq![index],
    {
        SlotList { items: ArrayVec::from([index]) }
    }

    /// `ArrayVec::as_slice`: the slice of the elements that the vector
    /// holds, in order.
    #[verifier::external_body]
    fn as_slice(&self) -> (items: &[usize])
        ensures
            items@ == slots(*self),
    {
        self.items.as_slice()
    }

    /// The positions of the list, in order.
    pub fn indices(&self) -> (indices: Vec<usize>)
        ensures
            indices@ == self@,
    {
        let items = self.as_slice();
        let mut indices: Vec<usize> = Vec::new();
        let mut at: usize = 0;
        while at < items.len()
            invariant
                at <= items@.len(),
                indices@ == items@.take(at as int),
            decreases items@.len() - at,
        {
            indices.push(items[at]);
            proof {
                assert(items@.take(at + 1) == items@.take(at as int).push(items@[at as int]));
            }
            at += 1;
        }
        proof {
            assert(items@.take(at as int) == items@);
        }
        indices
    }
}

} // verus!
