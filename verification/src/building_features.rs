//! The features a building of the world carries, such as fire, kept in the order they
//! were added.

use vstd::prelude::*;

verus! {

/// The features of a building, in the order they were added.
#[derive(Debug)]
pub struct Features<F>(Vec<Box<F>>);

impl<F> View for Features<F> {
    type V = Seq<F>;

    closed spec fn view(&self) -> Seq<F> {
        self.0@.map_values(|b: Box<F>| *b)
    }
}

impl<F> Default for Features<F> {
    /// No features.
    fn default() -> (r: Self)
        ensures
            r@ == Seq::<F>::empty(),
    {
        let r = Features(Vec::new());
        assert(r@ =~= Seq::<F>::empty());
        r
    }
}

impl<F> Features<F> {
    /// Adds a feature after the others.
    pub fn push(&mut self, feature: Box<F>)
        ensures
            final(self)@ == old(self)@.push(*feature),
    {
        self.0.push(feature);
        assert(self@ =~= old(self)@.push(*feature));
    }

    /// The number of features.
    pub fn len(&self) -> (r: usize)
        ensures
            r == self@.len(),
    {
        self.0.len()
    }

    /// The feature at a position.
    pub fn get(&self, index: usize) -> (r: &F)
        requires
            index < self@.len(),
        ensures
            *r == self@[index as int],
    {
        &*self.0[index]
    }
}

} // verus!
