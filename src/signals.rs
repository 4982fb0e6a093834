//! Nodes that scale and combine time-domain frames.
use vstd::prelude::*;

use crate::frame::{filled, min_len, refresh, refresh2};
use crate::ProcessingNode;
use core::ops::{Add, Mul};
use vstd::std_specs::ops::{AddSpec, MulSpec};

verus! {

/// Changes a signal's amplitude by a constant factor.
pub struct GainNode<S> {
    scale: S,
    output: Vec<S>,
}

impl<S> View for GainNode<S> {
    type V = Seq<S>;

    /// The output frame.
    closed spec fn view(&self) -> Seq<S> {
        self.output@
    }
}

impl<S> GainNode<S> {
    /// The factor the node multiplies by.
    pub closed spec fn factor(&self) -> S {
        self.scale
    }
}

/// The frame a gain node with factor `g` holds after processing `input`.
pub open spec fn scaled<S: Mul<Output = S>>(prev: Seq<S>, input: Seq<S>, g: S) -> Seq<S> {
    refresh(prev, input, |x: S| g.mul_spec(x))
}

/// The frame a sum node holds after processing `a` and `b`.
pub open spec fn summed<S: Add<Output = S>>(prev: Seq<S>, a: Seq<S>, b: Seq<S>) -> Seq<S> {
    refresh2(prev, a, b, |x: S, y: S| x.add_spec(y))
}

impl<S: Copy + Default> GainNode<S> {
    /// A node that multiplies by `scale`, with an output frame of `frame_size` zeros.
    pub fn new(scale: S, frame_size: usize) -> (r: GainNode<S>)
        ensures
            r.factor() == scale,
            r@.len() == frame_size,
            forall|i: int| 0 <= i < frame_size ==> call_ensures(S::default, (), #[trigger] r@[i]),
    {
        GainNode { scale, output: filled(S::default(), frame_size) }
    }
}

impl<S: Copy + Mul<Output = S>> ProcessingNode for GainNode<S> {
    type InBuffer = Vec<S>;
    type OutBuffer = Vec<S>;

    open spec fn capacity(&self) -> nat {
        self@.len()
    }

    open spec fn frame_len(frame: &Vec<S>) -> nat {
        frame@.len()
    }

    open spec fn can_process(&self, input: &Vec<S>) -> bool {
        forall|i: int| 0 <= i < input@.len() ==> self.factor().mul_req(#[trigger] input@[i])
    }

    /// Sets output[i] to factor * input[i] for every i below both lengths.
    fn process(&mut self, input: &Vec<S>) -> (out: &Vec<S>)
        ensures
            final(self).factor() == old(self).factor(),
            final(self)@.len() == old(self)@.len(),
            forall|i: int| input@.len() <= i < old(self)@.len() ==> final(self)@[i] == old(self)@[i],
            forall|i: int| 0 <= i < input@.len() && i < old(self)@.len()
                ==> call_ensures(S::mul, (old(self).factor(), input@[i]), #[trigger] final(self)@[i]),
            S::obeys_mul_spec() ==> final(self)@ == scaled(old(self)@, input@, old(self).factor()),
            out@ == final(self)@,
    {
        let n = min_len(input.len(), self.output.len());
        let mut i: usize = 0;
        while i < n
            invariant
                n <= input.len(),
                n <= self.output.len(),
                i <= n,
                self.scale == old(self).scale,
                self.output@.len() == old(self).output@.len(),
                forall|j: int| 0 <= j < input@.len() ==> self.scale.mul_req(#[trigger] input@[j]),
                forall|j: int| 0 <= j < i ==> call_ensures(S::mul, (self.scale, input@[j]), #[trigger] self.output@[j]),
                S::obeys_mul_spec() ==> forall|j: int| 0 <= j < i ==> #[trigger] self.output@[j] == self.scale.mul_spec(input@[j]),
                forall|j: int| i <= j < self.output@.len() ==> self.output@[j] == old(self).output@[j],
            decreases n - i,
        {
            let v = self.scale * input[i];
            self.output.set(i, v);
            i = i + 1;
        }
        assert(S::obeys_mul_spec() ==> self.output@ =~= scaled(old(self)@, input@, old(self).factor()));
        &self.output
    }
}

/// Adds two signals sample by sample.
pub struct SumNode<S> {
    output: Vec<S>,
}

impl<S> View for SumNode<S> {
    type V = Seq<S>;

    /// The output frame.
    closed spec fn view(&self) -> Seq<S> {
        self.output@
    }
}

impl<S: Copy + Default> SumNode<S> {
    /// A node with an output frame of `frame_size` zeros.
    pub fn new(frame_size: usize) -> (r: SumNode<S>)
        ensures
            r@.len() == frame_size,
            forall|i: int| 0 <= i < frame_size ==> call_ensures(S::default, (), #[trigger] r@[i]),
    {
        SumNode { output: filled(S::default(), frame_size) }
    }
}

impl<S: Copy + Add<Output = S>> SumNode<S> {
    /// Sets output[i] to input1[i] + input2[i] for every i below all three
    /// lengths, and lends the output frame until the next call.
    pub fn process(&mut self, input1: &Vec<S>, input2: &Vec<S>) -> (out: &Vec<S>)
        requires
            forall|i: int| 0 <= i < input1@.len() && i < input2@.len()
                ==> (#[trigger] input1@[i]).add_req(input2@[i]),
        ensures
            final(self)@.len() == old(self)@.len(),
            forall|i: int| (input1@.len() <= i || input2@.len() <= i) && 0 <= i < old(self)@.len()
                ==> final(self)@[i] == old(self)@[i],
            forall|i: int| 0 <= i < input1@.len() && i < input2@.len() && i < old(self)@.len()
                ==> call_ensures(S::add, (input1@[i], input2@[i]), #[trigger] final(self)@[i]),
            S::obeys_add_spec() ==> final(self)@ == summed(old(self)@, input1@, input2@),
            out@ == final(self)@,
    {
        let n = min_len(min_len(input1.len(), input2.len()), self.output.len());
        let mut i: usize = 0;
        while i < n
            invariant
                n <= input1.len(),
                n <= input2.len(),
                n <= self.output.len(),
                i <= n,
                self.output@.len() == old(self).output@.len(),
                forall|j: int| 0 <= j < input1@.len() && j < input2@.len()
                    ==> (#[trigger] input1@[j]).add_req(input2@[j]),
                forall|j: int| 0 <= j < i ==> call_ensures(S::add, (input1@[j], input2@[j]), #[trigger] self.output@[j]),
                S::obeys_add_spec() ==> forall|j: int| 0 <= j < i ==> #[trigger] self.output@[j] == input1@[j].add_spec(input2@[j]),
                forall|j: int| i <= j < self.output@.len() ==> self.output@[j] == old(self).output@[j],
            decreases n - i,
        {
            let v = input1[i] + input2[i];
            self.output.set(i, v);
            i = i + 1;
        }
        assert(S::obeys_add_spec() ==> self.output@ =~= summed(old(self)@, input1@, input2@));
        &self.output
    }
}

} // verus!
