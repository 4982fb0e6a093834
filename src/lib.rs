//! Digital signal processing pipelines.
//!
//! Signals flow as fixed-size frames through nodes. A node owns one output
//! frame, allocated at construction with its capacity; each call overwrites
//! the frame in place and lends it to the caller until the next call.
//! Only the first min(input length, capacity) positions are recomputed: the
//! others keep the value they had, so a shorter input leaves a stale tail.
//!
//! Nodes are generic over the sample type: time-domain frames are `Vec<S>`,
//! frequency-domain frames are `Vec<Complex<S>>`.
use vstd::prelude::*;

pub mod frame;
pub mod signals;

use crate::frame::{filled, min_len, refresh};
use num_complex::Complex;

verus! {

/// num_complex::Complex, a plain struct of two public fields: the real part
/// `re` and the imaginary part `im`.
#[verifier::external_type_specification]
#[verifier::reject_recursive_types(T)]
pub struct ExComplex<T>(num_complex::Complex<T>);

/// Relies on num_complex::Complex::new: it builds the value from its two
/// parts (`Complex { re, im }`).
pub assume_specification<T>[ num_complex::Complex::<T>::new ](re: T, im: T) -> (r: num_complex::Complex<T>)
    ensures
        r.re == re,
        r.im == im,
;

/// Node which produces a signal.
pub trait SourceNode {
    type Buffer;

    /// The fixed length of every frame the node hands out.
    spec fn capacity(&self) -> nat;

    /// The length of a frame.
    spec fn frame_len(frame: &Self::Buffer) -> nat;

    /// Produces the next frame. It is valid until the next call.
    fn next_batch(&mut self) -> (out: &Self::Buffer)
        ensures
            final(self).capacity() == old(self).capacity(),
            Self::frame_len(out) == old(self).capacity(),
    ;
}

/// Node which transforms a signal.
pub trait ProcessingNode {
    type InBuffer;
    type OutBuffer;

    /// The fixed length of every frame the node hands out.
    spec fn capacity(&self) -> nat;

    /// The length of an output frame.
    spec fn frame_len(frame: &Self::OutBuffer) -> nat;

    /// Whether the node's sample arithmetic is defined on every sample of
    /// `input` (for integer samples: nothing overflows).
    spec fn can_process(&self, input: &Self::InBuffer) -> bool;

    /// Transforms `input` into the node's output frame and lends that frame
    /// until the next call.
    fn process(&mut self, input: &Self::InBuffer) -> (out: &Self::OutBuffer)
        requires
            old(self).can_process(input),
        ensures
            final(self).capacity() == old(self).capacity(),
            Self::frame_len(out) == old(self).capacity(),
    ;
}

/// Node which consumes a signal.
pub trait SinkNode {
    type Buffer;

    fn consume(&mut self, input: &Self::Buffer);
}

/// The complex sample with real part `re` and imaginary part `im`.
pub open spec fn complex<S>(re: S, im: S) -> Complex<S> {
    Complex { re, im }
}

/// Lifts real samples into complex ones with imaginary part `zero`.
pub open spec fn lift<S>(prev: Seq<Complex<S>>, input: Seq<S>, zero: S) -> Seq<Complex<S>> {
    refresh(prev, input, |x: S| complex(x, zero))
}

/// Projects complex samples onto their real parts.
pub open spec fn project<S>(prev: Seq<S>, input: Seq<Complex<S>>) -> Seq<S> {
    refresh(prev, input, |c: Complex<S>| c.re)
}

/// Converts a real frame into a complex frame with zero imaginary parts.
#[verifier::reject_recursive_types(S)]
pub struct RealToComplexNode<S> {
    zero: S,
    output: Vec<Complex<S>>,
}

impl<S> View for RealToComplexNode<S> {
    type V = Seq<Complex<S>>;

    /// The output frame.
    closed spec fn view(&self) -> Seq<Complex<S>> {
        self.output@
    }
}

impl<S> RealToComplexNode<S> {
    /// The sample that fills imaginary parts: `S::default()`.
    pub closed spec fn zero(&self) -> S {
        self.zero
    }
}

impl<S: Copy + Default> RealToComplexNode<S> {
    /// A node whose output frame holds `size` complex zeros.
    pub fn new(size: usize) -> (r: RealToComplexNode<S>)
        ensures
            call_ensures(S::default, (), r.zero()),
            r@ == Seq::new(size as nat, |i: int| complex(r.zero(), r.zero())),
    {
        let zero = S::default();
        RealToComplexNode { zero, output: filled(Complex::new(zero, zero), size) }
    }
}

impl<S: Copy> ProcessingNode for RealToComplexNode<S> {
    type InBuffer = Vec<S>;
    type OutBuffer = Vec<Complex<S>>;

    open spec fn capacity(&self) -> nat {
        self@.len()
    }

    open spec fn frame_len(frame: &Vec<Complex<S>>) -> nat {
        frame@.len()
    }

    open spec fn can_process(&self, input: &Vec<S>) -> bool {
        true
    }

    /// Sets output[i] to (input[i], 0) for every i below both lengths.
    fn process(&mut self, input: &Vec<S>) -> (out: &Vec<Complex<S>>)
        ensures
            final(self).zero() == old(self).zero(),
            final(self)@ == lift(old(self)@, input@, old(self).zero()),
            out@ == final(self)@,
    {
        let n = min_len(input.len(), self.output.len());
        let mut i: usize = 0;
        while i < n
            invariant
                n <= input.len(),
                n <= self.output.len(),
                i <= n,
                self.zero == old(self).zero,
                self.output@.len() == old(self).output@.len(),
                forall|j: int| 0 <= j < i ==> self.output@[j] == complex(input@[j], self.zero),
                forall|j: int| i <= j < self.output@.len() ==> self.output@[j] == old(self).output@[j],
            decreases n - i,
        {
            self.output.set(i, Complex::new(input[i], self.zero));
            i = i + 1;
        }
        assert(self.output@ =~= lift(old(self)@, input@, old(self).zero()));
        &self.output
    }
}

/// Converts a complex frame into a real frame by dropping imaginary parts.
pub struct ComplexToRealNode<S> {
    output: Vec<S>,
}

impl<S> View for ComplexToRealNode<S> {
    type V = Seq<S>;

    /// The output frame.
    closed spec fn view(&self) -> Seq<S> {
        self.output@
    }
}

impl<S: Copy + Default> ComplexToRealNode<S> {
    /// A node whose output frame holds `size` zeros.
    pub fn new(size: usize) -> (r: ComplexToRealNode<S>)
        ensures
            r@.len() == size,
            forall|i: int| 0 <= i < size ==> call_ensures(S::default, (), #[trigger] r@[i]),
    {
        ComplexToRealNode { output: filled(S::default(), size) }
    }
}

impl<S: Copy> ProcessingNode for ComplexToRealNode<S> {
    type InBuffer = Vec<Complex<S>>;
    type OutBuffer = Vec<S>;

    open spec fn capacity(&self) -> nat {
        self@.len()
    }

    open spec fn frame_len(frame: &Vec<S>) -> nat {
        frame@.len()
    }

    open spec fn can_process(&self, input: &Vec<Complex<S>>) -> bool {
        true
    }

    /// Sets output[i] to the real part of input[i] for every i below both lengths.
    fn process(&mut self, input: &Vec<Complex<S>>) -> (out: &Vec<S>)
        ensures
            final(self)@ == project(old(self)@, input@),
            out@ == final(self)@,
    {
        let n = min_len(input.len(), self.output.len());
        let mut i: usize = 0;
        while i < n
            invariant
                n <= input.len(),
                n <= self.output.len(),
                i <= n,
                self.output@.len() == old(self).output@.len(),
                forall|j: int| 0 <= j < i ==> self.output@[j] == input@[j].re,
                forall|j: int| i <= j < self.output@.len() ==> self.output@[j] == old(self).output@[j],
            decreases n - i,
        {
            self.output.set(i, input[i].re);
            i = i + 1;
        }
        assert(self.output@ =~= project(old(self)@, input@));
        &self.output
    }
}

} // verus!

verus! {

/// Converting a real frame to complex samples and back gives the frame
/// again, when both nodes have the frame's length as capacity.
pub proof fn lemma_real_complex_round_trip<S>(
    a: Seq<S>,
    to_complex: RealToComplexNode<S>,
    to_real: ComplexToRealNode<S>,
)
    requires
        to_complex@.len() == a.len(),
        to_real@.len() == a.len(),
    ensures
        project(to_real@, lift(to_complex@, a, to_complex.zero())) == a,
{
    assert(project(to_real@, lift(to_complex@, a, to_complex.zero())) =~= a);
}

} // verus!
