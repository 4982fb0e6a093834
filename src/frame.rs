//! Fixed-capacity output frames and the in-place refresh rule that every node follows.
use vstd::prelude::*;

verus! {

/// The frame a node holds after a call on `input`: the first
/// min(|frame|, |input|) positions become `f` of the matching input sample,
/// and every later position keeps the value it had before.
pub open spec fn refresh<A, B>(frame: Seq<B>, input: Seq<A>, f: spec_fn(A) -> B) -> Seq<B> {
    Seq::new(frame.len(), |i: int| if i < input.len() { f(input[i]) } else { frame[i] })
}

/// The two-input form of `refresh`: position `i` is recomputed only when both
/// inputs reach it.
pub open spec fn refresh2<A, B>(
    frame: Seq<B>,
    a: Seq<A>,
    b: Seq<A>,
    f: spec_fn(A, A) -> B,
) -> Seq<B> {
    Seq::new(
        frame.len(),
        |i: int| if i < a.len() && i < b.len() { f(a[i], b[i]) } else { frame[i] },
    )
}

/// The number of positions a call recomputes.
pub open spec fn overlap(a: nat, b: nat) -> nat {
    if a < b { a } else { b }
}

/// A frame of `len` copies of `value`.
pub fn filled<T: Copy>(value: T, len: usize) -> (v: Vec<T>)
    ensures
        v@ == Seq::new(len as nat, |i: int| value),
{
    let mut v: Vec<T> = Vec::with_capacity(len);
    let mut i: usize = 0;
    while i < len
        invariant
            i <= len,
            v@ == Seq::new(i as nat, |j: int| value),
        decreases len - i,
    {
        v.push(value);
        i = i + 1;
        assert(v@ =~= Seq::new(i as nat, |j: int| value));
    }
    v
}

/// The smaller of two lengths.
pub fn min_len(a: usize, b: usize) -> (r: usize)
    ensures
        r as nat == overlap(a as nat, b as nat),
{
    if a < b {
        a
    } else {
        b
    }
}

} // verus!
