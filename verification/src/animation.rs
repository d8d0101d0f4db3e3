//! The flow animation: which frame is shown, and run-length decoding of a
//! frame into pixels.

use vstd::prelude::*;

verus! {

/// The pixels a run-length encoded frame stands for: each run `(count,
/// value)` is `count` copies of `value`, runs in order.
pub open spec fn rle_expand(runs: Seq<(u16, u8)>) -> Seq<u8>
    decreases runs.len(),
{
    if runs.len() == 0 {
        Seq::empty()
    } else {
        rle_expand(runs.drop_last()) + Seq::new(runs.last().0 as nat, |_i: int| runs.last().1)
    }
}

/// The total of the run lengths.
pub open spec fn rle_len(runs: Seq<(u16, u8)>) -> nat
    decreases runs.len(),
{
    if runs.len() == 0 {
        0
    } else {
        rle_len(runs.drop_last()) + runs.last().0 as nat
    }
}

/// A decoded frame has as many pixels as its runs count.
pub proof fn lemma_rle_expand_len(runs: Seq<(u16, u8)>)
    ensures
        rle_expand(runs).len() == rle_len(runs),
    decreases runs.len(),
{
    if runs.len() > 0 {
        lemma_rle_expand_len(runs.drop_last());
    }
}

/// Decoding a concatenation of runs concatenates the decoded pixels.
pub proof fn lemma_rle_expand_append(a: Seq<(u16, u8)>, b: Seq<(u16, u8)>)
    ensures
        rle_expand(a + b) == rle_expand(a) + rle_expand(b),
    decreases b.len(),
{
    if b.len() == 0 {
        assert(a + b =~= a);
        assert(rle_expand(b) =~= Seq::<u8>::empty());
        assert(rle_expand(a) + rle_expand(b) =~= rle_expand(a));
    } else {
        lemma_rle_expand_append(a, b.drop_last());
        assert((a + b).drop_last() =~= a + b.drop_last());
        assert((a + b).last() == b.last());
        assert(rle_expand(a + b) =~= rle_expand(a) + rle_expand(b.drop_last()) + Seq::new(
            b.last().0 as nat,
            |_i: int| b.last().1,
        ));
    }
}

/// Decodes a run-length encoded frame into its pixels.
pub fn decode_rle(runs: &[(u16, u8)]) -> (out: Vec<u8>)
    ensures
        out@ == rle_expand(runs@),
{
    let mut out: Vec<u8> = Vec::new();
    let n = runs.len();
    let mut i: usize = 0;
    while i < n
        invariant
            n == runs@.len(),
            i <= n,
            out@ == rle_expand(runs@.take(i as int)),
        decreases n - i,
    {
        let (count, val) = runs[i];
        let ghost before = out@;
        let mut k: u16 = 0;
        while k < count
            invariant
                k <= count,
                out@ == before + Seq::new(k as nat, |_j: int| val),
            decreases count - k,
        {
            out.push(val);
            k = k + 1;
            assert(out@ =~= before + Seq::new(k as nat, |_j: int| val));
        }
        assert(runs@.take(i + 1).drop_last() =~= runs@.take(i as int));
        assert(runs@.take(i + 1).last() == (count, val));
        i = i + 1;
    }
    assert(runs@.take(n as int) =~= runs@);
    out
}

/// Which frame of the animation is on screen.
#[derive(Debug, Clone, Copy, PartialEq, Eq, Structural)]
pub struct FrameCursor {
    pub frame: usize,
}

impl FrameCursor {
    /// The first frame.
    pub fn new() -> (c: FrameCursor)
        ensures
            c.frame == 0,
    {
        FrameCursor { frame: 0 }
    }

    /// Moves to the next of `frame_count` frames, wrapping after the last.
    pub fn advance(&mut self, frame_count: usize)
        requires
            old(self).frame < frame_count,
        ensures
            final(self).frame == (old(self).frame + 1) % (frame_count as int),
            final(self).frame < frame_count,
    {
        self.frame = (self.frame + 1) % frame_count;
    }

    /// The pixels of the current frame, decoded from `frames`.
    pub fn decode_current(&self, frames: &[&[(u16, u8)]]) -> (out: Vec<u8>)
        requires
            self.frame < frames@.len(),
        ensures
            out@ == rle_expand(frames@[self.frame as int]@),
    {
        decode_rle(frames[self.frame])
    }
}

/// Advancing `n` times from frame `f` of `count` lands on frame
/// `(f + n) mod count`: the animation loops.
pub open spec fn spec_advance_n(f: int, count: int, n: nat) -> int
    decreases n,
{
    if n == 0 {
        f
    } else {
        (spec_advance_n(f, count, (n - 1) as nat) + 1) % count
    }
}

/// After any number of steps the cursor is at `(f + n) mod count`, so it
/// returns to its start after exactly `count` steps.
pub proof fn lemma_advance_loops(f: int, count: int, n: nat)
    requires
        0 <= f < count,
    ensures
        spec_advance_n(f, count, n) == (f + n) % count,
    decreases n,
{
    if n > 0 {
        lemma_advance_loops(f, count, (n - 1) as nat);
        let x = f + n - 1;
        vstd::arithmetic::div_mod::lemma_add_mod_noop(x, 1, count);
        vstd::arithmetic::div_mod::lemma_add_mod_noop(x % count, 1, count);
        vstd::arithmetic::div_mod::lemma_mod_twice(x, count);
    } else {
        vstd::arithmetic::div_mod::lemma_small_mod(f as nat, count as nat);
    }
}

} // verus!
