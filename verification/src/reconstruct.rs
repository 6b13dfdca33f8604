//! The output reconstruction filter, as a mathematical model.
//!
//! The accumulation buffer stores second differences of the waveform.  The
//! reconstructor walks it with a running sum (the integrator): at each step
//! it emits the current sum scaled down by `DELTA_UNIT` and saturated to 16
//! bits, then adds the next buffer slot and subtracts a small multiple of
//! the emitted sample — a one-pole high-pass that bleeds off any DC offset.
//! All accumulator arithmetic wraps mod `2^32`, exactly as the 32-bit
//! buffer does.

use vstd::prelude::*;
use vstd::wrapping::i32_specs;

use crate::arith::spec_clamp;
use crate::BASS_UNIT;
use crate::BUF_EXTRA;
use crate::DELTA_UNIT;

verus! {

/// The sample a reconstruction sum produces: scale down, then saturate.
pub open spec fn emitted(sum: i32) -> int {
    spec_clamp(sum as int / DELTA_UNIT as int)
}

/// One reconstruction step: starting from `sum`, consume buffer slot `x`,
/// and apply the high-pass feedback for the sample just emitted.
pub open spec fn next_sum(sum: i32, x: i32) -> i32 {
    i32_specs::signed_crop(sum + x - BASS_UNIT * emitted(sum))
}

/// The integrator after reading `n` samples of buffer `s`, starting at `sum`.
pub open spec fn integrator_after(sum: i32, s: Seq<i32>, n: int) -> i32
    decreases n,
{
    if n <= 0 {
        sum
    } else {
        next_sum(integrator_after(sum, s, n - 1), s[n - 1])
    }
}

/// The `i`-th output sample of a read that starts at integrator `sum` on
/// buffer `s`.
pub open spec fn sample_at(sum: i32, s: Seq<i32>, i: int) -> i16 {
    emitted(integrator_after(sum, s, i)) as i16
}

/// The buffer left behind after a read of `count` samples with `avail`
/// pending: the used front is dropped, the carried-over guard tail moves to
/// the front, and everything past the moved tail is cleared.
pub open spec fn removed(s: Seq<i32>, avail: int, count: int) -> Seq<i32> {
    Seq::new(s.len(), |i: int| if i < avail + BUF_EXTRA - count { s[i + count] } else { 0 })
}

/// The integrator only looks at the slots it has consumed: two buffers that
/// agree on their first `n` slots reconstruct alike.
pub proof fn lemma_integrator_agrees(sum: i32, s1: Seq<i32>, s2: Seq<i32>, n: int)
    requires
        forall|i: int| 0 <= i < n ==> s1[i] == s2[i],
    ensures
        integrator_after(sum, s1, n) == integrator_after(sum, s2, n),
    decreases n,
{
    if n > 0 {
        lemma_integrator_agrees(sum, s1, s2, n - 1);
    }
}

/// Reconstruction composes: reading `k + j` samples in one go leaves the
/// same integrator as reading `k`, then `j` more starting where the buffer's
/// first `k` slots have been dropped.
pub proof fn lemma_integrator_compose(sum: i32, s: Seq<i32>, k: int, j: int)
    requires
        0 <= k,
        0 <= j,
        k + j <= s.len(),
    ensures
        integrator_after(sum, s, k + j) == integrator_after(
            integrator_after(sum, s, k),
            s.skip(k),
            j,
        ),
    decreases j,
{
    if j > 0 {
        lemma_integrator_compose(sum, s, k, j - 1);
        assert(s.skip(k)[j - 1] == s[k + j - 1]);
    }
}

/// A read is splittable: reading `n` samples at once yields, from position
/// `k` on, exactly the outputs of a second read performed on the compacted
/// buffer that a first read of `k` samples leaves behind, and both paths
/// leave the same integrator.  `avail` is the number of pending samples; the
/// buffer extends `BUF_EXTRA` guard slots past them.
pub proof fn lemma_read_split(sum: i32, s: Seq<i32>, avail: int, k: int, n: int)
    requires
        0 <= k <= n <= avail,
        avail + BUF_EXTRA <= s.len(),
    ensures
        forall|i: int|
            k <= i < n ==> sample_at(sum, s, i) == sample_at(
                integrator_after(sum, s, k),
                removed(s, avail, k),
                i - k,
            ),
        integrator_after(sum, s, n) == integrator_after(
            integrator_after(sum, s, k),
            removed(s, avail, k),
            n - k,
        ),
{
    let mid = integrator_after(sum, s, k);
    let rem = removed(s, avail, k);
    assert forall|j: int| 0 <= j <= n - k implies integrator_after(mid, rem, j) == integrator_after(
        mid,
        s.skip(k),
        j,
    ) by {
        assert(forall|i: int| 0 <= i < j ==> rem[i] == s.skip(k)[i]);
        lemma_integrator_agrees(mid, rem, s.skip(k), j);
    };
    assert forall|i: int| k <= i < n implies sample_at(sum, s, i) == sample_at(
        mid,
        rem,
        i - k,
    ) by {
        lemma_integrator_compose(sum, s, k, i - k);
    };
    lemma_integrator_compose(sum, s, k, n - k);
}

} // verus!
