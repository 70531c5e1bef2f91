//! Layout of a sampled trace: `n` measures taken at the ends of `d` time
//! steps, the measure `i + 1` following the measure `i` after the step `i`.
//! The integrator and the differentiator work on traces of at least one
//! step; the controller on any trace whose measures and steps line up.
use vstd::prelude::*;

verus! {

/// The controller computes a response from `n` measures and `d` steps
/// exactly when there is one measure more than there are steps (so at
/// least one measure); on any other layout it answers zero.
pub open spec fn pid_accepts(n: int, d: int) -> bool {
    n == d + 1
}

/// The integrator and the differentiator compute from `n` measures and
/// `d` steps exactly when there is at least one step and one measure more
/// than steps; on any other layout they answer zero.
pub open spec fn segments_accepted(n: int, d: int) -> bool {
    d >= 1 && n == d + 1
}

/// Whether the controller works on `n_measures` measures and `n_dts` steps.
pub fn pid_layout_ok(n_measures: usize, n_dts: usize) -> (ok: bool)
    ensures
        ok == pid_accepts(n_measures as int, n_dts as int),
        ok <==> n_measures as int == n_dts as int + 1,
{
    n_measures != 0 && n_measures - 1 == n_dts
}

/// Whether the integrator and the differentiator work on `n_measures`
/// measures and `n_dts` steps.
pub fn segment_layout_ok(n_measures: usize, n_dts: usize) -> (ok: bool)
    ensures
        ok == segments_accepted(n_measures as int, n_dts as int),
        ok <==> (n_dts >= 1 && n_measures as int == n_dts as int + 1),
{
    !(n_measures < 2 || n_dts == 0 || n_measures - 1 != n_dts)
}

/// A trace that the integrator and the differentiator accept is one that
/// the controller accepts and that holds at least one step; the controller
/// accepts the one trace more that holds a single measure and no step.
pub proof fn lemma_segment_layout_within_pid_layout(n: nat, d: nat)
    ensures
        segments_accepted(n as int, d as int) <==> (pid_accepts(n as int, d as int) && d >= 1),
        (pid_accepts(n as int, d as int) && !segments_accepted(n as int, d as int)) <==> (n == 1
            && d == 0),
{
}

/// Which samples the differentiator reads around the located sample.
///
/// `Forward` and `Backward` are one-sided differences: the slope between
/// the measures `before` and `after` over the step `step`.
/// `Central` is the second-order difference on a non-uniform grid around
/// the measure `curr`, with the steps `prev` (before it) and `curr` (after
/// it) and the measures `prev`, `curr` and `next`.
#[derive(PartialEq, Eq, Structural, Debug, Clone, Copy)]
pub enum Stencil {
    Forward { step: usize, before: usize, after: usize },
    Backward { step: usize, before: usize, after: usize },
    Central { prev: usize, curr: usize, next: usize },
}

/// Every index that a stencil reads is that of a measure (below
/// `n_dts + 1`) or, for a step, that of a step (below `n_dts`).
pub open spec fn stencil_in_bounds(s: Stencil, n_dts: int) -> bool {
    match s {
        Stencil::Forward { step, before, after } | Stencil::Backward { step, before, after } => {
            &&& step < n_dts
            &&& before < n_dts + 1
            &&& after < n_dts + 1
            &&& after == before + 1
            &&& step == before
        },
        Stencil::Central { prev, curr, next } => {
            &&& prev + 1 == curr
            &&& curr + 1 == next
            &&& curr < n_dts
            &&& next < n_dts + 1
        },
    }
}

/// The stencil that the differentiator uses around the sample `idx` of a
/// trace of `n_dts` steps: a forward difference at the first sample, a
/// backward difference past the last step, a central difference between.
pub open spec fn stencil_for(n_dts: int, idx: int) -> Stencil {
    if idx == 0 {
        Stencil::Forward { step: 0, before: 0, after: 1 }
    } else if idx >= n_dts {
        Stencil::Backward {
            step: (n_dts - 1) as usize,
            before: (n_dts - 1) as usize,
            after: n_dts as usize,
        }
    } else {
        Stencil::Central {
            prev: (idx - 1) as usize,
            curr: idx as usize,
            next: (idx + 1) as usize,
        }
    }
}

/// Computes `stencil_for(n_dts, idx)`; every index it names lies inside
/// the trace.
pub fn stencil_at(n_dts: usize, idx: usize) -> (s: Stencil)
    requires
        n_dts >= 1,
    ensures
        s == stencil_for(n_dts as int, idx as int),
        stencil_in_bounds(s, n_dts as int),
        idx == 0 ==> s == (Stencil::Forward { step: 0, before: 0, after: 1 }),
        0 < idx < n_dts ==> s == (Stencil::Central {
            prev: (idx - 1) as usize,
            curr: idx,
            next: (idx + 1) as usize,
        }),
        0 < idx && n_dts <= idx ==> s == (Stencil::Backward {
            step: (n_dts - 1) as usize,
            before: (n_dts - 1) as usize,
            after: n_dts,
        }),
{
    if idx == 0 {
        Stencil::Forward { step: 0, before: 0, after: 1 }
    } else if idx >= n_dts {
        let last = n_dts - 1;
        Stencil::Backward { step: last, before: last, after: n_dts }
    } else {
        Stencil::Central { prev: idx - 1, curr: idx, next: idx + 1 }
    }
}

/// At the first sample the differentiator takes the forward difference
/// over the first step, whatever the length of the trace: the slope from
/// measure 0 to measure 1 over step 0.
pub proof fn lemma_first_sample_reads_first_step(n_dts: usize)
    requires
        n_dts >= 1,
    ensures
        stencil_for(n_dts as int, 0) matches Stencil::Forward { step, before, after } && step == 0
            && before == 0 && after == 1,
{
}

/// Between the first sample and the last step the differentiator takes the
/// central difference centred on the located sample `idx`: it reads the
/// measures `idx - 1`, `idx`, `idx + 1` and the steps `idx - 1`, `idx`.
pub proof fn lemma_interior_sample_is_centred(n_dts: usize, idx: usize)
    requires
        0 < idx < n_dts,
    ensures
        stencil_for(n_dts as int, idx as int) matches Stencil::Central { prev, curr, next } && curr == idx
            && prev == idx - 1 && next == idx + 1,
{
}

/// Locating one sample later moves the central stencil one sample later:
/// the stencil follows the located sample and is never pinned to a fixed
/// place in the trace.
pub proof fn lemma_central_stencil_follows_sample(n_dts: usize, idx: usize)
    requires
        0 < idx,
        idx + 1 < n_dts,
    ensures
        stencil_for(n_dts as int, idx as int) matches Stencil::Central { prev: p0, curr: c0, next: x0 }
            && stencil_for(n_dts as int, idx + 1) matches Stencil::Central { prev: p1, curr: c1, next: x1 }
            && p1 == p0 + 1 && c1 == c0 + 1 && x1 == x0 + 1,
{
}

/// Past the last step the differentiator takes the backward difference over
/// the last step: the slope from the last-but-one measure to the last.
pub proof fn lemma_past_end_reads_last_step(n_dts: usize, idx: usize)
    requires
        1 <= n_dts <= idx,
        0 < idx,
    ensures
        stencil_for(n_dts as int, idx as int) matches Stencil::Backward { step, before, after } && step
            == n_dts - 1 && before == n_dts - 1 && after == n_dts,
{
}

/// A located sample that has a step after it (as every sample that the
/// differentiator's search returns has) never falls back on the backward
/// difference.
pub proof fn lemma_located_sample_is_not_backward(n_dts: int, idx: int)
    requires
        0 <= idx < n_dts,
    ensures
        !(stencil_for(n_dts, idx) is Backward),
{
}

} // verus!
