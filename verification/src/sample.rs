//! Curve definitions and the sampling/transform pipeline.
//!
//! A queued curve is sampled on an arithmetic chain of parameter values,
//! every sample is evaluated and mapped through the curve's style snapshot,
//! and the transformed points are clipped against the live view window.
use vstd::prelude::*;

use crate::fbits::{add_bits, lt_bits, le_bits, fmax_bits, fmin_bits, add64, lt64, le64, fmax64, fmin64};
use crate::style::{Style, transform_spec};
use crate::tree_node::{TreeNode, eval_spec, eval};

verus! {

/// The most samples one curve yields: the sampler stops there even when the
/// parameter chain has not yet passed its stop value, so that sampling is
/// total for every domain and step.
pub const MAX_SAMPLES: usize = 1000000;

/// A parametric curve: the sampling domain `[from, to]` with step `step`, and
/// the two coordinate expressions in the parameter. All scalars are binary64
/// bit patterns.
#[derive(Debug)]
pub struct ForStruct {
    pub from: u64,
    pub to: u64,
    pub step: u64,
    pub x: Box<TreeNode>,
    pub y: Box<TreeNode>,
}

/// The chain of parameter values starting at `t` and advancing by rounded
/// addition of `step`, while the value stays below `stop` and the fuel lasts.
pub open spec fn chain_from(t: u64, stop: u64, step: u64, fuel: nat) -> Seq<u64>
    decreases fuel,
{
    if fuel == 0 || !lt_bits(t, stop) {
        Seq::empty()
    } else {
        seq![t] + chain_from(add_bits(t, step), stop, step, (fuel - 1) as nat)
    }
}

/// The parameter values at which one curve is sampled: the chain from `from`
/// below the exclusive stop, cut off at `MAX_SAMPLES`.
pub open spec fn sample_params(from: u64, stop: u64, step: u64) -> Seq<u64> {
    chain_from(from, stop, step, MAX_SAMPLES as nat)
}

/// Whether a transformed point lies inside the visible window.
pub open spec fn point_in_window(p: (u64, u64), xr: (u64, u64), yr: (u64, u64)) -> bool {
    le_bits(p.1, yr.1) && le_bits(yr.0, p.1) && le_bits(xr.0, p.0) && le_bits(p.0, xr.1)
}

/// The plot-space points one curve contributes for the given parameter
/// values: each sample is evaluated, transformed by the style snapshot, and
/// kept only if it lies inside the window. A point with a NaN coordinate
/// fails every window comparison and is dropped.
pub open spec fn points_of(
    stat: ForStruct,
    st: Style,
    xr: (u64, u64),
    yr: (u64, u64),
    ts: Seq<u64>,
) -> Seq<(u64, u64)>
    decreases ts.len(),
{
    if ts.len() == 0 {
        Seq::empty()
    } else {
        let p = transform_spec(st, eval_spec(*stat.x, ts[0]), eval_spec(*stat.y, ts[0]));
        let rest = points_of(stat, st, xr, yr, ts.drop_first());
        if point_in_window(p, xr, yr) {
            seq![p] + rest
        } else {
            rest
        }
    }
}

/// The effective sampling start for a curve: its own lower bound clamped
/// against the window's lower x bound. This clamp treats the parameter domain
/// and the visible x-range as roughly coinciding; it is a deliberate
/// heuristic, exact only when the x expression is the parameter itself.
pub open spec fn effective_from(stat: ForStruct, xr: (u64, u64)) -> u64 {
    fmax_bits(stat.from, xr.0)
}

/// The exclusive stop of a curve's parameter chain: its upper bound clamped
/// against the window's upper x bound, plus one step so the last in-range
/// sample is retained.
pub open spec fn effective_stop(stat: ForStruct, xr: (u64, u64)) -> u64 {
    add_bits(fmin_bits(stat.to, xr.1), stat.step)
}

/// All points one queued curve contributes, for the live window `xr`/`yr`.
pub open spec fn curve_points(stat: ForStruct, st: Style, xr: (u64, u64), yr: (u64, u64)) -> Seq<
    (u64, u64),
> {
    points_of(
        stat,
        st,
        xr,
        yr,
        sample_params(effective_from(stat, xr), effective_stop(stat, xr), stat.step),
    )
}

/// Collects the parameter chain of one curve into a vector.
fn collect_params(from: u64, stop: u64, step: u64) -> (r: Vec<u64>)
    ensures
        r@ == sample_params(from, stop, step),
{
    let mut out: Vec<u64> = Vec::new();
    let mut t = from;
    let mut i: usize = 0;
    while i < MAX_SAMPLES && lt64(t, stop)
        invariant
            i == out@.len(),
            i <= MAX_SAMPLES,
            sample_params(from, stop, step) == out@ + chain_from(
                t,
                stop,
                step,
                (MAX_SAMPLES - i) as nat,
            ),
        decreases MAX_SAMPLES - i,
    {
        proof {
            assert(chain_from(t, stop, step, (MAX_SAMPLES - i) as nat) == seq![t] + chain_from(
                add_bits(t, step),
                stop,
                step,
                (MAX_SAMPLES - (i + 1)) as nat,
            ));
            assert(out@ + (seq![t] + chain_from(
                add_bits(t, step),
                stop,
                step,
                (MAX_SAMPLES - (i + 1)) as nat,
            )) =~= out@.push(t) + chain_from(
                add_bits(t, step),
                stop,
                step,
                (MAX_SAMPLES - (i + 1)) as nat,
            ));
        }
        out.push(t);
        t = add64(t, step);
        i = i + 1;
    }
    proof {
        assert(chain_from(t, stop, step, (MAX_SAMPLES - i) as nat) =~= Seq::<u64>::empty());
        assert(out@ + Seq::<u64>::empty() =~= out@);
    }
    out
}

/// Samples one curve against the live window and returns its surviving
/// transformed points, in increasing parameter order.
pub fn render_curve(stat: &ForStruct, st: &Style, xr: (u64, u64), yr: (u64, u64)) -> (r: Vec<
    (u64, u64),
>)
    ensures
        r@ == curve_points(*stat, *st, xr, yr),
{
    let from = fmax64(stat.from, xr.0);
    let stop = add64(fmin64(stat.to, xr.1), stat.step);
    let ts = collect_params(from, stop, stat.step);
    let mut out: Vec<(u64, u64)> = Vec::new();
    let mut i: usize = 0;
    proof {
        assert(ts@.subrange(0, ts@.len() as int) =~= ts@);
        assert(Seq::<(u64, u64)>::empty() + points_of(*stat, *st, xr, yr, ts@) =~= points_of(
            *stat,
            *st,
            xr,
            yr,
            ts@,
        ));
    }
    while i < ts.len()
        invariant
            i <= ts@.len(),
            ts@ == sample_params(effective_from(*stat, xr), effective_stop(*stat, xr), stat.step),
            points_of(*stat, *st, xr, yr, ts@) == out@ + points_of(
                *stat,
                *st,
                xr,
                yr,
                ts@.subrange(i as int, ts@.len() as int),
            ),
        decreases ts@.len() - i,
    {
        let t = ts[i];
        let px = eval(&stat.x, t);
        let py = eval(&stat.y, t);
        let q = st.process_data(px, py);
        let keep = le64(q.1, yr.1) && le64(yr.0, q.1) && le64(xr.0, q.0) && le64(q.0, xr.1);
        proof {
            let tail = ts@.subrange(i as int, ts@.len() as int);
            assert(tail[0] == ts@[i as int]);
            assert(tail.drop_first() =~= ts@.subrange(i + 1, ts@.len() as int));
            if point_in_window(q, xr, yr) {
                assert(out@ + points_of(*stat, *st, xr, yr, tail) =~= out@.push(q) + points_of(
                    *stat,
                    *st,
                    xr,
                    yr,
                    tail.drop_first(),
                ));
            }
        }
        if keep {
            out.push(q);
        }
        i = i + 1;
    }
    proof {
        assert(ts@.subrange(i as int, ts@.len() as int) =~= Seq::<u64>::empty());
        assert(out@ + Seq::<(u64, u64)>::empty() =~= out@);
    }
    out
}

/// Law: every point the pipeline emits lies inside the window it was clipped
/// against — in particular no point with a NaN coordinate survives, since a
/// NaN fails every window comparison.
pub proof fn lemma_points_clipped(
    stat: ForStruct,
    st: Style,
    xr: (u64, u64),
    yr: (u64, u64),
    ts: Seq<u64>,
)
    ensures
        forall|j: int|
            0 <= j < points_of(stat, st, xr, yr, ts).len() ==> point_in_window(
                #[trigger] points_of(stat, st, xr, yr, ts)[j],
                xr,
                yr,
            ),
    decreases ts.len(),
{
    if ts.len() > 0 {
        lemma_points_clipped(stat, st, xr, yr, ts.drop_first());
        let p = transform_spec(st, eval_spec(*stat.x, ts[0]), eval_spec(*stat.y, ts[0]));
        let rest = points_of(stat, st, xr, yr, ts.drop_first());
        if point_in_window(p, xr, yr) {
            assert forall|j: int|
                0 <= j < points_of(stat, st, xr, yr, ts).len() implies point_in_window(
                #[trigger] points_of(stat, st, xr, yr, ts)[j],
                xr,
                yr,
            ) by {
                if j > 0 {
                    assert(points_of(stat, st, xr, yr, ts)[j] == rest[j - 1]);
                }
            }
        }
    }
}

} // verus!
