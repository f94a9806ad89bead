//! Handing the bodies of one step out to a fixed pool of workers.
//!
//! Every body is one unit of work. The units are dealt out as contiguous
//! spans of body indices, one span per worker, so that each output slot has
//! exactly one writer.

use vstd::prelude::*;

verus! {

/// A half-open range of body indices, `start..end`.
#[derive(Clone, Copy, Debug, PartialEq, Eq, Structural)]
pub struct Span {
    pub start: usize,
    pub end: usize,
}

/// Index of the first body of worker `w`, when `n` bodies are dealt out to
/// `workers` workers: each worker gets `n / workers` bodies, and the first
/// `n % workers` workers get one more.
///
/// Taken at `w == workers` it is `n`, the end of the last span.
pub open spec fn span_start(n: nat, workers: nat, w: nat) -> nat {
    w * (n / workers) + if w < n % workers {
        w
    } else {
        n % workers
    }
}

/// The span of worker `w`.
pub open spec fn span_spec(n: nat, workers: nat, w: nat) -> (int, int) {
    (span_start(n, workers, w) as int, span_start(n, workers, w + 1) as int)
}

/// Whether the body with index `i` lies in the span of worker `w`.
pub open spec fn in_span(n: nat, workers: nat, w: nat, i: nat) -> bool {
    span_start(n, workers, w) <= i < span_start(n, workers, w + 1)
}

/// Span starts never go back, and none lies beyond `n`.
pub proof fn lemma_span_start_monotone(n: nat, workers: nat, v: nat, w: nat)
    requires
        workers >= 1,
        v <= w <= workers,
    ensures
        span_start(n, workers, v) <= span_start(n, workers, w) <= n,
        span_start(n, workers, 0) == 0,
        span_start(n, workers, workers) == n,
{
    let q = n / workers;
    let r = n % workers;
    assert(n == workers * q + r && 0 <= r < workers) by {
        vstd::arithmetic::div_mod::lemma_fundamental_div_mod(n as int, workers as int);
    }
    assert(v * q <= w * q) by (nonlinear_arith)
        requires
            v <= w,
            0 <= q,
    ;
    assert(w * q <= workers * q) by (nonlinear_arith)
        requires
            w <= workers,
            0 <= q,
    ;
    assert(0 * q == 0) by (nonlinear_arith);
}

/// The load is balanced: a span holds `n / workers` bodies, and one more in
/// each of the first `n % workers` workers, so two spans differ by at most
/// one body.
pub proof fn lemma_spans_balanced(n: nat, workers: nat, w: nat)
    requires
        workers >= 1,
        w < workers,
    ensures
        span_start(n, workers, w + 1) - span_start(n, workers, w) == n / workers + if w < n
            % workers {
            1nat
        } else {
            0nat
        },
{
    let q = n / workers;
    assert((w + 1) * q == w * q + q) by (nonlinear_arith);
}

/// The span of worker `w` out of `workers`, for a step over `n` bodies;
/// `None` exactly when there is no such worker, that is unless
/// `w < workers`.
pub fn span_of(n: usize, workers: usize, w: usize) -> (span: Option<Span>)
    ensures
        span.is_some() <==> w < workers,
        span.is_some() ==> (span.unwrap().start as int, span.unwrap().end as int) == span_spec(
            n as nat,
            workers as nat,
            w as nat,
        ),
{
    if w >= workers {
        return None;
    }
    let q: usize = n / workers;
    let r: usize = n % workers;
    proof {
        lemma_span_start_monotone(n as nat, workers as nat, w as nat, (w + 1) as nat);
        assert((w + 1) * q == w * q + q) by (nonlinear_arith);
        assert(0 <= w * q) by (nonlinear_arith);
    }
    if w < r {
        let start: usize = w * q + w;
        Some(Span { start, end: start + q + 1 })
    } else {
        let start: usize = w * q + r;
        Some(Span { start, end: start + q })
    }
}

/// Every body has exactly one worker: for `i < n` some worker's span holds
/// `i`, and no two spans hold the same index.
pub proof fn lemma_one_worker_per_body(n: nat, workers: nat, i: nat)
    requires
        workers >= 1,
        i < n,
    ensures
        exists|w: nat| w < workers && in_span(n, workers, w, i),
        forall|v: nat, w: nat|
            v < workers && w < workers && in_span(n, workers, v, i) && in_span(n, workers, w, i)
                ==> v == w,
{
    lemma_span_start_monotone(n, workers, 0, workers);
    lemma_owner_exists(n, workers, i, workers);
    assert forall|v: nat, w: nat|
        v < workers && w < workers && in_span(n, workers, v, i) && in_span(
            n,
            workers,
            w,
            i,
        ) implies v == w by {
        if v < w {
            lemma_span_start_monotone(n, workers, v + 1, w);
        } else if w < v {
            lemma_span_start_monotone(n, workers, w + 1, v);
        }
    }
}

/// Below any span start that lies beyond `i` there is a worker whose span
/// holds `i`.
proof fn lemma_owner_exists(n: nat, workers: nat, i: nat, bound: nat)
    requires
        workers >= 1,
        bound <= workers,
        i < span_start(n, workers, bound),
    ensures
        exists|w: nat| w < bound && in_span(n, workers, w, i),
    decreases bound,
{
    lemma_span_start_monotone(n, workers, 0, bound);
    if bound > 0 {
        let w = (bound - 1) as nat;
        if span_start(n, workers, w) <= i {
            assert(in_span(n, workers, w, i));
        } else {
            lemma_owner_exists(n, workers, i, w);
        }
    }
}

} // verus!
