//! When a sampler reports its progress.
//!
//! A chain of `n` iterations reports after every `interval` completed
//! iterations, where `interval` is a twentieth of the run (at least one).

use vstd::prelude::*;

use vstd::arithmetic::div_mod::lemma_fundamental_div_mod;
use vstd::arithmetic::div_mod::lemma_fundamental_div_mod_converse;

verus! {

/// A twentieth of the run, and at least one iteration.
pub open spec fn spec_progress_interval(num_iterations: nat) -> nat {
    if num_iterations / 20 >= 1 {
        num_iterations / 20
    } else {
        1
    }
}

/// Whether the iteration with zero-based index `iteration` is followed by a
/// progress report: its completed count is a multiple of `interval`.
pub open spec fn spec_is_progress_point(iteration: nat, interval: nat) -> bool {
    (iteration + 1) % interval == 0
}

/// How many of the first `iterations` iterations are followed by a report.
pub open spec fn reports_within(iterations: nat, interval: nat) -> nat
    decreases iterations,
{
    if iterations == 0 {
        0
    } else {
        reports_within((iterations - 1) as nat, interval) + if spec_is_progress_point(
            (iterations - 1) as nat,
            interval,
        ) {
            1nat
        } else {
            0nat
        }
    }
}

/// The number of iterations between two progress reports of a run of
/// `num_iterations` iterations.
pub fn progress_interval(num_iterations: usize) -> (interval: usize)
    ensures
        interval == spec_progress_interval(num_iterations as nat),
        interval >= 1,
        num_iterations < 20 ==> interval == 1,
        num_iterations >= 20 ==> 20 * interval <= num_iterations < 20 * interval + 20,
{
    proof {
        lemma_interval_is_a_twentieth(num_iterations as nat);
    }
    let twentieth = num_iterations / 20;
    if twentieth >= 1 {
        twentieth
    } else {
        1
    }
}

/// Whether a report follows the iteration with zero-based index `iteration`.
pub fn is_progress_point(iteration: usize, interval: usize) -> (due: bool)
    requires
        interval > 0,
        iteration < usize::MAX,
    ensures
        due == spec_is_progress_point(iteration as nat, interval as nat),
        due == ((iteration + 1) % (interval as int) == 0),
{
    (iteration + 1) % interval == 0
}

/// The interval is a twentieth of the run, rounded down, and one for runs
/// shorter than twenty iterations.
pub proof fn lemma_interval_is_a_twentieth(num_iterations: nat)
    ensures
        num_iterations < 20 ==> spec_progress_interval(num_iterations) == 1,
        num_iterations >= 20 ==> 20 * spec_progress_interval(num_iterations) <= num_iterations < 20
            * spec_progress_interval(num_iterations) + 20,
{
    let n = num_iterations as int;
    lemma_fundamental_div_mod(n, 20);
    if num_iterations < 20 {
        lemma_fundamental_div_mod_converse(n, 20, 0, n);
    } else {
        assert(n / 20 >= 1) by {
            lemma_fundamental_div_mod_converse(n, 20, n / 20, n % 20);
        }
    }
}

/// A report follows an iteration exactly when the iterations completed so
/// far are a whole number of intervals.
pub proof fn lemma_progress_point_is_multiple(iteration: nat, interval: nat)
    requires
        interval > 0,
    ensures
        spec_is_progress_point(iteration, interval) <==> exists|k: int|
            #![trigger k * interval] k * interval == iteration + 1,
{
    let n = iteration as int + 1;
    let d = interval as int;
    lemma_fundamental_div_mod(n, d);
    if spec_is_progress_point(iteration, interval) {
        assert((n / d) * d == n) by (nonlinear_arith)
            requires
                n == d * (n / d) + n % d,
                n % d == 0,
        ;
    }
    if exists|k: int| #![trigger k * interval] k * interval == iteration + 1 {
        let k = choose|k: int| #![trigger k * interval] k * interval == iteration + 1;
        lemma_fundamental_div_mod_converse(n, d, k, 0);
    }
}

/// Progress is reported periodically: over a run of `iterations` iterations,
/// one report follows each completed multiple of the interval, so there are
/// exactly `iterations / interval` of them.
pub proof fn lemma_reports_within(iterations: nat, interval: nat)
    requires
        interval > 0,
    ensures
        reports_within(iterations, interval) == iterations / interval,
    decreases iterations,
{
    if iterations == 0 {
        assert(0nat / interval == 0) by {
            lemma_fundamental_div_mod_converse(0, interval as int, 0, 0);
        }
    } else {
        let prev = (iterations - 1) as nat;
        lemma_reports_within(prev, interval);
        let d = interval as int;
        lemma_fundamental_div_mod(prev as int, d);
        let q = prev as int / d;
        let r = prev as int % d;
        assert(prev as int == d * q + r);
        assert(0 <= r < d);
        if r == d - 1 {
            assert(iterations as int == (q + 1) * d + 0) by (nonlinear_arith)
                requires
                    prev as int == d * q + r,
                    r == d - 1,
                    iterations as int == prev as int + 1,
            ;
            lemma_fundamental_div_mod_converse(iterations as int, d, q + 1, 0);
        } else {
            assert(iterations as int == q * d + (r + 1)) by (nonlinear_arith)
                requires
                    prev as int == d * q + r,
                    iterations as int == prev as int + 1,
            ;
            lemma_fundamental_div_mod_converse(iterations as int, d, q, r + 1);
        }
    }
}

/// A run reports about twenty times: a run of fewer than twenty iterations
/// reports after every iteration, and a longer run reports at least twenty
/// and fewer than forty times.
pub proof fn lemma_about_twenty_reports(iterations: nat)
    ensures
        iterations < 20 ==> reports_within(iterations, spec_progress_interval(iterations))
            == iterations,
        iterations >= 20 ==> 20 <= reports_within(iterations, spec_progress_interval(iterations))
            < 40,
{
    let k = spec_progress_interval(iterations);
    lemma_reports_within(iterations, k);
    let n = iterations as int;
    lemma_fundamental_div_mod(n, 20);
    lemma_fundamental_div_mod(n, k as int);
    let q = n / k as int;
    let r = n % k as int;
    if iterations < 20 {
        assert(n / 20 == 0) by {
            lemma_fundamental_div_mod_converse(n, 20, 0, n);
        }
        lemma_fundamental_div_mod_converse(n, 1, n, 0);
    } else {
        let t = n / 20;
        assert(t >= 1) by {
            lemma_fundamental_div_mod_converse(n, 20, n / 20, n % 20);
        }
        assert(k == t);
        assert(20 <= q < 40) by (nonlinear_arith)
            requires
                n == 20 * t + n % 20,
                0 <= n % 20 < 20,
                t >= 1,
                n == k * q + r,
                0 <= r < k,
                k == t,
        ;
    }
}

} // verus!
