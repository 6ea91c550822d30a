use vstd::prelude::*;

use vstd::arithmetic::div_mod::lemma_fundamental_div_mod;
use vstd::arithmetic::div_mod::lemma_fundamental_div_mod_converse;
use vstd::arithmetic::div_mod::lemma_mod_add_multiples_vanish;
use vstd::arithmetic::div_mod::lemma_mod_pos_bound;

use crate::algorithms::weighted_round_robin::is_wrr_choice;
use crate::algorithms::weighted_round_robin::prefix_weight;
use crate::algorithms::weighted_round_robin::total_weight;
use crate::state::Backend;

verus! {

/// 1 when the cursor value `c` lands, modulo `t`, inside the half-open
/// residue window `[a, b)`; 0 otherwise.
pub open spec fn window_hit(c: int, t: int, a: int, b: int) -> int
    recommends
        t > 0,
{
    if a <= c % t < b {
        1int
    } else {
        0int
    }
}

/// How many of the `n` successive cursor values `c, c + 1, ..., c + n - 1`
/// land, modulo `t`, inside the half-open residue window `[a, b)`.
///
/// A cursor-driven strategy maps cursor value `k` to the candidate owning
/// the residue window that `k % t` falls into, so this counts how often
/// that candidate is chosen over `n` successive selections.
pub open spec fn hits_in_window(c: int, n: int, t: int, a: int, b: int) -> int
    recommends
        t > 0,
    decreases n,
{
    if n <= 0 {
        0
    } else {
        hits_in_window(c, n - 1, t, a, b) + window_hit(c + n - 1, t, a, b)
    }
}

/// A run of `m + n` selections hits the window as often as its first `m`
/// and its last `n` do together.
proof fn lemma_hits_split(c: int, m: int, n: int, t: int, a: int, b: int)
    requires
        m >= 0,
        n >= 0,
        t > 0,
    ensures
        hits_in_window(c, m + n, t, a, b) == hits_in_window(c, m, t, a, b) + hits_in_window(
            c + m,
            n,
            t,
            a,
            b,
        ),
    decreases n,
{
    if n > 0 {
        lemma_hits_split(c, m, n - 1, t, a, b);
    }
}

/// Hit counts are never negative.
proof fn lemma_hits_nonneg(c: int, n: int, t: int, a: int, b: int)
    requires
        t > 0,
    ensures
        hits_in_window(c, n, t, a, b) >= 0,
    decreases n,
{
    if n > 0 {
        lemma_hits_nonneg(c, n - 1, t, a, b);
    }
}

/// For a run starting at cursor 0 and no longer than one period, the hits
/// are the part of `[a, b)` that the run has reached.
proof fn lemma_hits_base(n: int, t: int, a: int, b: int)
    requires
        0 <= n <= t,
        0 <= a <= b <= t,
    ensures
        hits_in_window(0, n, t, a, b) == if n <= a {
            0int
        } else if n <= b {
            n - a
        } else {
            b - a
        },
    decreases n,
{
    if n > 0 {
        lemma_hits_base(n - 1, t, a, b);
        lemma_fundamental_div_mod_converse(n - 1, t, 0, n - 1);
    }
}

/// Over one full period of `t` successive selections, a window of width
/// `b - a` is hit exactly `b - a` times, wherever the run starts.
proof fn lemma_hits_full_window(c: int, t: int, a: int, b: int)
    requires
        c >= 0,
        t > 0,
        0 <= a <= b <= t,
    ensures
        hits_in_window(c, t, t, a, b) == b - a,
    decreases c,
{
    if c == 0 {
        lemma_hits_base(t, t, a, b);
    } else {
        lemma_hits_full_window(c - 1, t, a, b);
        lemma_hits_split(c - 1, 1, t, t, a, b);
        assert(hits_in_window(c - 1, t + 1, t, a, b) == hits_in_window(c - 1, t, t, a, b)
            + window_hit(c + t - 1, t, a, b));
        assert(hits_in_window(c - 1, 0, t, a, b) == 0);
        assert(hits_in_window(c - 1, 1, t, a, b) == window_hit(c - 1, t, a, b));
        lemma_mod_add_multiples_vanish(c - 1, t);
        assert((c + t - 1) % t == (c - 1) % t);
    }
}

/// Over `q` full periods the window is hit exactly `q` times its width.
proof fn lemma_hits_whole_periods(c: int, q: int, t: int, a: int, b: int)
    requires
        c >= 0,
        q >= 0,
        t > 0,
        0 <= a <= b <= t,
    ensures
        hits_in_window(c, q * t, t, a, b) == q * (b - a),
    decreases q,
{
    if q == 0 {
        assert(q * t == 0) by (nonlinear_arith)
            requires
                q == 0,
        ;
        assert(q * (b - a) == 0) by (nonlinear_arith)
            requires
                q == 0,
        ;
    } else {
        lemma_hits_whole_periods(c + t, q - 1, t, a, b);
        lemma_hits_full_window(c, t, a, b);
        assert(q * t == t + (q - 1) * t) by (nonlinear_arith);
        assert((q - 1) * t >= 0) by (nonlinear_arith)
            requires
                q >= 1,
                t > 0,
        ;
        lemma_hits_split(c, t, (q - 1) * t, t, a, b);
        assert(q * (b - a) == (b - a) + (q - 1) * (b - a)) by (nonlinear_arith);
    }
}

/// A partial period hits the window no more often than a full one does.
proof fn lemma_hits_partial_period(c: int, r: int, t: int, a: int, b: int)
    requires
        c >= 0,
        t > 0,
        0 <= r <= t,
        0 <= a <= b <= t,
    ensures
        0 <= hits_in_window(c, r, t, a, b) <= b - a,
{
    lemma_hits_nonneg(c, r, t, a, b);
    lemma_hits_split(c, r, t - r, t, a, b);
    lemma_hits_nonneg(c + r, t - r, t, a, b);
    lemma_hits_full_window(c, t, a, b);
}

/// Round-robin fairness: over `n` successive selections from a non-empty
/// candidate list of length `len`, starting at any cursor `c`, the index `i`
/// is chosen at least `n / len` times (the floor of `n / len`) and at most
/// `(n + len - 1) / len` times (its ceiling). A selection at cursor value
/// `k` chooses index `i` exactly when `k % len == i`, which is what
/// `hits_in_window` counts for the width-one window `[i, i + 1)`.
pub proof fn lemma_round_robin_coverage(c: int, n: int, len: int, i: int)
    requires
        c >= 0,
        n >= 0,
        len > 0,
        0 <= i < len,
    ensures
        n / len <= hits_in_window(c, n, len, i, i + 1) <= (n + len - 1) / len,
{
    let q = n / len;
    let r = n % len;
    lemma_fundamental_div_mod(n, len);
    lemma_mod_pos_bound(n, len);
    assert(q >= 0) by (nonlinear_arith)
        requires
            n >= 0,
            len > 0,
            n == q * len + r,
            r < len,
    ;
    lemma_hits_whole_periods(c, q, len, i, i + 1);
    assert(q * len >= 0) by (nonlinear_arith)
        requires
            q >= 0,
            len > 0,
    ;
    lemma_hits_split(c, q * len, r, len, i, i + 1);
    lemma_hits_partial_period(c + q * len, r, len, i, i + 1);
    assert(q * (i + 1 - i) == q) by (nonlinear_arith);
    if r == 0 {
        assert(hits_in_window(c + q * len, 0, len, i, i + 1) == 0);
        lemma_fundamental_div_mod_converse(n + len - 1, len, q, len - 1);
    } else {
        assert((q + 1) * len == q * len + len) by (nonlinear_arith);
        lemma_fundamental_div_mod_converse(n + len - 1, len, q + 1, r - 1);
    }
}

/// The prefix weights are non-negative and non-decreasing.
proof fn lemma_prefix_weight_mono(s: Seq<Backend>, i: int, j: int)
    requires
        0 <= i <= j <= s.len(),
    ensures
        0 <= prefix_weight(s, i) <= prefix_weight(s, j),
    decreases j - i,
{
    if i < j {
        lemma_prefix_weight_mono(s, i, j - 1);
    } else {
        lemma_prefix_weight_nonneg(s, i);
    }
}

/// A prefix weight is never negative.
proof fn lemma_prefix_weight_nonneg(s: Seq<Backend>, i: int)
    requires
        i <= s.len(),
    ensures
        prefix_weight(s, i) >= 0,
    decreases i,
{
    if i > 0 {
        lemma_prefix_weight_nonneg(s, i - 1);
    }
}

/// A cursor whose offset lands in candidate `i`'s weight slice is exactly a
/// cursor on which the cumulative-weight walk picks `i`.
pub proof fn lemma_window_hit_is_wrr_choice(s: Seq<Backend>, c: int, i: int)
    requires
        c >= 0,
        0 <= i < s.len(),
        total_weight(s) > 0,
    ensures
        window_hit(c, total_weight(s), prefix_weight(s, i), prefix_weight(s, i + 1)) == 1
            <==> is_wrr_choice(s, c % total_weight(s), i),
{
}

/// Weighted fairness: over any `total_weight(s)` successive selections —
/// one full period of the cursor — candidate `i` is chosen exactly
/// `s[i].current_weight` times, wherever the run starts.
pub proof fn lemma_weighted_round_robin_window(c: int, s: Seq<Backend>, i: int)
    requires
        c >= 0,
        0 <= i < s.len(),
        total_weight(s) > 0,
    ensures
        hits_in_window(
            c,
            total_weight(s),
            total_weight(s),
            prefix_weight(s, i),
            prefix_weight(s, i + 1),
        ) == s[i].current_weight,
{
    lemma_prefix_weight_mono(s, 0, i);
    lemma_prefix_weight_mono(s, i + 1, s.len() as int);
    lemma_hits_full_window(c, total_weight(s), prefix_weight(s, i), prefix_weight(s, i + 1));
}

/// Weighted fairness over many periods: across `m` full periods the
/// selection counts are exactly proportional to the current weights —
/// candidate `i` is chosen `m * s[i].current_weight` times.
pub proof fn lemma_weighted_round_robin_proportional(c: int, s: Seq<Backend>, i: int, m: int)
    requires
        c >= 0,
        m >= 0,
        0 <= i < s.len(),
        total_weight(s) > 0,
    ensures
        hits_in_window(
            c,
            m * total_weight(s),
            total_weight(s),
            prefix_weight(s, i),
            prefix_weight(s, i + 1),
        ) == m * s[i].current_weight,
{
    lemma_prefix_weight_mono(s, 0, i);
    lemma_prefix_weight_mono(s, i + 1, s.len() as int);
    lemma_hits_whole_periods(
        c,
        m,
        total_weight(s),
        prefix_weight(s, i),
        prefix_weight(s, i + 1),
    );
    assert(m * (prefix_weight(s, i + 1) - prefix_weight(s, i)) == m * s[i].current_weight) by (nonlinear_arith)
        requires
            prefix_weight(s, i + 1) - prefix_weight(s, i) == s[i].current_weight,
    ;
}

} // verus!
