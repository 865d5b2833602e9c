//! The engine's laws: properties that relate whole ticks, proved once
//! for every well-formed graph and activation vector.

use vstd::prelude::*;
use crate::graph::{Graph, Node, lemma_incoming_of_wf};
use crate::engine::{
    RankedState, id_index, inject_entries, inject_one, state_entries, step_all, step_value,
    weighted_sum,
};
use crate::num::{
    MAX_ACT, THRESHOLD, blend_spec, energy_spec, retained_spec, squash_spec, lemma_squash_mono,
    lemma_squash_strict,
};
use vstd::arithmetic::div_mod::{
    lemma_div_is_ordered, lemma_div_plus_one, lemma_div_pos_is_pos, lemma_div_multiples_vanish,
    lemma_hoist_over_denominator,
};

verus! {

/// The activation vector after `n` whole ticks.
pub open spec fn step_iter(g: Graph, acts: Seq<i64>, n: nat) -> Seq<i64>
    decreases n,
{
    if n == 0 {
        acts
    } else {
        step_all(g, step_iter(g, acts, (n - 1) as nat))
    }
}

/// Every next-tick value lies in `[0, MAX_ACT]`, so one tick keeps the
/// activation vector well formed.
pub proof fn lemma_step_value_in_range(g: Graph, acts: Seq<i64>, k: int)
    requires
        g.wf(),
        acts.len() == g.nodes@.len(),
        forall|j: int| 0 <= j < acts.len() ==> -MAX_ACT <= #[trigger] acts[j] <= MAX_ACT,
        0 <= k < acts.len(),
    ensures
        0 <= step_value(g, acts, k) <= MAX_ACT,
{
    let v = acts[k] as int;
    lemma_div_is_ordered(3 * v, 3 * (MAX_ACT as int), 4);
    lemma_div_is_ordered(3 * (-(MAX_ACT as int)), 3 * v, 4);
}

/// One tick preserves length and bounds, and the vector it yields holds
/// exactly the per-node step values.
pub proof fn lemma_step_all_wf(g: Graph, acts: Seq<i64>)
    requires
        g.wf(),
        acts.len() == g.nodes@.len(),
        forall|j: int| 0 <= j < acts.len() ==> -MAX_ACT <= #[trigger] acts[j] <= MAX_ACT,
    ensures
        step_all(g, acts).len() == acts.len(),
        forall|k: int|
            0 <= k < acts.len() ==> #[trigger] step_all(g, acts)[k] == step_value(g, acts, k),
        forall|k: int|
            0 <= k < acts.len() ==> 0 <= #[trigger] step_all(g, acts)[k] <= MAX_ACT,
{
    assert forall|k: int| 0 <= k < acts.len() implies #[trigger] step_all(g, acts)[k]
        == step_value(g, acts, k) && 0 <= step_all(g, acts)[k] <= MAX_ACT by {
        lemma_step_value_in_range(g, acts, k);
    }
}

/// A weighted sum over all-zero activations is zero.
proof fn lemma_weighted_sum_zero(acts: Seq<i64>, inc: Seq<(usize, i64)>)
    requires
        forall|j: int| 0 <= j < inc.len() ==> (#[trigger] inc[j]).0 < acts.len(),
        forall|k: int| 0 <= k < acts.len() ==> #[trigger] acts[k] == 0,
    ensures
        weighted_sum(acts, inc) == 0,
    decreases inc.len(),
{
    if inc.len() > 0 {
        assert(forall|j: int|
            0 <= j < inc.drop_last().len() ==> (#[trigger] inc.drop_last()[j]) == inc[j]);
        lemma_weighted_sum_zero(acts, inc.drop_last());
        assert(acts[inc.last().0 as int] == 0);
        assert(0int * inc.last().1 == 0) by (nonlinear_arith);
    }
}

/// Idle fixed point, one tick: from the all-zero state a tick computes
/// zero for every node.
pub proof fn lemma_idle_step(g: Graph, acts: Seq<i64>)
    requires
        g.wf(),
        acts.len() == g.nodes@.len(),
        forall|k: int| 0 <= k < acts.len() ==> #[trigger] acts[k] == 0,
    ensures
        forall|k: int| 0 <= k < acts.len() ==> step_value(g, acts, k) == 0,
{
    assert forall|k: int| 0 <= k < acts.len() implies step_value(g, acts, k) == 0 by {
        lemma_incoming_of_wf(g.edges@, g.n(), k);
        lemma_weighted_sum_zero(acts, g.incoming@[k]@);
        assert(retained_spec(0) == 0);
        assert(energy_spec(0) == 0);
    }
}

/// Idle fixed point: from the all-zero state, any number of ticks with
/// no injections leaves every activation at zero.
pub proof fn lemma_idle_fixed_point(g: Graph, acts: Seq<i64>, n: nat)
    requires
        g.wf(),
        acts.len() == g.nodes@.len(),
        forall|k: int| 0 <= k < acts.len() ==> #[trigger] acts[k] == 0,
    ensures
        step_iter(g, acts, n).len() == acts.len(),
        forall|k: int| 0 <= k < acts.len() ==> #[trigger] step_iter(g, acts, n)[k] == 0,
    decreases n,
{
    if n > 0 {
        lemma_idle_fixed_point(g, acts, (n - 1) as nat);
        let prev = step_iter(g, acts, (n - 1) as nat);
        lemma_idle_step(g, prev);
        lemma_step_all_wf(g, prev);
    }
}

/// A start value decayed through `n` ticks: three quarters kept each
/// tick, floored at zero, and never clamped from above.
pub open spec fn decayed(v0: int, n: nat) -> int
    decreases n,
{
    if n == 0 {
        v0
    } else {
        let p = retained_spec(decayed(v0, (n - 1) as nat));
        if p >= 0 {
            p
        } else {
            0
        }
    }
}

/// A nonnegative start value decays without ever growing or going
/// negative.
pub proof fn lemma_decayed_bounds(v0: int, n: nat)
    requires
        v0 >= 0,
    ensures
        0 <= decayed(v0, n) <= v0,
    decreases n,
{
    if n > 0 {
        lemma_decayed_bounds(v0, (n - 1) as nat);
        let p = decayed(v0, (n - 1) as nat);
        lemma_div_pos_is_pos(3 * p, 4);
        lemma_div_is_ordered(3 * p, 4 * p, 4);
        lemma_div_multiples_vanish(p, 4);
    }
}

/// Sensor decay law: with no injections, a sensor that starts at `v0`
/// holds exactly `decayed(v0, n)` after `n` ticks.
pub proof fn lemma_sensor_decay(g: Graph, acts: Seq<i64>, k: int, n: nat)
    requires
        g.wf(),
        acts.len() == g.nodes@.len(),
        forall|j: int| 0 <= j < acts.len() ==> -MAX_ACT <= #[trigger] acts[j] <= MAX_ACT,
        0 <= k < acts.len(),
        g.nodes@[k].category is Sensor,
    ensures
        step_iter(g, acts, n).len() == acts.len(),
        forall|j: int|
            0 <= j < acts.len() ==> -MAX_ACT <= #[trigger] step_iter(g, acts, n)[j] <= MAX_ACT,
        step_iter(g, acts, n)[k] == decayed(acts[k] as int, n),
    decreases n,
{
    if n > 0 {
        lemma_sensor_decay(g, acts, k, (n - 1) as nat);
        let prev = step_iter(g, acts, (n - 1) as nat);
        lemma_step_all_wf(g, prev);
    }
}

/// Injection blend law: one supplied entry blends exactly its node —
/// `v * 0.3 + x * 0.7` — and leaves every other node unchanged; an
/// entry naming no node changes nothing.
pub proof fn lemma_injection_blend(nodes: Seq<Node>, acts: Seq<i64>, entry: (String, i64))
    ensures
        inject_entries(nodes, acts, seq![entry]).len() == acts.len(),
        ({
            let i = id_index(nodes, entry.0@);
            let r = inject_entries(nodes, acts, seq![entry]);
            &&& (0 <= i < acts.len() ==> r[i] == blend_spec(acts[i] as int, entry.1 as int) as i64
                && (forall|j: int| 0 <= j < acts.len() && j != i ==> #[trigger] r[j] == acts[j]))
            &&& (!(0 <= i < acts.len()) ==> r == acts)
        }),
{
    let s = seq![entry];
    assert(s[0] == entry);
    assert(s.drop_first() =~= Seq::<(String, i64)>::empty());
    assert(inject_entries(nodes, acts, s) == inject_entries(
        nodes,
        inject_one(nodes, acts, entry.0@, entry.1),
        s.drop_first(),
    ));
    assert(inject_entries(
        nodes,
        inject_one(nodes, acts, entry.0@, entry.1),
        Seq::<(String, i64)>::empty(),
    ) == inject_one(nodes, acts, entry.0@, entry.1));
}

/// Weighted propagation: a non-sensor node fed by exactly the edges
/// `(a, w1)` and `(b, w2)` gets, in one tick, the squashed and clamped
/// sum of its retained value and the stiffness-scaled weighted inputs.
pub proof fn lemma_weighted_propagation(
    g: Graph,
    acts: Seq<i64>,
    f: int,
    a: usize,
    b: usize,
    w1: i64,
    w2: i64,
)
    requires
        g.wf(),
        acts.len() == g.nodes@.len(),
        0 <= f < acts.len(),
        !(g.nodes@[f].category is Sensor),
        g.incoming@[f]@ == seq![(a, w1), (b, w2)],
    ensures
        step_value(g, acts, f) == squash_spec(
            retained_spec(acts[f] as int) + energy_spec(
                acts[a as int] * w1 + acts[b as int] * w2,
            ),
        ),
{
    let inc = g.incoming@[f]@;
    assert(inc.drop_last() =~= seq![(a, w1)]);
    assert(seq![(a, w1)].drop_last() =~= Seq::<(usize, i64)>::empty());
    assert(weighted_sum(acts, Seq::<(usize, i64)>::empty()) == 0);
    assert(weighted_sum(acts, seq![(a, w1)]) == acts[a as int] * w1);
    assert(weighted_sum(acts, inc) == acts[a as int] * w1 + acts[b as int] * w2);
}

/// Injection frame law for whole lists: blending any list of entries
/// keeps the vector's length, and a node named by no entry keeps its
/// activation exactly.
pub proof fn lemma_inject_entries_frame(
    nodes: Seq<Node>,
    acts: Seq<i64>,
    entries: Seq<(String, i64)>,
    j: int,
)
    requires
        0 <= j < acts.len(),
        forall|m: int|
            0 <= m < entries.len() ==> id_index(nodes, (#[trigger] entries[m]).0@) != j,
    ensures
        inject_entries(nodes, acts, entries).len() == acts.len(),
        inject_entries(nodes, acts, entries)[j] == acts[j],
    decreases entries.len(),
{
    if entries.len() > 0 {
        let next = inject_one(nodes, acts, entries[0].0@, entries[0].1);
        assert(forall|m: int|
            0 <= m < entries.drop_first().len() ==> (#[trigger] entries.drop_first()[m])
                == entries[m + 1]);
        lemma_inject_entries_frame(nodes, next, entries.drop_first(), j);
    }
}

/// Ranking rows come only from `State` nodes: every row names a node
/// of that category and carries exactly its activation and label.
pub proof fn lemma_state_entries_only_states(nodes: Seq<Node>, acts: Seq<i64>, e: RankedState)
    requires
        state_entries(nodes, acts).contains(e),
    ensures
        exists|k: int|
            0 <= k < nodes.len() && (#[trigger] nodes[k]).category is State && e.id == nodes[k].id
                && e.label == nodes[k].label && e.value == acts[k],
    decreases nodes.len(),
{
    if nodes.len() == 0 {
    } else {
        let rest = state_entries(nodes.drop_last(), acts);
        let last_entry = RankedState {
            id: nodes.last().id,
            label: nodes.last().label,
            value: acts[nodes.len() - 1],
        };
        if nodes.last().category is State && e == last_entry {
            let k = nodes.len() - 1;
            assert(0 <= k < nodes.len() && nodes[k].category is State && e.id == nodes[k].id
                && e.label == nodes[k].label && e.value == acts[k]);
        } else {
            assert(rest.contains(e)) by {
                if nodes.last().category is State {
                    let s = rest.push(last_entry);
                    let i = choose|i: int| 0 <= i < s.len() && s[i] == e;
                    assert(i < rest.len());
                    assert(rest[i] == e);
                }
            }
            lemma_state_entries_only_states(nodes.drop_last(), acts, e);
            let k = choose|k: int|
                0 <= k < nodes.drop_last().len() && (#[trigger] nodes.drop_last()[k]).category
                    is State && e.id == nodes.drop_last()[k].id && e.label
                    == nodes.drop_last()[k].label && e.value == acts[k];
            assert(nodes.drop_last()[k] == nodes[k]);
        }
    }
}

/// Every `State` node appears among the ranking rows, with its current
/// activation and label.
pub proof fn lemma_state_entries_complete(nodes: Seq<Node>, acts: Seq<i64>, k: int)
    requires
        0 <= k < nodes.len(),
        nodes[k].category is State,
    ensures
        state_entries(nodes, acts).contains(
            RankedState { id: nodes[k].id, label: nodes[k].label, value: acts[k] },
        ),
    decreases nodes.len(),
{
    let entry = RankedState { id: nodes[k].id, label: nodes[k].label, value: acts[k] };
    let rest = state_entries(nodes.drop_last(), acts);
    if k == nodes.len() - 1 {
        assert(state_entries(nodes, acts)[rest.len() as int] == entry);
    } else {
        assert(nodes.drop_last()[k] == nodes[k]);
        lemma_state_entries_complete(nodes.drop_last(), acts, k);
        let i = choose|i: int| 0 <= i < rest.len() && rest[i] == entry;
        assert(state_entries(nodes, acts)[i] == entry);
    }
}

/// Total weight with which node `x` feeds the edge list `inc`.
pub open spec fn weight_toward(inc: Seq<(usize, i64)>, x: int) -> int
    decreases inc.len(),
{
    if inc.len() == 0 {
        0
    } else {
        weight_toward(inc.drop_last(), x) + if inc.last().0 == x {
            inc.last().1 as int
        } else {
            0
        }
    }
}

/// Changing one source's activation shifts a weighted sum by exactly
/// the change times the total weight from that source.
proof fn lemma_weighted_sum_shift(lo: Seq<i64>, hi: Seq<i64>, inc: Seq<(usize, i64)>, x: int)
    requires
        lo.len() == hi.len(),
        0 <= x < lo.len(),
        forall|k: int| 0 <= k < lo.len() && k != x ==> #[trigger] lo[k] == hi[k],
        forall|j: int| 0 <= j < inc.len() ==> (#[trigger] inc[j]).0 < lo.len(),
    ensures
        weighted_sum(hi, inc) - weighted_sum(lo, inc) == (hi[x] - lo[x]) * weight_toward(inc, x),
    decreases inc.len(),
{
    if inc.len() == 0 {
        assert((hi[x] - lo[x]) * 0 == 0) by (nonlinear_arith);
    } else {
        assert(forall|j: int|
            0 <= j < inc.drop_last().len() ==> (#[trigger] inc.drop_last()[j]) == inc[j]);
        lemma_weighted_sum_shift(lo, hi, inc.drop_last(), x);
        let d = hi[x] - lo[x];
        let wrest = weight_toward(inc.drop_last(), x);
        let (s, w) = inc.last();
        if s == x {
            assert(d * (wrest + w) == d * wrest + d * w) by (nonlinear_arith);
            assert(hi[s as int] * w - lo[s as int] * w == d * w) by (nonlinear_arith)
                requires
                    d == hi[x] - lo[x],
                    s == x,
            ;
        } else {
            assert(lo[s as int] == hi[s as int]);
            assert(d * (wrest + 0) == d * wrest) by (nonlinear_arith);
        }
    }
}

/// Inhibition: when every edge from `x` into `y` has nonpositive total
/// weight, raising `x`'s activation can only lower `y`'s next value,
/// all else equal — provided the undisturbed run stays clear of the
/// threshold window `(0.1, 0.134)`.  In that window the update rule
/// itself is not monotone: the logistic maps `0.11` to about `0.088`,
/// below the un-squashed `0.09`, so there a stronger inhibitor can
/// raise the target.
pub proof fn lemma_inhibition(g: Graph, lo: Seq<i64>, hi: Seq<i64>, x: int, y: int)
    requires
        g.wf(),
        lo.len() == g.nodes@.len(),
        hi.len() == lo.len(),
        0 <= x < lo.len(),
        0 <= y < lo.len(),
        x != y,
        !(g.nodes@[y].category is Sensor),
        forall|k: int| 0 <= k < lo.len() && k != x ==> #[trigger] lo[k] == hi[k],
        lo[x] <= hi[x],
        weight_toward(g.incoming@[y]@, x) <= 0,
        retained_spec(lo[y] as int) + energy_spec(weighted_sum(lo, g.incoming@[y]@))
            <= THRESHOLD || retained_spec(hi[y] as int) + energy_spec(
            weighted_sum(hi, g.incoming@[y]@),
        ) > THRESHOLD || retained_spec(lo[y] as int) + energy_spec(
            weighted_sum(lo, g.incoming@[y]@),
        ) >= 134_000,
    ensures
        step_value(g, hi, y) <= step_value(g, lo, y),
{
    let inc = g.incoming@[y]@;
    lemma_incoming_of_wf(g.edges@, g.n(), y);
    lemma_weighted_sum_shift(lo, hi, inc, x);
    let ws_lo = weighted_sum(lo, inc);
    let ws_hi = weighted_sum(hi, inc);
    assert((hi[x] - lo[x]) * weight_toward(inc, x) <= 0) by (nonlinear_arith)
        requires
            hi[x] - lo[x] >= 0,
            weight_toward(inc, x) <= 0,
    ;
    lemma_div_is_ordered(3 * ws_hi, 3 * ws_lo, 5_000_000);
    lemma_squash_mono(
        retained_spec(hi[y] as int) + energy_spec(ws_hi),
        retained_spec(lo[y] as int) + energy_spec(ws_lo),
    );
}

/// Inhibition, strict form in the linear band: when the inhibitory
/// pull shifts the weighted sum by at least one energy quantum and the
/// inhibited node's raw values stay within `[0, THRESHOLD]` — neither
/// squashed nor clamped — its next value strictly drops.
pub proof fn lemma_inhibition_strict(g: Graph, lo: Seq<i64>, hi: Seq<i64>, x: int, y: int)
    requires
        g.wf(),
        lo.len() == g.nodes@.len(),
        hi.len() == lo.len(),
        0 <= x < lo.len(),
        0 <= y < lo.len(),
        x != y,
        !(g.nodes@[y].category is Sensor),
        forall|k: int| 0 <= k < lo.len() && k != x ==> #[trigger] lo[k] == hi[k],
        weight_toward(g.incoming@[y]@, x) < 0,
        (hi[x] - lo[x]) * (-weight_toward(g.incoming@[y]@, x)) >= 1_666_667,
        retained_spec(hi[y] as int) + energy_spec(weighted_sum(hi, g.incoming@[y]@)) >= 0,
        retained_spec(lo[y] as int) + energy_spec(weighted_sum(lo, g.incoming@[y]@))
            <= THRESHOLD,
    ensures
        step_value(g, hi, y) < step_value(g, lo, y),
{
    let inc = g.incoming@[y]@;
    lemma_incoming_of_wf(g.edges@, g.n(), y);
    lemma_weighted_sum_shift(lo, hi, inc, x);
    let ws_lo = weighted_sum(lo, inc);
    let ws_hi = weighted_sum(hi, inc);
    assert(ws_lo - ws_hi >= 1_666_667) by (nonlinear_arith)
        requires
            ws_hi - ws_lo == (hi[x] - lo[x]) * weight_toward(inc, x),
            (hi[x] - lo[x]) * (-weight_toward(inc, x)) >= 1_666_667,
    ;
    lemma_div_is_ordered(3 * ws_hi + 5_000_000, 3 * ws_lo, 5_000_000);
    lemma_div_plus_one(3 * ws_hi, 5_000_000);
    assert(energy_spec(ws_hi) + 1 <= energy_spec(ws_lo));
    assert(retained_spec(hi[y] as int) == retained_spec(lo[y] as int));
}

/// Inhibition, strict form in the squashed band: when the inhibitory
/// pull shifts the weighted sum by at least two curve segments' worth
/// of energy, and both runs' raw values are squashed and below the
/// saturation knee, the next value strictly drops.  A sub-segment pull
/// can vanish in the fixed-point rounding, and past the knee both runs
/// saturate alike: neither is promised.
pub proof fn lemma_inhibition_strict_squashed(
    g: Graph,
    lo: Seq<i64>,
    hi: Seq<i64>,
    x: int,
    y: int,
)
    requires
        g.wf(),
        lo.len() == g.nodes@.len(),
        hi.len() == lo.len(),
        0 <= x < lo.len(),
        0 <= y < lo.len(),
        x != y,
        !(g.nodes@[y].category is Sensor),
        forall|k: int| 0 <= k < lo.len() && k != x ==> #[trigger] lo[k] == hi[k],
        weight_toward(g.incoming@[y]@, x) < 0,
        (hi[x] - lo[x]) * (-weight_toward(g.incoming@[y]@, x)) >= 26_668_333_334,
        retained_spec(hi[y] as int) + energy_spec(weighted_sum(hi, g.incoming@[y]@))
            > THRESHOLD,
        retained_spec(lo[y] as int) + energy_spec(weighted_sum(lo, g.incoming@[y]@))
            <= 2_248_000,
    ensures
        step_value(g, hi, y) < step_value(g, lo, y),
{
    let inc = g.incoming@[y]@;
    lemma_incoming_of_wf(g.edges@, g.n(), y);
    lemma_weighted_sum_shift(lo, hi, inc, x);
    let ws_lo = weighted_sum(lo, inc);
    let ws_hi = weighted_sum(hi, inc);
    assert(ws_lo - ws_hi >= 26_668_333_334) by (nonlinear_arith)
        requires
            ws_hi - ws_lo == (hi[x] - lo[x]) * weight_toward(inc, x),
            (hi[x] - lo[x]) * (-weight_toward(inc, x)) >= 26_668_333_334,
    ;
    lemma_hoist_over_denominator(3 * ws_hi, 16_001, 5_000_000);
    lemma_div_is_ordered(3 * ws_hi + 16_001 * 5_000_000, 3 * ws_lo, 5_000_000);
    assert(energy_spec(ws_hi) + 16_001 <= energy_spec(ws_lo));
    assert(retained_spec(hi[y] as int) == retained_spec(lo[y] as int));
    lemma_squash_strict(
        retained_spec(hi[y] as int) + energy_spec(ws_hi),
        retained_spec(lo[y] as int) + energy_spec(ws_lo),
    );
}

} // verus!
