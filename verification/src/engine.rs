//! The engine: a fixed graph plus the per-node activations, advanced one
//! tick at a time.
//!
//! Each tick reads a snapshot of all activations and replaces the whole
//! vector at once, so no node ever sees a half-updated neighbour.  A node
//! first decays, then (unless it is a sensor) adds the stiffness-scaled
//! weighted sum of its incoming activations, squashes the result through
//! the logistic curve when it exceeds the threshold, and clamps it to the
//! unit interval.  Sensors ignore their incoming edges: they are driven
//! only by injection and decay, floored at zero but never capped.

use vstd::prelude::*;
use crate::graph::{
    Graph, Node, NodeCategory, context_graph, incoming_of, lemma_incoming_of_wf, table_category,
    table_edge, table_id, table_label, unique_ids,
};
use crate::num::{
    MAX_ACT, MAX_EDGES, MAX_WEIGHT, MAX_WSUM, THRESHOLD, blend, blend_spec, clamp_unit,
    energy, energy_spec, retained, retained_spec, sigmoid_pl, squash_spec,
};

verus! {

/// The weighted sum of the activations feeding a node, at scale
/// `SCALE * SCALE`.
pub open spec fn weighted_sum(acts: Seq<i64>, inc: Seq<(usize, i64)>) -> int
    decreases inc.len(),
{
    if inc.len() == 0 {
        0
    } else {
        weighted_sum(acts, inc.drop_last()) + acts[inc.last().0 as int] * inc.last().1
    }
}

/// One node's next activation, computed from a snapshot of the current
/// activations.
pub open spec fn step_value(g: Graph, acts: Seq<i64>, k: int) -> int {
    let v = acts[k] as int;
    if g.nodes@[k].category is Sensor {
        if retained_spec(v) >= 0 {
            retained_spec(v)
        } else {
            0
        }
    } else {
        squash_spec(retained_spec(v) + energy_spec(weighted_sum(acts, g.incoming@[k]@)))
    }
}

/// The whole next activation vector of one tick.
pub open spec fn step_all(g: Graph, acts: Seq<i64>) -> Seq<i64> {
    Seq::new(acts.len(), |k: int| step_value(g, acts, k) as i64)
}

/// Position of the first node carrying `id`, or `-1` when no node does.
pub open spec fn id_index(nodes: Seq<Node>, id: Seq<char>) -> int
    decreases nodes.len(),
{
    if nodes.len() == 0 {
        -1
    } else if nodes[0].id@ == id {
        0
    } else {
        let r = id_index(nodes.drop_first(), id);
        if r < 0 {
            -1
        } else {
            r + 1
        }
    }
}

/// Blending one supplied value into the activation of the node carrying
/// `id`; an unknown id changes nothing.
pub open spec fn inject_one(nodes: Seq<Node>, acts: Seq<i64>, id: Seq<char>, x: i64) -> Seq<i64> {
    let i = id_index(nodes, id);
    if 0 <= i < acts.len() {
        acts.update(i, blend_spec(acts[i] as int, x as int) as i64)
    } else {
        acts
    }
}

/// Blending a whole list of supplied entries, first to last.
pub open spec fn inject_entries(
    nodes: Seq<Node>,
    acts: Seq<i64>,
    entries: Seq<(String, i64)>,
) -> Seq<i64>
    decreases entries.len(),
{
    if entries.len() == 0 {
        acts
    } else {
        inject_entries(
            nodes,
            inject_one(nodes, acts, entries[0].0@, entries[0].1),
            entries.drop_first(),
        )
    }
}

/// One row of the ranking query: a `State` node's id, display label and
/// current activation.
pub struct RankedState {
    pub id: String,
    pub label: String,
    pub value: i64,
}

/// The rows the ranking query must return: one per `State` node, in
/// table order, holding its current activation.
pub open spec fn state_entries(nodes: Seq<Node>, acts: Seq<i64>) -> Seq<RankedState>
    decreases nodes.len(),
{
    if nodes.len() == 0 {
        Seq::empty()
    } else {
        let rest = state_entries(nodes.drop_last(), acts);
        if nodes.last().category is State {
            rest.push(
                RankedState {
                    id: nodes.last().id,
                    label: nodes.last().label,
                    value: acts[nodes.len() - 1],
                },
            )
        } else {
            rest
        }
    }
}

/// Non-increasing activation order.
pub open spec fn sorted_desc(s: Seq<RankedState>) -> bool {
    forall|i: int, j: int| 0 <= i < j < s.len() ==> s[i].value >= s[j].value
}

/// The engine: the immutable graph and the one mutable activation
/// vector, owned exclusively by this instance.
pub struct ContextEngine {
    pub graph: Graph,
    pub acts: Vec<i64>,
}

impl ContextEngine {
    /// A well-formed engine: a well-formed graph, one activation per
    /// node, every activation within the representable band.
    pub open spec fn wf(self) -> bool {
        &&& self.graph.wf()
        &&& self.acts@.len() == self.graph.nodes@.len()
        &&& forall|k: int|
            0 <= k < self.acts@.len() ==> -MAX_ACT <= #[trigger] self.acts@[k] <= MAX_ACT
    }

    /// Build the fixed graph with every activation at zero.
    pub fn new() -> (e: ContextEngine)
        ensures
            e.wf(),
            e.acts@.len() == 43,
            e.graph.edges@.len() == 49,
            forall|k: int| 0 <= k < e.acts@.len() ==> e.acts@[k] == 0,
            forall|k: int|
                0 <= k < 43 ==> {
                    &&& (#[trigger] e.graph.nodes@[k]).id@ == table_id(k)
                    &&& e.graph.nodes@[k].label@ == table_label(k)
                    &&& e.graph.nodes@[k].category == table_category(k)
                },
            forall|j: int|
                0 <= j < 49 ==> {
                    &&& (#[trigger] e.graph.edges@[j]).source == table_edge(j).0
                    &&& e.graph.edges@[j].target == table_edge(j).1
                    &&& e.graph.edges@[j].weight == table_edge(j).2
                },
            unique_ids(e.graph.nodes@),
    {
        let g = context_graph();
        let n = g.nodes.len();
        let mut acts: Vec<i64> = Vec::new();
        let mut k: usize = 0;
        while k < n
            invariant
                k <= n,
                acts@.len() == k,
                forall|j: int| 0 <= j < k ==> acts@[j] == 0,
            decreases n - k,
        {
            acts.push(0);
            k = k + 1;
        }
        ContextEngine { graph: g, acts }
    }

    /// Blend externally supplied readings into the matching activations.
    ///
    /// `None` stands for an input that could not be interpreted as a
    /// mapping at all: it changes nothing.  Entries naming no node are
    /// ignored; each other entry replaces its node's activation `v` by
    /// `v * 0.3 + x * 0.7`.  No tick is advanced.
    pub fn inject(&mut self, inputs: Option<Vec<(String, i64)>>)
        requires
            old(self).wf(),
            (match inputs {
                Option::Some(list) => forall|j: int|
                    0 <= j < list@.len() ==> -MAX_ACT <= (#[trigger] list@[j]).1 <= MAX_ACT,
                Option::None => true,
            }),
        ensures
            final(self).wf(),
            final(self).graph == old(self).graph,
            (match inputs {
                Option::Some(list) => final(self).acts@ == inject_entries(
                    old(self).graph.nodes@,
                    old(self).acts@,
                    list@,
                ),
                Option::None => final(self).acts@ == old(self).acts@,
            }),
    {
        match inputs {
            Option::None => {},
            Option::Some(list) => {
                let ghost nodes0 = self.graph.nodes@;
                let ghost acts0 = self.acts@;
                let mut idx: usize = 0;
                while idx < list.len()
                    invariant
                        idx <= list@.len(),
                        self.wf(),
                        self.graph == old(self).graph,
                        nodes0 == self.graph.nodes@,
                        self.acts@ == inject_entries(nodes0, acts0, list@.take(idx as int)),
                        forall|j: int|
                            0 <= j < list@.len() ==> -MAX_ACT <= (#[trigger] list@[j]).1
                                <= MAX_ACT,
                    decreases list@.len() - idx,
                {
                    let ghost pre = self.acts@;
                    let x = list[idx].1;
                    let found = find_index(&self.graph.nodes, &list[idx].0);
                    match found {
                        Option::Some(i) => {
                            let v = self.acts[i];
                            let b = blend(v, x);
                            self.acts[i] = b;
                            proof {
                                assert(b == blend_spec(pre[i as int] as int, x as int) as i64);
                                assert(self.acts@ == inject_one(
                                    nodes0,
                                    pre,
                                    list@[idx as int].0@,
                                    x,
                                ));
                            }
                        },
                        Option::None => {
                            proof {
                                assert(self.acts@ == inject_one(
                                    nodes0,
                                    pre,
                                    list@[idx as int].0@,
                                    x,
                                ));
                            }
                        },
                    }
                    proof {
                        assert(list@.take(idx + 1) =~= list@.take(idx as int).push(
                            list@[idx as int],
                        ));
                        lemma_inject_entries_snoc(
                            nodes0,
                            acts0,
                            list@.take(idx as int),
                            list@[idx as int],
                        );
                    }
                    idx = idx + 1;
                }
                proof {
                    assert(list@.take(list@.len() as int) =~= list@);
                }
            },
        }
    }

    /// Advance every activation by exactly one tick, all nodes computed
    /// from the same snapshot.
    pub fn step(&mut self)
        requires
            old(self).wf(),
        ensures
            final(self).wf(),
            final(self).graph == old(self).graph,
            final(self).acts@.len() == old(self).acts@.len(),
            forall|k: int|
                0 <= k < old(self).acts@.len() ==> final(self).acts@[k] == step_value(
                    old(self).graph,
                    old(self).acts@,
                    k,
                ),
            final(self).acts@ == step_all(old(self).graph, old(self).acts@),
    {
        let n = self.acts.len();
        let mut next: Vec<i64> = Vec::new();
        let mut k: usize = 0;
        while k < n
            invariant
                k <= n,
                n == self.acts@.len(),
                self.wf(),
                next@.len() == k,
                forall|j: int|
                    0 <= j < k ==> next@[j] == step_value(self.graph, self.acts@, j),
                forall|j: int| 0 <= j < k ==> -MAX_ACT <= #[trigger] next@[j] <= MAX_ACT,
            decreases n - k,
        {
            let v = self.acts[k];
            let ret = retained(v);
            let cat = self.graph.nodes[k].category;
            match cat {
                NodeCategory::Sensor => {
                    if ret >= 0 {
                        next.push(ret);
                    } else {
                        next.push(0);
                    }
                },
                _ => {
                    let ws = weighted_sum_exec(&self.graph, &self.acts, k);
                    let en = energy(ws);
                    let raw = ret + en;
                    let val = if raw > THRESHOLD {
                        sigmoid_pl(raw)
                    } else {
                        raw
                    };
                    let clamped = clamp_unit(val);
                    next.push(clamped);
                },
            }
            k = k + 1;
        }
        self.acts = next;
        proof {
            assert(self.acts@ =~= step_all(self.graph, old(self).acts@));
        }
    }

    /// A full read-only snapshot: every node's id with its activation.
    pub fn get_activations(&self) -> (r: Vec<(String, i64)>)
        requires
            self.wf(),
        ensures
            r@.len() == self.acts@.len(),
            forall|k: int|
                0 <= k < r@.len() ==> (#[trigger] r@[k]).1 == self.acts@[k] && r@[k].0@
                    == self.graph.nodes@[k].id@,
    {
        let n = self.acts.len();
        let mut r: Vec<(String, i64)> = Vec::new();
        let mut k: usize = 0;
        while k < n
            invariant
                k <= n,
                n == self.acts@.len(),
                self.wf(),
                r@.len() == k,
                forall|j: int|
                    0 <= j < k ==> (#[trigger] r@[j]).1 == self.acts@[j] && r@[j].0@
                        == self.graph.nodes@[j].id@,
            decreases n - k,
        {
            r.push((self.graph.nodes[k].id.clone(), self.acts[k]));
            k = k + 1;
        }
        r
    }

    /// The `State`-category activations, labelled, in non-increasing
    /// order of value.
    pub fn get_ranked_states(&self) -> (r: Vec<RankedState>)
        requires
            self.wf(),
        ensures
            r@.to_multiset() == state_entries(self.graph.nodes@, self.acts@).to_multiset(),
            sorted_desc(r@),
    {
        let n = self.acts.len();
        let mut rows: Vec<RankedState> = Vec::new();
        let mut k: usize = 0;
        while k < n
            invariant
                k <= n,
                n == self.acts@.len(),
                self.wf(),
                rows@ == state_entries(self.graph.nodes@.take(k as int), self.acts@),
            decreases n - k,
        {
            proof {
                lemma_state_entries_take_step(self.graph.nodes@, self.acts@, k as int);
            }
            let node = &self.graph.nodes[k];
            match node.category {
                NodeCategory::State => {
                    rows.push(
                        RankedState {
                            id: node.id.clone(),
                            label: node.label.clone(),
                            value: self.acts[k],
                        },
                    );
                },
                _ => {},
            }
            k = k + 1;
        }
        proof {
            assert(self.graph.nodes@.take(n as int) =~= self.graph.nodes@);
        }
        sort_ranked_desc(rows)
    }
}

/// Taking one more edge into account adds exactly its contribution.
pub proof fn lemma_weighted_sum_take_step(acts: Seq<i64>, inc: Seq<(usize, i64)>, j: int)
    requires
        0 <= j < inc.len(),
    ensures
        weighted_sum(acts, inc.take(j + 1)) == weighted_sum(acts, inc.take(j)) + acts[inc[j].0 as int]
            * inc[j].1,
{
    assert(inc.take(j + 1).drop_last() =~= inc.take(j));
    assert(inc.take(j + 1).last() == inc[j]);
}

/// Extending the node prefix extends the ranking rows exactly when the
/// new node is a `State` node.
pub proof fn lemma_state_entries_take_step(nodes: Seq<Node>, acts: Seq<i64>, k: int)
    requires
        0 <= k < nodes.len(),
    ensures
        state_entries(nodes.take(k + 1), acts) == if nodes[k].category is State {
            state_entries(nodes.take(k), acts).push(
                RankedState { id: nodes[k].id, label: nodes[k].label, value: acts[k] },
            )
        } else {
            state_entries(nodes.take(k), acts)
        },
{
    assert(nodes.take(k + 1).drop_last() =~= nodes.take(k));
    assert(nodes.take(k + 1).last() == nodes[k]);
}

/// Blending one more entry folds onto the result of the earlier ones.
pub proof fn lemma_inject_entries_snoc(
    nodes: Seq<Node>,
    acts: Seq<i64>,
    entries: Seq<(String, i64)>,
    e: (String, i64),
)
    ensures
        inject_entries(nodes, acts, entries.push(e)) == inject_one(
            nodes,
            inject_entries(nodes, acts, entries),
            e.0@,
            e.1,
        ),
    decreases entries.len(),
{
    if entries.len() == 0 {
        assert(entries.push(e)[0] == e);
        assert(entries.push(e).drop_first() =~= Seq::<(String, i64)>::empty());
        assert(inject_entries(nodes, acts, entries.push(e)) == inject_entries(
            nodes,
            inject_one(nodes, acts, e.0@, e.1),
            entries.push(e).drop_first(),
        ));
        assert(inject_entries(
            nodes,
            inject_one(nodes, acts, e.0@, e.1),
            Seq::<(String, i64)>::empty(),
        ) == inject_one(nodes, acts, e.0@, e.1));
    } else {
        assert(entries.push(e)[0] == entries[0]);
        assert(entries.push(e).drop_first() =~= entries.drop_first().push(e));
        assert(inject_entries(nodes, acts, entries.push(e)) == inject_entries(
            nodes,
            inject_one(nodes, acts, entries[0].0@, entries[0].1),
            entries.drop_first().push(e),
        ));
        assert(inject_entries(nodes, acts, entries) == inject_entries(
            nodes,
            inject_one(nodes, acts, entries[0].0@, entries[0].1),
            entries.drop_first(),
        ));
        lemma_inject_entries_snoc(
            nodes,
            inject_one(nodes, acts, entries[0].0@, entries[0].1),
            entries.drop_first(),
            e,
        );
    }
}

/// Position of the first node carrying `id`, scanning the table in
/// order.
fn find_index(nodes: &Vec<Node>, id: &String) -> (r: Option<usize>)
    ensures
        (match r {
            Option::Some(i) => i < nodes@.len() && id_index(nodes@, id@) == i,
            Option::None => id_index(nodes@, id@) == -1,
        }),
{
    let n = nodes.len();
    let mut i: usize = 0;
    while i < n
        invariant
            i <= n,
            n == nodes@.len(),
            forall|m: int| 0 <= m < i ==> (#[trigger] nodes@[m]).id@ != id@,
        decreases n - i,
    {
        if nodes[i].id == *id {
            proof {
                lemma_id_index_skip(nodes@, id@, i as int);
            }
            return Option::Some(i);
        }
        i = i + 1;
    }
    proof {
        lemma_id_index_skip(nodes@, id@, n as int);
    }
    Option::None
}

/// When no node before position `i` carries `id`, the first match is at
/// `i` if the node there carries it, and nowhere if the table ends.
proof fn lemma_id_index_skip(nodes: Seq<Node>, id: Seq<char>, i: int)
    requires
        0 <= i <= nodes.len(),
        forall|m: int| 0 <= m < i ==> (#[trigger] nodes[m]).id@ != id,
    ensures
        i < nodes.len() && nodes[i].id@ == id ==> id_index(nodes, id) == i,
        i == nodes.len() ==> id_index(nodes, id) == -1,
    decreases nodes.len(),
{
    if nodes.len() == 0 {
    } else if i == 0 {
        if nodes[0].id@ != id {
        }
    } else {
        assert(nodes[0].id@ != id);
        assert(forall|m: int|
            0 <= m < i - 1 ==> (#[trigger] nodes.drop_first()[m]).id@ != id) by {
            assert(forall|m: int|
                0 <= m < i - 1 ==> nodes.drop_first()[m] == nodes[m + 1]);
        }
        lemma_id_index_skip(nodes.drop_first(), id, i - 1);
        if i < nodes.len() {
            assert(nodes.drop_first()[i - 1] == nodes[i]);
        }
    }
}

/// The weighted sum of the activations feeding node `k`.
fn weighted_sum_exec(g: &Graph, acts: &Vec<i64>, k: usize) -> (ws: i64)
    requires
        g.wf(),
        acts@.len() == g.nodes@.len(),
        k < g.nodes@.len(),
        forall|j: int| 0 <= j < acts@.len() ==> -MAX_ACT <= #[trigger] acts@[j] <= MAX_ACT,
    ensures
        ws == weighted_sum(acts@, g.incoming@[k as int]@),
        -MAX_WSUM <= ws <= MAX_WSUM,
{
    let row = &g.incoming[k];
    proof {
        lemma_incoming_of_wf(g.edges@, g.n(), k as int);
    }
    let m = row.len();
    let mut sum: i64 = 0;
    let mut j: usize = 0;
    while j < m
        invariant
            j <= m,
            m == row@.len(),
            row@ == incoming_of(g.edges@, k as int),
            m <= MAX_EDGES,
            g.wf(),
            acts@.len() == g.nodes@.len(),
            forall|q: int| 0 <= q < acts@.len() ==> -MAX_ACT <= #[trigger] acts@[q] <= MAX_ACT,
            forall|q: int|
                0 <= q < row@.len() ==> (#[trigger] row@[q]).0 < acts@.len() && -MAX_WEIGHT
                    <= row@[q].1 <= MAX_WEIGHT,
            sum == weighted_sum(acts@, row@.take(j as int)),
            -(j as int) * 4_000_000_000_000_000 <= sum <= (j as int) * 4_000_000_000_000_000,
        decreases m - j,
    {
        let (s, w) = row[j];
        let a = acts[s];
        proof {
            assert(-4_000_000_000_000_000 <= a as int * w as int <= 4_000_000_000_000_000)
                by (nonlinear_arith)
                requires
                    -MAX_ACT <= a <= MAX_ACT,
                    -MAX_WEIGHT <= w <= MAX_WEIGHT,
                    MAX_ACT == 1_000_000_000,
                    MAX_WEIGHT == 4_000_000,
            ;
            lemma_weighted_sum_take_step(acts@, row@, j as int);
        }
        let prod = a * w;
        sum = sum + prod;
        j = j + 1;
    }
    proof {
        assert(row@.take(m as int) =~= row@);
    }
    sum
}

/// Sort ranking rows by activation, largest first, keeping exactly the
/// same rows.
fn sort_ranked_desc(v: Vec<RankedState>) -> (r: Vec<RankedState>)
    ensures
        r@.to_multiset() == v@.to_multiset(),
        sorted_desc(r@),
{
    broadcast use vstd::seq_lib::group_to_multiset_ensures;

    let mut src = v;
    let mut out: Vec<RankedState> = Vec::new();
    proof {
        assert(out@.to_multiset().add(src@.to_multiset()) =~= v@.to_multiset());
    }
    while src.len() > 0
        invariant
            out@.to_multiset().add(src@.to_multiset()) == v@.to_multiset(),
            sorted_desc(out@),
            forall|a: int, b: int|
                0 <= a < out@.len() && 0 <= b < src@.len() ==> out@[a].value >= src@[b].value,
        decreases src@.len(),
    {
        broadcast use vstd::seq_lib::group_to_multiset_ensures;

        let mut m: usize = 0;
        let mut j: usize = 1;
        while j < src.len()
            invariant
                src@.len() > 0,
                m < src@.len(),
                j <= src@.len(),
                forall|q: int| 0 <= q < j ==> src@[m as int].value >= (#[trigger] src@[q]).value,
            decreases src@.len() - j,
        {
            if src[j].value > src[m].value {
                m = j;
            }
            j = j + 1;
        }
        let ghost pre_src = src@;
        let ghost pre_out = out@;
        let e = src.remove(m);
        out.push(e);
        proof {
            assert(pre_src.to_multiset().count(e) > 0) by {
                assert(pre_src[m as int] == e);
                assert(pre_src.contains(e));
            }
            assert(out@.to_multiset() =~= pre_out.to_multiset().insert(e));
            assert(src@.to_multiset() =~= pre_src.to_multiset().remove(e));
            assert(out@.to_multiset().add(src@.to_multiset()) =~= pre_out.to_multiset().add(
                pre_src.to_multiset(),
            ));
            assert(forall|b: int|
                0 <= b < src@.len() ==> e.value >= (#[trigger] src@[b]).value) by {
                assert(forall|b: int|
                    0 <= b < src@.len() ==> src@[b] == pre_src[if b < m { b } else { b + 1 }]);
            }
        }
    }
    out
}

} // verus!
