//! The fixed node/edge graph and its reverse-adjacency index.
//!
//! Nodes are addressed by position; each node also carries its string id
//! (the key used for injection and reporting) and a display label.  Edges
//! are directed and weighted; a negative weight inhibits its target.  The
//! index `incoming` lists, for every node, the (source, weight) pairs of
//! the edges that end there, so a tick touches each edge once.

use vstd::prelude::*;
use crate::num::{MAX_EDGES, MAX_WEIGHT};

verus! {

/// Category of a node, fixed at construction; it selects the node's
/// update rule.
#[derive(Clone, Copy, PartialEq, Eq, Structural)]
pub enum NodeCategory {
    /// Driven only by injection and passive decay.
    Sensor,
    /// Intermediate signal combined from weighted inputs.
    Feature,
    /// Top-level context judgment, the output the host ranks.
    State,
}

/// One node of the graph.
pub struct Node {
    pub id: String,
    pub label: String,
    pub category: NodeCategory,
}

/// One directed weighted edge, by node position.
#[derive(Clone, Copy, PartialEq, Eq, Structural)]
pub struct Edge {
    pub source: usize,
    pub target: usize,
    pub weight: i64,
}

/// Largest number of nodes a graph may hold.
pub const MAX_NODES: usize = 4096;

/// Every edge stays inside the node table and inside the weight bound.
pub open spec fn edges_wf(edges: Seq<Edge>, n: int) -> bool {
    &&& edges.len() <= MAX_EDGES
    &&& forall|i: int|
        0 <= i < edges.len() ==> {
            &&& (#[trigger] edges[i]).source < n
            &&& edges[i].target < n
            &&& -MAX_WEIGHT <= edges[i].weight <= MAX_WEIGHT
        }
}

/// The (source, weight) pairs of the edges ending at `t`, in edge-table
/// order.
pub open spec fn incoming_of(edges: Seq<Edge>, t: int) -> Seq<(usize, i64)>
    decreases edges.len(),
{
    if edges.len() == 0 {
        Seq::empty()
    } else {
        let rest = incoming_of(edges.drop_last(), t);
        let e = edges.last();
        if e.target == t {
            rest.push((e.source, e.weight))
        } else {
            rest
        }
    }
}

/// The immutable topology: the node table, the edge table, and the
/// derived reverse-adjacency index.
pub struct Graph {
    pub nodes: Vec<Node>,
    pub edges: Vec<Edge>,
    pub incoming: Vec<Vec<(usize, i64)>>,
}

impl Graph {
    /// Number of nodes.
    pub open spec fn n(self) -> int {
        self.nodes@.len() as int
    }

    /// A well-formed graph: bounded tables, edges inside them, and an
    /// index that agrees exactly with the edge table.
    pub open spec fn wf(self) -> bool {
        &&& self.nodes@.len() <= MAX_NODES
        &&& edges_wf(self.edges@, self.n())
        &&& self.incoming@.len() == self.nodes@.len()
        &&& forall|t: int|
            0 <= t < self.n() ==> (#[trigger] self.incoming@[t])@ == incoming_of(
                self.edges@,
                t,
            )
    }

    /// Startup self-check: no two nodes share an id.  Construction
    /// itself cannot fail, so data defects in the fixed table are for
    /// the host to assert once at startup.
    pub fn ids_unique(&self) -> (r: bool)
        ensures
            r == unique_ids(self.nodes@),
    {
        let n = self.nodes.len();
        let mut i: usize = 0;
        while i < n
            invariant
                i <= n,
                n == self.nodes@.len(),
                forall|a: int, b: int|
                    0 <= a < b < n && a < i ==> (#[trigger] self.nodes@[a]).id@
                        != (#[trigger] self.nodes@[b]).id@,
            decreases n - i,
        {
            let mut j: usize = i + 1;
            while j < n
                invariant
                    i < j <= n,
                    n == self.nodes@.len(),
                    forall|b: int|
                        i < b < j ==> (#[trigger] self.nodes@[b]).id@ != self.nodes@[i as int].id@,
                decreases n - j,
            {
                if self.nodes[i].id == self.nodes[j].id {
                    return false;
                }
                j = j + 1;
            }
            i = i + 1;
        }
        true
    }

    /// Category of the node at position `k`.
    pub fn category_of(&self, k: usize) -> (c: NodeCategory)
        requires
            self.wf(),
            k < self.nodes@.len(),
        ensures
            c == self.nodes@[k as int].category,
    {
        self.nodes[k].category
    }

    /// Display label of the node at position `k`.
    pub fn label_of(&self, k: usize) -> (l: String)
        requires
            self.wf(),
            k < self.nodes@.len(),
        ensures
            l == self.nodes@[k as int].label,
    {
        self.nodes[k].label.clone()
    }

    /// The (source, weight) pairs of the edges ending at node `k`; an
    /// empty list when nothing feeds it.
    pub fn incoming_edges(&self, k: usize) -> (r: &Vec<(usize, i64)>)
        requires
            self.wf(),
            k < self.nodes@.len(),
        ensures
            r@ == incoming_of(self.edges@, k as int),
    {
        &self.incoming[k]
    }
}

/// No two nodes share an id.
pub open spec fn unique_ids(nodes: Seq<Node>) -> bool {
    forall|a: int, b: int|
        0 <= a < b < nodes.len() ==> (#[trigger] nodes[a]).id@ != (#[trigger] nodes[b]).id@
}

/// Extending the edge table by one edge extends exactly the incoming
/// list of its target.
pub proof fn lemma_incoming_of_take_step(edges: Seq<Edge>, i: int, t: int)
    requires
        0 <= i < edges.len(),
    ensures
        incoming_of(edges.take(i + 1), t) == if edges[i].target == t {
            incoming_of(edges.take(i), t).push((edges[i].source, edges[i].weight))
        } else {
            incoming_of(edges.take(i), t)
        },
{
    assert(edges.take(i + 1).drop_last() =~= edges.take(i));
    assert(edges.take(i + 1).last() == edges[i]);
}

/// Every entry of an incoming list names a valid source and a bounded
/// weight, and the list is no longer than the edge table.
pub proof fn lemma_incoming_of_wf(edges: Seq<Edge>, n: int, t: int)
    requires
        edges_wf(edges, n),
    ensures
        incoming_of(edges, t).len() <= edges.len(),
        forall|j: int|
            0 <= j < incoming_of(edges, t).len() ==> {
                &&& (#[trigger] incoming_of(edges, t)[j]).0 < n
                &&& -MAX_WEIGHT <= incoming_of(edges, t)[j].1 <= MAX_WEIGHT
            },
    decreases edges.len(),
{
    if edges.len() > 0 {
        assert(edges_wf(edges.drop_last(), n)) by {
            assert(forall|i: int|
                0 <= i < edges.drop_last().len() ==> edges.drop_last()[i] == edges[i]);
        }
        lemma_incoming_of_wf(edges.drop_last(), n, t);
    }
}

/// Id of node `k` of the reference table.
pub open spec fn table_id(k: int) -> Seq<char> {
    if k == 0 {
        "IN_VEL"@
    } else if k == 1 {
        "IN_REL_MOV"@
    } else if k == 2 {
        "IN_FIST"@
    } else if k == 3 {
        "IN_PINCH"@
    } else if k == 4 {
        "IN_OPEN"@
    } else if k == 5 {
        "IN_SCISSORS"@
    } else if k == 6 {
        "IN_HANDS_PROX"@
    } else if k == 7 {
        "IN_OCCLUSION"@
    } else if k == 8 {
        "IN_THUMB_UP"@
    } else if k == 9 {
        "IN_THUMB_DOWN"@
    } else if k == 10 {
        "IN_EYES_ACT"@
    } else if k == 11 {
        "IN_EARS_ACT"@
    } else if k == 12 {
        "IN_MOUTH_GUARD"@
    } else if k == 13 {
        "IN_SMILE"@
    } else if k == 14 {
        "IN_MOUTH"@
    } else if k == 15 {
        "IN_FACE_PROX"@
    } else if k == 16 {
        "FT_ACTIVE"@
    } else if k == 17 {
        "FT_HOLDING"@
    } else if k == 18 {
        "FT_FRICTION"@
    } else if k == 19 {
        "FT_HIDING"@
    } else if k == 20 {
        "FT_RPS_ROCK"@
    } else if k == 21 {
        "FT_RPS_SCI"@
    } else if k == 22 {
        "FT_RPS_PAP"@
    } else if k == 23 {
        "FT_APPROVAL"@
    } else if k == 24 {
        "FT_DISAPPROVAL"@
    } else if k == 25 {
        "FT_HIDDEN_SENSE"@
    } else if k == 26 {
        "FT_HAPPY"@
    } else if k == 27 {
        "FT_SHOCK"@
    } else if k == 28 {
        "ST_IDLE"@
    } else if k == 29 {
        "ST_GRASP"@
    } else if k == 30 {
        "ST_DRAG"@
    } else if k == 31 {
        "ST_WASH"@
    } else if k == 32 {
        "ST_PEEKABOO"@
    } else if k == 33 {
        "ST_ROCK"@
    } else if k == 34 {
        "ST_SCISSORS"@
    } else if k == 35 {
        "ST_PAPER"@
    } else if k == 36 {
        "ST_YES"@
    } else if k == 37 {
        "ST_NO"@
    } else if k == 38 {
        "ST_MIZARU"@
    } else if k == 39 {
        "ST_KIKAZARU"@
    } else if k == 40 {
        "ST_IWAZARU"@
    } else if k == 41 {
        "ST_SMILE"@
    } else {
        "ST_SURPRISE"@
    }
}

/// Display label of node `k` of the reference table.
pub open spec fn table_label(k: int) -> Seq<char> {
    if k == 0 {
        "Velocity"@
    } else if k == 1 {
        "Rel. Motion"@
    } else if k == 2 {
        "Fist"@
    } else if k == 3 {
        "Pinch"@
    } else if k == 4 {
        "Open Hand"@
    } else if k == 5 {
        "Scissors Pose"@
    } else if k == 6 {
        "Hands Touch"@
    } else if k == 7 {
        "Face Lost+Prox"@
    } else if k == 8 {
        "Thumb UP"@
    } else if k == 9 {
        "Thumb DOWN"@
    } else if k == 10 {
        "Cover Eyes"@
    } else if k == 11 {
        "Cover Ears"@
    } else if k == 12 {
        "Cover Mouth"@
    } else if k == 13 {
        "Smile"@
    } else if k == 14 {
        "Mouth Open"@
    } else if k == 15 {
        "Hand-Face Prox"@
    } else if k == 16 {
        "High Kinetic"@
    } else if k == 17 {
        "Holding"@
    } else if k == 18 {
        "Friction"@
    } else if k == 19 {
        "Concealment"@
    } else if k == 20 {
        "Pose: ROCK"@
    } else if k == 21 {
        "Pose: SCISSORS"@
    } else if k == 22 {
        "Pose: PAPER"@
    } else if k == 23 {
        "Semantics: YES"@
    } else if k == 24 {
        "Semantics: NO"@
    } else if k == 25 {
        "Blocking Senses"@
    } else if k == 26 {
        "Emo: Happy"@
    } else if k == 27 {
        "Emo: Shock"@
    } else if k == 28 {
        "IDLE"@
    } else if k == 29 {
        "ACTION: GRASP"@
    } else if k == 30 {
        "ACTION: DRAG"@
    } else if k == 31 {
        "ACTION: WASH"@
    } else if k == 32 {
        "CTX: HIDDEN"@
    } else if k == 33 {
        "GAME: ROCK"@
    } else if k == 34 {
        "GAME: SCISSORS"@
    } else if k == 35 {
        "GAME: PAPER"@
    } else if k == 36 {
        "CTX: YES / OK"@
    } else if k == 37 {
        "CTX: NO / BAD"@
    } else if k == 38 {
        "🙈 MIZARU"@
    } else if k == 39 {
        "🙉 KIKAZARU"@
    } else if k == 40 {
        "🙊 IWAZARU"@
    } else if k == 41 {
        "FACE: SMILE"@
    } else {
        "FACE: SURPRISE"@
    }
}

/// Category of node `k` of the reference table: sixteen sensors, then
/// twelve features, then fifteen states.
pub open spec fn table_category(k: int) -> NodeCategory {
    if k < 16 {
        NodeCategory::Sensor
    } else if k < 28 {
        NodeCategory::Feature
    } else {
        NodeCategory::State
    }
}

/// Edge `j` of the reference table, as (source, target, weight).
pub open spec fn table_edge(j: int) -> (int, int, int) {
    if j == 0 {
        (0, 16, 900_000)
    } else if j == 1 {
        (2, 17, 900_000)
    } else if j == 2 {
        (3, 17, 800_000)
    } else if j == 3 {
        (6, 18, 700_000)
    } else if j == 4 {
        (1, 18, 900_000)
    } else if j == 5 {
        (7, 19, 1_000_000)
    } else if j == 6 {
        (17, 29, 1_000_000)
    } else if j == 7 {
        (16, 29, -300_000)
    } else if j == 8 {
        (17, 30, 800_000)
    } else if j == 9 {
        (16, 30, 900_000)
    } else if j == 10 {
        (18, 31, 1_200_000)
    } else if j == 11 {
        (19, 32, 1_200_000)
    } else if j == 12 {
        (2, 20, 800_000)
    } else if j == 13 {
        (5, 21, 900_000)
    } else if j == 14 {
        (4, 22, 900_000)
    } else if j == 15 {
        (20, 33, 900_000)
    } else if j == 16 {
        (21, 34, 900_000)
    } else if j == 17 {
        (22, 35, 900_000)
    } else if j == 18 {
        (8, 23, 1_000_000)
    } else if j == 19 {
        (9, 24, 1_000_000)
    } else if j == 20 {
        (8, 20, -500_000)
    } else if j == 21 {
        (9, 20, -500_000)
    } else if j == 22 {
        (23, 36, 1_000_000)
    } else if j == 23 {
        (24, 37, 1_000_000)
    } else if j == 24 {
        (10, 25, 800_000)
    } else if j == 25 {
        (10, 38, 1_000_000)
    } else if j == 26 {
        (6, 38, 500_000)
    } else if j == 27 {
        (11, 25, 800_000)
    } else if j == 28 {
        (11, 39, 1_000_000)
    } else if j == 29 {
        (12, 25, 800_000)
    } else if j == 30 {
        (12, 40, 1_000_000)
    } else if j == 31 {
        (6, 40, 800_000)
    } else if j == 32 {
        (13, 26, 900_000)
    } else if j == 33 {
        (14, 27, 600_000)
    } else if j == 34 {
        (15, 27, 500_000)
    } else if j == 35 {
        (26, 41, 900_000)
    } else if j == 36 {
        (27, 42, 900_000)
    } else if j == 37 {
        (16, 28, -600_000)
    } else if j == 38 {
        (33, 34, -800_000)
    } else if j == 39 {
        (33, 35, -800_000)
    } else if j == 40 {
        (34, 35, -800_000)
    } else if j == 41 {
        (36, 37, -2_000_000)
    } else if j == 42 {
        (37, 36, -2_000_000)
    } else if j == 43 {
        (38, 39, -1_000_000)
    } else if j == 44 {
        (38, 40, -1_000_000)
    } else if j == 45 {
        (39, 40, -1_000_000)
    } else if j == 46 {
        (29, 31, -800_000)
    } else if j == 47 {
        (31, 29, -800_000)
    } else {
        (30, 31, -800_000)
    }
}

/// No two ids of the reference table read the same.
#[verifier::rlimit(100)]
proof fn lemma_table_ids_distinct()
    ensures
        forall|a: int, b: int| 0 <= a < b < 43 ==> table_id(a) != table_id(b),
{
    reveal_strlit("IN_VEL");
    reveal_strlit("IN_REL_MOV");
    reveal_strlit("IN_FIST");
    reveal_strlit("IN_PINCH");
    reveal_strlit("IN_OPEN");
    reveal_strlit("IN_SCISSORS");
    reveal_strlit("IN_HANDS_PROX");
    reveal_strlit("IN_OCCLUSION");
    reveal_strlit("IN_THUMB_UP");
    reveal_strlit("IN_THUMB_DOWN");
    reveal_strlit("IN_EYES_ACT");
    reveal_strlit("IN_EARS_ACT");
    reveal_strlit("IN_MOUTH_GUARD");
    reveal_strlit("IN_SMILE");
    reveal_strlit("IN_MOUTH");
    reveal_strlit("IN_FACE_PROX");
    reveal_strlit("FT_ACTIVE");
    reveal_strlit("FT_HOLDING");
    reveal_strlit("FT_FRICTION");
    reveal_strlit("FT_HIDING");
    reveal_strlit("FT_RPS_ROCK");
    reveal_strlit("FT_RPS_SCI");
    reveal_strlit("FT_RPS_PAP");
    reveal_strlit("FT_APPROVAL");
    reveal_strlit("FT_DISAPPROVAL");
    reveal_strlit("FT_HIDDEN_SENSE");
    reveal_strlit("FT_HAPPY");
    reveal_strlit("FT_SHOCK");
    reveal_strlit("ST_IDLE");
    reveal_strlit("ST_GRASP");
    reveal_strlit("ST_DRAG");
    reveal_strlit("ST_WASH");
    reveal_strlit("ST_PEEKABOO");
    reveal_strlit("ST_ROCK");
    reveal_strlit("ST_SCISSORS");
    reveal_strlit("ST_PAPER");
    reveal_strlit("ST_YES");
    reveal_strlit("ST_NO");
    reveal_strlit("ST_MIZARU");
    reveal_strlit("ST_KIKAZARU");
    reveal_strlit("ST_IWAZARU");
    reveal_strlit("ST_SMILE");
    reveal_strlit("ST_SURPRISE");
    assert(("FT_ACTIVE"@)[0] == 'F');
    assert(("FT_ACTIVE"@)[3] == 'A');
    assert(("FT_APPROVAL"@)[0] == 'F');
    assert(("FT_APPROVAL"@)[3] == 'A');
    assert(("FT_DISAPPROVAL"@)[0] == 'F');
    assert(("FT_FRICTION"@)[0] == 'F');
    assert(("FT_FRICTION"@)[3] == 'F');
    assert(("FT_HAPPY"@)[0] == 'F');
    assert(("FT_HAPPY"@)[3] == 'H');
    assert(("FT_HIDING"@)[0] == 'F');
    assert(("FT_HIDING"@)[3] == 'H');
    assert(("FT_HOLDING"@)[0] == 'F');
    assert(("FT_HOLDING"@)[3] == 'H');
    assert(("FT_RPS_PAP"@)[0] == 'F');
    assert(("FT_RPS_PAP"@)[3] == 'R');
    assert(("FT_RPS_PAP"@)[7] == 'P');
    assert(("FT_RPS_ROCK"@)[0] == 'F');
    assert(("FT_RPS_ROCK"@)[3] == 'R');
    assert(("FT_RPS_SCI"@)[0] == 'F');
    assert(("FT_RPS_SCI"@)[3] == 'R');
    assert(("FT_RPS_SCI"@)[7] == 'S');
    assert(("FT_SHOCK"@)[0] == 'F');
    assert(("FT_SHOCK"@)[3] == 'S');
    assert(("IN_EARS_ACT"@)[0] == 'I');
    assert(("IN_EARS_ACT"@)[3] == 'E');
    assert(("IN_EARS_ACT"@)[4] == 'A');
    assert(("IN_EYES_ACT"@)[0] == 'I');
    assert(("IN_EYES_ACT"@)[3] == 'E');
    assert(("IN_EYES_ACT"@)[4] == 'Y');
    assert(("IN_FACE_PROX"@)[3] == 'F');
    assert(("IN_FIST"@)[0] == 'I');
    assert(("IN_FIST"@)[3] == 'F');
    assert(("IN_HANDS_PROX"@)[3] == 'H');
    assert(("IN_MOUTH"@)[0] == 'I');
    assert(("IN_MOUTH"@)[3] == 'M');
    assert(("IN_MOUTH_GUARD"@)[0] == 'I');
    assert(("IN_OCCLUSION"@)[3] == 'O');
    assert(("IN_OPEN"@)[0] == 'I');
    assert(("IN_OPEN"@)[3] == 'O');
    assert(("IN_PINCH"@)[0] == 'I');
    assert(("IN_PINCH"@)[3] == 'P');
    assert(("IN_REL_MOV"@)[0] == 'I');
    assert(("IN_SCISSORS"@)[0] == 'I');
    assert(("IN_SCISSORS"@)[3] == 'S');
    assert(("IN_SMILE"@)[0] == 'I');
    assert(("IN_SMILE"@)[3] == 'S');
    assert(("IN_THUMB_DOWN"@)[3] == 'T');
    assert(("IN_THUMB_UP"@)[0] == 'I');
    assert(("IN_THUMB_UP"@)[3] == 'T');
    assert(("IN_VEL"@)[0] == 'I');
    assert(("ST_DRAG"@)[0] == 'S');
    assert(("ST_DRAG"@)[3] == 'D');
    assert(("ST_GRASP"@)[0] == 'S');
    assert(("ST_GRASP"@)[3] == 'G');
    assert(("ST_IDLE"@)[0] == 'S');
    assert(("ST_IDLE"@)[3] == 'I');
    assert(("ST_IWAZARU"@)[0] == 'S');
    assert(("ST_KIKAZARU"@)[0] == 'S');
    assert(("ST_KIKAZARU"@)[3] == 'K');
    assert(("ST_MIZARU"@)[0] == 'S');
    assert(("ST_PAPER"@)[0] == 'S');
    assert(("ST_PAPER"@)[3] == 'P');
    assert(("ST_PEEKABOO"@)[0] == 'S');
    assert(("ST_PEEKABOO"@)[3] == 'P');
    assert(("ST_ROCK"@)[0] == 'S');
    assert(("ST_ROCK"@)[3] == 'R');
    assert(("ST_SCISSORS"@)[0] == 'S');
    assert(("ST_SCISSORS"@)[3] == 'S');
    assert(("ST_SCISSORS"@)[4] == 'C');
    assert(("ST_SMILE"@)[0] == 'S');
    assert(("ST_SMILE"@)[3] == 'S');
    assert(("ST_SURPRISE"@)[0] == 'S');
    assert(("ST_SURPRISE"@)[3] == 'S');
    assert(("ST_SURPRISE"@)[4] == 'U');
    assert(("ST_WASH"@)[0] == 'S');
    assert(("ST_WASH"@)[3] == 'W');
    assert(("ST_YES"@)[0] == 'S');
    assert("FT_ACTIVE"@.len() == 9);
    assert("FT_APPROVAL"@.len() == 11);
    assert("FT_DISAPPROVAL"@.len() == 14);
    assert("FT_FRICTION"@.len() == 11);
    assert("FT_HAPPY"@.len() == 8);
    assert("FT_HIDDEN_SENSE"@.len() == 15);
    assert("FT_HIDING"@.len() == 9);
    assert("FT_HOLDING"@.len() == 10);
    assert("FT_RPS_PAP"@.len() == 10);
    assert("FT_RPS_ROCK"@.len() == 11);
    assert("FT_RPS_SCI"@.len() == 10);
    assert("FT_SHOCK"@.len() == 8);
    assert("IN_EARS_ACT"@.len() == 11);
    assert("IN_EYES_ACT"@.len() == 11);
    assert("IN_FACE_PROX"@.len() == 12);
    assert("IN_FIST"@.len() == 7);
    assert("IN_HANDS_PROX"@.len() == 13);
    assert("IN_MOUTH"@.len() == 8);
    assert("IN_MOUTH_GUARD"@.len() == 14);
    assert("IN_OCCLUSION"@.len() == 12);
    assert("IN_OPEN"@.len() == 7);
    assert("IN_PINCH"@.len() == 8);
    assert("IN_REL_MOV"@.len() == 10);
    assert("IN_SCISSORS"@.len() == 11);
    assert("IN_SMILE"@.len() == 8);
    assert("IN_THUMB_DOWN"@.len() == 13);
    assert("IN_THUMB_UP"@.len() == 11);
    assert("IN_VEL"@.len() == 6);
    assert("ST_DRAG"@.len() == 7);
    assert("ST_GRASP"@.len() == 8);
    assert("ST_IDLE"@.len() == 7);
    assert("ST_IWAZARU"@.len() == 10);
    assert("ST_KIKAZARU"@.len() == 11);
    assert("ST_MIZARU"@.len() == 9);
    assert("ST_NO"@.len() == 5);
    assert("ST_PAPER"@.len() == 8);
    assert("ST_PEEKABOO"@.len() == 11);
    assert("ST_ROCK"@.len() == 7);
    assert("ST_SCISSORS"@.len() == 11);
    assert("ST_SMILE"@.len() == 8);
    assert("ST_SURPRISE"@.len() == 11);
    assert("ST_WASH"@.len() == 7);
    assert("ST_YES"@.len() == 6);
}

/// Append one node built from its id, label and category.
fn add_node(nodes: &mut Vec<Node>, id: &str, label: &str, category: NodeCategory)
    ensures
        final(nodes)@.len() == old(nodes)@.len() + 1,
        forall|i: int| 0 <= i < old(nodes)@.len() ==> final(nodes)@[i] == old(nodes)@[i],
        final(nodes)@.last().id@ == id@,
        final(nodes)@.last().label@ == label@,
        final(nodes)@.last().category == category,
{
    nodes.push(Node { id: id.to_owned(), label: label.to_owned(), category });
}

/// Append one edge, keeping the edge table well formed.
fn add_edge(edges: &mut Vec<Edge>, n: usize, s: usize, t: usize, w: i64)
    requires
        s < n,
        t < n,
        -MAX_WEIGHT <= w <= MAX_WEIGHT,
        edges_wf(old(edges)@, n as int),
        old(edges)@.len() < MAX_EDGES,
    ensures
        edges_wf(final(edges)@, n as int),
        final(edges)@.len() == old(edges)@.len() + 1,
        forall|i: int| 0 <= i < old(edges)@.len() ==> final(edges)@[i] == old(edges)@[i],
        final(edges)@.last() == (Edge { source: s, target: t, weight: w }),
{
    edges.push(Edge { source: s, target: t, weight: w });
}

/// Build the reverse-adjacency index of a well-formed edge table.
fn build_incoming(edges: &Vec<Edge>, n: usize) -> (incoming: Vec<Vec<(usize, i64)>>)
    requires
        edges_wf(edges@, n as int),
    ensures
        incoming@.len() == n,
        forall|t: int| 0 <= t < n ==> (#[trigger] incoming@[t])@ == incoming_of(edges@, t),
{
    let mut incoming: Vec<Vec<(usize, i64)>> = Vec::new();
    let mut t: usize = 0;
    while t < n
        invariant
            t <= n,
            incoming@.len() == t,
            edges_wf(edges@, n as int),
            forall|u: int| 0 <= u < t ==> (#[trigger] incoming@[u])@ == incoming_of(edges@, u),
        decreases n - t,
    {
        let mut row: Vec<(usize, i64)> = Vec::new();
        let mut i: usize = 0;
        while i < edges.len()
            invariant
                i <= edges@.len(),
                edges_wf(edges@, n as int),
                t < n,
                row@ == incoming_of(edges@.take(i as int), t as int),
            decreases edges@.len() - i,
        {
            let e = edges[i];
            proof {
                lemma_incoming_of_take_step(edges@, i as int, t as int);
            }
            if e.target == t {
                row.push((e.source, e.weight));
            }
            i = i + 1;
        }
        proof {
            assert(edges@.take(edges@.len() as int) =~= edges@);
        }
        incoming.push(row);
        t = t + 1;
    }
    incoming
}

/// Build the fixed context graph: sixteen sensors, twelve features and
/// fifteen states, joined by the hand-authored weighted edges.  Weights
/// are in micro-units (`900_000` stands for `0.9`).
#[verifier::rlimit(100)]
pub fn context_graph() -> (g: Graph)
    ensures
        g.wf(),
        g.nodes@.len() == 43,
        g.edges@.len() == 49,
        forall|k: int|
            0 <= k < 43 ==> {
                &&& (#[trigger] g.nodes@[k]).id@ == table_id(k)
                &&& g.nodes@[k].label@ == table_label(k)
                &&& g.nodes@[k].category == table_category(k)
            },
        forall|j: int|
            0 <= j < 49 ==> {
                &&& (#[trigger] g.edges@[j]).source == table_edge(j).0
                &&& g.edges@[j].target == table_edge(j).1
                &&& g.edges@[j].weight == table_edge(j).2
            },
        unique_ids(g.nodes@),
{
    let mut nodes: Vec<Node> = Vec::new();

    // Sensors.
    add_node(&mut nodes, "IN_VEL", "Velocity", NodeCategory::Sensor);
    add_node(&mut nodes, "IN_REL_MOV", "Rel. Motion", NodeCategory::Sensor);
    add_node(&mut nodes, "IN_FIST", "Fist", NodeCategory::Sensor);
    add_node(&mut nodes, "IN_PINCH", "Pinch", NodeCategory::Sensor);
    add_node(&mut nodes, "IN_OPEN", "Open Hand", NodeCategory::Sensor);
    add_node(&mut nodes, "IN_SCISSORS", "Scissors Pose", NodeCategory::Sensor);
    add_node(&mut nodes, "IN_HANDS_PROX", "Hands Touch", NodeCategory::Sensor);
    add_node(&mut nodes, "IN_OCCLUSION", "Face Lost+Prox", NodeCategory::Sensor);
    add_node(&mut nodes, "IN_THUMB_UP", "Thumb UP", NodeCategory::Sensor);
    add_node(&mut nodes, "IN_THUMB_DOWN", "Thumb DOWN", NodeCategory::Sensor);
    add_node(&mut nodes, "IN_EYES_ACT", "Cover Eyes", NodeCategory::Sensor);
    add_node(&mut nodes, "IN_EARS_ACT", "Cover Ears", NodeCategory::Sensor);
    add_node(&mut nodes, "IN_MOUTH_GUARD", "Cover Mouth", NodeCategory::Sensor);
    add_node(&mut nodes, "IN_SMILE", "Smile", NodeCategory::Sensor);
    add_node(&mut nodes, "IN_MOUTH", "Mouth Open", NodeCategory::Sensor);
    add_node(&mut nodes, "IN_FACE_PROX", "Hand-Face Prox", NodeCategory::Sensor);

    // Features.
    add_node(&mut nodes, "FT_ACTIVE", "High Kinetic", NodeCategory::Feature);
    add_node(&mut nodes, "FT_HOLDING", "Holding", NodeCategory::Feature);
    add_node(&mut nodes, "FT_FRICTION", "Friction", NodeCategory::Feature);
    add_node(&mut nodes, "FT_HIDING", "Concealment", NodeCategory::Feature);
    add_node(&mut nodes, "FT_RPS_ROCK", "Pose: ROCK", NodeCategory::Feature);
    add_node(&mut nodes, "FT_RPS_SCI", "Pose: SCISSORS", NodeCategory::Feature);
    add_node(&mut nodes, "FT_RPS_PAP", "Pose: PAPER", NodeCategory::Feature);
    add_node(&mut nodes, "FT_APPROVAL", "Semantics: YES", NodeCategory::Feature);
    add_node(&mut nodes, "FT_DISAPPROVAL", "Semantics: NO", NodeCategory::Feature);
    add_node(&mut nodes, "FT_HIDDEN_SENSE", "Blocking Senses", NodeCategory::Feature);
    add_node(&mut nodes, "FT_HAPPY", "Emo: Happy", NodeCategory::Feature);
    add_node(&mut nodes, "FT_SHOCK", "Emo: Shock", NodeCategory::Feature);

    // States.
    add_node(&mut nodes, "ST_IDLE", "IDLE", NodeCategory::State);
    add_node(&mut nodes, "ST_GRASP", "ACTION: GRASP", NodeCategory::State);
    add_node(&mut nodes, "ST_DRAG", "ACTION: DRAG", NodeCategory::State);
    add_node(&mut nodes, "ST_WASH", "ACTION: WASH", NodeCategory::State);
    add_node(&mut nodes, "ST_PEEKABOO", "CTX: HIDDEN", NodeCategory::State);
    add_node(&mut nodes, "ST_ROCK", "GAME: ROCK", NodeCategory::State);
    add_node(&mut nodes, "ST_SCISSORS", "GAME: SCISSORS", NodeCategory::State);
    add_node(&mut nodes, "ST_PAPER", "GAME: PAPER", NodeCategory::State);
    add_node(&mut nodes, "ST_YES", "CTX: YES / OK", NodeCategory::State);
    add_node(&mut nodes, "ST_NO", "CTX: NO / BAD", NodeCategory::State);
    add_node(&mut nodes, "ST_MIZARU", "🙈 MIZARU", NodeCategory::State);
    add_node(&mut nodes, "ST_KIKAZARU", "🙉 KIKAZARU", NodeCategory::State);
    add_node(&mut nodes, "ST_IWAZARU", "🙊 IWAZARU", NodeCategory::State);
    add_node(&mut nodes, "ST_SMILE", "FACE: SMILE", NodeCategory::State);
    add_node(&mut nodes, "ST_SURPRISE", "FACE: SURPRISE", NodeCategory::State);

    // Node positions, in table order.
    let in_vel: usize = 0;
    let in_rel_mov: usize = 1;
    let in_fist: usize = 2;
    let in_pinch: usize = 3;
    let in_open: usize = 4;
    let in_scissors: usize = 5;
    let in_hands_prox: usize = 6;
    let in_occlusion: usize = 7;
    let in_thumb_up: usize = 8;
    let in_thumb_down: usize = 9;
    let in_eyes_act: usize = 10;
    let in_ears_act: usize = 11;
    let in_mouth_guard: usize = 12;
    let in_smile: usize = 13;
    let in_mouth: usize = 14;
    let in_face_prox: usize = 15;
    let ft_active: usize = 16;
    let ft_holding: usize = 17;
    let ft_friction: usize = 18;
    let ft_hiding: usize = 19;
    let ft_rps_rock: usize = 20;
    let ft_rps_sci: usize = 21;
    let ft_rps_pap: usize = 22;
    let ft_approval: usize = 23;
    let ft_disapproval: usize = 24;
    let ft_hidden_sense: usize = 25;
    let ft_happy: usize = 26;
    let ft_shock: usize = 27;
    let st_idle: usize = 28;
    let st_grasp: usize = 29;
    let st_drag: usize = 30;
    let st_wash: usize = 31;
    let st_peekaboo: usize = 32;
    let st_rock: usize = 33;
    let st_scissors: usize = 34;
    let st_paper: usize = 35;
    let st_yes: usize = 36;
    let st_no: usize = 37;
    let st_mizaru: usize = 38;
    let st_kikazaru: usize = 39;
    let st_iwazaru: usize = 40;
    let st_smile: usize = 41;
    let st_surprise: usize = 42;

    let n: usize = nodes.len();
    let mut edges: Vec<Edge> = Vec::new();

    // Physical layer.
    add_edge(&mut edges, n, in_vel, ft_active, 900_000);
    add_edge(&mut edges, n, in_fist, ft_holding, 900_000);
    add_edge(&mut edges, n, in_pinch, ft_holding, 800_000);
    add_edge(&mut edges, n, in_hands_prox, ft_friction, 700_000);
    add_edge(&mut edges, n, in_rel_mov, ft_friction, 900_000);
    add_edge(&mut edges, n, in_occlusion, ft_hiding, 1_000_000);
    add_edge(&mut edges, n, ft_holding, st_grasp, 1_000_000);
    add_edge(&mut edges, n, ft_active, st_grasp, -300_000);
    add_edge(&mut edges, n, ft_holding, st_drag, 800_000);
    add_edge(&mut edges, n, ft_active, st_drag, 900_000);
    add_edge(&mut edges, n, ft_friction, st_wash, 1_200_000);
    add_edge(&mut edges, n, ft_hiding, st_peekaboo, 1_200_000);

    // Semantic layer.
    add_edge(&mut edges, n, in_fist, ft_rps_rock, 800_000);
    add_edge(&mut edges, n, in_scissors, ft_rps_sci, 900_000);
    add_edge(&mut edges, n, in_open, ft_rps_pap, 900_000);
    add_edge(&mut edges, n, ft_rps_rock, st_rock, 900_000);
    add_edge(&mut edges, n, ft_rps_sci, st_scissors, 900_000);
    add_edge(&mut edges, n, ft_rps_pap, st_paper, 900_000);
    add_edge(&mut edges, n, in_thumb_up, ft_approval, 1_000_000);
    add_edge(&mut edges, n, in_thumb_down, ft_disapproval, 1_000_000);
    add_edge(&mut edges, n, in_thumb_up, ft_rps_rock, -500_000);
    add_edge(&mut edges, n, in_thumb_down, ft_rps_rock, -500_000);
    add_edge(&mut edges, n, ft_approval, st_yes, 1_000_000);
    add_edge(&mut edges, n, ft_disapproval, st_no, 1_000_000);
    add_edge(&mut edges, n, in_eyes_act, ft_hidden_sense, 800_000);
    add_edge(&mut edges, n, in_eyes_act, st_mizaru, 1_000_000);
    add_edge(&mut edges, n, in_hands_prox, st_mizaru, 500_000);
    add_edge(&mut edges, n, in_ears_act, ft_hidden_sense, 800_000);
    add_edge(&mut edges, n, in_ears_act, st_kikazaru, 1_000_000);
    add_edge(&mut edges, n, in_mouth_guard, ft_hidden_sense, 800_000);
    add_edge(&mut edges, n, in_mouth_guard, st_iwazaru, 1_000_000);
    add_edge(&mut edges, n, in_hands_prox, st_iwazaru, 800_000);
    add_edge(&mut edges, n, in_smile, ft_happy, 900_000);
    add_edge(&mut edges, n, in_mouth, ft_shock, 600_000);
    add_edge(&mut edges, n, in_face_prox, ft_shock, 500_000);
    add_edge(&mut edges, n, ft_happy, st_smile, 900_000);
    add_edge(&mut edges, n, ft_shock, st_surprise, 900_000);

    // Inhibition.
    add_edge(&mut edges, n, ft_active, st_idle, -600_000);
    add_edge(&mut edges, n, st_rock, st_scissors, -800_000);
    add_edge(&mut edges, n, st_rock, st_paper, -800_000);
    add_edge(&mut edges, n, st_scissors, st_paper, -800_000);
    add_edge(&mut edges, n, st_yes, st_no, -2_000_000);
    add_edge(&mut edges, n, st_no, st_yes, -2_000_000);
    add_edge(&mut edges, n, st_mizaru, st_kikazaru, -1_000_000);
    add_edge(&mut edges, n, st_mizaru, st_iwazaru, -1_000_000);
    add_edge(&mut edges, n, st_kikazaru, st_iwazaru, -1_000_000);
    add_edge(&mut edges, n, st_grasp, st_wash, -800_000);
    add_edge(&mut edges, n, st_wash, st_grasp, -800_000);
    add_edge(&mut edges, n, st_drag, st_wash, -800_000);

    let incoming = build_incoming(&edges, n);
    proof {
        assert(forall|k: int|
            0 <= k < 43 ==> {
                &&& (#[trigger] nodes@[k]).id@ == table_id(k)
                &&& nodes@[k].label@ == table_label(k)
                &&& nodes@[k].category == table_category(k)
            });
        lemma_table_ids_distinct();
        assert(unique_ids(nodes@));
    }
    Graph { nodes, edges, incoming }
}

} // verus!
