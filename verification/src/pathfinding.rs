//! The navigation graph: solar systems as nodes, stargates as weighted
//! directed edges, an identifier index for lookup, and shortest-path
//! queries over the whole.
//!
//! Node and edge handles are slots into internal arrays; removal leaves a
//! tombstone, so handles are never silently re-pointed at another node.

use std::collections::HashMap;
use vstd::prelude::*;

use crate::solar_system::SolarSystem;
use crate::stargate::Stargate;

verus! {

/// A handle to a system node in the navigation graph.
#[derive(Clone, Copy, Debug, PartialEq, Eq, Structural, Hash)]
pub struct NodeIndex {
    /// The node's slot in the graph's node table.
    pub index: usize,
}

/// A handle to a stargate edge in the navigation graph.
#[derive(Clone, Copy, Debug, PartialEq, Eq, Structural, Hash)]
pub struct EdgeIndex {
    /// The edge's slot in the graph's edge table.
    pub index: usize,
}

/// Errors that can occur when querying the `SystemGraph`.
#[derive(Clone, Copy, Debug, PartialEq, Eq, Structural)]
pub enum GraphError {
    /// The system was not found in the graph
    SystemNotFound,
    /// No path was found between the two systems
    NoPath,
}

/// A directed edge of the graph: the two endpoint node slots and the
/// stargate that the edge carries as its weight.
#[derive(Debug, PartialEq, Eq)]
pub struct GraphEdge {
    /// The origin node slot.
    pub from: usize,
    /// The destination node slot.
    pub to: usize,
    /// The stargate carried on this edge; its `distance` is the edge weight.
    pub gate: Stargate,
}

/// How many entries of a boolean sequence are true; the number of settled
/// nodes, used to show that the search terminates.
spec fn count_true(s: Seq<bool>) -> int
    decreases s.len(),
{
    if s.len() == 0 {
        0
    } else {
        count_true(s.drop_last()) + if s.last() {
            1int
        } else {
            0int
        }
    }
}

proof fn lemma_count_true_le(s: Seq<bool>)
    ensures
        count_true(s) <= s.len(),
    decreases s.len(),
{
    if s.len() > 0 {
        lemma_count_true_le(s.drop_last());
    }
}

proof fn lemma_count_true_update(s: Seq<bool>, i: int)
    requires
        0 <= i < s.len(),
        !s[i],
    ensures
        count_true(s.update(i, true)) == count_true(s) + 1,
    decreases s.len(),
{
    let t = s.update(i, true);
    if i == s.len() - 1 {
        assert(t.drop_last() =~= s.drop_last());
        assert(t.last());
    } else {
        assert(t.drop_last() =~= s.drop_last().update(i, true));
        assert(t.last() == s.last());
        lemma_count_true_update(s.drop_last(), i);
    }
}

/// How many slots of a node table hold a live node.
pub open spec fn live_node_count(s: Seq<Option<SolarSystem>>) -> int
    decreases s.len(),
{
    if s.len() == 0 {
        0
    } else {
        live_node_count(s.drop_last()) + if s.last() is Some {
            1int
        } else {
            0int
        }
    }
}

/// The routes recorded by the search, one sequence of edge slots per node.
spec fn routes_view(routes: Seq<Vec<usize>>) -> Seq<Seq<usize>> {
    routes.map_values(|rv: Vec<usize>| rv@)
}

/// A graph representing the solar systems and their connections.
pub struct SystemGraph {
    /// The system nodes; a removed node leaves a `None` tombstone.
    nodes: Vec<Option<SolarSystem>>,
    /// The stargate edges; a removed edge leaves a `None` tombstone.
    edges: Vec<Option<GraphEdge>>,
    /// A mapping from a system id to a node handle.
    index: HashMap<u32, NodeIndex>,
    /// The ids present in `index`, kept for uniform random sampling.
    ids: Vec<u32>,
}

impl SystemGraph {
    /// The node table: one entry per slot, `None` where a node was removed.
    pub closed spec fn spec_nodes(self) -> Seq<Option<SolarSystem>> {
        self.nodes@
    }

    /// The edge table: one entry per slot, `None` where an edge was removed.
    pub closed spec fn spec_edges(self) -> Seq<Option<GraphEdge>> {
        self.edges@
    }

    /// The identifier index: system id to node handle.
    pub closed spec fn id_map(self) -> Map<u32, NodeIndex> {
        self.index@
    }

    /// The sequence of ids a random query samples from.
    pub closed spec fn spec_ids(self) -> Seq<u32> {
        self.ids@
    }

    /// Slot `n` holds a live node.
    pub open spec fn node_live(self, n: int) -> bool {
        0 <= n < self.spec_nodes().len() && self.spec_nodes()[n] is Some
    }

    /// The system at live slot `n`.
    pub open spec fn node_at(self, n: int) -> SolarSystem
        recommends
            self.node_live(n),
    {
        self.spec_nodes()[n]->0
    }

    /// Slot `e` holds a live edge.
    pub open spec fn edge_live(self, e: int) -> bool {
        0 <= e < self.spec_edges().len() && self.spec_edges()[e] is Some
    }

    /// The edge at live slot `e`.
    pub open spec fn edge_at(self, e: int) -> GraphEdge
        recommends
            self.edge_live(e),
    {
        self.spec_edges()[e]->0
    }

    /// The id index knows `id`.
    pub open spec fn contains_id(self, id: u32) -> bool {
        self.id_map().contains_key(id)
    }

    /// The node slot that `id` is mapped to.
    pub open spec fn slot(self, id: u32) -> int
        recommends
            self.contains_id(id),
    {
        self.id_map()[id].index as int
    }

    /// Well-formedness: every mapped id points at a live node carrying that
    /// id; every live edge joins two live nodes; and the sampling list holds
    /// exactly the mapped ids, each once.
    pub open spec fn wf(self) -> bool {
        &&& forall|id: u32| #[trigger]
            self.id_map().contains_key(id) ==> self.node_live(self.slot(id)) && self.node_at(
                self.slot(id),
            ).attributes.id == id
        &&& forall|e: int| #[trigger]
            self.edge_live(e) ==> self.node_live(self.edge_at(e).from as int) && self.node_live(
                self.edge_at(e).to as int,
            )
        &&& self.spec_ids().no_duplicates()
        &&& forall|i: int|
            0 <= i < self.spec_ids().len() ==> self.id_map().contains_key(
                #[trigger] self.spec_ids()[i],
            )
        &&& forall|id: u32| #[trigger]
            self.id_map().contains_key(id) ==> self.spec_ids().contains(id)
    }

    // ----- walks through the graph, as specification -----

    /// `p` is a sequence of live edge slots forming a walk from node `from`
    /// to node `to`: each edge starts where the previous one ended.
    pub open spec fn path_valid(self, p: Seq<usize>, from: int, to: int) -> bool
        decreases p.len(),
    {
        if p.len() == 0 {
            self.node_live(from) && from == to
        } else {
            &&& self.edge_live(p[0] as int)
            &&& self.edge_at(p[0] as int).from as int == from
            &&& self.path_valid(p.drop_first(), self.edge_at(p[0] as int).to as int, to)
        }
    }

    /// The total weight of a walk: the sum of its gates' distances.
    pub open spec fn path_weight(self, p: Seq<usize>) -> int
        decreases p.len(),
    {
        if p.len() == 0 {
            0
        } else {
            self.edge_at(p[0] as int).gate.distance + self.path_weight(p.drop_first())
        }
    }

    /// The node slots that a walk visits, the starting node included.
    pub open spec fn path_nodes(self, p: Seq<usize>, from: int) -> Seq<int>
        decreases p.len(),
    {
        if p.len() == 0 {
            seq![from]
        } else {
            seq![from] + self.path_nodes(p.drop_first(), self.edge_at(p[0] as int).to as int)
        }
    }

    /// A walk is simple when it visits no node twice.
    pub open spec fn path_simple(self, p: Seq<usize>, from: int) -> bool {
        self.path_nodes(p, from).no_duplicates()
    }

    /// The stargates along a walk, in order.
    pub open spec fn path_gates(self, p: Seq<usize>) -> Seq<Stargate> {
        p.map_values(|e: usize| self.edge_at(e as int).gate)
    }

    /// Some walk leads from `from` to `to`.
    pub open spec fn reachable(self, from: int, to: int) -> bool {
        exists|p: Seq<usize>| self.path_valid(p, from, to)
    }

    /// What a successful shortest-path query hands back: some valid simple
    /// least-weight walk from `a` to `b` whose stargates are `gates`.
    pub open spec fn pathfind_ok(self, a: int, b: int, gates: Seq<Stargate>) -> bool {
        exists|p: Seq<usize>| self.good_path(p, a, b, gates)
    }

    /// `p` is a valid simple walk from `a` to `b`, no valid walk from `a`
    /// to `b` weighs less, and `gates` lists exactly the stargates along
    /// `p`.
    pub open spec fn good_path(self, p: Seq<usize>, a: int, b: int, gates: Seq<Stargate>) -> bool {
        &&& self.path_valid(p, a, b)
        &&& self.path_simple(p, a)
        &&& gates == self.path_gates(p)
        &&& forall|q: Seq<usize>|
            self.path_valid(q, a, b) ==> self.path_weight(q) >= self.path_weight(p)
    }

    // ----- lemmas about walks -----

    /// A walk's weight is never negative.
    pub proof fn lemma_path_weight_nonneg(self, p: Seq<usize>)
        ensures
            self.path_weight(p) >= 0,
        decreases p.len(),
    {
        if p.len() > 0 {
            self.lemma_path_weight_nonneg(p.drop_first());
        }
    }

    /// Appending an edge that starts where a walk ends extends the walk,
    /// adds the edge's weight, and visits the edge's target last.
    pub proof fn lemma_path_snoc(self, p: Seq<usize>, a: int, u: int, e: usize)
        requires
            self.path_valid(p, a, u),
            self.edge_live(e as int),
            self.edge_at(e as int).from as int == u,
            self.node_live(self.edge_at(e as int).to as int),
        ensures
            self.path_valid(p.push(e), a, self.edge_at(e as int).to as int),
            self.path_weight(p.push(e)) == self.path_weight(p) + self.edge_at(
                e as int,
            ).gate.distance,
            self.path_nodes(p.push(e), a) == self.path_nodes(p, a).push(
                self.edge_at(e as int).to as int,
            ),
        decreases p.len(),
    {
        let v = self.edge_at(e as int).to as int;
        if p.len() == 0 {
            assert(p.push(e)[0] == e);
            assert(p.push(e).drop_first() =~= Seq::<usize>::empty());
            assert(self.path_valid(Seq::<usize>::empty(), v, v));
            assert(self.path_weight(Seq::<usize>::empty()) == 0);
            assert(self.path_nodes(Seq::<usize>::empty(), v) == seq![v]);
            assert(self.path_nodes(p, a) == seq![a]);
            assert(self.path_nodes(p.push(e), a) =~= self.path_nodes(p, a).push(v));
        } else {
            let u1 = self.edge_at(p[0] as int).to as int;
            self.lemma_path_snoc(p.drop_first(), u1, u, e);
            assert(p.push(e)[0] == p[0]);
            assert(p.push(e).drop_first() =~= p.drop_first().push(e));
            assert(self.path_nodes(p.push(e), a) =~= self.path_nodes(p, a).push(v));
        }
    }

    /// The nodes of a valid walk: one more than its edges, starting at its
    /// origin, ending at its target, each step joined by the matching edge.
    pub proof fn lemma_path_nodes(self, p: Seq<usize>, a: int, b: int)
        requires
            self.path_valid(p, a, b),
        ensures
            self.path_nodes(p, a).len() == p.len() + 1,
            self.path_nodes(p, a)[0] == a,
            self.path_nodes(p, a).last() == b,
            forall|k: int|
                0 <= k < p.len() ==> self.edge_live(#[trigger] p[k] as int) && self.edge_at(
                    p[k] as int,
                ).from as int == self.path_nodes(p, a)[k] && self.edge_at(p[k] as int).to as int
                    == self.path_nodes(p, a)[k + 1],
        decreases p.len(),
    {
        if p.len() > 0 {
            let u1 = self.edge_at(p[0] as int).to as int;
            self.lemma_path_nodes(p.drop_first(), u1, b);
            assert forall|k: int| 0 <= k < p.len() implies self.edge_live(#[trigger] p[k] as int)
                && self.edge_at(p[k] as int).from as int == self.path_nodes(p, a)[k]
                && self.edge_at(p[k] as int).to as int == self.path_nodes(p, a)[k + 1] by {
                if k > 0 {
                    assert(p.drop_first()[k - 1] == p[k]);
                    assert(self.path_nodes(p, a)[k] == self.path_nodes(p.drop_first(), u1)[k - 1]);
                    assert(self.path_nodes(p, a)[k + 1] == self.path_nodes(p.drop_first(), u1)[k]);
                }
            }
        }
    }

    /// In a well-formed graph every node a valid walk visits is a live node.
    pub proof fn lemma_path_nodes_live(self, p: Seq<usize>, a: int, b: int)
        requires
            self.wf(),
            self.path_valid(p, a, b),
        ensures
            forall|k: int|
                0 <= k < self.path_nodes(p, a).len() ==> self.node_live(
                    #[trigger] self.path_nodes(p, a)[k],
                ),
        decreases p.len(),
    {
        if p.len() == 0 {
        } else {
            let u1 = self.edge_at(p[0] as int).to as int;
            self.lemma_path_nodes_live(p.drop_first(), u1, b);
            assert forall|k: int| 0 <= k < self.path_nodes(p, a).len() implies self.node_live(
                #[trigger] self.path_nodes(p, a)[k],
            ) by {
                if k > 0 {
                    assert(self.path_nodes(p, a)[k] == self.path_nodes(p.drop_first(), u1)[k - 1]);
                }
            }
        }
    }

    /// A simple walk in a well-formed graph has fewer edges than the graph
    /// has node slots, and so its weight is bounded.
    pub proof fn lemma_simple_path_bounds(self, p: Seq<usize>, a: int, b: int)
        requires
            self.wf(),
            self.path_valid(p, a, b),
            self.path_simple(p, a),
        ensures
            p.len() < self.spec_nodes().len(),
            self.path_weight(p) <= p.len() * (u32::MAX as int),
    {
        let nodes = self.path_nodes(p, a);
        self.lemma_path_nodes(p, a, b);
        self.lemma_path_nodes_live(p, a, b);
        let n = self.spec_nodes().len() as int;
        nodes.unique_seq_to_set();
        assert(nodes.to_set().subset_of(vstd::set_lib::set_int_range(0, n)));
        vstd::set_lib::lemma_int_range(0, n);
        vstd::set_lib::lemma_len_subset(nodes.to_set(), vstd::set_lib::set_int_range(0, n));
        self.lemma_path_weight_bound(p);
    }

    /// Each stargate weighs at most `u32::MAX`, so a walk of `k` edges weighs at
    /// most `k * u32::MAX`.
    pub proof fn lemma_path_weight_bound(self, p: Seq<usize>)
        ensures
            self.path_weight(p) <= p.len() * (u32::MAX as int),
        decreases p.len(),
    {
        if p.len() > 0 {
            self.lemma_path_weight_bound(p.drop_first());
            assert(self.path_weight(p) <= p.len() * (u32::MAX as int))
                by (nonlinear_arith)
                requires
                    self.path_weight(p) == self.edge_at(p[0] as int).gate.distance
                        + self.path_weight(p.drop_first()),
                    self.path_weight(p.drop_first()) <= p.drop_first().len() * (u32::MAX as int),
                    p.drop_first().len() == p.len() - 1,
                    self.edge_at(p[0] as int).gate.distance <= u32::MAX,
            ;
        }
    }

    /// If the settled set is closed under following edges out of it, a walk
    /// that starts inside it cannot end outside it.
    pub proof fn lemma_closed_path(self, p: Seq<usize>, x: int, z: int, s: Seq<bool>)
        requires
            self.wf(),
            s.len() == self.spec_nodes().len(),
            self.path_valid(p, x, z),
            0 <= x < s.len(),
            s[x],
            forall|u: int, e: int|
                #![trigger s[u], self.edge_live(e)]
                0 <= u < s.len() && s[u] && self.edge_live(e) && self.edge_at(e).from as int == u
                    ==> s[self.edge_at(e).to as int],
        ensures
            0 <= z < s.len() && s[z],
        decreases p.len(),
    {
        if p.len() > 0 {
            let y = self.edge_at(p[0] as int).to as int;
            assert(self.edge_live(p[0] as int));
            assert(self.node_live(y));
            assert(s[y]);
            self.lemma_closed_path(p.drop_first(), y, z, s);
        }
    }

    /// Any walk from a settled node to an unsettled node pays at least the
    /// recorded distance of some reached frontier node: where the walk first
    /// leaves the settled set, relaxation has already recorded a distance no
    /// larger than the walk's cost up to that point.
    pub proof fn lemma_frontier_bound(
        self,
        q: Seq<usize>,
        x: int,
        z: int,
        s: Seq<bool>,
        r: Seq<bool>,
        d: Seq<u128>,
    )
        requires
            self.wf(),
            s.len() == self.spec_nodes().len(),
            r.len() == s.len(),
            d.len() == s.len(),
            self.path_valid(q, x, z),
            0 <= x < s.len() && s[x],
            0 <= z < s.len() && !s[z],
            forall|u: int, e: int|
                #![trigger s[u], self.edge_live(e)]
                0 <= u < s.len() && s[u] && self.edge_live(e) && self.edge_at(e).from as int == u
                    ==> r[self.edge_at(e).to as int] && d[self.edge_at(e).to as int] as int <= d[u]
                    + self.edge_at(e).gate.distance,
        ensures
            exists|w: int|
                0 <= w < s.len() && r[w] && !s[w] && d[x] + self.path_weight(q) >= d[w],
        decreases q.len(),
    {
        let e0 = q[0] as int;
        let y = self.edge_at(e0).to as int;
        assert(self.edge_live(e0));
        assert(self.node_live(y));
        self.lemma_path_weight_nonneg(q.drop_first());
        if !s[y] {
            assert(r[y] && d[y] as int <= d[x] + self.edge_at(e0).gate.distance);
            assert(0 <= y < s.len() && r[y] && !s[y] && d[x] + self.path_weight(q) >= d[y]);
        } else {
            self.lemma_frontier_bound(q.drop_first(), y, z, s, r, d);
            let w = choose|w: int|
                0 <= w < s.len() && r[w] && !s[w] && d[y] + self.path_weight(q.drop_first())
                    >= d[w];
            assert(d[y] as int <= d[x] + self.edge_at(e0).gate.distance);
            assert(0 <= w < s.len() && r[w] && !s[w] && d[x] + self.path_weight(q) >= d[w]);
        }
    }

    /// The state of the shortest-path search. `s` marks settled nodes,
    /// whose recorded distance is final and minimal; `r` marks reached
    /// nodes, which have a recorded simple route from `a` through settled
    /// nodes; `d` records distances and `rt` the routes. Edges out of
    /// settled nodes have been relaxed, and no settled node lies farther
    /// than any reached unsettled one.
    spec fn dijkstra_inv(
        self,
        a: int,
        b: int,
        s: Seq<bool>,
        r: Seq<bool>,
        d: Seq<u128>,
        rt: Seq<Seq<usize>>,
    ) -> bool {
        let n = self.spec_nodes().len() as int;
        &&& self.wf()
        &&& s.len() == n && r.len() == n && d.len() == n && rt.len() == n
        &&& 0 <= a < n && self.node_live(a)
        &&& 0 <= b < n && self.node_live(b)
        &&& r[a]
        &&& d[a] == 0
        &&& !s[b]
        &&& forall|v: int| 0 <= v < n && s[v] ==> r[v]
        &&& forall|v: int|
            #![trigger r[v]]
            0 <= v < n && r[v] ==> {
                &&& self.path_valid(rt[v], a, v)
                &&& self.path_simple(rt[v], a)
                &&& self.path_weight(rt[v]) == d[v] as int
                &&& forall|k: int|
                    #![trigger self.path_nodes(rt[v], a)[k]]
                    0 <= k < self.path_nodes(rt[v], a).len() - 1 ==> {
                        let nd = self.path_nodes(rt[v], a)[k];
                        0 <= nd < n && s[nd]
                    }
            }
        &&& forall|u: int, e: int|
            #![trigger s[u], self.edge_live(e)]
            0 <= u < n && s[u] && self.edge_live(e) && self.edge_at(e).from as int == u ==> {
                &&& r[self.edge_at(e).to as int]
                &&& d[self.edge_at(e).to as int] as int <= d[u] as int + self.edge_at(
                    e,
                ).gate.distance
            }
        &&& forall|v: int|
            #![trigger s[v]]
            0 <= v < n && s[v] ==> forall|q: Seq<usize>|
                self.path_valid(q, a, v) ==> self.path_weight(q) >= d[v] as int
        &&& forall|v: int, w: int|
            #![trigger s[v], r[w]]
            0 <= v < n && 0 <= w < n && s[v] && r[w] && !s[w] ==> d[v] <= d[w]
    }

    /// Copy a route of edge slots.
    fn copy_route(src: &Vec<usize>) -> (r: Vec<usize>)
        ensures
            r@ == src@,
    {
        let mut out: Vec<usize> = Vec::new();
        let mut i: usize = 0;
        while i < src.len()
            invariant
                i <= src.len(),
                out@ == src@.take(i as int),
            decreases src.len() - i,
        {
            out.push(src[i]);
            proof {
                assert(out@ =~= src@.take(i + 1int));
            }
            i = i + 1;
        }
        proof {
            assert(src@.take(src@.len() as int) =~= src@);
        }
        out
    }

    /// Run the least-weight search from `start` to `goal`: the walk as a
    /// sequence of edge slots, or `None` exactly when no walk exists.
    #[verifier::rlimit(100)]
    #[verifier::spinoff_prover]
    fn run_search(&self, start: NodeIndex, goal: NodeIndex) -> (r: Option<Vec<usize>>)
        requires
            self.wf(),
            self.node_live(start.index as int),
            self.node_live(goal.index as int),
        ensures
            match r {
                Some(es) => {
                    &&& self.path_valid(es@, start.index as int, goal.index as int)
                    &&& self.path_simple(es@, start.index as int)
                    &&& forall|q: Seq<usize>|
                        self.path_valid(q, start.index as int, goal.index as int)
                            ==> self.path_weight(q) >= self.path_weight(es@)
                },
                None => !self.reachable(start.index as int, goal.index as int),
            },
    {
        let a = start.index;
        let b = goal.index;
        let n = self.nodes.len();
        let mut settled: Vec<bool> = Vec::new();
        let mut reached: Vec<bool> = Vec::new();
        let mut dist: Vec<u128> = Vec::new();
        let mut route: Vec<Vec<usize>> = Vec::new();
        let mut i: usize = 0;
        while i < n
            invariant
                i <= n,
                settled@.len() == i,
                reached@.len() == i,
                dist@.len() == i,
                route@.len() == i,
                forall|k: int| 0 <= k < i ==> !(#[trigger] settled@[k]),
                forall|k: int| 0 <= k < i ==> !(#[trigger] reached@[k]),
                forall|k: int| 0 <= k < i ==> (#[trigger] dist@[k]) == 0,
                forall|k: int| 0 <= k < i ==> (#[trigger] route@[k])@ == Seq::<usize>::empty(),
            decreases n - i,
        {
            settled.push(false);
            reached.push(false);
            dist.push(0);
            route.push(Vec::new());
            proof {
                assert(route@[i as int]@ =~= Seq::<usize>::empty());
            }
            i = i + 1;
        }
        reached.set(a, true);
        proof {
            let rt = routes_view(route@);
            assert(rt[a as int] == route@[a as int]@);
            assert(rt[a as int] =~= Seq::<usize>::empty());
            assert(self.path_valid(Seq::<usize>::empty(), a as int, a as int));
            assert(self.path_nodes(Seq::<usize>::empty(), a as int) == seq![a as int]);
            assert(self.path_valid(rt[a as int], a as int, a as int));
            assert(self.path_nodes(rt[a as int], a as int) == seq![a as int]);
            assert(self.path_simple(rt[a as int], a as int));
            assert(self.dijkstra_inv(
                a as int,
                b as int,
                settled@,
                reached@,
                dist@,
                routes_view(route@),
            ));
        }
        loop
            invariant
                self.wf(),
                n == self.spec_nodes().len(),
                a < n && b < n,
                a == start.index && b == goal.index,
                settled@.len() == n && reached@.len() == n && dist@.len() == n && route@.len() == n,
                self.dijkstra_inv(
                    a as int,
                    b as int,
                    settled@,
                    reached@,
                    dist@,
                    routes_view(route@),
                ),
            decreases self.spec_nodes().len() - count_true(settled@),
        {
            // Pick the reached, unsettled node with the least recorded
            // distance.
            let mut pick: usize = n;
            let mut pick_d: u128 = 0;
            let mut v: usize = 0;
            while v < n
                invariant
                    v <= n,
                    pick <= n,
                    n == settled@.len() && n == reached@.len() && n == dist@.len(),
                    pick == n ==> forall|k: int|
                        0 <= k < v ==> !(#[trigger] reached@[k] && !settled@[k]),
                    pick < n ==> reached@[pick as int] && !settled@[pick as int] && dist@[pick as int]
                        == pick_d,
                    pick < n ==> forall|k: int|
                        0 <= k < v && #[trigger] reached@[k] && !settled@[k] ==> pick_d
                            <= dist@[k],
                decreases n - v,
            {
                if reached[v] && !settled[v] {
                    if pick == n || dist[v] < pick_d {
                        pick = v;
                        pick_d = dist[v];
                    }
                }
                v = v + 1;
            }
            if pick == n {
                // Nothing on the frontier is left: every reached node is
                // settled, so the settled set is closed under edges and the
                // goal was never reached.
                proof {
                    let ghost s = settled@;
                    assert forall|u: int, e: int|
                        #![trigger s[u], self.edge_live(e)]
                        0 <= u < s.len() && s[u] && self.edge_live(e) && self.edge_at(
                            e,
                        ).from as int == u implies s[self.edge_at(e).to as int] by {
                        let t = self.edge_at(e).to as int;
                        assert(reached@[t]);
                        assert(!(reached@[t] && !settled@[t]));
                    }
                    assert(s[a as int]) by {
                        assert(reached@[a as int]);
                        assert(!(reached@[a as int] && !settled@[a as int]));
                    }
                    assert(!self.reachable(a as int, b as int)) by {
                        if self.reachable(a as int, b as int) {
                            let p = choose|p: Seq<usize>|
                                self.path_valid(p, a as int, b as int);
                            self.lemma_closed_path(p, a as int, b as int, s);
                        }
                    }
                }
                return None;
            }
            // The picked node's recorded distance is minimal over every
            // valid walk from the start: any walk must cross the frontier,
            // and the crossing point is already at least as close.
            proof {
                let pi = pick as int;
                assert forall|q: Seq<usize>|
                    self.path_valid(q, a as int, pi) implies self.path_weight(q) >= dist@[pi]
                    as int by {
                    if settled@[a as int] {
                        self.lemma_frontier_bound(q, a as int, pi, settled@, reached@, dist@);
                        let w = choose|w: int|
                            0 <= w < settled@.len() && reached@[w] && !settled@[w] && dist@[a as int]
                                + self.path_weight(q) >= dist@[w];
                        assert(pick_d <= dist@[w]);
                    } else {
                        assert(reached@[a as int]);
                        assert(pick_d <= dist@[a as int]);
                        self.lemma_path_weight_nonneg(q);
                    }
                }
            }
            let ghost s_entry = settled@;
            proof {
                lemma_count_true_update(settled@, pick as int);
                lemma_count_true_le(settled@);
            }
            settled.set(pick, true);
            proof {
                assert(settled@ == s_entry.update(pick as int, true));
                assert(count_true(settled@) == count_true(s_entry) + 1);
                lemma_count_true_le(settled@);
            }
            if pick == b {
                let path_edges = Self::copy_route(&route[b]);
                proof {
                    let rt = routes_view(route@);
                    assert(reached@[b as int]);
                    assert(path_edges@ == rt[b as int]);
                    assert(self.path_valid(path_edges@, a as int, b as int));
                    assert(self.path_simple(path_edges@, a as int));
                    assert(self.path_weight(path_edges@) == dist@[b as int] as int);
                }
                return Some(path_edges);
            }
            // Relax every edge out of the picked node.
            let ghost s_mid = settled@;
            let pickd = dist[pick];
            let m = self.edges.len();
            let mut e: usize = 0;
            while e < m
                invariant
                    e <= m,
                    m == self.spec_edges().len(),
                    n == self.spec_nodes().len(),
                    a < n && b < n && pick < n && pick != b,
                    self.wf(),
                    settled@ == s_mid,
                    settled@.len() == n && reached@.len() == n && dist@.len() == n && route@.len()
                        == n,
                    settled@[pick as int],
                    reached@[pick as int],
                    dist@[pick as int] == pickd,
                    self.node_live(a as int) && self.node_live(b as int),
                    reached@[a as int],
                    dist@[a as int] == 0,
                    !settled@[b as int],
                    forall|v2: int| 0 <= v2 < n && settled@[v2] ==> reached@[v2],
                    forall|v2: int| 0 <= v2 < n && settled@[v2] ==> dist@[v2] <= pickd,
                    forall|v2: int|
                        #![trigger reached@[v2]]
                        0 <= v2 < n && reached@[v2] ==> {
                            &&& self.path_valid(routes_view(route@)[v2], a as int, v2)
                            &&& self.path_simple(routes_view(route@)[v2], a as int)
                            &&& self.path_weight(routes_view(route@)[v2]) == dist@[v2] as int
                            &&& forall|k: int|
                                #![trigger self.path_nodes(routes_view(route@)[v2], a as int)[k]]
                                0 <= k < self.path_nodes(routes_view(route@)[v2], a as int).len()
                                    - 1 ==> {
                                    let nd = self.path_nodes(routes_view(route@)[v2], a as int)[k];
                                    0 <= nd < n && settled@[nd]
                                }
                        },
                    forall|u: int, e2: int|
                        #![trigger s_mid[u], self.edge_live(e2)]
                        0 <= u < n && s_mid[u] && self.edge_live(e2) && self.edge_at(
                            e2,
                        ).from as int == u && (u != pick as int || e2 < e) ==> {
                            &&& reached@[self.edge_at(e2).to as int]
                            &&& dist@[self.edge_at(e2).to as int] as int <= dist@[u] as int
                                + self.edge_at(e2).gate.distance
                        },
                    forall|v2: int|
                        #![trigger settled@[v2]]
                        0 <= v2 < n && settled@[v2] ==> forall|q: Seq<usize>|
                            self.path_valid(q, a as int, v2) ==> self.path_weight(q) >= dist@[v2]
                            as int,
                    forall|v2: int, w: int|
                        #![trigger settled@[v2], reached@[w]]
                        0 <= v2 < n && 0 <= w < n && settled@[v2] && reached@[w] && !settled@[w]
                            ==> dist@[v2] <= dist@[w],
                decreases m - e,
            {
                let ghost pre_r = reached@;
                let ghost pre_d = dist@;
                let ghost pre_rt = routes_view(route@);
                proof {
                    // The new distance cannot overflow: the route to the
                    // picked node is simple, so its weight is bounded.
                    self.lemma_simple_path_bounds(pre_rt[pick as int], a as int, pick as int);
                    assert((pickd as int) + (u32::MAX as int) <= u128::MAX as int)
                        by (nonlinear_arith)
                        requires
                            pickd as int <= (n - 1) * (u32::MAX as int),
                            0 <= pickd,
                            0 < n <= usize::MAX,
                    ;
                }
                let mut do_relax = false;
                let mut target: usize = 0;
                let mut weight: u32 = 0;
                match &self.edges[e] {
                    Some(edge) => {
                        if edge.from == pick {
                            proof {
                                assert(self.edge_live(e as int));
                                assert(self.node_live(self.edge_at(e as int).to as int));
                            }
                            if !settled[edge.to] {
                                let to = edge.to;
                                if !reached[to] || pickd + (edge.gate.distance as u128)
                                    < dist[to] {
                                    do_relax = true;
                                    target = to;
                                    weight = edge.gate.distance;
                                }
                            }
                        }
                    },
                    None => {},
                }
                if do_relax {
                    let nd = pickd + (weight as u128);
                    let mut newroute = Self::copy_route(&route[pick]);
                    newroute.push(e);
                    reached.set(target, true);
                    dist.set(target, nd);
                    route.set(target, newroute);
                    proof {
                        let ti = target as int;
                        let pi = pick as int;
                        let rt = routes_view(route@);
                        // The stored route really is route-to-pick plus e.
                        assert(rt[ti] == pre_rt[pi].push(e));
                        self.lemma_path_snoc(pre_rt[pi], a as int, pi, e);
                        self.lemma_path_nodes(pre_rt[pi], a as int, pi);
                        // Simplicity: the target is unsettled, while every
                        // node of the old route is settled.
                        let old_nodes = self.path_nodes(pre_rt[pi], a as int);
                        assert forall|k: int|
                            0 <= k < old_nodes.len() implies old_nodes[k] != ti by {
                            if k < old_nodes.len() - 1 {
                                assert(settled@[old_nodes[k]]);
                            } else {
                                assert(old_nodes[k] == pi);
                            }
                        }
                        assert(self.path_nodes(rt[ti], a as int) == old_nodes.push(ti));
                        assert(self.path_simple(rt[ti], a as int));
                        // The other routes are untouched.
                        assert forall|v2: int|
                            0 <= v2 < n && v2 != ti implies rt[v2] == pre_rt[v2] by {}
                    }
                }
                e = e + 1;
            }
            proof {
                // Every edge out of the picked node is now relaxed, so the
                // full invariant holds again.
                assert(settled@ == s_entry.update(pick as int, true));
                assert(count_true(settled@) == count_true(s_entry) + 1);
                lemma_count_true_le(s_entry);
                assert(self.dijkstra_inv(
                    a as int,
                    b as int,
                    settled@,
                    reached@,
                    dist@,
                    routes_view(route@),
                ));
            }
        }
    }

    /// Turn a walk of edge slots into the stargates along it.
    fn route_gates(&self, es: &Vec<usize>) -> (gates: Vec<Stargate>)
        requires
            forall|j: int| 0 <= j < es@.len() ==> self.edge_live(#[trigger] es@[j] as int),
        ensures
            gates@ == self.path_gates(es@),
    {
        let mut gates: Vec<Stargate> = Vec::new();
        let mut k: usize = 0;
        while k < es.len()
            invariant
                k <= es.len(),
                gates@.len() == k,
                forall|j: int| 0 <= j < es@.len() ==> self.edge_live(#[trigger] es@[j] as int),
                forall|j: int|
                    0 <= j < k ==> gates@[j] == self.edge_at(#[trigger] es@[j] as int).gate,
            decreases es.len() - k,
        {
            let e = es[k];
            let gate = self.edges[e].as_ref().unwrap().gate.clone();
            gates.push(gate);
            k = k + 1;
        }
        proof {
            assert(gates@ =~= self.path_gates(es@));
        }
        gates
    }

    /// Find a least-weight walk from `start` to `goal`: the sequence of
    /// stargates along it, or `None` exactly when no walk exists.
    fn get_path(&self, start: NodeIndex, goal: NodeIndex) -> (r: Option<Vec<Stargate>>)
        requires
            self.wf(),
            self.node_live(start.index as int),
            self.node_live(goal.index as int),
        ensures
            r is Some ==> self.pathfind_ok(start.index as int, goal.index as int, (r->0)@),
            r is None ==> !self.reachable(start.index as int, goal.index as int),
    {
        match self.run_search(start, goal) {
            Some(es) => {
                proof {
                    self.lemma_path_nodes(es@, start.index as int, goal.index as int);
                }
                let gates = self.route_gates(&es);
                proof {
                    assert(self.good_path(es@, start.index as int, goal.index as int, gates@));
                    assert(self.pathfind_ok(start.index as int, goal.index as int, gates@));
                }
                Some(gates)
            },
            None => None,
        }
    }

    /// Create a new, empty `SystemGraph`.
    pub fn new() -> (r: Self)
        ensures
            r.wf(),
            r.spec_nodes() == Seq::<Option<SolarSystem>>::empty(),
            r.spec_edges() == Seq::<Option<GraphEdge>>::empty(),
            r.id_map() == Map::<u32, NodeIndex>::empty(),
    {
        let r = SystemGraph {
            nodes: Vec::new(),
            edges: Vec::new(),
            index: HashMap::new(),
            ids: Vec::new(),
        };
        proof {
            assert(r.id_map() =~= Map::<u32, NodeIndex>::empty());
        }
        r
    }

    /// Add a node to the graph, i.e. a solar system. The id index maps the
    /// system's id to the new node; if the id was already mapped, the old
    /// mapping is overwritten (last write wins) though the old node stays.
    pub fn add_node(&mut self, system: SolarSystem) -> (r: NodeIndex)
        requires
            old(self).wf(),
        ensures
            final(self).wf(),
            r.index == old(self).spec_nodes().len(),
            final(self).spec_nodes() == old(self).spec_nodes().push(Some(system)),
            final(self).spec_edges() == old(self).spec_edges(),
            final(self).id_map() == old(self).id_map().insert(system.attributes.id, r),
    {
        let id = system.attributes.id;
        let r = NodeIndex { index: self.nodes.len() };
        self.nodes.push(Some(system));
        let previous = self.index.insert(id, r);
        if previous.is_none() {
            self.ids.push(id);
        }
        proof {
            let post = *self;
            let pre = *old(self);
            assert forall|i: u32| #[trigger] post.id_map().contains_key(i) implies post.node_live(
                post.slot(i),
            ) && post.node_at(post.slot(i)).attributes.id == i by {
                if i != id {
                    assert(pre.id_map().contains_key(i));
                }
            }
            assert forall|e: int| #[trigger] post.edge_live(e) implies post.node_live(
                post.edge_at(e).from as int,
            ) && post.node_live(post.edge_at(e).to as int) by {
                assert(pre.edge_live(e));
            }
            assert forall|i: u32| #[trigger] post.id_map().contains_key(i) implies post.spec_ids()
                .contains(i) by {
                if i != id {
                    assert(pre.id_map().contains_key(i));
                    let j = choose|j: int| 0 <= j < pre.spec_ids().len() && pre.spec_ids()[j] == i;
                    assert(post.spec_ids()[j] == i);
                } else {
                    if previous is Some {
                        assert(pre.id_map().contains_key(id));
                        let j = choose|j: int|
                            0 <= j < pre.spec_ids().len() && pre.spec_ids()[j] == id;
                        assert(post.spec_ids()[j] == id);
                    } else {
                        assert(post.spec_ids().last() == id);
                    }
                }
            }
        }
        r
    }

    /// Add an edge to the graph, i.e. a stargate connecting two systems.
    /// Both handles must refer to live nodes; nothing checks that the stargate's
    /// recorded endpoint ids match the systems at those handles.
    pub fn add_edge(&mut self, system_a: NodeIndex, system_b: NodeIndex, gate: Stargate) -> (r:
        EdgeIndex)
        requires
            old(self).wf(),
            old(self).node_live(system_a.index as int),
            old(self).node_live(system_b.index as int),
        ensures
            final(self).wf(),
            r.index == old(self).spec_edges().len(),
            final(self).spec_edges() == old(self).spec_edges().push(
                Some(GraphEdge { from: system_a.index, to: system_b.index, gate }),
            ),
            final(self).spec_nodes() == old(self).spec_nodes(),
            final(self).id_map() == old(self).id_map(),
            final(self).spec_ids() == old(self).spec_ids(),
    {
        let r = EdgeIndex { index: self.edges.len() };
        self.edges.push(Some(GraphEdge { from: system_a.index, to: system_b.index, gate }));
        proof {
            let post = *self;
            let pre = *old(self);
            assert(post.id_map() == pre.id_map());
            assert(post.spec_nodes() == pre.spec_nodes());
            assert(post.spec_ids() == pre.spec_ids());
            assert forall|id: u32| #[trigger] post.id_map().contains_key(id) implies post.node_live(
                post.slot(id),
            ) && post.node_at(post.slot(id)).attributes.id == id by {
                assert(pre.id_map().contains_key(id));
            }
            assert forall|e: int| #[trigger] post.edge_live(e) implies post.node_live(
                post.edge_at(e).from as int,
            ) && post.node_live(post.edge_at(e).to as int) by {
                if e < pre.spec_edges().len() {
                    assert(pre.edge_live(e));
                } else {
                    assert(post.edge_at(e) == (GraphEdge {
                        from: system_a.index,
                        to: system_b.index,
                        gate,
                    }));
                }
            }
        }
        r
    }

    /// What a successful random-destination query hands back: a shortest
    /// path from `a` to the node of some id the index knows.
    pub open spec fn path_to_some_system_ok(self, a: int, gates: Seq<Stargate>) -> bool {
        exists|did: u32|
            #[trigger] self.contains_id(did) && self.pathfind_ok(a, self.slot(did), gates)
    }

    /// Some id the index knows names a system that cannot be reached from
    /// node `a`: the only cause for which a random-destination query may
    /// report `NoPath`.
    pub open spec fn some_destination_unreachable(self, a: int) -> bool {
        exists|did: u32| #[trigger] self.contains_id(did) && !self.reachable(a, self.slot(did))
    }

    /// Some ordered pair of ids the index knows has no route between its
    /// nodes: the only cause for which a random-pair query may report
    /// `NoPath`.
    pub open spec fn some_pair_unreachable(self) -> bool {
        exists|ida: u32, idb: u32|
            #![trigger self.contains_id(ida), self.contains_id(idb)]
            self.contains_id(ida) && self.contains_id(idb) && !self.reachable(
                self.slot(ida),
                self.slot(idb),
            )
    }

    /// What a successful query between two random systems hands back: a
    /// shortest path between the nodes of some two ids the index knows.
    pub open spec fn some_pair_path_ok(self, gates: Seq<Stargate>) -> bool {
        exists|ida: u32, idb: u32|
            #![trigger self.contains_id(ida), self.contains_id(idb)]
            self.contains_id(ida) && self.contains_id(idb) && self.pathfind_ok(
                self.slot(ida),
                self.slot(idb),
                gates,
            )
    }

    /// Get the path between two systems: the stargates of a least-weight
    /// simple route, `SystemNotFound` if either id is absent from the
    /// index, and `NoPath` exactly when the destination is unreachable. A
    /// path from a system to itself succeeds with an empty stargate
    /// sequence. The search is deterministic: among parallel stargates of
    /// equal distance, the one added to the graph first wins.
    pub fn get_pathfinding_between(&self, system_a: &SolarSystem, system_b: &SolarSystem) -> (r:
        Result<Vec<Stargate>, GraphError>)
        requires
            self.wf(),
        ensures
            ({
                let ida = system_a.attributes.id;
                let idb = system_b.attributes.id;
                match r {
                    Ok(gates) => {
                        &&& self.contains_id(ida) && self.contains_id(idb)
                        &&& self.reachable(self.slot(ida), self.slot(idb))
                        &&& self.pathfind_ok(self.slot(ida), self.slot(idb), gates@)
                    },
                    Err(e) => {
                        &&& (e == GraphError::SystemNotFound <==> !self.contains_id(ida)
                            || !self.contains_id(idb))
                        &&& (e == GraphError::NoPath ==> self.contains_id(ida)
                            && self.contains_id(idb) && !self.reachable(
                            self.slot(ida),
                            self.slot(idb),
                        ))
                    },
                }
            }),
            self.contains_id(system_a.attributes.id) && system_a.attributes.id
                == system_b.attributes.id ==> r is Ok && (r->Ok_0)@ == Seq::<Stargate>::empty(),
    {
        let start = match self.node_by_id(&system_a.attributes.id) {
            Some(node) => *node,
            None => {
                return Err(GraphError::SystemNotFound);
            },
        };
        let goal = match self.node_by_id(&system_b.attributes.id) {
            Some(node) => *node,
            None => {
                return Err(GraphError::SystemNotFound);
            },
        };
        let ghost sa = self.slot(system_a.attributes.id);
        let ghost sb = self.slot(system_b.attributes.id);
        match self.get_path(start, goal) {
            Some(gates) => {
                proof {
                    let p = choose|p: Seq<usize>| self.good_path(p, sa, sb, gates@);
                    assert(self.reachable(sa, sb));
                    if system_a.attributes.id == system_b.attributes.id {
                        self.lemma_path_nodes(p, sa, sb);
                        if p.len() > 0 {
                            let nodes = self.path_nodes(p, sa);
                            assert(nodes[0] == nodes[nodes.len() - 1]);
                            assert(!nodes.no_duplicates());
                        }
                        assert(gates@ =~= Seq::<Stargate>::empty());
                    }
                }
                Ok(gates)
            },
            None => {
                proof {
                    if system_a.attributes.id == system_b.attributes.id {
                        assert(self.path_valid(Seq::<usize>::empty(), sa, sa));
                        assert(self.reachable(sa, sb));
                    }
                }
                Err(GraphError::NoPath)
            },
        }
    }

    /// Get the path between a known starting system and a uniformly random
    /// destination sampled from the index, retrying up to ten times while
    /// no path is found. Fails with `SystemNotFound` exactly when the
    /// starting system's id is absent. `NoPath` can only report a real
    /// dead end — some indexed destination the samples hit was
    /// unreachable — so when every indexed destination is reachable from
    /// the start (a connected galaxy, say), success is owed whatever the
    /// samples were.
    pub fn get_pathfinding_to_random_system(&self, system_a: &SolarSystem) -> (r: Result<
        Vec<Stargate>,
        GraphError,
    >)
        requires
            self.wf(),
        ensures
            ({
                let ida = system_a.attributes.id;
                match r {
                    Ok(gates) => self.contains_id(ida) && self.path_to_some_system_ok(
                        self.slot(ida),
                        gates@,
                    ),
                    Err(e) => {
                        &&& (e == GraphError::SystemNotFound <==> !self.contains_id(ida))
                        &&& (e == GraphError::NoPath ==> self.contains_id(ida)
                            && self.some_destination_unreachable(self.slot(ida)))
                    },
                }
            }),
            self.contains_id(system_a.attributes.id) && !self.some_destination_unreachable(
                self.slot(system_a.attributes.id),
            ) ==> r is Ok,
    {
        let ida = system_a.attributes.id;
        let start = match self.node_by_id(&ida) {
            Some(node) => *node,
            None => {
                return Err(GraphError::SystemNotFound);
            },
        };
        let mut attempt: usize = 0;
        while attempt < 10
            invariant
                self.wf(),
                ida == system_a.attributes.id,
                self.contains_id(ida),
                start == self.id_map()[ida],
                attempt > 0 ==> self.some_destination_unreachable(self.slot(ida)),
            decreases 10 - attempt,
        {
            proof {
                assert(self.spec_ids().contains(ida));
                assert(self.spec_ids().len() > 0);
            }
            let dest_id = self.sample_id();
            let dest = *self.node_by_id(&dest_id).unwrap();
            match self.get_path(start, dest) {
                Some(gates) => {
                    proof {
                        assert(self.pathfind_ok(self.slot(ida), self.slot(dest_id), gates@));
                        assert(self.path_to_some_system_ok(self.slot(ida), gates@));
                    }
                    return Ok(gates);
                },
                None => {
                    proof {
                        assert(self.contains_id(dest_id) && !self.reachable(
                            self.slot(ida),
                            self.slot(dest_id),
                        ));
                        assert(self.some_destination_unreachable(self.slot(ida)));
                    }
                },
            }
            attempt = attempt + 1;
        }
        Err(GraphError::NoPath)
    }

    /// How many ids the index knows.
    pub fn ids_len(&self) -> (r: usize)
        requires
            self.wf(),
        ensures
            r == self.spec_ids().len(),
    {
        self.ids.len()
    }

    /// A uniformly random id out of those the index knows.
    pub fn sample_id(&self) -> (r: u32)
        requires
            self.wf(),
            self.spec_ids().len() > 0,
        ensures
            self.contains_id(r),
    {
        let k = crate::rng::random_below(self.ids.len());
        self.ids[k]
    }

    /// Remove a node from the graph, i.e. a solar system: the id mapping is
    /// dropped, the node's slot becomes a tombstone, and every edge touching
    /// that slot is invalidated. Removing a system whose id is not in the
    /// index is a no-op.
    pub fn remove_node(&mut self, system: &SolarSystem)
        requires
            old(self).wf(),
        ensures
            final(self).wf(),
            !final(self).contains_id(system.attributes.id),
            !old(self).contains_id(system.attributes.id) ==> *final(self) == *old(self),
            old(self).contains_id(system.attributes.id) ==> {
                let s = old(self).slot(system.attributes.id);
                &&& final(self).id_map() == old(self).id_map().remove(system.attributes.id)
                &&& final(self).spec_nodes() == old(self).spec_nodes().update(s, None)
                &&& final(self).spec_edges().len() == old(self).spec_edges().len()
                &&& forall|e: int|
                    0 <= e < old(self).spec_edges().len() ==> final(self).spec_edges()[e] == (
                    if old(self).edge_live(e) && (old(self).edge_at(e).from as int == s || old(
                        self,
                    ).edge_at(e).to as int == s) {
                        Option::<GraphEdge>::None
                    } else {
                        old(self).spec_edges()[e]
                    })
            },
    {
        let id = system.attributes.id;
        if self.index.contains_key(&id) {
            let node = self.index.remove(&id).unwrap();
            {
                let ghost pre = *old(self);
                let s = node.index;
                // Drop the id from the sampling list.
                let mut j: usize = 0;
                while j < self.ids.len() && self.ids[j] != id
                    invariant
                        j <= self.ids.len(),
                        forall|k: int| 0 <= k < j ==> self.ids@[k] != id,
                        self.ids@ == pre.spec_ids(),
                    decreases self.ids.len() - j,
                {
                    j = j + 1;
                }
                proof {
                    assert(pre.spec_ids().contains(id));
                    let w = choose|w: int|
                        0 <= w < pre.spec_ids().len() && pre.spec_ids()[w] == id;
                    assert(j < self.ids.len());
                }
                let ghost jj = j as int;
                self.ids.remove(j);
                // Tombstone the node itself.
                self.nodes.set(s, None);
                // Invalidate every edge that touches the removed slot.
                let ghost mid_ids = self.ids@;
                let mut e: usize = 0;
                while e < self.edges.len()
                    invariant
                        e <= self.edges.len(),
                        self.edges@.len() == pre.spec_edges().len(),
                        self.nodes@ == pre.spec_nodes().update(s as int, None),
                        self.index@ == pre.id_map().remove(id),
                        self.ids@ == mid_ids,
                        s == pre.slot(id),
                        forall|k: int|
                            0 <= k < e ==> self.edges@[k] == (if pre.edge_live(k) && (pre.edge_at(
                                k,
                            ).from == s || pre.edge_at(k).to == s) {
                                Option::<GraphEdge>::None
                            } else {
                                pre.spec_edges()[k]
                            }),
                        forall|k: int|
                            e <= k < pre.spec_edges().len() ==> self.edges@[k]
                                == pre.spec_edges()[k],
                    decreases self.edges.len() - e,
                {
                    let touches = match &self.edges[e] {
                        Some(edge) => edge.from == s || edge.to == s,
                        None => false,
                    };
                    if touches {
                        self.edges.set(e, None);
                    }
                    proof {
                        assert(self.edges@[e as int] == (if pre.edge_live(e as int) && (pre.edge_at(
                            e as int,
                        ).from == s || pre.edge_at(e as int).to == s) {
                            Option::<GraphEdge>::None
                        } else {
                            pre.spec_edges()[e as int]
                        }));
                    }
                    e = e + 1;
                }
                proof {
                    let post = *self;
                    assert(post.id_map() == pre.id_map().remove(id));
                    assert(post.spec_ids() == pre.spec_ids().remove(jj));
                    pre.spec_ids().remove_ensures(jj);
                    // The id occurs in the sampling list only at position jj.
                    assert forall|k: int|
                        0 <= k < pre.spec_ids().len() && k != jj implies pre.spec_ids()[k]
                        != id by {
                        assert(pre.spec_ids()[jj] == id);
                    }
                    assert(post.spec_ids().no_duplicates());
                    assert forall|i: u32| #[trigger]
                        post.id_map().contains_key(i) implies post.spec_ids().contains(i) by {
                        assert(pre.id_map().contains_key(i) && i != id);
                        let w = choose|w: int|
                            0 <= w < pre.spec_ids().len() && pre.spec_ids()[w] == i;
                        if w < jj {
                            assert(post.spec_ids()[w] == i);
                        } else {
                            assert(w > jj);
                            assert(post.spec_ids()[w - 1] == i);
                        }
                    }
                    assert forall|k: int|
                        0 <= k < post.spec_ids().len() implies post.id_map().contains_key(
                        #[trigger] post.spec_ids()[k],
                    ) by {
                        if k < jj {
                            assert(post.spec_ids()[k] == pre.spec_ids()[k]);
                        } else {
                            assert(post.spec_ids()[k] == pre.spec_ids()[k + 1]);
                        }
                    }
                    assert forall|i: u32| #[trigger]
                        post.id_map().contains_key(i) implies post.node_live(post.slot(i))
                        && post.node_at(post.slot(i)).attributes.id == i by {
                        assert(pre.id_map().contains_key(i) && i != id);
                        assert(pre.node_at(pre.slot(i)).attributes.id == i);
                        assert(pre.node_at(pre.slot(id)).attributes.id == id);
                        assert(pre.slot(i) != s as int);
                    }
                    assert forall|k: int| #[trigger] post.edge_live(k) implies post.node_live(
                        post.edge_at(k).from as int,
                    ) && post.node_live(post.edge_at(k).to as int) by {
                        assert(pre.edge_live(k));
                        assert(post.edge_at(k).from != s && post.edge_at(k).to != s);
                    }
                }
            }
        }
    }

    /// Remove an edge from the graph, i.e. a connection between two
    /// systems. Removing a dead or out-of-range handle is a no-op.
    pub fn remove_edge(&mut self, edge_index: EdgeIndex)
        requires
            old(self).wf(),
        ensures
            final(self).wf(),
            !final(self).edge_live(edge_index.index as int),
            old(self).edge_live(edge_index.index as int) ==> final(self).spec_edges() == old(
                self,
            ).spec_edges().update(edge_index.index as int, None),
            !old(self).edge_live(edge_index.index as int) ==> *final(self) == *old(self),
            final(self).spec_nodes() == old(self).spec_nodes(),
            final(self).id_map() == old(self).id_map(),
            final(self).spec_ids() == old(self).spec_ids(),
    {
        if edge_index.index < self.edges.len() {
            if self.edges[edge_index.index].is_some() {
                self.edges.set(edge_index.index, None);
                proof {
                    let post = *self;
                    let pre = *old(self);
                    assert(post.id_map() == pre.id_map());
                    assert(post.spec_nodes() == pre.spec_nodes());
                    assert(post.spec_ids() == pre.spec_ids());
                    assert forall|i: u32| #[trigger] post.id_map().contains_key(
                        i,
                    ) implies post.node_live(post.slot(i)) && post.node_at(
                        post.slot(i),
                    ).attributes.id == i by {
                        assert(pre.id_map().contains_key(i));
                    }
                    assert forall|k: int| #[trigger] post.edge_live(k) implies post.node_live(
                        post.edge_at(k).from as int,
                    ) && post.node_live(post.edge_at(k).to as int) by {
                        assert(pre.edge_live(k));
                    }
                }
            }
        }
    }

    /// Check if the graph contains a system with this system's id.
    pub fn contains_system(&self, system: &SolarSystem) -> (r: bool)
        ensures
            r == self.contains_id(system.attributes.id),
    {
        self.index.contains_key(&system.attributes.id)
    }

    /// Check if the graph contains a live stargate at this edge handle.
    pub fn contains_gate(&self, edge_index: EdgeIndex) -> (r: bool)
        ensures
            r == self.edge_live(edge_index.index as int),
    {
        if edge_index.index < self.edges.len() {
            self.edges[edge_index.index].is_some()
        } else {
            false
        }
    }

    /// Get a system by its id.
    pub fn system_by_id(&self, id: &u32) -> (r: Option<&SolarSystem>)
        requires
            self.wf(),
        ensures
            match r {
                Some(sys) => self.contains_id(*id) && *sys == self.node_at(self.slot(*id)),
                None => !self.contains_id(*id),
            },
    {
        match self.index.get(id) {
            Some(node) => {
                proof {
                    assert(self.id_map().contains_key(*id));
                    assert(self.node_live(self.slot(*id)));
                }
                self.nodes[node.index].as_ref()
            },
            None => None,
        }
    }

    /// Get the `NodeIndex` of a system by its id.
    pub fn node_by_id(&self, id: &u32) -> (r: Option<&NodeIndex>)
        ensures
            match r {
                Some(node) => self.contains_id(*id) && *node == self.id_map()[*id],
                None => !self.contains_id(*id),
            },
    {
        self.index.get(id)
    }

    /// Get a system by its `NodeIndex`.
    pub fn system_by_node(&self, node: &NodeIndex) -> (r: Option<&SolarSystem>)
        ensures
            match r {
                Some(sys) => self.node_live(node.index as int) && *sys == self.node_at(
                    node.index as int,
                ),
                None => !self.node_live(node.index as int),
            },
    {
        if node.index < self.nodes.len() {
            self.nodes[node.index].as_ref()
        } else {
            None
        }
    }
}

/// Get a path between two selected systems: `None` unless exactly two
/// systems are selected, else the shortest-path query between them.
pub fn get_stargate_path_between_systems(
    selected_systems: &crate::selection::Selection,
    system_graph: &SystemGraph,
) -> (r: Option<Result<Vec<Stargate>, GraphError>>)
    requires
        system_graph.wf(),
    ensures
        selected_systems.selected@.len() != 2 <==> r is None,
        (r matches Some(inner) ==> {
            let ida = selected_systems.selected@[0].attributes.id;
            let idb = selected_systems.selected@[1].attributes.id;
            match inner {
                Ok(gates) => system_graph.contains_id(ida) && system_graph.contains_id(idb)
                    && system_graph.pathfind_ok(
                    system_graph.slot(ida),
                    system_graph.slot(idb),
                    gates@,
                ),
                Err(e) => {
                    &&& (e == GraphError::SystemNotFound <==> !system_graph.contains_id(ida)
                        || !system_graph.contains_id(idb))
                    &&& (e == GraphError::NoPath ==> system_graph.contains_id(ida)
                        && system_graph.contains_id(idb) && !system_graph.reachable(
                        system_graph.slot(ida),
                        system_graph.slot(idb),
                    ))
                },
            }
        }),
{
    if selected_systems.count() != 2 {
        return None;
    }
    let system_a = match selected_systems.get(0) {
        Some(sys) => sys,
        None => {
            return None;
        },
    };
    let system_b = match selected_systems.get(1) {
        Some(sys) => sys,
        None => {
            return None;
        },
    };
    Some(system_graph.get_pathfinding_between(&system_a, &system_b))
}

/// Get a path between two uniformly random systems of the graph. On an
/// empty graph the query fails with `SystemNotFound`; otherwise it is the
/// shortest-path query between the two sampled systems. `NoPath` can only
/// report a real dead end — some indexed pair of systems has no route —
/// so when every indexed system can reach every other, success is owed
/// whatever the samples were.
pub fn get_random_path_between_two_systems(system_graph: &SystemGraph) -> (r: Result<
    Vec<Stargate>,
    GraphError,
>)
    requires
        system_graph.wf(),
    ensures
        match r {
            Ok(gates) => system_graph.spec_ids().len() > 0 && system_graph.some_pair_path_ok(
                gates@,
            ),
            Err(e) => {
                &&& (e == GraphError::SystemNotFound <==> system_graph.spec_ids().len() == 0)
                &&& (e == GraphError::NoPath ==> system_graph.some_pair_unreachable())
            },
        },
        system_graph.spec_ids().len() > 0 && !system_graph.some_pair_unreachable() ==> r is Ok,
{
    if system_graph.ids_len() == 0 {
        return Err(GraphError::SystemNotFound);
    }
    let ida = system_graph.sample_id();
    let idb = system_graph.sample_id();
    let system_a = match system_graph.system_by_id(&ida) {
        Some(sys) => sys,
        None => {
            return Err(GraphError::SystemNotFound);
        },
    };
    let system_b = match system_graph.system_by_id(&idb) {
        Some(sys) => sys,
        None => {
            return Err(GraphError::SystemNotFound);
        },
    };
    let result = system_graph.get_pathfinding_between(system_a, system_b);
    proof {
        assert(system_a.attributes.id == ida && system_b.attributes.id == idb);
    }
    match result {
        Ok(gates) => {
            proof {
                assert(system_graph.some_pair_path_ok(gates@));
            }
            Ok(gates)
        },
        Err(_) => {
            proof {
                assert(system_graph.contains_id(ida) && system_graph.contains_id(idb)
                    && !system_graph.reachable(
                    system_graph.slot(ida),
                    system_graph.slot(idb),
                ));
                assert(system_graph.some_pair_unreachable());
            }
            Err(GraphError::NoPath)
        },
    }
}

} // verus!
