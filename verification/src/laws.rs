//! Laws of the navigation graph, stated and proved over its model.

use vstd::prelude::*;

use crate::pathfinding::NodeIndex;
use crate::pathfinding::SystemGraph;
use crate::pathfinding::live_node_count;
use crate::solar_system::SolarSystem;

verus! {

/// Adding two systems with distinct identifiers grows the live node count
/// by two, and both systems are independently retrievable afterwards:
/// each id is mapped to its own node, which carries its own system.
///
/// `g1` and `g2` are the graphs after the first and second insertion, as
/// `add_node`'s contract describes them.
pub proof fn lemma_two_adds_both_retrievable(
    g0: SystemGraph,
    g1: SystemGraph,
    g2: SystemGraph,
    s1: SolarSystem,
    s2: SolarSystem,
    n1: NodeIndex,
    n2: NodeIndex,
)
    requires
        s1.attributes.id != s2.attributes.id,
        n1.index == g0.spec_nodes().len(),
        g1.spec_nodes() == g0.spec_nodes().push(Some(s1)),
        g1.id_map() == g0.id_map().insert(s1.attributes.id, n1),
        n2.index == g1.spec_nodes().len(),
        g2.spec_nodes() == g1.spec_nodes().push(Some(s2)),
        g2.id_map() == g1.id_map().insert(s2.attributes.id, n2),
    ensures
        live_node_count(g2.spec_nodes()) == live_node_count(g0.spec_nodes()) + 2,
        g2.contains_id(s1.attributes.id) && g2.slot(s1.attributes.id) == n1.index,
        g2.contains_id(s2.attributes.id) && g2.slot(s2.attributes.id) == n2.index,
        n1.index != n2.index,
        g2.node_at(n1.index as int) == s1,
        g2.node_at(n2.index as int) == s2,
{
    assert(g1.spec_nodes().drop_last() =~= g0.spec_nodes());
    assert(g2.spec_nodes().drop_last() =~= g1.spec_nodes());
    assert(live_node_count(g1.spec_nodes()) == live_node_count(g0.spec_nodes()) + 1);
    assert(live_node_count(g2.spec_nodes()) == live_node_count(g1.spec_nodes()) + 1);
    assert(g2.id_map()[s1.attributes.id] == n1);
    assert(g2.id_map()[s2.attributes.id] == n2);
    assert(g2.spec_nodes()[n1.index as int] == Some(s1));
    assert(g2.spec_nodes()[n2.index as int] == Some(s2));
}

/// In a line-shaped galaxy — systems in a row, gates only between
/// neighbours, one forward stargate from each system to the next — the only
/// valid simple walk from the first system to the last is the row of
/// forward gates itself. A shortest-path query between the ends of an
/// `n`-system line therefore returns exactly `n - 1` gates, and its total
/// weight is the sum of those gates' distances.
///
/// `fwd[i]` is the edge slot of the one stargate leading from system `i` to
/// system `i + 1`; `p` is any valid simple walk from `0` to `n - 1`, such
/// as the one whose existence `get_pathfinding_between` guarantees.
pub proof fn lemma_line_topology_path(g: SystemGraph, n: int, fwd: Seq<usize>, p: Seq<usize>)
    requires
        g.wf(),
        n >= 1,
        g.spec_nodes().len() == n,
        forall|e: int| #[trigger]
            g.edge_live(e) ==> (g.edge_at(e).to as int == g.edge_at(e).from + 1 || g.edge_at(
                e,
            ).from as int == g.edge_at(e).to + 1),
        fwd.len() == n - 1,
        forall|i: int|
            0 <= i < n - 1 ==> g.edge_live(#[trigger] fwd[i] as int) && g.edge_at(
                fwd[i] as int,
            ).from as int == i && g.edge_at(fwd[i] as int).to as int == i + 1,
        forall|e: int, i: int|
            #![trigger g.edge_live(e), fwd[i]]
            0 <= i < n - 1 && g.edge_live(e) && g.edge_at(e).from as int == i && g.edge_at(
                e,
            ).to as int == i + 1 ==> e == fwd[i] as int,
        g.path_valid(p, 0, n - 1),
        g.path_simple(p, 0),
    ensures
        p == fwd,
        p.len() == n - 1,
{
    g.lemma_path_nodes_live(p, 0, n - 1);
    assert forall|m: int|
        0 <= m < g.path_nodes(p, 0).len() implies #[trigger] g.path_nodes(p, 0)[m] >= 0 by {
        assert(g.node_live(g.path_nodes(p, 0)[m]));
    }
    lemma_line_suffix(g, n, fwd, p, 0);
    assert(p =~= fwd.skip(0));
    assert(fwd.skip(0) =~= fwd);
}

/// The inductive step behind `lemma_line_topology_path`: a valid simple
/// walk from system `k` to the end of the line that never dips below `k`
/// is exactly the forward gates from `k` on.
proof fn lemma_line_suffix(g: SystemGraph, n: int, fwd: Seq<usize>, p: Seq<usize>, k: int)
    requires
        g.wf(),
        n >= 1,
        0 <= k <= n - 1,
        g.spec_nodes().len() == n,
        forall|e: int| #[trigger]
            g.edge_live(e) ==> (g.edge_at(e).to as int == g.edge_at(e).from + 1 || g.edge_at(
                e,
            ).from as int == g.edge_at(e).to + 1),
        fwd.len() == n - 1,
        forall|i: int|
            0 <= i < n - 1 ==> g.edge_live(#[trigger] fwd[i] as int) && g.edge_at(
                fwd[i] as int,
            ).from as int == i && g.edge_at(fwd[i] as int).to as int == i + 1,
        forall|e: int, i: int|
            #![trigger g.edge_live(e), fwd[i]]
            0 <= i < n - 1 && g.edge_live(e) && g.edge_at(e).from as int == i && g.edge_at(
                e,
            ).to as int == i + 1 ==> e == fwd[i] as int,
        g.path_valid(p, k, n - 1),
        g.path_simple(p, k),
        forall|m: int|
            0 <= m < g.path_nodes(p, k).len() ==> #[trigger] g.path_nodes(p, k)[m] >= k,
    ensures
        p =~= fwd.skip(k),
    decreases n - 1 - k,
{
    g.lemma_path_nodes(p, k, n - 1);
    let nodes = g.path_nodes(p, k);
    if k == n - 1 {
        if p.len() > 0 {
            assert(nodes[0] == k && nodes[nodes.len() - 1] == n - 1);
            assert(!nodes.no_duplicates());
        }
        assert(p =~= fwd.skip(k));
    } else {
        assert(p.len() > 0) by {
            if p.len() == 0 {
                assert(k == n - 1);
            }
        }
        let e0 = p[0] as int;
        let to = g.edge_at(e0).to as int;
        // The first edge cannot lead downward: node `k - 1` is below the
        // walk's floor.
        assert(nodes[1] == to);
        assert(to >= k);
        assert(to == k + 1);
        assert(e0 == fwd[k] as int);
        // The rest of the walk stays above `k`: it is simple, so it never
        // returns to `k`, and it never went below `k`.
        let rest = p.drop_first();
        assert(g.path_valid(rest, k + 1, n - 1));
        let rest_nodes = g.path_nodes(rest, k + 1);
        assert(nodes =~= seq![k] + rest_nodes);
        assert(rest_nodes.no_duplicates()) by {
            assert forall|i: int, j: int|
                0 <= i < j < rest_nodes.len() implies rest_nodes[i] != rest_nodes[j] by {
                assert(nodes[i + 1] == rest_nodes[i]);
                assert(nodes[j + 1] == rest_nodes[j]);
            }
        }
        assert forall|m: int|
            0 <= m < rest_nodes.len() implies #[trigger] rest_nodes[m] >= k + 1 by {
            assert(nodes[m + 1] == rest_nodes[m]);
            assert(rest_nodes[m] >= k);
            if rest_nodes[m] == k {
                assert(nodes[0] == k);
                assert(!nodes.no_duplicates());
            }
        }
        lemma_line_suffix(g, n, fwd, rest, k + 1);
        assert(p =~= seq![fwd[k]] + fwd.skip(k + 1));
        assert(fwd.skip(k) =~= seq![fwd[k]] + fwd.skip(k + 1));
    }
}

} // verus!
