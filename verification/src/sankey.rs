//! The topology of a Sankey diagram: its nodes, named by the links that
//! join them, the links of each node, the depth of each node from the
//! sources, and the nodes of each layer.

use std::collections::VecDeque;
use vstd::prelude::*;

verus! {

/// The ends of a flow: the names of its source and target nodes.
pub struct SankeyLinkEnds {
    pub source: String,
    pub target: String,
}

/// The names at the ends of each link.
pub open spec fn ends_view(ends: Seq<SankeyLinkEnds>) -> Seq<(Seq<char>, Seq<char>)> {
    ends.map_values(|e: SankeyLinkEnds| (e.source@, e.target@))
}

pub open spec fn string_views(v: Seq<String>) -> Seq<Seq<char>> {
    v.map_values(|s: String| s@)
}

/// `names` with `name` added at the end unless it is there already.
pub open spec fn add_name(names: Seq<Seq<char>>, name: Seq<char>) -> Seq<Seq<char>> {
    if names.contains(name) {
        names
    } else {
        names.push(name)
    }
}

/// The node names of a diagram: every name at an end of a link, once, in the
/// order of first appearance (source before target).
pub open spec fn node_names(ends: Seq<(Seq<char>, Seq<char>)>) -> Seq<Seq<char>>
    decreases ends.len(),
{
    if ends.len() == 0 {
        Seq::empty()
    } else {
        let prev = node_names(ends.drop_last());
        add_name(add_name(prev, ends.last().0), ends.last().1)
    }
}

/// No name occurs twice.
pub open spec fn names_distinct(names: Seq<Seq<char>>) -> bool {
    forall|i: int, j: int| 0 <= i < j < names.len() ==> names[i] != names[j]
}

/// The indices of the links (in order) whose end picked by `at_source` is
/// node `node`.
pub open spec fn links_at(links: Seq<(usize, usize)>, node: usize, at_source: bool) -> Seq<usize>
    decreases links.len(),
{
    if links.len() == 0 {
        Seq::empty()
    } else {
        let prev = links_at(links.drop_last(), node, at_source);
        let end = if at_source {
            links.last().0
        } else {
            links.last().1
        };
        if end == node {
            prev.push((links.len() - 1) as usize)
        } else {
            prev
        }
    }
}

/// The nodes of layer `layer`, in order, given the layer of each node.
pub open spec fn nodes_in_layer(layers: Seq<usize>, layer: usize) -> Seq<usize>
    decreases layers.len(),
{
    if layers.len() == 0 {
        Seq::empty()
    } else {
        let prev = nodes_in_layer(layers.drop_last(), layer);
        if layers.last() == layer {
            prev.push((layers.len() - 1) as usize)
        } else {
            prev
        }
    }
}

/// The nodes and links of a Sankey diagram, without their geometry.
pub struct SankeyGraph {
    /// The node names, in order of first appearance.
    pub names: Vec<String>,
    /// For each link, the indices of its source and target nodes.
    pub links: Vec<(usize, usize)>,
    /// For each node, the indices of its outgoing links.
    pub source_links: Vec<Vec<usize>>,
    /// For each node, the indices of its incoming links.
    pub target_links: Vec<Vec<usize>>,
}

/// The position of `name` in `names`, if it is there.
fn find_name(names: &Vec<String>, name: &String) -> (r: Option<usize>)
    ensures
        match r {
            Some(i) => i < names@.len() && names@[i as int]@ == name@,
            None => !string_views(names@).contains(name@),
        },
{
    let mut i: usize = 0;
    while i < names.len()
        invariant
            i <= names@.len(),
            forall|k: int| 0 <= k < i ==> names@[k]@ != name@,
        decreases names@.len() - i,
    {
        if names[i] == *name {
            return Some(i);
        }
        i += 1;
    }
    proof {
        if string_views(names@).contains(name@) {
            let k = choose|k: int| 0 <= k < string_views(names@).len() && string_views(names@)[k] == name@;
            assert(names@[k]@ == name@);
        }
    }
    None
}

/// Adds `name` at the end of `names` unless it is there; returns its index.
fn intern_name(names: &mut Vec<String>, name: &String) -> (ix: usize)
    requires
        old(names)@.len() < usize::MAX,
    ensures
        string_views(final(names)@) == add_name(string_views(old(names)@), name@),
        ix < final(names)@.len(),
        final(names)@[ix as int]@ == name@,
        old(names)@.len() <= final(names)@.len() <= old(names)@.len() + 1,
        forall|i: int| 0 <= i < old(names)@.len() ==> final(names)@[i] == old(names)@[i],
{
    match find_name(names, name) {
        Some(i) => {
            proof {
                assert(string_views(names@)[i as int] == name@);
            }
            i
        },
        None => {
            let ghost before = names@;
            names.push(name.clone());
            proof {
                assert(string_views(names@) =~= string_views(before).push(name@));
            }
            names.len() - 1
        },
    }
}

/// The names of `add_name` are distinct when those before were.
proof fn lemma_add_name_distinct(names: Seq<Seq<char>>, name: Seq<char>)
    requires
        names_distinct(names),
    ensures
        names_distinct(add_name(names, name)),
        add_name(names, name).len() <= names.len() + 1,
        forall|i: int| 0 <= i < names.len() ==> add_name(names, name)[i] == names[i],
{
}

/// The node names are distinct, at most two per link.
pub proof fn lemma_node_names_distinct(ends: Seq<(Seq<char>, Seq<char>)>)
    ensures
        names_distinct(node_names(ends)),
        node_names(ends).len() <= 2 * ends.len(),
    decreases ends.len(),
{
    if ends.len() > 0 {
        let prev = node_names(ends.drop_last());
        lemma_node_names_distinct(ends.drop_last());
        lemma_add_name_distinct(prev, ends.last().0);
        lemma_add_name_distinct(add_name(prev, ends.last().0), ends.last().1);
    }
}

/// The indices of the links whose chosen end is `node`.
fn collect_links(links: &Vec<(usize, usize)>, node: usize, at_source: bool) -> (r: Vec<usize>)
    ensures
        r@ == links_at(links@, node, at_source),
{
    let mut r: Vec<usize> = Vec::new();
    let mut k: usize = 0;
    while k < links.len()
        invariant
            k <= links@.len(),
            r@ == links_at(links@.take(k as int), node, at_source),
        decreases links@.len() - k,
    {
        proof {
            assert(links@.take(k + 1).drop_last() =~= links@.take(k as int));
        }
        let end = if at_source {
            links[k].0
        } else {
            links[k].1
        };
        if end == node {
            r.push(k);
        }
        k += 1;
    }
    proof {
        assert(links@.take(k as int) =~= links@);
    }
    r
}

/// Builds the nodes and links of a diagram from the names at the ends of its
/// links.
pub fn build_graph(ends: &Vec<SankeyLinkEnds>) -> (g: SankeyGraph)
    requires
        ends@.len() < usize::MAX / 2,
    ensures
        string_views(g.names@) == node_names(ends_view(ends@)),
        g.links@.len() == ends@.len(),
        forall|k: int|
            0 <= k < ends@.len() ==> {
                &&& (#[trigger] g.links@[k]).0 < g.names@.len()
                &&& g.links@[k].1 < g.names@.len()
                &&& g.names@[g.links@[k].0 as int]@ == ends@[k].source@
                &&& g.names@[g.links@[k].1 as int]@ == ends@[k].target@
            },
        g.source_links@.len() == g.names@.len(),
        g.target_links@.len() == g.names@.len(),
        forall|i: int|
            0 <= i < g.names@.len() ==> (#[trigger] g.source_links@[i])@ == links_at(
                g.links@,
                i as usize,
                true,
            ),
        forall|i: int|
            0 <= i < g.names@.len() ==> (#[trigger] g.target_links@[i])@ == links_at(
                g.links@,
                i as usize,
                false,
            ),
{
    let mut names: Vec<String> = Vec::new();
    let mut links: Vec<(usize, usize)> = Vec::new();
    let mut k: usize = 0;
    while k < ends.len()
        invariant
            k <= ends@.len(),
            ends@.len() < usize::MAX / 2,
            string_views(names@) == node_names(ends_view(ends@).take(k as int)),
            names@.len() <= 2 * k,
            links@.len() == k,
            forall|j: int|
                0 <= j < k ==> {
                    &&& (#[trigger] links@[j]).0 < names@.len()
                    &&& links@[j].1 < names@.len()
                    &&& names@[links@[j].0 as int]@ == ends@[j].source@
                    &&& names@[links@[j].1 as int]@ == ends@[j].target@
                },
        decreases ends@.len() - k,
    {
        proof {
            assert(ends_view(ends@).take(k + 1).drop_last() =~= ends_view(ends@).take(k as int));
            lemma_node_names_distinct(ends_view(ends@).take(k as int));
        }
        let ghost before = names@;
        let s = intern_name(&mut names, &ends[k].source);
        let ghost mid = names@;
        let t = intern_name(&mut names, &ends[k].target);
        let ghost links_before = links@;
        links.push((s, t));
        proof {
            assert forall|j: int| 0 <= j < k + 1 implies {
                &&& (#[trigger] links@[j]).0 < names@.len()
                &&& links@[j].1 < names@.len()
                &&& names@[links@[j].0 as int]@ == ends@[j].source@
                &&& names@[links@[j].1 as int]@ == ends@[j].target@
            } by {
                if j < k {
                    assert(links@[j] == links_before[j]);
                    let a = links_before[j].0 as int;
                    let b = links_before[j].1 as int;
                    assert(a < before.len() && b < before.len());
                    assert(mid[a] == before[a] && mid[b] == before[b]);
                    assert(names@[a] == mid[a] && names@[b] == mid[b]);
                }
            }
        }
        k += 1;
    }
    proof {
        assert(ends_view(ends@).take(k as int) =~= ends_view(ends@));
    }
    let n = names.len();
    let mut source_links: Vec<Vec<usize>> = Vec::new();
    let mut target_links: Vec<Vec<usize>> = Vec::new();
    let mut i: usize = 0;
    while i < n
        invariant
            i <= n,
            n == names@.len(),
            source_links@.len() == i,
            target_links@.len() == i,
            forall|j: int|
                0 <= j < i ==> (#[trigger] source_links@[j])@ == links_at(links@, j as usize, true),
            forall|j: int|
                0 <= j < i ==> (#[trigger] target_links@[j])@ == links_at(links@, j as usize, false),
        decreases n - i,
    {
        let from = collect_links(&links, i, true);
        let to = collect_links(&links, i, false);
        let ghost sources_before = source_links@;
        let ghost targets_before = target_links@;
        source_links.push(from);
        target_links.push(to);
        proof {
            assert forall|j: int| 0 <= j < i + 1 implies (#[trigger] source_links@[j])@ == links_at(
                links@,
                j as usize,
                true,
            ) by {
                if j < i {
                    assert(source_links@[j] == sources_before[j]);
                }
            }
            assert forall|j: int| 0 <= j < i + 1 implies (#[trigger] target_links@[j])@ == links_at(
                links@,
                j as usize,
                false,
            ) by {
                if j < i {
                    assert(target_links@[j] == targets_before[j]);
                }
            }
        }
        i += 1;
    }
    SankeyGraph { names, links, source_links, target_links }
}

/// The nodes of each layer from 0 to the deepest, each in node order.
pub fn nodes_by_layer(layers: &Vec<usize>) -> (r: Vec<Vec<usize>>)
    requires
        forall|i: int| 0 <= i < layers@.len() ==> layers@[i] < usize::MAX,
    ensures
        layers@.len() == 0 ==> r@.len() == 1,
        forall|i: int| 0 <= i < layers@.len() ==> layers@[i] < r@.len(),
        r@.len() >= 1,
        layers@.len() > 0 ==> exists|i: int| 0 <= i < layers@.len() && layers@[i] + 1 == r@.len(),
        forall|d: int| 0 <= d < r@.len() ==> (#[trigger] r@[d])@ == nodes_in_layer(layers@, d as usize),
{
    let mut max_layer: usize = 0;
    let mut i: usize = 0;
    while i < layers.len()
        invariant
            i <= layers@.len(),
            forall|j: int| 0 <= j < layers@.len() ==> layers@[j] < usize::MAX,
            forall|j: int| 0 <= j < i ==> layers@[j] <= max_layer,
            i == 0 ==> max_layer == 0,
            i > 0 ==> exists|j: int| 0 <= j < i && layers@[j] == max_layer,
        decreases layers@.len() - i,
    {
        if layers[i] > max_layer {
            max_layer = layers[i];
        }
        i += 1;
    }
    let mut r: Vec<Vec<usize>> = Vec::new();
    let mut d: usize = 0;
    while d <= max_layer
        invariant
            d <= max_layer + 1,
            max_layer < usize::MAX,
            forall|j: int| 0 <= j < layers@.len() ==> layers@[j] <= max_layer,
            layers@.len() == 0 ==> max_layer == 0,
            layers@.len() > 0 ==> exists|j: int| 0 <= j < layers@.len() && layers@[j] == max_layer,
            r@.len() == d,
            forall|e: int| 0 <= e < d ==> (#[trigger] r@[e])@ == nodes_in_layer(layers@, e as usize),
        decreases max_layer + 1 - d,
    {
        let mut nodes: Vec<usize> = Vec::new();
        let mut j: usize = 0;
        while j < layers.len()
            invariant
                j <= layers@.len(),
                nodes@ == nodes_in_layer(layers@.take(j as int), d),
            decreases layers@.len() - j,
        {
            proof {
                assert(layers@.take(j + 1).drop_last() =~= layers@.take(j as int));
            }
            if layers[j] == d {
                nodes.push(j);
            }
            j += 1;
        }
        proof {
            assert(layers@.take(j as int) =~= layers@);
        }
        r.push(nodes);
        d += 1;
    }
    r
}

/// Node `node` is the target of no link: a source of the flow.
pub open spec fn is_source_node(links: Seq<(usize, usize)>, node: usize) -> bool {
    forall|k: int| 0 <= k < links.len() ==> links[k].1 != node
}

/// The number of `true`s.
pub open spec fn count_true(s: Seq<bool>) -> nat
    decreases s.len(),
{
    if s.len() == 0 {
        0
    } else {
        count_true(s.drop_last()) + if s.last() {
            1nat
        } else {
            0nat
        }
    }
}

proof fn lemma_count_true_bound(s: Seq<bool>)
    ensures
        count_true(s) <= s.len(),
    decreases s.len(),
{
    if s.len() > 0 {
        lemma_count_true_bound(s.drop_last());
    }
}

proof fn lemma_count_true_all_false(s: Seq<bool>)
    requires
        forall|i: int| 0 <= i < s.len() ==> !s[i],
    ensures
        count_true(s) == 0,
    decreases s.len(),
{
    if s.len() > 0 {
        lemma_count_true_all_false(s.drop_last());
    }
}

/// Turning one `false` into `true` counts one more.
proof fn lemma_count_true_set(s: Seq<bool>, i: int)
    requires
        0 <= i < s.len(),
        !s[i],
    ensures
        count_true(s.update(i, true)) == count_true(s) + 1,
    decreases s.len(),
{
    let t = s.update(i, true);
    if i == s.len() - 1 {
        assert(t.drop_last() =~= s.drop_last());
    } else {
        assert(t.drop_last() =~= s.drop_last().update(i, true));
        lemma_count_true_set(s.drop_last(), i);
    }
}

/// A node has no incoming link exactly when its list of incoming links is
/// empty.
proof fn lemma_no_incoming(links: Seq<(usize, usize)>, node: usize)
    ensures
        (links_at(links, node, false).len() == 0) == is_source_node(links, node),
    decreases links.len(),
{
    if links.len() > 0 {
        lemma_no_incoming(links.drop_last(), node);
        if !is_source_node(links, node) {
            let k = choose|k: int| 0 <= k < links.len() && links[k].1 == node;
            if k < links.len() - 1 {
                assert(links.drop_last()[k].1 == node);
            }
        }
        if is_source_node(links, node) {
            assert forall|k: int| 0 <= k < links.drop_last().len() implies links.drop_last()[k].1
                != node by {
                assert(links.drop_last()[k] == links[k]);
            }
        }
    }
}

/// The state of the breadth-first walk over the nodes: the depth found so
/// far for each node, whether it has been queued, and the queue in the order
/// of queueing.
pub struct BfsState {
    pub depths: Seq<usize>,
    pub visited: Seq<bool>,
    pub queue: Seq<usize>,
}

/// The state once the first `i` of `n` nodes have been looked at as possible
/// sources: every depth 0, and the sources among them queued in index order.
pub open spec fn bfs_start(links: Seq<(usize, usize)>, n: nat, i: nat) -> BfsState
    decreases i,
{
    if i == 0 {
        BfsState {
            depths: Seq::new(n, |x: int| 0usize),
            visited: Seq::new(n, |x: int| false),
            queue: Seq::empty(),
        }
    } else {
        let st = bfs_start(links, n, (i - 1) as nat);
        if is_source_node(links, (i - 1) as usize) {
            BfsState {
                depths: st.depths,
                visited: st.visited.update(i - 1, true),
                queue: st.queue.push((i - 1) as usize),
            }
        } else {
            st
        }
    }
}

/// One link looked at while expanding node `u` of depth `d`: a link out of
/// `u` gives its target depth `d + 1` when the target was not yet reached or
/// had less, and queues the target when it was not yet reached.
pub open spec fn bfs_step(st: BfsState, link: (usize, usize), u: usize, d: usize) -> BfsState {
    let t = link.1;
    if link.0 == u && (!st.visited[t as int] || st.depths[t as int] < d + 1) {
        let depths = st.depths.update(t as int, (d + 1) as usize);
        if !st.visited[t as int] {
            BfsState { depths, visited: st.visited.update(t as int, true), queue: st.queue.push(t) }
        } else {
            BfsState { depths, visited: st.visited, queue: st.queue }
        }
    } else {
        st
    }
}

/// Node `u` of depth `d` expanded over the first `k` links, in order.
pub open spec fn bfs_expand(st: BfsState, links: Seq<(usize, usize)>, u: usize, d: usize, k: nat) -> BfsState
    decreases k,
{
    if k == 0 {
        st
    } else {
        bfs_step(bfs_expand(st, links, u, d, (k - 1) as nat), links[k - 1], u, d)
    }
}

/// The walk from the queue position `head` on: each queued node, in queue
/// order, is expanded over all links with the depth it has when dequeued.
pub open spec fn bfs_run(links: Seq<(usize, usize)>, st: BfsState, head: nat, n: nat) -> BfsState
    decreases n - head,
{
    if head < st.queue.len() && head < n {
        let u = st.queue[head as int];
        bfs_run(links, bfs_expand(st, links, u, st.depths[u as int], links.len()), head + 1, n)
    } else {
        st
    }
}

/// The depth of each of the `n` nodes, found breadth-first from the sources.
pub open spec fn bfs_depths(links: Seq<(usize, usize)>, n: nat) -> Seq<usize> {
    bfs_run(links, bfs_start(links, n, n), 0, n).depths
}

/// Computes node depths using breadth-first search from the sources (nodes
/// with no incoming links): a node reached by a link from a node of depth
/// `d` gets depth `d + 1` when it is first reached or when that is deeper
/// than what it has; each node is expanded once.
pub fn compute_node_depths(g: &SankeyGraph) -> (depths: Vec<usize>)
    requires
        g.names@.len() < usize::MAX,
        g.target_links@.len() == g.names@.len(),
        forall|i: int|
            0 <= i < g.names@.len() ==> (#[trigger] g.target_links@[i])@ == links_at(
                g.links@,
                i as usize,
                false,
            ),
        forall|k: int|
            0 <= k < g.links@.len() ==> (#[trigger] g.links@[k]).0 < g.names@.len()
                && g.links@[k].1 < g.names@.len(),
    ensures
        depths@ == bfs_depths(g.links@, g.names@.len()),
        depths@.len() == g.names@.len(),
        forall|i: int|
            0 <= i < g.names@.len() && is_source_node(g.links@, i as usize) ==> depths@[i] == 0,
        forall|i: int| 0 <= i < g.names@.len() ==> depths@[i] <= g.names@.len(),
        forall|i: int|
            0 <= i < g.names@.len() && depths@[i] > 0 ==> exists|k: int|
                0 <= k < g.links@.len() && (#[trigger] g.links@[k]).1 == i && depths@[g.links@[k].0 as int]
                    + 1 >= depths@[i],
        forall|k: int|
            0 <= k < g.links@.len() && is_source_node(g.links@, (#[trigger] g.links@[k]).0)
                ==> depths@[g.links@[k].1 as int] >= 1,
{
    let n = g.names.len();
    let ghost links = g.links@;
    let mut depths: Vec<usize> = Vec::new();
    let mut visited: Vec<bool> = Vec::new();
    let mut i: usize = 0;
    while i < n
        invariant
            i <= n,
            depths@.len() == i,
            visited@.len() == i,
            forall|x: int| 0 <= x < i ==> depths@[x] == 0 && !visited@[x],
        decreases n - i,
    {
        depths.push(0);
        visited.push(false);
        i += 1;
    }
    proof {
        lemma_count_true_all_false(visited@);
        assert(depths@ =~= bfs_start(links, n as nat, 0).depths);
        assert(visited@ =~= bfs_start(links, n as nat, 0).visited);
    }
    // Find source nodes (nodes with no incoming links)
    let mut queue: VecDeque<usize> = VecDeque::new();
    let mut i: usize = 0;
    while i < n
        invariant
            i <= n,
            n == g.names@.len(),
            links == g.links@,
            g.target_links@.len() == n,
            forall|x: int| 0 <= x < n ==> (#[trigger] g.target_links@[x])@ == links_at(links, x as usize, false),
            depths@.len() == n,
            visited@.len() == n,
            forall|x: int| 0 <= x < n ==> depths@[x] == 0,
            queue@.len() == count_true(visited@),
            forall|p: int| 0 <= p < queue@.len() ==> (#[trigger] queue@[p]) < n && visited@[queue@[p] as int]
                && is_source_node(links, queue@[p]),
            forall|x: int| 0 <= x < n && visited@[x] ==> exists|p: int| 0 <= p < queue@.len() && queue@[p] == x,
            forall|x: int| 0 <= x < n ==> (visited@[x] <==> (x < i && is_source_node(links, x as usize))),
            depths@ == bfs_start(links, n as nat, i as nat).depths,
            visited@ == bfs_start(links, n as nat, i as nat).visited,
            queue@ == bfs_start(links, n as nat, i as nat).queue,
        decreases n - i,
    {
        proof {
            lemma_no_incoming(links, i);
        }
        if g.target_links[i].len() == 0 {
            proof {
                lemma_count_true_set(visited@, i as int);
            }
            let ghost queue_before = queue@;
            queue.push_back(i);
            visited.set(i, true);
            proof {
                assert(queue@[queue@.len() - 1] == i);
                assert forall|x: int| 0 <= x < n && visited@[x] implies exists|p: int|
                    0 <= p < queue@.len() && queue@[p] == x by {
                    if x == i {
                        assert(queue@[queue@.len() - 1] == x);
                    } else {
                        let p = choose|p: int| 0 <= p < queue_before.len() && queue_before[p] == x;
                        assert(queue@[p] == x);
                    }
                }
            }
        }
        i += 1;
    }
    proof {
        lemma_count_true_bound(visited@);
    }
    let ghost walk = bfs_run(links, bfs_start(links, n as nat, n as nat), 0, n as nat);
    // `all` holds every node queued so far, in order; the queue holds those
    // from position `head` on.
    let ghost mut all: Seq<usize> = queue@;
    let ghost mut head: int = 0;
    while queue.len() > 0
        invariant
            0 <= head,
            queue@ == all.subrange(head, all.len() as int),
            bfs_run(links, (BfsState { depths: depths@, visited: visited@, queue: all }), head as nat, n as nat) == walk,
            n == g.names@.len(),
            n < usize::MAX,
            links == g.links@,
            forall|k: int| 0 <= k < links.len() ==> (#[trigger] links[k]).0 < n && links[k].1 < n,
            depths@.len() == n,
            visited@.len() == n,
            head <= all.len(),
            all.len() == count_true(visited@),
            count_true(visited@) <= n,
            forall|p: int| 0 <= p < all.len() ==> (#[trigger] all[p]) < n && visited@[all[p] as int],
            forall|x: int| 0 <= x < n && visited@[x] ==> exists|p: int| 0 <= p < all.len() && all[p] == x,
            forall|x: int| 0 <= x < n && is_source_node(links, x as usize) ==> visited@[x] && depths@[x] == 0,
            forall|x: int| 0 <= x < n ==> depths@[x] <= head,
            forall|x: int| 0 <= x < n && !visited@[x] ==> depths@[x] == 0,
            forall|x: int|
                0 <= x < n && depths@[x] > 0 ==> exists|k: int|
                    0 <= k < links.len() && (#[trigger] links[k]).1 == x && depths@[links[k].0 as int] + 1
                        >= depths@[x],
            forall|p: int, k: int|
                0 <= p < head && 0 <= k < links.len() && is_source_node(links, all[p]) && (#[trigger] links[k]).0
                    == #[trigger] all[p] ==> depths@[links[k].1 as int] >= 1,
        decreases n - head,
    {
        proof {
            lemma_count_true_bound(visited@);
        }
        let node_idx = queue.pop_front().unwrap();
        let ghost st0 = BfsState { depths: depths@, visited: visited@, queue: all };
        proof {
            head = head + 1;
        }
        let depth = depths[node_idx];
        proof {
            assert(bfs_run(links, bfs_expand(st0, links, node_idx, depth, links.len()), head as nat, n as nat) == walk);
        }
        // Update depths of target nodes
        let mut k: usize = 0;
        while k < g.links.len()
            invariant
                n == g.names@.len(),
                n < usize::MAX,
                links == g.links@,
                forall|k: int| 0 <= k < links.len() ==> (#[trigger] links[k]).0 < n && links[k].1 < n,
                depths@.len() == n,
                visited@.len() == n,
                1 <= head <= all.len(),
                queue@ == all.subrange(head, all.len() as int),
                node_idx == all[head - 1],
                depth <= head - 1,
                k <= links.len(),
                all.len() == count_true(visited@),
                count_true(visited@) <= n,
                forall|p: int| 0 <= p < all.len() ==> (#[trigger] all[p]) < n && visited@[all[p] as int],
                forall|x: int| 0 <= x < n && visited@[x] ==> exists|p: int| 0 <= p < all.len() && all[p] == x,
                forall|x: int| 0 <= x < n && is_source_node(links, x as usize) ==> visited@[x] && depths@[x] == 0,
                forall|x: int| 0 <= x < n ==> depths@[x] <= head,
                depths@[node_idx as int] >= depth,
                forall|x: int| 0 <= x < n && !visited@[x] ==> depths@[x] == 0,
                forall|x: int|
                    0 <= x < n && depths@[x] > 0 ==> exists|k: int|
                        0 <= k < links.len() && (#[trigger] links[k]).1 == x && depths@[links[k].0 as int] + 1
                                >= depths@[x],
                forall|p: int, j: int|
                    0 <= p < head - 1 && 0 <= j < links.len() && is_source_node(links, all[p]) && (#[trigger] links[j]).0
                        == #[trigger] all[p] ==> depths@[links[j].1 as int] >= 1,
                forall|j: int| 0 <= j < k && (#[trigger] links[j]).0 == node_idx ==> depths@[links[j].1 as int] >= depth + 1,
                bfs_run(links, bfs_expand(st0, links, node_idx, depth, links.len()), head as nat, n as nat) == walk,
                (BfsState { depths: depths@, visited: visited@, queue: all }) == bfs_expand(st0, links, node_idx, depth, k as nat),
            decreases links.len() - k,
        {
            let (source, target) = g.links[k];
            if source == node_idx {
                if !visited[target] || depths[target] < depth + 1 {
                    proof {
                        assert(!is_source_node(links, target)) by {
                            assert(links[k as int].1 == target);
                        }
                    }
                    let ghost depths_before = depths@;
                    depths.set(target, depth + 1);
                    proof {
                        assert forall|x: int|
                            0 <= x < n && depths@[x] > 0 implies exists|k: int|
                                0 <= k < links.len() && (#[trigger] links[k]).1 == x && depths@[links[k].0 as int]
                                    + 1 >= depths@[x] by {
                            assert(depths_before[target as int] < depth + 1);
                            assert(depths@[node_idx as int] >= depth);
                            if x == target {
                                assert(links[k as int].1 == x);
                            } else {
                                let k2 = choose|k2: int|
                                    0 <= k2 < links.len() && (#[trigger] links[k2]).1 == x
                                        && depths_before[links[k2].0 as int] + 1 >= depths_before[x];
                                assert(links[k2].1 == x);
                            }
                        }
                    }
                    if !visited[target] {
                        proof {
                            lemma_count_true_set(visited@, target as int);
                            lemma_count_true_bound(visited@.update(target as int, true));
                        }
                        let ghost queue_before = all;
                        visited.set(target, true);
                        queue.push_back(target);
                        proof {
                            all = all.push(target);
                        }
                        proof {
                            assert(all[all.len() - 1] == target);
                            assert forall|x: int| 0 <= x < n && visited@[x] implies exists|p: int|
                                0 <= p < all.len() && all[p] == x by {
                                if x == target {
                                    assert(all[all.len() - 1] == x);
                                } else {
                                    let p = choose|p: int| 0 <= p < queue_before.len() && queue_before[p] == x;
                                    assert(all[p] == x);
                                }
                            }
                        }
                    }
                }
            }
            k += 1;
        }
    }
    proof {
        assert forall|j: int|
            0 <= j < links.len() && is_source_node(links, (#[trigger] links[j]).0) implies depths@[links[j].1 as int] >= 1 by {
            let s = links[j].0;
            assert(visited@[s as int]);
            let p = choose|p: int| 0 <= p < all.len() && all[p] == s;
            assert(links[j].0 == all[p]);
        }
    }
    depths
}

} // verus!
