use gpui_component::sankey::{build_graph, compute_node_depths, nodes_by_layer, SankeyLinkEnds};

fn ends(pairs: &[(&str, &str)]) -> Vec<SankeyLinkEnds> {
    pairs
        .iter()
        .map(|(s, t)| SankeyLinkEnds {
            source: s.to_string(),
            target: t.to_string(),
        })
        .collect()
}

#[test]
fn test_sankey_layout() {
    let links = ends(&[("A", "B"), ("A", "C"), ("B", "D")]);
    let graph = build_graph(&links);
    let depths = compute_node_depths(&graph);

    // Check that nodes were created
    assert_eq!(graph.names.len(), 4);

    let layer_of = |name: &str| {
        let ix = graph.names.iter().position(|n| n == name).unwrap();
        depths[ix]
    };
    // Check that node A is at layer 0
    assert_eq!(layer_of("A"), 0);
    // Check that node B and C are at layer 1
    assert_eq!(layer_of("B"), 1);
    assert_eq!(layer_of("C"), 1);
    // Check that node D is at layer 2
    assert_eq!(layer_of("D"), 2);

    // Check that links were created
    assert_eq!(graph.links.len(), 3);
}

#[test]
fn sankey_nodes_in_first_appearance_order() {
    let links = ends(&[("x", "y"), ("z", "x"), ("y", "z")]);
    let graph = build_graph(&links);
    assert_eq!(graph.names, vec!["x", "y", "z"]);
    assert_eq!(graph.links, vec![(0, 1), (2, 0), (1, 2)]);
    assert_eq!(graph.source_links, vec![vec![0], vec![2], vec![1]]);
    assert_eq!(graph.target_links, vec![vec![1], vec![0], vec![2]]);
}

#[test]
fn sankey_depths_and_layers() {
    // A -> B -> D and A -> D: D is reached again from B, one deeper.
    let links = ends(&[("A", "B"), ("A", "D"), ("B", "D"), ("E", "D")]);
    let graph = build_graph(&links);
    let depths = compute_node_depths(&graph);
    // names: A, B, D, E
    assert_eq!(depths, vec![0, 1, 2, 0]);
    let layers = nodes_by_layer(&depths);
    assert_eq!(layers, vec![vec![0, 3], vec![1], vec![2]]);
    assert_eq!(nodes_by_layer(&vec![]), vec![Vec::<usize>::new()]);
}

#[test]
fn sankey_depths_follow_the_walk() {
    // B is raised to 2 through D after it was expanded, so C keeps the
    // depth it had from B's first depth.
    let links = ends(&[("A", "B"), ("A", "D"), ("D", "B"), ("B", "C")]);
    let graph = build_graph(&links);
    // names: A, B, D, C
    assert_eq!(compute_node_depths(&graph), vec![0, 2, 1, 2]);
}
