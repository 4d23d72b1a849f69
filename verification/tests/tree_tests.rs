use gpui_component::tree::{InnerTreeItem, Tree, TreeItem};

fn item(label: &str, children: Vec<TreeItem>) -> TreeItem {
    TreeItem {
        label: label.to_string(),
        disabled: label == "d",
        children,
    }
}

fn shown(tree: &Tree) -> Vec<(usize, String, bool, usize, bool)> {
    tree.rows()
        .iter()
        .map(|r| (r.id, r.label.clone(), r.disabled, r.depth, r.selected))
        .collect()
}

#[test]
fn tree_flattens_items_depth_first() {
    let tree = Tree::new(vec![
        item("a", vec![item("b", vec![item("c", vec![])]), item("d", vec![])]),
        item("e", vec![]),
    ]);
    assert_eq!(
        shown(&tree),
        vec![
            (0, "a".to_string(), false, 0, false),
            (1, "b".to_string(), false, 1, false),
            (2, "c".to_string(), false, 2, false),
            (3, "d".to_string(), true, 1, false),
            (4, "e".to_string(), false, 0, false),
        ]
    );
}

#[test]
fn tree_set_items_replaces_rows() {
    let mut tree = Tree::new(vec![item("a", vec![item("b", vec![])])]);
    tree.set_items(vec![item("x", vec![])]);
    assert_eq!(shown(&tree), vec![(0, "x".to_string(), false, 0, false)]);
    tree.set_items(vec![]);
    assert!(tree.rows().is_empty());
    let row = InnerTreeItem::new(7, "y".to_string(), true, 3);
    assert_eq!((row.id, row.depth, row.disabled, row.selected), (7, 3, true, false));
}
