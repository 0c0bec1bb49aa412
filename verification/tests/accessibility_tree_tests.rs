use sparsha::accessibility::{AccessibilityAction, AccessibilityInfo, AccessibilityRole};
use sparsha::accessibility_tree::{collect_accessibility_tree, AccessibilityWidgetNode};
use sparsha::runtime::remap_path;

fn widget(info: Option<AccessibilityInfo>, key: usize, children: Vec<AccessibilityWidgetNode>) -> AccessibilityWidgetNode {
    AccessibilityWidgetNode { info, merge_descendant: false, active: true, path_key: key, children }
}

fn button(label: &str, key: usize) -> AccessibilityWidgetNode {
    let info = AccessibilityInfo::new(AccessibilityRole::Button)
        .label(label)
        .disabled(false)
        .action(AccessibilityAction::Focus)
        .action(AccessibilityAction::Click);
    widget(Some(info), key, vec![])
}

fn text_input(placeholder: &str, key: usize) -> AccessibilityWidgetNode {
    let info = AccessibilityInfo::new(AccessibilityRole::TextInput)
        .value("")
        .action(AccessibilityAction::Focus)
        .action(AccessibilityAction::SetValue)
        .label(placeholder);
    widget(Some(info), key, vec![])
}

fn semantics(info: AccessibilityInfo, key: usize, child: AccessibilityWidgetNode) -> AccessibilityWidgetNode {
    AccessibilityWidgetNode {
        info: if info.has_metadata() { Some(info) } else { None },
        merge_descendant: true,
        active: true,
        path_key: key,
        children: vec![child],
    }
}

#[test]
fn semantics_overrides_merge_into_descendant_accessible_node() {
    let wrapper = semantics(AccessibilityInfo::default().label("Explicit accessible label"), 0, button("Save", 0));
    let root = widget(None, 0, vec![wrapper]);
    let tree = collect_accessibility_tree(&root, None);

    assert_eq!(tree.nodes.len(), 1);
    let node = &tree.nodes[0];
    assert_eq!(node.role, AccessibilityRole::Button);
    assert_eq!(node.label.as_deref(), Some("Explicit accessible label"));
}

#[test]
fn paint_only_children_are_excluded_from_runtime_metadata() {
    let mut input = text_input("Email", 0);
    input.active = false;
    let root = widget(None, 0, vec![input]);

    assert!(remap_path(Some(vec![0]), &vec![]).is_none());

    let tree = collect_accessibility_tree(&root, None);
    assert!(tree.nodes.is_empty());
    assert!(tree.root_children.is_empty());
}

#[test]
fn accessibility_ids_remain_stable_across_relayout() {
    let root = widget(None, 0, vec![button("Primary", 0), text_input("Email", 1)]);
    let focused = vec![1usize];
    let tree_a = collect_accessibility_tree(&root, Some(focused.as_slice()));
    let tree_b = collect_accessibility_tree(&root, Some(focused.as_slice()));

    assert_eq!(tree_a.root_children, tree_b.root_children);
    assert_eq!(tree_a.focus, tree_b.focus);
}

#[test]
fn focus_names_the_focused_published_node_or_the_root() {
    let root = widget(None, 0, vec![button("Primary", 0), text_input("Email", 1)]);
    let tree = collect_accessibility_tree(&root, Some(&[1usize][..]));
    assert_eq!(tree.root_children, vec![vec![0usize], vec![1usize]]);
    assert_eq!(tree.focus, Some(vec![1usize]));
    assert_eq!(tree.nodes[1].path, vec![1usize]);
    assert_eq!(tree.nodes[1].label.as_deref(), Some("Email"));
    assert_eq!(tree.nodes[1].value.as_deref(), Some(""));

    let unpublished = collect_accessibility_tree(&root, Some(&[7usize][..]));
    assert_eq!(unpublished.focus, None);
    let nothing = collect_accessibility_tree(&root, None);
    assert_eq!(nothing.focus, None);
}

#[test]
fn published_parents_list_their_topmost_accessible_descendants() {
    let group = widget(None, 3, vec![button("A", 0), button("B", 2)]);
    let list_info = AccessibilityInfo::new(AccessibilityRole::List);
    let list = widget(Some(list_info), 5, vec![group]);
    let root = widget(None, 0, vec![list]);
    let tree = collect_accessibility_tree(&root, None);

    assert_eq!(tree.nodes.len(), 3);
    assert_eq!(tree.nodes[0].path, vec![5usize, 3, 0]);
    assert_eq!(tree.nodes[1].path, vec![5usize, 3, 2]);
    assert_eq!(tree.nodes[2].path, vec![5usize]);
    assert_eq!(tree.nodes[2].role, AccessibilityRole::List);
    assert_eq!(tree.nodes[2].children, vec![vec![5usize, 3, 0], vec![5usize, 3, 2]]);
    assert_eq!(tree.root_children, vec![vec![5usize]]);
}

#[test]
fn widgets_without_a_role_are_generic_containers() {
    let info = AccessibilityInfo::default().label("Toolbar");
    let root = widget(None, 0, vec![widget(Some(info), 4, vec![])]);
    let tree = collect_accessibility_tree(&root, None);
    assert_eq!(tree.nodes.len(), 1);
    assert_eq!(tree.nodes[0].role, AccessibilityRole::GenericContainer);
    assert!(tree.nodes[0].children.is_empty());
}

#[test]
fn merging_wrapper_without_descendant_publishes_itself_only_with_metadata() {
    let lone = AccessibilityWidgetNode {
        info: Some(AccessibilityInfo::default().description("Note")),
        merge_descendant: true,
        active: true,
        path_key: 1,
        children: vec![],
    };
    let empty = AccessibilityWidgetNode {
        info: Some(AccessibilityInfo::default()),
        merge_descendant: true,
        active: true,
        path_key: 2,
        children: vec![],
    };
    let root = widget(None, 0, vec![lone, empty]);
    let tree = collect_accessibility_tree(&root, None);
    assert_eq!(tree.nodes.len(), 1);
    assert_eq!(tree.nodes[0].path, vec![1usize]);
    assert_eq!(tree.nodes[0].description.as_deref(), Some("Note"));
    assert_eq!(tree.root_children, vec![vec![1usize]]);
}

#[test]
fn merged_overrides_keep_unset_fields_and_add_actions_once() {
    let overrides = AccessibilityInfo::default()
        .hidden(true)
        .action(AccessibilityAction::Click)
        .action(AccessibilityAction::ScrollUp);
    let wrapper = semantics(overrides, 0, button("Save", 1));
    let root = widget(None, 0, vec![wrapper]);
    let tree = collect_accessibility_tree(&root, Some(&[0usize, 1][..]));

    assert_eq!(tree.nodes.len(), 1);
    let node = &tree.nodes[0];
    assert_eq!(node.path, vec![0usize, 1]);
    assert_eq!(node.label.as_deref(), Some("Save"));
    assert!(node.hidden);
    assert!(!node.disabled);
    assert_eq!(
        node.actions,
        vec![AccessibilityAction::Focus, AccessibilityAction::Click, AccessibilityAction::ScrollUp]
    );
    assert_eq!(tree.focus, Some(vec![0usize, 1]));
}
