//! The accessibility tree a runtime publishes: which widgets appear in it, how a
//! semantics wrapper merges into the accessible node below it, and which node has focus.
//!
//! Nodes are identified by their widget path; the runtime places each node on screen
//! by looking its path up in the layout.
use vstd::prelude::*;
use crate::accessibility::{
    AccessibilityAction, AccessibilityInfo, AccessibilityRole, opt_text, spec_add_action, spec_has_metadata,
};
use crate::component::{path_eq, path_to_vec};

verus! {

/// A widget as the accessibility collector sees it: its metadata, whether it merges its
/// metadata into its first accessible descendant, whether it is active in its parent
/// (a paint-only child is not), the key of its path segment under its parent, and its
/// children in order. The root is always visited, under the empty path.
pub struct AccessibilityWidgetNode {
    pub info: Option<AccessibilityInfo>,
    pub merge_descendant: bool,
    pub active: bool,
    pub path_key: usize,
    pub children: Vec<AccessibilityWidgetNode>,
}

/// A published node as values.
pub struct AccessibilityNodeView {
    pub path: Seq<usize>,
    pub role: AccessibilityRole,
    pub label: Option<Seq<char>>,
    pub description: Option<Seq<char>>,
    pub value: Option<Seq<char>>,
    pub hidden: bool,
    pub disabled: bool,
    pub checked: Option<bool>,
    pub actions: Seq<AccessibilityAction>,
    pub children: Seq<Seq<usize>>,
}

/// A published node: the widget's path, its metadata, and the paths of its accessible
/// children.
pub struct AccessibilityNodeSnapshot {
    pub path: Vec<usize>,
    pub role: AccessibilityRole,
    pub label: Option<String>,
    pub description: Option<String>,
    pub value: Option<String>,
    pub hidden: bool,
    pub disabled: bool,
    pub checked: Option<bool>,
    pub actions: Vec<AccessibilityAction>,
    pub children: Vec<Vec<usize>>,
}

/// Paths as values.
pub open spec fn spec_paths(v: Seq<Vec<usize>>) -> Seq<Seq<usize>> {
    v.map_values(|p: Vec<usize>| p@)
}

/// An optional path as a value.
pub open spec fn spec_opt_path(p: Option<Vec<usize>>) -> Option<Seq<usize>> {
    match p {
        Some(v) => Some(v@),
        None => None,
    }
}

/// An optional borrowed path as a value.
pub open spec fn spec_opt_slice(p: Option<&[usize]>) -> Option<Seq<usize>> {
    match p {
        Some(v) => Some(v@),
        None => None,
    }
}

impl View for AccessibilityNodeSnapshot {
    type V = AccessibilityNodeView;

    open spec fn view(&self) -> AccessibilityNodeView {
        AccessibilityNodeView {
            path: self.path@,
            role: self.role,
            label: opt_text(self.label),
            description: opt_text(self.description),
            value: opt_text(self.value),
            hidden: self.hidden,
            disabled: self.disabled,
            checked: self.checked,
            actions: self.actions@,
            children: spec_paths(self.children@),
        }
    }
}

/// Published nodes as values.
pub open spec fn spec_nodes(v: Seq<AccessibilityNodeSnapshot>) -> Seq<AccessibilityNodeView> {
    v.map_values(|n: AccessibilityNodeSnapshot| n@)
}

/// A published tree as values.
pub struct AccessibilityTreeView {
    pub nodes: Seq<AccessibilityNodeView>,
    pub root_children: Seq<Seq<usize>>,
    pub focus: Option<Seq<usize>>,
}

/// The published tree: its nodes (each after its descendants), the paths of the
/// accessible nodes right below the root, and the path of the focused node (`None`:
/// the root has focus).
pub struct AccessibilityTreeSnapshot {
    pub nodes: Vec<AccessibilityNodeSnapshot>,
    pub root_children: Vec<Vec<usize>>,
    pub focus: Option<Vec<usize>>,
}

impl View for AccessibilityTreeSnapshot {
    type V = AccessibilityTreeView;

    open spec fn view(&self) -> AccessibilityTreeView {
        AccessibilityTreeView {
            nodes: spec_nodes(self.nodes@),
            root_children: spec_paths(self.root_children@),
            focus: spec_opt_path(self.focus),
        }
    }
}

/// What a subtree contributes: its nodes, the paths of its topmost accessible nodes,
/// the path of its first accessible node, and the path of its focused node.
pub struct SubtreeView {
    pub nodes: Seq<AccessibilityNodeView>,
    pub roots: Seq<Seq<usize>>,
    pub first: Option<Seq<usize>>,
    pub focus: Option<Seq<usize>>,
}

/// A subtree that contributes nothing.
pub open spec fn empty_subtree() -> SubtreeView {
    SubtreeView { nodes: Seq::empty(), roots: Seq::empty(), first: None, focus: None }
}

/// Two sibling subtrees one after the other: nodes and roots in order, the first
/// accessible node and the focus of the earlier one when it has one.
pub open spec fn spec_join(a: SubtreeView, b: SubtreeView) -> SubtreeView {
    SubtreeView {
        nodes: a.nodes + b.nodes,
        roots: a.roots + b.roots,
        first: if a.first is Some { a.first } else { b.first },
        focus: if a.focus is Some { a.focus } else { b.focus },
    }
}

/// The node published for a widget at `path`: a widget without a role is a generic
/// container.
pub open spec fn spec_node_from_info(
    path: Seq<usize>,
    info: AccessibilityInfo,
    children: Seq<Seq<usize>>,
) -> AccessibilityNodeView {
    AccessibilityNodeView {
        path,
        role: match info.role {
            Some(r) => r,
            None => AccessibilityRole::GenericContainer,
        },
        label: opt_text(info.label),
        description: opt_text(info.description),
        value: opt_text(info.value),
        hidden: info.hidden,
        disabled: info.disabled,
        checked: info.checked,
        actions: info.actions@,
        children,
    }
}

/// The actions after adding each of `more` in order, skipping those already listed.
pub open spec fn spec_add_actions(
    actions: Seq<AccessibilityAction>,
    more: Seq<AccessibilityAction>,
) -> Seq<AccessibilityAction>
    decreases more.len(),
{
    if more.len() == 0 {
        actions
    } else {
        spec_add_action(spec_add_actions(actions, more.drop_last()), more.last())
    }
}

/// A node after a wrapper's metadata is merged into it: what the wrapper sets replaces
/// the node's own, hidden and disabled accumulate, and the wrapper's actions are added.
pub open spec fn spec_apply_overrides(n: AccessibilityNodeView, info: AccessibilityInfo) -> AccessibilityNodeView {
    AccessibilityNodeView {
        role: match info.role {
            Some(r) => r,
            None => n.role,
        },
        label: if info.label is Some { opt_text(info.label) } else { n.label },
        description: if info.description is Some { opt_text(info.description) } else { n.description },
        value: if info.value is Some { opt_text(info.value) } else { n.value },
        hidden: n.hidden || info.hidden,
        disabled: n.disabled || info.disabled,
        checked: if info.checked is Some { info.checked } else { n.checked },
        actions: spec_add_actions(n.actions, info.actions@),
        ..n
    }
}

/// The nodes after merging `info` into the node at `target`.
pub open spec fn spec_override_at(
    nodes: Seq<AccessibilityNodeView>,
    target: Seq<usize>,
    info: AccessibilityInfo,
) -> Seq<AccessibilityNodeView> {
    nodes.map_values(
        |n: AccessibilityNodeView|
            if n.path == target {
                spec_apply_overrides(n, info)
            } else {
                n
            },
    )
}

/// What the subtree of `node` at `path` contributes. An inactive subtree contributes
/// nothing. The children are visited in order. A widget without metadata passes its
/// children's nodes on. A merging widget merges into its first accessible descendant;
/// with none, it is published only when it has metadata. Any other widget with metadata
/// is published, with its children's topmost nodes as its children, and has focus when
/// its path is the focused path.
pub open spec fn spec_visit(
    node: AccessibilityWidgetNode,
    active: bool,
    path: Seq<usize>,
    focused: Option<Seq<usize>>,
) -> SubtreeView
    decreases node, 1int, 0int,
{
    if !active {
        empty_subtree()
    } else {
        let acc = spec_visit_children(node, path, focused, node.children@.len() as int);
        match node.info {
            None => acc,
            Some(info) => {
                if node.merge_descendant && acc.first is Some {
                    SubtreeView { nodes: spec_override_at(acc.nodes, acc.first->0, info), ..acc }
                } else if node.merge_descendant && !spec_has_metadata(info) {
                    acc
                } else {
                    SubtreeView {
                        nodes: acc.nodes.push(spec_node_from_info(path, info, acc.roots)),
                        roots: seq![path],
                        first: Some(path),
                        focus: if focused == Some(path) { Some(path) } else { acc.focus },
                    }
                }
            },
        }
    }
}

/// What the first `n` children of `node` at `path` contribute, joined in order.
pub open spec fn spec_visit_children(
    node: AccessibilityWidgetNode,
    path: Seq<usize>,
    focused: Option<Seq<usize>>,
    n: int,
) -> SubtreeView
    decreases node, 0int, n,
{
    if n <= 0 || n > node.children@.len() {
        empty_subtree()
    } else {
        let child = node.children@[n - 1];
        proof {
            assert(decreases_to!(node => node.children));
            assert(decreases_to!(node.children => node.children@));
            assert(decreases_to!(node.children@ => node.children@[n - 1]));
        }
        spec_join(
            spec_visit_children(node, path, focused, n - 1),
            spec_visit(child, child.active, path.push(child.path_key), focused),
        )
    }
}

/// The tree published for `root` with focus on `focused` (`None`: nothing focused).
pub open spec fn spec_collect_tree(root: AccessibilityWidgetNode, focused: Option<Seq<usize>>) -> AccessibilityTreeView {
    let r = spec_visit(root, true, Seq::empty(), focused);
    AccessibilityTreeView { nodes: r.nodes, root_children: r.roots, focus: r.focus }
}

/// Whether a node with path `p` is among `nodes`.
pub open spec fn spec_has_node(nodes: Seq<AccessibilityNodeView>, p: Seq<usize>) -> bool {
    exists|i: int| 0 <= i < nodes.len() && #[trigger] nodes[i].path == p
}

/// Every path a subtree reports (its focus, its first accessible node, its topmost
/// nodes) names one of its nodes, and its focus is the focused path.
pub open spec fn spec_subtree_refs_ok(r: SubtreeView, focused: Option<Seq<usize>>) -> bool {
    &&& (r.focus matches Some(p) ==> focused == Some(p) && spec_has_node(r.nodes, p))
    &&& (r.first matches Some(p) ==> spec_has_node(r.nodes, p))
    &&& forall|k: int| 0 <= k < r.roots.len() ==> spec_has_node(r.nodes, #[trigger] r.roots[k])
}

proof fn lemma_join_refs_ok(a: SubtreeView, b: SubtreeView, focused: Option<Seq<usize>>)
    requires
        spec_subtree_refs_ok(a, focused),
        spec_subtree_refs_ok(b, focused),
    ensures
        spec_subtree_refs_ok(spec_join(a, b), focused),
{
    let j = spec_join(a, b);
    assert forall|p: Seq<usize>| spec_has_node(a.nodes, p) implies spec_has_node(j.nodes, p) by {
        let i = choose|i: int| 0 <= i < a.nodes.len() && #[trigger] a.nodes[i].path == p;
        assert(j.nodes[i].path == p);
    }
    assert forall|p: Seq<usize>| spec_has_node(b.nodes, p) implies spec_has_node(j.nodes, p) by {
        let i = choose|i: int| 0 <= i < b.nodes.len() && #[trigger] b.nodes[i].path == p;
        assert(j.nodes[a.nodes.len() + i].path == p);
    }
    assert forall|k: int| 0 <= k < j.roots.len() implies spec_has_node(j.nodes, #[trigger] j.roots[k]) by {
        if k < a.roots.len() {
            assert(j.roots[k] == a.roots[k]);
        } else {
            assert(j.roots[k] == b.roots[k - a.roots.len()]);
        }
    }
}

proof fn lemma_visit_refs_ok(
    node: AccessibilityWidgetNode,
    active: bool,
    path: Seq<usize>,
    focused: Option<Seq<usize>>,
)
    ensures
        spec_subtree_refs_ok(spec_visit(node, active, path, focused), focused),
    decreases node, 1int, 0int,
{
    if active {
        let acc = spec_visit_children(node, path, focused, node.children@.len() as int);
        lemma_children_refs_ok(node, path, focused, node.children@.len() as int);
        if let Some(info) = node.info {
            if node.merge_descendant && acc.first is Some {
                let nodes = spec_override_at(acc.nodes, acc.first->0, info);
                assert forall|p: Seq<usize>| spec_has_node(acc.nodes, p) implies spec_has_node(nodes, p) by {
                    let i = choose|i: int| 0 <= i < acc.nodes.len() && #[trigger] acc.nodes[i].path == p;
                    assert(nodes[i].path == p);
                }
            } else if node.merge_descendant && !spec_has_metadata(info) {
            } else {
                let r = spec_visit(node, active, path, focused);
                assert(r.nodes[acc.nodes.len() as int].path == path);
                assert forall|p: Seq<usize>| spec_has_node(acc.nodes, p) implies spec_has_node(r.nodes, p) by {
                    let i = choose|i: int| 0 <= i < acc.nodes.len() && #[trigger] acc.nodes[i].path == p;
                    assert(r.nodes[i].path == p);
                }
                assert(r.roots[0] == path);
            }
        }
    }
}

proof fn lemma_children_refs_ok(
    node: AccessibilityWidgetNode,
    path: Seq<usize>,
    focused: Option<Seq<usize>>,
    n: int,
)
    ensures
        spec_subtree_refs_ok(spec_visit_children(node, path, focused, n), focused),
    decreases node, 0int, n,
{
    if n <= 0 || n > node.children@.len() {
    } else {
        let child = node.children@[n - 1];
        assert(decreases_to!(node => node.children));
        assert(decreases_to!(node.children => node.children@));
        assert(decreases_to!(node.children@ => node.children@[n - 1]));
        lemma_children_refs_ok(node, path, focused, n - 1);
        lemma_visit_refs_ok(child, child.active, path.push(child.path_key), focused);
        lemma_join_refs_ok(
            spec_visit_children(node, path, focused, n - 1),
            spec_visit(child, child.active, path.push(child.path_key), focused),
            focused,
        );
    }
}

/// The published tree refers only to published nodes: the focus, when not on the root,
/// is the focused path and names a published node, and so does each child of the root.
pub proof fn lemma_collect_refers_to_published_nodes(root: AccessibilityWidgetNode, focused: Option<Seq<usize>>)
    ensures
        spec_collect_tree(root, focused).focus matches Some(p) ==> focused == Some(p) && spec_has_node(
            spec_collect_tree(root, focused).nodes,
            p,
        ),
        forall|k: int|
            0 <= k < spec_collect_tree(root, focused).root_children.len() ==> spec_has_node(
                spec_collect_tree(root, focused).nodes,
                #[trigger] spec_collect_tree(root, focused).root_children[k],
            ),
{
    lemma_visit_refs_ok(root, true, Seq::empty(), focused);
}

/// A merging widget with an accessible descendant publishes no node of its own: its
/// subtree publishes the nodes of its children at the same paths, with its metadata
/// merged into the first accessible descendant and every other node unchanged.
pub proof fn lemma_merge_publishes_no_node(
    node: AccessibilityWidgetNode,
    path: Seq<usize>,
    focused: Option<Seq<usize>>,
)
    requires
        node.merge_descendant,
        node.info is Some,
        spec_visit_children(node, path, focused, node.children@.len() as int).first is Some,
    ensures
        ({
            let acc = spec_visit_children(node, path, focused, node.children@.len() as int);
            let r = spec_visit(node, true, path, focused);
            &&& r.nodes.len() == acc.nodes.len()
            &&& r.roots == acc.roots
            &&& r.focus == acc.focus
            &&& forall|i: int|
                0 <= i < acc.nodes.len() ==> (#[trigger] r.nodes[i]).path == acc.nodes[i].path && (if acc.nodes[i].path
                    == acc.first->0 {
                    r.nodes[i] == spec_apply_overrides(acc.nodes[i], node.info->0)
                } else {
                    r.nodes[i] == acc.nodes[i]
                })
        }),
{
}

struct Subtree {
    nodes: Vec<AccessibilityNodeSnapshot>,
    roots: Vec<Vec<usize>>,
    first: Option<Vec<usize>>,
    focus: Option<Vec<usize>>,
}

impl View for Subtree {
    type V = SubtreeView;

    closed spec fn view(&self) -> SubtreeView {
        SubtreeView {
            nodes: spec_nodes(self.nodes@),
            roots: spec_paths(self.roots@),
            first: spec_opt_path(self.first),
            focus: spec_opt_path(self.focus),
        }
    }
}

fn empty_result() -> (r: Subtree)
    ensures
        r@ == empty_subtree(),
{
    let r = Subtree { nodes: Vec::new(), roots: Vec::new(), first: None, focus: None };
    assert(r@.nodes =~= Seq::<AccessibilityNodeView>::empty());
    assert(r@.roots =~= Seq::<Seq<usize>>::empty());
    r
}

fn join(acc: &mut Subtree, other: Subtree)
    ensures
        final(acc)@ == spec_join(old(acc)@, other@),
{
    let Subtree { mut nodes, mut roots, first, focus } = other;
    let ghost n0 = acc.nodes@;
    let ghost r0 = acc.roots@;
    let ghost n1 = nodes@;
    let ghost r1 = roots@;
    acc.nodes.append(&mut nodes);
    acc.roots.append(&mut roots);
    if acc.first.is_none() {
        acc.first = first;
    }
    if acc.focus.is_none() {
        acc.focus = focus;
    }
    assert(spec_nodes(n0 + n1) =~= spec_nodes(n0) + spec_nodes(n1));
    assert(spec_paths(r0 + r1) =~= spec_paths(r0) + spec_paths(r1));
}

fn clone_text(s: &Option<String>) -> (r: Option<String>)
    ensures
        r == *s,
{
    match s {
        Some(t) => Some(t.clone()),
        None => None,
    }
}

fn copy_actions(actions: &Vec<AccessibilityAction>) -> (r: Vec<AccessibilityAction>)
    ensures
        r@ == actions@,
{
    let mut out: Vec<AccessibilityAction> = Vec::new();
    let mut i: usize = 0;
    while i < actions.len()
        invariant
            i <= actions@.len(),
            out@ == actions@.take(i as int),
        decreases actions@.len() - i,
    {
        out.push(actions[i]);
        i += 1;
        assert(out@ =~= actions@.take(i as int));
    }
    assert(actions@.take(actions@.len() as int) =~= actions@);
    out
}

fn add_action(actions: &mut Vec<AccessibilityAction>, action: AccessibilityAction)
    ensures
        final(actions)@ == spec_add_action(old(actions)@, action),
{
    let mut i: usize = 0;
    let mut found = false;
    while i < actions.len()
        invariant
            i <= actions@.len(),
            actions@ == old(actions)@,
            found == (exists|j: int| 0 <= j < i && actions@[j] == action),
        decreases actions@.len() - i,
    {
        if actions[i] == action {
            found = true;
        }
        i += 1;
    }
    if !found {
        actions.push(action);
    } else {
        assert(actions@.contains(action));
    }
}

fn add_actions(actions: &mut Vec<AccessibilityAction>, more: &Vec<AccessibilityAction>)
    ensures
        final(actions)@ == spec_add_actions(old(actions)@, more@),
{
    let mut i: usize = 0;
    while i < more.len()
        invariant
            i <= more@.len(),
            actions@ == spec_add_actions(old(actions)@, more@.take(i as int)),
        decreases more@.len() - i,
    {
        add_action(actions, more[i]);
        proof {
            assert(more@.take(i as int + 1).drop_last() =~= more@.take(i as int));
        }
        i += 1;
    }
    assert(more@.take(more@.len() as int) =~= more@);
}

fn node_from_info(path: &[usize], info: &AccessibilityInfo, children: Vec<Vec<usize>>) -> (r: AccessibilityNodeSnapshot)
    ensures
        r@ == spec_node_from_info(path@, *info, spec_paths(children@)),
{
    let role = match info.role {
        Some(r) => r,
        None => AccessibilityRole::GenericContainer,
    };
    AccessibilityNodeSnapshot {
        path: path_to_vec(path),
        role,
        label: clone_text(&info.label),
        description: clone_text(&info.description),
        value: clone_text(&info.value),
        hidden: info.hidden,
        disabled: info.disabled,
        checked: info.checked,
        actions: copy_actions(&info.actions),
        children,
    }
}

fn apply_overrides(node: &mut AccessibilityNodeSnapshot, info: &AccessibilityInfo)
    ensures
        final(node)@ == spec_apply_overrides(old(node)@, *info),
{
    if let Some(role) = info.role {
        node.role = role;
    }
    if info.label.is_some() {
        node.label = clone_text(&info.label);
    }
    if info.description.is_some() {
        node.description = clone_text(&info.description);
    }
    if info.value.is_some() {
        node.value = clone_text(&info.value);
    }
    node.hidden = node.hidden || info.hidden;
    node.disabled = node.disabled || info.disabled;
    if info.checked.is_some() {
        node.checked = info.checked;
    }
    add_actions(&mut node.actions, &info.actions);
}

fn override_at(nodes: &mut Vec<AccessibilityNodeSnapshot>, target: &[usize], info: &AccessibilityInfo)
    ensures
        spec_nodes(final(nodes)@) == spec_override_at(spec_nodes(old(nodes)@), target@, *info),
{
    let ghost goal = spec_override_at(spec_nodes(old(nodes)@), target@, *info);
    let mut i: usize = 0;
    while i < nodes.len()
        invariant
            i <= nodes@.len(),
            nodes@.len() == old(nodes)@.len(),
            goal == spec_override_at(spec_nodes(old(nodes)@), target@, *info),
            forall|j: int| 0 <= j < i ==> #[trigger] nodes@[j]@ == goal[j],
            forall|j: int| i <= j < nodes@.len() ==> #[trigger] nodes@[j] == old(nodes)@[j],
        decreases nodes@.len() - i,
    {
        if path_eq(nodes[i].path.as_slice(), target) {
            apply_overrides(&mut nodes[i], info);
        }
        i += 1;
    }
    assert(spec_nodes(nodes@) =~= goal);
}

fn visit(
    node: &AccessibilityWidgetNode,
    active: bool,
    path: &mut Vec<usize>,
    focused: Option<&[usize]>,
) -> (r: Subtree)
    ensures
        r@ == spec_visit(*node, active, old(path)@, spec_opt_slice(focused)),
        final(path)@ == old(path)@,
    decreases node, 1int,
{
    let mut acc = empty_result();
    if !active {
        return acc;
    }
    let ghost p0 = path@;
    let mut i: usize = 0;
    while i < node.children.len()
        invariant
            i <= node.children@.len(),
            path@ == p0,
            acc@ == spec_visit_children(*node, p0, spec_opt_slice(focused), i as int),
        decreases node.children@.len() - i,
    {
        let child = &node.children[i];
        proof {
            assert(decreases_to!(node => node.children));
            assert(decreases_to!(node.children => node.children@));
            assert(decreases_to!(node.children@ => node.children@[i as int]));
        }
        path.push(child.path_key);
        let r = visit(child, child.active, path, focused);
        let _ = path.pop();
        assert(path@ =~= p0);
        join(&mut acc, r);
        i += 1;
    }
    match &node.info {
        None => acc,
        Some(info) => {
            if node.merge_descendant {
                let target = match &acc.first {
                    Some(t) => Some(path_to_vec(t.as_slice())),
                    None => None,
                };
                if let Some(t) = target {
                    override_at(&mut acc.nodes, t.as_slice(), info);
                    return acc;
                }
                if !info.has_metadata() {
                    return acc;
                }
            }
            let Subtree { mut nodes, roots, first: _, focus } = acc;
            let ghost n0 = nodes@;
            nodes.push(node_from_info(path.as_slice(), info, roots));
            assert(spec_nodes(nodes@) =~= spec_nodes(n0).push(spec_nodes(nodes@).last()));
            let is_focused = match focused {
                Some(f) => path_eq(f, path.as_slice()),
                None => false,
            };
            let focus = if is_focused {
                Some(path_to_vec(path.as_slice()))
            } else {
                focus
            };
            let mut top: Vec<Vec<usize>> = Vec::new();
            top.push(path_to_vec(path.as_slice()));
            assert(spec_paths(top@) =~= seq![path@]);
            Subtree { nodes, roots: top, first: Some(path_to_vec(path.as_slice())), focus }
        },
    }
}

/// Collect the accessibility tree of `root` with focus on `focused_path`.
pub fn collect_accessibility_tree(
    root: &AccessibilityWidgetNode,
    focused_path: Option<&[usize]>,
) -> (r: AccessibilityTreeSnapshot)
    ensures
        r@ == spec_collect_tree(*root, spec_opt_slice(focused_path)),
{
    let mut path: Vec<usize> = Vec::new();
    let result = visit(root, true, &mut path, focused_path);
    let Subtree { nodes, roots, first: _, focus } = result;
    AccessibilityTreeSnapshot { nodes, root_children: roots, focus }
}

} // verus!
