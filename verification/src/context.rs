//! The rebuild context: widget path, theme, scoped resources, and command flags.
//!
//! Resources are kept per resource key. Each key has an optional root value,
//! installed by the runtime, and a stack of subtree-scoped context values pushed
//! by providers. A lookup sees the nearest scoped value first.
use vstd::prelude::*;
use std::collections::HashMap;
use crate::component::{BuildStateStore, ComponentStateStore, path_to_vec};

verus! {

broadcast use vstd::std_specs::hash::group_hash_axioms;

/// The key a kind of resource is stored under.
pub type ResourceKey = u64;

/// The root value and the scoped values of one resource key.
pub struct ResourceEntryView<R> {
    pub root: Option<R>,
    pub contexts: Seq<R>,
}

/// The entry of a key that holds nothing.
pub open spec fn empty_entry<R>() -> ResourceEntryView<R> {
    ResourceEntryView { root: None, contexts: Seq::empty() }
}

/// Whether an entry holds nothing.
pub open spec fn spec_entry_is_empty<R>(e: ResourceEntryView<R>) -> bool {
    e.root is None && e.contexts.len() == 0
}

/// The nearest scoped value of an entry.
pub open spec fn spec_entry_context<R>(e: ResourceEntryView<R>) -> Option<R> {
    if e.contexts.len() > 0 { Some(e.contexts.last()) } else { None }
}

/// The nearest scoped value, else the root value.
pub open spec fn spec_entry_resource<R>(e: ResourceEntryView<R>) -> Option<R> {
    match spec_entry_context(e) {
        Some(v) => Some(v),
        None => e.root,
    }
}

/// `r` is a clone of `src`: both absent, or both present with the value cloned.
pub open spec fn opt_cloned<R: Clone>(src: Option<R>, r: Option<R>) -> bool {
    match (src, r) {
        (Some(a), Some(b)) => cloned(a, b),
        (None, None) => true,
        _ => false,
    }
}

/// The values stored under one resource key.
pub struct ResourceEntry<R> {
    root: Option<R>,
    contexts: Vec<R>,
}

impl<R> View for ResourceEntry<R> {
    type V = ResourceEntryView<R>;

    closed spec fn view(&self) -> ResourceEntryView<R> {
        ResourceEntryView { root: self.root, contexts: self.contexts@ }
    }
}

impl<R> ResourceEntry<R> {
    /// An entry that holds nothing.
    pub fn new() -> (r: Self)
        ensures
            r@ == empty_entry::<R>(),
    {
        let r = ResourceEntry { root: None, contexts: Vec::new() };
        assert(r@.contexts =~= Seq::<R>::empty());
        r
    }

    /// Install or replace the root value.
    pub fn set_root(&mut self, value: R)
        ensures
            final(self)@ == (ResourceEntryView { root: Some(value), contexts: old(self)@.contexts }),
    {
        self.root = Some(value);
    }

    /// Push a scoped value.
    pub fn push_context(&mut self, value: R)
        ensures
            final(self)@ == (ResourceEntryView { root: old(self)@.root, contexts: old(self)@.contexts.push(value) }),
    {
        self.contexts.push(value);
    }

    /// Pop the nearest scoped value; false when there is none.
    pub fn pop_context(&mut self) -> (r: bool)
        ensures
            r == (old(self)@.contexts.len() > 0),
            final(self)@.root == old(self)@.root,
            final(self)@.contexts == if r { old(self)@.contexts.drop_last() } else { old(self)@.contexts },
    {
        match self.contexts.pop() {
            Some(_) => true,
            None => false,
        }
    }

    /// A clone of the nearest scoped value.
    pub fn context(&self) -> (r: Option<R>)
        where
            R: Clone,
        ensures
            opt_cloned(spec_entry_context(self@), r),
    {
        let n = self.contexts.len();
        if n > 0 {
            Some(self.contexts[n - 1].clone())
        } else {
            None
        }
    }

    /// A clone of the nearest scoped value, else of the root value.
    pub fn resource(&self) -> (r: Option<R>)
        where
            R: Clone,
        ensures
            opt_cloned(spec_entry_resource(self@), r),
    {
        match self.context() {
            Some(v) => Some(v),
            None => match &self.root {
                Some(v) => Some(v.clone()),
                None => None,
            },
        }
    }

    /// Whether the entry holds nothing.
    pub fn is_empty(&self) -> (r: bool)
        ensures
            r == spec_entry_is_empty(self@),
    {
        self.root.is_none() && self.contexts.len() == 0
    }
}

/// The entry of `k`, or the empty entry.
pub open spec fn entry_or_empty<R>(m: Map<ResourceKey, ResourceEntryView<R>>, k: ResourceKey) -> ResourceEntryView<R> {
    if m.contains_key(k) { m[k] } else { empty_entry() }
}

/// Resources after installing `value` as the root of `k`.
pub open spec fn spec_insert_resource<R>(m: Map<ResourceKey, ResourceEntryView<R>>, k: ResourceKey, value: R) -> Map<
    ResourceKey,
    ResourceEntryView<R>,
> {
    m.insert(k, ResourceEntryView { root: Some(value), contexts: entry_or_empty(m, k).contexts })
}

/// Resources after pushing `value` as the nearest scoped value of `k`.
pub open spec fn spec_push_context<R>(m: Map<ResourceKey, ResourceEntryView<R>>, k: ResourceKey, value: R) -> Map<
    ResourceKey,
    ResourceEntryView<R>,
> {
    m.insert(k, ResourceEntryView { root: entry_or_empty(m, k).root, contexts: entry_or_empty(m, k).contexts.push(value) })
}

/// Resources after popping the nearest scoped value of `k`; an entry left empty is dropped.
pub open spec fn spec_pop_context<R>(m: Map<ResourceKey, ResourceEntryView<R>>, k: ResourceKey) -> Map<
    ResourceKey,
    ResourceEntryView<R>,
> {
    if !m.contains_key(k) {
        m
    } else {
        let e = m[k];
        let popped = ResourceEntryView {
            root: e.root,
            contexts: if e.contexts.len() > 0 { e.contexts.drop_last() } else { e.contexts },
        };
        if spec_entry_is_empty(popped) { m.remove(k) } else { m.insert(k, popped) }
    }
}

/// The nearest scoped value of `k`.
pub open spec fn spec_context<R>(m: Map<ResourceKey, ResourceEntryView<R>>, k: ResourceKey) -> Option<R> {
    if m.contains_key(k) { spec_entry_context(m[k]) } else { None }
}

/// The nearest scoped value of `k`, else its root value.
pub open spec fn spec_resource<R>(m: Map<ResourceKey, ResourceEntryView<R>>, k: ResourceKey) -> Option<R> {
    if m.contains_key(k) { spec_entry_resource(m[k]) } else { None }
}

/// Every stored entry holds something.
pub open spec fn spec_resources_wf<R>(m: Map<ResourceKey, ResourceEntryView<R>>) -> bool {
    forall|k: ResourceKey| #[trigger] m.contains_key(k) ==> !spec_entry_is_empty(m[k])
}

/// The rebuild context as values: widget path, theme, resources by key.
pub struct BuildContextView<Th, R> {
    pub path: Seq<usize>,
    pub theme: Option<Th>,
    pub resources: Map<ResourceKey, ResourceEntryView<R>>,
}

/// Context for rebuilding dynamic widget children.
pub struct BuildContext<Th, R> {
    path: Vec<usize>,
    theme: Option<Th>,
    resources: HashMap<ResourceKey, ResourceEntry<R>>,
}

/// The stored entries as values.
pub open spec fn spec_entries_view<R>(m: Map<ResourceKey, ResourceEntry<R>>) -> Map<
    ResourceKey,
    ResourceEntryView<R>,
> {
    m.map_values(|e: ResourceEntry<R>| e@)
}

impl<Th, R> View for BuildContext<Th, R> {
    type V = BuildContextView<Th, R>;

    closed spec fn view(&self) -> BuildContextView<Th, R> {
        BuildContextView { path: self.path@, theme: self.theme, resources: spec_entries_view(self.resources@) }
    }
}

impl<Th, R> Default for BuildContext<Th, R> {
    fn default() -> (r: Self)
        ensures
            r@.path.len() == 0,
            r@.theme is None,
            r@.resources == Map::<ResourceKey, ResourceEntryView<R>>::empty(),
            spec_resources_wf(r@.resources),
    {
        BuildContext::new()
    }
}

/// Take the entry of `key` out of `resources`, or an empty entry.
fn take_entry<R>(resources: &mut HashMap<ResourceKey, ResourceEntry<R>>, key: ResourceKey) -> (r: ResourceEntry<R>)
    ensures
        r@ == entry_or_empty(spec_entries_view(old(resources)@), key),
        spec_entries_view(final(resources)@) == spec_entries_view(old(resources)@).remove(key),
{
    let removed = resources.remove(&key);
    assert(spec_entries_view(resources@) =~= spec_entries_view(old(resources)@).remove(key));
    match removed {
        Some(e) => e,
        None => ResourceEntry::new(),
    }
}

/// Store `entry` as the entry of `key` in `resources`.
fn put_entry<R>(resources: &mut HashMap<ResourceKey, ResourceEntry<R>>, key: ResourceKey, entry: ResourceEntry<R>)
    ensures
        spec_entries_view(final(resources)@) == spec_entries_view(old(resources)@).insert(key, entry@),
{
    resources.insert(key, entry);
    assert(spec_entries_view(resources@) =~= spec_entries_view(old(resources)@).insert(key, entry@));
}

impl<Th, R> BuildContext<Th, R> {
    /// Every stored entry holds something.
    #[verifier::type_invariant]
    closed spec fn inv(self) -> bool {
        spec_resources_wf(spec_entries_view(self.resources@))
    }

    /// A context at the root path, with no theme and no resources.
    pub fn new() -> (r: Self)
        ensures
            r@.path.len() == 0,
            r@.theme is None,
            r@.resources == Map::<ResourceKey, ResourceEntryView<R>>::empty(),
            spec_resources_wf(r@.resources),
    {
        let resources: HashMap<ResourceKey, ResourceEntry<R>> = HashMap::new();
        assert(spec_entries_view(resources@) =~= Map::<ResourceKey, ResourceEntryView<R>>::empty());
        BuildContext { path: Vec::new(), theme: None, resources }
    }

    /// Set the logical widget path currently being rebuilt.
    pub fn set_path(&mut self, path: &[usize])
        ensures
            final(self)@.path == path@,
            final(self)@.theme == old(self)@.theme,
            final(self)@.resources == old(self)@.resources,
            spec_resources_wf(final(self)@.resources),
    {
        proof {
            use_type_invariant(&*self);
        }
        self.path = path_to_vec(path);
    }

    /// The logical widget path currently being rebuilt.
    pub fn path(&self) -> (r: &[usize])
        ensures
            r@ == self@.path,
    {
        self.path.as_slice()
    }

    /// Set the resolved theme for this rebuild pass.
    pub fn set_theme(&mut self, theme: Th)
        ensures
            final(self)@.path == old(self)@.path,
            final(self)@.theme == Some(theme),
            final(self)@.resources == old(self)@.resources,
            spec_resources_wf(final(self)@.resources),
    {
        proof {
            use_type_invariant(&*self);
        }
        self.theme = Some(theme);
    }

    /// The resolved theme of this pass, else `current` (the process-wide current theme).
    pub fn theme(&self, current: Th) -> (r: Th)
        where
            Th: Clone,
        ensures
            self@.theme matches Some(t) ==> cloned(t, r),
            self@.theme is None ==> r == current,
    {
        match &self.theme {
            Some(t) => t.clone(),
            None => current,
        }
    }

    /// Move the stored entries out, leaving none behind.
    fn take_resources(&mut self) -> (r: HashMap<ResourceKey, ResourceEntry<R>>)
        ensures
            spec_entries_view(r@) == old(self)@.resources,
            spec_resources_wf(old(self)@.resources),
            final(self)@.resources == Map::<ResourceKey, ResourceEntryView<R>>::empty(),
            final(self)@.path == old(self)@.path,
            final(self)@.theme == old(self)@.theme,
    {
        proof {
            use_type_invariant(&*self);
        }
        let mut resources: HashMap<ResourceKey, ResourceEntry<R>> = HashMap::new();
        assert(spec_entries_view(resources@) =~= Map::<ResourceKey, ResourceEntryView<R>>::empty());
        std::mem::swap(&mut resources, &mut self.resources);
        resources
    }

    /// Install or replace the root value of `key`.
    pub fn insert_resource(&mut self, key: ResourceKey, value: R)
        ensures
            final(self)@.resources == spec_insert_resource(old(self)@.resources, key, value),
            final(self)@.path == old(self)@.path,
            final(self)@.theme == old(self)@.theme,
            spec_resources_wf(final(self)@.resources),
    {
        let mut resources = self.take_resources();
        let mut entry = take_entry(&mut resources, key);
        entry.set_root(value);
        put_entry(&mut resources, key, entry);
        proof {
            lemma_ops_keep_wf(old(self)@.resources, key, value);
            assert(spec_entries_view(resources@) =~= spec_insert_resource(old(self)@.resources, key, value));
        }
        self.resources = resources;
    }

    /// Push a subtree-scoped value of `key`.
    pub fn push_context(&mut self, key: ResourceKey, value: R)
        ensures
            final(self)@.resources == spec_push_context(old(self)@.resources, key, value),
            final(self)@.path == old(self)@.path,
            final(self)@.theme == old(self)@.theme,
            spec_resources_wf(final(self)@.resources),
    {
        let mut resources = self.take_resources();
        let mut entry = take_entry(&mut resources, key);
        entry.push_context(value);
        put_entry(&mut resources, key, entry);
        proof {
            lemma_ops_keep_wf(old(self)@.resources, key, value);
            assert(spec_entries_view(resources@) =~= spec_push_context(old(self)@.resources, key, value));
        }
        self.resources = resources;
    }

    /// Pop the nearest subtree-scoped value of `key`; an entry left empty is dropped.
    pub fn pop_context(&mut self, key: ResourceKey)
        ensures
            final(self)@.resources == spec_pop_context(old(self)@.resources, key),
            final(self)@.path == old(self)@.path,
            final(self)@.theme == old(self)@.theme,
            spec_resources_wf(final(self)@.resources),
    {
        let mut resources = self.take_resources();
        if resources.contains_key(&key) {
            let mut entry = take_entry(&mut resources, key);
            let _popped = entry.pop_context();
            if !entry.is_empty() {
                put_entry(&mut resources, key, entry);
            }
        }
        proof {
            assert(spec_entries_view(resources@) =~= spec_pop_context(old(self)@.resources, key));
        }
        self.resources = resources;
    }

    /// A clone of the nearest provider-scoped value of `key`; root values are not seen.
    pub fn context(&self, key: ResourceKey) -> (r: Option<R>)
        where
            R: Clone,
        ensures
            opt_cloned(spec_context(self@.resources, key), r),
    {
        match self.resources.get(&key) {
            Some(entry) => entry.context(),
            None => None,
        }
    }

    /// A clone of the nearest value of `key`: a scoped value shadows the root value.
    pub fn resource(&self, key: ResourceKey) -> (r: Option<R>)
        where
            R: Clone,
        ensures
            opt_cloned(spec_resource(self@.resources, key), r),
    {
        match self.resources.get(&key) {
            Some(entry) => entry.resource(),
            None => None,
        }
    }

    /// Mark the current path used and take the component state stored for it.
    pub fn take_boxed_state<S>(&self, store: &mut ComponentStateStore<S>) -> (r: Option<S>)
        ensures
            r == (if old(store)@.states.contains_key(self@.path) {
                Some(old(store)@.states[self@.path])
            } else {
                None
            }),
            final(store)@.states == old(store)@.states.remove(self@.path),
            final(store)@.used == old(store)@.used.insert(self@.path),
    {
        store.mark_path_used(self.path.as_slice());
        store.take_boxed_state(self.path.as_slice())
    }

    /// Mark the current path used and store component state for it.
    pub fn store_boxed_state<S>(&self, store: &mut ComponentStateStore<S>, state: S)
        ensures
            final(store)@.states == old(store)@.states.insert(self@.path, state),
            final(store)@.used == old(store)@.used.insert(self@.path),
    {
        store.mark_path_used(self.path.as_slice());
        let path = path_to_vec(self.path.as_slice());
        store.store_boxed_state(path, state);
    }
}

/// A pushed value is the nearest context and resource of its key.
pub proof fn lemma_push_shadows<R>(m: Map<ResourceKey, ResourceEntryView<R>>, k: ResourceKey, v: R)
    ensures
        spec_context(spec_push_context(m, k, v), k) == Some(v),
        spec_resource(spec_push_context(m, k, v), k) == Some(v),
{
}

/// Popping right after pushing restores the resources exactly. Every context meets the
/// requirement: its operations keep each stored entry non-empty.
pub proof fn lemma_push_then_pop_restores<R>(m: Map<ResourceKey, ResourceEntryView<R>>, k: ResourceKey, v: R)
    requires
        spec_resources_wf(m),
    ensures
        spec_pop_context(spec_push_context(m, k, v), k) == m,
{
    let pushed = spec_push_context(m, k, v);
    let e = entry_or_empty(m, k);
    assert(e.contexts.push(v).drop_last() =~= e.contexts);
    if m.contains_key(k) {
        assert(!spec_entry_is_empty(m[k]));
        assert(spec_pop_context(pushed, k) =~= m.insert(k, m[k]));
        assert(m.insert(k, m[k]) =~= m);
    } else {
        assert(spec_pop_context(pushed, k) =~= m);
    }
}

/// Popping right after pushing leaves every lookup as it was before the push: each key
/// yields the same nearest context and the same resource, whatever the resources held.
pub proof fn lemma_push_then_pop_keeps_lookups<R>(m: Map<ResourceKey, ResourceEntryView<R>>, k: ResourceKey, v: R)
    ensures
        forall|u: ResourceKey|
            #![trigger spec_context(m, u)]
            #![trigger spec_resource(m, u)]
            spec_context(spec_pop_context(spec_push_context(m, k, v), k), u) == spec_context(m, u)
                && spec_resource(spec_pop_context(spec_push_context(m, k, v), k), u) == spec_resource(m, u),
{
    let e = entry_or_empty(m, k);
    assert(e.contexts.push(v).drop_last() =~= e.contexts);
    assert forall|u: ResourceKey|
        #![trigger spec_context(m, u)]
        #![trigger spec_resource(m, u)]
        spec_context(spec_pop_context(spec_push_context(m, k, v), k), u) == spec_context(m, u)
            && spec_resource(spec_pop_context(spec_push_context(m, k, v), k), u) == spec_resource(m, u) by {
        if u != k {
            lemma_keys_independent(m, k, u, v);
            lemma_keys_independent(spec_push_context(m, k, v), k, u, v);
        }
    }
}

/// A provider scope: `value` is pushed for `key` around the nested scopes, which run
/// in order, and popped after them.
pub struct ProviderScope<R> {
    pub key: ResourceKey,
    pub value: R,
    pub nested: Seq<ProviderScope<R>>,
}

/// The resources after running `scope`: push its value, run its nested scopes, pop.
pub open spec fn spec_run_scope<R>(m: Map<ResourceKey, ResourceEntryView<R>>, scope: ProviderScope<R>) -> Map<
    ResourceKey,
    ResourceEntryView<R>,
>
    decreases scope, 1int, 0int,
{
    spec_pop_context(
        spec_run_nested(spec_push_context(m, scope.key, scope.value), scope, scope.nested.len() as int),
        scope.key,
    )
}

/// The resources after running the first `n` nested scopes of `scope` in order.
pub open spec fn spec_run_nested<R>(
    m: Map<ResourceKey, ResourceEntryView<R>>,
    scope: ProviderScope<R>,
    n: int,
) -> Map<ResourceKey, ResourceEntryView<R>>
    decreases scope, 0int, n,
{
    if n <= 0 || n > scope.nested.len() {
        m
    } else {
        proof {
            assert(decreases_to!(scope => scope.nested));
            assert(decreases_to!(scope.nested => scope.nested[n - 1]));
        }
        spec_run_scope(spec_run_nested(m, scope, n - 1), scope.nested[n - 1])
    }
}

/// Providers nest: running a scope, whatever scopes it holds, restores the resources
/// exactly, so a subtree's provided values never leak to its siblings or its parent.
pub proof fn lemma_scope_restores<R>(m: Map<ResourceKey, ResourceEntryView<R>>, scope: ProviderScope<R>)
    requires
        spec_resources_wf(m),
    ensures
        spec_run_scope(m, scope) == m,
    decreases scope, 1int, 0int,
{
    let pushed = spec_push_context(m, scope.key, scope.value);
    lemma_ops_keep_wf(m, scope.key, scope.value);
    lemma_nested_restores(pushed, scope, scope.nested.len() as int);
    lemma_push_then_pop_restores(m, scope.key, scope.value);
}

proof fn lemma_nested_restores<R>(m: Map<ResourceKey, ResourceEntryView<R>>, scope: ProviderScope<R>, n: int)
    requires
        spec_resources_wf(m),
    ensures
        spec_run_nested(m, scope, n) == m,
    decreases scope, 0int, n,
{
    if n <= 0 || n > scope.nested.len() {
    } else {
        assert(decreases_to!(scope => scope.nested));
        assert(decreases_to!(scope.nested => scope.nested[n - 1]));
        lemma_nested_restores(m, scope, n - 1);
        lemma_scope_restores(m, scope.nested[n - 1]);
    }
}

/// Operations on one key keep the resources well formed.
pub proof fn lemma_ops_keep_wf<R>(m: Map<ResourceKey, ResourceEntryView<R>>, k: ResourceKey, v: R)
    requires
        spec_resources_wf(m),
    ensures
        spec_resources_wf(spec_insert_resource(m, k, v)),
        spec_resources_wf(spec_push_context(m, k, v)),
        spec_resources_wf(spec_pop_context(m, k)),
{
}

/// Popping a scoped value never removes the root value of the key.
pub proof fn lemma_pop_keeps_root<R>(m: Map<ResourceKey, ResourceEntryView<R>>, k: ResourceKey)
    requires
        m.contains_key(k),
        m[k].root is Some,
    ensures
        spec_pop_context(m, k).contains_key(k),
        spec_pop_context(m, k)[k].root == m[k].root,
{
}

/// Context lookups ignore root values: a key with only a root has no context.
pub proof fn lemma_context_ignores_root<R>(m: Map<ResourceKey, ResourceEntryView<R>>, k: ResourceKey, v: R)
    requires
        entry_or_empty(m, k).contexts.len() == 0,
    ensures
        spec_context(spec_insert_resource(m, k, v), k) is None,
        spec_resource(spec_insert_resource(m, k, v), k) == Some(v),
{
}

/// Operations on one key do not change what another key yields.
pub proof fn lemma_keys_independent<R>(m: Map<ResourceKey, ResourceEntryView<R>>, k: ResourceKey, other: ResourceKey, v: R)
    requires
        k != other,
    ensures
        spec_resource(spec_insert_resource(m, k, v), other) == spec_resource(m, other),
        spec_resource(spec_push_context(m, k, v), other) == spec_resource(m, other),
        spec_resource(spec_pop_context(m, k), other) == spec_resource(m, other),
        spec_context(spec_push_context(m, k, v), other) == spec_context(m, other),
        spec_context(spec_pop_context(m, k), other) == spec_context(m, other),
{
}

/// Commands emitted during painting.
#[derive(Clone, Copy, Debug, Default, PartialEq, Eq)]
pub struct PaintCommands {
    pub request_next_frame: bool,
    pub request_layout: bool,
}

impl PaintCommands {
    /// Combine another widget's requests into these.
    pub fn merge(&mut self, other: PaintCommands)
        ensures
            final(self).request_next_frame == (old(self).request_next_frame || other.request_next_frame),
            final(self).request_layout == (old(self).request_layout || other.request_layout),
    {
        self.request_next_frame = self.request_next_frame || other.request_next_frame;
        self.request_layout = self.request_layout || other.request_layout;
    }
}

/// Commands emitted by a widget during event handling.
#[derive(Clone, Debug, Default, PartialEq, Eq)]
pub struct EventCommands {
    pub stop_propagation: bool,
    pub capture_pointer: bool,
    pub release_pointer: bool,
    pub request_focus: bool,
    pub clear_focus: bool,
    pub request_layout: bool,
    pub request_paint: bool,
    pub clipboard_write: Option<String>,
}

/// The commands after merging `other` into `a`: flags accumulate, a newer clipboard write wins.
pub open spec fn spec_merge_event_commands(a: EventCommands, other: EventCommands) -> EventCommands {
    EventCommands {
        stop_propagation: a.stop_propagation || other.stop_propagation,
        capture_pointer: a.capture_pointer || other.capture_pointer,
        release_pointer: a.release_pointer || other.release_pointer,
        request_focus: a.request_focus || other.request_focus,
        clear_focus: a.clear_focus || other.clear_focus,
        request_layout: a.request_layout || other.request_layout,
        request_paint: a.request_paint || other.request_paint,
        clipboard_write: if other.clipboard_write is Some { other.clipboard_write } else { a.clipboard_write },
    }
}

impl EventCommands {
    /// Combine another handler's requests into these.
    pub fn merge(&mut self, other: EventCommands)
        ensures
            *final(self) == spec_merge_event_commands(*old(self), other),
    {
        self.stop_propagation = self.stop_propagation || other.stop_propagation;
        self.capture_pointer = self.capture_pointer || other.capture_pointer;
        self.release_pointer = self.release_pointer || other.release_pointer;
        self.request_focus = self.request_focus || other.request_focus;
        self.clear_focus = self.clear_focus || other.clear_focus;
        self.request_layout = self.request_layout || other.request_layout;
        self.request_paint = self.request_paint || other.request_paint;
        if other.clipboard_write.is_some() {
            self.clipboard_write = other.clipboard_write;
        }
    }
}

impl EventCommands {
    /// Commands that request nothing.
    pub fn none() -> (r: EventCommands)
        ensures
            r == no_event_commands(),
    {
        EventCommands {
            stop_propagation: false,
            capture_pointer: false,
            release_pointer: false,
            request_focus: false,
            clear_focus: false,
            request_layout: false,
            request_paint: false,
            clipboard_write: None,
        }
    }

    /// Stop the event from reaching further widgets.
    pub fn stop_propagation(&mut self)
        ensures
            *final(self) == (EventCommands { stop_propagation: true, ..*old(self) }),
    {
        self.stop_propagation = true;
    }

    /// Capture the pointer; capturing also repaints and stops propagation.
    pub fn capture_pointer(&mut self)
        ensures
            *final(self) == (EventCommands {
                capture_pointer: true,
                request_paint: true,
                stop_propagation: true,
                ..*old(self)
            }),
    {
        self.capture_pointer = true;
        self.request_paint = true;
        self.stop_propagation = true;
    }

    /// Release the pointer; releasing also repaints and stops propagation.
    pub fn release_pointer(&mut self)
        ensures
            *final(self) == (EventCommands {
                release_pointer: true,
                request_paint: true,
                stop_propagation: true,
                ..*old(self)
            }),
    {
        self.release_pointer = true;
        self.request_paint = true;
        self.stop_propagation = true;
    }

    /// Ask for a repaint.
    pub fn request_paint(&mut self)
        ensures
            *final(self) == (EventCommands { request_paint: true, ..*old(self) }),
    {
        self.request_paint = true;
    }

    /// Ask for a relayout, which also repaints.
    pub fn request_layout(&mut self)
        ensures
            *final(self) == (EventCommands { request_layout: true, request_paint: true, ..*old(self) }),
    {
        self.request_layout = true;
        self.request_paint = true;
    }

    /// Ask for `text` to be written to the platform clipboard.
    pub fn write_clipboard(&mut self, text: String)
        ensures
            *final(self) == (EventCommands { clipboard_write: Some(text), ..*old(self) }),
    {
        self.clipboard_write = Some(text);
    }
}

/// Commands that request nothing.
pub open spec fn no_event_commands() -> EventCommands {
    EventCommands {
        stop_propagation: false,
        capture_pointer: false,
        release_pointer: false,
        request_focus: false,
        clear_focus: false,
        request_layout: false,
        request_paint: false,
        clipboard_write: None,
    }
}

/// Merging commands that request nothing changes nothing.
pub proof fn lemma_merge_identity(a: EventCommands)
    ensures
        spec_merge_event_commands(a, no_event_commands()) == a,
{
}

/// Merging the same commands twice is the same as merging them once.
pub proof fn lemma_merge_idempotent(a: EventCommands, b: EventCommands)
    ensures
        spec_merge_event_commands(spec_merge_event_commands(a, b), b) == spec_merge_event_commands(a, b),
{
}

} // verus!
