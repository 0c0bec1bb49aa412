//! Per-path component state kept across rebuilds, and hook slots of a component.
use vstd::prelude::*;
use crate::context::{BuildContext, ResourceKey, spec_resource};

verus! {

/// Storage that the build pass uses to keep component state by widget path.
pub trait BuildStateStore<S> {
    /// Record that the widget at `path` exists in this rebuild.
    fn mark_path_used(&mut self, path: &[usize]);

    /// Remove and return the state stored for `path`.
    fn take_boxed_state(&mut self, path: &[usize]) -> Option<S>;

    /// Store `state` for `path`.
    fn store_boxed_state(&mut self, path: Vec<usize>, state: S);
}

/// The map an association list denotes: a later entry for a path wins.
pub open spec fn assoc_map<S>(s: Seq<(Vec<usize>, S)>) -> Map<Seq<usize>, S>
    decreases s.len(),
{
    if s.len() == 0 {
        Map::empty()
    } else {
        assoc_map(s.drop_last()).insert(s.last().0@, s.last().1)
    }
}

/// Whether an entry's path lies in `keep`.
pub open spec fn entry_kept<S>(keep: Set<Seq<usize>>, e: (Vec<usize>, S)) -> bool {
    keep.contains(e.0@)
}

/// Filtering an association list by path restricts the map it denotes.
pub proof fn lemma_assoc_filter<S>(s: Seq<(Vec<usize>, S)>, keep: Set<Seq<usize>>)
    ensures
        assoc_map(s.filter(|e: (Vec<usize>, S)| entry_kept(keep, e))) == assoc_map(s).restrict(keep),
    decreases s.len(),
{
    reveal_with_fuel(Seq::<_>::filter, 1);
    let f = |e: (Vec<usize>, S)| entry_kept(keep, e);
    if s.len() == 0 {
        assert(s.filter(f) =~= Seq::<(Vec<usize>, S)>::empty());
        assert(assoc_map(s).restrict(keep) =~= Map::empty());
        assert(assoc_map(s.filter(f)) =~= Map::empty());
    } else {
        lemma_assoc_filter(s.drop_last(), keep);
        let e = s.last();
        let rest = s.drop_last().filter(f);
        let m = assoc_map(s.drop_last());
        assert(s.filter(f) == if f(e) { rest.push(e) } else { rest });
        if keep.contains(e.0@) {
            assert(rest.push(e).drop_last() =~= rest);
            assert(assoc_map(rest.push(e)) == assoc_map(rest).insert(e.0@, e.1));
            assert(m.insert(e.0@, e.1).restrict(keep) =~= m.restrict(keep).insert(e.0@, e.1));
        } else {
            assert(m.insert(e.0@, e.1).restrict(keep) =~= m.restrict(keep));
        }
    }
}

/// Whether two paths are equal.
pub fn path_eq(a: &[usize], b: &[usize]) -> (r: bool)
    ensures
        r == (a@ == b@),
{
    if a.len() != b.len() {
        return false;
    }
    let mut i: usize = 0;
    while i < a.len()
        invariant
            i <= a@.len(),
            a@.len() == b@.len(),
            forall|j: int| 0 <= j < i ==> a@[j] == b@[j],
        decreases a@.len() - i,
    {
        if a[i] != b[i] {
            return false;
        }
        i += 1;
    }
    assert(a@ =~= b@);
    true
}

/// A copy of a path.
pub fn path_to_vec(path: &[usize]) -> (r: Vec<usize>)
    ensures
        r@ == path@,
{
    let mut out: Vec<usize> = Vec::new();
    let mut i: usize = 0;
    while i < path.len()
        invariant
            i <= path@.len(),
            out@ == path@.take(i as int),
        decreases path@.len() - i,
    {
        out.push(path[i]);
        assert(path@.take(i + 1) =~= path@.take(i as int).push(path@[i as int]));
        i += 1;
    }
    assert(path@.take(path@.len() as int) =~= path@);
    out
}

/// The set of paths a list holds.
pub open spec fn path_set(paths: Seq<Vec<usize>>) -> Set<Seq<usize>> {
    paths.map_values(|p: Vec<usize>| p@).to_set()
}

/// Whether `paths` holds `path`.
pub fn paths_contain(paths: &Vec<Vec<usize>>, path: &[usize]) -> (r: bool)
    ensures
        r == path_set(paths@).contains(path@),
{
    let ghost views = paths@.map_values(|p: Vec<usize>| p@);
    let mut i: usize = 0;
    while i < paths.len()
        invariant
            i <= paths@.len(),
            views == paths@.map_values(|p: Vec<usize>| p@),
            forall|j: int| 0 <= j < i ==> views[j] != path@,
        decreases paths@.len() - i,
    {
        if path_eq(paths[i].as_slice(), path) {
            assert(views[i as int] == path@);
            return true;
        }
        i += 1;
    }
    assert(!views.contains(path@));
    false
}

/// State of rebuilt components, keyed by widget path, with the paths seen in this rebuild.
pub struct ComponentStateStore<S> {
    states: Vec<(Vec<usize>, S)>,
    used_paths: Vec<Vec<usize>>,
}

/// The stored states by path, and the paths used in the current rebuild.
pub struct ComponentStoreView<S> {
    pub states: Map<Seq<usize>, S>,
    pub used: Set<Seq<usize>>,
}

impl<S> View for ComponentStateStore<S> {
    type V = ComponentStoreView<S>;

    closed spec fn view(&self) -> ComponentStoreView<S> {
        ComponentStoreView { states: assoc_map(self.states@), used: path_set(self.used_paths@) }
    }
}

/// Drain `states`, keeping the entries whose path is in `keep` (in order) and returning the
/// last dropped value stored for `key`.
fn drain_keep<S>(states: Vec<(Vec<usize>, S)>, keep: Ghost<Set<Seq<usize>>>, key: &[usize]) -> (r: (
    Vec<(Vec<usize>, S)>,
    Option<S>,
))
    requires
        !keep@.contains(key@),
        forall|p: Seq<usize>| p != key@ ==> keep@.contains(p),
    ensures
        r.0@ == states@.filter(|e: (Vec<usize>, S)| entry_kept(keep@, e)),
        r.1 == (if assoc_map(states@).contains_key(key@) {
            Some(assoc_map(states@)[key@])
        } else {
            None
        }),
{
    let ghost orig = states@;
    let ghost pred = |e: (Vec<usize>, S)| entry_kept(keep@, e);
    let mut rest = states;
    let _n = rest.len();
    let mut kept: Vec<(Vec<usize>, S)> = Vec::new();
    let mut found: Option<S> = None;
    let mut j: usize = 0;
    while rest.len() > 0
        invariant
            j <= orig.len(),
            rest@ == orig.skip(j as int),
            j + rest@.len() == orig.len(),
            orig.len() <= usize::MAX,
            kept@ == orig.take(j as int).filter(pred),
            pred == (|e: (Vec<usize>, S)| entry_kept(keep@, e)),
            !keep@.contains(key@),
            forall|p: Seq<usize>| p != key@ ==> keep@.contains(p),
            found == (if assoc_map(orig.take(j as int)).contains_key(key@) {
                Some(assoc_map(orig.take(j as int))[key@])
            } else {
                None
            }),
        decreases rest@.len(),
    {
        let entry = rest.remove(0);
        proof {
            reveal_with_fuel(Seq::<_>::filter, 1);
            assert(orig.take(j + 1).drop_last() =~= orig.take(j as int));
            assert(orig.take(j + 1).last() == orig[j as int]);
            assert(orig[j as int] == entry);
            assert(rest@ =~= orig.skip(j + 1));
        }
        if path_eq(entry.0.as_slice(), key) {
            found = Some(entry.1);
        } else {
            kept.push(entry);
        }
        j += 1;
    }
    assert(orig.take(j as int) =~= orig);
    (kept, found)
}

impl<S> ComponentStateStore<S> {
    /// An empty store.
    pub fn new() -> (r: Self)
        ensures
            r@.states == Map::<Seq<usize>, S>::empty(),
            r@.used == Set::<Seq<usize>>::empty(),
    {
        let r = ComponentStateStore { states: Vec::new(), used_paths: Vec::new() };
        assert(r@.used =~= Set::<Seq<usize>>::empty());
        r
    }

    /// Start a rebuild: no path is used yet.
    pub fn begin_rebuild(&mut self)
        ensures
            final(self)@.states == old(self)@.states,
            final(self)@.used == Set::<Seq<usize>>::empty(),
    {
        self.used_paths = Vec::new();
        assert(self@.used =~= Set::<Seq<usize>>::empty());
    }

    /// Finish a rebuild: drop the state of every path the rebuild did not use.
    pub fn finish_rebuild(&mut self)
        ensures
            final(self)@.states == old(self)@.states.restrict(old(self)@.used),
            final(self)@.used == old(self)@.used,
    {
        let ghost used = self@.used;
        let ghost orig = self.states@;
        let ghost pred = |e: (Vec<usize>, S)| entry_kept(used, e);
        let mut rest: Vec<(Vec<usize>, S)> = Vec::new();
        std::mem::swap(&mut rest, &mut self.states);
        let total = rest.len();
        let mut kept: Vec<(Vec<usize>, S)> = Vec::new();
        let mut j: usize = 0;
        while rest.len() > 0
            invariant
                j <= orig.len(),
                rest@ == orig.skip(j as int),
                j + rest@.len() == orig.len(),
                orig.len() == total,
                kept@ == orig.take(j as int).filter(pred),
                pred == (|e: (Vec<usize>, S)| entry_kept(used, e)),
                used == path_set(self.used_paths@),
            decreases rest@.len(),
        {
            let entry = rest.remove(0);
            proof {
                reveal_with_fuel(Seq::<_>::filter, 1);
                assert(orig.take(j + 1).drop_last() =~= orig.take(j as int));
                assert(orig.take(j + 1).last() == orig[j as int]);
                assert(orig[j as int] == entry);
                assert(rest@ =~= orig.skip(j + 1));
            }
            if paths_contain(&self.used_paths, entry.0.as_slice()) {
                kept.push(entry);
            }
            j += 1;
        }
        assert(orig.take(j as int) =~= orig);
        proof {
            lemma_assoc_filter(orig, used);
        }
        self.states = kept;
    }
}

impl<S> BuildStateStore<S> for ComponentStateStore<S> {
    /// Record that `path` exists in this rebuild.
    fn mark_path_used(&mut self, path: &[usize])
        ensures
            final(self)@.states == old(self)@.states,
            final(self)@.used == old(self)@.used.insert(path@),
    {
        let p = path_to_vec(path);
        self.used_paths.push(p);
        proof {
            let old_views = old(self).used_paths@.map_values(|q: Vec<usize>| q@);
            assert(self.used_paths@.map_values(|q: Vec<usize>| q@) =~= old_views.push(path@));
            assert forall|x: Seq<usize>| old_views.push(path@).contains(x) <==> (old_views.contains(x) || x == path@) by {
                if old_views.contains(x) {
                    let k = choose|k: int| 0 <= k < old_views.len() && old_views[k] == x;
                    assert(old_views.push(path@)[k] == x);
                }
                if x == path@ {
                    assert(old_views.push(path@)[old_views.len() as int] == x);
                }
                if old_views.push(path@).contains(x) {
                    let k = choose|k: int| 0 <= k < old_views.len() + 1 && old_views.push(path@)[k] == x;
                    if k < old_views.len() {
                        assert(old_views[k] == x);
                    }
                }
            }
            assert forall|x: Seq<usize>| old_views.push(path@).to_set().contains(x) <==> old_views.to_set().insert(path@).contains(x) by {
                assert(old_views.push(path@).contains(x) <==> (old_views.contains(x) || x == path@));
            }
            assert(old_views.push(path@).to_set() =~= old_views.to_set().insert(path@));
        }
    }

    /// Remove and return the state stored for `path`.
    fn take_boxed_state(&mut self, path: &[usize]) -> (r: Option<S>)
        ensures
            r == (if old(self)@.states.contains_key(path@) {
                Some(old(self)@.states[path@])
            } else {
                None
            }),
            final(self)@.states == old(self)@.states.remove(path@),
            final(self)@.used == old(self)@.used,
    {
        let ghost keep = Set::new(|p: Seq<usize>| p != path@);
        let ghost orig = self.states@;
        let mut states: Vec<(Vec<usize>, S)> = Vec::new();
        std::mem::swap(&mut states, &mut self.states);
        let (kept, found) = drain_keep(states, Ghost(keep), path);
        proof {
            lemma_assoc_filter(orig, keep);
            assert(assoc_map(orig).restrict(keep) =~= assoc_map(orig).remove(path@));
        }
        self.states = kept;
        found
    }

    /// Store `state` for `path`, replacing what was there.
    fn store_boxed_state(&mut self, path: Vec<usize>, state: S)
        ensures
            final(self)@.states == old(self)@.states.insert(path@, state),
            final(self)@.used == old(self)@.used,
    {
        let ghost keep = Set::new(|p: Seq<usize>| p != path@);
        let ghost orig = self.states@;
        let mut states: Vec<(Vec<usize>, S)> = Vec::new();
        std::mem::swap(&mut states, &mut self.states);
        let (mut kept, _found) = drain_keep(states, Ghost(keep), path.as_slice());
        let ghost key = path@;
        kept.push((path, state));
        proof {
            lemma_assoc_filter(orig, keep);
            assert(assoc_map(orig).restrict(keep) =~= assoc_map(orig).remove(key));
            assert(kept@.drop_last() == orig.filter(|e: (Vec<usize>, S)| entry_kept(keep, e)));
            assert(assoc_map(orig).remove(key).insert(key, state) =~= assoc_map(orig).insert(key, state));
        }
        self.states = kept;
    }
}

/// A rebuild keeps exactly the state of the paths it used: state stored for a path
/// during the rebuild survives, and state of a path the rebuild never touched is gone.
pub proof fn lemma_rebuild_keeps_used_state<S>(
    states: Map<Seq<usize>, S>,
    used: Set<Seq<usize>>,
    p: Seq<usize>,
)
    ensures
        used.contains(p) && states.contains_key(p) ==> states.restrict(used).contains_key(p)
            && states.restrict(used)[p] == states[p],
        !used.contains(p) ==> !states.restrict(used).contains_key(p),
{
}

/// Taking the state of a path and storing it back restores the store's states.
pub proof fn lemma_take_then_store_restores<S>(states: Map<Seq<usize>, S>, p: Seq<usize>)
    requires
        states.contains_key(p),
    ensures
        states.remove(p).insert(p, states[p]) == states,
{
    assert(states.remove(p).insert(p, states[p]) =~= states);
}

/// The hook slots of one component, in call order.
pub struct StoredComponentState<H> {
    hooks: Vec<H>,
    active_hooks: usize,
}

/// The hook values and how many hooks the last render called.
pub struct StoredComponentView<H> {
    pub hooks: Seq<H>,
    pub active_hooks: nat,
}

impl<H> View for StoredComponentState<H> {
    type V = StoredComponentView<H>;

    closed spec fn view(&self) -> StoredComponentView<H> {
        StoredComponentView { hooks: self.hooks@, active_hooks: self.active_hooks as nat }
    }
}

impl<H> Default for StoredComponentState<H> {
    fn default() -> (r: Self)
        ensures
            r@.hooks.len() == 0,
            r@.active_hooks == 0,
    {
        StoredComponentState { hooks: Vec::new(), active_hooks: 0 }
    }
}

impl<H> StoredComponentState<H> {
    /// The hook at `index`, created by `init` when `index` is the next new slot.
    pub fn hook<F: FnOnce() -> H>(&mut self, index: usize, init: F) -> (r: &mut H)
        requires
            index <= old(self)@.hooks.len(),
            index == old(self)@.hooks.len() ==> call_requires(init, ()),
        ensures
            index < old(self)@.hooks.len() ==> *r == old(self)@.hooks[index as int]
                && final(self)@.hooks == old(self)@.hooks.update(index as int, *final(r)),
            index == old(self)@.hooks.len() ==> call_ensures(init, (), *r)
                && final(self)@.hooks == old(self)@.hooks.push(*final(r)),
            final(self)@.active_hooks == old(self)@.active_hooks,
    {
        if index == self.hooks.len() {
            let value = init();
            self.hooks.push(value);
        }
        &mut self.hooks[index]
    }

    /// Record how many hooks the render called.
    pub fn set_active_hooks(&mut self, active: usize)
        ensures
            final(self)@.hooks == old(self)@.hooks,
            final(self)@.active_hooks == active,
    {
        self.active_hooks = active;
    }

    /// Drop the hooks past the ones the render called.
    pub fn truncate_to_active(&mut self)
        ensures
            final(self)@.active_hooks == old(self)@.active_hooks,
            old(self)@.active_hooks <= old(self)@.hooks.len() ==> final(self)@.hooks == old(self)@.hooks.take(
                old(self)@.active_hooks as int,
            ),
            old(self)@.active_hooks > old(self)@.hooks.len() ==> final(self)@.hooks == old(self)@.hooks,
    {
        self.hooks.truncate(self.active_hooks);
    }
}

/// Build-time context passed to function components: the rebuild context, the
/// component's hook slots, and the position of the next hook call.
pub struct ComponentContext<'a, Th, R, H> {
    build: &'a mut BuildContext<Th, R>,
    state: &'a mut StoredComponentState<H>,
    hook_index: usize,
}

impl<'a, Th, R, H> ComponentContext<'a, Th, R, H> {
    /// The rebuild context this component renders in.
    pub closed spec fn spec_build(&self) -> &'a mut BuildContext<Th, R> {
        self.build
    }

    /// The component's hook slots.
    pub closed spec fn spec_state(&self) -> &'a mut StoredComponentState<H> {
        self.state
    }

    /// How many hooks this render has called so far.
    pub closed spec fn spec_hook_index(&self) -> nat {
        self.hook_index as nat
    }

    /// Start a render: no hook called yet.
    pub fn new(build: &'a mut BuildContext<Th, R>, state: &'a mut StoredComponentState<H>) -> (r: Self)
        ensures
            *r.spec_build() == *old(build),
            *final(r.spec_build()) == *final(build),
            (*r.spec_state())@.hooks == old(state)@.hooks,
            (*r.spec_state())@.active_hooks == 0,
            *final(r.spec_state()) == *final(state),
            r.spec_hook_index() == 0,
    {
        state.set_active_hooks(0);
        ComponentContext { build, state, hook_index: 0 }
    }

    /// How many hooks this render has called so far.
    pub fn hook_index(&self) -> (r: usize)
        ensures
            r == self.spec_hook_index(),
    {
        self.hook_index
    }

    /// The next hook slot, in call order; a slot this render reaches for the first time is
    /// created by `init`.
    pub fn next_hook<F: FnOnce() -> H>(&mut self, init: F) -> (r: &mut H)
        requires
            old(self).spec_hook_index() <= (*old(self).spec_state())@.hooks.len(),
            old(self).spec_hook_index() < usize::MAX,
            old(self).spec_hook_index() == (*old(self).spec_state())@.hooks.len() ==> call_requires(init, ()),
        ensures
            final(self).spec_hook_index() == old(self).spec_hook_index() + 1,
            (*final(self).spec_state())@.active_hooks == old(self).spec_hook_index() + 1,
            old(self).spec_hook_index() < (*old(self).spec_state())@.hooks.len() ==> {
                &&& *r == (*old(self).spec_state())@.hooks[old(self).spec_hook_index() as int]
                &&& (*final(self).spec_state())@.hooks == (*old(self).spec_state())@.hooks.update(
                    old(self).spec_hook_index() as int,
                    *final(r),
                )
            },
            old(self).spec_hook_index() == (*old(self).spec_state())@.hooks.len() ==> {
                &&& call_ensures(init, (), *r)
                &&& (*final(self).spec_state())@.hooks == (*old(self).spec_state())@.hooks.push(*final(r))
            },
            *final(self).spec_build() == *old(self).spec_build(),
            *final(final(self).spec_build()) == *final(old(self).spec_build()),
            *final(final(self).spec_state()) == *final(old(self).spec_state()),
    {
        let index = self.hook_index;
        self.hook_index = self.hook_index + 1;
        self.state.set_active_hooks(self.hook_index);
        self.state.hook(index, init)
    }

    /// The resolved theme, else `current` (the process-wide current theme).
    pub fn theme(&self, current: Th) -> (r: Th)
        where
            Th: Clone,
        ensures
            (*self.spec_build())@.theme matches Some(t) ==> cloned(t, r),
            (*self.spec_build())@.theme is None ==> r == current,
    {
        self.build.theme(current)
    }

    /// The viewport resource stored under `key`, else `current` (the process-wide viewport).
    pub fn viewport(&self, key: ResourceKey, current: R) -> (r: R)
        where
            R: Clone,
        ensures
            spec_resource((*self.spec_build())@.resources, key) matches Some(v) ==> cloned(v, r),
            spec_resource((*self.spec_build())@.resources, key) is None ==> r == current,
    {
        match self.build.resource(key) {
            Some(v) => v,
            None => current,
        }
    }

    /// The task runtime resource stored under `key`, else `current` (the process-wide runtime).
    pub fn task_runtime(&self, key: ResourceKey, current: R) -> (r: R)
        where
            R: Clone,
        ensures
            spec_resource((*self.spec_build())@.resources, key) matches Some(v) ==> cloned(v, r),
            spec_resource((*self.spec_build())@.resources, key) is None ==> r == current,
    {
        match self.build.resource(key) {
            Some(v) => v,
            None => current,
        }
    }
}

/// Start rebuilding the component at the context's path: take the hook slots stored for
/// it, or start with none.
pub fn begin_component_rebuild<Th, R, H>(
    ctx: &BuildContext<Th, R>,
    store: &mut ComponentStateStore<StoredComponentState<H>>,
) -> (r: StoredComponentState<H>)
    ensures
        old(store)@.states.contains_key(ctx@.path) ==> r == old(store)@.states[ctx@.path],
        !old(store)@.states.contains_key(ctx@.path) ==> r@.hooks.len() == 0 && r@.active_hooks == 0,
        final(store)@.states == old(store)@.states.remove(ctx@.path),
        final(store)@.used == old(store)@.used.insert(ctx@.path),
{
    match ctx.take_boxed_state(store) {
        Some(state) => state,
        None => StoredComponentState::default(),
    }
}

/// Finish rebuilding the component at the context's path: drop the hook slots past the
/// ones the render called and store the rest for the next rebuild.
pub fn finish_component_rebuild<Th, R, H>(
    ctx: &BuildContext<Th, R>,
    store: &mut ComponentStateStore<StoredComponentState<H>>,
    state: StoredComponentState<H>,
)
    ensures
        final(store)@.states.contains_key(ctx@.path),
        final(store)@.states[ctx@.path]@.active_hooks == state@.active_hooks,
        state@.active_hooks <= state@.hooks.len() ==> final(store)@.states[ctx@.path]@.hooks
            == state@.hooks.take(state@.active_hooks as int),
        state@.active_hooks > state@.hooks.len() ==> final(store)@.states[ctx@.path]@.hooks
            == state@.hooks,
        forall|p: Seq<usize>| p != ctx@.path ==> (#[trigger] final(store)@.states.contains_key(p)
            <==> old(store)@.states.contains_key(p)) && (old(store)@.states.contains_key(p)
            ==> final(store)@.states[p] == old(store)@.states[p]),
        final(store)@.used == old(store)@.used.insert(ctx@.path),
{
    let mut state = state;
    state.truncate_to_active();
    ctx.store_boxed_state(store, state);
}

} // verus!
