//! The items of a list: owned widgets, or a virtualized range realized on demand from an
//! item builder, with spacers standing for the items before and after the range.
use vstd::prelude::*;
use std::collections::HashMap;

verus! {

broadcast use vstd::std_specs::hash::group_hash_axioms;

/// Path key of the spacer before the realized items.
pub const TOP_SPACER_KEY: usize = usize::MAX - 1;

/// Path key of the spacer after the realized items.
pub const BOTTOM_SPACER_KEY: usize = usize::MAX;

/// Whether a path key stands for a spacer rather than an item.
pub open spec fn is_spacer_key(k: usize) -> bool {
    k == TOP_SPACER_KEY || k == BOTTOM_SPACER_KEY
}

/// The items to realize: the visible ones widened by `overscan` on each side, clamped to
/// the item count.
pub open spec fn spec_realized_range(first: nat, last: nat, overscan: nat, count: nat) -> (nat, nat) {
    let start = if first >= overscan { (first - overscan) as nat } else { 0 };
    let end = last + overscan;
    (if start < count { start } else { count }, if end < count { end } else { count })
}

/// Compute the realized range from the first and last visible item.
pub fn realized_range(first_visible: usize, last_visible: usize, overscan: usize, item_count: usize) -> (r: (
    usize,
    usize,
))
    requires
        last_visible + overscan <= usize::MAX,
    ensures
        (r.0 as nat, r.1 as nat) == spec_realized_range(
            first_visible as nat,
            last_visible as nat,
            overscan as nat,
            item_count as nat,
        ),
{
    let start = first_visible.saturating_sub(overscan);
    let start = if start < item_count { start } else { item_count };
    let end = last_visible + overscan;
    let end = if end < item_count { end } else { item_count };
    (start, end)
}

/// The path keys of a realized list: a top spacer when items precede the range, the
/// item indices of the range, a bottom spacer when items follow it.
pub open spec fn spec_realized_keys(start: nat, end: nat, count: nat) -> Seq<usize> {
    (if start > 0 { seq![TOP_SPACER_KEY] } else { Seq::empty() })
        + Seq::new(if end > start { (end - start) as nat } else { 0 }, |i: int| (start + i) as usize)
        + (if end < count { seq![BOTTOM_SPACER_KEY] } else { Seq::empty() })
}

/// The children a previous realization leaves for reuse, by item index: spacers are
/// dropped, and a later child for the same key wins.
pub open spec fn reusable<W>(keys: Seq<usize>, children: Seq<W>) -> Map<usize, W>
    decreases keys.len(),
{
    if keys.len() == 0 {
        Map::empty()
    } else {
        let n = keys.len() - 1;
        let rest = reusable(keys.take(n), children.take(n));
        if is_spacer_key(keys[n]) {
            rest
        } else {
            rest.insert(keys[n], children[n])
        }
    }
}

proof fn lemma_reusable_step<W>(keys: Seq<usize>, children: Seq<W>, i: int, m: Map<usize, W>)
    requires
        0 < i <= keys.len(),
        keys.len() == children.len(),
    ensures
        ({
            let k = keys[i - 1];
            let c = children[i - 1];
            let next = if is_spacer_key(k) || m.contains_key(k) { m } else { m.insert(k, c) };
            reusable(keys.take(i), children.take(i)).union_prefer_right(m)
                == reusable(keys.take(i - 1), children.take(i - 1)).union_prefer_right(next)
        }),
{
    let k = keys[i - 1];
    let c = children[i - 1];
    let kt = keys.take(i);
    let ct = children.take(i);
    assert(kt.take(i - 1) =~= keys.take(i - 1));
    assert(ct.take(i - 1) =~= children.take(i - 1));
    assert(kt[i - 1] == k);
    assert(ct[i - 1] == c);
    let base = reusable(keys.take(i - 1), children.take(i - 1));
    let next = if is_spacer_key(k) || m.contains_key(k) { m } else { m.insert(k, c) };
    if is_spacer_key(k) {
        assert(reusable(kt, ct) == base);
    } else {
        assert(reusable(kt, ct) == base.insert(k, c));
        assert(base.insert(k, c).union_prefer_right(m) =~= base.union_prefer_right(next));
    }
}

/// Take the old children apart into the map of reusable ones.
fn collect_reusable<W>(keys: Vec<usize>, children: Vec<W>) -> (r: HashMap<usize, W>)
    requires
        keys@.len() == children@.len(),
    ensures
        r@ == reusable(keys@, children@),
{
    let ghost all_keys = keys@;
    let ghost all_children = children@;
    let mut keys = keys;
    let mut children = children;
    let mut map: HashMap<usize, W> = HashMap::new();
    while keys.len() > 0
        invariant
            keys@.len() == children@.len(),
            keys@.len() <= all_keys.len(),
            all_keys.len() == all_children.len(),
            keys@ == all_keys.take(keys@.len() as int),
            children@ == all_children.take(children@.len() as int),
            reusable(all_keys, all_children) == reusable(keys@, children@).union_prefer_right(map@),
        decreases keys@.len(),
    {
        let ghost i = keys@.len() as int;
        proof {
            lemma_reusable_step(all_keys, all_children, i, map@);
            assert(all_keys.take(i) == keys@);
            assert(all_children.take(i) == children@);
        }
        let k = keys.pop().unwrap();
        let c = children.pop().unwrap();
        proof {
            assert(k == all_keys[i - 1]);
            assert(c == all_children[i - 1]);
            assert(keys@ =~= all_keys.take(i - 1));
            assert(children@ =~= all_children.take(i - 1));
        }
        if !(k == TOP_SPACER_KEY || k == BOTTOM_SPACER_KEY) && !map.contains_key(&k) {
            map.insert(k, c);
        }
    }
    proof {
        assert(keys@.len() == 0);
        assert(reusable(keys@, children@) == Map::<usize, W>::empty());
        assert(Map::<usize, W>::empty().union_prefer_right(map@) =~= map@);
    }
    map
}

/// In a sequence of distinct keys, the reusable child of an item key is the child that
/// was realized under it.
pub proof fn lemma_reusable_finds_distinct_keys<W>(keys: Seq<usize>, children: Seq<W>, j: int)
    requires
        keys.len() == children.len(),
        keys.no_duplicates(),
        0 <= j < keys.len(),
        !is_spacer_key(keys[j]),
    ensures
        reusable(keys, children).contains_key(keys[j]),
        reusable(keys, children)[keys[j]] == children[j],
    decreases keys.len(),
{
    let n = keys.len() - 1;
    if j < n {
        let kt = keys.take(n);
        let ct = children.take(n);
        assert(kt[j] == keys[j]);
        assert(ct[j] == children[j]);
        assert(kt.no_duplicates()) by {
            assert forall|a: int, b: int| 0 <= a < kt.len() && 0 <= b < kt.len() && a != b implies kt[a] != kt[b] by {
                assert(kt[a] == keys[a] && kt[b] == keys[b]);
            }
        }
        lemma_reusable_finds_distinct_keys(kt, ct, j);
        assert(keys[n] != keys[j]);
    }
}

/// The keys of a realized list are distinct.
pub proof fn lemma_realized_keys_distinct(start: nat, end: nat, count: nat)
    requires
        end <= count <= TOP_SPACER_KEY,
    ensures
        spec_realized_keys(start, end, count).no_duplicates(),
{
    let keys = spec_realized_keys(start, end, count);
    let lead: int = if start > 0 { 1 } else { 0 };
    let n: int = if end > start { end - start } else { 0 };
    assert forall|a: int, b: int| 0 <= a < keys.len() && 0 <= b < keys.len() && a != b implies keys[a] != keys[b] by {
        if lead <= a < lead + n {
            assert(keys[a] == (start + (a - lead)) as usize);
        }
        if lead <= b < lead + n {
            assert(keys[b] == (start + (b - lead)) as usize);
        }
    }
}

/// Scrolling keeps what stays in view: a list realized for `start..end` offers, for every
/// item of that range, the very child realized for it.
pub proof fn lemma_realized_children_are_reusable<W>(start: nat, end: nat, count: nat, children: Seq<W>, k: nat)
    requires
        end <= count <= TOP_SPACER_KEY,
        children.len() == spec_realized_keys(start, end, count).len(),
        start <= k < end,
    ensures
        ({
            let keys = spec_realized_keys(start, end, count);
            let slot = (if start > 0 { 1int } else { 0int }) + (k - start);
            &&& keys[slot] == k as usize
            &&& reusable(keys, children).contains_key(k as usize)
            &&& reusable(keys, children)[k as usize] == children[slot]
        }),
{
    let keys = spec_realized_keys(start, end, count);
    let slot = (if start > 0 { 1int } else { 0int }) + (k - start);
    assert(keys[slot] == k as usize);
    lemma_realized_keys_distinct(start, end, count);
    lemma_reusable_finds_distinct_keys(keys, children, slot);
}

/// A realized child for item `k` is the reusable child for `k` when there is one,
/// else what the builder made for `k`.
pub open spec fn realized_child_ok<W, F: Fn(usize) -> W>(
    old: Map<usize, W>,
    builder: F,
    k: usize,
    child: W,
) -> bool {
    if old.contains_key(k) {
        child == old[k]
    } else {
        call_ensures(builder, (k,), child)
    }
}

/// A virtualized list: the item count, how many items beyond the visible ones are
/// realized, the item builder, and the realized children with their path keys.
pub struct VirtualizedItems<W, F> {
    item_count: usize,
    overscan: usize,
    builder: F,
    child_keys: Vec<usize>,
    children: Vec<W>,
    realized_start: usize,
    realized_end: usize,
}

impl<W, F: Fn(usize) -> W> VirtualizedItems<W, F> {
    /// Keys and children pair up, item indices stay clear of the spacer keys, and the
    /// builder accepts every index.
    pub open spec fn wf(&self) -> bool {
        &&& self.spec_keys().len() == self.spec_children().len()
        &&& self.spec_item_count() <= TOP_SPACER_KEY
        &&& forall|i: usize| call_requires(self.spec_builder(), (i,))
    }

    pub closed spec fn spec_item_count(&self) -> nat {
        self.item_count as nat
    }

    pub closed spec fn spec_overscan(&self) -> nat {
        self.overscan as nat
    }

    pub closed spec fn spec_builder(&self) -> F {
        self.builder
    }

    pub closed spec fn spec_keys(&self) -> Seq<usize> {
        self.child_keys@
    }

    pub closed spec fn spec_children(&self) -> Seq<W> {
        self.children@
    }

    pub closed spec fn spec_range(&self) -> (nat, nat) {
        (self.realized_start as nat, self.realized_end as nat)
    }

    /// A list of `item_count` items built on demand by `builder`, realizing two items
    /// beyond the visible ones, with nothing realized yet.
    pub fn new(item_count: usize, builder: F) -> (r: Self)
        requires
            item_count <= TOP_SPACER_KEY,
            forall|i: usize| call_requires(builder, (i,)),
        ensures
            r.wf(),
            r.spec_item_count() == item_count,
            r.spec_overscan() == 2,
            r.spec_builder() == builder,
            r.spec_keys().len() == 0,
            r.spec_range() == (0nat, 0nat),
    {
        VirtualizedItems {
            item_count,
            overscan: 2,
            builder,
            child_keys: Vec::new(),
            children: Vec::new(),
            realized_start: 0,
            realized_end: 0,
        }
    }

    /// Realize `overscan` items beyond the visible ones on each side.
    pub fn set_overscan(&mut self, overscan: usize)
        requires
            old(self).wf(),
        ensures
            final(self).wf(),
            final(self).spec_overscan() == overscan,
            final(self).spec_item_count() == old(self).spec_item_count(),
            final(self).spec_builder() == old(self).spec_builder(),
            final(self).spec_keys() == old(self).spec_keys(),
            final(self).spec_children() == old(self).spec_children(),
            final(self).spec_range() == old(self).spec_range(),
    {
        self.overscan = overscan;
        proof {
            assert(self.spec_builder() == old(self).spec_builder());
            assert forall|i: usize| call_requires(self.spec_builder(), (i,)) by {
                assert(call_requires(old(self).spec_builder(), (i,)));
            }
        }
    }

    /// Build every item, in order.
    pub fn materialize(self) -> (r: Vec<W>)
        requires
            self.wf(),
        ensures
            r@.len() == self.spec_item_count(),
            forall|i: int| 0 <= i < r@.len() ==> call_ensures(self.spec_builder(), (i as usize,), #[trigger] r@[i]),
    {
        let mut items: Vec<W> = Vec::new();
        let mut i: usize = 0;
        proof {
            assert forall|i: usize| call_requires(self.builder, (i,)) by {
                assert(call_requires(self.spec_builder(), (i,)));
            }
        }
        while i < self.item_count
            invariant
                i <= self.item_count,
                items@.len() == i,
                forall|i: usize| call_requires(self.builder, (i,)),
                forall|j: int| 0 <= j < items@.len() ==> call_ensures(self.builder, (j as usize,), #[trigger] items@[j]),
            decreases self.item_count - i,
        {
            let item = (self.builder)(i);
            items.push(item);
            i += 1;
        }
        items
    }

    /// How many items the list has.
    pub fn item_count(&self) -> (r: usize)
        ensures
            r == self.spec_item_count(),
    {
        self.item_count
    }

    /// How many items beyond the visible ones are realized on each side.
    pub fn overscan(&self) -> (r: usize)
        ensures
            r == self.spec_overscan(),
    {
        self.overscan
    }

    /// The realized item range, `start..end`.
    pub fn realized_range(&self) -> (r: (usize, usize))
        ensures
            (r.0 as nat, r.1 as nat) == self.spec_range(),
    {
        (self.realized_start, self.realized_end)
    }

    /// The path keys of the realized children.
    pub fn child_keys(&self) -> (r: &[usize])
        ensures
            r@ == self.spec_keys(),
    {
        self.child_keys.as_slice()
    }

    /// The realized children.
    pub fn children(&self) -> (r: &[W])
        ensures
            r@ == self.spec_children(),
    {
        self.children.as_slice()
    }

    /// The slot of the child with path key `key`, if it is realized.
    pub fn child_slot_for_key(&self, key: usize) -> (r: Option<usize>)
        ensures
            match r {
                Some(i) => i < self.spec_keys().len() && self.spec_keys()[i as int] == key
                    && forall|j: int| 0 <= j < i ==> self.spec_keys()[j] != key,
                None => forall|j: int| 0 <= j < self.spec_keys().len() ==> self.spec_keys()[j] != key,
            },
    {
        let mut i: usize = 0;
        while i < self.child_keys.len()
            invariant
                i <= self.spec_keys().len(),
                self.spec_keys() == self.child_keys@,
                forall|j: int| 0 <= j < i ==> self.spec_keys()[j] != key,
            decreases self.child_keys@.len() - i,
        {
            if self.child_keys[i] == key {
                return Some(i);
            }
            i += 1;
        }
        None
    }

    /// Realize the children for the visible items `first_visible..=last_visible`: the
    /// widened range gets its items, reusing children realized before, and spacers made
    /// by `make_spacer(is_top, items_covered)` stand for the items outside it.
    pub fn update_realized<G: Fn(bool, usize) -> W>(
        &mut self,
        first_visible: usize,
        last_visible: usize,
        make_spacer: &G,
    )
        requires
            old(self).wf(),
            last_visible + old(self).spec_overscan() <= usize::MAX,
            forall|top: bool, n: usize| call_requires(*make_spacer, (top, n)),
        ensures
            final(self).wf(),
            final(self).spec_item_count() == old(self).spec_item_count(),
            final(self).spec_overscan() == old(self).spec_overscan(),
            final(self).spec_builder() == old(self).spec_builder(),
            ({
                let (start, end) = spec_realized_range(
                    first_visible as nat,
                    last_visible as nat,
                    old(self).spec_overscan(),
                    old(self).spec_item_count(),
                );
                let count = old(self).spec_item_count();
                let keys = final(self).spec_keys();
                let children = final(self).spec_children();
                let old_map = reusable(old(self).spec_keys(), old(self).spec_children());
                &&& final(self).spec_range() == (start, end)
                &&& keys == spec_realized_keys(start, end, count)
                &&& start > 0 ==> call_ensures(*make_spacer, (true, start as usize), children[0])
                &&& end < count ==> call_ensures(
                    *make_spacer,
                    (false, (count - end) as usize),
                    children[children.len() - 1],
                )
                &&& forall|j: int|
                    0 <= j < keys.len() && !is_spacer_key(#[trigger] keys[j]) ==> realized_child_ok(
                        old_map,
                        old(self).spec_builder(),
                        keys[j],
                        children[j],
                    )
            }),
    {
        let count = self.item_count;
        let (start, end) = realized_range(first_visible, last_visible, self.overscan, count);
        let mut old_keys: Vec<usize> = Vec::new();
        let mut old_children: Vec<W> = Vec::new();
        std::mem::swap(&mut old_keys, &mut self.child_keys);
        std::mem::swap(&mut old_children, &mut self.children);
        let ghost old_map = reusable(old_keys@, old_children@);
        let mut realized = collect_reusable(old_keys, old_children);
        let mut keys: Vec<usize> = Vec::new();
        let mut children: Vec<W> = Vec::new();
        if start > 0 {
            keys.push(TOP_SPACER_KEY);
            children.push(make_spacer(true, start));
        }
        let ghost lead = keys@;
        let ghost offset = keys@.len() as int;
        proof {
            assert(self.builder == old(self).builder);
            assert forall|i: usize| call_requires(self.builder, (i,)) by {
                assert(call_requires(old(self).spec_builder(), (i,)));
            }
        }
        let mut index = start;
        while index < end
            invariant
                start <= index,
                index <= (if end > start { end } else { start }),
                end <= count,
                count <= TOP_SPACER_KEY,
                offset == (if start > 0 { 1int } else { 0int }),
                lead == (if start > 0 { seq![TOP_SPACER_KEY] } else { Seq::<usize>::empty() }),
                keys@ == lead + Seq::new((index - start) as nat, |i: int| (start + i) as usize),
                children@.len() == keys@.len(),
                start > 0 ==> call_ensures(*make_spacer, (true, start), children@[0]),
                forall|i: usize| call_requires(self.builder, (i,)),
                forall|k: usize| #[trigger] realized@.contains_key(k) <==> (old_map.contains_key(k)
                    && !(start <= k < index)),
                forall|k: usize| #[trigger] realized@.contains_key(k) ==> realized@[k] == old_map[k],
                forall|j: int|
                    offset <= j < keys@.len() ==> realized_child_ok(
                        old_map,
                        self.builder,
                        #[trigger] keys@[j],
                        children@[j],
                    ),
            decreases end - index,
        {
            let ghost before_keys = keys@;
            let child = match realized.remove(&index) {
                Some(c) => c,
                None => (self.builder)(index),
            };
            keys.push(index);
            children.push(child);
            proof {
                assert(keys@ =~= lead + Seq::new((index + 1 - start) as nat, |i: int| (start + i) as usize));
                assert forall|j: int| offset <= j < keys@.len() implies realized_child_ok(
                    old_map,
                    self.builder,
                    #[trigger] keys@[j],
                    children@[j],
                ) by {
                    if j < keys@.len() - 1 {
                        assert(keys@[j] == before_keys[j]);
                    }
                }
            }
            index += 1;
        }
        let ghost mid = keys@.len();
        if end < count {
            keys.push(BOTTOM_SPACER_KEY);
            children.push(make_spacer(false, count - end));
        }
        proof {
            let items = Seq::new(if end > start { (end - start) as nat } else { 0 }, |i: int| (start + i) as usize);
            if start < end {
                assert(index == end);
            } else {
                assert(index == start);
            }
            assert(keys@ =~= spec_realized_keys(start as nat, end as nat, count as nat));
            assert forall|j: int|
                0 <= j < keys@.len() && !is_spacer_key(#[trigger] keys@[j]) implies realized_child_ok(
                    old_map,
                    self.builder,
                    keys@[j],
                    children@[j],
                ) by {
                if j < offset {
                    assert(keys@[j] == TOP_SPACER_KEY);
                } else if j >= mid {
                    assert(keys@[j] == BOTTOM_SPACER_KEY);
                }
            }
        }
        self.child_keys = keys;
        self.children = children;
        self.realized_start = start;
        self.realized_end = end;
    }
}

/// The items of a list: owned child widgets, or a virtualized list.
pub enum ListItems<W, F> {
    Owned(Vec<W>),
    Virtualized(VirtualizedItems<W, F>),
}

/// The items a list holds once it is made to own them: its own items, or every item
/// built, in order, by the virtualized list's builder.
pub open spec fn owned_items_of<W, F: Fn(usize) -> W>(l: ListItems<W, F>, items: Seq<W>) -> bool {
    match l {
        ListItems::Owned(v) => items == v@,
        ListItems::Virtualized(v) => {
            &&& items.len() == v.spec_item_count()
            &&& forall|i: int| 0 <= i < items.len() ==> call_ensures(v.spec_builder(), (i as usize,), #[trigger] items[i])
        },
    }
}

impl<W, F: Fn(usize) -> W> ListItems<W, F> {
    /// A virtualized list's invariant holds.
    pub open spec fn wf(&self) -> bool {
        match self {
            ListItems::Owned(_) => true,
            ListItems::Virtualized(v) => v.wf(),
        }
    }

    /// How many items the list has.
    pub open spec fn spec_len(&self) -> nat {
        match self {
            ListItems::Owned(v) => v@.len(),
            ListItems::Virtualized(v) => v.spec_item_count(),
        }
    }

    /// A list that owns no item.
    pub fn empty() -> (r: Self)
        ensures
            r matches ListItems::Owned(v) && v@.len() == 0,
    {
        ListItems::Owned(Vec::new())
    }

    /// How many items the list has.
    pub fn len(&self) -> (r: usize)
        ensures
            r == self.spec_len(),
    {
        match self {
            ListItems::Owned(v) => v.len(),
            ListItems::Virtualized(v) => v.item_count(),
        }
    }

    /// Whether the list has no item.
    pub fn is_empty(&self) -> (r: bool)
        ensures
            r == (self.spec_len() == 0),
    {
        self.len() == 0
    }

    /// Replace the items with owned `items`.
    pub fn set_items(&mut self, items: Vec<W>)
        ensures
            *final(self) matches ListItems::Owned(v) && v@ == items@,
    {
        *self = ListItems::Owned(items);
    }

    fn take_items(&mut self) -> (r: Vec<W>)
        requires
            old(self).wf(),
        ensures
            owned_items_of(*old(self), r@),
            *final(self) matches ListItems::Owned(v) && v@.len() == 0,
    {
        let mut taken: ListItems<W, F> = ListItems::Owned(Vec::new());
        std::mem::swap(self, &mut taken);
        match taken {
            ListItems::Owned(items) => items,
            ListItems::Virtualized(v) => v.materialize(),
        }
    }

    /// Make the list own its items, building every item of a virtualized list.
    pub fn ensure_owned(&mut self)
        requires
            old(self).wf(),
        ensures
            *final(self) matches ListItems::Owned(v) && owned_items_of(*old(self), v@),
    {
        let items = self.take_items();
        *self = ListItems::Owned(items);
    }

    /// Append an item; a virtualized list first comes to own its items.
    pub fn push_item(&mut self, item: W)
        requires
            old(self).wf(),
        ensures
            *final(self) matches ListItems::Owned(v) && v@.len() > 0 && v@.last() == item
                && owned_items_of(*old(self), v@.drop_last()),
    {
        let mut items = self.take_items();
        let ghost before = items@;
        items.push(item);
        proof {
            assert(items@.drop_last() =~= before);
        }
        *self = ListItems::Owned(items);
    }

    /// Remove the item at `index`, if there is one; a virtualized list first comes to own
    /// its items.
    pub fn remove_item(&mut self, index: usize) -> (r: Option<W>)
        requires
            old(self).wf(),
        ensures
            *final(self) matches ListItems::Owned(v) && (exists|all: Seq<W>| {
                &&& #[trigger] owned_items_of(*old(self), all)
                &&& if index < all.len() {
                    r == Some(all[index as int]) && v@ == all.remove(index as int)
                } else {
                    r is None && v@ == all
                }
            }),
    {
        let mut items = self.take_items();
        let ghost all = items@;
        let removed = if index < items.len() {
            Some(items.remove(index))
        } else {
            None
        };
        let ghost rest = items@;
        proof {
            assert(owned_items_of(*old(self), all));
            assert(if index < all.len() {
                removed == Some(all[index as int]) && rest == all.remove(index as int)
            } else {
                removed is None && rest == all
            });
        }
        *self = ListItems::Owned(items);
        removed
    }

    /// Remove every item; a virtualized list first comes to own its items.
    pub fn clear(&mut self)
        requires
            old(self).wf(),
        ensures
            *final(self) matches ListItems::Owned(v) && v@.len() == 0,
    {
        let mut items = self.take_items();
        items.clear();
        *self = ListItems::Owned(items);
    }

    /// The path key of the child in slot `position`: the position itself for owned
    /// items, the realized key of a virtualized list (the position past the realized ones).
    pub fn child_path_key(&self, position: usize) -> (r: usize)
        ensures
            r == (match self {
                ListItems::Owned(_) => position,
                ListItems::Virtualized(v) => if position < v.spec_keys().len() {
                    v.spec_keys()[position as int]
                } else {
                    position
                },
            }),
    {
        match self {
            ListItems::Owned(_) => position,
            ListItems::Virtualized(v) => {
                let keys = v.child_keys();
                if position < keys.len() {
                    keys[position]
                } else {
                    position
                }
            },
        }
    }

    /// The slot of the child with path key `key`: the key itself for owned items, the
    /// first slot realized under that key in a virtualized list.
    pub fn child_slot_for_path_key(&self, key: usize) -> (r: Option<usize>)
        ensures
            match self {
                ListItems::Owned(_) => r == Some(key),
                ListItems::Virtualized(v) => match r {
                    Some(i) => i < v.spec_keys().len() && v.spec_keys()[i as int] == key
                        && forall|j: int| 0 <= j < i ==> v.spec_keys()[j] != key,
                    None => forall|j: int| 0 <= j < v.spec_keys().len() ==> v.spec_keys()[j] != key,
                },
            },
    {
        match self {
            ListItems::Owned(_) => Some(key),
            ListItems::Virtualized(v) => v.child_slot_for_key(key),
        }
    }

    /// The child widgets: the owned items, or the realized children.
    pub fn children(&self) -> (r: &[W])
        ensures
            r@ == (match self {
                ListItems::Owned(v) => v@,
                ListItems::Virtualized(v) => v.spec_children(),
            }),
    {
        match self {
            ListItems::Owned(v) => v.as_slice(),
            ListItems::Virtualized(v) => v.children(),
        }
    }
}

} // verus!
