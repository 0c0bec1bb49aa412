//! App router and navigation primitives.
//!
//! Routes are static paths. A route carries a builder of any type `B`; the
//! router decides which builder stands for the current path, and the host
//! invokes it.
use vstd::prelude::*;
use crate::chars::{
    all_whitespace, chars_eq, chars_of, has_char, lemma_trim_end_take, lemma_trim_start_skip,
    spec_is_whitespace, str_eq, string_from_range, string_push, trim, trim_bounds, trim_end,
    trim_start, vec_has_char,
};

verus! {

// ---------------------------------------------------------------------------
// Path helpers
// ---------------------------------------------------------------------------

/// Drop every trailing `/`.
pub open spec fn strip_trailing_slashes(p: Seq<char>) -> Seq<char>
    decreases p.len(),
{
    if p.len() > 0 && p.last() == '/' {
        strip_trailing_slashes(p.drop_last())
    } else {
        p
    }
}

/// The normal form of a route path: trimmed, rooted at `/`, without trailing `/`.
pub open spec fn spec_normalize_path(path: Seq<char>) -> Seq<char> {
    let t = trim(path);
    if t.len() == 0 || t == seq!['#'] {
        seq!['/']
    } else {
        let p = if t[0] == '/' { t } else { seq!['/'] + t };
        if p.len() > 1 { strip_trailing_slashes(p) } else { p }
    }
}

/// The location hash for a path.
pub open spec fn spec_path_to_hash(path: Seq<char>) -> Seq<char> {
    seq!['#'] + spec_normalize_path(path)
}

/// The path a location hash names.
pub open spec fn spec_hash_to_path(hash: Seq<char>) -> Seq<char> {
    let raw = trim(hash);
    let raw = if raw.len() > 0 && raw[0] == '#' { raw.drop_first() } else { raw };
    spec_normalize_path(raw)
}

/// A static path: rooted, with no `:` parameter and no `*` wildcard.
pub open spec fn spec_is_static_path(p: Seq<char>) -> bool {
    p.len() > 0 && p[0] == '/' && !has_char(p, ':') && !has_char(p, '*')
}

proof fn lemma_strip_trailing_take(p: Seq<char>, k: int)
    requires
        0 <= k <= p.len(),
        forall|i: int| k <= i < p.len() ==> #[trigger] p[i] == '/',
        k == 0 || p[k - 1] != '/',
    ensures
        strip_trailing_slashes(p) == p.subrange(0, k),
    decreases p.len() - k,
{
    if k == p.len() {
        assert(p.subrange(0, k) =~= p);
    } else {
        let t = p.drop_last();
        assert forall|i: int| k <= i < t.len() implies #[trigger] t[i] == '/' by {
            assert(t[i] == p[i]);
        }
        assert(p[p.len() - 1] == '/');
        if k > 0 {
            assert(t[k - 1] == p[k - 1]);
        }
        lemma_strip_trailing_take(t, k);
        assert(t.subrange(0, k) =~= p.subrange(0, k));
    }
}

proof fn lemma_strip_trailing_shape(p: Seq<char>)
    ensures
        strip_trailing_slashes(p).len() <= p.len(),
        strip_trailing_slashes(p) =~= p.subrange(0, strip_trailing_slashes(p).len() as int),
        strip_trailing_slashes(p).len() == 0 || strip_trailing_slashes(p).last() != '/',
    decreases p.len(),
{
    if p.len() > 0 && p.last() == '/' {
        lemma_strip_trailing_shape(p.drop_last());
    }
}

fn slash_string() -> (r: String)
    ensures
        r@ == seq!['/'],
{
    let mut s = String::new();
    string_push(&mut s, '/');
    s
}

/// Normalize a route path.
pub fn normalize_path(path: &str) -> (r: String)
    ensures
        r@ == spec_normalize_path(path@),
{
    let v = chars_of(path);
    let (start, end) = trim_bounds(&v);
    let ghost t = trim(path@);
    if end == start || (end - start == 1 && v[start] == '#') {
        proof {
            if end - start == 1 && v@[start as int] == '#' {
                assert(t =~= seq!['#']);
            }
        }
        return slash_string();
    }
    proof {
        assert(t.len() > 0);
        if t == seq!['#'] {
            assert(t[0] == v@[start as int]);
        }
    }
    let mut p: Vec<char> = Vec::new();
    if v[start] != '/' {
        p.push('/');
    }
    let ghost prefix = p@;
    let mut i = start;
    while i < end
        invariant
            start <= i <= end <= v.len(),
            p@ == prefix + v@.subrange(start as int, i as int),
        decreases end - i,
    {
        p.push(v[i]);
        assert(v@.subrange(start as int, i + 1) =~= v@.subrange(start as int, i as int).push(v@[i as int]));
        i += 1;
    }
    let ghost pp = if t[0] == '/' { t } else { seq!['/'] + t };
    proof {
        assert(t[0] == v@[start as int]);
        if t[0] == '/' {
            assert(prefix =~= Seq::<char>::empty());
            assert(p@ =~= t);
        } else {
            assert(prefix =~= seq!['/']);
            assert(p@ =~= seq!['/'] + t);
        }
        assert(p@ == pp);
    }
    if p.len() > 1 {
        let mut k = p.len();
        while k > 0 && p[k - 1] == '/'
            invariant
                k <= p.len(),
                forall|j: int| k <= j < p.len() ==> #[trigger] p@[j] == '/',
            decreases k,
        {
            k -= 1;
        }
        proof {
            lemma_strip_trailing_take(p@, k as int);
        }
        string_from_range(&p, 0, k)
    } else {
        string_from_range(&p, 0, p.len())
    }
}

/// Whether a path is static (dynamic `:param` and `*` patterns are not supported).
pub fn is_static_path(path: &str) -> (r: bool)
    ensures
        r == spec_is_static_path(path@),
{
    let v = chars_of(path);
    v.len() > 0 && v[0] == '/' && !vec_has_char(&v, ':') && !vec_has_char(&v, '*')
}

/// The location hash for a route path.
pub fn path_to_hash(path: &str) -> (r: String)
    ensures
        r@ == spec_path_to_hash(path@),
{
    let n = normalize_path(path);
    let nv = chars_of(n.as_str());
    let mut out = String::new();
    string_push(&mut out, '#');
    let tail = string_from_range(&nv, 0, nv.len());
    let mut i: usize = 0;
    while i < nv.len()
        invariant
            i <= nv.len(),
            out@ == seq!['#'] + nv@.subrange(0, i as int),
        decreases nv.len() - i,
    {
        string_push(&mut out, nv[i]);
        assert(nv@.subrange(0, i + 1) =~= nv@.subrange(0, i as int).push(nv@[i as int]));
        i += 1;
    }
    assert(nv@.subrange(0, nv.len() as int) =~= nv@);
    out
}

/// The route path a location hash names.
pub fn hash_to_path(hash: &str) -> (r: String)
    ensures
        r@ == spec_hash_to_path(hash@),
{
    let v = chars_of(hash);
    let (start, end) = trim_bounds(&v);
    let from = if start < end && v[start] == '#' { start + 1 } else { start };
    let raw = string_from_range(&v, from, end);
    proof {
        let t = trim(hash@);
        if start < end && v@[start as int] == '#' {
            assert(t[0] == v@[start as int]);
            assert(raw@ =~= t.drop_first());
        } else {
            if t.len() > 0 {
                assert(t[0] == v@[start as int]);
            }
            assert(raw@ =~= t);
        }
    }
    normalize_path(raw.as_str())
}

/// A path that `normalize_path` leaves as it is has no surrounding whitespace.
proof fn lemma_normal_path_is_trimmed(p: Seq<char>)
    requires
        spec_normalize_path(p) == p,
    ensures
        trim(p) == p,
        p.len() > 0,
        p[0] == '/',
{
    let t = trim(p);
    lemma_trim_len(p);
    if t.len() == 0 || t == seq!['#'] {
        assert(p =~= seq!['/']);
        lemma_trim_start_skip(p, 0);
        lemma_trim_end_take(p, 1);
        assert(p.subrange(0, 1) =~= p);
    } else {
        let q = if t[0] == '/' { t } else { seq!['/'] + t };
        if q.len() > 1 {
            lemma_strip_trailing_shape(q);
        }
        if t[0] == '/' {
            // `p` is a prefix of `t`, which is no longer than `p`.
            assert(p.len() <= t.len());
            if t.len() < p.len() {
                assert(false);
            }
            assert(t.len() == p.len());
            lemma_trim_len_eq(p);
        } else {
            // `p` starts with `/` while its trimmed form does not.
            assert(p[0] == '/');
            lemma_trim_first(p);
            assert(false);
        }
    }
}

/// Trimming never lengthens, and keeps a contiguous slice.
proof fn lemma_trim_len(s: Seq<char>)
    ensures
        trim(s).len() <= s.len(),
        trim_start(s).len() <= s.len(),
{
    lemma_trim_start_len(s);
    lemma_trim_end_len(trim_start(s));
}

proof fn lemma_trim_start_len(s: Seq<char>)
    ensures
        trim_start(s).len() <= s.len(),
        trim_start(s).len() == s.len() ==> trim_start(s) == s,
        trim_start(s) =~= s.subrange(s.len() - trim_start(s).len(), s.len() as int),
    decreases s.len(),
{
    if s.len() > 0 && spec_is_whitespace(s[0]) {
        lemma_trim_start_len(s.drop_first());
    } else {
        assert(s.subrange(0, s.len() as int) =~= s);
    }
}

proof fn lemma_trim_end_len(s: Seq<char>)
    ensures
        trim_end(s).len() <= s.len(),
        trim_end(s).len() == s.len() ==> trim_end(s) == s,
        trim_end(s) =~= s.subrange(0, trim_end(s).len() as int),
    decreases s.len(),
{
    if s.len() > 0 && spec_is_whitespace(s.last()) {
        lemma_trim_end_len(s.drop_last());
    } else {
        assert(s.subrange(0, s.len() as int) =~= s);
    }
}

proof fn lemma_trim_len_eq(s: Seq<char>)
    requires
        trim(s).len() == s.len(),
    ensures
        trim(s) == s,
{
    lemma_trim_start_len(s);
    lemma_trim_end_len(trim_start(s));
}

/// A nonempty trimmed form starts with the first non-whitespace character.
proof fn lemma_trim_first(s: Seq<char>)
    requires
        s.len() > 0,
        !spec_is_whitespace(s[0]),
    ensures
        trim(s).len() > 0,
        trim(s)[0] == s[0],
{
    lemma_trim_start_skip(s, 0);
    assert(s.subrange(0, s.len() as int) =~= s);
    lemma_trim_end_len(s);
    let e = trim_end(s);
    if e.len() == 0 {
        lemma_trim_end_nonempty_first(s);
    }
    assert(e[0] == s[0]);
}

proof fn lemma_trim_end_nonempty_first(t: Seq<char>)
    requires
        t.len() > 0,
        !spec_is_whitespace(t[0]),
    ensures
        trim_end(t).len() > 0,
    decreases t.len(),
{
    if spec_is_whitespace(t.last()) {
        assert(t.len() > 1);
        assert(t.drop_last()[0] == t[0]);
        lemma_trim_end_nonempty_first(t.drop_last());
    }
}

/// A path that is already in normal form survives the trip through a location hash.
pub proof fn lemma_hash_roundtrip(p: Seq<char>)
    requires
        spec_normalize_path(p) == p,
    ensures
        spec_hash_to_path(spec_path_to_hash(p)) == p,
{
    lemma_normal_path_is_trimmed(p);
    let h = seq!['#'] + p;
    // `h` is already trimmed: it starts with `#` and ends as `p` does.
    assert(!spec_is_whitespace(h[0]));
    lemma_trim_start_skip(h, 0);
    assert(h.subrange(0, h.len() as int) =~= h);
    lemma_trim_end_len(p);
    let k = h.len() as int;
    // The last character of `p` is not whitespace, since `p` is trimmed.
    lemma_trim_end_last(p);
    assert(h[k - 1] == p[p.len() - 1]);
    lemma_trim_end_take(h, k);
    assert(h.subrange(0, k) =~= h);
    assert(trim(h) == h);
    assert(h.drop_first() =~= p);
}

/// Any path taken through a location hash comes back as its normal form normalized
/// again: `hash_to_path(path_to_hash(p)) == normalize_path(normalize_path(p))`.
pub proof fn lemma_hash_roundtrip_any(p: Seq<char>)
    ensures
        spec_hash_to_path(spec_path_to_hash(p)) == spec_normalize_path(spec_normalize_path(p)),
{
    let n = spec_normalize_path(p);
    let h = seq!['#'] + n;
    assert(spec_path_to_hash(p) == h);
    lemma_trim_start_skip(h, 0);
    assert(h.subrange(0, h.len() as int) =~= h);
    assert(trim_start(h) == h);
    lemma_trim_end_cons('#', n);
    let raw = trim(h);
    assert(raw == seq!['#'] + trim_end(n));
    assert(raw.drop_first() =~= trim_end(n));
    lemma_trim_of_trim_end(n);
    assert(trim(trim_end(n)) == trim(n));
}

/// Trailing whitespace behind a non-whitespace first character is dropped as if the
/// character were not there.
proof fn lemma_trim_end_cons(x: char, s: Seq<char>)
    requires
        !spec_is_whitespace(x),
    ensures
        trim_end(seq![x] + s) == seq![x] + trim_end(s),
    decreases s.len(),
{
    let xs = seq![x] + s;
    if s.len() > 0 && spec_is_whitespace(s.last()) {
        assert(xs.last() == s.last());
        assert(xs.drop_last() =~= seq![x] + s.drop_last());
        lemma_trim_end_cons(x, s.drop_last());
    } else {
        assert(xs.last() == if s.len() > 0 { s.last() } else { x });
    }
}

/// The first character of `s` that is not whitespace.
proof fn first_non_whitespace(s: Seq<char>) -> (a: int)
    requires
        !all_whitespace(s),
    ensures
        0 <= a < s.len(),
        !spec_is_whitespace(s[a]),
        forall|j: int| 0 <= j < a ==> spec_is_whitespace(#[trigger] s[j]),
    decreases s.len(),
{
    if !spec_is_whitespace(s[0]) {
        0
    } else {
        let t = s.drop_first();
        assert(!all_whitespace(t)) by {
            let i = choose|i: int| 0 <= i < s.len() && !spec_is_whitespace(s[i]);
            assert(t[i - 1] == s[i]);
        }
        let b = first_non_whitespace(t);
        assert forall|j: int| 0 <= j < b + 1 implies spec_is_whitespace(#[trigger] s[j]) by {
            if j > 0 {
                assert(s[j] == t[j - 1]);
            }
        }
        assert(s[b + 1] == t[b]);
        b + 1
    }
}

/// One past the last character of `s` that is not whitespace.
proof fn last_non_whitespace_end(s: Seq<char>) -> (b: int)
    requires
        !all_whitespace(s),
    ensures
        0 < b <= s.len(),
        !spec_is_whitespace(s[b - 1]),
        forall|j: int| b <= j < s.len() ==> spec_is_whitespace(#[trigger] s[j]),
    decreases s.len(),
{
    if !spec_is_whitespace(s.last()) {
        s.len() as int
    } else {
        let t = s.drop_last();
        assert(!all_whitespace(t)) by {
            let i = choose|i: int| 0 <= i < s.len() && !spec_is_whitespace(s[i]);
            assert(i < s.len() - 1);
            assert(t[i] == s[i]);
        }
        let b = last_non_whitespace_end(t);
        assert forall|j: int| b <= j < s.len() implies spec_is_whitespace(#[trigger] s[j]) by {
            if j < s.len() - 1 {
                assert(s[j] == t[j]);
            }
        }
        assert(s[b - 1] == t[b - 1]);
        b
    }
}

/// Dropping trailing whitespace first does not change the trimmed form.
proof fn lemma_trim_of_trim_end(s: Seq<char>)
    ensures
        trim(trim_end(s)) == trim(s),
{
    if all_whitespace(s) {
        lemma_trim_end_take(s, 0);
        assert(s.subrange(0, 0) =~= Seq::<char>::empty());
        lemma_trim_start_skip(s, s.len() as int);
        let e = s.subrange(s.len() as int, s.len() as int);
        assert(e =~= Seq::<char>::empty());
        lemma_trim_start_skip(Seq::<char>::empty(), 0);
        lemma_trim_end_take(Seq::<char>::empty(), 0);
        assert(Seq::<char>::empty().subrange(0, 0) =~= Seq::<char>::empty());
    } else {
        let a = first_non_whitespace(s);
        let b = last_non_whitespace_end(s);
        assert(a < b) by {
            if a >= b {
                assert(spec_is_whitespace(s[a]));
            }
        }
        let mid = s.subrange(a, b);
        lemma_trim_start_skip(s, a);
        let tail = s.subrange(a, s.len() as int);
        lemma_trim_end_take(tail, b - a);
        assert(tail.subrange(0, b - a) =~= mid);
        let head = s.subrange(0, b);
        lemma_trim_end_take(s, b);
        lemma_trim_start_skip(head, a);
        assert(head.subrange(a, head.len() as int) =~= mid);
        lemma_trim_end_take(mid, b - a);
        assert(mid.subrange(0, b - a) =~= mid);
    }
}

/// A trimmed nonempty sequence does not end with whitespace.
proof fn lemma_trim_end_last(p: Seq<char>)
    requires
        trim(p) == p,
        p.len() > 0,
    ensures
        !spec_is_whitespace(p[p.len() - 1]),
{
    lemma_trim_start_len(p);
    lemma_trim_end_len(trim_start(p));
    if spec_is_whitespace(p[p.len() - 1]) {
        lemma_trim_start_len(p);
        assert(trim_start(p).len() == p.len()) by {
            lemma_trim_len(p);
        }
        assert(trim_start(p) == p);
        assert(trim_end(p) == trim_end(p.drop_last()));
        lemma_trim_end_len(p.drop_last());
        assert(false);
    }
}

// ---------------------------------------------------------------------------
// Navigation history
// ---------------------------------------------------------------------------

/// Abstract navigation history: the visited paths and the cursor into them.
pub struct RouterStateView {
    pub history: Seq<Seq<char>>,
    pub index: nat,
}

/// The path a history shows.
pub open spec fn spec_current(v: RouterStateView) -> Seq<char> {
    if v.index < v.history.len() { v.history[v.index as int] } else { seq!['/'] }
}

/// The history after navigating to `path`.
pub open spec fn spec_push(v: RouterStateView, path: Seq<char>) -> RouterStateView {
    if spec_current(v) == path {
        v
    } else {
        let kept = if v.index + 1 <= v.history.len() { v.history.take(v.index + 1int) } else { v.history };
        RouterStateView { history: kept.push(path), index: kept.len() }
    }
}

/// The history after replacing its current entry with `path`.
pub open spec fn spec_replace(v: RouterStateView, path: Seq<char>) -> RouterStateView {
    if v.history.len() == 0 {
        RouterStateView { history: seq![path], index: 0 }
    } else {
        RouterStateView { history: v.history.update(v.index as int, path), index: v.index }
    }
}

/// Navigation history: a stack of visited paths and the position in it.
#[derive(Debug)]
pub struct RouterState {
    history: Vec<String>,
    index: usize,
}

impl View for RouterState {
    type V = RouterStateView;

    closed spec fn view(&self) -> RouterStateView {
        RouterStateView {
            history: self.history@.map_values(|s: String| s@),
            index: self.index as nat,
        }
    }
}

impl RouterState {
    /// The cursor points into a nonempty history.
    #[verifier::type_invariant]
    closed spec fn inv(&self) -> bool {
        self.index < self.history.len()
    }

    /// A history that holds only `path`.
    pub fn new(path: String) -> (r: Self)
        ensures
            r@.history == seq![path@],
            r@.index == 0,
    {
        let mut history = Vec::new();
        history.push(path);
        let r = RouterState { history, index: 0 };
        assert(r@.history =~= seq![path@]);
        r
    }

    /// The path at the cursor.
    pub fn current(&self) -> (r: &str)
        ensures
            r@ == spec_current(self@),
    {
        proof {
            use_type_invariant(self);
        }
        self.history[self.index].as_str()
    }

    /// Navigate to `path`, dropping any forward entries; no-op when already there.
    pub fn push(&mut self, path: String)
        ensures
            final(self)@ == spec_push(old(self)@, path@),
    {
        proof {
            use_type_invariant(&*self);
        }
        if str_eq(self.current(), path.as_str()) {
            return;
        }
        let ghost old_view = self@;
        let mut taken = RouterState::new(String::new());
        std::mem::swap(self, &mut taken);
        let RouterState { mut history, index } = taken;
        history.truncate(index + 1);
        history.push(path);
        let index = history.len() - 1;
        *self = RouterState { history, index };
        proof {
            let kept = old_view.history.take(old_view.index + 1int);
            assert(self@.history =~= kept.push(path@));
        }
    }

    /// Replace the current entry with `path`.
    pub fn replace(&mut self, path: String)
        ensures
            final(self)@ == spec_replace(old(self)@, path@),
    {
        proof {
            use_type_invariant(&*self);
        }
        let ghost old_view = self@;
        let mut taken = RouterState::new(String::new());
        std::mem::swap(self, &mut taken);
        let RouterState { mut history, index } = taken;
        if history.len() == 0 {
            history.push(path);
            *self = RouterState { history, index: 0 };
            return;
        }
        history.set(index, path);
        *self = RouterState { history, index };
        proof {
            assert(self@.history =~= old_view.history.update(index as int, path@));
        }
    }

    /// Step back one entry; false at the oldest entry.
    pub fn back(&mut self) -> (r: bool)
        ensures
            r == (old(self)@.index > 0),
            final(self)@.history == old(self)@.history,
            final(self)@.index == if r { old(self)@.index - 1 } else { old(self)@.index as int },
    {
        proof {
            use_type_invariant(&*self);
        }
        if self.index == 0 {
            return false;
        }
        self.index = self.index - 1;
        true
    }

    /// Step forward one entry; false at the newest entry.
    pub fn forward(&mut self) -> (r: bool)
        ensures
            r == (old(self)@.index + 1 < old(self)@.history.len()),
            final(self)@.history == old(self)@.history,
            final(self)@.index == if r { old(self)@.index + 1int } else { old(self)@.index as int },
    {
        proof {
            use_type_invariant(&*self);
        }
        if self.index + 1 >= self.history.len() {
            return false;
        }
        self.index = self.index + 1;
        true
    }
}


/// The history after `back`.
pub open spec fn spec_back(v: RouterStateView) -> RouterStateView {
    if v.index > 0 { RouterStateView { history: v.history, index: (v.index - 1) as nat } } else { v }
}

/// The history after `forward`.
pub open spec fn spec_forward(v: RouterStateView) -> RouterStateView {
    if v.index + 1 < v.history.len() { RouterStateView { history: v.history, index: v.index + 1 } } else { v }
}

/// A history whose cursor points at an entry.
pub open spec fn spec_history_wf(v: RouterStateView) -> bool {
    v.index < v.history.len()
}

/// After navigating to a path, that path is shown; the history stays well formed.
pub proof fn lemma_push_shows_path(v: RouterStateView, path: Seq<char>)
    requires
        spec_history_wf(v),
    ensures
        spec_current(spec_push(v, path)) == path,
        spec_history_wf(spec_push(v, path)),
{
}

/// Navigating to a new path drops the forward entries: `forward` has nowhere to go.
pub proof fn lemma_push_clears_forward(v: RouterStateView, path: Seq<char>)
    requires
        spec_history_wf(v),
        spec_current(v) != path,
    ensures
        spec_forward(spec_push(v, path)) == spec_push(v, path),
        spec_push(v, path).history.len() == v.index + 2,
{
}

/// Stepping back and then forward returns to the same entry.
pub proof fn lemma_back_then_forward(v: RouterStateView)
    requires
        spec_history_wf(v),
        v.index > 0,
    ensures
        spec_forward(spec_back(v)) == v,
{
}

/// Navigating to a new path and stepping back shows the previous path again.
pub proof fn lemma_push_then_back(v: RouterStateView, path: Seq<char>)
    requires
        spec_history_wf(v),
        spec_current(v) != path,
    ensures
        spec_current(spec_back(spec_push(v, path))) == spec_current(v),
{
}

/// Replacing shows the new path in place of the current entry: the cursor stays, the
/// history keeps its length, and every other entry is left as it was.
pub proof fn lemma_replace_swaps_current_entry(v: RouterStateView, path: Seq<char>)
    requires
        spec_history_wf(v),
    ensures
        spec_current(spec_replace(v, path)) == path,
        spec_replace(v, path).index == v.index,
        spec_replace(v, path).history.len() == v.history.len(),
        forall|i: int|
            0 <= i < v.history.len() && i != v.index ==> #[trigger] spec_replace(v, path).history[i] == v.history[i],
{
}

/// Navigating to the path already shown changes nothing: no entry is added, so stepping
/// back afterwards leaves the shown path, as stepping back before would.
pub proof fn lemma_push_current_is_noop(v: RouterStateView)
    ensures
        spec_push(v, spec_current(v)) == v,
        spec_current(spec_back(spec_push(v, spec_current(v)))) == spec_current(spec_back(v)),
{
}

// ---------------------------------------------------------------------------
// Routes and the router
// ---------------------------------------------------------------------------

/// The first position of `p` in `paths`, or -1.
pub open spec fn first_index(paths: Seq<Seq<char>>, p: Seq<char>) -> int {
    if exists|i: int| 0 <= i < paths.len() && paths[i] == p {
        choose|i: int|
            0 <= i < paths.len() && paths[i] == p && (forall|j: int| 0 <= j < i ==> paths[j] != p)
    } else {
        -1
    }
}

/// Whether `p` is a registered path.
pub open spec fn has_route(paths: Seq<Seq<char>>, p: Seq<char>) -> bool {
    exists|i: int| 0 <= i < paths.len() && paths[i] == p
}

proof fn lemma_first_index(paths: Seq<Seq<char>>, p: Seq<char>, i: int)
    requires
        0 <= i < paths.len(),
        paths[i] == p,
        forall|j: int| 0 <= j < i ==> paths[j] != p,
    ensures
        first_index(paths, p) == i,
{
    let c = first_index(paths, p);
    assert(0 <= c < paths.len() && paths[c] == p && (forall|j: int| 0 <= j < c ==> paths[j] != p));
    if c < i {
        assert(paths[c] != p);
    }
    if c > i {
        assert(paths[i] != p);
    }
}

proof fn lemma_min_witness(paths: Seq<Seq<char>>, p: Seq<char>, i: int)
    requires
        0 <= i < paths.len(),
        paths[i] == p,
    ensures
        exists|k: int|
            0 <= k < paths.len() && paths[k] == p && (forall|j: int| 0 <= j < k ==> paths[j] != p),
    decreases i,
{
    if exists|j: int| 0 <= j < i && paths[j] == p {
        let j = choose|j: int| 0 <= j < i && paths[j] == p;
        lemma_min_witness(paths, p, j);
    } else {
        assert(forall|j: int| 0 <= j < i ==> paths[j] != p);
    }
}

/// A registered path has a first position, which holds it.
pub proof fn lemma_first_index_bounds(paths: Seq<Seq<char>>, p: Seq<char>)
    ensures
        has_route(paths, p) ==> {
            &&& 0 <= first_index(paths, p) < paths.len()
            &&& paths[first_index(paths, p)] == p
            &&& forall|j: int| 0 <= j < first_index(paths, p) ==> paths[j] != p
        },
        !has_route(paths, p) ==> first_index(paths, p) == -1,
{
    if has_route(paths, p) {
        let i = choose|i: int| 0 <= i < paths.len() && paths[i] == p;
        lemma_min_witness(paths, p, i);
    }
}

/// A route: a static path and the builder that stands for it.
pub struct Route<B> {
    path: String,
    builder: B,
}

impl<B> Route<B> {
    /// The route's path.
    pub closed spec fn spec_path(&self) -> Seq<char> {
        self.path@
    }

    /// The route's builder.
    pub closed spec fn spec_builder(&self) -> B {
        self.builder
    }

    /// A route for the normalized `path`.
    pub fn new(path: &str, builder: B) -> (r: Self)
        ensures
            r.spec_path() == spec_normalize_path(path@),
            r.spec_builder() == builder,
    {
        Route { path: normalize_path(path), builder }
    }

    /// The route's path.
    pub fn path(&self) -> (r: &str)
        ensures
            r@ == self.spec_path(),
    {
        self.path.as_str()
    }

    /// The route's builder.
    pub fn builder(&self) -> (r: &B)
        ensures
            *r == self.spec_builder(),
    {
        &self.builder
    }
}

/// Abstract router: registered paths with their builders, the fallback and the history.
pub struct RouterView<B> {
    pub paths: Seq<Seq<char>>,
    pub builders: Seq<B>,
    pub fallback: Option<Seq<char>>,
    pub state: RouterStateView,
}

/// The path unknown paths resolve to.
pub open spec fn spec_fallback_resolved<B>(v: RouterView<B>) -> Seq<char> {
    match v.fallback {
        Some(f) if has_route(v.paths, f) => f,
        _ => if v.paths.len() > 0 { v.paths[0] } else { seq!['/'] },
    }
}

/// The registered path a requested path resolves to.
pub open spec fn spec_resolve_path<B>(v: RouterView<B>, path: Seq<char>) -> Seq<char> {
    let n = spec_normalize_path(path);
    if has_route(v.paths, n) { n } else { spec_fallback_resolved(v) }
}

/// The index of the route whose builder stands for `path`, or -1.
pub open spec fn spec_route_for_path<B>(v: RouterView<B>, path: Seq<char>) -> int {
    if has_route(v.paths, path) {
        first_index(v.paths, path)
    } else {
        first_index(v.paths, spec_fallback_resolved(v))
    }
}

/// The router after registering a route for `path`: a static path replaces the builder
/// of the same path, or is appended; a dynamic one is ignored.
pub open spec fn spec_add_route<B>(v: RouterView<B>, path: Seq<char>, builder: B) -> RouterView<B> {
    if !spec_is_static_path(path) {
        v
    } else if has_route(v.paths, path) {
        RouterView { builders: v.builders.update(first_index(v.paths, path), builder), ..v }
    } else {
        RouterView { paths: v.paths.push(path), builders: v.builders.push(builder), ..v }
    }
}

/// The router with its history replaced.
pub open spec fn with_state<B>(v: RouterView<B>, state: RouterStateView) -> RouterView<B> {
    RouterView { state, ..v }
}

/// The router with its fallback replaced.
pub open spec fn with_fallback<B>(v: RouterView<B>, fallback: Seq<char>) -> RouterView<B> {
    RouterView { fallback: Some(fallback), ..v }
}

/// The history `initialize` starts: only the resolved start path.
pub open spec fn spec_restart<B>(v: RouterView<B>, start_path: Option<&str>) -> RouterStateView {
    let requested = match start_path {
        Some(p) => spec_normalize_path(p@),
        None => spec_current(v.state),
    };
    RouterStateView { history: seq![spec_resolve_path(v, requested)], index: 0 }
}

/// The router's table and history are well formed.
pub open spec fn spec_router_wf<B>(v: RouterView<B>) -> bool {
    &&& v.paths.len() == v.builders.len()
    &&& spec_history_wf(v.state)
    &&& forall|i: int| 0 <= i < v.paths.len() ==> spec_is_static_path(#[trigger] v.paths[i])
}

/// A static-route table, the fallback path and the navigation history.
pub struct Router<B> {
    routes: Vec<Route<B>>,
    fallback_path: Option<String>,
    state: RouterState,
}

impl<B> View for Router<B> {
    type V = RouterView<B>;

    closed spec fn view(&self) -> RouterView<B> {
        RouterView {
            paths: self.routes@.map_values(|r: Route<B>| r.path@),
            builders: self.routes@.map_values(|r: Route<B>| r.builder),
            fallback: match self.fallback_path {
                Some(f) => Some(f@),
                None => None,
            },
            state: self.state@,
        }
    }
}

impl<B> Router<B> {
    /// An empty router whose history shows `/`.
    pub fn new() -> (r: Self)
        ensures
            r@.paths.len() == 0,
            r@.builders.len() == 0,
            r@.fallback is None,
            r@.state.history == seq![seq!['/']],
            r@.state.index == 0,
    {
        let r = Router { routes: Vec::new(), fallback_path: None, state: RouterState::new(slash_string()) };
        assert(r@.paths =~= Seq::<Seq<char>>::empty());
        assert(r@.builders =~= Seq::<B>::empty());
        r
    }

    fn find_route(&self, path: &str) -> (r: Option<usize>)
        ensures
            match r {
                Some(i) => has_route(self@.paths, path@) && i == first_index(self@.paths, path@)
                    && i < self.routes@.len(),
                None => !has_route(self@.paths, path@),
            },
    {
        let mut i: usize = 0;
        while i < self.routes.len()
            invariant
                i <= self.routes.len(),
                self@.paths.len() == self.routes@.len(),
                forall|j: int| 0 <= j < i ==> self@.paths[j] != path@,
            decreases self.routes.len() - i,
        {
            assert(self@.paths[i as int] == self.routes@[i as int].path@);
            if str_eq(self.routes[i].path.as_str(), path) {
                proof {
                    lemma_first_index(self@.paths, path@, i as int);
                }
                return Some(i);
            }
            i += 1;
        }
        None
    }

    /// Register `route`; a dynamic pattern is ignored, a path already registered gets the new builder.
    pub fn add_route(self, route: Route<B>) -> (r: Self)
        ensures
            r@ == spec_add_route(self@, route.spec_path(), route.spec_builder()),
    {
        if !is_static_path(route.path.as_str()) {
            return self;
        }
        let found = self.find_route(route.path.as_str());
        let ghost old_view = self@;
        let Router { mut routes, fallback_path, state } = self;
        let ghost old_routes = routes@;
        match found {
            Some(i) => {
                routes.set(i, route);
                proof {
                    lemma_first_index_bounds(old_view.paths, route.path@);
                    assert(routes@ == old_routes.update(i as int, route));
                    assert(routes@.map_values(|r: Route<B>| r.path@) =~= old_view.paths);
                    assert(routes@.map_values(|r: Route<B>| r.builder) =~= old_view.builders.update(i as int, route.builder));
                }
                Router { routes, fallback_path, state }
            },
            None => {
                routes.push(route);
                proof {
                    assert(routes@.map_values(|r: Route<B>| r.path@) =~= old_view.paths.push(route.path@));
                    assert(routes@.map_values(|r: Route<B>| r.builder) =~= old_view.builders.push(route.builder));
                }
                Router { routes, fallback_path, state }
            },
        }
    }

    /// Register a route for `path` built by `builder`.
    pub fn route(self, path: &str, builder: B) -> (r: Self)
        ensures
            r@ == spec_add_route(self@, spec_normalize_path(path@), builder),
    {
        self.add_route(Route::new(path, builder))
    }

    /// Set the fallback path; a dynamic pattern is ignored.
    pub fn fallback(self, path: &str) -> (r: Self)
        ensures
            spec_is_static_path(spec_normalize_path(path@)) ==> r@ == with_fallback(
                self@,
                spec_normalize_path(path@),
            ),
            !spec_is_static_path(spec_normalize_path(path@)) ==> r@ == self@,
    {
        let path = normalize_path(path);
        if !is_static_path(path.as_str()) {
            return self;
        }
        let Router { routes, fallback_path: _, state } = self;
        Router { routes, fallback_path: Some(path), state }
    }

    /// The path unknown paths resolve to.
    fn fallback_resolved(&self) -> (r: String)
        ensures
            r@ == spec_fallback_resolved(self@),
    {
        if let Some(path) = &self.fallback_path {
            if self.find_route(path.as_str()).is_some() {
                return path.clone();
            }
        }
        if self.routes.len() > 0 {
            assert(self@.paths[0] == self.routes@[0].path@);
            return self.routes[0].path.clone();
        }
        slash_string()
    }

    /// The registered path that `path` resolves to.
    pub fn resolve_path(&self, path: &str) -> (r: String)
        ensures
            r@ == spec_resolve_path(self@, path@),
    {
        let path = normalize_path(path);
        if self.find_route(path.as_str()).is_some() {
            return path;
        }
        self.fallback_resolved()
    }

    /// The path the router shows.
    pub fn current_path(&self) -> (r: String)
        ensures
            r@ == spec_current(self@.state),
    {
        self.state.current().to_owned()
    }

    /// Navigate to the route `path` resolves to.
    pub fn go(&mut self, path: &str)
        ensures
            final(self)@ == with_state(old(self)@, spec_push(old(self)@.state, spec_resolve_path(old(self)@, path@))),
    {
        let path = self.resolve_path(path);
        self.state.push(path);
    }

    /// Same as `go`.
    pub fn push(&mut self, path: &str)
        ensures
            final(self)@ == with_state(old(self)@, spec_push(old(self)@.state, spec_resolve_path(old(self)@, path@))),
    {
        self.go(path);
    }

    /// Replace the current entry with the route `path` resolves to.
    pub fn replace(&mut self, path: &str)
        ensures
            final(self)@ == with_state(old(self)@, spec_replace(old(self)@.state, spec_resolve_path(old(self)@, path@))),
    {
        let path = self.resolve_path(path);
        self.state.replace(path);
    }

    /// Step back in the history.
    pub fn back(&mut self) -> (r: bool)
        ensures
            r == (old(self)@.state.index > 0),
            final(self)@ == with_state(old(self)@, spec_back(old(self)@.state)),
    {
        self.state.back()
    }

    /// Step forward in the history.
    pub fn forward(&mut self) -> (r: bool)
        ensures
            r == (old(self)@.state.index + 1 < old(self)@.state.history.len()),
            final(self)@ == with_state(old(self)@, spec_forward(old(self)@.state)),
    {
        self.state.forward()
    }

    /// Restart the history at `start_path` (or the current path), resolved.
    pub fn initialize(&mut self, start_path: Option<&str>)
        ensures
            final(self)@ == with_state(old(self)@, spec_restart(old(self)@, start_path)),
    {
        let requested = match start_path {
            Some(p) => normalize_path(p),
            None => self.current_path(),
        };
        let resolved = self.resolve_path(requested.as_str());
        self.state = RouterState::new(resolved);
    }

    /// The builder that stands for `path`: its own route, else the fallback route.
    pub fn route_for_path(&self, path: &str) -> (r: Option<&B>)
        ensures
            spec_route_for_path(self@, path@) >= 0 ==> r == Some(&self@.builders[spec_route_for_path(self@, path@)]),
            spec_route_for_path(self@, path@) < 0 ==> r is None,
    {
        match self.find_route(path) {
            Some(i) => {
                assert(self@.builders[i as int] == self.routes@[i as int].builder);
                Some(&self.routes[i].builder)
            },
            None => {
                let fallback = self.fallback_resolved();
                match self.find_route(fallback.as_str()) {
                    Some(j) => {
                        assert(self@.builders[j as int] == self.routes@[j as int].builder);
                        Some(&self.routes[j].builder)
                    },
                    None => None,
                }
            },
        }
    }

    /// The builder that stands for the current path.
    pub fn route_for_current_path(&self) -> (r: Option<&B>)
        ensures
            spec_route_for_path(self@, spec_current(self@.state)) >= 0 ==> r == Some(
                &self@.builders[spec_route_for_path(self@, spec_current(self@.state))],
            ),
            spec_route_for_path(self@, spec_current(self@.state)) < 0 ==> r is None,
    {
        let path = self.current_path();
        self.route_for_path(path.as_str())
    }
}

/// A requested path always resolves to a registered route when any route is registered,
/// and to `/` otherwise.
pub proof fn lemma_resolve_is_registered<B>(v: RouterView<B>, path: Seq<char>)
    ensures
        v.paths.len() > 0 ==> has_route(v.paths, spec_resolve_path(v, path)),
        v.paths.len() == 0 ==> spec_resolve_path(v, path) == seq!['/'],
{
    if v.paths.len() > 0 {
        assert(v.paths[0] == v.paths[0]);
    }
}

/// A registered path is found by its own route.
pub proof fn lemma_route_for_registered_path<B>(v: RouterView<B>, path: Seq<char>)
    requires
        has_route(v.paths, path),
    ensures
        0 <= spec_route_for_path(v, path) < v.paths.len(),
        v.paths[spec_route_for_path(v, path)] == path,
{
    lemma_first_index_bounds(v.paths, path);
}

/// After registering a static path, the router answers that path with the builder just
/// registered, whether the path was new or already registered; other registered paths keep
/// their builders.
pub proof fn lemma_add_route_then_lookup<B>(v: RouterView<B>, path: Seq<char>, builder: B)
    requires
        v.paths.len() == v.builders.len(),
        spec_is_static_path(path),
    ensures
        ({
            let w = spec_add_route(v, path, builder);
            &&& 0 <= spec_route_for_path(w, path) < w.builders.len()
            &&& w.builders[spec_route_for_path(w, path)] == builder
            &&& forall|q: Seq<char>|
                #![trigger has_route(v.paths, q)]
                q != path && has_route(v.paths, q) ==> {
                    &&& has_route(w.paths, q)
                    &&& w.builders[spec_route_for_path(w, q)] == v.builders[spec_route_for_path(v, q)]
                }
        }),
{
    let w = spec_add_route(v, path, builder);
    lemma_first_index_bounds(v.paths, path);
    if !has_route(v.paths, path) {
        let n = v.paths.len() as int;
        assert(w.paths[n] == path);
        assert forall|j: int| 0 <= j < n implies w.paths[j] != path by {
            assert(w.paths[j] == v.paths[j]);
        }
        lemma_first_index(w.paths, path, n);
    }
    assert forall|q: Seq<char>|
        #![trigger has_route(v.paths, q)]
        q != path && has_route(v.paths, q) implies {
            &&& has_route(w.paths, q)
            &&& w.builders[spec_route_for_path(w, q)] == v.builders[spec_route_for_path(v, q)]
        } by {
        lemma_first_index_bounds(v.paths, q);
        let i = first_index(v.paths, q);
        assert(w.paths[i] == q);
        assert forall|j: int| 0 <= j < i implies w.paths[j] != q by {
            assert(w.paths[j] == v.paths[j]);
        }
        lemma_first_index(w.paths, q, i);
    }
}

/// Registering routes keeps every registered path static.
pub proof fn lemma_add_route_keeps_static<B>(v: RouterView<B>, path: Seq<char>, builder: B)
    requires
        forall|i: int| 0 <= i < v.paths.len() ==> spec_is_static_path(#[trigger] v.paths[i]),
    ensures
        forall|i: int|
            0 <= i < spec_add_route(v, path, builder).paths.len() ==> spec_is_static_path(
                #[trigger] spec_add_route(v, path, builder).paths[i],
            ),
{
}

/// Hosts the screen of the current route: the router and the path whose screen is built.
pub struct RouterHost<B> {
    router: Router<B>,
    active_path: String,
}

impl<B> RouterHost<B> {
    /// The router being hosted.
    pub closed spec fn spec_router(&self) -> RouterView<B> {
        self.router@
    }

    /// The path whose screen is built.
    pub closed spec fn spec_active_path(&self) -> Seq<char> {
        self.active_path@
    }

    /// Host `router`: the active path is the one its current path resolves to, and the
    /// router's current entry is replaced with that path (which `replace` resolves again).
    pub fn new(router: Router<B>) -> (r: Self)
        ensures
            ({
                let p = spec_resolve_path(router@, spec_current(router@.state));
                &&& r.spec_active_path() == p
                &&& r.spec_router() == with_state(
                    router@,
                    spec_replace(router@.state, spec_resolve_path(router@, p)),
                )
            }),
    {
        let mut router = router;
        let current = router.current_path();
        let active_path = router.resolve_path(current.as_str());
        router.replace(active_path.as_str());
        RouterHost { router, active_path }
    }

    /// Bring the hosted screen up to date with the router. When the resolved current path
    /// differs from the built one, or no screen is built, the router's current entry is
    /// replaced with that path (resolved again by `replace`), it becomes the active one, and
    /// the screen must be rebuilt (`true`); otherwise nothing changes (`false`).
    pub fn sync(&mut self, has_screen: bool) -> (r: bool)
        ensures
            ({
                let p = spec_resolve_path(old(self).spec_router(), spec_current(old(self).spec_router().state));
                &&& r == (p != old(self).spec_active_path() || !has_screen)
                &&& r ==> final(self).spec_active_path() == p && final(self).spec_router() == with_state(
                    old(self).spec_router(),
                    spec_replace(
                        old(self).spec_router().state,
                        spec_resolve_path(old(self).spec_router(), p),
                    ),
                )
                &&& !r ==> final(self).spec_active_path() == old(self).spec_active_path()
                    && final(self).spec_router() == old(self).spec_router()
            }),
    {
        let current = self.router.current_path();
        let path = self.router.resolve_path(current.as_str());
        if !str_eq(path.as_str(), self.active_path.as_str()) || !has_screen {
            self.router.replace(path.as_str());
            self.active_path = path;
            true
        } else {
            false
        }
    }

    /// The router being hosted.
    pub fn router(&self) -> (r: &Router<B>)
        ensures
            r@ == self.spec_router(),
    {
        &self.router
    }

    /// The router being hosted, for navigation.
    pub fn router_mut(&mut self) -> (r: &mut Router<B>)
        ensures
            r@ == old(self).spec_router(),
            final(self).spec_router() == final(r)@,
            final(self).spec_active_path() == old(self).spec_active_path(),
    {
        &mut self.router
    }

    /// The path whose screen is built.
    pub fn active_path(&self) -> (r: &str)
        ensures
            r@ == self.spec_active_path(),
    {
        self.active_path.as_str()
    }
}

} // verus!
