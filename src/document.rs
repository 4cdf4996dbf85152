//! A configuration document, held flat: each entry binds a key path
//! (`["proxy", "image"]`) to a leaf value. A nested table is the set of
//! entries that share its path as a prefix, so merging two documents path by
//! path merges their tables key-wise.

use vstd::prelude::*;

verus! {

/// A leaf value of a document. A list is replaced whole by a merge.
#[derive(Debug, PartialEq)]
pub enum Leaf {
    Text(String),
    Flag(bool),
    Int(i64),
    List(Vec<Leaf>),
}

/// A leaf value as the contracts see it: text as characters, a list as the
/// leaves it holds.
pub enum LeafView {
    Text(Seq<char>),
    Flag(bool),
    Int(int),
    List(Seq<Leaf>),
}

impl View for Leaf {
    type V = LeafView;

    open spec fn view(&self) -> LeafView {
        match self {
            Leaf::Text(s) => LeafView::Text(s@),
            Leaf::Flag(b) => LeafView::Flag(*b),
            Leaf::Int(n) => LeafView::Int(*n as int),
            Leaf::List(v) => LeafView::List(v@),
        }
    }
}

/// One binding of a document.
#[derive(Debug, PartialEq)]
pub struct Entry {
    pub path: Vec<String>,
    pub value: Leaf,
}

/// A key path as a sequence of keys.
pub type KeyPath = Seq<Seq<char>>;

/// An entry as a path and its leaf.
pub type Binding = (KeyPath, LeafView);

pub open spec fn path_view(p: Seq<String>) -> KeyPath {
    p.map_values(|s: String| s@)
}

impl View for Entry {
    type V = Binding;

    open spec fn view(&self) -> Binding {
        (path_view(self.path@), self.value@)
    }
}

/// A configuration document: its bindings, in order.
#[derive(Debug, PartialEq)]
pub struct Document {
    pub entries: Vec<Entry>,
}

impl View for Document {
    type V = Seq<Binding>;

    open spec fn view(&self) -> Seq<Binding> {
        self.entries@.map_values(|e: Entry| e@)
    }
}

/// The value bound to `p`; where `p` is bound more than once, the last
/// binding counts.
pub open spec fn find(d: Seq<Binding>, p: KeyPath) -> Option<LeafView>
    decreases d.len(),
{
    if d.len() == 0 {
        None
    } else if d.last().0 == p {
        Some(d.last().1)
    } else {
        find(d.drop_last(), p)
    }
}

/// Two paths clash when one is a prefix of the other: binding one of them
/// leaves no room for the other (a leaf cannot also be a table).
pub open spec fn clashes(a: KeyPath, b: KeyPath) -> bool {
    forall|k: int| 0 <= k < a.len() && k < b.len() ==> a[k] == b[k]
}

/// Some binding of `o` clashes with the path `p`.
pub open spec fn overridden(o: Seq<Binding>, p: KeyPath) -> bool {
    exists|j: int| 0 <= j < o.len() && clashes(o[j].0, p)
}

/// The bindings of `b` that survive an overlay by `o`, in order.
pub open spec fn kept(b: Seq<Binding>, o: Seq<Binding>) -> Seq<Binding>
    decreases b.len(),
{
    if b.len() == 0 {
        Seq::empty()
    } else if overridden(o, b.last().0) {
        kept(b.drop_last(), o)
    } else {
        kept(b.drop_last(), o).push(b.last())
    }
}

/// `o` laid over `b`: what `o` binds, and what `b` binds where `o` says
/// nothing of the path or of a path that clashes with it.
pub open spec fn merged(b: Seq<Binding>, o: Seq<Binding>) -> Seq<Binding> {
    kept(b, o) + o
}

/// `layers` laid over `b` one after another, the last one on top.
pub open spec fn merged_all(b: Seq<Binding>, layers: Seq<Seq<Binding>>) -> Seq<Binding>
    decreases layers.len(),
{
    if layers.len() == 0 {
        b
    } else {
        merged(merged_all(b, layers.drop_last()), layers.last())
    }
}

/// What a lookup in `b` overlaid by `o` gives, in terms of the two layers.
pub open spec fn find_overlaid(b: Seq<Binding>, o: Seq<Binding>, p: KeyPath) -> Option<LeafView> {
    if find(o, p) is Some {
        find(o, p)
    } else if overridden(o, p) {
        None
    } else {
        find(b, p)
    }
}

/// A lookup in `a` followed by `b` sees `b` first.
pub proof fn lemma_find_concat(a: Seq<Binding>, b: Seq<Binding>, p: KeyPath)
    ensures
        find(a + b, p) == (if find(b, p) is Some { find(b, p) } else { find(a, p) }),
    decreases b.len(),
{
    if b.len() == 0 {
        assert(a + b =~= a);
    } else {
        assert((a + b).drop_last() =~= a + b.drop_last());
        assert((a + b).last() == b.last());
        lemma_find_concat(a, b.drop_last(), p);
    }
}

proof fn lemma_find_kept(b: Seq<Binding>, o: Seq<Binding>, p: KeyPath)
    ensures
        find(kept(b, o), p) == (if overridden(o, p) { None } else { find(b, p) }),
    decreases b.len(),
{
    if b.len() > 0 {
        lemma_find_kept(b.drop_last(), o, p);
        let e = b.last();
        if !overridden(o, e.0) {
            assert(kept(b, o).drop_last() =~= kept(b.drop_last(), o));
        }
    }
}

/// A lookup in a merged document sees the overlay first: a path that the
/// overlay binds takes the overlay's value, a path that clashes with one of
/// the overlay's is gone, and any other path keeps the base's value.
pub proof fn lemma_find_merged(b: Seq<Binding>, o: Seq<Binding>, p: KeyPath)
    ensures
        find(merged(b, o), p) == find_overlaid(b, o, p),
{
    lemma_find_concat(kept(b, o), o, p);
    lemma_find_kept(b, o, p);
    if find(o, p) is Some {
        lemma_find_some_overridden(o, p);
    }
}

proof fn lemma_find_some_overridden(o: Seq<Binding>, p: KeyPath)
    requires
        find(o, p) is Some,
    ensures
        overridden(o, p),
    decreases o.len(),
{
    if o.last().0 == p {
        assert(clashes(o[o.len() - 1].0, p));
    } else {
        lemma_find_some_overridden(o.drop_last(), p);
        let j = choose|j: int| 0 <= j < o.drop_last().len() && clashes(o.drop_last()[j].0, p);
        assert(clashes(o[j].0, p));
    }
}

/// Whether two key paths clash: one is a prefix of the other.
pub fn paths_clash(a: &Vec<String>, b: &Vec<String>) -> (r: bool)
    ensures
        r == clashes(path_view(a@), path_view(b@)),
{
    let n: usize = if a.len() < b.len() { a.len() } else { b.len() };
    let mut k: usize = 0;
    while k < n
        invariant
            n <= a.len(),
            n <= b.len(),
            n == a.len() || n == b.len(),
            k <= n,
            forall|i: int| 0 <= i < k ==> path_view(a@)[i] == path_view(b@)[i],
        decreases n - k,
    {
        if a[k] != b[k] {
            assert(!(path_view(a@)[k as int] == path_view(b@)[k as int]));
            return false;
        }
        k = k + 1;
    }
    true
}

/// Whether some entry of `o` clashes with `p`.
fn is_overridden(o: &Vec<Entry>, p: &Vec<String>) -> (r: bool)
    ensures
        r == overridden(o@.map_values(|e: Entry| e@), path_view(p@)),
{
    let ghost ov = o@.map_values(|e: Entry| e@);
    let mut j: usize = 0;
    while j < o.len()
        invariant
            j <= o.len(),
            ov == o@.map_values(|e: Entry| e@),
            forall|i: int| 0 <= i < j ==> !clashes(ov[i].0, path_view(p@)),
        decreases o.len() - j,
    {
        if paths_clash(&o[j].path, p) {
            assert(clashes(ov[j as int].0, path_view(p@)));
            return true;
        }
        j = j + 1;
    }
    false
}

impl Document {
    /// A document with no entries.
    pub fn empty() -> (r: Document)
        ensures
            r@ == Seq::<Binding>::empty(),
    {
        Document { entries: Vec::new() }
    }

    /// The value bound to `path`, the last binding where there are several.
    pub fn lookup(&self, path: &Vec<String>) -> (r: Option<&Leaf>)
        ensures
            r matches Some(v) ==> find(self@, path_view(path@)) == Some(v@),
            r is None ==> find(self@, path_view(path@)) is None,
    {
        let mut i: usize = self.entries.len();
        assert(self@.subrange(0, i as int) =~= self@);
        while i > 0
            invariant
                i <= self.entries.len(),
                find(self@, path_view(path@)) == find(self@.subrange(0, i as int), path_view(path@)),
            decreases i,
        {
            let e = &self.entries[i - 1];
            assert(self@.subrange(0, i as int).drop_last() =~= self@.subrange(0, i - 1));
            if paths_equal(&e.path, path) {
                return Some(&e.value);
            }
            i = i - 1;
        }
        assert(self@.subrange(0, 0) =~= Seq::<Binding>::empty());
        None
    }

    /// This document with `over` laid on top of it: every entry of `over`,
    /// after those entries of this document whose path clashes with none of
    /// `over`'s.
    pub fn merge(self, over: Document) -> (r: Document)
        ensures
            r@ == merged(self@, over@),
    {
        let mut base = self.entries;
        let ghost b = base@.map_values(|e: Entry| e@);
        let ghost n = b.len();
        let mut out: Vec<Entry> = Vec::new();
        let mut i: usize = 0;
        assert(n == base.len());
        while base.len() > 0
            invariant
                n == b.len(),
                n <= usize::MAX,
                i + base.len() == n,
                base@.map_values(|e: Entry| e@) =~= b.subrange(i as int, n as int),
                out@.map_values(|e: Entry| e@) =~= kept(b.subrange(0, i as int), over@),
            decreases base.len(),
        {
            let ghost before = base@;
            let e = base.remove(0);
            assert(before.map_values(|e: Entry| e@)[0] == e@);
            assert(e@ == b[i as int]);
            assert(base@.map_values(|e: Entry| e@) =~= before.map_values(|e: Entry| e@).subrange(1, before.len() as int));
            assert(b.subrange(0, i + 1).drop_last() =~= b.subrange(0, i as int));
            assert(b.subrange(0, i + 1).last() == b[i as int]);
            if !is_overridden(&over.entries, &e.path) {
                out.push(e);
            }
            i = i + 1;
        }
        assert(b.subrange(0, n as int) =~= b);
        let mut tail = over.entries;
        out.append(&mut tail);
        Document { entries: out }
    }

    /// This document with each of `layers` laid on top in turn, the last one
    /// uppermost.
    pub fn merge_layers(self, layers: Vec<Document>) -> (r: Document)
        ensures
            r@ == merged_all(self@, layers@.map_values(|d: Document| d@)),
    {
        let ghost ls = layers@.map_values(|d: Document| d@);
        let ghost n = ls.len();
        let mut acc = self;
        let ghost start = acc@;
        let mut todo = layers;
        let mut i: usize = 0;
        assert(n == todo.len());
        while todo.len() > 0
            invariant
                n == ls.len(),
                n <= usize::MAX,
                i + todo.len() == n,
                todo@.map_values(|d: Document| d@) =~= ls.subrange(i as int, n as int),
                acc@ == merged_all(start, ls.subrange(0, i as int)),
            decreases todo.len(),
        {
            let ghost before = todo@;
            let d = todo.remove(0);
            assert(before.map_values(|d: Document| d@)[0] == d@);
            assert(d@ == ls[i as int]);
            assert(todo@.map_values(|d: Document| d@) =~= before.map_values(|d: Document| d@).subrange(1, before.len() as int));
            assert(ls.subrange(0, i + 1).drop_last() =~= ls.subrange(0, i as int));
            acc = acc.merge(d);
            i = i + 1;
        }
        assert(ls.subrange(0, n as int) =~= ls);
        acc
    }
}

/// Whether two key paths are the same.
pub fn paths_equal(a: &Vec<String>, b: &Vec<String>) -> (r: bool)
    ensures
        r == (path_view(a@) == path_view(b@)),
{
    if a.len() != b.len() {
        assert(path_view(a@).len() != path_view(b@).len());
        return false;
    }
    let r = paths_clash(a, b);
    if r {
        assert(path_view(a@) =~= path_view(b@));
    }
    r
}

/// `p` lies strictly below `pre`: `pre` is a proper prefix of it.
pub open spec fn is_below(p: KeyPath, pre: KeyPath) -> bool {
    p.len() > pre.len() && p.subrange(0, pre.len() as int) == pre
}

/// The bindings of `d` that lie strictly below `pre`, with `pre` taken off
/// their paths, in order.
pub open spec fn below(d: Seq<Binding>, pre: KeyPath) -> Seq<Binding>
    decreases d.len(),
{
    if d.len() == 0 {
        Seq::empty()
    } else if is_below(d.last().0, pre) {
        below(d.drop_last(), pre).push(
            (d.last().0.subrange(pre.len() as int, d.last().0.len() as int), d.last().1),
        )
    } else {
        below(d.drop_last(), pre)
    }
}

/// The bindings of `d` with `pre` put before each path.
pub open spec fn prefixed(d: Seq<Binding>, pre: KeyPath) -> Seq<Binding> {
    d.map_values(|b: Binding| (pre + b.0, b.1))
}

/// Whether `p` lies strictly below `pre`.
pub fn path_is_below(p: &Vec<String>, pre: &Vec<String>) -> (r: bool)
    ensures
        r == is_below(path_view(p@), path_view(pre@)),
{
    if p.len() <= pre.len() {
        return false;
    }
    let r = paths_clash(p, pre);
    assert(r == (path_view(p@).subrange(0, pre.len() as int) =~= path_view(pre@)));
    r
}

/// `t` with `pre` put before each path.
pub fn prefix_all(t: Document, pre: &Vec<String>) -> (r: Document)
    ensures
        r@ == prefixed(t@, path_view(pre@)),
{
    let mut src = t.entries;
    let ghost tv = src@.map_values(|e: Entry| e@);
    let ghost n = tv.len();
    let ghost pv = path_view(pre@);
    let mut out: Vec<Entry> = Vec::new();
    let mut i: usize = 0;
    assert(n == src.len());
    while src.len() > 0
        invariant
            n == tv.len(),
            n <= usize::MAX,
            i + src.len() == n,
            pv == path_view(pre@),
            src@.map_values(|e: Entry| e@) =~= tv.subrange(i as int, n as int),
            out@.map_values(|e: Entry| e@) =~= prefixed(tv.subrange(0, i as int), pv),
        decreases src.len(),
    {
        let ghost before = src@;
        let e = src.remove(0);
        assert(before.map_values(|e: Entry| e@)[0] == e@);
        assert(src@.map_values(|e: Entry| e@) =~= before.map_values(|e: Entry| e@).subrange(1, before.len() as int));
        let mut path: Vec<String> = Vec::new();
        let mut k: usize = 0;
        while k < pre.len()
            invariant
                k <= pre.len(),
                path_view(path@) =~= pv.subrange(0, k as int),
                pv == path_view(pre@),
            decreases pre.len() - k,
        {
            let ghost prev = path@;
            let key = pre[k].clone();
            path.push(key);
            assert(path@ =~= prev.push(key));
            assert(path_view(path@) =~= path_view(prev).push(pv[k as int]));
            k = k + 1;
        }
        assert(pv.subrange(0, pre.len() as int) =~= pv);
        let ghost head = path@;
        let mut rest = e.path;
        let ghost tail = rest@;
        path.append(&mut rest);
        assert(path@ =~= head + tail);
        assert(path_view(path@) =~= path_view(head) + path_view(tail));
        let ne = Entry { path, value: e.value };
        assert(ne@ == (pv + tv[i as int].0, tv[i as int].1));
        out.push(ne);
        assert(prefixed(tv.subrange(0, i + 1), pv) =~= prefixed(tv.subrange(0, i as int), pv).push(ne@));
        i = i + 1;
    }
    assert(tv.subrange(0, n as int) =~= tv);
    Document { entries: out }
}

/// A path that the uppermost layer binds takes that layer's value, whatever
/// the base and the layers beneath bind it to.
pub proof fn lemma_last_layer_wins(b: Seq<Binding>, layers: Seq<Seq<Binding>>, p: KeyPath)
    requires
        layers.len() > 0,
        find(layers.last(), p) is Some,
    ensures
        find(merged_all(b, layers), p) == find(layers.last(), p),
{
    lemma_find_merged(merged_all(b, layers.drop_last()), layers.last(), p);
}

/// An overlay that binds no path clashing with `p` (a sibling key in the
/// same table, say) leaves the base's value at `p` as it was.
pub proof fn lemma_unclashing_path_kept(b: Seq<Binding>, o: Seq<Binding>, p: KeyPath)
    requires
        !overridden(o, p),
    ensures
        find(merged(b, o), p) == find(b, p),
{
    lemma_find_merged(b, o, p);
    if find(o, p) is Some {
        lemma_find_some_overridden(o, p);
    }
}

proof fn lemma_kept_empty(b: Seq<Binding>)
    ensures
        kept(b, Seq::empty()) == b,
    decreases b.len(),
{
    if b.len() > 0 {
        lemma_kept_empty(b.drop_last());
        assert(b.drop_last().push(b.last()) =~= b);
    }
}

/// Fragments that hold nothing leave the base as it is: no fragments and any
/// number of empty ones resolve alike.
pub proof fn lemma_empty_layers(b: Seq<Binding>, layers: Seq<Seq<Binding>>)
    requires
        forall|i: int| 0 <= i < layers.len() ==> (#[trigger] layers[i]).len() == 0,
    ensures
        merged_all(b, layers) == b,
    decreases layers.len(),
{
    if layers.len() > 0 {
        lemma_empty_layers(b, layers.drop_last());
        assert(layers.last() =~= Seq::<Binding>::empty());
        lemma_kept_empty(b);
        assert(merged(b, layers.last()) =~= b);
    }
}

/// A path that no binding of `d` has is unbound in `d`.
pub proof fn lemma_find_absent(d: Seq<Binding>, p: KeyPath)
    requires
        forall|i: int| 0 <= i < d.len() ==> d[i].0 != p,
    ensures
        find(d, p) is None,
    decreases d.len(),
{
    if d.len() > 0 {
        assert(d.last().0 == d[d.len() - 1].0);
        lemma_find_absent(d.drop_last(), p);
    }
}

pub proof fn lemma_below_append(a: Seq<Binding>, b: Seq<Binding>, pre: KeyPath)
    ensures
        below(a + b, pre) == below(a, pre) + below(b, pre),
    decreases b.len(),
{
    if b.len() == 0 {
        assert(a + b =~= a);
        assert(below(a, pre) + below(b, pre) =~= below(a, pre));
    } else {
        assert((a + b).drop_last() =~= a + b.drop_last());
        assert((a + b).last() == b.last());
        lemma_below_append(a, b.drop_last(), pre);
        if is_below(b.last().0, pre) {
            assert(below(a + b, pre) =~= below(a, pre) + below(b, pre));
        } else {
            assert(below(a + b, pre) =~= below(a, pre) + below(b, pre));
        }
    }
}

/// Nothing of `d` lies below `pre` where no path of it does.
pub proof fn lemma_below_none(d: Seq<Binding>, pre: KeyPath)
    requires
        forall|i: int| 0 <= i < d.len() ==> !is_below(d[i].0, pre),
    ensures
        below(d, pre) == Seq::<Binding>::empty(),
    decreases d.len(),
{
    if d.len() > 0 {
        assert(d.last().0 == d[d.len() - 1].0);
        lemma_below_none(d.drop_last(), pre);
    }
}

/// Putting bindings with non-empty paths under `pre` and taking back what
/// lies below `pre` gives them back.
pub proof fn lemma_below_prefixed(t: Seq<Binding>, pre: KeyPath)
    requires
        forall|i: int| 0 <= i < t.len() ==> (#[trigger] t[i]).0.len() > 0,
    ensures
        below(prefixed(t, pre), pre) == t,
    decreases t.len(),
{
    if t.len() > 0 {
        let q = t.last();
        assert(q == t[t.len() - 1]);
        assert(prefixed(t, pre).drop_last() =~= prefixed(t.drop_last(), pre));
        lemma_below_prefixed(t.drop_last(), pre);
        let pq = pre + q.0;
        assert(prefixed(t, pre).last() == (pq, q.1));
        assert(pq.subrange(0, pre.len() as int) =~= pre);
        assert(pq.subrange(pre.len() as int, pq.len() as int) =~= q.0);
        assert(t.drop_last().push(q) =~= t);
    }
}

/// Nothing put under `pre2` lies below a `pre` that parts from it.
pub proof fn lemma_below_prefixed_other(t: Seq<Binding>, pre2: KeyPath, pre: KeyPath, k: int)
    requires
        0 <= k < pre.len(),
        k < pre2.len(),
        pre[k] != pre2[k],
    ensures
        below(prefixed(t, pre2), pre) == Seq::<Binding>::empty(),
{
    let d = prefixed(t, pre2);
    assert forall|i: int| 0 <= i < d.len() implies !is_below(d[i].0, pre) by {
        let p = d[i].0;
        assert(p == pre2 + t[i].0);
        if is_below(p, pre) {
            assert(p.subrange(0, pre.len() as int)[k] == p[k]);
        }
    }
    lemma_below_none(d, pre);
}


impl Document {
    /// Whether some binding lies strictly below `pre`.
    pub fn has_below(&self, pre: &Vec<String>) -> (r: bool)
        ensures
            r == (below(self@, path_view(pre@)).len() > 0),
    {
        let mut i: usize = 0;
        let ghost pv = path_view(pre@);
        while i < self.entries.len()
            invariant
                i <= self.entries.len(),
                pv == path_view(pre@),
                below(self@.subrange(0, i as int), pv).len() == 0,
            decreases self.entries.len() - i,
        {
            assert(self@.subrange(0, i + 1).drop_last() =~= self@.subrange(0, i as int));
            assert(self@.subrange(0, i + 1).last() == self@[i as int]);
            if path_is_below(&self.entries[i].path, pre) {
                proof { lemma_below_grows(self@, pv, i as int); }
                return true;
            }
            i = i + 1;
        }
        assert(self@.subrange(0, self.entries.len() as int) =~= self@);
        false
    }
}

/// Once a binding below `pre` is seen, what lies below `pre` is not empty.
proof fn lemma_below_grows(d: Seq<Binding>, pre: KeyPath, i: int)
    requires
        0 <= i < d.len(),
        is_below(d[i].0, pre),
    ensures
        below(d, pre).len() > 0,
    decreases d.len(),
{
    if i < d.len() - 1 {
        assert(d.drop_last()[i] == d[i]);
        lemma_below_grows(d.drop_last(), pre, i);
    }
}

} // verus!
