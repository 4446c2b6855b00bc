use vstd::prelude::*;

verus! {

/// The identifiers of an element and of all the elements below it, in the
/// shape of the element tree.
///
/// This is what the searches of an element tree read: each element's `id()`
/// and the list of its `children()`, in order.
pub struct IdTree {
    pub id: u32,
    pub children: Vec<IdTree>,
}

impl IdTree {
    /// The identifiers below this element among its first `n` children, in
    /// the order a depth-first walk meets them: each child's own identifier
    /// first, then those below it.
    pub open spec fn ids_upto(self, n: int) -> Seq<u32>
        decreases self, n,
    {
        if n <= 0 || n > self.children@.len() {
            Seq::empty()
        } else {
            let c = self.children@[n - 1];
            self.ids_upto(n - 1).push(c.id) + c.ids_upto(c.children@.len() as int)
        }
    }

    /// The identifiers of all elements below this one (not its own).
    pub open spec fn descendants(self) -> Seq<u32> {
        self.ids_upto(self.children@.len() as int)
    }

    /// The search for `id` among the children from the `i`-th on: the first
    /// child that is `id` gives the path to itself; the first child that has
    /// `id` below it gives the path through it to the element found there.
    pub open spec fn find_from(self, id: u32, i: int) -> Option<Seq<int>>
        decreases self, self.children@.len() - i,
    {
        if i < 0 || i >= self.children@.len() {
            None
        } else {
            let c = self.children@[i];
            if c.id == id {
                Some(seq![i])
            } else if c.descendants().contains(id) {
                match c.find_from(id, 0) {
                    Some(p) => Some(seq![i] + p),
                    None => None,
                }
            } else {
                self.find_from(id, i + 1)
            }
        }
    }

    /// The element that a path of child indices leads to, if it leads to one.
    pub open spec fn node_at(self, path: Seq<int>) -> Option<IdTree>
        decreases path.len(),
    {
        if path.len() == 0 {
            Some(self)
        } else if 0 <= path[0] < self.children@.len() {
            self.children@[path[0]].node_at(path.drop_first())
        } else {
            None
        }
    }

    /// The identifiers of all elements below this one, each child's own
    /// identifier first and then those below it.
    pub fn child_ids(&self) -> (out: Vec<u32>)
        ensures
            out@ == self.descendants(),
        decreases self,
    {
        let mut out: Vec<u32> = Vec::new();
        let n = self.children.len();
        for i in 0..n
            invariant
                n == self.children@.len(),
                out@ == self.ids_upto(i as int),
        {
            let child = &self.children[i];
            out.push(child.id);
            let mut below = child.child_ids();
            out.append(&mut below);
        }
        out
    }

    /// Find a child by ID: the path of child indices from this element to
    /// the element found, or `None` where no element below has that ID.
    pub fn find_child(&self, id: u32) -> (r: Option<Vec<usize>>)
        ensures
            r is None ==> self.find_from(id, 0) is None,
            r matches Some(p) ==> self.find_from(id, 0) == Some(index_path(p@)),
        decreases self,
    {
        let n = self.children.len();
        for i in 0..n
            invariant
                n == self.children@.len(),
                self.find_from(id, 0) == self.find_from(id, i as int),
        {
            let child = &self.children[i];
            if child.id == id {
                let out = vec![i];
                assert(index_path(out@) =~= seq![i as int]);
                return Some(out);
            }
            let ids = child.child_ids();
            if contains_id(&ids, id) {
                match child.find_child(id) {
                    Some(p) => {
                        let mut out = vec![i];
                        let mut rest = p;
                        out.append(&mut rest);
                        assert(index_path(out@) =~= seq![i as int] + index_path(p@));
                        return Some(out);
                    },
                    None => {
                        return None;
                    },
                }
            }
        }
        None
    }
}

/// A path of exec indices read as integers.
pub open spec fn index_path(p: Seq<usize>) -> Seq<int> {
    p.map_values(|k: usize| k as int)
}

/// Whether `id` occurs in `ids`.
pub fn contains_id(ids: &Vec<u32>, id: u32) -> (r: bool)
    ensures
        r == ids@.contains(id),
{
    let n = ids.len();
    for i in 0..n
        invariant
            n == ids@.len(),
            forall|j: int| 0 <= j < i ==> ids@[j] != id,
    {
        if ids[i] == id {
            return true;
        }
    }
    false
}

/// Whether the `i`-th child of `t` is `x` or has `x` below it.
pub open spec fn child_has(t: IdTree, i: int, x: u32) -> bool {
    0 <= i < t.children@.len() && (t.children@[i].id == x || t.children@[i].descendants().contains(x))
}

/// An identifier lies below an element exactly when one of its children is
/// that identifier or has it below.
pub proof fn lemma_ids_upto_contains(t: IdTree, n: int, x: u32)
    requires
        0 <= n <= t.children@.len(),
    ensures
        t.ids_upto(n).contains(x) <==> exists|i: int|
            0 <= i < n && #[trigger] child_has(t, i, x),
    decreases n,
{
    if n > 0 {
        lemma_ids_upto_contains(t, n - 1, x);
        let c = t.children@[n - 1];
        let front = t.ids_upto(n - 1).push(c.id);
        let whole = front + c.descendants();
        assert(t.ids_upto(n) == whole);
        if whole.contains(x) {
            let k = choose|k: int| 0 <= k < whole.len() && #[trigger] whole[k] == x;
            if k < front.len() {
                if k < front.len() - 1 {
                    assert(t.ids_upto(n - 1)[k] == x);
                    assert(t.ids_upto(n - 1).contains(x));
                    let i = choose|i: int| 0 <= i < n - 1 && #[trigger] child_has(t, i, x);
                    assert(child_has(t, i, x));
                } else {
                    assert(c.id == x);
                    assert(child_has(t, n - 1, x));
                }
            } else {
                assert(c.descendants()[k - front.len()] == x);
                assert(c.descendants().contains(x));
                assert(child_has(t, n - 1, x));
            }
        }
        let has = exists|i: int|
            0 <= i < n && #[trigger] child_has(t, i, x);
        if has {
            let i = choose|i: int|
                0 <= i < n && #[trigger] child_has(t, i, x);
            let prev = t.ids_upto(n - 1);
            if i < n - 1 {
                assert(0 <= i < n - 1 && child_has(t, i, x));
                assert(prev.contains(x));
                let k = choose|k: int| 0 <= k < prev.len() && #[trigger] prev[k] == x;
                assert(front[k] == prev[k]);
                assert(whole[k] == x);
            } else if c.id == x {
                assert(front[front.len() - 1] == x);
                assert(whole[front.len() - 1] == x);
            } else {
                assert(t.children@[i] == c);
                assert(c.descendants().contains(x));
                let k = choose|k: int| 0 <= k < c.descendants().len() && #[trigger] c.descendants()[k] == x;
                assert(whole[front.len() + k] == c.descendants()[k]);
                assert(whole[front.len() + k] == x);
            }
            assert(whole.contains(x));
        }
    }
}

/// The search from the `i`-th child on finds something exactly when some
/// child from the `i`-th on is the identifier or has it below.
proof fn lemma_find_from_some(t: IdTree, id: u32, i: int)
    requires
        0 <= i <= t.children@.len(),
    ensures
        t.find_from(id, i) is Some <==> exists|j: int|
            i <= j < t.children@.len() && #[trigger] child_has(t, j, id),
    decreases t, t.children@.len() - i,
{
    if i < t.children@.len() {
        let c = t.children@[i];
        if c.id == id {
            assert(child_has(t, i, id));
        } else if c.descendants().contains(id) {
            lemma_ids_upto_contains(c, c.children@.len() as int, id);
            lemma_find_from_some(c, id, 0);
            assert(child_has(t, i, id));
        } else {
            lemma_find_from_some(t, id, i + 1);
            assert(t.find_from(id, i) == t.find_from(id, i + 1));
            assert forall|j: int|
                i <= j < t.children@.len() && #[trigger] child_has(t, j, id)
                implies i + 1 <= j by {
                if j == i {
                    assert(t.children@[j] == c);
                }
            }
        }
    }
}

/// What the search finds is the element asked for: the path leads to an
/// element with that identifier.
proof fn lemma_find_from_leads_to(t: IdTree, id: u32, i: int)
    requires
        t.find_from(id, i) is Some,
    ensures
        t.node_at(t.find_from(id, i).unwrap()) matches Some(n) && n.id == id,
    decreases t, t.children@.len() - i,
{
    let c = t.children@[i];
    let p = t.find_from(id, i).unwrap();
    if c.id == id {
        assert(p == seq![i]);
        assert(p.drop_first() =~= Seq::<int>::empty());
        assert(c.node_at(Seq::<int>::empty()) == Some(c));
        assert(t.node_at(p) == c.node_at(p.drop_first()));
    } else if c.descendants().contains(id) {
        lemma_find_from_leads_to(c, id, 0);
        let q = c.find_from(id, 0).unwrap();
        assert(p == seq![i] + q);
        assert(p.drop_first() =~= q);
        assert(t.node_at(p) == c.node_at(p.drop_first()));
    } else {
        lemma_find_from_leads_to(t, id, i + 1);
    }
}

/// `find_child` finds exactly the identifiers that `child_ids` lists, and
/// the path it gives leads to an element with the identifier asked for.
pub proof fn lemma_find_child_complete(t: IdTree, id: u32)
    ensures
        t.find_from(id, 0) is Some <==> t.descendants().contains(id),
        t.find_from(id, 0) matches Some(p) ==> (t.node_at(p) matches Some(n) && n.id == id),
{
    lemma_ids_upto_contains(t, t.children@.len() as int, id);
    lemma_find_from_some(t, id, 0);
    if t.find_from(id, 0) is Some {
        lemma_find_from_leads_to(t, id, 0);
    }
}

} // verus!
