//! A relation between the locals of a function body, and the set of locals
//! that its transitive closure relates to a given one.
use vstd::prelude::*;

verus! {

/// The relation: for each local that has related locals, the list of them,
/// in the order they were added.
pub struct TransitiveRelation {
    relations: Vec<(usize, Vec<usize>)>,
}

/// The locals directly related to `u` in the entries `rel`: the list of the
/// first entry of `u`, or none.
pub open spec fn succs(rel: Seq<(usize, Vec<usize>)>, u: usize) -> Seq<usize>
    decreases rel.len(),
{
    if rel.len() == 0 {
        Seq::empty()
    } else if rel[0].0 == u {
        rel[0].1@
    } else {
        succs(rel.drop_first(), u)
    }
}

/// Whether `path` is a chain of related locals, each related to the next.
pub open spec fn is_chain(rel: Seq<(usize, Vec<usize>)>, path: Seq<usize>) -> bool {
    forall|i: int| 0 <= i < path.len() - 1 ==> #[trigger] succs(rel, path[i]).contains(path[i + 1])
}

/// Whether `v` is related to `a` by the transitive closure: a chain of one
/// or more steps leads from `a` to `v`.
pub open spec fn reaches(rel: Seq<(usize, Vec<usize>)>, a: usize, v: usize) -> bool {
    exists|path: Seq<usize>|
        path.len() >= 2 && path[0] == a && path.last() == v && #[trigger] is_chain(rel, path)
}

impl TransitiveRelation {
    /// The entries of the relation.
    pub closed spec fn entries(&self) -> Seq<(usize, Vec<usize>)> {
        self.relations@
    }

    /// The locals directly related to `u`.
    pub open spec fn related(&self, u: usize) -> Seq<usize> {
        succs(self.entries(), u)
    }

    /// Whether every related local is below `n`.
    pub open spec fn within(&self, n: usize) -> bool {
        forall|u: usize, i: int| 0 <= i < self.related(u).len() ==> #[trigger] self.related(u)[i] < n
    }

    /// The empty relation.
    pub fn new() -> (r: TransitiveRelation)
        ensures
            forall|u: usize| r.related(u) == Seq::<usize>::empty(),
    {
        TransitiveRelation { relations: Vec::new() }
    }

    /// Relates `b` to `a`.
    pub fn add(&mut self, a: usize, b: usize)
        ensures
            final(self).related(a) == old(self).related(a).push(b),
            forall|u: usize| u != a ==> final(self).related(u) == old(self).related(u),
    {
        let ghost old_rel = self.relations@;
        let mut i: usize = 0;
        while i < self.relations.len()
            invariant
                self.relations@ == old_rel,
                old_rel == old(self).relations@,
                i <= self.relations.len(),
                forall|j: int| 0 <= j < i ==> (#[trigger] old_rel[j]).0 != a,
            decreases self.relations.len() - i,
        {
            if self.relations[i].0 == a {
                let mut entry = self.relations.remove(i);
                entry.1.push(b);
                self.relations.insert(i, entry);
                proof {
                    let e = self.relations@[i as int];
                    assert(self.relations@ =~= old_rel.update(i as int, e));
                    lemma_succs_at(old_rel, i as int, a);
                    assert forall|j: int| 0 <= j < i implies (#[trigger] self.relations@[j]).0 != a by {
                        assert(self.relations@[j] == old_rel[j]);
                    }
                    lemma_succs_at(self.relations@, i as int, a);
                    assert forall|u: usize| u != a implies succs(self.relations@, u) == succs(old_rel, u) by {
                        lemma_succs_other_update(old_rel, i as int, e, u);
                    }
                }
                return;
            }
            i = i + 1;
        }
        let mut list: Vec<usize> = Vec::new();
        list.push(b);
        let ghost e = (a, list);
        self.relations.push((a, list));
        proof {
            lemma_succs_absent(old_rel, a);
            assert forall|j: int| 0 <= j < old_rel.len() implies (#[trigger] self.relations@[j]).0 != a by {
                assert(self.relations@[j] == old_rel[j]);
            }
            lemma_succs_at(self.relations@, old_rel.len() as int, a);
            assert forall|u: usize| u != a implies succs(self.relations@, u) == succs(old_rel, u) by {
                lemma_succs_other_push(old_rel, e, u);
            }
        }
    }

    fn get(&self, u: usize) -> (r: Option<&Vec<usize>>)
        ensures
            match r {
                Some(v) => v@ == self.related(u),
                None => self.related(u) == Seq::<usize>::empty(),
            },
    {
        let mut i: usize = 0;
        assert(self.relations@.skip(0) =~= self.relations@);
        while i < self.relations.len()
            invariant
                i <= self.relations.len(),
                succs(self.relations@, u) == succs(self.relations@.skip(i as int), u),
            decreases self.relations.len() - i,
        {
            assert(self.relations@.skip(i as int)[0] == self.relations@[i as int]);
            if self.relations[i].0 == u {
                return Some(&self.relations[i].1);
            }
            assert(self.relations@.skip(i as int).drop_first() =~= self.relations@.skip(i + 1));
            i = i + 1;
        }
        None
    }
}

/// The locals related to `a` are the list of its first entry.
pub proof fn lemma_succs_at(rel: Seq<(usize, Vec<usize>)>, i: int, a: usize)
    requires
        0 <= i < rel.len(),
        rel[i].0 == a,
        forall|j: int| 0 <= j < i ==> (#[trigger] rel[j]).0 != a,
    ensures
        succs(rel, a) == rel[i].1@,
    decreases i,
{
    if i > 0 {
        let r2 = rel.drop_first();
        assert forall|j: int| 0 <= j < i - 1 implies (#[trigger] r2[j]).0 != a by {
            assert(r2[j] == rel[j + 1]);
        }
        lemma_succs_at(r2, i - 1, a);
    }
}

/// A local without an entry has no related locals.
pub proof fn lemma_succs_absent(rel: Seq<(usize, Vec<usize>)>, a: usize)
    requires
        forall|j: int| 0 <= j < rel.len() ==> (#[trigger] rel[j]).0 != a,
    ensures
        succs(rel, a) == Seq::<usize>::empty(),
    decreases rel.len(),
{
    if rel.len() > 0 {
        let r2 = rel.drop_first();
        assert forall|j: int| 0 <= j < r2.len() implies (#[trigger] r2[j]).0 != a by {
            assert(r2[j] == rel[j + 1]);
        }
        lemma_succs_absent(r2, a);
    }
}

/// Replacing the entry at `i` by one of the same local changes only the
/// locals related to that local.
pub proof fn lemma_succs_other_update(rel: Seq<(usize, Vec<usize>)>, i: int, e: (usize, Vec<usize>), u: usize)
    requires
        0 <= i < rel.len(),
        rel[i].0 == e.0,
        u != e.0,
    ensures
        succs(rel.update(i, e), u) == succs(rel, u),
    decreases i,
{
    let t = rel.update(i, e);
    if i > 0 {
        if rel[0].0 != u {
            assert(t.drop_first() =~= rel.drop_first().update(i - 1, e));
            lemma_succs_other_update(rel.drop_first(), i - 1, e, u);
        }
    } else {
        assert(t.drop_first() =~= rel.drop_first());
    }
}

/// Appending an entry of another local leaves the locals related to `u`.
pub proof fn lemma_succs_other_push(rel: Seq<(usize, Vec<usize>)>, e: (usize, Vec<usize>), u: usize)
    requires
        u != e.0,
    ensures
        succs(rel.push(e), u) == succs(rel, u),
    decreases rel.len(),
{
    let t = rel.push(e);
    if rel.len() > 0 {
        assert(t[0] == rel[0]);
        if rel[0].0 != u {
            assert(t.drop_first() =~= rel.drop_first().push(e));
            lemma_succs_other_push(rel.drop_first(), e, u);
        }
    } else {
        assert(t[0] == e);
        assert(t.drop_first() =~= Seq::<(usize, Vec<usize>)>::empty());
        assert(succs(t.drop_first(), u) == Seq::<usize>::empty());
    }
}


/// The number of `false` entries of `s`.
pub open spec fn num_unseen(s: Seq<bool>) -> nat
    decreases s.len(),
{
    if s.len() == 0 {
        0
    } else {
        num_unseen(s.drop_last()) + if s.last() {
            0nat
        } else {
            1nat
        }
    }
}

/// Setting a `false` entry to `true` leaves one fewer.
pub proof fn lemma_num_unseen_set(s: Seq<bool>, i: int)
    requires
        0 <= i < s.len(),
        !s[i],
    ensures
        num_unseen(s.update(i, true)) + 1 == num_unseen(s),
    decreases s.len(),
{
    let t = s.update(i, true);
    if i < s.len() - 1 {
        assert(t.drop_last() =~= s.drop_last().update(i, true));
        lemma_num_unseen_set(s.drop_last(), i);
    } else {
        assert(t.drop_last() =~= s.drop_last());
    }
}

/// A step from a local that `a` reaches (or from `a` itself) reaches further.
pub proof fn lemma_reach_step(rel: Seq<(usize, Vec<usize>)>, a: usize, u: usize, v: usize)
    requires
        u == a || reaches(rel, a, u),
        succs(rel, u).contains(v),
    ensures
        reaches(rel, a, v),
{
    if u == a {
        let p = seq![a, v];
        assert(is_chain(rel, p)) by {
            assert forall|i: int| 0 <= i < p.len() - 1 implies #[trigger] succs(rel, p[i]).contains(p[i + 1]) by {
                assert(i == 0);
            }
        }
        assert(p.last() == v);
    } else {
        let p = choose|p: Seq<usize>| p.len() >= 2 && p[0] == a && p.last() == u && #[trigger] is_chain(rel, p);
        let q = p.push(v);
        assert(is_chain(rel, q)) by {
            assert forall|i: int| 0 <= i < q.len() - 1 implies #[trigger] succs(rel, q[i]).contains(q[i + 1]) by {
                if i < p.len() - 1 {
                    assert(q[i] == p[i] && q[i + 1] == p[i + 1]);
                    assert(succs(rel, p[i]).contains(p[i + 1]));
                } else {
                    assert(q[i] == u && q[i + 1] == v);
                }
            }
        }
        assert(q.last() == v);
    }
}

/// In a set that contains the successors of `a` and of each of its members,
/// every local that `a` reaches is a member.
pub proof fn lemma_closed_contains_reach(rel: Seq<(usize, Vec<usize>)>, a: usize, seen: Seq<bool>, v: usize)
    requires
        forall|u: usize, i: int|
            (u == a || (u < seen.len() && seen[u as int])) && 0 <= i < succs(rel, u).len() ==> #[trigger] succs(rel, u)[i]
                < seen.len() && seen[succs(rel, u)[i] as int],
        reaches(rel, a, v),
    ensures
        v < seen.len() && seen[v as int],
{
    let p = choose|p: Seq<usize>| p.len() >= 2 && p[0] == a && p.last() == v && #[trigger] is_chain(rel, p);
    lemma_chain_members(rel, a, seen, p, p.len() - 1);
}

/// Every local of a chain from `a`, after the first, is in a set closed as
/// above.
proof fn lemma_chain_members(rel: Seq<(usize, Vec<usize>)>, a: usize, seen: Seq<bool>, p: Seq<usize>, k: int)
    requires
        forall|u: usize, i: int|
            (u == a || (u < seen.len() && seen[u as int])) && 0 <= i < succs(rel, u).len() ==> #[trigger] succs(rel, u)[i]
                < seen.len() && seen[succs(rel, u)[i] as int],
        p.len() >= 2,
        p[0] == a,
        is_chain(rel, p),
        1 <= k < p.len(),
    ensures
        p[k] < seen.len() && seen[p[k] as int],
    decreases k,
{
    if k > 1 {
        lemma_chain_members(rel, a, seen, p, k - 1);
    }
    assert(succs(rel, p[k - 1]).contains(p[(k - 1) + 1]));
    assert(succs(rel, p[k - 1]).contains(p[k]));
    let i = choose|i: int| 0 <= i < succs(rel, p[k - 1]).len() && #[trigger] succs(rel, p[k - 1])[i] == p[k];
    assert(succs(rel, p[k - 1])[i] < seen.len() && seen[succs(rel, p[k - 1])[i] as int]);
}

impl TransitiveRelation {
    /// The locals that the transitive closure of the relation relates to
    /// `a`, as a set of `domain_size` flags: those that a chain of one or
    /// more steps leads to from `a`.
    pub fn reachable_from(&self, a: usize, domain_size: usize) -> (r: Vec<bool>)
        requires
            self.within(domain_size),
        ensures
            r@.len() == domain_size,
            forall|v: usize| v < domain_size ==> (r@[v as int] <==> reaches(self.entries(), a, v)),
    {
        let ghost rel = self.entries();
        let n = domain_size;
        let mut seen: Vec<bool> = Vec::new();
        while seen.len() < n
            invariant
                seen.len() <= n,
                forall|k: int| 0 <= k < seen.len() ==> !seen@[k],
            decreases n - seen.len(),
        {
            seen.push(false);
        }
        let mut stack: Vec<usize> = Vec::new();
        stack.push(a);
        assert(stack@[0] == a);
        assert(stack@.contains(a));
        while stack.len() > 0
            invariant
                rel == self.entries(),
                self.within(n),
                seen.len() == n,
                forall|v: usize| v < n && seen@[v as int] ==> reaches(rel, a, v),
                forall|k: int| 0 <= k < stack.len() ==> #[trigger] stack@[k] == a || (stack@[k] < n
                    && seen@[stack@[k] as int]),
                forall|u: usize, i: int|
                    (u == a || (u < n && seen@[u as int])) && !stack@.contains(u) && 0 <= i
                        < succs(rel, u).len() ==> #[trigger] succs(rel, u)[i] < n && seen@[succs(
                        rel,
                        u,
                    )[i] as int],
            decreases num_unseen(seen@), stack.len(),
        {
            let ghost before_unseen = num_unseen(seen@);
            let ghost before_stack = stack@;
            let u = stack.pop().unwrap();
            assert(u == a || (u < n && seen@[u as int])) by {
                assert(before_stack[before_stack.len() - 1] == u);
            }
            proof {
                assert forall|w: usize| w != u && !stack@.contains(w) implies !before_stack.contains(w) by {
                    if before_stack.contains(w) {
                        let k = choose|k: int| 0 <= k < before_stack.len() && before_stack[k] == w;
                        if k < before_stack.len() - 1 {
                            assert(stack@[k] == w);
                        }
                    }
                }
            }
            let mut pushed = false;
            match self.get(u) {
                Some(edges) => {
                    let mut j: usize = 0;
                    while j < edges.len()
                        invariant
                            rel == self.entries(),
                            self.within(n),
                            edges@ == succs(rel, u),
                            u == a || (u < n && seen@[u as int]),
                            seen.len() == n,
                            j <= edges.len(),
                            forall|v: usize| v < n && seen@[v as int] ==> reaches(rel, a, v),
                            forall|k: int| 0 <= k < stack.len() ==> #[trigger] stack@[k] == a || (
                            stack@[k] < n && seen@[stack@[k] as int]),
                            forall|w: usize, i: int|
                                w != u && (w == a || (w < n && seen@[w as int])) && !stack@.contains(
                                    w,
                                ) && 0 <= i < succs(rel, w).len() ==> #[trigger] succs(rel, w)[i] < n
                                    && seen@[succs(rel, w)[i] as int],
                            forall|i: int| 0 <= i < j ==> #[trigger] edges@[i] < n && seen@[edges@[i] as int],
                            pushed ==> num_unseen(seen@) < before_unseen,
                            !pushed ==> num_unseen(seen@) == before_unseen && stack@.len()
                                < before_stack.len(),
                        decreases edges.len() - j,
                    {
                        let v = edges[j];
                        assert(self.related(u)[j as int] == v);
                        assert(v < n);
                        if !seen[v] {
                            proof {
                                lemma_num_unseen_set(seen@, v as int);
                                lemma_reach_step(rel, a, u, v);
                            }
                            let ghost old_stack = stack@;
                            seen.set(v, true);
                            stack.push(v);
                            pushed = true;
                            proof {
                                assert(stack@[stack@.len() - 1] == v);
                                assert(stack@.contains(v));
                                assert forall|w: usize| !stack@.contains(w) implies !old_stack.contains(w) by {
                                    if old_stack.contains(w) {
                                        let k = choose|k: int| 0 <= k < old_stack.len() && old_stack[k] == w;
                                        assert(stack@[k] == w);
                                    }
                                }
                            }
                        }
                        j = j + 1;
                    }
                },
                None => {},
            }
        }
        proof {
            assert forall|v: usize| v < n implies (seen@[v as int] <==> reaches(rel, a, v)) by {
                if reaches(rel, a, v) {
                    lemma_closed_contains_reach(rel, a, seen@, v);
                }
            }
        }
        seen
    }
}

} // verus!
