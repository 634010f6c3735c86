//! The parent and child links between the elements of a scene.
use vstd::prelude::*;

verus! {

/// The sequence `s` without the value `v`, where `v` occurs in it once.
pub open spec fn without(s: Seq<usize>, v: usize) -> Seq<usize> {
    if s.contains(v) {
        s.remove(s.index_of(v))
    } else {
        s
    }
}

/// A value that does not occur in a sequence is not missed.
pub proof fn lemma_without_absent(s: Seq<usize>, v: usize)
    requires
        !s.contains(v),
    ensures
        without(s, v) == s,
{
}

/// In a sequence without repetitions, the sequence without the value at
/// place `k` is the sequence without place `k`.
pub proof fn lemma_without_at(s: Seq<usize>, k: int)
    requires
        s.no_duplicates(),
        0 <= k < s.len(),
    ensures
        s.contains(s[k]),
        s.index_of(s[k]) == k,
        without(s, s[k]) == s.remove(k),
{
    assert(s.contains(s[k]));
    let w = s.index_of(s[k]);
    assert(0 <= w < s.len() && s[w] == s[k]);
}

/// Taking out again what was put in gives the sequence back.
pub proof fn lemma_without_inserted(s: Seq<usize>, at: int, v: usize)
    requires
        s.no_duplicates(),
        !s.contains(v),
        0 <= at <= s.len(),
    ensures
        s.insert(at, v).no_duplicates(),
        s.insert(at, v).contains(v),
        without(s.insert(at, v), v) == s,
        forall|x: usize| x != v ==> (s.insert(at, v).contains(x) <==> s.contains(x)),
{
    let t = s.insert(at, v);
    assert forall|a: int, b: int| 0 <= a < t.len() && 0 <= b < t.len() && a != b implies t[a]
        != t[b] by {
        let a0 = if a < at {
            a
        } else {
            a - 1
        };
        let b0 = if b < at {
            b
        } else {
            b - 1
        };
        if a != at {
            assert(t[a] == s[a0]);
        }
        if b != at {
            assert(t[b] == s[b0]);
        }
    }
    assert(t[at] == v);
    lemma_without_at(t, at);
    assert(t.remove(at) =~= s);
    assert forall|x: usize| x != v implies (t.contains(x) <==> s.contains(x)) by {
        if s.contains(x) {
            let w = choose|w: int| 0 <= w < s.len() && s[w] == x;
            let w1 = if w < at {
                w
            } else {
                w + 1
            };
            assert(t[w1] == x);
        }
        if t.contains(x) {
            let w = choose|w: int| 0 <= w < t.len() && t[w] == x;
            let w0 = if w < at {
                w
            } else {
                w - 1
            };
            assert(w != at);
            assert(s[w0] == x);
        }
    }
}

/// The place at which a child lands that is inserted at `index` into a list
/// of `len` children: `index`, or the end of the list where `index` lies
/// beyond it.
pub open spec fn landing(index: usize, len: nat) -> int {
    if index <= len {
        index as int
    } else {
        len as int
    }
}

/// A forest of elements. An element is named by its index; each element
/// knows its parent and the order of its children.
pub struct Hierarchy {
    pub parents: Vec<Option<usize>>,
    pub children: Vec<Vec<usize>>,
}

impl Hierarchy {
    /// The number of elements.
    pub open spec fn len(&self) -> nat {
        self.parents@.len()
    }

    pub open spec fn parent_of(&self, i: usize) -> Option<usize> {
        self.parents@[i as int]
    }

    pub open spec fn children_of(&self, i: usize) -> Seq<usize> {
        self.children@[i as int]@
    }

    /// The two directions of the links agree: the children of an element
    /// name it as their parent, an element with a parent is among that
    /// parent's children, no element is listed twice, and no element is its
    /// own parent.
    pub open spec fn wf(&self) -> bool {
        &&& self.children@.len() == self.parents@.len()
        &&& forall|i: usize, k: int|
            i < self.len() && 0 <= k < self.children_of(i).len() ==> self.links(
                i,
                #[trigger] self.children_of(i)[k],
            )
        &&& forall|i: usize|
            i < self.len() && (#[trigger] self.parent_of(i)) is Some ==> self.parent_of(
                i,
            ).unwrap() < self.len() && self.children_of(self.parent_of(i).unwrap()).contains(i)
        &&& forall|i: usize| i < self.len() ==> (#[trigger] self.children_of(i)).no_duplicates()
        &&& forall|i: usize| i < self.len() ==> #[trigger] self.parent_of(i) != Some(i)
    }

    /// Whether `c` is an element whose parent is `p`.
    pub open spec fn links(&self, p: usize, c: usize) -> bool {
        c < self.len() && self.parent_of(c) == Some(p)
    }

    /// A forest without elements.
    pub fn new() -> (h: Hierarchy)
        ensures
            h.len() == 0,
            h.wf(),
    {
        Hierarchy { parents: Vec::new(), children: Vec::new() }
    }

    /// The number of elements.
    pub fn count(&self) -> (n: usize)
        ensures
            n == self.len(),
    {
        self.parents.len()
    }

    /// Adds an element without parent and children, and returns its index.
    pub fn spawn(&mut self) -> (id: usize)
        requires
            old(self).wf(),
        ensures
            final(self).wf(),
            id == old(self).len(),
            final(self).len() == old(self).len() + 1,
            final(self).parent_of(id) is None,
            final(self).children_of(id) == Seq::<usize>::empty(),
            forall|i: usize|
                i < old(self).len() ==> final(self).parent_of(i) == old(self).parent_of(i)
                    && final(self).children_of(i) == old(self).children_of(i),
    {
        let id = self.parents.len();
        self.parents.push(None);
        self.children.push(Vec::new());
        proof {
            assert forall|i: usize| i < old(self).len() implies self.children_of(i) == old(
                self,
            ).children_of(i) && self.parent_of(i) == old(self).parent_of(i) by {}
            assert forall|i: usize, k: int|
                i < self.len() && 0 <= k < self.children_of(i).len() implies self.links(
                i,
                #[trigger] self.children_of(i)[k],
            ) by {
                assert(old(self).links(i, old(self).children_of(i)[k]));
            }
            assert forall|i: usize|
                i < self.len() && (#[trigger] self.parent_of(i)) is Some implies self.parent_of(
                i,
            ).unwrap() < self.len() && self.children_of(self.parent_of(i).unwrap()).contains(i) by {
                let q = old(self).parent_of(i).unwrap();
                assert(old(self).children_of(q).contains(i));
            }
            assert forall|i: usize| i < self.len() implies (#[trigger] self.children_of(
                i,
            )).no_duplicates() by {
                if i < old(self).len() {
                    assert(old(self).children_of(i).no_duplicates());
                }
            }
        }
        id
    }

    /// The parent of `child`, where it has one.
    pub fn parent(&self, child: usize) -> (r: Option<usize>)
        requires
            child < self.len(),
        ensures
            r == self.parent_of(child),
    {
        self.parents[child]
    }

    /// The number of children of `parent`.
    pub fn child_count(&self, parent: usize) -> (r: usize)
        requires
            self.wf(),
            parent < self.len(),
        ensures
            r == self.children_of(parent).len(),
    {
        self.children[parent].len()
    }

    /// The child of `parent` at place `k`.
    pub fn child(&self, parent: usize, k: usize) -> (r: usize)
        requires
            self.wf(),
            parent < self.len(),
            k < self.children_of(parent).len(),
        ensures
            r == self.children_of(parent)[k as int],
            r < self.len(),
            self.parent_of(r) == Some(parent),
    {
        self.children[parent][k]
    }

    /// The place of `child` among the children of `parent`.
    pub fn position(&self, parent: usize, child: usize) -> (r: Option<usize>)
        requires
            self.wf(),
            parent < self.len(),
        ensures
            match r {
                Some(k) => k < self.children_of(parent).len() && self.children_of(parent)[k as int] == child && self.children_of(parent).index_of(child) == k,
                None => !self.children_of(parent).contains(child),
            },
    {
        let list = &self.children[parent];
        assert(self.children_of(parent).no_duplicates());
        let mut k: usize = 0;
        while k < list.len()
            invariant
                k <= list.len(),
                list@ == self.children_of(parent),
                list@.no_duplicates(),
                forall|j: int| 0 <= j < k ==> list@[j] != child,
            decreases list.len() - k,
        {
            if list[k] == child {
                return Some(k);
            }
            k += 1;
        }
        None
    }

    /// Takes `child` out from under its parent. An element without a parent
    /// is left as it is.
    pub fn detach(&mut self, child: usize)
        requires
            old(self).wf(),
            child < old(self).len(),
        ensures
            final(self).wf(),
            final(self).len() == old(self).len(),
            final(self).parent_of(child) is None,
            forall|i: usize|
                i < old(self).len() && i != child ==> final(self).parent_of(i) == old(
                    self,
                ).parent_of(i),
            forall|i: usize|
                i < old(self).len() ==> #[trigger] final(self).children_of(i) == if old(
                    self,
                ).parent_of(child) == Some(i) {
                    without(old(self).children_of(i), child)
                } else {
                    old(self).children_of(i)
                },
    {
        let Some(p) = self.parents[child] else {
            return ;
        };
        let found = self.position(p, child);
        assert(found is Some);
        let k = found.unwrap();
        let ghost before = old(self).children_of(p);
        self.children[p].remove(k);
        self.parents[child] = None;
        proof {
            let after = before.remove(k as int);
            assert(self.children_of(p) == after);
            assert(after == without(before, child));
            assert forall|i: usize| i < self.len() && i != p implies self.children_of(i) == old(
                self,
            ).children_of(i) by {}
            assert forall|j: int| 0 <= j < after.len() implies after[j] != child && before.contains(
                #[trigger] after[j],
            ) by {
                if j < k {
                    assert(after[j] == before[j]);
                } else {
                    assert(after[j] == before[j + 1]);
                }
            }
            assert(after.no_duplicates()) by {
                assert forall|a: int, b: int|
                    0 <= a < after.len() && 0 <= b < after.len() && a != b implies after[a]
                    != after[b] by {
                    let a0 = if a < k {
                        a
                    } else {
                        a + 1
                    };
                    let b0 = if b < k {
                        b
                    } else {
                        b + 1
                    };
                    assert(after[a] == before[a0]);
                    assert(after[b] == before[b0]);
                }
            }
            assert forall|i: usize, j: int|
                i < self.len() && 0 <= j < self.children_of(i).len() implies self.links(
                i,
                #[trigger] self.children_of(i)[j],
            ) by {
                if i == p {
                    let j0 = if j < k {
                        j
                    } else {
                        j + 1
                    };
                    assert(after[j] == before[j0]);
                    assert(old(self).children_of(i)[j0] == before[j0]);
                } else {
                    assert(self.children_of(i)[j] == old(self).children_of(i)[j]);
                }
            }
            assert forall|i: usize|
                i < self.len() && (#[trigger] self.parent_of(i)) is Some implies self.parent_of(
                i,
            ).unwrap() < self.len() && self.children_of(self.parent_of(i).unwrap()).contains(i) by {
                if i != child {
                    let q = old(self).parent_of(i).unwrap();
                    let list = old(self).children_of(q);
                    assert(list.contains(i));
                    if q == p {
                        let at = choose|at: int| 0 <= at < before.len() && before[at] == i;
                        let at1 = if at < k {
                            at
                        } else {
                            at - 1
                        };
                        assert(before[k as int] == child);
                        assert(at != k);
                        assert(after[at1] == before[at]);
                    } else {
                        assert(self.children_of(q) == list);
                    }
                }
            }
            assert forall|i: usize| i < self.len() implies (#[trigger] self.children_of(
                i,
            )).no_duplicates() by {
                if i != p {
                    assert(self.children_of(i) == old(self).children_of(i));
                }
            }
        }
    }

    /// Puts `child`, which has no parent, under `parent` at place `index`,
    /// or at the end where `index` lies beyond the end.
    pub fn attach(&mut self, parent: usize, index: usize, child: usize)
        requires
            old(self).wf(),
            parent < old(self).len(),
            child < old(self).len(),
            child != parent,
            old(self).parent_of(child) is None,
        ensures
            final(self).wf(),
            final(self).len() == old(self).len(),
            final(self).parent_of(child) == Some(parent),
            forall|i: usize|
                i < old(self).len() && i != child ==> final(self).parent_of(i) == old(
                    self,
                ).parent_of(i),
            final(self).children_of(parent) == old(self).children_of(parent).insert(
                landing(index, old(self).children_of(parent).len()),
                child,
            ),
            forall|i: usize|
                i < old(self).len() && i != parent ==> #[trigger] final(self).children_of(i)
                    == old(self).children_of(i),
    {
        let len = self.children[parent].len();
        let at = if index <= len {
            index
        } else {
            len
        };
        let ghost before = old(self).children_of(parent);
        self.children[parent].insert(at, child);
        self.parents[child] = Some(parent);
        proof {
            let after = before.insert(at as int, child);
            assert(self.children_of(parent) == after);
            assert forall|i: usize| i < self.len() && i != parent implies self.children_of(i)
                == old(self).children_of(i) by {}
            assert(!before.contains(child)) by {
                if before.contains(child) {
                    let w = choose|w: int| 0 <= w < before.len() && before[w] == child;
                    assert(old(self).children_of(parent)[w] == child);
                }
            }
            assert forall|i: usize, j: int|
                i < self.len() && 0 <= j < self.children_of(i).len() implies self.links(
                i,
                #[trigger] self.children_of(i)[j],
            ) by {
                if i == parent {
                    if j < at {
                        assert(after[j] == before[j]);
                        assert(old(self).children_of(i)[j] == before[j]);
                    } else if j > at {
                        assert(after[j] == before[j - 1]);
                        assert(old(self).children_of(i)[j - 1] == before[j - 1]);
                    }
                } else {
                    let c = old(self).children_of(i)[j];
                    assert(self.children_of(i)[j] == c);
                    assert(old(self).parent_of(c) == Some(i));
                }
            }
            assert forall|i: usize|
                i < self.len() && (#[trigger] self.parent_of(i)) is Some implies self.parent_of(
                i,
            ).unwrap() < self.len() && self.children_of(self.parent_of(i).unwrap()).contains(i) by {
                if i == child {
                    assert(after[at as int] == child);
                } else {
                    let q = old(self).parent_of(i).unwrap();
                    let list = old(self).children_of(q);
                    assert(list.contains(i));
                    if q == parent {
                        let w = choose|w: int| 0 <= w < before.len() && before[w] == i;
                        let w1 = if w < at {
                            w
                        } else {
                            w + 1
                        };
                        assert(after[w1] == before[w]);
                    } else {
                        assert(self.children_of(q) == list);
                    }
                }
            }
            assert forall|i: usize| i < self.len() implies (#[trigger] self.children_of(
                i,
            )).no_duplicates() by {
                if i == parent {
                    assert forall|a: int, b: int|
                        0 <= a < after.len() && 0 <= b < after.len() && a != b implies after[a]
                        != after[b] by {
                        let a0 = if a < at {
                            a
                        } else {
                            a - 1
                        };
                        let b0 = if b < at {
                            b
                        } else {
                            b - 1
                        };
                        if a != at {
                            assert(after[a] == before[a0]);
                        }
                        if b != at {
                            assert(after[b] == before[b0]);
                        }
                    }
                } else {
                    assert(self.children_of(i) == old(self).children_of(i));
                }
            }
        }
    }

    /// Moves `child` under `parent`, to place `index` among the children
    /// that `parent` has once `child` is taken out from where it was.
    pub fn insert_child(&mut self, parent: usize, index: usize, child: usize)
        requires
            old(self).wf(),
            parent < old(self).len(),
            child < old(self).len(),
            child != parent,
        ensures
            final(self).wf(),
            final(self).len() == old(self).len(),
            final(self).parent_of(child) == Some(parent),
            forall|i: usize|
                i < old(self).len() && i != child ==> final(self).parent_of(i) == old(
                    self,
                ).parent_of(i),
            final(self).children_of(parent) == without(
                old(self).children_of(parent),
                child,
            ).insert(
                landing(index, without(old(self).children_of(parent), child).len()),
                child,
            ),
            forall|i: usize|
                i < old(self).len() && i != parent ==> #[trigger] final(self).children_of(i)
                    == if old(self).parent_of(child) == Some(i) {
                    without(old(self).children_of(i), child)
                } else {
                    old(self).children_of(i)
                },
    {
        self.detach(child);
        proof {
            let list = old(self).children_of(parent);
            if old(self).parent_of(child) != Some(parent) {
                if list.contains(child) {
                    let w = choose|w: int| 0 <= w < list.len() && list[w] == child;
                    assert(old(self).children_of(parent)[w] == child);
                }
                assert(without(list, child) == list);
            }
        }
        self.attach(parent, index, child);
    }

    /// Makes `child` the last child of `parent`.
    pub fn add_child(&mut self, parent: usize, child: usize)
        requires
            old(self).wf(),
            parent < old(self).len(),
            child < old(self).len(),
            child != parent,
        ensures
            final(self).wf(),
            final(self).len() == old(self).len(),
            final(self).parent_of(child) == Some(parent),
            forall|i: usize|
                i < old(self).len() && i != child ==> final(self).parent_of(i) == old(
                    self,
                ).parent_of(i),
            final(self).children_of(parent) == without(
                old(self).children_of(parent),
                child,
            ).push(child),
            forall|i: usize|
                i < old(self).len() && i != parent ==> #[trigger] final(self).children_of(i)
                    == if old(self).parent_of(child) == Some(i) {
                    without(old(self).children_of(i), child)
                } else {
                    old(self).children_of(i)
                },
    {
        let end = self.children[parent].len();
        self.insert_child(parent, end, child);
        proof {
            let list = old(self).children_of(parent);
            let rest = without(list, child);
            if list.contains(child) {
                list.remove_ensures(list.index_of(child));
            }
            assert(rest.len() <= end);
            assert(rest.insert(rest.len() as int, child) =~= rest.push(child));
        }
    }
}

} // verus!
