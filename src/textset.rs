//! A finite set of texts kept as a list without repeats.
use vstd::prelude::*;

verus! {

/// The character sequences of a list of strings.
pub open spec fn views(v: Seq<String>) -> Seq<Seq<char>> {
    v.map_values(|s: String| s@)
}

/// `s` with the membership of `x` flipped.
pub open spec fn toggled<A>(s: Set<A>, x: A) -> Set<A> {
    if s.contains(x) {
        s.remove(x)
    } else {
        s.insert(x)
    }
}

/// Flipping the membership of the same element twice gives back the set it started from.
pub proof fn law_toggle_twice<A>(s: Set<A>, x: A)
    ensures
        toggled(toggled(s, x), x) == s,
{
    if s.contains(x) {
        assert(s.remove(x).insert(x) =~= s);
    } else {
        assert(s.insert(x).remove(x) =~= s);
    }
}

proof fn lemma_views_push(v: Seq<String>, x: String)
    requires
        views(v).no_duplicates(),
        !views(v).to_set().contains(x@),
    ensures
        views(v.push(x)) == views(v).push(x@),
        views(v.push(x)).to_set() == views(v).to_set().insert(x@),
        views(v.push(x)).no_duplicates(),
{
    assert(views(v.push(x)) =~= views(v).push(x@));
    views(v).lemma_push_to_set_commute(x@);
    assert forall|i: int| 0 <= i < views(v).len() implies views(v)[i] != x@ by {
        assert(views(v).to_set().contains(views(v)[i]));
    }
}

proof fn lemma_views_remove(v: Seq<String>, i: int)
    requires
        0 <= i < v.len(),
        views(v).no_duplicates(),
    ensures
        views(v.remove(i)) == views(v).remove(i),
        views(v.remove(i)).to_set() == views(v).to_set().remove(v[i]@),
        views(v.remove(i)).no_duplicates(),
{
    let w = views(v);
    let r = views(v.remove(i));
    assert(r =~= w.remove(i));
    assert forall|y: Seq<char>| r.to_set().contains(y) <==> w.to_set().remove(v[i]@).contains(y) by {
        assert(w[i] == v[i]@);
        if r.to_set().contains(y) {
            let k = choose|k: int| 0 <= k < r.len() && r[k] == y;
            if k < i {
                assert(w[k] == y);
                assert(w.contains(y));
            } else {
                assert(w[k + 1] == y);
                assert(w.contains(y));
            }
        }
        if w.to_set().remove(v[i]@).contains(y) {
            let k = choose|k: int| 0 <= k < w.len() && w[k] == y;
            assert(k != i);
            if k < i {
                assert(r[k] == y);
            } else {
                assert(r[k - 1] == y);
            }
        }
    }
    assert(r.to_set() =~= w.to_set().remove(v[i]@));
}

/// A set of texts. Each text is held once; the order of the list carries no meaning.
pub struct TextSet {
    items: Vec<String>,
}

impl View for TextSet {
    type V = Set<Seq<char>>;

    closed spec fn view(&self) -> Set<Seq<char>> {
        views(self.items@).to_set()
    }
}

impl TextSet {
    /// No text is held twice.
    pub closed spec fn wf(&self) -> bool {
        views(self.items@).no_duplicates()
    }

    /// The empty set.
    pub fn new() -> (r: TextSet)
        ensures
            r.wf(),
            r@ == Set::<Seq<char>>::empty(),
    {
        let r = TextSet { items: Vec::new() };
        assert(views(r.items@).to_set() =~= Set::<Seq<char>>::empty());
        r
    }

    /// Where `x` stands in the list, if it is held.
    fn position(&self, x: &String) -> (r: Option<usize>)
        requires
            self.wf(),
        ensures
            r is None ==> !self@.contains(x@),
            r matches Some(i) ==> i < self.items@.len() && self.items@[i as int]@ == x@,
    {
        let mut i: usize = 0;
        while i < self.items.len()
            invariant
                i <= self.items@.len(),
                forall|k: int| 0 <= k < i ==> self.items@[k]@ != x@,
            decreases self.items@.len() - i,
        {
            if self.items[i] == *x {
                return Some(i);
            }
            i += 1;
        }
        assert(!views(self.items@).contains(x@));
        None
    }

    /// Whether `x` is in the set.
    pub fn contains(&self, x: &String) -> (r: bool)
        requires
            self.wf(),
        ensures
            r == self@.contains(x@),
    {
        match self.position(x) {
            Some(i) => {
                assert(views(self.items@)[i as int] == x@);
                true
            },
            None => false,
        }
    }

    /// Adds `x`; nothing changes if it is already there.
    pub fn insert(&mut self, x: String)
        requires
            old(self).wf(),
        ensures
            final(self).wf(),
            final(self)@ == old(self)@.insert(x@),
    {
        match self.position(&x) {
            None => {
                proof {
                    lemma_views_push(self.items@, x);
                }
                self.items.push(x);
            },
            Some(i) => {
                assert(views(self.items@)[i as int] == x@);
                assert(self@.insert(x@) =~= self@);
            },
        }
    }

    /// Takes `x` out; nothing changes if it is not there.
    pub fn remove(&mut self, x: &String)
        requires
            old(self).wf(),
        ensures
            final(self).wf(),
            final(self)@ == old(self)@.remove(x@),
    {
        match self.position(x) {
            Some(i) => {
                proof {
                    lemma_views_remove(self.items@, i as int);
                }
                self.items.remove(i);
            },
            None => {
                assert(self@.remove(x@) =~= self@);
            },
        }
    }

    /// Flips the membership of `x`: present becomes absent, absent becomes present.
    pub fn toggle(&mut self, x: String)
        requires
            old(self).wf(),
        ensures
            final(self).wf(),
            final(self)@ == toggled(old(self)@, x@),
    {
        if self.contains(&x) {
            self.remove(&x);
        } else {
            self.insert(x);
        }
    }

    /// The set of the texts in `v`; repeats count once.
    pub fn from_list(v: Vec<String>) -> (r: TextSet)
        ensures
            r.wf(),
            r@ == views(v@).to_set(),
    {
        let mut r = TextSet::new();
        let mut i: usize = 0;
        while i < v.len()
            invariant
                i <= v@.len(),
                r.wf(),
                r@ == views(v@.subrange(0, i as int)).to_set(),
            decreases v@.len() - i,
        {
            let x = v[i].clone();
            r.insert(x);
            proof {
                assert(views(v@.subrange(0, i + 1)) =~= views(v@.subrange(0, i as int)).push(
                    v@[i as int]@,
                ));
                views(v@.subrange(0, i as int)).lemma_push_to_set_commute(v@[i as int]@);
            }
            i += 1;
        }
        assert(v@.subrange(0, v@.len() as int) =~= v@);
        r
    }

    /// The texts of the set as a list without repeats, in no promised order.
    pub fn to_list(&self) -> (r: Vec<String>)
        requires
            self.wf(),
        ensures
            views(r@).to_set() == self@,
            views(r@).no_duplicates(),
    {
        let mut r: Vec<String> = Vec::new();
        let mut i: usize = 0;
        while i < self.items.len()
            invariant
                i <= self.items@.len(),
                r@ == self.items@.subrange(0, i as int),
            decreases self.items@.len() - i,
        {
            r.push(self.items[i].clone());
            i += 1;
        }
        assert(r@ =~= self.items@);
        r
    }
}

} // verus!
