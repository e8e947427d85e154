//! Deduplication of resource descriptors and allocation of one object
//! reference per distinct descriptor.
use vstd::prelude::*;
use pdf_writer::Ref;

verus! {

/// `pdf_writer::Ref`, a reference to an indirect object; opaque here and
/// known by its object number.
#[verifier::external_type_specification]
#[verifier::external_body]
pub struct ExRef(Ref);

/// The object number that a `pdf_writer::Ref` holds.
pub uninterp spec fn ref_number(r: Ref) -> int;

/// Relies on `pdf_writer::Ref::new`: it panics unless the number is
/// positive, and keeps the number.
pub assume_specification[ Ref::new ](id: i32) -> (r: Ref)
    requires
        id > 0,
    ensures
        ref_number(r) == id,
;

/// Relies on `pdf_writer::Ref::bump`: it returns the reference and advances
/// it to the next number, which panics past `i32::MAX`.
pub assume_specification[ Ref::bump ](this: &mut Ref) -> (r: Ref)
    requires
        ref_number(*old(this)) < i32::MAX,
    ensures
        ref_number(r) == ref_number(*old(this)),
        ref_number(*final(this)) == ref_number(*old(this)) + 1,
;

/// A descriptor compared by its view.
pub trait Keyed: View + Sized {
    /// Whether two descriptors are equal in every field.
    fn same(&self, o: &Self) -> (r: bool)
        ensures
            r == (self@ == o@);

    /// A copy of the descriptor.
    fn duplicate(&self) -> (r: Self)
        ensures
            r@ == self@;
}

/// The items after inserting each of `vs` in order.
pub open spec fn insert_all<V>(s: Seq<V>, vs: Seq<V>) -> Seq<V>
    decreases vs.len(),
{
    if vs.len() == 0 {
        s
    } else {
        insert_spec(insert_all(s, vs.drop_last()), vs.last()).0
    }
}

/// Whether the views are pairwise distinct.
pub open spec fn distinct<V>(s: Seq<V>) -> bool {
    forall|i: int, j: int| 0 <= i < s.len() && 0 <= j < s.len() && i != j ==> s[i] != s[j]
}

/// Insert-or-get: the items after inserting `v`, and its handle (the index of
/// the equal item already present, else of `v` appended).
pub open spec fn insert_spec<V>(s: Seq<V>, v: V) -> (Seq<V>, int) {
    if exists|i: int| 0 <= i < s.len() && s[i] == v {
        (s, choose|i: int| 0 <= i < s.len() && s[i] == v)
    } else {
        (s.push(v), s.len() as int)
    }
}

/// Descriptors registered in order, each distinct one once.
pub struct Remapper<T> {
    items: Vec<T>,
}

impl<T: Keyed> View for Remapper<T> {
    type V = Seq<T::V>;

    closed spec fn view(&self) -> Seq<T::V> {
        self.items@.map_values(|t: T| t@)
    }
}

impl<T: Keyed> Remapper<T> {
    pub open spec fn wf(&self) -> bool {
        distinct(self@)
    }

    /// An empty registry.
    pub fn new() -> (r: Remapper<T>)
        ensures
            r@ == Seq::<T::V>::empty(),
            r.wf(),
    {
        let r = Remapper { items: Vec::new() };
        assert(r@ =~= Seq::<T::V>::empty());
        r
    }

    /// The number of distinct descriptors.
    pub fn len(&self) -> (r: usize)
        ensures
            r == self@.len(),
    {
        self.items.len()
    }

    /// The descriptor with handle `i`.
    pub fn get(&self, i: usize) -> (r: &T)
        requires
            i < self@.len(),
        ensures
            r@ == self@[i as int],
    {
        &self.items[i]
    }

    /// The handle of a descriptor equal to `item`, if one is registered.
    pub fn find(&self, item: &T) -> (r: Option<usize>)
        ensures
            r matches Some(i) ==> i < self@.len() && self@[i as int] == item@,
            r is None ==> forall|i: int| 0 <= i < self@.len() ==> self@[i] != item@,
    {
        let mut i: usize = 0;
        while i < self.items.len()
            invariant
                i <= self.items@.len(),
                self@ == self.items@.map_values(|t: T| t@),
                forall|k: int| 0 <= k < i ==> self@[k] != item@,
            decreases self.items@.len() - i,
        {
            if self.items[i].same(item) {
                return Some(i);
            }
            i = i + 1;
        }
        None
    }

    /// Registers a descriptor and returns its handle: the handle of an equal
    /// descriptor registered before, else a new one.
    pub fn insert(&mut self, item: T) -> (r: usize)
        requires
            old(self).wf(),
        ensures
            final(self).wf(),
            (final(self)@, r as int) == insert_spec(old(self)@, item@),
    {
        match self.find(&item) {
            Some(i) => {
                proof {
                    let s = old(self)@;
                    let j = choose|j: int| 0 <= j < s.len() && s[j] == item@;
                    assert(s[i as int] == item@);
                    assert(i as int == j);
                }
                i
            },
            None => {
                let n = self.items.len();
                let ghost v = item@;
                self.items.push(item);
                proof {
                    assert(self@ =~= old(self)@.push(v));
                }
                n
            },
        }
    }

    /// Registers each descriptor of `other`, in order: the registry of a
    /// whole document gathered from those of its pages.
    pub fn merge(&mut self, other: &Remapper<T>)
        requires
            old(self).wf(),
        ensures
            final(self).wf(),
            final(self)@ == insert_all(old(self)@, other@),
    {
        let mut i: usize = 0;
        while i < other.items.len()
            invariant
                i <= other.items@.len(),
                other@ == other.items@.map_values(|t: T| t@),
                self.wf(),
                self@ == insert_all(old(self)@, other@.take(i as int)),
            decreases other.items@.len() - i,
        {
            let item = other.items[i].duplicate();
            self.insert(item);
            proof {
                assert(other@.take(i + 1).drop_last() =~= other@.take(i as int));
            }
            i = i + 1;
        }
        assert(other@.take(i as int) =~= other@);
    }

    /// Allocates one object reference per distinct descriptor, in handle
    /// order, by bumping `next`.
    pub fn assign_refs(&self, next: &mut Ref) -> (r: Vec<Ref>)
        requires
            ref_number(*old(next)) + self@.len() <= i32::MAX,
        ensures
            r@.len() == self@.len(),
            forall|i: int| 0 <= i < r@.len() ==> ref_number(#[trigger] r@[i]) == ref_number(*old(next)) + i,
            forall|i: int, j: int| 0 <= i < r@.len() && 0 <= j < r@.len() && i != j ==> ref_number(r@[i]) != ref_number(r@[j]),
            ref_number(*final(next)) == ref_number(*old(next)) + self@.len(),
    {
        let mut out: Vec<Ref> = Vec::new();
        let mut i: usize = 0;
        while i < self.items.len()
            invariant
                i <= self.items@.len(),
                self@.len() == self.items@.len(),
                out@.len() == i,
                ref_number(*next) == ref_number(*old(next)) + i,
                ref_number(*old(next)) + self@.len() <= i32::MAX,
                forall|k: int| 0 <= k < i ==> ref_number(#[trigger] out@[k]) == ref_number(*old(next)) + k,
            decreases self.items@.len() - i,
        {
            let r = next.bump();
            out.push(r);
            i = i + 1;
        }
        assert forall|i: int, j: int| 0 <= i < out@.len() && 0 <= j < out@.len() && i != j implies ref_number(out@[i]) != ref_number(out@[j]) by {
            assert(ref_number(out@[i]) == ref_number(*old(next)) + i);
            assert(ref_number(out@[j]) == ref_number(*old(next)) + j);
        }
        out
    }

    /// Numbers the distinct descriptors consecutively from object number
    /// `first`, in handle order; none where `first` is not positive or the
    /// numbers would pass `i32::MAX`.
    pub fn number_refs(&self, first: i32) -> (r: Option<Vec<Ref>>)
        ensures
            r is None <==> (first <= 0 || first + self@.len() > i32::MAX),
            r matches Some(refs) ==> refs@.len() == self@.len() && forall|i: int|
                0 <= i < refs@.len() ==> ref_number(#[trigger] refs@[i]) == first + i,
    {
        if first <= 0 || self.items.len() > (i32::MAX - first) as usize {
            return None;
        }
        let mut next = Ref::new(first);
        Some(self.assign_refs(&mut next))
    }
}

/// Registering two descriptors one after the other gives them the same
/// handle exactly when they are equal; registering a descriptor again gives
/// the handle it got the first time and changes nothing.
pub proof fn lemma_dedup<V>(s: Seq<V>, a: V, b: V)
    requires
        distinct(s),
    ensures
        ({
            let (s1, h1) = insert_spec(s, a);
            let (s2, h2) = insert_spec(s1, b);
            &&& distinct(s1)
            &&& (h1 == h2 <==> a == b)
        }),
        ({
            let (s1, h1) = insert_spec(s, a);
            insert_spec(s1, a) == (s1, h1)
        }),
{
    let (s1, h1) = insert_spec(s, a);
    let (s2, h2) = insert_spec(s1, b);
    lemma_insert(s, a);
    lemma_insert(s1, b);
    lemma_insert(s1, a);
}

/// Gathering registries keeps every descriptor once: the result holds each
/// descriptor of both, and nothing else, without repetition.
pub proof fn lemma_insert_all<V>(s: Seq<V>, vs: Seq<V>)
    requires
        distinct(s),
    ensures
        distinct(insert_all(s, vs)),
        forall|v: V| insert_all(s, vs).contains(v) <==> (s.contains(v) || vs.contains(v)),
    decreases vs.len(),
{
    if vs.len() > 0 {
        let t = insert_all(s, vs.drop_last());
        lemma_insert_all(s, vs.drop_last());
        lemma_insert(t, vs.last());
        let u = insert_spec(t, vs.last()).0;
        assert forall|v: V| u.contains(v) <==> (s.contains(v) || vs.contains(v)) by {
            if u.contains(v) {
                let i = choose|i: int| 0 <= i < u.len() && u[i] == v;
                if i < t.len() {
                    assert(t[i] == v);
                    if vs.drop_last().contains(v) {
                        let j = choose|j: int| 0 <= j < vs.drop_last().len() && vs.drop_last()[j] == v;
                        assert(vs[j] == v);
                    }
                } else {
                    assert(u.len() == t.len() + 1);
                    assert(v == vs.last());
                    assert(vs[vs.len() - 1] == v);
                }
            }
            if s.contains(v) {
                assert(t.contains(v));
                let i = choose|i: int| 0 <= i < t.len() && t[i] == v;
                assert(u[i] == v);
            }
            if vs.contains(v) {
                let j = choose|j: int| 0 <= j < vs.len() && vs[j] == v;
                if j < vs.len() - 1 {
                    assert(vs.drop_last()[j] == v);
                    assert(t.contains(v));
                    let i = choose|i: int| 0 <= i < t.len() && t[i] == v;
                    assert(u[i] == v);
                } else {
                    let h = insert_spec(t, vs.last()).1;
                    assert(u[h] == v);
                }
            }
        }
    }
}

proof fn lemma_insert<V>(s: Seq<V>, v: V)
    requires
        distinct(s),
    ensures
        distinct(insert_spec(s, v).0),
        0 <= insert_spec(s, v).1 < insert_spec(s, v).0.len(),
        insert_spec(s, v).0[insert_spec(s, v).1] == v,
        insert_spec(s, v).0.len() >= s.len(),
        forall|i: int| 0 <= i < s.len() ==> insert_spec(s, v).0[i] == s[i],
        (exists|i: int| 0 <= i < s.len() && s[i] == v) ==> insert_spec(s, v).0 == s,
{
    if !(exists|i: int| 0 <= i < s.len() && s[i] == v) {
        let t = s.push(v);
        assert forall|i: int, j: int| 0 <= i < t.len() && 0 <= j < t.len() && i != j implies t[i] != t[j] by {
            if i < s.len() && j < s.len() {
            } else if i == s.len() {
                assert(s[j] != v);
            } else {
                assert(s[i] != v);
            }
        }
    }
}

} // verus!
