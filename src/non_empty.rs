use vstd::prelude::*;
use vstd::std_specs::cmp::PartialEqSpec;

verus! {

/// Why an external list could not become a `NonEmptyVec`.
#[derive(Debug, Clone, Copy, PartialEq, Eq, Structural)]
pub enum ValidationError {
    /// The list held no element, and a non-empty one was required.
    Empty,
}

/// `r` references exactly the elements of `s`, in the same order.
pub open spec fn yields<T>(r: Seq<&T>, s: Seq<T>) -> bool {
    &&& r.len() == s.len()
    &&& forall|i: int| 0 <= i < r.len() ==> *#[trigger] r[i] == s[i]
}

/// The elements after appending each of `ts` to `s`, one at a time, as
/// successive calls of `NonEmptyVec::push` do.
pub open spec fn pushed_all<T>(s: Seq<T>, ts: Seq<T>) -> Seq<T>
    decreases ts.len(),
{
    if ts.len() == 0 {
        s
    } else {
        pushed_all(s, ts.drop_last()).push(ts.last())
    }
}

/// Appending the elements of `ts` one at a time is appending them as a block.
pub proof fn lemma_pushed_all<T>(s: Seq<T>, ts: Seq<T>)
    ensures
        pushed_all(s, ts) == s + ts,
    decreases ts.len(),
{
    if ts.len() == 0 {
        assert(s + ts =~= s);
    } else {
        lemma_pushed_all(s, ts.drop_last());
        assert(s + ts =~= (s + ts.drop_last()).push(ts.last()));
    }
}

/// Built by `new(h)` and then `push` of each of `ts` in turn, a collection
/// yields `h` first and then the elements of `ts` in the order they were
/// appended, and it holds `1 + ts.len()` elements.
pub proof fn lemma_iteration_order<T>(h: T, ts: Seq<T>, r: Seq<&T>)
    requires
        yields(r, pushed_all(seq![h], ts)),
    ensures
        r.len() == 1 + ts.len(),
        *r[0] == h,
        forall|i: int| 0 <= i < ts.len() ==> *#[trigger] r[i + 1] == ts[i],
{
    lemma_pushed_all(seq![h], ts);
    assert forall|i: int| 0 <= i < ts.len() implies *#[trigger] r[i + 1] == ts[i] by {
        assert((seq![h] + ts)[i + 1] == ts[i]);
    }
}

/// Two traversals of the same elements yield the same references in the
/// same order.
pub proof fn lemma_iteration_repeatable<T>(s: Seq<T>, r1: Seq<&T>, r2: Seq<&T>)
    requires
        yields(r1, s),
        yields(r2, s),
    ensures
        r1 == r2,
{
    assert(r1 =~= r2);
}

/// What decoding the plain list `v` gives: `ValidationError::Empty` where
/// `v` is empty, and otherwise a collection of the same elements in order.
pub open spec fn decodes_to<T>(v: Seq<T>, r: Result<NonEmptyVec<T>, ValidationError>) -> bool {
    &&& v.len() == 0 <==> r is Err
    &&& r matches Err(e) ==> e == ValidationError::Empty
    &&& r matches Ok(n) ==> n@ == v
}

/// Encoding a collection as a plain list and decoding that list succeeds and
/// gives back the same elements in the same order.
pub proof fn lemma_decode_encode<T>(n: NonEmptyVec<T>, e: Seq<T>, d: Result<NonEmptyVec<T>, ValidationError>)
    requires
        e == n@,
        decodes_to(e, d),
    ensures
        d matches Ok(m) && m@ == n@,
{
    n.lemma_non_empty();
}

/// Decoding a non-empty plain list succeeds, and encoding the result gives
/// back that list; an empty list is rejected.
pub proof fn lemma_encode_decode<T>(v: Seq<T>, d: Result<NonEmptyVec<T>, ValidationError>, e: Seq<T>)
    requires
        decodes_to(v, d),
        d matches Ok(m) ==> e == m@,
    ensures
        v.len() > 0 ==> (d is Ok && e == v),
        v.len() == 0 ==> d == Err::<NonEmptyVec<T>, ValidationError>(ValidationError::Empty),
{
}

/// An ordered collection that holds at least one element for its whole
/// lifetime: a mandatory first element and a possibly empty remainder.
/// Nothing removes elements, so nothing can empty it.
#[derive(Debug, PartialEq, Eq)]
pub struct NonEmptyVec<T> {
    head: T,
    tail: Vec<T>,
}

impl<T> View for NonEmptyVec<T> {
    type V = Seq<T>;

    /// All elements in order: the first one, then the remainder.
    closed spec fn view(&self) -> Seq<T> {
        seq![self.head] + self.tail@
    }
}

impl<T> NonEmptyVec<T> {
    /// The element count fits in a `usize`, so `len` can report it.
    #[verifier::type_invariant]
    spec fn count_fits(&self) -> bool {
        self.tail@.len() < usize::MAX
    }

    /// Every value holds at least one element.
    pub proof fn lemma_non_empty(&self)
        ensures
            self@.len() >= 1,
    {
    }

    /// The first element is the first one that a traversal yields.
    pub proof fn lemma_first_agrees(&self, first: &T, r: Seq<&T>)
        requires
            *first == self@[0],
            yields(r, self@),
        ensures
            r.len() >= 1,
            *r[0] == *first,
    {
    }

    /// A collection holding `head` alone.
    pub fn new(head: T) -> (r: Self)
        ensures
            r@ == seq![head],
    {
        let r = NonEmptyVec { head, tail: Vec::new() };
        assert(r@ =~= seq![r.head]);
        r
    }

    /// The first element; it always exists.
    pub fn first(&self) -> (r: &T)
        ensures
            *r == self@[0],
    {
        &self.head
    }

    /// Adds `value` at the end; the first element stays as it was. The
    /// element count must stay within `usize::MAX`.
    pub fn push(&mut self, value: T)
        requires
            old(self)@.len() < usize::MAX,
        ensures
            final(self)@ == old(self)@.push(value),
    {
        let mut tail: Vec<T> = Vec::new();
        std::mem::swap(&mut tail, &mut self.tail);
        tail.push(value);
        std::mem::swap(&mut tail, &mut self.tail);
        assert(self@ =~= old(self)@.push(value));
    }

    /// The number of elements, at least one.
    pub fn len(&self) -> (r: usize)
        ensures
            r == self@.len(),
            r >= 1,
    {
        proof {
            use_type_invariant(self);
        }
        1 + self.tail.len()
    }

    /// References to all elements in order, the first one first. The
    /// elements are borrowed, not copied, so this may be called any number
    /// of times.
    pub fn iter(&self) -> (r: Vec<&T>)
        ensures
            yields(r@, self@),
    {
        let mut r: Vec<&T> = Vec::new();
        r.push(&self.head);
        let mut i: usize = 0;
        while i < self.tail.len()
            invariant
                0 <= i <= self.tail@.len(),
                r@.len() == i + 1,
                forall|j: int| 0 <= j < r@.len() ==> *#[trigger] r@[j] == self@[j],
            decreases self.tail@.len() - i,
        {
            r.push(&self.tail[i]);
            i = i + 1;
        }
        r
    }

    /// The plain list of all elements, in order.
    pub fn into_vec(self) -> (r: Vec<T>)
        ensures
            r@ == self@,
    {
        let NonEmptyVec { head, tail } = self;
        let mut r = tail;
        r.insert(0, head);
        assert(r@ =~= seq![head] + tail@);
        r
    }

    /// The collection holding the elements of `v` in order, or
    /// `ValidationError::Empty` where `v` has none.
    pub fn try_from_vec(v: Vec<T>) -> (r: Result<Self, ValidationError>)
        ensures
            decodes_to(v@, r),
    {
        if v.len() == 0 {
            return Err(ValidationError::Empty);
        }
        let mut tail = v;
        let head = tail.remove(0);
        let r = NonEmptyVec { head, tail };
        assert(r@ =~= v@);
        Ok(r)
    }
}

impl<T> From<T> for NonEmptyVec<T> {
    /// The collection holding `head` alone, as `NonEmptyVec::new` makes it.
    fn from(head: T) -> (r: Self)
        ensures
            r@ == seq![head],
    {
        Self::new(head)
    }
}

/// `a` and `b` have the same length and equal elements at each position.
pub open spec fn elements_eq<T: PartialEqSpec>(a: Seq<T>, b: Seq<T>) -> bool {
    &&& a.len() == b.len()
    &&& forall|i: int| 0 <= i < a.len() ==> (#[trigger] a[i]).eq_spec(&b[i])
}

/// Lists with a first element are equal element-wise exactly when their first
/// elements and their remainders are.
proof fn lemma_elements_eq_split<T: PartialEqSpec>(h1: T, t1: Seq<T>, h2: T, t2: Seq<T>)
    ensures
        elements_eq(seq![h1] + t1, seq![h2] + t2) <==> (h1.eq_spec(&h2) && elements_eq(t1, t2)),
{
    let a = seq![h1] + t1;
    let b = seq![h2] + t2;
    if h1.eq_spec(&h2) && elements_eq(t1, t2) {
        assert forall|i: int| 0 <= i < a.len() implies (#[trigger] a[i]).eq_spec(&b[i]) by {
            if i > 0 {
                assert(a[i] == t1[i - 1]);
                assert(b[i] == t2[i - 1]);
            }
        }
    }
    if elements_eq(a, b) {
        assert(a[0] == h1 && b[0] == h2);
        assert forall|j: int| 0 <= j < t1.len() implies (#[trigger] t1[j]).eq_spec(&t2[j]) by {
            assert(a[j + 1] == t1[j]);
            assert(b[j + 1] == t2[j]);
        }
    }
}

impl<T: PartialEq + PartialEqSpec> NonEmptyVec<T> {
    /// Element-wise, order-sensitive comparison, as `==` compares.
    pub fn elements_equal(&self, other: &Self) -> (r: bool)
        ensures
            T::obeys_eq_spec() ==> r == elements_eq(self@, other@),
    {
        let h = self.head == other.head;
        let t = self.tail == other.tail;
        proof {
            lemma_elements_eq_split(self.head, self.tail@, other.head, other.tail@);
        }
        h && t
    }
}

impl<T: Clone> Clone for NonEmptyVec<T> {
    /// A copy of the same length, each element a clone of the element at
    /// the same position.
    fn clone(&self) -> (r: Self)
        ensures
            r@.len() == self@.len(),
            forall|i: int| 0 <= i < self@.len() ==> cloned::<T>(self@[i], #[trigger] r@[i]),
    {
        proof {
            use_type_invariant(self);
        }
        let r = NonEmptyVec { head: self.head.clone(), tail: self.tail.clone() };
        assert forall|i: int| 0 <= i < self@.len() implies cloned::<T>(self@[i], #[trigger] r@[i]) by {
            if i > 0 {
                assert(self@[i] == self.tail@[i - 1]);
                assert(r@[i] == r.tail@[i - 1]);
            }
        }
        r
    }
}

impl<T> vstd::std_specs::convert::FromSpecImpl<T> for NonEmptyVec<T> {
    /// No spec expression builds a value holding a `Vec`, so the trait's
    /// equation `from(v) == from_spec(v)` is not claimed; `from`'s own
    /// `ensures` states its result, `r@ == seq![head]`.
    open spec fn obeys_from_spec() -> bool {
        false
    }

    open spec fn from_spec(v: T) -> Self {
        arbitrary()
    }
}

} // verus!
