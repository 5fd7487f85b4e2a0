use vstd::prelude::*;

verus! {

/// A persistent singly-linked list of `u32` values: either the terminal
/// `Nil`, or a `Cons` cell that holds one value and owns the rest of the
/// list. Ownership is strictly nested, so a list is acyclic by
/// construction.
pub enum List {
    Cons(u32, Box<List>),
    Nil,
}

/// What `prepend` does to the contents: the new value goes in front.
pub open spec fn prepended(s: Seq<u32>, v: u32) -> Seq<u32> {
    seq![v] + s
}

/// What `append` does to the contents: the new value goes at the end.
pub open spec fn appended(s: Seq<u32>, v: u32) -> Seq<u32> {
    s.push(v)
}

impl List {
    /// The mathematical contents of the list, in order.
    pub open spec fn elems(self) -> Seq<u32>
        decreases self,
    {
        match self {
            List::Cons(v, tail) => seq![v] + tail.elems(),
            List::Nil => Seq::empty(),
        }
    }

    /// Create an empty list.
    pub fn new() -> (r: List)
        ensures
            r@ == Seq::<u32>::empty(),
    {
        List::Nil
    }

    /// Consume a list, and return the same list with a new element at its
    /// front.
    pub fn prepend(self, elem: u32) -> (r: List)
        ensures
            r@ == prepended(self@, elem),
            r@.len() == self@.len() + 1,
    {
        List::Cons(elem, Box::new(self))
    }

    /// Consume a list, and return the same list with a new element at its
    /// end. The length always grows by exactly one.
    pub fn append(self, element: u32) -> (r: List)
        ensures
            r@ == appended(self@, element),
            r@.len() == self@.len() + 1,
        decreases self,
    {
        match self {
            List::Cons(e, tail) => {
                let rest = tail.append(element);
                let r = List::Cons(e, Box::new(rest));
                proof {
                    assert(r@ =~= appended((List::Cons(e, tail))@, element));
                }
                r
            }
            List::Nil => {
                let r = List::Cons(element, Box::new(List::Nil));
                proof {
                    assert(List::Nil.elems() == Seq::<u32>::empty());
                    assert(r@ =~= appended(Seq::empty(), element));
                }
                r
            }
        }
    }

    /// Return the length of the list: the number of `Cons` cells before the
    /// terminal `Nil`.
    pub fn len(&self) -> (n: u32)
        requires
            self@.len() <= u32::MAX,
        ensures
            n == self@.len(),
        decreases *self,
    {
        match self {
            List::Cons(_, tail) => 1 + tail.len(),
            List::Nil => 0,
        }
    }
}

/// The contents obtained by starting from empty contents and prepending the
/// values of `vs` one at a time in reverse order: first `vs.last()`, then the
/// one before it, and `vs.first()` last of all.
pub open spec fn prepended_in_reverse(vs: Seq<u32>) -> Seq<u32>
    decreases vs.len(),
{
    if vs.len() == 0 {
        Seq::empty()
    } else {
        prepended(prepended_in_reverse(vs.drop_first()), vs.first())
    }
}

/// Law: prepending the values `v1 .. vn` in reverse order onto the empty list
/// restores exactly `v1 .. vn`, so the length of the result is `n`.
pub proof fn lemma_prepend_in_reverse_restores(vs: Seq<u32>)
    ensures
        prepended_in_reverse(vs) == vs,
        prepended_in_reverse(vs).len() == vs.len(),
    decreases vs.len(),
{
    if vs.len() == 0 {
        assert(prepended_in_reverse(vs) =~= vs);
    } else {
        lemma_prepend_in_reverse_restores(vs.drop_first());
        assert(prepended_in_reverse(vs) =~= vs);
    }
}

/// Law: appending `v1` and then `v2` to an empty list puts the elements in
/// the same order as prepending `v2` and then `v1`: both yield `[v1, v2]`.
pub proof fn lemma_append_prepend_agree(v1: u32, v2: u32)
    ensures
        appended(appended(Seq::empty(), v1), v2) == prepended(prepended(Seq::empty(), v2), v1),
        appended(appended(Seq::empty(), v1), v2) == seq![v1, v2],
{
    assert(appended(appended(Seq::empty(), v1), v2) =~= seq![v1, v2]);
    assert(prepended(prepended(Seq::empty(), v2), v1) =~= seq![v1, v2]);
}

impl View for List {
    type V = Seq<u32>;

    open spec fn view(&self) -> Seq<u32> {
        self.elems()
    }
}

} // verus!
