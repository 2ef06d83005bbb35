use vstd::prelude::*;

verus! {

/// Records that carry a textual identifier.
pub trait Keyed: Sized {
    spec fn key(&self) -> Seq<char>;

    fn key_ref(&self) -> (r: &String)
        ensures
            r@ == self.key(),
    ;
}

/// Whether two texts are equal.
pub fn same_text(a: &String, b: &String) -> (r: bool)
    ensures
        r == (a@ == b@),
{
    a.eq(b)
}

/// `s` holds a record whose key is `id`.
pub open spec fn has_key<T: Keyed>(s: Seq<T>, id: Seq<char>) -> bool {
    exists|i: int| 0 <= i < s.len() && (#[trigger] s[i]).key() == id
}

/// `k` is the position of the first record of `s` whose key is `id`.
pub open spec fn is_first_key<T: Keyed>(s: Seq<T>, id: Seq<char>, k: int) -> bool {
    &&& 0 <= k < s.len()
    &&& s[k].key() == id
    &&& forall|j: int| 0 <= j < k ==> (#[trigger] s[j]).key() != id
}

/// The position of the first record of `s` whose key is `id` (meaningful when `has_key`).
pub open spec fn first_key<T: Keyed>(s: Seq<T>, id: Seq<char>) -> int {
    choose|k: int| is_first_key(s, id, k)
}

/// `s` without the records whose key is `id`, in their order.
pub open spec fn without_key<T: Keyed>(s: Seq<T>, id: Seq<char>) -> Seq<T> {
    s.filter(key_differs(id))
}

/// The test that a record's key is not `id`.
pub open spec fn key_differs<T: Keyed>(id: Seq<char>) -> spec_fn(T) -> bool {
    |x: T| x.key() != id
}

pub proof fn lemma_first_key_unique<T: Keyed>(s: Seq<T>, id: Seq<char>, k: int)
    requires
        is_first_key(s, id, k),
    ensures
        has_key(s, id),
        first_key(s, id) == k,
{
    assert(s[k].key() == id);
    let c = first_key(s, id);
    assert(is_first_key(s, id, c));
    if c < k {
        assert(s[c].key() != id);
    } else if c > k {
        assert(s[k].key() != id);
    }
}

/// Position of the first record of `items` whose key is `id`.
pub fn position_of<T: Keyed>(items: &Vec<T>, id: &String) -> (r: Option<usize>)
    ensures
        match r {
            Some(k) => is_first_key(items@, id@, k as int) && first_key(items@, id@) == k,
            None => !has_key(items@, id@),
        },
{
    let mut i: usize = 0;
    while i < items.len()
        invariant
            0 <= i <= items@.len(),
            forall|j: int| 0 <= j < i ==> (#[trigger] items@[j]).key() != id@,
        decreases items@.len() - i,
    {
        if same_text(items[i].key_ref(), id) {
            proof {
                lemma_first_key_unique(items@, id@, i as int);
            }
            return Some(i);
        }
        i += 1;
    }
    None
}

/// A test on records, run in code and stated in specifications.
pub trait Selector<T>: Sized {
    spec fn accepts(&self, x: T) -> bool;

    fn test(&self, x: &T) -> (r: bool)
        ensures
            r == self.accepts(*x),
    ;
}

/// Accepts the records whose key is not the one held.
pub struct KeyIsNot<'a> {
    pub id: &'a String,
}

impl<'a, T: Keyed> Selector<T> for KeyIsNot<'a> {
    open spec fn accepts(&self, x: T) -> bool {
        x.key() != self.id@
    }

    fn test(&self, x: &T) -> (r: bool) {
        !same_text(x.key_ref(), self.id)
    }
}

/// The records of `s` that `sel` accepts, in their order.
pub open spec fn selected<T, S: Selector<T>>(s: Seq<T>, sel: S) -> Seq<T> {
    s.filter(|x: T| sel.accepts(x))
}

/// Removes from `items` every record whose key is `id`, keeping the order of the others.
pub fn remove_key<T: Keyed>(items: &mut Vec<T>, id: &String)
    ensures
        final(items)@ == without_key(old(items)@, id@),
{
    let sel = KeyIsNot { id };
    retain_where(items, &sel);
    proof {
        assert(selected(old(items)@, sel) == without_key(old(items)@, id@)) by {
            assert((|x: T| sel.accepts(x)) =~= key_differs::<T>(id@));
        }
    }
}

/// Keeps the records of `items` that `sel` accepts, in their order.
pub fn retain_where<T, S: Selector<T>>(items: &mut Vec<T>, sel: &S)
    ensures
        final(items)@ == selected(old(items)@, *sel),
{
    let ghost p = |x: T| sel.accepts(x);
    let ghost orig = items@;
    let mut i: usize = 0;
    let ghost mut seen: int = 0;
    while i < items.len()
        invariant
            0 <= i <= items@.len(),
            0 <= seen <= orig.len(),
            items@.len() - i == orig.len() - seen,
            items@.subrange(0, i as int) == orig.subrange(0, seen).filter(p),
            items@.subrange(i as int, items@.len() as int) == orig.subrange(seen, orig.len() as int),
            p == (|x: T| sel.accepts(x)),
        decreases items@.len() - i,
    {
        let ghost x = items@[i as int];
        proof {
            assert(x == orig[seen]) by {
                assert(items@.subrange(i as int, items@.len() as int)[0] == x);
            }
            assert(orig.subrange(0, seen + 1) == orig.subrange(0, seen).push(x));
            orig.subrange(0, seen).lemma_filter_push(x, p);
            assert(orig.subrange(seen + 1, orig.len() as int) =~= orig.subrange(
                seen,
                orig.len() as int,
            ).subrange(1, orig.len() - seen));
        }
        if !sel.test(&items[i]) {
            let ghost before = items@;
            items.remove(i);
            proof {
                assert(items@.subrange(0, i as int) =~= before.subrange(0, i as int));
                assert(items@.subrange(i as int, items@.len() as int) =~= before.subrange(
                    i + 1,
                    before.len() as int,
                ));
                seen = seen + 1;
            }
        } else {
            proof {
                assert(items@.subrange(0, i + 1) =~= items@.subrange(0, i as int).push(x));
                assert(items@.subrange(i + 1, items@.len() as int) =~= items@.subrange(
                    i as int,
                    items@.len() as int,
                ).subrange(1, items@.len() - i));
                seen = seen + 1;
            }
            i += 1;
        }
    }
    proof {
        assert(items@.subrange(0, i as int) == items@);
        assert(orig.subrange(0, orig.len() as int) == orig);
    }
}

} // verus!
