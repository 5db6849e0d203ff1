//! An ordered set of strings: entries keep the order of their first
//! insertion and none occurs twice.

use vstd::prelude::*;

verus! {

/// The view of every string in a sequence.
pub open spec fn strings_view(v: Seq<String>) -> Seq<Seq<char>> {
    v.map_values(|s: String| s@)
}

/// No entry occurs twice.
pub open spec fn no_duplicates(s: Seq<Seq<char>>) -> bool {
    forall|i: int, j: int| 0 <= i < s.len() && 0 <= j < s.len() && i != j ==> s[i] != s[j]
}

/// `a` followed by the entries of `b` that are not already present, in the
/// order of their first occurrence in `b`.
pub open spec fn seq_union(a: Seq<Seq<char>>, b: Seq<Seq<char>>) -> Seq<Seq<char>>
    decreases b.len(),
{
    if b.len() == 0 {
        a
    } else {
        let r = seq_union(a, b.drop_last());
        if r.contains(b.last()) {
            r
        } else {
            r.push(b.last())
        }
    }
}

/// An entry is in a union exactly when it is in one of the two operands.
pub proof fn lemma_seq_union_contains(a: Seq<Seq<char>>, b: Seq<Seq<char>>, x: Seq<char>)
    ensures
        seq_union(a, b).contains(x) <==> (a.contains(x) || b.contains(x)),
    decreases b.len(),
{
    if b.len() > 0 {
        lemma_seq_union_contains(a, b.drop_last(), x);
        let r = seq_union(a, b.drop_last());
        if b.drop_last().contains(x) {
            let k = choose|k: int| 0 <= k < b.drop_last().len() && b.drop_last()[k] == x;
            assert(b[k] == x);
        }
        if b.contains(x) && !b.drop_last().contains(x) {
            let k = choose|k: int| 0 <= k < b.len() && b[k] == x;
            if k < b.len() - 1 {
                assert(b.drop_last()[k] == x);
            }
            assert(x == b.last());
            if !r.contains(x) {
                assert(r.push(x)[r.len() as int] == x);
            }
        }
        if !r.contains(b.last()) {
            if r.push(b.last()).contains(x) {
                let k = choose|k: int| 0 <= k < r.len() + 1 && r.push(b.last())[k] == x;
                if k < r.len() {
                    assert(r[k] == x);
                }
            }
            if r.contains(x) {
                let k = choose|k: int| 0 <= k < r.len() && r[k] == x;
                assert(r.push(b.last())[k] == x);
            }
        }
    }
}

/// A union keeps its first operand as a prefix, and has no duplicates when
/// that operand has none.
pub proof fn lemma_seq_union_prefix(a: Seq<Seq<char>>, b: Seq<Seq<char>>)
    ensures
        seq_union(a, b).len() >= a.len(),
        seq_union(a, b).subrange(0, a.len() as int) == a,
        no_duplicates(a) ==> no_duplicates(seq_union(a, b)),
    decreases b.len(),
{
    if b.len() > 0 {
        lemma_seq_union_prefix(a, b.drop_last());
        let r = seq_union(a, b.drop_last());
        assert(r.push(b.last()).subrange(0, a.len() as int) == r.subrange(0, a.len() as int));
        if no_duplicates(a) && !r.contains(b.last()) {
            let p = r.push(b.last());
            assert forall|i: int, j: int| 0 <= i < p.len() && 0 <= j < p.len() && i != j implies p[i]
                != p[j] by {
                if i == r.len() as int {
                    assert(r[j] == p[j]);
                } else if j == r.len() as int {
                    assert(r[i] == p[i]);
                }
            }
        }
    }
}

/// A union with entries that are all present already adds nothing.
pub proof fn lemma_seq_union_subsumed(a: Seq<Seq<char>>, b: Seq<Seq<char>>)
    requires
        forall|x: Seq<char>| b.contains(x) ==> a.contains(x),
    ensures
        seq_union(a, b) == a,
    decreases b.len(),
{
    if b.len() > 0 {
        assert forall|x: Seq<char>| b.drop_last().contains(x) implies a.contains(x) by {
            let k = choose|k: int| 0 <= k < b.drop_last().len() && b.drop_last()[k] == x;
            assert(b[k] == x);
        }
        lemma_seq_union_subsumed(a, b.drop_last());
        assert(b[b.len() - 1] == b.last());
        assert(b.contains(b.last()));
    }
}

/// Union is associative.
pub proof fn lemma_seq_union_associative(a: Seq<Seq<char>>, b: Seq<Seq<char>>, c: Seq<Seq<char>>)
    ensures
        seq_union(seq_union(a, b), c) == seq_union(a, seq_union(b, c)),
    decreases c.len(),
{
    if c.len() > 0 {
        let x = c.last();
        lemma_seq_union_associative(a, b, c.drop_last());
        let q = seq_union(b, c.drop_last());
        let r = seq_union(a, q);
        if q.contains(x) {
            lemma_seq_union_contains(a, q, x);
        } else {
            let qx = q.push(x);
            assert(qx.drop_last() =~= q);
            assert(qx.last() == x);
        }
    }
}

/// A set of strings in insertion order, without duplicates.
#[derive(Debug, PartialEq, Eq)]
pub struct StringSet {
    entries: Vec<String>,
}

impl View for StringSet {
    type V = Seq<Seq<char>>;

    closed spec fn view(&self) -> Seq<Seq<char>> {
        strings_view(self.entries@)
    }
}

impl Clone for StringSet {
    fn clone(&self) -> (copy: StringSet)
        ensures
            copy@ == self@,
    {
        proof {
            use_type_invariant(self);
        }
        let entries = self.entries.clone();
        proof {
            assert(strings_view(entries@) =~= strings_view(self.entries@));
        }
        StringSet { entries }
    }
}

impl StringSet {
    #[verifier::type_invariant]
    closed spec fn well_formed(self) -> bool {
        no_duplicates(strings_view(self.entries@))
    }

    /// An empty set.
    pub fn new() -> (set: StringSet)
        ensures
            set@ == Seq::<Seq<char>>::empty(),
    {
        let set = StringSet { entries: Vec::new() };
        assert(strings_view(set.entries@) =~= Seq::<Seq<char>>::empty());
        set
    }

    /// The number of entries.
    pub fn len(&self) -> (n: usize)
        ensures
            n == self@.len(),
    {
        self.entries.len()
    }

    /// Whether the set has no entry.
    pub fn is_empty(&self) -> (b: bool)
        ensures
            b == (self@.len() == 0),
    {
        self.entries.len() == 0
    }

    /// The entry at position `i`.
    pub fn get(&self, i: usize) -> (s: &String)
        requires
            i < self@.len(),
        ensures
            s@ == self@[i as int],
    {
        &self.entries[i]
    }

    /// Whether `s` is an entry.
    pub fn contains(&self, s: &String) -> (b: bool)
        ensures
            b == self@.contains(s@),
    {
        let mut i: usize = 0;
        while i < self.entries.len()
            invariant
                i <= self.entries@.len(),
                forall|k: int| 0 <= k < i ==> self@[k] != s@,
            decreases self.entries@.len() - i,
        {
            if self.entries[i] == *s {
                assert(self@[i as int] == s@);
                return true;
            }
            i = i + 1;
        }
        proof {
            if self@.contains(s@) {
                let k = choose|k: int| 0 <= k < self@.len() && self@[k] == s@;
            }
        }
        false
    }

    /// Adds `s` at the end unless it is already an entry; returns whether it
    /// was added.
    pub fn insert(&mut self, s: String) -> (added: bool)
        ensures
            added == !old(self)@.contains(s@),
            final(self)@ == seq_union(old(self)@, seq![s@]),
    {
        proof {
            use_type_invariant(&*self);
            lemma_seq_union_single(self@, s@);
        }
        if self.contains(&s) {
            false
        } else {
            let ghost before = self.entries@;
            let mut entries = Vec::new();
            std::mem::swap(&mut entries, &mut self.entries);
            entries.push(s);
            proof {
                assert(strings_view(entries@) =~= strings_view(before).push(s@));
                lemma_seq_union_prefix(strings_view(before), seq![s@]);
            }
            self.entries = entries;
            true
        }
    }

    /// Adds every entry of `other` that is not already present, in the order
    /// of `other`.
    pub fn extend(&mut self, other: StringSet)
        ensures
            final(self)@ == seq_union(old(self)@, other@),
    {
        let n = other.entries.len();
        let mut i: usize = 0;
        proof {
            assert(other@.take(0) =~= Seq::<Seq<char>>::empty());
        }
        while i < n
            invariant
                n == other@.len(),
                i <= n,
                self@ == seq_union(old(self)@, other@.take(i as int)),
            decreases n - i,
        {
            let s = other.entries[i].clone();
            proof {
                assert(s@ == other@[i as int]);
                lemma_seq_union_step(old(self)@, other@, i as int);
            }
            self.insert(s);
            i = i + 1;
        }
        proof {
            assert(other@.take(n as int) =~= other@);
        }
    }

    /// The set of the distinct strings of `items`, in the order of their
    /// first occurrence.
    pub fn from_vec(items: Vec<String>) -> (set: StringSet)
        ensures
            set@ == seq_union(Seq::<Seq<char>>::empty(), strings_view(items@)),
    {
        let mut set = StringSet::new();
        let n = items.len();
        let mut i: usize = 0;
        proof {
            assert(strings_view(items@).take(0) =~= Seq::<Seq<char>>::empty());
        }
        while i < n
            invariant
                n == items@.len(),
                i <= n,
                set@ == seq_union(Seq::<Seq<char>>::empty(), strings_view(items@).take(i as int)),
            decreases n - i,
        {
            let s = items[i].clone();
            proof {
                lemma_seq_union_step(Seq::<Seq<char>>::empty(), strings_view(items@), i as int);
            }
            set.insert(s);
            i = i + 1;
        }
        proof {
            assert(strings_view(items@).take(n as int) =~= strings_view(items@));
        }
        set
    }

    /// The entries, in order.
    pub fn to_vec(&self) -> (v: Vec<String>)
        ensures
            strings_view(v@) == self@,
    {
        let v = self.entries.clone();
        proof {
            assert(strings_view(v@) =~= strings_view(self.entries@));
        }
        v
    }
}

/// The union with a single entry adds it at the end unless it is present.
pub proof fn lemma_seq_union_single(a: Seq<Seq<char>>, x: Seq<char>)
    ensures
        seq_union(a, seq![x]) == (if a.contains(x) {
            a
        } else {
            a.push(x)
        }),
{
    let one = seq![x];
    assert(one.drop_last() =~= Seq::<Seq<char>>::empty());
    assert(seq_union(a, one.drop_last()) == a);
    assert(one.last() == x);
}

/// Adding the next entry of `b` to a union with a prefix of `b` gives the
/// union with the longer prefix.
pub proof fn lemma_seq_union_step(a: Seq<Seq<char>>, b: Seq<Seq<char>>, i: int)
    requires
        0 <= i < b.len(),
    ensures
        seq_union(seq_union(a, b.take(i)), seq![b[i]]) == seq_union(a, b.take(i + 1)),
{
    lemma_seq_union_single(seq_union(a, b.take(i)), b[i]);
    assert(b.take(i + 1).drop_last() =~= b.take(i));
    assert(b.take(i + 1).last() == b[i]);
}

} // verus!
