//! Collection helpers with intuitive synonyms.
//!
//! Each helper that hands out elements hands out clones of them: the
//! contracts relate every returned element to the element it was cloned
//! from with `cloned`, which says that it is a possible result of `clone`.
use vstd::prelude::*;
use vstd::pervasive::VecAdditionalExecFns;
use vstd::std_specs::cmp::PartialEqSpec;
use crate::numbers::{ScriptRng, lcg_output, lcg_step, rand_index};
use crate::order::{
    ascending, descending, first_greater, greater, is_greater, lawful_order, lemma_greater_asymmetric,
    stable_sorted,
};

verus! {

/// `b` holds, position by position, clones of the elements of `a`.
pub open spec fn clones_of<T: Clone>(a: Seq<T>, b: Seq<T>) -> bool {
    &&& a.len() == b.len()
    &&& forall|i: int| 0 <= i < a.len() ==> cloned(a[i], #[trigger] b[i])
}

/// `r` is what cloning the element at `i` of `s` gives, or `None` when
/// there is no such element.
pub open spec fn cloned_at<T: Clone>(s: Seq<T>, i: int, r: Option<T>) -> bool {
    match r {
        Some(x) => 0 <= i < s.len() && cloned(s[i], x),
        None => !(0 <= i < s.len()),
    }
}

/// Clones of the elements of `s` in positions `start..end`, in order.
fn clone_range<T: Clone>(s: &[T], start: usize, end: usize) -> (v: Vec<T>)
    requires
        start <= end <= s@.len(),
    ensures
        clones_of(s@.subrange(start as int, end as int), v@),
{
    let mut v: Vec<T> = Vec::new();
    let mut i: usize = start;
    while i < end
        invariant
            start <= i <= end <= s@.len(),
            clones_of(s@.subrange(start as int, i as int), v@),
        decreases end - i,
    {
        let c = s[i].clone();
        v.push(c);
        i = i + 1;
        assert(cloned(s@[i - 1], v@[v@.len() - 1]));
    }
    v
}

/// Clone of the element at `i`, if there is one.
fn clone_at<T: Clone>(s: &[T], i: usize) -> (r: Option<T>)
    ensures
        cloned_at(s@, i as int, r),
{
    if i < s.len() {
        Some(s[i].clone())
    } else {
        None
    }
}

/// The elements of `s` whose entry in `keep` is `true`, in order.
pub open spec fn kept<T>(s: Seq<T>, keep: Seq<bool>) -> Seq<T>
    decreases s.len(),
{
    if s.len() == 0 {
        Seq::empty()
    } else if keep[s.len() - 1] {
        kept(s.drop_last(), keep).push(s.last())
    } else {
        kept(s.drop_last(), keep)
    }
}

/// `keep` with each entry compared against `negate`: where `negate` is
/// `true` the entries are inverted.
pub open spec fn flipped(keep: Seq<bool>, negate: bool) -> Seq<bool> {
    Seq::new(keep.len(), |i: int| keep[i] != negate)
}

/// `answers` records, for each element of `s` in turn, what `f` answered
/// when it was called on that element.
pub open spec fn answers_of<T, F: Fn(&T) -> bool>(f: F, s: Seq<T>, answers: Seq<bool>) -> bool {
    &&& answers.len() == s.len()
    &&& forall|i: int| 0 <= i < s.len() ==> call_ensures(f, (&s[i],), #[trigger] answers[i])
}

/// `r` holds, for each element of `c` in turn, what `f` returned on it.
pub open spec fn results_of<T, U, F: Fn(T) -> U>(f: F, c: Seq<T>, r: Seq<U>) -> bool {
    &&& r.len() == c.len()
    &&& forall|i: int| 0 <= i < c.len() ==> call_ensures(f, (c[i],), #[trigger] r[i])
}

/// `r` holds what `f` returned on clones of the elements of `s`, in order.
pub open spec fn maps_clones<T: Clone, U, F: Fn(T) -> U>(f: F, s: Seq<T>, r: Seq<U>) -> bool {
    exists|c: Seq<T>| clones_of(s, c) && results_of(f, c, r)
}

/// `r` holds clones of the elements of `s` on which `f` answered
/// `!negate`, in order.
pub open spec fn filters_clones<T: Clone, F: Fn(&T) -> bool>(
    f: F,
    s: Seq<T>,
    r: Seq<T>,
    negate: bool,
) -> bool {
    exists|a: Seq<bool>| answers_of(f, s, a) && clones_of(kept(s, flipped(a, negate)), r)
}

/// `r` holds clones of some of the elements of `s`, in order.
pub open spec fn clones_subsequence<T: Clone>(s: Seq<T>, r: Seq<T>) -> bool {
    exists|a: Seq<bool>| a.len() == s.len() && clones_of(kept(s, a), r)
}

/// `r` holds clones of the elements of `s`, each once, and, where the
/// order is lawful, in the order of a stable sort.
pub open spec fn sorts_clones<T: Clone + Ord>(s: Seq<T>, r: Seq<T>) -> bool {
    exists|c: Seq<T>|
        clones_of(s, c) && r.to_multiset() == c.to_multiset() && (lawful_order::<T>() ==> r
            == stable_sorted(c))
}

/// `r` holds clones of the elements of `s`, each once, and, where the
/// order is lawful, in the reverse order of a stable sort.
pub open spec fn sorts_clones_desc<T: Clone + Ord>(s: Seq<T>, r: Seq<T>) -> bool {
    exists|c: Seq<T>|
        clones_of(s, c) && r.to_multiset() == c.to_multiset() && (lawful_order::<T>() ==> r
            == stable_sorted(c).reverse())
}

/// `kept` reads `keep` only at the positions of `s`.
proof fn lemma_kept_prefix<T>(s: Seq<T>, k1: Seq<bool>, k2: Seq<bool>)
    requires
        forall|i: int| 0 <= i < s.len() ==> k1[i] == k2[i],
    ensures
        kept(s, k1) == kept(s, k2),
    decreases s.len(),
{
    if s.len() > 0 {
        lemma_kept_prefix(s.drop_last(), k1, k2);
    }
}

/// Clones of the elements of `s` on which `f` answers `!negate`.
fn keep_where<T: Clone, F: Fn(&T) -> bool>(s: &[T], f: F, negate: bool) -> (r: Vec<T>)
    requires
        forall|x: &T| call_requires(f, (x,)),
    ensures
        filters_clones(f, s@, r@, negate),
{
    let mut r: Vec<T> = Vec::new();
    let ghost mut answers: Seq<bool> = Seq::empty();
    let mut i: usize = 0;
    while i < s.len()
        invariant
            i <= s@.len(),
            forall|x: &T| call_requires(f, (x,)),
            answers_of(f, s@.take(i as int), answers),
            clones_of(kept(s@.take(i as int), flipped(answers, negate)), r@),
        decreases s@.len() - i,
    {
        let b = f(&s[i]);
        let ghost old_answers = answers;
        proof {
            answers = answers.push(b);
            lemma_kept_prefix(s@.take(i as int), flipped(old_answers, negate), flipped(answers, negate));
            assert(s@.take(i + 1).drop_last() =~= s@.take(i as int));
        }
        if b != negate {
            let c = s[i].clone();
            r.push(c);
            assert(cloned(s@[i as int], r@[r@.len() - 1]));
        }
        i = i + 1;
        assert(answers_of(f, s@.take(i as int), answers));
    }
    assert(s@.take(s@.len() as int) =~= s@);
    r
}

/// The results of `f` on clones of the elements of `s`.
fn map_clones<T: Clone, U, F: Fn(T) -> U>(s: &[T], f: F) -> (r: Vec<U>)
    requires
        forall|x: T| call_requires(f, (x,)),
    ensures
        maps_clones(f, s@, r@),
{
    let mut r: Vec<U> = Vec::new();
    let ghost mut c: Seq<T> = Seq::empty();
    let mut i: usize = 0;
    while i < s.len()
        invariant
            i <= s@.len(),
            forall|x: T| call_requires(f, (x,)),
            clones_of(s@.take(i as int), c),
            results_of(f, c, r@),
        decreases s@.len() - i,
    {
        let x = s[i].clone();
        proof {
            c = c.push(x);
        }
        let y = f(x);
        r.push(y);
        i = i + 1;
        assert(cloned(s@.take(i as int)[i - 1], c[i - 1]));
    }
    assert(s@.take(s@.len() as int) =~= s@);
    r
}

/// Inserting `x` adds one occurrence of it to the multiset of a sequence.
proof fn lemma_insert_multiset<T>(s: Seq<T>, j: int, x: T)
    requires
        0 <= j <= s.len(),
    ensures
        s.insert(j, x).to_multiset() =~= s.to_multiset().insert(x),
{
    broadcast use vstd::seq_lib::group_to_multiset_ensures;
    let t = s.insert(j, x);
    assert(t.remove(j) =~= s);
    assert(t[j] == x);
    assert(t.contains(x));
    assert(t.to_multiset().count(x) > 0);
}

/// The position of the first greater element, found by a scan.
proof fn lemma_first_greater<T: PartialOrd>(s: Seq<T>, x: T, j: int)
    requires
        0 <= j <= s.len(),
        forall|k: int| 0 <= k < j ==> !greater(#[trigger] s[k], x),
        j == s.len() || greater(s[j], x),
    ensures
        first_greater(s, x) == j,
    decreases s.len(),
{
    if s.len() > 0 && j > 0 {
        assert(!greater(s[0], x));
        lemma_first_greater(s.drop_first(), x, j - 1);
    }
}

/// Clones of the elements of `s`, each placed after every element that is
/// not greater than it (a stable insertion sort).
fn sort_clones<T: Clone + Ord>(s: &[T]) -> (r: Vec<T>)
    ensures
        sorts_clones(s@, r@),
        lawful_order::<T>() ==> ascending(r@),
{
    let mut r: Vec<T> = Vec::new();
    let ghost mut c: Seq<T> = Seq::empty();
    let mut i: usize = 0;
    proof {
        broadcast use vstd::seq_lib::group_to_multiset_ensures;
        assert(r@.to_multiset() =~= c.to_multiset());
    }
    while i < s.len()
        invariant
            i <= s@.len(),
            clones_of(s@.take(i as int), c),
            r@.to_multiset() == c.to_multiset(),
            lawful_order::<T>() ==> ascending(r@),
            lawful_order::<T>() ==> r@ == stable_sorted(c),
        decreases s@.len() - i,
    {
        let x = s[i].clone();
        let mut j: usize = 0;
        while j < r.len()
            invariant
                j <= r@.len(),
                lawful_order::<T>() ==> forall|k: int| 0 <= k < j ==> !greater(#[trigger] r@[k], x),
            ensures
                j <= r@.len(),
                lawful_order::<T>() ==> forall|k: int| 0 <= k < j ==> !greater(#[trigger] r@[k], x),
                lawful_order::<T>() && j < r@.len() ==> greater(r@[j as int], x),
            decreases r@.len() - j,
        {
            if is_greater(&r[j], &x) {
                break;
            }
            j = j + 1;
        }
        let ghost old_r = r@;
        Vec::insert(&mut r, j, x);
        proof {
            lemma_insert_multiset(old_r, j as int, x);
            broadcast use vstd::seq_lib::group_to_multiset_ensures;
            let old_c = c;
            c = c.push(x);
            if lawful_order::<T>() {
                lemma_first_greater(old_r, x, j as int);
                assert(c.drop_last() =~= old_c);
                assert(r@ == stable_sorted(c));
                assert forall|a: int, b: int|
                    #![trigger r@[a], r@[b]]
                    0 <= a && b == a + 1 && b < r@.len() implies !greater(r@[a], r@[b]) by {
                    if b < j {
                        assert(r@[a] == old_r[a] && r@[b] == old_r[b]);
                    } else if b == j {
                        assert(r@[a] == old_r[a]);
                    } else if a == j {
                        assert(r@[b] == old_r[j as int]);
                        assert(greater(old_r[j as int], x));
                        lemma_greater_asymmetric(old_r[j as int], x);
                    } else {
                        assert(r@[a] == old_r[a - 1] && r@[b] == old_r[b - 1]);
                    }
                }
            }
        }
        i = i + 1;
        assert(cloned(s@.take(i as int)[i - 1], c[i - 1]));
    }
    assert(s@.take(s@.len() as int) =~= s@);
    r
}

/// The elements of `v` in reverse order.
fn reverse_vec<T>(v: Vec<T>) -> (r: Vec<T>)
    ensures
        r@ == v@.reverse(),
{
    let mut v = v;
    let ghost orig = v@;
    let mut r: Vec<T> = Vec::new();
    while v.len() > 0
        invariant
            orig.len() == v@.len() + r@.len(),
            v@ == orig.take(v@.len() as int),
            r@ == orig.skip(v@.len() as int).reverse(),
        decreases v@.len(),
    {
        let ghost n = v@.len();
        let x = v.pop().unwrap();
        r.push(x);
        assert(r@ =~= orig.skip(v@.len() as int).reverse());
        assert(v@ =~= orig.take(v@.len() as int));
    }
    assert(orig.skip(0) =~= orig);
    r
}

/// Access to the first and the last element, each under several names.
pub trait ArrayExtensions<T: Clone> {
    /// The elements, in order.
    spec fn elements(&self) -> Seq<T>;

    /// A clone of the first element, or `None` when there is none.
    fn head(&self) -> (r: Option<T>)
        ensures
            cloned_at(self.elements(), 0, r),
    ;

    /// The same as `head`.
    fn start(&self) -> (r: Option<T>)
        ensures
            cloned_at(self.elements(), 0, r),
    ;

    /// The same as `head`.
    fn begin(&self) -> (r: Option<T>)
        ensures
            cloned_at(self.elements(), 0, r),
    ;

    /// A clone of the last element, or `None` when there is none.
    fn tail(&self) -> (r: Option<T>)
        ensures
            cloned_at(self.elements(), self.elements().len() - 1, r),
    ;

    /// The same as `tail`.
    fn end(&self) -> (r: Option<T>)
        ensures
            cloned_at(self.elements(), self.elements().len() - 1, r),
    ;
}

impl<T: Clone> ArrayExtensions<T> for [T] {
    open spec fn elements(&self) -> Seq<T> {
        self@
    }

    fn head(&self) -> (r: Option<T>) {
        clone_at(self, 0)
    }

    fn start(&self) -> (r: Option<T>) {
        clone_at(self, 0)
    }

    fn begin(&self) -> (r: Option<T>) {
        clone_at(self, 0)
    }

    fn tail(&self) -> (r: Option<T>) {
        if self.len() == 0 {
            None
        } else {
            clone_at(self, self.len() - 1)
        }
    }

    fn end(&self) -> (r: Option<T>) {
        self.tail()
    }
}

impl<T: Clone> ArrayExtensions<T> for Vec<T> {
    open spec fn elements(&self) -> Seq<T> {
        self@
    }

    fn head(&self) -> (r: Option<T>) {
        self.as_slice().head()
    }

    fn start(&self) -> (r: Option<T>) {
        self.as_slice().start()
    }

    fn begin(&self) -> (r: Option<T>) {
        self.as_slice().begin()
    }

    fn tail(&self) -> (r: Option<T>) {
        self.as_slice().tail()
    }

    fn end(&self) -> (r: Option<T>) {
        self.as_slice().end()
    }
}

/// Position of the first element of `s` that `==` considers equal to
/// `item`, as its specification defines it, or -1 when there is none.
pub open spec fn first_equal<T: PartialEq>(s: Seq<T>, item: T) -> int
    decreases s.len(),
{
    if s.len() == 0 {
        -1
    } else if first_equal(s.drop_last(), item) >= 0 {
        first_equal(s.drop_last(), item)
    } else if s.last().eq_spec(&item) {
        s.len() - 1
    } else {
        -1
    }
}

/// For each element of `s`, whether `==` considers it different from `item`.
pub open spec fn unequal_to<T: PartialEq>(s: Seq<T>, item: T) -> Seq<bool> {
    Seq::new(s.len(), |i: int| !s[i].eq_spec(&item))
}

/// `r` pairs each position of `s` with a clone of the element there.
pub open spec fn enumerated<T: Clone>(s: Seq<T>, r: Seq<(usize, T)>) -> bool {
    &&& r.len() == s.len()
    &&& forall|i: int| 0 <= i < s.len() ==> (#[trigger] r[i]).0 == i && cloned(s[i], r[i].1)
}

/// What `index_of` returns for a position: the position itself, or -1 when
/// the position is negative.
pub open spec fn index_result(p: int) -> i64 {
    if p < 0 {
        -1i64
    } else {
        p as i64
    }
}

/// `answers` holds, for each element of `s` in turn, what `!=` returned on
/// it and `item`.
pub open spec fn ne_answers<T: PartialEq>(s: Seq<T>, item: &T, answers: Seq<bool>) -> bool {
    &&& answers.len() == s.len()
    &&& forall|i: int| 0 <= i < s.len() ==> call_ensures(T::ne, (&s[i], item), #[trigger] answers[i])
}

/// `r` holds clones of the elements of `s` on which `!=` with `item`
/// returned `true`, in order.
pub open spec fn without_clones<T: Clone + PartialEq>(s: Seq<T>, item: &T, r: Seq<T>) -> bool {
    exists|a: Seq<bool>| ne_answers(s, item, a) && clones_of(kept(s, a), r)
}

/// `==` returned `b` on `x` and `y`.
pub open spec fn eq_answer<T: PartialEq>(x: &T, y: &T, b: bool) -> bool {
    call_ensures(T::eq, (x, y), b)
}

/// `r` is the position of the first element of `s` on which `==` with
/// `item` returned `true`, `==` having returned `false` on every element
/// before it; or `r` is -1 and `==` returned `false` on every element.
pub open spec fn first_match<T: PartialEq>(s: Seq<T>, item: &T, r: i64) -> bool {
    ||| exists|i: int|
        #![trigger index_result(i)]
        {
            &&& 0 <= i < s.len()
            &&& r == index_result(i)
            &&& eq_answer(&s[i], item, true)
            &&& forall|j: int| 0 <= j < i ==> #[trigger] eq_answer(&s[j], item, false)
        }
    ||| r == -1 && forall|j: int| 0 <= j < s.len() ==> #[trigger] eq_answer(&s[j], item, false)
}

/// Clones of the elements of `s` that `!=` considers different from `item`.
fn keep_unequal<T: Clone + PartialEq>(s: &[T], item: &T) -> (r: Vec<T>)
    ensures
        clones_subsequence(s@, r@),
        without_clones(s@, item, r@),
        T::obeys_eq_spec() ==> clones_of(kept(s@, unequal_to(s@, *item)), r@),
{
    let mut r: Vec<T> = Vec::new();
    let ghost mut a: Seq<bool> = Seq::empty();
    let mut i: usize = 0;
    while i < s.len()
        invariant
            i <= s@.len(),
            a.len() == i,
            clones_of(kept(s@.take(i as int), a), r@),
            T::obeys_eq_spec() ==> forall|k: int| 0 <= k < i ==> a[k] == !s@[k].eq_spec(item),
            forall|k: int| 0 <= k < i ==> call_ensures(T::ne, (&s@[k], item), #[trigger] a[k]),
        decreases s@.len() - i,
    {
        let b = s[i].ne(item);
        let ghost old_a = a;
        proof {
            a = a.push(b);
            lemma_kept_prefix(s@.take(i as int), old_a, a);
            assert(s@.take(i + 1).drop_last() =~= s@.take(i as int));
        }
        if b {
            let c = s[i].clone();
            r.push(c);
            assert(cloned(s@[i as int], r@[r@.len() - 1]));
        }
        i = i + 1;
    }
    assert(s@.take(s@.len() as int) =~= s@);
    assert(ne_answers(s@, item, a));
    proof {
        if T::obeys_eq_spec() {
            lemma_kept_prefix(s@, a, unequal_to(s@, *item));
        }
    }
    r
}

/// Position of the first element of `s` that `==` considers equal to `item`.
fn position_of<T: PartialEq>(s: &[T], item: &T) -> (r: i64)
    ensures
        r == -1 || exists|i: int| 0 <= i < s@.len() && r == #[trigger] index_result(i),
        first_match(s@, item, r),
        T::obeys_eq_spec() ==> r == index_result(first_equal(s@, *item)),
{
    let mut i: usize = 0;
    while i < s.len()
        invariant
            i <= s@.len(),
            T::obeys_eq_spec() ==> first_equal(s@.take(i as int), *item) == -1,
            forall|j: int| 0 <= j < i ==> #[trigger] eq_answer(&s@[j], item, false),
        decreases s@.len() - i,
    {
        assert(s@.take(i + 1).drop_last() =~= s@.take(i as int));
        let found = s[i].eq(item);
        assert(eq_answer(&s@[i as int], item, found));
        if found {
            assert(T::obeys_eq_spec() ==> first_equal(s@.take(i + 1), *item) == i);
            assert(s@.take(i + 1).len() == i + 1);
            proof {
                if T::obeys_eq_spec() {
                    lemma_first_equal_prefix(s@, *item, i + 1);
                }
            }
            let r: i64 = #[verifier::truncate] (i as i64);
            assert(r == index_result(i as int));
            return r;
        }
        i = i + 1;
    }
    assert(s@.take(s@.len() as int) =~= s@);
    assert(first_match(s@, item, -1i64));
    -1
}

/// Once a prefix holds an equal element, longer prefixes find the same one.
proof fn lemma_first_equal_prefix<T: PartialEq>(s: Seq<T>, item: T, n: int)
    requires
        0 <= n <= s.len(),
        first_equal(s.take(n), item) >= 0,
    ensures
        first_equal(s, item) == first_equal(s.take(n), item),
    decreases s.len() - n,
{
    if n < s.len() {
        assert(s.take(n + 1).drop_last() =~= s.take(n));
        lemma_first_equal_prefix(s, item, n + 1);
    } else {
        assert(s.take(n) =~= s);
    }
}

/// Each position of `s` paired with a clone of the element there.
fn enumerate_clones<T: Clone>(s: &[T]) -> (r: Vec<(usize, T)>)
    ensures
        enumerated(s@, r@),
{
    let mut r: Vec<(usize, T)> = Vec::new();
    let mut i: usize = 0;
    while i < s.len()
        invariant
            i <= s@.len(),
            enumerated(s@.take(i as int), r@),
        decreases s@.len() - i,
    {
        let c = s[i].clone();
        r.push((i, c));
        i = i + 1;
        assert(cloned(s@.take(i as int)[i - 1], r@[i - 1].1));
    }
    assert(s@.take(s@.len() as int) =~= s@);
    r
}

/// A clone of the element of `s` at the generator's next output, taken
/// modulo the length.
fn random_element<T: Clone>(s: &[T], rng: &mut ScriptRng) -> (r: Option<T>)
    ensures
        s@.len() == 0 ==> r is None && final(rng).state() == old(rng).state(),
        s@.len() > 0 ==> final(rng).state() == lcg_step(old(rng).state())
            && cloned_at(s@, (lcg_output(final(rng).state()) % s@.len()) as int, r),
{
    if s.len() == 0 {
        return None;
    }
    let idx: usize = rand_index(rng, s.len());
    clone_at(s, idx)
}

/// `s` with the elements at `i` and `j` exchanged.
pub open spec fn swapped<T>(s: Seq<T>, i: int, j: int) -> Seq<T> {
    s.update(i, s[j]).update(j, s[i])
}

/// The Fisher-Yates pass over positions `i` down to 1: at each position
/// `k`, the generator advances and the element at `k` is exchanged with the
/// one at the new output modulo `k + 1`. Gives the sequence and the final
/// generator state.
pub open spec fn fisher_yates<T>(s: Seq<T>, state: u64, i: nat) -> (Seq<T>, u64)
    decreases i,
{
    if i == 0 {
        (s, state)
    } else {
        let next = lcg_step(state);
        let j = lcg_output(next) % (i + 1);
        fisher_yates(swapped(s, i as int, j as int), next, (i - 1) as nat)
    }
}

/// The shuffle of `s` from generator state `state`: a Fisher-Yates pass
/// over all positions but the first; a sequence of at most one element is
/// left as it is and draws nothing.
pub open spec fn shuffled<T>(s: Seq<T>, state: u64) -> (Seq<T>, u64) {
    if s.len() <= 1 {
        (s, state)
    } else {
        fisher_yates(s, state, (s.len() - 1) as nat)
    }
}

/// Replacing the element at `i` by `x` removes one occurrence of the old
/// element from the multiset and adds one of `x`.
proof fn lemma_update_multiset<T>(s: Seq<T>, i: int, x: T)
    requires
        0 <= i < s.len(),
    ensures
        s.update(i, x).to_multiset() =~= s.to_multiset().remove(s[i]).insert(x),
{
    broadcast use vstd::seq_lib::group_to_multiset_ensures;
    assert(s.update(i, x) =~= s.remove(i).insert(i, x));
    lemma_insert_multiset(s.remove(i), i, x);
}

/// Exchanging two elements keeps the multiset.
proof fn lemma_swapped_multiset<T>(s: Seq<T>, i: int, j: int)
    requires
        0 <= i < s.len(),
        0 <= j < s.len(),
    ensures
        swapped(s, i, j).to_multiset() =~= s.to_multiset(),
{
    broadcast use vstd::seq_lib::group_to_multiset_ensures;
    broadcast use vstd::multiset::group_multiset_axioms;
    let t = s.update(i, s[j]);
    lemma_update_multiset(s, i, s[j]);
    lemma_update_multiset(t, j, s[i]);
    assert(t[j] == s[j] || i == j);
    if i == j {
        assert(swapped(s, i, j) =~= s);
    } else {
        assert(s.contains(s[i]));
        assert(s.to_multiset().count(s[i]) > 0);
        assert(s.contains(s[j]));
        assert(s.to_multiset().count(s[j]) > 0);
    }
}

/// A Fisher-Yates pass keeps the multiset.
proof fn lemma_fisher_yates_multiset<T>(s: Seq<T>, state: u64, i: nat)
    requires
        i < s.len(),
    ensures
        fisher_yates(s, state, i).0.to_multiset() == s.to_multiset(),
        fisher_yates(s, state, i).0.len() == s.len(),
    decreases i,
{
    if i > 0 {
        let next = lcg_step(state);
        let j = lcg_output(next) % (i + 1);
        lemma_swapped_multiset(s, i as int, j as int);
        lemma_fisher_yates_multiset(swapped(s, i as int, j as int), next, (i - 1) as nat);
    }
}

/// A shuffle is a permutation: it keeps the length and the multiset.
pub proof fn lemma_shuffled_is_permutation<T>(s: Seq<T>, state: u64)
    ensures
        shuffled(s, state).0.len() == s.len(),
        shuffled(s, state).0.to_multiset() == s.to_multiset(),
{
    if s.len() > 1 {
        lemma_fisher_yates_multiset(s, state, (s.len() - 1) as nat);
    }
}

/// Exchanges the elements at `i` and `j` of `v`, where `j <= i`.
fn swap_elements<T>(v: &mut Vec<T>, i: usize, j: usize)
    requires
        j <= i < old(v)@.len(),
    ensures
        final(v)@ == swapped(old(v)@, i as int, j as int),
{
    if i == j {
        assert(swapped(v@, i as int, j as int) =~= v@);
        return;
    }
    let ghost s = v@;
    let xi = v.remove(i);
    let xj = v.remove(j);
    v.insert(j, xi);
    v.insert(i, xj);
    assert(v@ =~= swapped(s, i as int, j as int));
}

/// Clones of the elements of `s`, shuffled from the generator's state.
fn shuffle_clones<T: Clone>(s: &[T], rng: &mut ScriptRng) -> (r: Vec<T>)
    ensures
        exists|c: Seq<T>|
            clones_of(s@, c) && (r@, final(rng).state()) == shuffled(c, old(rng).state()),
{
    let mut v = clone_range(s, 0, s.len());
    assert(s@.subrange(0, s@.len() as int) =~= s@);
    let ghost c = v@;
    let ghost st0 = rng.state();
    if v.len() <= 1 {
        return v;
    }
    let mut i: usize = v.len() - 1;
    while i > 0
        invariant
            i < v@.len(),
            v@.len() == c.len(),
            v@.len() <= usize::MAX,
            c.len() > 1,
            fisher_yates(v@, rng.state(), i as nat) == fisher_yates(c, st0, (c.len() - 1) as nat),
        decreases i,
    {
        let j: usize = rand_index(rng, i + 1);
        swap_elements(&mut v, i, j);
        i = i - 1;
    }
    v
}

/// `filtered` and `except` with the same answers split a collection between
/// them: their lengths add up to its length.
pub proof fn lemma_filtered_except_partition<T>(s: Seq<T>, answers: Seq<bool>)
    requires
        answers.len() == s.len(),
    ensures
        kept(s, answers).len() + kept(s, flipped(answers, true)).len() == s.len(),
    decreases s.len(),
{
    if s.len() > 0 {
        let d = s.drop_last();
        lemma_kept_prefix(d, answers, answers.drop_last());
        lemma_kept_prefix(d, flipped(answers, true), flipped(answers.drop_last(), true));
        lemma_filtered_except_partition(d, answers.drop_last());
    }
}

/// Each element that `kept` keeps is an element of the collection whose
/// answer is `true`.
pub proof fn lemma_kept_elements<T>(s: Seq<T>, answers: Seq<bool>, j: int)
    requires
        answers.len() == s.len(),
        0 <= j < kept(s, answers).len(),
    ensures
        exists|i: int| 0 <= i < s.len() && answers[i] && s[i] == #[trigger] kept(s, answers)[j],
    decreases s.len(),
{
    let d = s.drop_last();
    lemma_kept_prefix(d, answers, answers.drop_last());
    if j < kept(d, answers).len() {
        lemma_kept_elements(d, answers.drop_last(), j);
        let i = choose|i: int|
            0 <= i < d.len() && answers.drop_last()[i] && d[i] == #[trigger] kept(d, answers.drop_last())[j];
        assert(s[i] == kept(s, answers)[j]);
    } else {
        assert(kept(s, answers)[j] == s[s.len() - 1]);
    }
}

/// `without` leaves out every element that `==` considers equal to the item:
/// no element it keeps is equal to it.
pub proof fn lemma_without_excludes_item<T: PartialEq>(s: Seq<T>, item: T, j: int)
    requires
        0 <= j < kept(s, unequal_to(s, item)).len(),
    ensures
        !kept(s, unequal_to(s, item))[j].eq_spec(&item),
{
    lemma_kept_elements(s, unequal_to(s, item), j);
}

/// `index_of` finds the first equal element: a position it gives holds an
/// element equal to the item and no earlier one is; -1 means no element is.
pub proof fn lemma_first_equal_is_first<T: PartialEq>(s: Seq<T>, item: T)
    ensures
        first_equal(s, item) == -1 ==> forall|k: int| 0 <= k < s.len() ==> !(#[trigger] s[k]).eq_spec(&item),
        first_equal(s, item) != -1 ==> {
            &&& 0 <= first_equal(s, item) < s.len()
            &&& s[first_equal(s, item)].eq_spec(&item)
            &&& forall|k: int| 0 <= k < first_equal(s, item) ==> !(#[trigger] s[k]).eq_spec(&item)
        },
    decreases s.len(),
{
    if s.len() > 0 {
        let d = s.drop_last();
        lemma_first_equal_is_first(d, item);
        assert forall|k: int| 0 <= k < d.len() implies s[k] == d[k] by {}
    }
}

/// Transformations of a collection into a new `Vec`, each under several names.
pub trait ListExtensions<T: Clone> {
    /// The elements, in order.
    spec fn items(&self) -> Seq<T>;

    /// `f` applied to a clone of each element, in order.
    fn mapped<U, F: Fn(T) -> U>(&self, f: F) -> (r: Vec<U>)
        requires
            forall|x: T| call_requires(f, (x,)),
        ensures
            maps_clones(f, self.items(), r@),
    ;

    /// The same as `mapped`.
    fn apply<U, F: Fn(T) -> U>(&self, f: F) -> (r: Vec<U>)
        requires
            forall|x: T| call_requires(f, (x,)),
        ensures
            maps_clones(f, self.items(), r@),
    ;

    /// The same as `mapped`.
    fn transform<U, F: Fn(T) -> U>(&self, f: F) -> (r: Vec<U>)
        requires
            forall|x: T| call_requires(f, (x,)),
        ensures
            maps_clones(f, self.items(), r@),
    ;

    /// The same as `mapped`.
    fn convert<U, F: Fn(T) -> U>(&self, f: F) -> (r: Vec<U>)
        requires
            forall|x: T| call_requires(f, (x,)),
        ensures
            maps_clones(f, self.items(), r@),
    ;

    /// Clones of the elements on which `f` answers `true`, in order.
    fn filtered<F: Fn(&T) -> bool>(&self, f: F) -> (r: Vec<T>)
        requires
            forall|x: &T| call_requires(f, (x,)),
        ensures
            filters_clones(f, self.items(), r@, false),
    ;

    /// The same as `filtered`.
    fn select<F: Fn(&T) -> bool>(&self, f: F) -> (r: Vec<T>)
        requires
            forall|x: &T| call_requires(f, (x,)),
        ensures
            filters_clones(f, self.items(), r@, false),
    ;

    /// The same as `filtered`.
    fn chose<F: Fn(&T) -> bool>(&self, f: F) -> (r: Vec<T>)
        requires
            forall|x: &T| call_requires(f, (x,)),
        ensures
            filters_clones(f, self.items(), r@, false),
    ;

    /// The same as `filtered`.
    fn that<F: Fn(&T) -> bool>(&self, f: F) -> (r: Vec<T>)
        requires
            forall|x: &T| call_requires(f, (x,)),
        ensures
            filters_clones(f, self.items(), r@, false),
    ;

    /// The same as `filtered`.
    fn which<F: Fn(&T) -> bool>(&self, f: F) -> (r: Vec<T>)
        requires
            forall|x: &T| call_requires(f, (x,)),
        ensures
            filters_clones(f, self.items(), r@, false),
    ;

    /// Clones of the elements that `!=` considers different from `item`, in order.
    fn without(&self, item: &T) -> (r: Vec<T>) where T: PartialEq
        ensures
            clones_subsequence(self.items(), r@),
            without_clones(self.items(), item, r@),
            T::obeys_eq_spec() ==> clones_of(kept(self.items(), unequal_to(self.items(), *item)), r@),
    ;

    /// Clones of the elements on which `f` answers `false`, in order.
    fn except<F: Fn(&T) -> bool>(&self, f: F) -> (r: Vec<T>)
        requires
            forall|x: &T| call_requires(f, (x,)),
        ensures
            filters_clones(f, self.items(), r@, true),
    ;

    /// A clone of the first element, or `None` when there is none.
    fn first_cloned(&self) -> (r: Option<T>)
        ensures
            cloned_at(self.items(), 0, r),
    ;

    /// Each position paired with a clone of the element there.
    fn pairs(&self) -> (r: Vec<(usize, T)>)
        ensures
            enumerated(self.items(), r@),
    ;

    /// Clones of the elements in positions `start..end`.
    fn slice(&self, start: usize, end: usize) -> (r: Vec<T>)
        requires
            start <= end <= self.items().len(),
        ensures
            clones_of(self.items().subrange(start as int, end as int), r@),
    ;

    /// Clones of all elements.
    fn copy(&self) -> (r: Vec<T>)
        ensures
            clones_of(self.items(), r@),
    ;

    /// Clones of all elements followed by `item`.
    fn append(&self, item: T) -> (r: Vec<T>)
        ensures
            r@.len() == self.items().len() + 1,
            clones_of(self.items(), r@.drop_last()),
            r@.last() == item,
    ;

    /// `item` followed by clones of all elements.
    fn prepend(&self, item: T) -> (r: Vec<T>)
        ensures
            r@.len() == self.items().len() + 1,
            r@[0] == item,
            clones_of(self.items(), r@.drop_first()),
    ;

    /// Clones of all elements with `item` placed at position `index`.
    fn insert(&self, index: usize, item: T) -> (r: Vec<T>)
        requires
            index <= self.items().len(),
        ensures
            r@.len() == self.items().len() + 1,
            r@[index as int] == item,
            clones_of(self.items().take(index as int), r@.take(index as int)),
            clones_of(self.items().skip(index as int), r@.skip(index + 1)),
    ;

    /// Clones of all elements in reverse order.
    fn reversed(&self) -> (r: Vec<T>)
        ensures
            clones_of(self.items().reverse(), r@),
    ;

    /// Position of the first element that `==` considers equal to `item`,
    /// or -1 when there is none.
    #[allow(non_snake_case)]
    fn indexOf(&self, item: &T) -> (r: i64) where T: PartialEq
        ensures
            r == -1 || exists|i: int| 0 <= i < self.items().len() && r == #[trigger] index_result(i),
            first_match(self.items(), item, r),
            T::obeys_eq_spec() ==> r == index_result(first_equal(self.items(), *item)),
    ;

    /// The same as `indexOf`.
    fn index_of(&self, item: &T) -> (r: i64) where T: PartialEq
        ensures
            r == -1 || exists|i: int| 0 <= i < self.items().len() && r == #[trigger] index_result(i),
            first_match(self.items(), item, r),
            T::obeys_eq_spec() ==> r == index_result(first_equal(self.items(), *item)),
    ;

    /// Clones of all elements, sorted so that no element is greater than
    /// the one after it.
    fn sorted(&self) -> (r: Vec<T>) where T: Ord
        ensures
            sorts_clones(self.items(), r@),
            lawful_order::<T>() ==> ascending(r@),
    ;

    /// Clones of all elements, sorted so that no element is smaller than
    /// the one after it: the result of `sorted`, reversed.
    #[allow(non_snake_case)]
    fn sortDesc(&self) -> (r: Vec<T>) where T: Ord
        ensures
            sorts_clones_desc(self.items(), r@),
            lawful_order::<T>() ==> descending(r@),
    ;

    /// The same as `sortDesc`.
    fn sort_desc(&self) -> (r: Vec<T>) where T: Ord
        ensures
            sorts_clones_desc(self.items(), r@),
            lawful_order::<T>() ==> descending(r@),
    ;

    /// A clone of the element at the generator's next output modulo the
    /// length. An empty collection gives `None` without drawing.
    fn random(&self, rng: &mut ScriptRng) -> (r: Option<T>)
        ensures
            self.items().len() == 0 ==> r is None && final(rng).state() == old(rng).state(),
            self.items().len() > 0 ==> final(rng).state() == lcg_step(old(rng).state())
                && cloned_at(self.items(), (lcg_output(final(rng).state()) % self.items().len()) as int, r),
            self.items().len() > 0 ==> r is Some,
    ;

    /// Clones of all elements in shuffled order (a Fisher-Yates shuffle
    /// drawing from the generator); a permutation of the clones.
    fn shuffle(&self, rng: &mut ScriptRng) -> (r: Vec<T>)
        ensures
            exists|c: Seq<T>|
                clones_of(self.items(), c) && (r@, final(rng).state()) == shuffled(c, old(rng).state()),
    ;
}

/// Clones of all elements of `s`, in reverse order.
fn reversed_clones<T: Clone>(s: &[T]) -> (r: Vec<T>)
    ensures
        clones_of(s@.reverse(), r@),
{
    let c = clone_range(s, 0, s.len());
    assert(s@.subrange(0, s@.len() as int) =~= s@);
    let r = reverse_vec(c);
    assert forall|i: int| 0 <= i < s@.len() implies #[trigger] cloned(s@.reverse()[i], r@[i]) by {
        assert(cloned(s@[s@.len() - 1 - i], c@[s@.len() - 1 - i]));
    }
    r
}

/// Reversing the result of an ascending sort gives that of a descending one.
proof fn lemma_sorts_clones_reversed<T: Clone + Ord>(s: Seq<T>, v: Seq<T>)
    requires
        sorts_clones(s, v),
    ensures
        sorts_clones_desc(s, v.reverse()),
{
    let c = choose|c: Seq<T>|
        clones_of(s, c) && v.to_multiset() == c.to_multiset() && (lawful_order::<T>() ==> v
            == stable_sorted(c));
    v.lemma_reverse_to_multiset();
    assert(clones_of(s, c) && v.reverse().to_multiset() == c.to_multiset() && (lawful_order::<T>()
        ==> v.reverse() == stable_sorted(c).reverse()));
}

/// For element types whose clones are equal to the original, `sortDesc`
/// gives the result of `sorted` reversed.
pub proof fn lemma_sort_desc_is_reversed_sort<T: Clone + Ord>(s: Seq<T>, up: Seq<T>, down: Seq<T>)
    requires
        lawful_order::<T>(),
        forall|a: T, b: T| #[trigger] cloned(a, b) ==> a == b,
        sorts_clones(s, up),
        sorts_clones_desc(s, down),
    ensures
        down == up.reverse(),
{
    let c1 = choose|c: Seq<T>|
        clones_of(s, c) && up.to_multiset() == c.to_multiset() && (lawful_order::<T>() ==> up
            == stable_sorted(c));
    let c2 = choose|c: Seq<T>|
        clones_of(s, c) && down.to_multiset() == c.to_multiset() && (lawful_order::<T>() ==> down
            == stable_sorted(c).reverse());
    assert(c1 =~= s);
    assert(c2 =~= s);
}

/// For element types whose clones are equal to the original, reversing
/// twice gives the original elements back.
pub proof fn lemma_reversed_twice<T: Clone>(s: Seq<T>, once: Seq<T>, twice: Seq<T>)
    requires
        forall|a: T, b: T| #[trigger] cloned(a, b) ==> a == b,
        clones_of(s.reverse(), once),
        clones_of(once.reverse(), twice),
    ensures
        twice == s,
{
    assert(once =~= s.reverse());
    assert(twice =~= s);
}

/// Clones of all elements of `s`, sorted in descending order.
fn sort_clones_desc<T: Clone + Ord>(s: &[T]) -> (r: Vec<T>)
    ensures
        sorts_clones_desc(s@, r@),
        lawful_order::<T>() ==> descending(r@),
{
    let v = sort_clones(s);
    let r = reverse_vec(v);
    proof {
        lemma_sorts_clones_reversed(s@, v@);
        if lawful_order::<T>() {
            let n: nat = v@.len();
            assert forall|a: int, b: int|
                #![trigger r@[a], r@[b]]
                0 <= a && b == a + 1 && b < r@.len() implies !greater(r@[b], r@[a]) by {
                assert(r@[a] == v@[n - 1 - a] && r@[b] == v@[n - 1 - b]);
                assert(!greater(v@[n - 1 - b], v@[n - 1 - a]));
            }
        }
    }
    r
}

impl<T: Clone> ListExtensions<T> for [T] {
    open spec fn items(&self) -> Seq<T> {
        self@
    }

    fn mapped<U, F: Fn(T) -> U>(&self, f: F) -> (r: Vec<U>) {
        map_clones(self, f)
    }

    fn apply<U, F: Fn(T) -> U>(&self, f: F) -> (r: Vec<U>) {
        self.mapped(f)
    }

    fn transform<U, F: Fn(T) -> U>(&self, f: F) -> (r: Vec<U>) {
        self.mapped(f)
    }

    fn convert<U, F: Fn(T) -> U>(&self, f: F) -> (r: Vec<U>) {
        self.mapped(f)
    }

    fn filtered<F: Fn(&T) -> bool>(&self, f: F) -> (r: Vec<T>) {
        keep_where(self, f, false)
    }

    fn select<F: Fn(&T) -> bool>(&self, f: F) -> (r: Vec<T>) {
        self.filtered(f)
    }

    fn chose<F: Fn(&T) -> bool>(&self, f: F) -> (r: Vec<T>) {
        self.filtered(f)
    }

    fn that<F: Fn(&T) -> bool>(&self, f: F) -> (r: Vec<T>) {
        self.filtered(f)
    }

    fn which<F: Fn(&T) -> bool>(&self, f: F) -> (r: Vec<T>) {
        self.filtered(f)
    }

    fn without(&self, item: &T) -> (r: Vec<T>) where T: PartialEq {
        keep_unequal(self, item)
    }

    fn except<F: Fn(&T) -> bool>(&self, f: F) -> (r: Vec<T>) {
        keep_where(self, f, true)
    }

    fn first_cloned(&self) -> (r: Option<T>) {
        clone_at(self, 0)
    }

    fn pairs(&self) -> (r: Vec<(usize, T)>) {
        enumerate_clones(self)
    }

    fn slice(&self, start: usize, end: usize) -> (r: Vec<T>) {
        clone_range(self, start, end)
    }

    fn copy(&self) -> (r: Vec<T>) {
        let r = clone_range(self, 0, self.len());
        assert(self@.subrange(0, self@.len() as int) =~= self@);
        r
    }

    fn append(&self, item: T) -> (r: Vec<T>) {
        let mut v = self.copy();
        let ghost c = v@;
        v.push(item);
        assert(v@.drop_last() =~= c);
        v
    }

    fn prepend(&self, item: T) -> (r: Vec<T>) {
        let mut v: Vec<T> = Vec::new();
        v.push(item);
        let mut rest = self.copy();
        let ghost c = rest@;
        Vec::append(&mut v, &mut rest);
        assert(v@.drop_first() =~= c);
        v
    }

    fn insert(&self, index: usize, item: T) -> (r: Vec<T>) {
        let mut v = clone_range(self, 0, index);
        v.push(item);
        let mut rest = clone_range(self, index, self.len());
        let ghost c1 = v@;
        let ghost c2 = rest@;
        Vec::append(&mut v, &mut rest);
        assert(v@.take(index as int) =~= c1.drop_last());
        assert(v@.skip(index + 1) =~= c2);
        assert(self@.take(index as int) =~= self@.subrange(0, index as int));
        assert(self@.skip(index as int) =~= self@.subrange(index as int, self@.len() as int));
        v
    }

    fn reversed(&self) -> (r: Vec<T>) {
        reversed_clones(self)
    }

    #[allow(non_snake_case)]
    fn indexOf(&self, item: &T) -> (r: i64) where T: PartialEq {
        position_of(self, item)
    }

    fn index_of(&self, item: &T) -> (r: i64) where T: PartialEq {
        self.indexOf(item)
    }

    fn sorted(&self) -> (r: Vec<T>) where T: Ord {
        sort_clones(self)
    }

    #[allow(non_snake_case)]
    fn sortDesc(&self) -> (r: Vec<T>) where T: Ord {
        sort_clones_desc(self)
    }

    fn sort_desc(&self) -> (r: Vec<T>) where T: Ord {
        self.sortDesc()
    }

    fn random(&self, rng: &mut ScriptRng) -> (r: Option<T>) {
        random_element(self, rng)
    }

    fn shuffle(&self, rng: &mut ScriptRng) -> (r: Vec<T>) {
        shuffle_clones(self, rng)
    }
}

impl<T: Clone> ListExtensions<T> for Vec<T> {
    open spec fn items(&self) -> Seq<T> {
        self@
    }

    fn mapped<U, F: Fn(T) -> U>(&self, f: F) -> (r: Vec<U>) {
        self.as_slice().mapped(f)
    }

    fn apply<U, F: Fn(T) -> U>(&self, f: F) -> (r: Vec<U>) {
        self.as_slice().apply(f)
    }

    fn transform<U, F: Fn(T) -> U>(&self, f: F) -> (r: Vec<U>) {
        self.as_slice().transform(f)
    }

    fn convert<U, F: Fn(T) -> U>(&self, f: F) -> (r: Vec<U>) {
        self.as_slice().convert(f)
    }

    fn filtered<F: Fn(&T) -> bool>(&self, f: F) -> (r: Vec<T>) {
        self.as_slice().filtered(f)
    }

    fn select<F: Fn(&T) -> bool>(&self, f: F) -> (r: Vec<T>) {
        self.as_slice().select(f)
    }

    fn chose<F: Fn(&T) -> bool>(&self, f: F) -> (r: Vec<T>) {
        self.as_slice().chose(f)
    }

    fn that<F: Fn(&T) -> bool>(&self, f: F) -> (r: Vec<T>) {
        self.as_slice().that(f)
    }

    fn which<F: Fn(&T) -> bool>(&self, f: F) -> (r: Vec<T>) {
        self.as_slice().which(f)
    }

    fn without(&self, item: &T) -> (r: Vec<T>) where T: PartialEq {
        self.as_slice().without(item)
    }

    fn except<F: Fn(&T) -> bool>(&self, f: F) -> (r: Vec<T>) {
        self.as_slice().except(f)
    }

    fn first_cloned(&self) -> (r: Option<T>) {
        self.as_slice().first_cloned()
    }

    fn pairs(&self) -> (r: Vec<(usize, T)>) {
        self.as_slice().pairs()
    }

    fn slice(&self, start: usize, end: usize) -> (r: Vec<T>) {
        self.as_slice().slice(start, end)
    }

    fn copy(&self) -> (r: Vec<T>) {
        self.as_slice().copy()
    }

    fn append(&self, item: T) -> (r: Vec<T>) {
        self.as_slice().append(item)
    }

    fn prepend(&self, item: T) -> (r: Vec<T>) {
        self.as_slice().prepend(item)
    }

    fn insert(&self, index: usize, item: T) -> (r: Vec<T>) {
        self.as_slice().insert(index, item)
    }

    fn reversed(&self) -> (r: Vec<T>) {
        self.as_slice().reversed()
    }

    #[allow(non_snake_case)]
    fn indexOf(&self, item: &T) -> (r: i64) where T: PartialEq {
        self.as_slice().indexOf(item)
    }

    fn index_of(&self, item: &T) -> (r: i64) where T: PartialEq {
        self.as_slice().index_of(item)
    }

    fn sorted(&self) -> (r: Vec<T>) where T: Ord {
        self.as_slice().sorted()
    }

    #[allow(non_snake_case)]
    fn sortDesc(&self) -> (r: Vec<T>) where T: Ord {
        self.as_slice().sortDesc()
    }

    fn sort_desc(&self) -> (r: Vec<T>) where T: Ord {
        self.as_slice().sort_desc()
    }

    fn random(&self, rng: &mut ScriptRng) -> (r: Option<T>) {
        self.as_slice().random(rng)
    }

    fn shuffle(&self, rng: &mut ScriptRng) -> (r: Vec<T>) {
        self.as_slice().shuffle(rng)
    }
}

/// Number of elements of a collection.
pub fn len<T>(s: &[T]) -> (n: usize)
    ensures
        n == s@.len(),
{
    s.len()
}

/// Whether two collections have the same length and `==` holds between
/// the elements at each position.
pub fn slice_eq<T: PartialEq>(a: &[T], b: &[T]) -> (r: bool)
    ensures
        a@.len() != b@.len() ==> !r,
        r ==> forall|i: int| 0 <= i < a@.len() ==> #[trigger] eq_answer(&a@[i], &b@[i], true),
        !r ==> a@.len() != b@.len() || exists|i: int|
            0 <= i < a@.len() && #[trigger] eq_answer(&a@[i], &b@[i], false),
        T::obeys_eq_spec() ==> (r <==> a@.len() == b@.len() && forall|i: int|
            0 <= i < a@.len() ==> #[trigger] a@[i].eq_spec(&b@[i])),
{
    if a.len() != b.len() {
        return false;
    }
    let mut i: usize = 0;
    while i < a.len()
        invariant
            i <= a@.len(),
            a@.len() == b@.len(),
            T::obeys_eq_spec() ==> forall|k: int| 0 <= k < i ==> #[trigger] a@[k].eq_spec(&b@[k]),
            forall|k: int| 0 <= k < i ==> #[trigger] eq_answer(&a@[k], &b@[k], true),
        decreases a@.len() - i,
    {
        let same = a[i].eq(&b[i]);
        assert(eq_answer(&a@[i as int], &b@[i as int], same));
        if !same {
            return false;
        }
        i = i + 1;
    }
    true
}

/// The number of elements, under two names.
pub trait SliceSizeExt {
    /// The number of elements.
    spec fn element_count(&self) -> nat;

    /// The number of elements.
    fn size(&self) -> (n: usize)
        ensures
            n == self.element_count(),
    ;

    /// The number of elements.
    fn length(&self) -> (n: usize)
        ensures
            n == self.element_count(),
    ;
}

impl<T> SliceSizeExt for [T] {
    open spec fn element_count(&self) -> nat {
        self@.len()
    }

    fn size(&self) -> (n: usize) {
        self.len()
    }

    fn length(&self) -> (n: usize) {
        self.len()
    }
}

impl<T> SliceSizeExt for Vec<T> {
    open spec fn element_count(&self) -> nat {
        self@.len()
    }

    fn size(&self) -> (n: usize) {
        self.len()
    }

    fn length(&self) -> (n: usize) {
        self.len()
    }
}

/// In-place removals and replacements on a `Vec`. Each operation that
/// takes a position leaves the `Vec` unchanged and returns `None` when the
/// position is out of range.
pub trait VecMutExtensions<T> {
    /// The elements, in order.
    spec fn contents(&self) -> Seq<T>;

    /// Removes and returns the first element, or returns `None` when empty.
    fn shift(&mut self) -> (r: Option<T>)
        ensures
            old(self).contents().len() == 0 ==> r is None && final(self).contents() == old(self).contents(),
            old(self).contents().len() > 0 ==> r == Some(old(self).contents()[0])
                && final(self).contents() == old(self).contents().drop_first(),
    ;

    /// Removes and returns the last element, or returns `None` when empty.
    fn pop_last(&mut self) -> (r: Option<T>)
        ensures
            old(self).contents().len() == 0 ==> r is None && final(self).contents() == old(self).contents(),
            old(self).contents().len() > 0 ==> r == Some(old(self).contents().last())
                && final(self).contents() == old(self).contents().drop_last(),
    ;

    /// The same as `shift`.
    fn pop_first(&mut self) -> (r: Option<T>)
        ensures
            old(self).contents().len() == 0 ==> r is None && final(self).contents() == old(self).contents(),
            old(self).contents().len() > 0 ==> r == Some(old(self).contents()[0])
                && final(self).contents() == old(self).contents().drop_first(),
    ;

    /// Removes and returns the element at `index`, shifting the rest left.
    fn delete_at(&mut self, index: usize) -> (r: Option<T>)
        ensures
            index >= old(self).contents().len() ==> r is None && final(self).contents() == old(self).contents(),
            index < old(self).contents().len() ==> r == Some(old(self).contents()[index as int])
                && final(self).contents() == old(self).contents().remove(index as int),
    ;

    /// Removes the elements in positions `start..end`, with `end` cut down
    /// to the length, and returns them in order. Nothing is removed when
    /// `start` is not below both the length and `end`.
    fn delete_range(&mut self, start: usize, end: usize) -> (r: Vec<T>)
        ensures
            ({
                let n = old(self).contents().len();
                let e = if end < n { end as int } else { n as int };
                if start >= n || start >= end {
                    r@ == Seq::<T>::empty() && final(self).contents() == old(self).contents()
                } else {
                    &&& r@ == old(self).contents().subrange(start as int, e)
                    &&& final(self).contents() == old(self).contents().subrange(0, start as int)
                        + old(self).contents().subrange(e, n as int)
                }
            }),
    ;

    /// Puts `item` at `index` and returns the element it replaces.
    fn replace_at(&mut self, index: usize, item: T) -> (r: Option<T>)
        ensures
            index >= old(self).contents().len() ==> r is None && final(self).contents() == old(self).contents(),
            index < old(self).contents().len() ==> r == Some(old(self).contents()[index as int])
                && final(self).contents() == old(self).contents().update(index as int, item),
    ;

    /// Removes and returns the element at `index`, moving the last element
    /// into its place.
    fn swap_remove_at(&mut self, index: usize) -> (r: Option<T>)
        ensures
            index >= old(self).contents().len() ==> r is None && final(self).contents() == old(self).contents(),
            index < old(self).contents().len() ==> r == Some(old(self).contents()[index as int])
                && final(self).contents() == old(self).contents().update(
                index as int,
                old(self).contents().last(),
            ).drop_last(),
    ;
}

/// What `delete_range` removes, put back between the two parts that it
/// leaves, gives the original elements.
pub proof fn lemma_delete_range_reassembles<T>(s: Seq<T>, start: int, end: int)
    requires
        0 <= start < end <= s.len(),
    ensures
        s.subrange(0, start) + s.subrange(start, end) + s.subrange(end, s.len() as int) == s,
{
    assert(s.subrange(0, start) + s.subrange(start, end) + s.subrange(end, s.len() as int) =~= s);
}

impl<T> VecMutExtensions<T> for Vec<T> {
    open spec fn contents(&self) -> Seq<T> {
        self@
    }

    fn shift(&mut self) -> (r: Option<T>) {
        if self.len() == 0 {
            None
        } else {
            let x = self.remove(0);
            assert(old(self)@.remove(0) =~= old(self)@.drop_first());
            Some(x)
        }
    }

    fn pop_last(&mut self) -> (r: Option<T>) {
        self.pop()
    }

    fn pop_first(&mut self) -> (r: Option<T>) {
        self.shift()
    }

    fn delete_at(&mut self, index: usize) -> (r: Option<T>) {
        if index < self.len() {
            Some(self.remove(index))
        } else {
            None
        }
    }

    fn delete_range(&mut self, start: usize, end: usize) -> (r: Vec<T>) {
        let n: usize = self.len();
        if start >= n || start >= end {
            return Vec::new();
        }
        let e: usize = if end < n { end } else { n };
        let mut tail = self.split_off(e);
        let removed = self.split_off(start);
        Vec::append(self, &mut tail);
        removed
    }

    fn replace_at(&mut self, index: usize, item: T) -> (r: Option<T>) {
        if index < self.len() {
            let mut item = item;
            self.set_and_swap(index, &mut item);
            Some(item)
        } else {
            None
        }
    }

    fn swap_remove_at(&mut self, index: usize) -> (r: Option<T>) {
        if index < self.len() {
            Some(self.swap_remove(index))
        } else {
            None
        }
    }
}

} // verus!
