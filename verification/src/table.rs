//! Tables of rows: the queries and updates that every part of the state is kept with.
//!
//! A table is a vector of rows in the order in which they were inserted. Its model is the
//! sequence of the rows' views. A query keeps the rows that satisfy a predicate; an ordered query
//! also sorts them, and rows that the order does not tell apart stay in insertion order.

use vstd::prelude::*;

verus! {

/// A row that can be copied without changing what it stands for.
pub trait Record: View + Sized {
    /// A copy of the row.
    fn copy_row(&self) -> (r: Self)
        ensures
            r@ == self@,
    ;
}

/// A condition on rows.
pub trait Condition<R: Record> {
    /// The predicate on the rows' views.
    spec fn pred(&self) -> spec_fn(R::V) -> bool;

    /// Tests one row.
    fn test(&self, row: &R) -> (b: bool)
        ensures
            b == (self.pred())(row@),
    ;
}

/// An order of rows: `le(a, b)` says that `a` may stand before `b`.
pub trait RowOrder<R: Record> {
    /// The order on the rows' views.
    spec fn le(&self) -> spec_fn(R::V, R::V) -> bool;

    /// Compares two rows.
    fn may_precede(&self, a: &R, b: &R) -> (r: bool)
        ensures
            r == (self.le())(a@, b@),
    ;
}

/// A change made to one row.
pub trait Change<R: Record> {
    /// The changed row's view, as a function of the old one.
    spec fn result(&self) -> spec_fn(R::V) -> R::V;

    /// Changes one row.
    fn apply(&self, row: &mut R)
        ensures
            final(row)@ == (self.result())(old(row)@),
    ;
}

/// A number that every row carries.
pub trait Numbering<R: Record> {
    /// The number, as a function of the row's view.
    spec fn number(&self) -> spec_fn(R::V) -> u64;

    /// The number of one row.
    fn number_of(&self, row: &R) -> (n: u64)
        ensures
            n == (self.number())(row@),
    ;
}

/// The condition that every row satisfies.
pub struct Always;

/// The predicate that everything satisfies.
pub open spec fn always<A>() -> spec_fn(A) -> bool {
    |a: A| true
}

impl<R: Record> Condition<R> for Always {
    open spec fn pred(&self) -> spec_fn(R::V) -> bool {
        always()
    }

    fn test(&self, row: &R) -> (b: bool) {
        true
    }
}

/// The model of a table: the views of its rows.
pub open spec fn rows<R: View>(v: Seq<R>) -> Seq<R::V> {
    Seq::new(v.len(), |i: int| v[i]@)
}

/// `s` with `x` put behind the last element that may stand before it.
pub open spec fn ordered_insert<A>(s: Seq<A>, x: A, le: spec_fn(A, A) -> bool) -> Seq<A>
    decreases s.len(),
{
    if s.len() == 0 || le(s.last(), x) {
        s.push(x)
    } else {
        ordered_insert(s.drop_last(), x, le).push(s.last())
    }
}

/// `s` in the order `le`; elements that may stand either way round keep their places.
pub open spec fn stable_order<A>(s: Seq<A>, le: spec_fn(A, A) -> bool) -> Seq<A>
    decreases s.len(),
{
    if s.len() == 0 {
        s
    } else {
        ordered_insert(stable_order(s.drop_last(), le), s.last(), le)
    }
}

/// The first `limit` elements of `s`, or all of them.
pub open spec fn at_most<A>(s: Seq<A>, limit: int) -> Seq<A> {
    if limit < s.len() {
        s.take(limit)
    } else {
        s
    }
}

/// The first element of `s` that satisfies `p`.
pub open spec fn first_of<A>(s: Seq<A>, p: spec_fn(A) -> bool) -> Option<A> {
    let hits = s.filter(p);
    if hits.len() == 0 {
        None
    } else {
        Some(hits[0])
    }
}

/// Whether some element of `s` satisfies `p`.
pub open spec fn any_of<A>(s: Seq<A>, p: spec_fn(A) -> bool) -> bool {
    exists|i: int| 0 <= i < s.len() && p(#[trigger] s[i])
}

/// `s` with every element that satisfies `p` replaced by its image under `f`.
pub open spec fn changed_where<A>(s: Seq<A>, p: spec_fn(A) -> bool, f: spec_fn(A) -> A) -> Seq<A> {
    Seq::new(
        s.len(),
        |i: int|
            if p(s[i]) {
                f(s[i])
            } else {
                s[i]
            },
    )
}

/// The highest number among the elements of `s` that satisfy `p`, or zero.
pub open spec fn highest<A>(s: Seq<A>, p: spec_fn(A) -> bool, number: spec_fn(A) -> u64) -> u64
    decreases s.len(),
{
    if s.len() == 0 {
        0
    } else {
        let rest = highest(s.drop_last(), p, number);
        if p(s.last()) && number(s.last()) > rest {
            number(s.last())
        } else {
            rest
        }
    }
}

/// The elements of `s` that do not satisfy `p`.
pub open spec fn without<A>(s: Seq<A>, p: spec_fn(A) -> bool) -> Seq<A> {
    s.filter(|a: A| !p(a))
}

/// The view of an optional row.
pub open spec fn opt_row<R: View>(r: Option<R>) -> Option<R::V> {
    match r {
        Some(row) => Some(row@),
        None => None,
    }
}

/// Whether `s` is in the order `le`.
pub open spec fn is_ordered<A>(s: Seq<A>, le: spec_fn(A, A) -> bool) -> bool {
    forall|i: int, j: int| 0 <= i < j < s.len() ==> le(#[trigger] s[i], #[trigger] s[j])
}

/// Whether `le` compares any two elements and is transitive.
pub open spec fn is_total_preorder<A>(le: spec_fn(A, A) -> bool) -> bool {
    &&& forall|a: A, b: A| #[trigger] le(a, b) || le(b, a)
    &&& forall|a: A, b: A, c: A| #[trigger] le(a, b) && #[trigger] le(b, c) ==> le(a, c)
}

/// Filtering one element more.
pub proof fn lemma_filter_step<A>(s: Seq<A>, p: spec_fn(A) -> bool, i: int)
    requires
        0 <= i < s.len(),
    ensures
        s.take(i + 1).filter(p) == if p(s[i]) {
            s.take(i).filter(p).push(s[i])
        } else {
            s.take(i).filter(p)
        },
{
    reveal(Seq::filter);
    assert(s.take(i + 1).drop_last() =~= s.take(i));
}

/// A filtered sequence is empty exactly when nothing satisfies the predicate.
pub proof fn lemma_filter_empty<A>(s: Seq<A>, p: spec_fn(A) -> bool)
    ensures
        (s.filter(p).len() == 0) == !any_of(s, p),
        first_of(s, p) is Some == any_of(s, p),
    decreases s.len(),
{
    reveal(Seq::filter);
    if s.len() > 0 {
        let t = s.drop_last();
        lemma_filter_empty(t, p);
        if any_of(t, p) {
            let i = choose|i: int| 0 <= i < t.len() && p(#[trigger] t[i]);
            assert(p(s[i]));
        }
        if p(s.last()) {
            assert(p(s[s.len() - 1]));
        }
        if any_of(s, p) && !p(s.last()) {
            let i = choose|i: int| 0 <= i < s.len() && p(#[trigger] s[i]);
            assert(p(t[i]));
        }
    }
}

/// The first match is an element that satisfies the predicate, and none before it does.
pub proof fn lemma_first_of<A>(s: Seq<A>, p: spec_fn(A) -> bool, i: int)
    requires
        0 <= i < s.len(),
        p(s[i]),
        forall|j: int| 0 <= j < i ==> !p(#[trigger] s[j]),
    ensures
        first_of(s, p) == Some(s[i]),
{
    let before = s.take(i);
    assert(!any_of(before, p)) by {
        assert forall|j: int| 0 <= j < before.len() implies !p(#[trigger] before[j]) by {
            assert(before[j] == s[j]);
        }
    }
    lemma_filter_empty(before, p);
    lemma_filter_step(s, p, i);
    lemma_filter_prefix(s, p, i + 1);
    assert(s.filter(p).take(1)[0] == s.filter(p)[0]);
}

/// The filtered prefix is a prefix of the filtered sequence.
pub proof fn lemma_filter_prefix<A>(s: Seq<A>, p: spec_fn(A) -> bool, n: int)
    requires
        0 <= n <= s.len(),
    ensures
        s.take(n).filter(p).len() <= s.filter(p).len(),
        s.filter(p).take(s.take(n).filter(p).len() as int) == s.take(n).filter(p),
    decreases s.len() - n,
{
    if n == s.len() {
        assert(s.take(n) =~= s);
        assert(s.filter(p).take(s.filter(p).len() as int) =~= s.filter(p));
    } else {
        lemma_filter_prefix(s, p, n + 1);
        lemma_filter_step(s, p, n);
        let k = s.take(n).filter(p).len() as int;
        assert(s.filter(p).take(k) =~= s.take(n + 1).filter(p).take(k));
        assert(s.take(n + 1).filter(p).take(k) =~= s.take(n).filter(p));
    }
}

/// Where an element lands: everything behind it may not stand before it.
pub proof fn lemma_insert_position<A>(s: Seq<A>, x: A, le: spec_fn(A, A) -> bool, i: int)
    requires
        0 <= i <= s.len(),
        i > 0 ==> le(s[i - 1], x),
        forall|j: int| i <= j < s.len() ==> !le(#[trigger] s[j], x),
    ensures
        ordered_insert(s, x, le) == s.insert(i, x),
    decreases s.len(),
{
    if s.len() == 0 || i == s.len() {
        assert(s.insert(i, x) =~= s.push(x));
    } else {
        let t = s.drop_last();
        assert(!le(s[s.len() - 1], x));
        lemma_insert_position(t, x, le, i);
        assert(s.insert(i, x) =~= t.insert(i, x).push(s.last()));
    }
}

/// The rows of `table` that satisfy `cond`, in the order `order`.
pub fn select_all<R: Record, C: Condition<R>, O: RowOrder<R>>(
    table: &Vec<R>,
    cond: &C,
    order: &O,
) -> (r: Vec<R>)
    ensures
        rows(r@) == stable_order(rows(table@).filter(cond.pred()), order.le()),
{
    let mut out: Vec<R> = Vec::new();
    let mut i: usize = 0;
    let ghost all = rows(table@);
    assert(all.take(0).filter(cond.pred()) =~= Seq::empty()) by {
        reveal(Seq::filter);
    }
    while i < table.len()
        invariant
            i <= table.len(),
            all == rows(table@),
            rows(out@) == stable_order(all.take(i as int).filter(cond.pred()), order.le()),
        decreases table.len() - i,
    {
        proof {
            lemma_filter_step(all, cond.pred(), i as int);
        }
        if cond.test(&table[i]) {
            let row = table[i].copy_row();
            let ghost kept = all.take(i as int).filter(cond.pred());
            let mut k: usize = out.len();
            let ghost placed = rows(out@);
            while k > 0 && !order.may_precede(&out[k - 1], &row)
                invariant
                    k <= out.len(),
                    placed == rows(out@),
                    forall|j: int|
                        k <= j < placed.len() ==> !(order.le())(#[trigger] placed[j], row@),
                decreases k,
            {
                k = k - 1;
            }
            proof {
                lemma_insert_position(placed, row@, order.le(), k as int);
                assert(kept.push(row@).drop_last() =~= kept);
                assert(rows(out@.insert(k as int, row)) =~= placed.insert(k as int, row@));
            }
            out.insert(k, row);
        }
        i = i + 1;
    }
    assert(all.take(i as int) =~= all);
    out
}

/// The rows of `table` that satisfy `cond`, in the order `order`, at most `limit` of them.
pub fn select<R: Record, C: Condition<R>, O: RowOrder<R>>(
    table: &Vec<R>,
    cond: &C,
    order: &O,
    limit: usize,
) -> (r: Vec<R>)
    ensures
        rows(r@) == at_most(
            stable_order(rows(table@).filter(cond.pred()), order.le()),
            limit as int,
        ),
{
    let mut out = select_all(table, cond, order);
    if limit < out.len() {
        let ghost full = out@;
        out.truncate(limit);
        assert(rows(out@) =~= rows(full).take(limit as int));
    }
    out
}

/// The highest number among the rows of `table` that satisfy `cond`, or zero.
pub fn top<R: Record, C: Condition<R>, N: Numbering<R>>(
    table: &Vec<R>,
    cond: &C,
    numbering: &N,
) -> (n: u64)
    ensures
        n == highest(rows(table@), cond.pred(), numbering.number()),
{
    let mut n: u64 = 0;
    let mut i: usize = 0;
    let ghost all = rows(table@);
    while i < table.len()
        invariant
            i <= table.len(),
            all == rows(table@),
            n == highest(all.take(i as int), cond.pred(), numbering.number()),
        decreases table.len() - i,
    {
        assert(all.take(i + 1).drop_last() =~= all.take(i as int));
        if cond.test(&table[i]) {
            let k = numbering.number_of(&table[i]);
            if k > n {
                n = k;
            }
        }
        i = i + 1;
    }
    assert(all.take(i as int) =~= all);
    n
}

/// The highest number is at least that of every element that satisfies the predicate.
pub proof fn lemma_highest<A>(s: Seq<A>, p: spec_fn(A) -> bool, number: spec_fn(A) -> u64, i: int)
    requires
        0 <= i < s.len(),
        p(s[i]),
    ensures
        number(s[i]) <= highest(s, p, number),
    decreases s.len(),
{
    if i < s.len() - 1 {
        assert(s.drop_last()[i] == s[i]);
        lemma_highest(s.drop_last(), p, number, i);
    }
}

/// The first row of `table` that satisfies `cond`.
pub fn find<R: Record, C: Condition<R>>(table: &Vec<R>, cond: &C) -> (r: Option<R>)
    ensures
        opt_row(r) == first_of(rows(table@), cond.pred()),
{
    let mut i: usize = 0;
    let ghost all = rows(table@);
    while i < table.len()
        invariant
            i <= table.len(),
            all == rows(table@),
            forall|j: int| 0 <= j < i ==> !(cond.pred())(#[trigger] all[j]),
        decreases table.len() - i,
    {
        if cond.test(&table[i]) {
            proof {
                lemma_first_of(all, cond.pred(), i as int);
            }
            return Some(table[i].copy_row());
        }
        i = i + 1;
    }
    proof {
        lemma_filter_empty(all, cond.pred());
    }
    None
}

/// Whether some row of `table` satisfies `cond`.
pub fn any<R: Record, C: Condition<R>>(table: &Vec<R>, cond: &C) -> (r: bool)
    ensures
        r == any_of(rows(table@), cond.pred()),
{
    let mut i: usize = 0;
    let ghost all = rows(table@);
    while i < table.len()
        invariant
            i <= table.len(),
            all == rows(table@),
            forall|j: int| 0 <= j < i ==> !(cond.pred())(#[trigger] all[j]),
        decreases table.len() - i,
    {
        if cond.test(&table[i]) {
            assert((cond.pred())(all[i as int]));
            return true;
        }
        i = i + 1;
    }
    false
}

/// Applies `change` to every row that satisfies `cond`. Returns how many there were.
pub fn update<R: Record, C: Condition<R>, D: Change<R>>(
    table: &mut Vec<R>,
    cond: &C,
    change: &D,
) -> (n: usize)
    ensures
        rows(final(table)@) == changed_where(rows(old(table)@), cond.pred(), change.result()),
        n == rows(old(table)@).filter(cond.pred()).len(),
{
    let mut i: usize = 0;
    let mut n: usize = 0;
    let ghost all = rows(table@);
    let ghost want = changed_where(all, cond.pred(), change.result());
    assert(all.take(0).filter(cond.pred()) =~= Seq::empty()) by {
        reveal(Seq::filter);
    }
    while i < table.len()
        invariant
            i <= table.len(),
            table.len() == all.len(),
            want == changed_where(all, cond.pred(), change.result()),
            n <= i,
            n == all.take(i as int).filter(cond.pred()).len(),
            forall|j: int| 0 <= j < i ==> #[trigger] table@[j]@ == want[j],
            forall|j: int| i <= j < table.len() ==> #[trigger] table@[j]@ == all[j],
        decreases table.len() - i,
    {
        proof {
            lemma_filter_step(all, cond.pred(), i as int);
        }
        if cond.test(&table[i]) {
            change.apply(&mut table[i]);
            n = n + 1;
        }
        i = i + 1;
    }
    assert(all.take(i as int) =~= all);
    assert(rows(table@) =~= want);
    n
}

/// Removes every row that satisfies `cond`. Returns how many there were.
pub fn delete<R: Record, C: Condition<R>>(table: &mut Vec<R>, cond: &C) -> (n: usize)
    ensures
        rows(final(table)@) == without(rows(old(table)@), cond.pred()),
        n == rows(old(table)@).filter(cond.pred()).len(),
{
    let ghost all = rows(table@);
    let ghost keep = |a: R::V| !(cond.pred())(a);
    let mut kept: Vec<R> = Vec::new();
    let mut i: usize = 0;
    let mut n: usize = 0;
    assert(all.take(0).filter(cond.pred()) =~= Seq::empty()) by {
        reveal(Seq::filter);
    }
    assert(all.take(0).filter(keep) =~= Seq::empty()) by {
        reveal(Seq::filter);
    }
    while i < table.len()
        invariant
            i <= table.len(),
            all == rows(table@),
            keep == |a: R::V| !(cond.pred())(a),
            n <= i,
            n == all.take(i as int).filter(cond.pred()).len(),
            rows(kept@) == all.take(i as int).filter(keep),
        decreases table.len() - i,
    {
        proof {
            lemma_filter_step(all, cond.pred(), i as int);
            lemma_filter_step(all, keep, i as int);
        }
        if cond.test(&table[i]) {
            n = n + 1;
        } else {
            let row = table[i].copy_row();
            let ghost before = kept@;
            kept.push(row);
            assert(rows(kept@) =~= rows(before).push(row@));
        }
        i = i + 1;
    }
    assert(all.take(i as int) =~= all);
    *table = kept;
    n
}

// ----- what ordering does -----

proof fn lemma_insert_keeps_order<A>(s: Seq<A>, x: A, le: spec_fn(A, A) -> bool)
    requires
        is_total_preorder(le),
        is_ordered(s, le),
    ensures
        is_ordered(ordered_insert(s, x, le), le),
    decreases s.len(),
{
    let r = ordered_insert(s, x, le);
    if s.len() == 0 || le(s.last(), x) {
        assert forall|i: int, j: int| 0 <= i < j < r.len() implies le(
            #[trigger] r[i],
            #[trigger] r[j],
        ) by {
            if j == s.len() && i < s.len() - 1 {
                assert(le(s[i], s[s.len() - 1]));
                assert(le(s[s.len() - 1], x));
            }
        }
    } else {
        let front = s.drop_last();
        let t = ordered_insert(front, x, le);
        assert forall|i: int, j: int| 0 <= i < j < front.len() implies le(
            #[trigger] front[i],
            #[trigger] front[j],
        ) by {
            assert(le(s[i], s[j]));
        }
        lemma_insert_keeps_order(front, x, le);
        lemma_insert_members(front, x, le);
        assert(le(x, s.last()) || le(s.last(), x));
        assert forall|i: int, j: int| 0 <= i < j < r.len() implies le(
            #[trigger] r[i],
            #[trigger] r[j],
        ) by {
            if j == t.len() {
                assert(r[i] == t[i]);
                if t[i] != x {
                    let k = choose|k: int| 0 <= k < front.len() && front[k] == t[i];
                    assert(le(s[k], s[s.len() - 1]));
                }
            } else {
                assert(r[i] == t[i] && r[j] == t[j]);
            }
        }
    }
}

proof fn lemma_insert_members<A>(s: Seq<A>, x: A, le: spec_fn(A, A) -> bool)
    ensures
        ordered_insert(s, x, le).len() == s.len() + 1,
        forall|j: int|
            0 <= j < ordered_insert(s, x, le).len() ==> (#[trigger] ordered_insert(s, x, le)[j] == x
                || s.contains(ordered_insert(s, x, le)[j])),
    decreases s.len(),
{
    let r = ordered_insert(s, x, le);
    if s.len() == 0 || le(s.last(), x) {
        assert forall|j: int| 0 <= j < r.len() implies (#[trigger] r[j] == x || s.contains(r[j])) by {
            if j < s.len() {
                assert(r[j] == s[j]);
            }
        }
    } else {
        let front = s.drop_last();
        lemma_insert_members(front, x, le);
        let t = ordered_insert(front, x, le);
        assert forall|j: int| 0 <= j < r.len() implies (#[trigger] r[j] == x || s.contains(r[j])) by {
            if j < t.len() {
                assert(r[j] == t[j]);
                if t[j] != x {
                    let k = choose|k: int| 0 <= k < front.len() && front[k] == t[j];
                    assert(s[k] == t[j]);
                }
            } else {
                assert(r[j] == s[s.len() - 1]);
            }
        }
    }
}

proof fn lemma_insert_multiset<A>(s: Seq<A>, x: A, le: spec_fn(A, A) -> bool)
    ensures
        ordered_insert(s, x, le).to_multiset() == s.to_multiset().insert(x),
    decreases s.len(),
{
    broadcast use vstd::seq_lib::group_to_multiset_ensures;

    if s.len() == 0 || le(s.last(), x) {
    } else {
        lemma_insert_multiset(s.drop_last(), x, le);
        assert(s.drop_last().push(s.last()) =~= s);
        assert(s.to_multiset() == s.drop_last().to_multiset().insert(s.last()));
        assert(ordered_insert(s, x, le).to_multiset() =~= s.to_multiset().insert(x));
    }
}

proof fn lemma_insert_filter<A>(s: Seq<A>, x: A, le: spec_fn(A, A) -> bool, p: spec_fn(A) -> bool)
    requires
        p(x) ==> forall|a: A| #[trigger] p(a) ==> le(a, x),
    ensures
        ordered_insert(s, x, le).filter(p) == if p(x) {
            s.filter(p).push(x)
        } else {
            s.filter(p)
        },
    decreases s.len(),
{
    reveal(Seq::filter);
    if s.len() == 0 || le(s.last(), x) {
        assert(s.push(x).drop_last() =~= s);
    } else {
        let front = s.drop_last();
        let t = ordered_insert(front, x, le);
        lemma_insert_filter(front, x, le, p);
        assert(t.push(s.last()).drop_last() =~= t);
        assert(p(x) ==> !p(s.last()));
    }
}

/// An ordered query returns the rows that it selects, each as often as it is there, in order.
pub proof fn law_stable_order<A>(s: Seq<A>, le: spec_fn(A, A) -> bool)
    requires
        is_total_preorder(le),
    ensures
        is_ordered(stable_order(s, le), le),
        stable_order(s, le).to_multiset() == s.to_multiset(),
        stable_order(s, le).len() == s.len(),
    decreases s.len(),
{
    broadcast use vstd::seq_lib::group_to_multiset_ensures;

    if s.len() > 0 {
        law_stable_order(s.drop_last(), le);
        lemma_insert_keeps_order(stable_order(s.drop_last(), le), s.last(), le);
        lemma_insert_multiset(stable_order(s.drop_last(), le), s.last(), le);
        lemma_insert_members(stable_order(s.drop_last(), le), s.last(), le);
        assert(s.drop_last().push(s.last()) =~= s);
    }
}

/// Rows that an order does not tell apart keep the order in which they were inserted.
pub proof fn law_stable_order_is_stable<A>(s: Seq<A>, le: spec_fn(A, A) -> bool, a: A)
    requires
        is_total_preorder(le),
    ensures
        stable_order(s, le).filter(|b: A| le(a, b) && le(b, a)) == s.filter(
            |b: A| le(a, b) && le(b, a),
        ),
    decreases s.len(),
{
    let same = |b: A| le(a, b) && le(b, a);
    if s.len() > 0 {
        reveal(Seq::filter);
        law_stable_order_is_stable(s.drop_last(), le, a);
        let x = s.last();
        if same(x) {
            assert forall|b: A| #[trigger] same(b) implies le(b, x) by {
                assert(le(b, a) && le(a, x));
            }
        }
        lemma_insert_filter(stable_order(s.drop_last(), le), x, le, same);
    }
}

/// What an ordered query returns are rows that it selects.
pub proof fn lemma_stable_order_members<A>(s: Seq<A>, le: spec_fn(A, A) -> bool, a: A)
    ensures
        stable_order(s, le).contains(a) == s.contains(a),
{
    broadcast use vstd::seq_lib::group_to_multiset_ensures;

    lemma_stable_order_multiset(s, le);
    assert(s.contains(a) <==> s.to_multiset().count(a) > 0);
    assert(stable_order(s, le).contains(a) <==> stable_order(s, le).to_multiset().count(a) > 0);
}

proof fn lemma_stable_order_multiset<A>(s: Seq<A>, le: spec_fn(A, A) -> bool)
    ensures
        stable_order(s, le).to_multiset() == s.to_multiset(),
    decreases s.len(),
{
    broadcast use vstd::seq_lib::group_to_multiset_ensures;

    if s.len() > 0 {
        lemma_stable_order_multiset(s.drop_last(), le);
        lemma_insert_multiset(stable_order(s.drop_last(), le), s.last(), le);
        assert(s.drop_last().push(s.last()) =~= s);
    }
}

// ----- keys -----

/// Whether no two elements of `s` have the same key.
pub open spec fn unique_by<A, K>(s: Seq<A>, key: spec_fn(A) -> K) -> bool {
    forall|i: int, j: int|
        0 <= i < j < s.len() ==> key(#[trigger] s[i]) != key(#[trigger] s[j])
}

/// A new element with a new key keeps the keys unique.
pub proof fn lemma_unique_push<A, K>(s: Seq<A>, key: spec_fn(A) -> K, x: A)
    requires
        unique_by(s, key),
        forall|i: int| 0 <= i < s.len() ==> key(#[trigger] s[i]) != key(x),
    ensures
        unique_by(s.push(x), key),
{
    let t = s.push(x);
    assert forall|i: int, j: int| 0 <= i < j < t.len() implies key(#[trigger] t[i]) != key(
        #[trigger] t[j],
    ) by {
        assert(t[i] == s[i]);
        if j < s.len() {
            assert(t[j] == s[j]);
        }
    }
}

/// A change that leaves the keys alone keeps them unique.
pub proof fn lemma_unique_changed<A, K>(
    s: Seq<A>,
    key: spec_fn(A) -> K,
    p: spec_fn(A) -> bool,
    f: spec_fn(A) -> A,
)
    requires
        unique_by(s, key),
        forall|a: A| key(#[trigger] f(a)) == key(a),
    ensures
        unique_by(changed_where(s, p, f), key),
{
    let t = changed_where(s, p, f);
    assert forall|i: int, j: int| 0 <= i < j < t.len() implies key(#[trigger] t[i]) != key(
        #[trigger] t[j],
    ) by {
        assert(key(s[i]) != key(s[j]));
        assert(key(f(s[i])) == key(s[i]));
        assert(key(f(s[j])) == key(s[j]));
    }
}

/// Taking elements away keeps the keys unique.
pub proof fn lemma_unique_filter<A, K>(s: Seq<A>, key: spec_fn(A) -> K, p: spec_fn(A) -> bool)
    requires
        unique_by(s, key),
    ensures
        unique_by(s.filter(p), key),
        forall|i: int| 0 <= i < s.filter(p).len() ==> s.contains(#[trigger] s.filter(p)[i]),
    decreases s.len(),
{
    reveal(Seq::filter);
    if s.len() > 0 {
        let t = s.drop_last();
        assert forall|i: int, j: int| 0 <= i < j < t.len() implies key(#[trigger] t[i]) != key(
            #[trigger] t[j],
        ) by {
            assert(t[i] == s[i] && t[j] == s[j]);
        }
        lemma_unique_filter(t, key, p);
        let u = t.filter(p);
        assert forall|i: int| 0 <= i < u.len() implies s.contains(#[trigger] u[i]) && key(u[i])
            != key(s.last()) by {
            let k = choose|k: int| 0 <= k < t.len() && t[k] == u[i];
            assert(s[k] == u[i]);
            assert(key(s[k]) != key(s[s.len() - 1]));
        }
        if p(s.last()) {
            lemma_unique_push(u, key, s.last());
            assert(s.contains(s[s.len() - 1]));
            assert forall|i: int| 0 <= i < u.push(s.last()).len() implies s.contains(
                #[trigger] u.push(s.last())[i],
            ) by {
                if i < u.len() {
                    assert(u.push(s.last())[i] == u[i]);
                }
            }
        }
    }
}

/// An element is kept by a filter exactly when it is there and satisfies the predicate.
pub proof fn lemma_filter_contains<A>(s: Seq<A>, p: spec_fn(A) -> bool, a: A)
    ensures
        s.filter(p).contains(a) == (s.contains(a) && p(a)),
    decreases s.len(),
{
    reveal(Seq::filter);
    if s.len() > 0 {
        let t = s.drop_last();
        lemma_filter_contains(t, p, a);
        let u = t.filter(p);
        if s.contains(a) {
            let k = choose|k: int| 0 <= k < s.len() && s[k] == a;
            if k < t.len() {
                assert(t[k] == a);
            }
        }
        if t.contains(a) {
            let k = choose|k: int| 0 <= k < t.len() && t[k] == a;
            assert(s[k] == a);
        }
        assert(s[s.len() - 1] == s.last());
        if p(s.last()) {
            let w = u.push(s.last());
            assert(w[u.len() as int] == s.last());
            if u.contains(a) {
                let k = choose|k: int| 0 <= k < u.len() && u[k] == a;
                assert(w[k] == a);
            }
            if w.contains(a) && a != s.last() {
                let k = choose|k: int| 0 <= k < w.len() && w[k] == a;
                assert(u[k] == a);
            }
        }
    }
}

/// Two predicates that agree on the elements of a sequence filter it alike.
pub proof fn lemma_filter_same<A>(s: Seq<A>, p: spec_fn(A) -> bool, q: spec_fn(A) -> bool)
    requires
        forall|i: int| 0 <= i < s.len() ==> p(#[trigger] s[i]) == q(s[i]),
    ensures
        s.filter(p) == s.filter(q),
    decreases s.len(),
{
    reveal(Seq::filter);
    if s.len() > 0 {
        let t = s.drop_last();
        assert forall|i: int| 0 <= i < t.len() implies p(#[trigger] t[i]) == q(t[i]) by {
            assert(t[i] == s[i]);
        }
        lemma_filter_same(t, p, q);
        assert(p(s[s.len() - 1]) == q(s[s.len() - 1]));
    }
}

/// Where a predicate neither held nor holds of what is changed, the change does not show through it.
pub proof fn lemma_filter_unchanged<A>(
    s: Seq<A>,
    q: spec_fn(A) -> bool,
    p: spec_fn(A) -> bool,
    f: spec_fn(A) -> A,
)
    requires
        forall|i: int| 0 <= i < s.len() && p(#[trigger] s[i]) ==> !q(s[i]) && !q(f(s[i])),
    ensures
        changed_where(s, p, f).filter(q) == s.filter(q),
    decreases s.len(),
{
    reveal(Seq::filter);
    if s.len() > 0 {
        let t = s.drop_last();
        assert forall|i: int| 0 <= i < t.len() && p(#[trigger] t[i]) implies !q(t[i]) && !q(
            f(t[i]),
        ) by {
            assert(t[i] == s[i]);
        }
        lemma_filter_unchanged(t, q, p, f);
        assert(changed_where(s, p, f).drop_last() =~= changed_where(t, p, f));
        assert(changed_where(s, p, f).last() == if p(s[s.len() - 1]) {
            f(s[s.len() - 1])
        } else {
            s[s.len() - 1]
        });
    }
}

/// The first element of a kind is an element, and of that kind.
pub proof fn lemma_first_of_is_there<A>(s: Seq<A>, p: spec_fn(A) -> bool)
    ensures
        first_of(s, p) matches Some(a) ==> s.contains(a) && p(a),
{
    if first_of(s, p) is Some {
        lemma_filter_contains(s, p, s.filter(p)[0]);
        assert(s.filter(p).contains(s.filter(p)[0]));
    }
}

/// With unique keys, the element of a key is the one that is found under it.
pub proof fn lemma_first_unique<A, K>(
    s: Seq<A>,
    key: spec_fn(A) -> K,
    p: spec_fn(A) -> bool,
    i: int,
)
    requires
        unique_by(s, key),
        0 <= i < s.len(),
        p(s[i]),
        forall|a: A| #[trigger] p(a) ==> key(a) == key(s[i]),
    ensures
        first_of(s, p) == Some(s[i]),
{
    assert forall|j: int| 0 <= j < i implies !p(#[trigger] s[j]) by {
        assert(key(s[j]) != key(s[i]));
    }
    lemma_first_of(s, p, i);
}

/// Filtering commutes with a change of the elements that the filter does not see.
pub proof fn lemma_filter_map<A>(s: Seq<A>, p: spec_fn(A) -> bool, f: spec_fn(A) -> A)
    requires
        forall|a: A| p(#[trigger] f(a)) == p(a),
    ensures
        s.map_values(f).filter(p) == s.filter(p).map_values(f),
    decreases s.len(),
{
    reveal(Seq::filter);
    if s.len() > 0 {
        lemma_filter_map(s.drop_last(), p, f);
        let t = s.map_values(f);
        assert(t.drop_last() =~= s.drop_last().map_values(f));
        assert(t.last() == f(s.last()));
        if p(s.last()) {
            assert(s.filter(p).map_values(f) =~= s.drop_last().filter(p).map_values(f).push(
                f(s.last()),
            ));
        }
    } else {
        assert(s.map_values(f).filter(p) =~= s.filter(p).map_values(f));
    }
}

/// Putting in order commutes with a change of the elements that the order does not see.
pub proof fn lemma_stable_order_map<A>(s: Seq<A>, le: spec_fn(A, A) -> bool, f: spec_fn(A) -> A)
    requires
        forall|a: A, b: A| #[trigger] le(f(a), f(b)) == le(a, b),
    ensures
        stable_order(s.map_values(f), le) == stable_order(s, le).map_values(f),
    decreases s.len(),
{
    let t = s.map_values(f);
    if s.len() == 0 {
        assert(t =~= stable_order(s, le).map_values(f));
    } else {
        lemma_stable_order_map(s.drop_last(), le, f);
        assert(t.drop_last() =~= s.drop_last().map_values(f));
        lemma_insert_map(stable_order(s.drop_last(), le), s.last(), le, f);
    }
}

proof fn lemma_insert_map<A>(s: Seq<A>, x: A, le: spec_fn(A, A) -> bool, f: spec_fn(A) -> A)
    requires
        forall|a: A, b: A| #[trigger] le(f(a), f(b)) == le(a, b),
    ensures
        ordered_insert(s.map_values(f), f(x), le) == ordered_insert(s, x, le).map_values(f),
    decreases s.len(),
{
    let t = s.map_values(f);
    if s.len() > 0 {
        assert(t.last() == f(s.last()));
        assert(t.drop_last() =~= s.drop_last().map_values(f));
        if !le(s.last(), x) {
            lemma_insert_map(s.drop_last(), x, le, f);
        }
    }
    assert(ordered_insert(t, f(x), le) =~= ordered_insert(s, x, le).map_values(f));
}

/// Putting in order keeps the keys unique.
pub proof fn lemma_stable_order_unique<A, K>(
    s: Seq<A>,
    le: spec_fn(A, A) -> bool,
    key: spec_fn(A) -> K,
)
    requires
        unique_by(s, key),
    ensures
        unique_by(stable_order(s, le), key),
    decreases s.len(),
{
    if s.len() > 0 {
        let front = s.drop_last();
        assert forall|i: int, j: int| 0 <= i < j < front.len() implies key(#[trigger] front[i])
            != key(#[trigger] front[j]) by {
            assert(front[i] == s[i] && front[j] == s[j]);
        }
        lemma_stable_order_unique(front, le, key);
        let t = stable_order(front, le);
        assert forall|i: int| 0 <= i < t.len() implies key(#[trigger] t[i]) != key(s.last()) by {
            assert(t.contains(t[i]));
            lemma_stable_order_members(front, le, t[i]);
            let k = choose|k: int| 0 <= k < front.len() && front[k] == t[i];
            assert(s[k] == front[k]);
            assert(key(s[k]) != key(s[s.len() - 1]));
        }
        lemma_insert_unique(t, s.last(), le, key);
    }
}

proof fn lemma_insert_unique<A, K>(
    s: Seq<A>,
    x: A,
    le: spec_fn(A, A) -> bool,
    key: spec_fn(A) -> K,
)
    requires
        unique_by(s, key),
        forall|i: int| 0 <= i < s.len() ==> key(#[trigger] s[i]) != key(x),
    ensures
        unique_by(ordered_insert(s, x, le), key),
    decreases s.len(),
{
    if s.len() == 0 || le(s.last(), x) {
        lemma_unique_push(s, key, x);
    } else {
        let front = s.drop_last();
        assert forall|i: int, j: int| 0 <= i < j < front.len() implies key(#[trigger] front[i])
            != key(#[trigger] front[j]) by {
            assert(front[i] == s[i] && front[j] == s[j]);
        }
        assert forall|i: int| 0 <= i < front.len() implies key(#[trigger] front[i]) != key(x) by {
            assert(front[i] == s[i]);
        }
        lemma_insert_unique(front, x, le, key);
        let t = ordered_insert(front, x, le);
        assert forall|i: int| 0 <= i < t.len() implies key(#[trigger] t[i]) != key(s.last()) by {
            lemma_insert_members(front, x, le);
            assert(t.contains(t[i]));
            if t[i] != x {
                let k = choose|k: int| 0 <= k < front.len() && front[k] == t[i];
                assert(s[k] == front[k]);
                assert(key(s[k]) != key(s[s.len() - 1]));
            } else {
                assert(key(s[s.len() - 1]) != key(x));
            }
        }
        lemma_unique_push(t, key, s.last());
    }
}

/// Putting in order commutes with taking elements away.
pub proof fn lemma_stable_order_filter<A>(
    s: Seq<A>,
    le: spec_fn(A, A) -> bool,
    p: spec_fn(A) -> bool,
)
    requires
        is_total_preorder(le),
    ensures
        stable_order(s, le).filter(p) == stable_order(s.filter(p), le),
    decreases s.len(),
{
    reveal(Seq::filter);
    if s.len() > 0 {
        let front = s.drop_last();
        lemma_stable_order_filter(front, le, p);
        law_stable_order(front, le);
        lemma_insert_filtered(stable_order(front, le), s.last(), le, p);
        if p(s.last()) {
            assert(front.filter(p).push(s.last()).drop_last() =~= front.filter(p));
        }
    }
}

proof fn lemma_insert_filtered<A>(
    s: Seq<A>,
    x: A,
    le: spec_fn(A, A) -> bool,
    p: spec_fn(A) -> bool,
)
    requires
        is_total_preorder(le),
        is_ordered(s, le),
    ensures
        ordered_insert(s, x, le).filter(p) == if p(x) {
            ordered_insert(s.filter(p), x, le)
        } else {
            s.filter(p)
        },
    decreases s.len(),
{
    reveal(Seq::filter);
    if s.len() == 0 || le(s.last(), x) {
        assert(s.push(x).drop_last() =~= s);
        let t = s.filter(p);
        if t.len() > 0 {
            lemma_filter_contains(s, p, t.last());
            assert(t.contains(t.last()));
            let k = choose|k: int| 0 <= k < s.len() && s[k] == t.last();
            assert(k == s.len() - 1 || le(s[k], s[s.len() - 1]));
            assert(le(t.last(), x));
        }
    } else {
        let front = s.drop_last();
        let t = ordered_insert(front, x, le);
        lemma_insert_filtered(front, x, le, p);
        assert(t.push(s.last()).drop_last() =~= t);
        if p(s.last()) {
            assert(front.filter(p).push(s.last()).drop_last() =~= front.filter(p));
        }
    }
}

/// Where elements are changed only so that they no longer satisfy a predicate, the filter keeps those
/// that satisfied it and were not changed.
pub proof fn lemma_filter_fewer<A>(
    s: Seq<A>,
    t: Seq<A>,
    p: spec_fn(A) -> bool,
    q: spec_fn(A) -> bool,
)
    requires
        s.len() == t.len(),
        forall|i: int|
            0 <= i < s.len() ==> p(#[trigger] t[i]) == (p(s[i]) && q(s[i])) && (p(t[i]) ==> t[i]
                == s[i]),
    ensures
        t.filter(p) == s.filter(p).filter(q),
    decreases s.len(),
{
    reveal(Seq::filter);
    if s.len() > 0 {
        let a = s.drop_last();
        let b = t.drop_last();
        assert forall|i: int| 0 <= i < a.len() implies p(#[trigger] b[i]) == (p(a[i]) && q(a[i]))
            && (p(b[i]) ==> b[i] == a[i]) by {
            assert(b[i] == t[i] && a[i] == s[i]);
        }
        lemma_filter_fewer(a, b, p, q);
        assert(p(t[t.len() - 1]) == (p(s.last()) && q(s.last())));
        if p(s.last()) {
            assert(a.filter(p).push(s.last()).drop_last() =~= a.filter(p));
        }
    }
}

/// A filter that leaves out the first elements and no others.
pub proof fn lemma_filter_rest<A>(s: Seq<A>, p: spec_fn(A) -> bool, k: int)
    requires
        0 <= k <= s.len(),
        forall|i: int| 0 <= i < s.len() ==> p(#[trigger] s[i]) == (k <= i),
    ensures
        s.filter(p) == s.skip(k),
    decreases s.len(),
{
    reveal(Seq::filter);
    if s.len() > 0 {
        let t = s.drop_last();
        assert(p(s[s.len() - 1]) == (k <= s.len() - 1));
        if k <= t.len() {
            assert forall|i: int| 0 <= i < t.len() implies p(#[trigger] t[i]) == (k <= i) by {
                assert(t[i] == s[i]);
            }
            lemma_filter_rest(t, p, k);
            assert(t.skip(k).push(s.last()) =~= s.skip(k));
        } else {
            lemma_filter_empty(s, p);
            assert(s.filter(p) =~= s.skip(k));
        }
    } else {
        assert(s.filter(p) =~= s.skip(k));
    }
}

/// The first element of a kind, where elements are changed and stay of their kind.
pub proof fn lemma_first_changed<A>(
    s: Seq<A>,
    p: spec_fn(A) -> bool,
    q: spec_fn(A) -> bool,
    f: spec_fn(A) -> A,
)
    requires
        forall|a: A| p(#[trigger] f(a)) == p(a),
    ensures
        first_of(changed_where(s, q, f), p) == match first_of(s, p) {
            Some(a) => Some(
                if q(a) {
                    f(a)
                } else {
                    a
                },
            ),
            None => None,
        },
{
    let h = |a: A|
        if q(a) {
            f(a)
        } else {
            a
        };
    assert(changed_where(s, q, f) =~= s.map_values(h));
    assert forall|a: A| p(#[trigger] h(a)) == p(a) by {
        assert(p(f(a)) == p(a));
    }
    lemma_filter_map(s, p, h);
}

/// Of too many elements the first are kept, as many as there may be, in the order that they are in.
pub proof fn law_the_first_are_kept<A>(s: Seq<A>, limit: int, i: int)
    requires
        limit >= 0,
    ensures
        at_most(s, limit).len() == if s.len() <= limit {
            s.len() as int
        } else {
            limit
        },
        0 <= i < at_most(s, limit).len() ==> at_most(s, limit)[i] == s[i],
{
}

} // verus!
