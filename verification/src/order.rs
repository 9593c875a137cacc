//! Orders on records, and lists put in order.

use vstd::prelude::*;

use crate::models::{
    AgentModel, AgentSummary, DecisionModel, DecisionSummary, SessionModel, SessionSummary,
    TaskModel, TaskSummary,
};
use crate::state::{ManagedModel, ManagedSession};
use crate::table::{views, Dup};
use crate::text::to_chars;
use crate::time::lemma_before_total;

verus! {

/// Whether the first text does not come after the second, character by character.
pub open spec fn text_not_after(a: Seq<char>, b: Seq<char>) -> bool
    decreases a.len(),
{
    if a.len() == 0 {
        true
    } else if b.len() == 0 {
        false
    } else if a[0] != b[0] {
        a[0] < b[0]
    } else {
        text_not_after(a.skip(1), b.skip(1))
    }
}

pub proof fn lemma_text_order(a: Seq<char>, b: Seq<char>, c: Seq<char>)
    ensures
        text_not_after(a, a),
        text_not_after(a, b) || text_not_after(b, a),
        text_not_after(a, b) && text_not_after(b, c) ==> text_not_after(a, c),
    decreases a.len(),
{
    if a.len() > 0 {
        if b.len() > 0 {
            assert(a[0] != b[0] ==> a[0] < b[0] || b[0] < a[0]);
            assert(b[0] == a[0] ==> text_not_after(b, a) == text_not_after(b.skip(1), a.skip(1)));
        }
        if b.len() > 0 && c.len() > 0 {
            lemma_text_order(a.skip(1), b.skip(1), c.skip(1));
        } else {
            lemma_text_order(
                a.skip(1),
                if b.len() > 0 {
                    b.skip(1)
                } else {
                    b
                },
                c,
            );
        }
    }
}

pub fn text_is_not_after(a: &str, b: &str) -> (r: bool)
    ensures
        r == text_not_after(a@, b@),
{
    let x = to_chars(a);
    let y = to_chars(b);
    let mut i: usize = 0;
    assert(x@.skip(0) =~= x@);
    assert(y@.skip(0) =~= y@);
    while i < x.len()
        invariant
            i <= x.len(),
            i <= y.len(),
            x@ == a@,
            y@ == b@,
            text_not_after(x@.skip(i as int), y@.skip(i as int)) == text_not_after(a@, b@),
        decreases x.len() - i,
    {
        if i >= y.len() {
            return false;
        }
        if x[i] != y[i] {
            return x[i] < y[i];
        }
        assert(x@.skip(i as int).skip(1) =~= x@.skip(i + 1));
        assert(y@.skip(i as int).skip(1) =~= y@.skip(i + 1));
        i += 1;
    }
    true
}

/// A model that stands in an order.
pub trait Ranked: Sized {
    spec fn not_after(self, other: Self) -> bool;

    proof fn ranks(a: Self, b: Self, c: Self)
        ensures
            a.not_after(a),
            a.not_after(b) || b.not_after(a),
            a.not_after(b) && b.not_after(c) ==> a.not_after(c),
    ;
}

/// A record whose model stands in an order.
pub trait Rank: Dup where Self::V: Ranked {
    fn is_not_after(&self, other: &Self) -> (r: bool)
        ensures
            r == self@.not_after(other@),
    ;
}

/// The list with the record put in behind all that it does not come before.
pub open spec fn insert_ranked<R: Ranked>(s: Seq<R>, r: R) -> Seq<R>
    decreases s.len(),
{
    if s.len() == 0 || s.last().not_after(r) {
        s.push(r)
    } else {
        insert_ranked(s.drop_last(), r).push(s.last())
    }
}

/// The list in order; records of one rank stay as they came.
pub open spec fn ranked<R: Ranked>(s: Seq<R>) -> Seq<R>
    decreases s.len(),
{
    if s.len() == 0 {
        s
    } else {
        insert_ranked(ranked(s.drop_last()), s.last())
    }
}

pub open spec fn in_order<R: Ranked>(s: Seq<R>) -> bool {
    forall|i: int, j: int| 0 <= i < j < s.len() ==> (#[trigger] s[i]).not_after(#[trigger] s[j])
}

proof fn lemma_insert_ranked<R: Ranked>(s: Seq<R>, r: R)
    requires
        in_order(s),
    ensures
        in_order(insert_ranked(s, r)),
        insert_ranked(s, r).to_multiset() == s.to_multiset().insert(r),
        insert_ranked(s, r).len() == s.len() + 1,
    decreases s.len(),
{
    broadcast use vstd::seq_lib::group_to_multiset_ensures;

    let t = insert_ranked(s, r);
    if s.len() == 0 || s.last().not_after(r) {
        assert forall|i: int, j: int| 0 <= i < j < t.len() implies (#[trigger] t[i]).not_after(
            #[trigger] t[j],
        ) by {
            if j == s.len() {
                if i < s.len() - 1 {
                    assert(s[i].not_after(s[s.len() - 1]));
                }
                R::ranks(t[i], s.last(), r);
            }
        }
    } else {
        let head = s.drop_last();
        let h = insert_ranked(head, r);
        assert forall|i: int, j: int| 0 <= i < j < head.len() implies (
        #[trigger] head[i]).not_after(#[trigger] head[j]) by {
            assert(s[i].not_after(s[j]));
        }
        lemma_insert_ranked(head, r);
        R::ranks(s.last(), r, r);
        assert(s =~= head.push(s.last()));
        assert(t.to_multiset() =~= s.to_multiset().insert(r));
        assert forall|i: int| 0 <= i < h.len() implies (#[trigger] h[i]).not_after(s.last()) by {
            assert(h.to_multiset().count(h[i]) > 0);
            if h[i] != r {
                assert(head.to_multiset().count(h[i]) > 0);
                let k = head.index_of(h[i]);
                assert(head.contains(h[i]));
                assert(s[k].not_after(s[s.len() - 1]));
            }
        }
        assert forall|i: int, j: int| 0 <= i < j < t.len() implies (#[trigger] t[i]).not_after(
            #[trigger] t[j],
        ) by {
            if j < h.len() {
                assert(h[i].not_after(h[j]));
            } else {
                assert(h[i].not_after(s.last()));
            }
        }
    }
}

/// A list put in order is in order and holds the same records.
pub proof fn ranked_is_in_order<R: Ranked>(s: Seq<R>)
    ensures
        in_order(ranked(s)),
        ranked(s).to_multiset() == s.to_multiset(),
        ranked(s).len() == s.len(),
    decreases s.len(),
{
    broadcast use vstd::seq_lib::group_to_multiset_ensures;

    if s.len() > 0 {
        ranked_is_in_order(s.drop_last());
        lemma_insert_ranked(ranked(s.drop_last()), s.last());
        assert(s =~= s.drop_last().push(s.last()));
    }
}

/// How many records the new one stays behind.
fn insert_at<T: Rank>(v: &mut Vec<T>, t: T) where T::V: Ranked
    ensures
        views(final(v)@) == insert_ranked(views(old(v)@), t@),
{
    let mut n: usize = v.len();
    let ghost all = views(v@);
    let ghost tail: Seq<T::V> = Seq::empty();
    assert(all.take(n as int) =~= all);
    assert(insert_ranked(all.take(n as int), t@) + tail =~= insert_ranked(all, t@));
    while n > 0 && !v[n - 1].is_not_after(&t)
        invariant
            n <= v.len(),
            all == views(v@),
            insert_ranked(all.take(n as int), t@) + tail == insert_ranked(all, t@),
            tail == all.skip(n as int),
        decreases n,
    {
        proof {
            let head = all.take(n as int);
            assert(head.last() == v@[n - 1]@);
            assert(head.drop_last() =~= all.take(n - 1));
            let longer = seq![head.last()] + tail;
            assert(insert_ranked(head, t@) + tail =~= insert_ranked(all.take(n - 1), t@) + longer);
            assert(longer =~= all.skip(n - 1));
            tail = longer;
        }
        n -= 1;
    }
    proof {
        let head = all.take(n as int);
        if n > 0 {
            assert(head.last() == v@[n - 1]@);
        }
        assert(insert_ranked(head, t@) == head.push(t@));
    }
    v.insert(n, t);
    assert(views(v@) =~= all.take(n as int).push(t@) + tail);
}

/// The records of a table, in order.
pub fn rank_all<T: Rank>(rows: &Vec<T>) -> (r: Vec<T>) where T::V: Ranked
    ensures
        views(r@) == ranked(views(rows@)),
{
    let mut out: Vec<T> = Vec::new();
    let mut i: usize = 0;
    assert(views(out@) =~= views(rows@).take(0));
    while i < rows.len()
        invariant
            i <= rows.len(),
            views(out@) == ranked(views(rows@).take(i as int)),
        decreases rows.len() - i,
    {
        proof {
            let head = views(rows@).take(i + 1);
            assert(head.drop_last() =~= views(rows@).take(i as int));
            assert(head.last() == rows@[i as int]@);
        }
        insert_at(&mut out, rows[i].dup());
        i += 1;
    }
    assert(views(rows@).take(i as int) =~= views(rows@));
    out
}

impl Ranked for AgentModel {
    open spec fn not_after(self, other: Self) -> bool {
        text_not_after(self.name, other.name)
    }

    proof fn ranks(a: Self, b: Self, c: Self) {
        lemma_text_order(a.name, b.name, c.name);
    }
}

impl Rank for AgentSummary {
    fn is_not_after(&self, other: &Self) -> bool {
        text_is_not_after(self.name.as_str(), other.name.as_str())
    }
}

impl Ranked for ManagedModel {
    open spec fn not_after(self, other: Self) -> bool {
        text_not_after(self.agent_name, other.agent_name)
    }

    proof fn ranks(a: Self, b: Self, c: Self) {
        lemma_text_order(a.agent_name, b.agent_name, c.agent_name);
    }
}

impl Rank for ManagedSession {
    fn is_not_after(&self, other: &Self) -> bool {
        text_is_not_after(self.agent_name.as_str(), other.agent_name.as_str())
    }
}

impl Ranked for TaskModel {
    open spec fn not_after(self, other: Self) -> bool {
        !other.created_at.before(self.created_at)
    }

    proof fn ranks(a: Self, b: Self, c: Self) {
        lemma_before_total(a.created_at, b.created_at);
        lemma_before_total(b.created_at, c.created_at);
        lemma_before_total(a.created_at, c.created_at);
    }
}

impl Rank for TaskSummary {
    fn is_not_after(&self, other: &Self) -> bool {
        !other.created_at.is_before(&self.created_at)
    }
}

impl Ranked for DecisionModel {
    open spec fn not_after(self, other: Self) -> bool {
        !other.created_at.before(self.created_at)
    }

    proof fn ranks(a: Self, b: Self, c: Self) {
        lemma_before_total(a.created_at, b.created_at);
        lemma_before_total(b.created_at, c.created_at);
        lemma_before_total(a.created_at, c.created_at);
    }
}

impl Rank for DecisionSummary {
    fn is_not_after(&self, other: &Self) -> bool {
        !other.created_at.is_before(&self.created_at)
    }
}

impl Ranked for SessionModel {
    open spec fn not_after(self, other: Self) -> bool {
        !other.started_at.before(self.started_at)
    }

    proof fn ranks(a: Self, b: Self, c: Self) {
        lemma_before_total(a.started_at, b.started_at);
        lemma_before_total(b.started_at, c.started_at);
        lemma_before_total(a.started_at, c.started_at);
    }
}

impl Rank for SessionSummary {
    fn is_not_after(&self, other: &Self) -> bool {
        !other.started_at.is_before(&self.started_at)
    }
}

} // verus!
