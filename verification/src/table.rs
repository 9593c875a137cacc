//! Tables of records that are looked up by a text key, in the order in which
//! the keys first came in.

use vstd::prelude::*;

use crate::text::same_text;

verus! {

/// What the model of a record has to offer: the key it is filed under.
pub trait Keyed: Sized {
    spec fn key(self) -> Seq<char>;
}

/// A value that can be copied, model for model.
pub trait Dup: View + Sized {
    fn dup(&self) -> (r: Self)
        ensures
            r@ == self@,
    ;
}

/// A record that can stand in a table.
pub trait Record: Dup where Self::V: Keyed {
    fn key(&self) -> (r: &str)
        ensures
            r@ == self@.key(),
    ;
}

/// The first place at which the key stands, or the length where it does not.
pub open spec fn place<R: Keyed>(s: Seq<R>, k: Seq<char>) -> int
    decreases s.len(),
{
    if s.len() == 0 || s[0].key() == k {
        0
    } else {
        1 + place(s.skip(1), k)
    }
}

/// Whether some record is filed under the key.
pub open spec fn filed<R: Keyed>(s: Seq<R>, k: Seq<char>) -> bool {
    place(s, k) < s.len()
}

/// The record that is filed under the key.
pub open spec fn found<R: Keyed>(s: Seq<R>, k: Seq<char>) -> Option<R> {
    if filed(s, k) {
        Some(s[place(s, k)])
    } else {
        None
    }
}

/// The table after the record was filed: in the place of the record with the
/// same key, or at the end.
pub open spec fn put<R: Keyed>(s: Seq<R>, r: R) -> Seq<R> {
    if filed(s, r.key()) {
        s.update(place(s, r.key()), r)
    } else {
        s.push(r)
    }
}

/// The table after the record under the key was taken out.
pub open spec fn without<R: Keyed>(s: Seq<R>, k: Seq<char>) -> Seq<R> {
    if filed(s, k) {
        s.remove(place(s, k))
    } else {
        s
    }
}

/// The table that results from filing the records one after another.
pub open spec fn filed_all<R: Keyed>(s: Seq<R>, rows: Seq<R>) -> Seq<R>
    decreases rows.len(),
{
    if rows.len() == 0 {
        s
    } else {
        put(filed_all(s, rows.drop_last()), rows.last())
    }
}

/// No two records are filed under the same key.
pub open spec fn distinct<R: Keyed>(s: Seq<R>) -> bool {
    forall|i: int, j: int| 0 <= i < j < s.len() ==> (#[trigger] s[i]).key() != (#[trigger] s[j]).key()
}

pub proof fn lemma_place<R: Keyed>(s: Seq<R>, k: Seq<char>)
    ensures
        0 <= place(s, k) <= s.len(),
        filed(s, k) ==> s[place(s, k)].key() == k,
        forall|i: int| 0 <= i < place(s, k) ==> (#[trigger] s[i]).key() != k,
    decreases s.len(),
{
    if s.len() > 0 && s[0].key() != k {
        lemma_place(s.skip(1), k);
        assert forall|i: int| 0 <= i < place(s, k) implies (#[trigger] s[i]).key() != k by {
            if i > 0 {
                assert(s.skip(1)[i - 1] == s[i]);
            }
        }
    }
}

/// The place is the only number with the properties of `lemma_place`.
pub proof fn lemma_place_is<R: Keyed>(s: Seq<R>, k: Seq<char>, p: int)
    requires
        0 <= p <= s.len(),
        p < s.len() ==> s[p].key() == k,
        forall|i: int| 0 <= i < p ==> (#[trigger] s[i]).key() != k,
    ensures
        place(s, k) == p,
{
    lemma_place(s, k);
    let q = place(s, k);
    if q < p {
        assert(s[q].key() != k);
    } else if p < q {
        assert(s[p].key() != k);
    }
}

/// What is filed under a key is found under it again, and no other key is touched.
pub proof fn lemma_put<R: Keyed>(s: Seq<R>, r: R, k: Seq<char>)
    ensures
        found(put(s, r), k) == (if k == r.key() {
            Some(r)
        } else {
            found(s, k)
        }),
{
    lemma_place(s, r.key());
    lemma_place(s, k);
    let t = put(s, r);
    let p = place(s, r.key());
    if k == r.key() {
        assert forall|i: int| 0 <= i < p implies (#[trigger] t[i]).key() != k by {
            assert(t[i] == s[i]);
        }
        lemma_place_is(t, k, p);
    } else {
        let q = place(s, k);
        if q < s.len() {
            assert forall|i: int| 0 <= i < q implies (#[trigger] t[i]).key() != k by {
                assert(i == p || t[i] == s[i]);
            }
            lemma_place_is(t, k, q);
        } else {
            assert forall|i: int| 0 <= i < t.len() implies (#[trigger] t[i]).key() != k by {
                assert(i == p || t[i] == s[i]);
            }
            lemma_place_is(t, k, t.len() as int);
        }
    }
}

/// Filing a record keeps the keys distinct.
pub proof fn lemma_put_distinct<R: Keyed>(s: Seq<R>, r: R)
    requires
        distinct(s),
    ensures
        distinct(put(s, r)),
{
    lemma_place(s, r.key());
    let t = put(s, r);
    let p = place(s, r.key());
    assert forall|i: int, j: int| 0 <= i < j < t.len() implies (#[trigger] t[i]).key() != (
    #[trigger] t[j]).key() by {
        assert(i == p || t[i] == s[i]);
        assert(j == p || t[j] == s[j]);
    }
}

/// Where the keys are distinct, each record is the one found under its key.
pub proof fn lemma_found_at<R: Keyed>(s: Seq<R>, i: int)
    requires
        distinct(s),
        0 <= i < s.len(),
    ensures
        place(s, s[i].key()) == i,
        found(s, s[i].key()) == Some(s[i]),
{
    lemma_place_is(s, s[i].key(), i);
}

/// The models of a list of records.
pub open spec fn views<T: View>(rows: Seq<T>) -> Seq<T::V> {
    rows.map_values(|t: T| t@)
}

/// The model of an optional record.
pub open spec fn view_opt<T: View>(o: Option<T>) -> Option<T::V> {
    match o {
        Some(t) => Some(t@),
        None => None,
    }
}

pub fn dup_opt<T: Dup>(o: &Option<T>) -> (r: Option<T>)
    ensures
        view_opt(r) == view_opt(*o),
{
    match o {
        Some(t) => Some(t.dup()),
        None => None,
    }
}

pub fn dup_all<T: Dup>(v: &Vec<T>) -> (r: Vec<T>)
    ensures
        views(r@) == views(v@),
{
    let mut out: Vec<T> = Vec::new();
    let mut i: usize = 0;
    while i < v.len()
        invariant
            i <= v.len(),
            out.len() == i,
            forall|j: int| 0 <= j < i ==> (#[trigger] out@[j])@ == v@[j]@,
        decreases v.len() - i,
    {
        out.push(v[i].dup());
        i += 1;
    }
    assert(views(out@) =~= views(v@));
    out
}

pub struct Table<T> {
    pub rows: Vec<T>,
}

impl<T: View> View for Table<T> {
    type V = Seq<T::V>;

    open spec fn view(&self) -> Seq<T::V> {
        views(self.rows@)
    }
}

impl<T: Dup> Dup for Table<T> {
    fn dup(&self) -> Table<T> {
        Table { rows: dup_all(&self.rows) }
    }
}

impl<T: Record> Table<T> where T::V: Keyed {
    pub fn new() -> (r: Self)
        ensures
            r@ == Seq::<T::V>::empty(),
    {
        let r = Table { rows: Vec::new() };
        assert(r@ =~= Seq::<T::V>::empty());
        r
    }

    /// Files the rows one after another, so that of two rows with one key the later stays.
    pub fn from_rows(rows: Vec<T>) -> (r: Self)
        ensures
            r@ == filed_all(Seq::<T::V>::empty(), views(rows@)),
            distinct(r@),
    {
        let mut table: Table<T> = Table::new();
        let mut i: usize = 0;
        while i < rows.len()
            invariant
                i <= rows.len(),
                table@ == filed_all(Seq::<T::V>::empty(), views(rows@).take(i as int)),
                distinct(table@),
            decreases rows.len() - i,
        {
            let row = rows[i].dup();
            proof {
                lemma_put_distinct(table@, row@);
                assert(views(rows@).take(i + 1).drop_last() =~= views(rows@).take(i as int));
                assert(views(rows@).take(i + 1).last() == row@);
            }
            table.put(row);
            i += 1;
        }
        assert(views(rows@).take(i as int) =~= views(rows@));
        table
    }

    pub fn len(&self) -> (r: usize)
        ensures
            r == self@.len(),
    {
        self.rows.len()
    }

    pub fn at(&self, i: usize) -> (r: &T)
        requires
            i < self@.len(),
        ensures
            r@ == self@[i as int],
    {
        &self.rows[i]
    }

    pub fn find(&self, k: &str) -> (r: usize)
        ensures
            r == place(self@, k@),
            r <= self@.len(),
    {
        let mut i: usize = 0;
        while i < self.rows.len()
            invariant
                i <= self.rows.len(),
                forall|j: int| 0 <= j < i ==> (#[trigger] self@[j]).key() != k@,
            decreases self.rows.len() - i,
        {
            if same_text(self.rows[i].key(), k) {
                assert(self@[i as int].key() == k@);
                proof {
                    lemma_place_is(self@, k@, i as int);
                }
                return i;
            }
            assert(self@[i as int].key() != k@);
            i += 1;
        }
        proof {
            lemma_place_is(self@, k@, i as int);
        }
        i
    }

    pub fn has(&self, k: &str) -> (r: bool)
        ensures
            r == filed(self@, k@),
    {
        self.find(k) < self.rows.len()
    }

    pub fn get(&self, k: &str) -> (r: Option<T>)
        ensures
            view_opt(r) == found(self@, k@),
    {
        let i: usize = self.find(k);
        if i < self.rows.len() {
            Some(self.rows[i].dup())
        } else {
            None
        }
    }

    pub fn put(&mut self, r: T)
        ensures
            final(self)@ == put(old(self)@, r@),
    {
        let i: usize = self.find(r.key());
        let ghost before = self.rows@;
        let ghost m = r@;
        if i < self.rows.len() {
            self.rows.set(i, r);
            assert(views(self.rows@) =~= views(before).update(i as int, m));
        } else {
            self.rows.push(r);
            assert(views(self.rows@) =~= views(before).push(m));
        }
    }

    pub fn take(&mut self, k: &str) -> (r: Option<T>)
        ensures
            final(self)@ == without(old(self)@, k@),
            view_opt(r) == found(old(self)@, k@),
    {
        let i: usize = self.find(k);
        let ghost before = self.rows@;
        proof {
            lemma_place(views(before), k@);
        }
        if i < self.rows.len() {
            let x = self.rows.remove(i);
            assert(views(self.rows@) =~= views(before).remove(i as int));
            Some(x)
        } else {
            None
        }
    }
}

} // verus!
