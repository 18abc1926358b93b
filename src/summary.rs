//! The summary table: one row per statistic, one cell per dataset column,
//! rows ordered by their label.

use vstd::prelude::*;
use vstd::seq_lib::*;
use crate::schema::DisplayCast;
use crate::text::{lemma_text_le_total, lemma_text_le_transitive, text_le, text_le_exec};
use crate::method::DescribeMethod;

verus! {

/// One cell of the summary table.
#[derive(Debug)]
pub enum Cell<V> {
    /// The statistic does not apply to the column; rendered as `null`.
    NotApplicable,
    /// The value that the execution engine computed.
    Value(V),
}

/// A column of the summary table, named as the dataset's column.
#[derive(Debug)]
pub struct SummaryColumn {
    pub name: String,
    pub display: DisplayCast,
}

/// One statistic's row: its label and one cell per dataset column.
#[derive(Debug)]
pub struct SummaryRow<V> {
    pub method: DescribeMethod,
    pub label: String,
    pub cells: Vec<Cell<V>>,
}

/// The mathematical content of a row.
pub struct RowView<V> {
    pub method: DescribeMethod,
    pub label: Seq<char>,
    pub cells: Seq<Cell<V>>,
}

impl<V> View for SummaryRow<V> {
    type V = RowView<V>;

    open spec fn view(&self) -> RowView<V> {
        RowView { method: self.method, label: self.label@, cells: self.cells@ }
    }
}

/// The result of a describe call.
#[derive(Debug)]
pub struct SummaryTable<V> {
    /// The dataset's columns, in the dataset's order (the leading `describe`
    /// column of labels is not listed).
    pub columns: Vec<SummaryColumn>,
    /// One row per statistic, sorted by label.
    pub rows: Vec<SummaryRow<V>>,
}

pub open spec fn row_views<V>(rows: Seq<SummaryRow<V>>) -> Seq<RowView<V>> {
    rows.map_values(|r: SummaryRow<V>| r@)
}

/// Rows in ascending order of their labels.
pub open spec fn sorted_by_label<V>(rows: Seq<RowView<V>>) -> bool {
    forall|i: int, j: int|
        0 <= i < j < rows.len() ==> text_le(#[trigger] rows[i].label, #[trigger] rows[j].label)
}

/// Where `r` goes in `s`: after every leading row whose label is not above
/// its own.
pub open spec fn insert_pos<V>(s: Seq<RowView<V>>, r: RowView<V>) -> int
    decreases s.len(),
{
    if s.len() == 0 {
        0
    } else if text_le(s[0].label, r.label) {
        1 + insert_pos(s.drop_first(), r)
    } else {
        0
    }
}

/// Stable insertion sort by label.
pub open spec fn sort_rows<V>(s: Seq<RowView<V>>) -> Seq<RowView<V>>
    decreases s.len(),
{
    if s.len() == 0 {
        s
    } else {
        let t = sort_rows(s.drop_last());
        t.insert(insert_pos(t, s.last()), s.last())
    }
}

proof fn lemma_insert_pos<V>(s: Seq<RowView<V>>, r: RowView<V>)
    ensures
        0 <= insert_pos(s, r) <= s.len(),
        forall|i: int| 0 <= i < insert_pos(s, r) ==> text_le(#[trigger] s[i].label, r.label),
        insert_pos(s, r) < s.len() ==> !text_le(s[insert_pos(s, r)].label, r.label),
    decreases s.len(),
{
    if s.len() > 0 && text_le(s[0].label, r.label) {
        lemma_insert_pos(s.drop_first(), r);
        assert forall|i: int| 0 <= i < insert_pos(s, r) implies text_le(
            #[trigger] s[i].label,
            r.label,
        ) by {
            if i > 0 {
                assert(s[i] == s.drop_first()[i - 1]);
            }
        }
    }
}

proof fn lemma_insert_sorted<V>(t: Seq<RowView<V>>, r: RowView<V>)
    requires
        sorted_by_label(t),
    ensures
        sorted_by_label(t.insert(insert_pos(t, r), r)),
{
    lemma_insert_pos(t, r);
    let p = insert_pos(t, r);
    let u = t.insert(p, r);
    if p < t.len() {
        lemma_text_le_total(t[p].label, r.label);
    }
    assert forall|i: int, j: int| 0 <= i < j < u.len() implies text_le(
        #[trigger] u[i].label,
        #[trigger] u[j].label,
    ) by {
        if j < p {
            assert(u[i] == t[i] && u[j] == t[j]);
        } else if j == p {
            assert(u[i] == t[i]);
        } else if i == p {
            assert(u[j] == t[j - 1]);
            if j - 1 > p {
                lemma_text_le_transitive(r.label, t[p].label, t[j - 1].label);
            }
        } else if i < p {
            assert(u[i] == t[i] && u[j] == t[j - 1]);
        } else {
            assert(u[i] == t[i - 1] && u[j] == t[j - 1]);
        }
    }
}

/// Sorting yields rows in ascending label order.
pub proof fn lemma_sort_rows_sorted<V>(s: Seq<RowView<V>>)
    ensures
        sorted_by_label(sort_rows(s)),
    decreases s.len(),
{
    if s.len() > 0 {
        lemma_sort_rows_sorted(s.drop_last());
        lemma_insert_sorted(sort_rows(s.drop_last()), s.last());
    }
}

/// Sorting keeps exactly the rows it was given.
pub proof fn lemma_sort_rows_permutes<V>(s: Seq<RowView<V>>)
    ensures
        sort_rows(s).to_multiset() == s.to_multiset(),
        sort_rows(s).len() == s.len(),
    decreases s.len(),
{
    if s.len() > 0 {
        let t = sort_rows(s.drop_last());
        lemma_sort_rows_permutes(s.drop_last());
        lemma_insert_pos(t, s.last());
        to_multiset_insert(t, insert_pos(t, s.last()), s.last());
        assert(s =~= s.drop_last().push(s.last()));
        to_multiset_build(s.drop_last(), s.last());
    }
}

/// Every sorted row is one of the rows given.
pub proof fn lemma_sort_rows_member<V>(s: Seq<RowView<V>>, i: int)
    requires
        0 <= i < sort_rows(s).len(),
    ensures
        exists|k: int| 0 <= k < s.len() && s[k] == sort_rows(s)[i],
{
    lemma_sort_rows_permutes(s);
    let x = sort_rows(s)[i];
    to_multiset_contains(sort_rows(s), x);
    assert(sort_rows(s).contains(x));
    to_multiset_contains(s, x);
}

/// The position at which `row` is inserted into the sorted rows `out`.
fn find_insert_pos<V>(out: &Vec<SummaryRow<V>>, row: &SummaryRow<V>) -> (p: usize)
    ensures
        p == insert_pos(row_views(out@), row@),
{
    let ghost v = row_views(out@);
    let mut j: usize = 0;
    assert(v.skip(0) =~= v);
    while j < out.len() && text_le_exec(out[j].label.as_str(), row.label.as_str())
        invariant
            v == row_views(out@),
            j <= out@.len(),
            insert_pos(v, row@) == j + insert_pos(v.skip(j as int), row@),
        decreases out@.len() - j,
    {
        assert(v.skip(j as int).drop_first() =~= v.skip(j + 1));
        assert(v.skip(j as int)[0] == out@[j as int]@);
        j = j + 1;
    }
    if j < out.len() {
        assert(v.skip(j as int)[0] == out@[j as int]@);
    }
    j
}

/// Sorts rows by label, ascending and stable.
pub fn sort_by_label<V>(rows: Vec<SummaryRow<V>>) -> (r: Vec<SummaryRow<V>>)
    ensures
        row_views(r@) == sort_rows(row_views(rows@)),
{
    let ghost all = row_views(rows@);
    let n: usize = rows.len();
    let mut input = rows;
    let mut out: Vec<SummaryRow<V>> = Vec::new();
    let mut done: usize = 0;
    assert(all.subrange(0, 0) =~= Seq::<RowView<V>>::empty());
    assert(row_views(input@) =~= all.subrange(0, n as int));
    while input.len() > 0
        invariant
            n == all.len(),
            done <= n,
            input@.len() == n - done,
            row_views(input@) =~= all.subrange(done as int, n as int),
            row_views(out@) == sort_rows(all.subrange(0, done as int)),
        decreases n - done,
    {
        let ghost before = input@;
        let row = input.remove(0);
        assert(row@ == row_views(before)[0]);
        assert(row@ == all[done as int]);
        let p = find_insert_pos(&out, &row);
        proof {
            lemma_insert_pos(row_views(out@), row@);
        }
        out.insert(p, row);
        proof {
            let pre = all.subrange(0, done as int);
            let post = all.subrange(0, done + 1);
            assert(post.drop_last() =~= pre);
            assert(post.last() == row@);
            assert(row_views(out@) =~= sort_rows(pre).insert(p as int, row@));
        }
        done = done + 1;
        assert(row_views(input@) =~= row_views(before).drop_first());
    }
    assert(all.subrange(0, n as int) =~= all);
    out
}

} // verus!
