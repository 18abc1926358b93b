//! The describe engine: plans one aggregate query per statistic over the
//! normalized columns, interprets the execution engine's answers and
//! assembles them into a summary table sorted by label.
//!
//! The execution engine itself is outside this crate. A caller submits each
//! non-empty query of `DataFrameDescriber::queries` and hands every answer
//! back to `DataFrameDescriber::describe`, in catalog order.

use vstd::prelude::*;
use crate::method::{
    AggregateQuery, DescribeMethod, aggregate_query, applicable_columns, catalog,
    is_query_of, lemma_applicable_columns, lemma_rank_monotonic, rank, spec_applies,
    spec_catalog, spec_label,
};
use crate::schema::{
    ColumnType, DataType, Field, Normalization, spec_classify, spec_display_cast,
    spec_normalization,
};
use crate::summary::{
    Cell, RowView, SummaryColumn, SummaryRow, SummaryTable, lemma_sort_rows_member,
    lemma_sort_rows_permutes, lemma_sort_rows_sorted, row_views, sort_by_label, sort_rows,
    sorted_by_label,
};
use crate::text::{contains, spec_contains, str_eq};

verus! {

/// What the execution engine answered to one statistic's query.
#[derive(Debug)]
pub enum EngineReply<V> {
    /// The query was not submitted because it lists no expression.
    NotSubmitted,
    /// The single result row: one value per expression of the query, in order.
    Row(Vec<V>),
    /// The engine's error message.
    Failed(String),
}

/// Why a describe call failed.
#[derive(Debug)]
pub enum DescribeError {
    /// Two columns share this name, so the columns cannot be normalized
    /// under their own names.
    DuplicateColumn(String),
    /// The execution engine failed with this message.
    Engine(String),
}

/// One column of the normalized relation: the dataset's column `column`,
/// rewritten by `normalization` and named as before.
#[derive(Clone, Debug)]
pub struct NormalizedColumn {
    pub column: usize,
    pub name: String,
    pub normalization: Normalization,
}

/// The part of the engine's planning error that marks an aggregate query
/// with no expression.
pub open spec fn empty_aggregate_text() -> Seq<char> {
    "Aggregate requires at least one grouping or aggregate expression"@
}

/// An engine error that only says that the query had no expression.
pub open spec fn is_tolerated(msg: Seq<char>) -> bool {
    spec_contains(msg, empty_aggregate_text())
}

pub open spec fn is_fatal<V>(r: EngineReply<V>) -> bool {
    r matches EngineReply::Failed(msg) && !is_tolerated(msg@)
}

pub open spec fn failure_text<V>(r: EngineReply<V>) -> Seq<char> {
    match r {
        EngineReply::Failed(msg) => msg@,
        _ => Seq::empty(),
    }
}

/// `k` is the first reply, in catalog order, that fails the whole call.
pub open spec fn first_fatal<V>(replies: Seq<EngineReply<V>>, k: int) -> bool {
    &&& 0 <= k < replies.len()
    &&& is_fatal(replies[k])
    &&& forall|i: int| 0 <= i < k ==> !is_fatal(#[trigger] replies[i])
}

pub open spec fn names_distinct(fields: Seq<Field>) -> bool {
    forall|i: int, j: int|
        0 <= i < j < fields.len() ==> #[trigger] fields[i].name@ != #[trigger] fields[j].name@
}

/// Each reply belongs to the query of its statistic: an unsubmitted query
/// is empty, and a result row has one value per expression.
pub open spec fn replies_fit<V>(fields: Seq<Field>, replies: Seq<EngineReply<V>>) -> bool {
    &&& replies.len() == spec_catalog().len()
    &&& forall|k: int|
        0 <= k < replies.len() ==> {
            let n = applicable_columns(spec_catalog()[k], fields, fields.len() as int).len();
            match #[trigger] replies[k] {
                EngineReply::NotSubmitted => n == 0,
                EngineReply::Row(vals) => vals@.len() == n,
                EngineReply::Failed(_) => true,
            }
        }
}

/// The cell of statistic `m` for column `j`: the engine's value where `m`
/// applies and a row came back, `NotApplicable` otherwise.
pub open spec fn expected_cell<V>(
    m: DescribeMethod,
    fields: Seq<Field>,
    reply: EngineReply<V>,
    j: int,
) -> Cell<V> {
    match reply {
        EngineReply::Row(vals) => if spec_applies(m, fields[j].data_type) {
            Cell::Value(vals@[rank(m, fields, j)])
        } else {
            Cell::NotApplicable
        },
        _ => Cell::NotApplicable,
    }
}

pub open spec fn expected_row<V>(
    m: DescribeMethod,
    fields: Seq<Field>,
    reply: EngineReply<V>,
) -> RowView<V> {
    RowView {
        method: m,
        label: spec_label(m),
        cells: Seq::new(fields.len(), |j: int| expected_cell(m, fields, reply, j)),
    }
}

/// The rows in catalog order, before sorting.
pub open spec fn catalog_rows<V>(fields: Seq<Field>, replies: Seq<EngineReply<V>>) -> Seq<
    RowView<V>,
> {
    Seq::new(
        spec_catalog().len(),
        |k: int| expected_row(spec_catalog()[k], fields, replies[k]),
    )
}

/// The rows of the summary table.
pub open spec fn summary_rows<V>(fields: Seq<Field>, replies: Seq<EngineReply<V>>) -> Seq<
    RowView<V>,
> {
    sort_rows(catalog_rows(fields, replies))
}

/// The summary's columns are the dataset's, in order, each with the display
/// cast of its type.
pub open spec fn columns_match(columns: Seq<SummaryColumn>, fields: Seq<Field>) -> bool {
    &&& columns.len() == fields.len()
    &&& forall|j: int|
        0 <= j < fields.len() ==> {
            &&& #[trigger] columns[j].name@ == fields[j].name@
            &&& columns[j].display == spec_display_cast(spec_classify(fields[j].data_type))
        }
}

/// Boolean and Binary columns have no minimum or maximum.
pub open spec fn min_max_skip_bool_binary<V>(fields: Seq<Field>, rows: Seq<RowView<V>>) -> bool {
    forall|i: int, j: int|
        0 <= i < rows.len() && 0 <= j < fields.len() && (rows[i].method == DescribeMethod::Min
            || rows[i].method == DescribeMethod::Max) && (fields[j].data_type == DataType::Boolean
            || fields[j].data_type == DataType::Binary) ==> #[trigger] rows[i].cells[j]
            is NotApplicable
}

/// Columns that are not numeric have no mean, standard deviation or median.
pub open spec fn moments_skip_non_numeric<V>(fields: Seq<Field>, rows: Seq<RowView<V>>) -> bool {
    forall|i: int, j: int|
        0 <= i < rows.len() && 0 <= j < fields.len() && (rows[i].method == DescribeMethod::Mean
            || rows[i].method == DescribeMethod::Stddev || rows[i].method
            == DescribeMethod::Median) && spec_classify(fields[j].data_type)
            != ColumnType::Numeric ==> #[trigger] rows[i].cells[j] is NotApplicable
}

/// Whether an engine error message is the planning error for an aggregate
/// query without expressions. This is the one place that knows the text.
pub fn is_empty_aggregate_error(msg: &str) -> (r: bool)
    ensures
        r == is_tolerated(msg@),
{
    contains(msg, "Aggregate requires at least one grouping or aggregate expression")
}

fn not_applicable_cells<V>(n: usize) -> (r: Vec<Cell<V>>)
    ensures
        r@.len() == n,
        forall|j: int| 0 <= j < n ==> #[trigger] r@[j] is NotApplicable,
{
    let mut cells: Vec<Cell<V>> = Vec::new();
    let mut j: usize = 0;
    while j < n
        invariant
            j <= n,
            cells@.len() == j,
            forall|i: int| 0 <= i < j ==> #[trigger] cells@[i] is NotApplicable,
        decreases n - j,
    {
        cells.push(Cell::NotApplicable);
        j = j + 1;
    }
    cells
}

/// Places the values of statistic `m`'s result row under their columns.
fn place_cells<V>(fields: &Vec<Field>, m: DescribeMethod, vals: Vec<V>) -> (r: Vec<Cell<V>>)
    requires
        vals@.len() == applicable_columns(m, fields@, fields@.len() as int).len(),
    ensures
        r@.len() == fields@.len(),
        forall|j: int|
            0 <= j < fields@.len() ==> #[trigger] r@[j] == expected_cell(
                m,
                fields@,
                EngineReply::Row(vals),
                j,
            ),
{
    let ghost all = vals@;
    let ghost n = fields@.len() as int;
    let mut rest = vals;
    let mut cells: Vec<Cell<V>> = Vec::new();
    let mut j: usize = 0;
    assert(all.subrange(0, all.len() as int) =~= all);
    while j < fields.len()
        invariant
            n == fields@.len(),
            all.len() == rank(m, fields@, n),
            j <= n,
            rank(m, fields@, j as int) <= all.len(),
            rest@ =~= all.subrange(rank(m, fields@, j as int), all.len() as int),
            cells@.len() == j,
            forall|i: int|
                0 <= i < j ==> #[trigger] cells@[i] == if spec_applies(m, fields@[i].data_type) {
                    Cell::Value(all[rank(m, fields@, i)])
                } else {
                    Cell::NotApplicable
                },
        decreases n - j,
    {
        proof {
            lemma_rank_monotonic(m, fields@, j + 1, n);
        }
        if m.applies_to(fields[j].data_type) {
            let v = rest.remove(0);
            cells.push(Cell::Value(v));
        } else {
            cells.push(Cell::NotApplicable);
        }
        j = j + 1;
    }
    cells
}

/// Describing an unmodified dataset twice gives the same summary. Two query
/// plans for the same columns ask for the same aggregates of the same columns
/// under the same names; two column lists for the same columns agree; and
/// two row lists assembled from the same answers are the same.
pub proof fn lemma_describe_idempotent<V>(
    fields: Seq<Field>,
    q1: Seq<AggregateQuery>,
    q2: Seq<AggregateQuery>,
    c1: Seq<SummaryColumn>,
    c2: Seq<SummaryColumn>,
    replies: Seq<EngineReply<V>>,
    rows1: Seq<RowView<V>>,
    rows2: Seq<RowView<V>>,
)
    requires
        q1.len() == spec_catalog().len(),
        q2.len() == spec_catalog().len(),
        forall|k: int| 0 <= k < q1.len() ==> is_query_of(#[trigger] q1[k], spec_catalog()[k], fields),
        forall|k: int| 0 <= k < q2.len() ==> is_query_of(#[trigger] q2[k], spec_catalog()[k], fields),
        columns_match(c1, fields),
        columns_match(c2, fields),
        rows1 == summary_rows(fields, replies),
        rows2 == summary_rows(fields, replies),
    ensures
        forall|k: int|
            0 <= k < q1.len() ==> {
                &&& (#[trigger] q1[k]).method == q2[k].method
                &&& q1[k].exprs@.len() == q2[k].exprs@.len()
                &&& forall|i: int|
                    0 <= i < q1[k].exprs@.len() ==> {
                        &&& (#[trigger] q1[k].exprs@[i]).column == q2[k].exprs@[i].column
                        &&& q1[k].exprs@[i].name@ == q2[k].exprs@[i].name@
                        &&& q1[k].exprs@[i].func == q2[k].exprs@[i].func
                    }
            },
        c1.len() == c2.len(),
        forall|j: int|
            0 <= j < c1.len() ==> (#[trigger] c1[j]).name@ == c2[j].name@ && c1[j].display
                == c2[j].display,
        rows1 == rows2,
{
    assert forall|k: int| 0 <= k < q1.len() implies {
        &&& (#[trigger] q1[k]).method == q2[k].method
        &&& q1[k].exprs@.len() == q2[k].exprs@.len()
        &&& forall|i: int|
            0 <= i < q1[k].exprs@.len() ==> {
                &&& (#[trigger] q1[k].exprs@[i]).column == q2[k].exprs@[i].column
                &&& q1[k].exprs@[i].name@ == q2[k].exprs@[i].name@
                &&& q1[k].exprs@[i].func == q2[k].exprs@[i].func
            }
    } by {
        assert(is_query_of(q1[k], spec_catalog()[k], fields));
        assert(is_query_of(q2[k], spec_catalog()[k], fields));
        assert forall|i: int| 0 <= i < q1[k].exprs@.len() implies {
            &&& (#[trigger] q1[k].exprs@[i]).column == q2[k].exprs@[i].column
            &&& q1[k].exprs@[i].name@ == q2[k].exprs@[i].name@
            &&& q1[k].exprs@[i].func == q2[k].exprs@[i].func
        } by {
            assert(q2[k].exprs@[i] == q2[k].exprs@[i]);
        }
    }
    assert forall|j: int| 0 <= j < c1.len() implies (#[trigger] c1[j]).name@ == c2[j].name@
        && c1[j].display == c2[j].display by {
        assert(c1[j].name@ == fields[j].name@);
        assert(c2[j].name@ == fields[j].name@);
    }
}

/// The count rows cover every column: the queries of `Total` and
/// `NullTotal` ask for the non-null count and the null count of each column,
/// in column order, and each column's cell holds the engine's answer for it.
pub proof fn lemma_counts_cover_every_column<V>(
    m: DescribeMethod,
    fields: Seq<Field>,
    vals: Vec<V>,
    j: int,
)
    requires
        m == DescribeMethod::Total || m == DescribeMethod::NullTotal,
        0 <= j < fields.len(),
    ensures
        applicable_columns(m, fields, fields.len() as int).len() == fields.len(),
        applicable_columns(m, fields, fields.len() as int)[j] == j,
        expected_cell(m, fields, EngineReply::Row(vals), j) == Cell::Value(vals@[j]),
{
    lemma_every_column_applies(m, fields, fields.len() as int);
    lemma_every_column_applies(m, fields, j);
}

proof fn lemma_every_column_applies(m: DescribeMethod, fields: Seq<Field>, n: int)
    requires
        m == DescribeMethod::Total || m == DescribeMethod::NullTotal,
        0 <= n <= fields.len(),
    ensures
        applicable_columns(m, fields, n) == Seq::new(n as nat, |i: int| i),
    decreases n,
{
    if n > 0 {
        lemma_every_column_applies(m, fields, n - 1);
        assert(applicable_columns(m, fields, n) =~= Seq::new(n as nat, |i: int| i));
    } else {
        assert(applicable_columns(m, fields, n) =~= Seq::new(n as nat, |i: int| i));
    }
}

/// The engine's answer to a statistic's query lands under the right columns:
/// the value of the query's `i`-th expression fills the cell of the column
/// that the expression reads.
pub proof fn lemma_answer_lands_under_its_column<V>(
    m: DescribeMethod,
    fields: Seq<Field>,
    vals: Vec<V>,
    i: int,
)
    requires
        vals@.len() == applicable_columns(m, fields, fields.len() as int).len(),
        0 <= i < vals@.len(),
    ensures
        expected_cell(
            m,
            fields,
            EngineReply::Row(vals),
            applicable_columns(m, fields, fields.len() as int)[i],
        ) == Cell::Value(vals@[i]),
{
    lemma_applicable_columns(m, fields, fields.len() as int);
}

pub struct DataFrameDescriber {
    fields: Vec<Field>,
    methods: Vec<DescribeMethod>,
}

impl View for DataFrameDescriber {
    type V = Seq<Field>;

    /// The dataset's columns.
    closed spec fn view(&self) -> Seq<Field> {
        self.fields@
    }
}

impl DataFrameDescriber {
    #[verifier::type_invariant]
    spec fn inv(self) -> bool {
        &&& self.methods@ == spec_catalog()
        &&& names_distinct(self.fields@)
    }

    /// Takes the dataset's columns. Fails on a column name that an earlier
    /// column already has, naming the first such column.
    pub fn try_new(fields: Vec<Field>) -> (r: Result<DataFrameDescriber, DescribeError>)
        ensures
            match r {
                Ok(d) => d@ == fields@ && names_distinct(fields@),
                Err(e) => exists|i: int, j: int|
                    {
                        &&& 0 <= i < j < fields@.len()
                        &&& fields@[i].name@ == fields@[j].name@
                        &&& names_distinct(fields@.subrange(0, j))
                        &&& (e matches DescribeError::DuplicateColumn(name) && name@
                            == fields@[j].name@)
                    },
            },
    {
        let mut j: usize = 0;
        while j < fields.len()
            invariant
                j <= fields@.len(),
                names_distinct(fields@.subrange(0, j as int)),
            decreases fields@.len() - j,
        {
            let mut i: usize = 0;
            while i < j
                invariant
                    i <= j < fields@.len(),
                    names_distinct(fields@.subrange(0, j as int)),
                    forall|k: int| 0 <= k < i ==> fields@[k].name@ != fields@[j as int].name@,
                decreases j - i,
            {
                if str_eq(fields[i].name.as_str(), fields[j].name.as_str()) {
                    let name = fields[j].name.clone();
                    assert(fields@[i as int].name@ == fields@[j as int].name@);
                    return Err(DescribeError::DuplicateColumn(name));
                }
                i = i + 1;
            }
            proof {
                let pre = fields@.subrange(0, j as int);
                let post = fields@.subrange(0, j + 1);
                assert forall|a: int, b: int| 0 <= a < b < post.len() implies #[trigger] post[a].name@
                    != #[trigger] post[b].name@ by {
                    if b < j {
                        assert(post[a] == pre[a] && post[b] == pre[b]);
                    }
                }
            }
            j = j + 1;
        }
        assert(fields@.subrange(0, fields@.len() as int) =~= fields@);
        Ok(DataFrameDescriber { fields, methods: catalog() })
    }

    /// The projection that normalizes every column, in column order.
    pub fn normalized_columns(&self) -> (r: Vec<NormalizedColumn>)
        ensures
            r@.len() == self@.len(),
            forall|j: int|
                0 <= j < self@.len() ==> {
                    &&& (#[trigger] r@[j]).column == j
                    &&& r@[j].name@ == self@[j].name@
                    &&& r@[j].normalization == spec_normalization(
                        spec_classify(self@[j].data_type),
                    )
                },
    {
        let mut out: Vec<NormalizedColumn> = Vec::new();
        let mut j: usize = 0;
        while j < self.fields.len()
            invariant
                j <= self.fields@.len(),
                out@.len() == j,
                forall|i: int|
                    0 <= i < j ==> {
                        &&& (#[trigger] out@[i]).column == i
                        &&& out@[i].name@ == self.fields@[i].name@
                        &&& out@[i].normalization == spec_normalization(
                            spec_classify(self.fields@[i].data_type),
                        )
                    },
            decreases self.fields@.len() - j,
        {
            let field = &self.fields[j];
            out.push(
                NormalizedColumn {
                    column: j,
                    name: field.name.clone(),
                    normalization: field.data_type.classify().normalization(),
                },
            );
            j = j + 1;
        }
        out
    }

    /// One aggregate query per statistic, in catalog order.
    pub fn queries(&self) -> (r: Vec<AggregateQuery>)
        ensures
            r@.len() == spec_catalog().len(),
            forall|k: int|
                0 <= k < r@.len() ==> is_query_of(#[trigger] r@[k], spec_catalog()[k], self@),
    {
        proof {
            use_type_invariant(self);
        }
        let mut out: Vec<AggregateQuery> = Vec::new();
        let mut k: usize = 0;
        while k < self.methods.len()
            invariant
                self.methods@ == spec_catalog(),
                k <= self.methods@.len(),
                out@.len() == k,
                forall|i: int|
                    0 <= i < k ==> is_query_of(#[trigger] out@[i], spec_catalog()[i], self.fields@),
            decreases self.methods@.len() - k,
        {
            out.push(aggregate_query(self.methods[k], &self.fields));
            k = k + 1;
        }
        out
    }

    /// The rows in catalog order, each labelled, or the first fatal engine
    /// error.
    fn do_describe<V>(&self, replies: Vec<EngineReply<V>>) -> (r: Result<
        Vec<SummaryRow<V>>,
        DescribeError,
    >)
        requires
            replies_fit(self@, replies@),
        ensures
            match r {
                Ok(rows) => {
                    &&& forall|k: int| 0 <= k < replies@.len() ==> !is_fatal(#[trigger] replies@[k])
                    &&& row_views(rows@) == catalog_rows(self@, replies@)
                },
                Err(e) => exists|k: int|
                    first_fatal(replies@, k) && (e matches DescribeError::Engine(msg) && msg@
                        == failure_text(replies@[k])),
            },
    {
        proof {
            use_type_invariant(self);
        }
        let ghost all = replies@;
        let ghost n = self.fields@.len() as int;
        let mut rest = replies;
        let mut rows: Vec<SummaryRow<V>> = Vec::new();
        let mut k: usize = 0;
        assert(all.subrange(0, all.len() as int) =~= all);
        while k < self.methods.len()
            invariant
                self.methods@ == spec_catalog(),
                all == replies@,
                replies_fit(self.fields@, all),
                n == self.fields@.len(),
                k <= spec_catalog().len(),
                rest@ =~= all.subrange(k as int, all.len() as int),
                forall|i: int| 0 <= i < k ==> !is_fatal(#[trigger] all[i]),
                row_views(rows@) =~= catalog_rows(self.fields@, all).subrange(0, k as int),
            decreases spec_catalog().len() - k,
        {
            let m = self.methods[k];
            let reply = rest.remove(0);
            assert(reply == all[k as int]);
            let ghost reply_copy = all[k as int];
            let cells = match reply {
                EngineReply::Failed(msg) => {
                    if !is_empty_aggregate_error(msg.as_str()) {
                        assert(first_fatal(all, k as int));
                        assert(msg@ == failure_text(all[k as int]));
                        return Err(DescribeError::Engine(msg));
                    }
                    not_applicable_cells(self.fields.len())
                },
                EngineReply::NotSubmitted => not_applicable_cells(self.fields.len()),
                EngineReply::Row(vals) => place_cells(&self.fields, m, vals),
            };
            let row = SummaryRow { method: m, label: m.label(), cells };
            assert(row@.cells =~= expected_row(m, self.fields@, reply_copy).cells);
            assert(row@ == catalog_rows(self.fields@, all)[k as int]);
            let ghost before = rows@;
            rows.push(row);
            assert(row_views(rows@) =~= row_views(before).push(row@));
            assert(catalog_rows(self.fields@, all).subrange(0, k + 1) =~= catalog_rows(
                self.fields@,
                all,
            ).subrange(0, k as int).push(row@));
            k = k + 1;
        }
        Ok(rows)
    }

    /// The summary's columns, one per dataset column with its display cast.
    fn summary_columns(&self) -> (r: Vec<SummaryColumn>)
        ensures
            columns_match(r@, self@),
    {
        let mut out: Vec<SummaryColumn> = Vec::new();
        let mut j: usize = 0;
        while j < self.fields.len()
            invariant
                j <= self.fields@.len(),
                out@.len() == j,
                forall|i: int|
                    0 <= i < j ==> {
                        &&& (#[trigger] out@[i]).name@ == self.fields@[i].name@
                        &&& out@[i].display == spec_display_cast(
                            spec_classify(self.fields@[i].data_type),
                        )
                    },
            decreases self.fields@.len() - j,
        {
            let field = &self.fields[j];
            out.push(
                SummaryColumn {
                    name: field.name.clone(),
                    display: field.data_type.classify().display_cast(),
                },
            );
            j = j + 1;
        }
        out
    }

    /// Assembles the summary table from the engine's answers, given in
    /// catalog order. A planning error for an empty aggregate, like an
    /// unsubmitted query, leaves the statistic's cells `NotApplicable`; any
    /// other engine error fails the whole call.
    pub fn describe<V>(&self, replies: Vec<EngineReply<V>>) -> (r: Result<
        SummaryTable<V>,
        DescribeError,
    >)
        requires
            replies_fit(self@, replies@),
        ensures
            match r {
                Ok(t) => {
                    &&& forall|k: int| 0 <= k < replies@.len() ==> !is_fatal(#[trigger] replies@[k])
                    &&& columns_match(t.columns@, self@)
                    &&& row_views(t.rows@) == summary_rows(self@, replies@)
                    &&& t.rows@.len() == spec_catalog().len()
                    &&& sorted_by_label(row_views(t.rows@))
                    &&& forall|i: int|
                        0 <= i < t.rows@.len() ==> {
                            &&& (#[trigger] t.rows@[i]).label@ == spec_label(t.rows@[i].method)
                            &&& t.rows@[i].cells@.len() == self@.len()
                        }
                    &&& min_max_skip_bool_binary(self@, row_views(t.rows@))
                    &&& moments_skip_non_numeric(self@, row_views(t.rows@))
                },
                Err(e) => exists|k: int|
                    first_fatal(replies@, k) && (e matches DescribeError::Engine(msg) && msg@
                        == failure_text(replies@[k])),
            },
    {
        let rows = match self.do_describe(replies) {
            Ok(rows) => rows,
            Err(e) => return Err(e),
        };
        let columns = self.summary_columns();
        let sorted = sort_by_label(rows);
        proof {
            let fields = self@;
            let cr = catalog_rows(fields, replies@);
            let sr = row_views(sorted@);
            lemma_sort_rows_permutes(cr);
            lemma_sort_rows_sorted(cr);
            assert forall|i: int| 0 <= i < sr.len() implies exists|k: int|
                0 <= k < cr.len() && cr[k] == #[trigger] sr[i] by {
                lemma_sort_rows_member(cr, i);
            }
            assert forall|i: int| 0 <= i < sorted@.len() implies {
                &&& (#[trigger] sorted@[i]).label@ == spec_label(sorted@[i].method)
                &&& sorted@[i].cells@.len() == fields.len()
            } by {
                assert(sr[i] == sorted@[i]@);
            }
        }
        Ok(SummaryTable { columns, rows: sorted })
    }
}

} // verus!
