//! The statistic catalog: which statistics are computed, in which order,
//! under which label, over which columns and with which aggregate.

use vstd::prelude::*;
use crate::schema::{ColumnType, DataType, Field, spec_classify};
use crate::text::{decimal, spec_decimal};

verus! {

/// One statistic of the summary.
#[derive(Clone, Copy, Debug, PartialEq, Eq, Structural)]
pub enum DescribeMethod {
    /// The number of non-null values.
    Total,
    /// The number of null values.
    NullTotal,
    Mean,
    Stddev,
    Min,
    Max,
    Median,
    /// An approximate percentile, given in percent.
    Percentile(u8),
}

/// The aggregate that the execution engine evaluates for one column.
#[derive(Clone, Copy, Debug, PartialEq, Eq, Structural)]
pub enum Aggregate {
    /// Count of non-null values.
    Count,
    /// Sum over the rows of 1 where the value is null and 0 elsewhere.
    NullCount,
    Avg,
    Stddev,
    Min,
    Max,
    Median,
    /// Approximate continuous percentile at `p / 100`, computed with
    /// `PERCENTILE_CENTROIDS` centroids.
    ApproxPercentile(u8),
}

/// The accuracy parameter of the approximate percentile aggregate.
pub const PERCENTILE_CENTROIDS: u64 = 100;

/// The statistics, in the order in which they are computed.
pub open spec fn spec_catalog() -> Seq<DescribeMethod> {
    seq![
        DescribeMethod::Total,
        DescribeMethod::NullTotal,
        DescribeMethod::Mean,
        DescribeMethod::Stddev,
        DescribeMethod::Min,
        DescribeMethod::Max,
        DescribeMethod::Median,
        DescribeMethod::Percentile(50),
        DescribeMethod::Percentile(75),
        DescribeMethod::Percentile(90),
        DescribeMethod::Percentile(95),
        DescribeMethod::Percentile(99),
    ]
}

pub open spec fn spec_label(m: DescribeMethod) -> Seq<char> {
    match m {
        DescribeMethod::Total => "total"@,
        DescribeMethod::NullTotal => "null_total"@,
        DescribeMethod::Mean => "mean"@,
        DescribeMethod::Stddev => "stddev"@,
        DescribeMethod::Min => "min"@,
        DescribeMethod::Max => "max"@,
        DescribeMethod::Median => "median"@,
        DescribeMethod::Percentile(p) => "percentile_"@ + spec_decimal(p as nat),
    }
}

/// Counts, null counts and percentiles apply to every column; mean, standard
/// deviation and median to numeric columns; minimum and maximum to every
/// column but Boolean and Binary ones.
pub open spec fn spec_applies(m: DescribeMethod, t: DataType) -> bool {
    match m {
        DescribeMethod::Mean | DescribeMethod::Stddev | DescribeMethod::Median => spec_classify(t)
            == ColumnType::Numeric,
        DescribeMethod::Min | DescribeMethod::Max => !(t == DataType::Boolean || t
            == DataType::Binary),
        _ => true,
    }
}

pub open spec fn spec_aggregate(m: DescribeMethod) -> Aggregate {
    match m {
        DescribeMethod::Total => Aggregate::Count,
        DescribeMethod::NullTotal => Aggregate::NullCount,
        DescribeMethod::Mean => Aggregate::Avg,
        DescribeMethod::Stddev => Aggregate::Stddev,
        DescribeMethod::Min => Aggregate::Min,
        DescribeMethod::Max => Aggregate::Max,
        DescribeMethod::Median => Aggregate::Median,
        DescribeMethod::Percentile(p) => Aggregate::ApproxPercentile(p),
    }
}

/// The indices, in ascending order, of the columns among the first `n` to
/// which `m` applies.
pub open spec fn applicable_columns(m: DescribeMethod, fields: Seq<Field>, n: int) -> Seq<int>
    decreases n,
{
    if n <= 0 {
        Seq::empty()
    } else {
        let before = applicable_columns(m, fields, n - 1);
        if spec_applies(m, fields[n - 1].data_type) {
            before.push(n - 1)
        } else {
            before
        }
    }
}

/// How many columns before column `j` the statistic `m` applies to: the
/// position of column `j`'s value in the engine's answer.
pub open spec fn rank(m: DescribeMethod, fields: Seq<Field>, j: int) -> int {
    applicable_columns(m, fields, j).len() as int
}

pub proof fn lemma_rank_monotonic(m: DescribeMethod, fields: Seq<Field>, j: int, n: int)
    requires
        0 <= j <= n,
    ensures
        rank(m, fields, j) <= rank(m, fields, n),
    decreases n - j,
{
    if j < n {
        lemma_rank_monotonic(m, fields, j, n - 1);
    }
}

/// The columns listed for `m` are those it applies to, and the `rank` of an
/// applicable column is its position in the list.
pub proof fn lemma_applicable_columns(m: DescribeMethod, fields: Seq<Field>, n: int)
    requires
        0 <= n,
    ensures
        forall|i: int|
            0 <= i < applicable_columns(m, fields, n).len() ==> {
                let c = #[trigger] applicable_columns(m, fields, n)[i];
                &&& 0 <= c < n
                &&& spec_applies(m, fields[c].data_type)
                &&& rank(m, fields, c) == i
            },
    decreases n,
{
    if n > 0 {
        lemma_applicable_columns(m, fields, n - 1);
    }
}

impl DescribeMethod {
    /// The text in the `describe` column of this statistic's row.
    pub fn label(&self) -> (r: String)
        ensures
            r@ == spec_label(*self),
    {
        match self {
            DescribeMethod::Total => String::from_str("total"),
            DescribeMethod::NullTotal => String::from_str("null_total"),
            DescribeMethod::Mean => String::from_str("mean"),
            DescribeMethod::Stddev => String::from_str("stddev"),
            DescribeMethod::Min => String::from_str("min"),
            DescribeMethod::Max => String::from_str("max"),
            DescribeMethod::Median => String::from_str("median"),
            DescribeMethod::Percentile(p) => {
                let mut s = String::from_str("percentile_");
                let digits = decimal(*p as u64);
                s.append(digits.as_str());
                s
            },
        }
    }

    pub fn applies_to(&self, t: DataType) -> (r: bool)
        ensures
            r == spec_applies(*self, t),
    {
        match self {
            DescribeMethod::Mean | DescribeMethod::Stddev | DescribeMethod::Median => {
                match t.classify() {
                    ColumnType::Numeric => true,
                    _ => false,
                }
            },
            DescribeMethod::Min | DescribeMethod::Max => !t.is_bool_or_binary(),
            _ => true,
        }
    }

    pub fn aggregate(&self) -> (r: Aggregate)
        ensures
            r == spec_aggregate(*self),
    {
        match self {
            DescribeMethod::Total => Aggregate::Count,
            DescribeMethod::NullTotal => Aggregate::NullCount,
            DescribeMethod::Mean => Aggregate::Avg,
            DescribeMethod::Stddev => Aggregate::Stddev,
            DescribeMethod::Min => Aggregate::Min,
            DescribeMethod::Max => Aggregate::Max,
            DescribeMethod::Median => Aggregate::Median,
            DescribeMethod::Percentile(p) => Aggregate::ApproxPercentile(*p),
        }
    }
}

/// The statistics, in the order in which they are computed.
pub fn catalog() -> (r: Vec<DescribeMethod>)
    ensures
        r@ == spec_catalog(),
{
    let mut v: Vec<DescribeMethod> = Vec::new();
    v.push(DescribeMethod::Total);
    v.push(DescribeMethod::NullTotal);
    v.push(DescribeMethod::Mean);
    v.push(DescribeMethod::Stddev);
    v.push(DescribeMethod::Min);
    v.push(DescribeMethod::Max);
    v.push(DescribeMethod::Median);
    v.push(DescribeMethod::Percentile(50));
    v.push(DescribeMethod::Percentile(75));
    v.push(DescribeMethod::Percentile(90));
    v.push(DescribeMethod::Percentile(95));
    v.push(DescribeMethod::Percentile(99));
    assert(v@ =~= spec_catalog());
    v
}

/// One aggregate expression of a statistic's query: `func` over the
/// normalized column `column`, aliased as `name`.
#[derive(Clone, Debug)]
pub struct AggregateExpr {
    pub column: usize,
    pub name: String,
    pub func: Aggregate,
}

/// The single-row aggregate query of one statistic, with no grouping. An
/// empty list of expressions means that the statistic applies to no column:
/// such a query is not submitted.
#[derive(Clone, Debug)]
pub struct AggregateQuery {
    pub method: DescribeMethod,
    pub exprs: Vec<AggregateExpr>,
}

/// `q` is the query of statistic `m` over `fields`: one expression per
/// applicable column, in column order.
pub open spec fn is_query_of(q: AggregateQuery, m: DescribeMethod, fields: Seq<Field>) -> bool {
    let cols = applicable_columns(m, fields, fields.len() as int);
    &&& q.method == m
    &&& q.exprs@.len() == cols.len()
    &&& forall|i: int|
        0 <= i < cols.len() ==> {
            let e = #[trigger] q.exprs@[i];
            &&& e.column == cols[i]
            &&& e.name@ == fields[cols[i]].name@
            &&& e.func == spec_aggregate(m)
        }
}

/// Builds the aggregate query of statistic `m` over the normalized columns.
pub fn aggregate_query(m: DescribeMethod, fields: &Vec<Field>) -> (q: AggregateQuery)
    ensures
        is_query_of(q, m, fields@),
{
    let mut exprs: Vec<AggregateExpr> = Vec::new();
    let func = m.aggregate();
    let mut j: usize = 0;
    while j < fields.len()
        invariant
            j <= fields@.len(),
            func == spec_aggregate(m),
            exprs@.len() == applicable_columns(m, fields@, j as int).len(),
            forall|i: int|
                0 <= i < exprs@.len() ==> {
                    let e = #[trigger] exprs@[i];
                    let c = applicable_columns(m, fields@, j as int)[i];
                    &&& e.column == c
                    &&& e.name@ == fields@[c].name@
                    &&& e.func == func
                },
        decreases fields@.len() - j,
    {
        if m.applies_to(fields[j].data_type) {
            let name = fields[j].name.clone();
            exprs.push(AggregateExpr { column: j, name, func });
        }
        j = j + 1;
    }
    AggregateQuery { method: m, exprs }
}

} // verus!
