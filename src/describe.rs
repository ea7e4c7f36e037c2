//! The statistics engine: which aggregations each statistic issues, how their
//! one-row results are assembled into one table, and how that table is cast
//! back and ordered for presentation.
use vstd::prelude::*;
use vstd::string::StringExecFns;

use crate::order::{lemma_lex_refl, lemma_lex_total, lemma_lex_trans, lex_le, name_le};
use crate::schema::{
    cast_back_of, cast_back_rule, is_projection_of, transform, value_type, value_type_of, CastBack,
    ColumnDescriptor, ProjectionItem, ValueType,
};

verus! {

/// A statistic of the describe result.
#[derive(Debug, Clone, Copy, PartialEq, Eq, Structural)]
pub enum DescribeMethod {
    Count,
    NullCount,
    Mean,
    Std,
    Min,
    Max,
    Median,
    /// The approximate continuous percentile at `p / 100`.
    Percentile(u8),
}

pub open spec fn digit_char(d: nat) -> char {
    if d == 0 {
        '0'
    } else if d == 1 {
        '1'
    } else if d == 2 {
        '2'
    } else if d == 3 {
        '3'
    } else if d == 4 {
        '4'
    } else if d == 5 {
        '5'
    } else if d == 6 {
        '6'
    } else if d == 7 {
        '7'
    } else if d == 8 {
        '8'
    } else {
        '9'
    }
}

/// The decimal digits of `n`, most significant first, without leading zeros.
pub open spec fn decimal(n: nat) -> Seq<char>
    decreases n,
{
    if n < 10 {
        seq![digit_char(n)]
    } else {
        decimal(n / 10).push(digit_char(n % 10))
    }
}

fn digit_str(d: usize) -> (r: &'static str)
    requires
        d < 10,
    ensures
        r@ == seq![digit_char(d as nat)],
{
    proof {
        reveal_strlit("0");
        reveal_strlit("1");
        reveal_strlit("2");
        reveal_strlit("3");
        reveal_strlit("4");
        reveal_strlit("5");
        reveal_strlit("6");
        reveal_strlit("7");
        reveal_strlit("8");
        reveal_strlit("9");
    }
    if d == 0 {
        "0"
    } else if d == 1 {
        "1"
    } else if d == 2 {
        "2"
    } else if d == 3 {
        "3"
    } else if d == 4 {
        "4"
    } else if d == 5 {
        "5"
    } else if d == 6 {
        "6"
    } else if d == 7 {
        "7"
    } else if d == 8 {
        "8"
    } else {
        "9"
    }
}

/// Appends the decimal digits of `n` to `s`.
pub fn push_decimal(s: &mut String, n: usize)
    ensures
        final(s)@ == old(s)@ + decimal(n as nat),
    decreases n,
{
    if n >= 10 {
        push_decimal(s, n / 10);
    }
    s.append(digit_str(n % 10));
    assert(decimal(n as nat) =~= if n < 10 {
        seq![digit_char(n as nat)]
    } else {
        decimal((n / 10) as nat).push(digit_char((n % 10) as nat))
    });
}

/// The name under which a statistic's row appears in the describe result.
pub open spec fn method_name(m: DescribeMethod) -> Seq<char> {
    match m {
        DescribeMethod::Count => "count"@,
        DescribeMethod::NullCount => "null_count"@,
        DescribeMethod::Mean => "mean"@,
        DescribeMethod::Std => "std"@,
        DescribeMethod::Min => "min"@,
        DescribeMethod::Max => "max"@,
        DescribeMethod::Median => "median"@,
        DescribeMethod::Percentile(p) => "percentile_"@ + decimal(p as nat),
    }
}

impl DescribeMethod {
    /// The statistic's name: `count`, `null_count`, `mean`, `std`, `min`,
    /// `max`, `median`, or `percentile_` followed by the percentile.
    pub fn name(&self) -> (r: String)
        ensures
            r@ == method_name(*self),
    {
        match self {
            DescribeMethod::Count => String::from_str("count"),
            DescribeMethod::NullCount => String::from_str("null_count"),
            DescribeMethod::Mean => String::from_str("mean"),
            DescribeMethod::Std => String::from_str("std"),
            DescribeMethod::Min => String::from_str("min"),
            DescribeMethod::Max => String::from_str("max"),
            DescribeMethod::Median => String::from_str("median"),
            DescribeMethod::Percentile(p) => {
                let mut s = String::from_str("percentile_");
                push_decimal(&mut s, *p as usize);
                s
            },
        }
    }
}

/// The statistics that a describer computes, in the order of its passes.
pub open spec fn default_methods() -> Seq<DescribeMethod> {
    seq![
        DescribeMethod::Count,
        DescribeMethod::NullCount,
        DescribeMethod::Mean,
        DescribeMethod::Std,
        DescribeMethod::Min,
        DescribeMethod::Max,
        DescribeMethod::Median,
        DescribeMethod::Percentile(25),
        DescribeMethod::Percentile(50),
        DescribeMethod::Percentile(75),
    ]
}

/// An aggregate function applied to one column of the transformed projection.
#[derive(Debug, Clone, Copy, PartialEq, Eq, Structural)]
pub enum AggregateFn {
    Count,
    /// The sum of an indicator that is 1 where the value is null, else 0.
    NullIndicatorSum,
    Avg,
    StdDev,
    Min,
    Max,
    Median,
    /// The approximate continuous percentile at `p / 100`.
    ApproxPercentile(u8),
}

pub open spec fn aggregate_of(m: DescribeMethod) -> AggregateFn {
    match m {
        DescribeMethod::Count => AggregateFn::Count,
        DescribeMethod::NullCount => AggregateFn::NullIndicatorSum,
        DescribeMethod::Mean => AggregateFn::Avg,
        DescribeMethod::Std => AggregateFn::StdDev,
        DescribeMethod::Min => AggregateFn::Min,
        DescribeMethod::Max => AggregateFn::Max,
        DescribeMethod::Median => AggregateFn::Median,
        DescribeMethod::Percentile(p) => AggregateFn::ApproxPercentile(p),
    }
}

/// One aggregate expression of a pass, aliased to the column it reads.
#[derive(Debug, Clone)]
pub struct AggregateExpr {
    pub column: String,
    pub func: AggregateFn,
}

/// `plan` applies `f` to every column of `projection`, in order.
pub open spec fn is_plan_over(
    plan: Seq<AggregateExpr>,
    projection: Seq<ProjectionItem>,
    f: AggregateFn,
) -> bool {
    &&& plan.len() == projection.len()
    &&& forall|i: int|
        #![trigger plan[i]]
        0 <= i < plan.len() ==> plan[i].column@ == projection[i].name@ && plan[i].func == f
}

/// A value of the describe result: what the engine produced, or the `null`
/// placeholder where a statistic has no value.
#[derive(Debug, Clone, PartialEq, Eq)]
pub enum Cell {
    Null,
    Value(String),
}

pub open spec fn cell_text(c: Cell) -> Seq<char> {
    match c {
        Cell::Null => "null"@,
        Cell::Value(s) => s@,
    }
}

impl Cell {
    /// The cell as text; the placeholder reads `null`.
    pub fn text(&self) -> (r: String)
        ensures
            r@ == cell_text(*self),
    {
        match self {
            Cell::Null => String::from_str("null"),
            Cell::Value(s) => s.clone(),
        }
    }
}

/// What one statistic pass gave.
#[derive(Debug, Clone)]
pub enum PassOutcome {
    /// The one-row result, one entry per column of the table; `None` where the
    /// aggregation gave no value.
    Row(Vec<Option<String>>),
    /// The pass had no column to aggregate.
    Placeholder,
    /// The engine failed with this message.
    Failed(String),
}

/// The cell that pass outcome `o` gives to column `j`.
pub open spec fn cell_of(o: PassOutcome, j: int) -> Cell {
    match o {
        PassOutcome::Row(v) => match v@[j] {
            Some(s) => Cell::Value(s),
            None => Cell::Null,
        },
        _ => Cell::Null,
    }
}

/// A row outcome has one entry per column.
pub open spec fn fits(o: PassOutcome, ncols: nat) -> bool {
    o is Row ==> o->Row_0@.len() == ncols
}

/// Pass `i` is the first that failed.
pub open spec fn first_failure_at(outcomes: Seq<PassOutcome>, i: int) -> bool {
    &&& 0 <= i < outcomes.len()
    &&& outcomes[i] is Failed
    &&& forall|k: int| 0 <= k < i ==> !(#[trigger] outcomes[k] is Failed)
}

pub open spec fn any_failure(outcomes: Seq<PassOutcome>) -> bool {
    exists|i: int| 0 <= i < outcomes.len() && #[trigger] outcomes[i] is Failed
}

/// One row of the describe result: a statistic's name and its value for
/// each column.
#[derive(Debug, Clone)]
pub struct DescribeRow {
    pub name: String,
    pub cells: Vec<Cell>,
}

/// `r` is the row that statistic `m` with outcome `o` gives over `ncols`
/// columns.
pub open spec fn is_row_of(r: DescribeRow, m: DescribeMethod, o: PassOutcome, ncols: nat) -> bool {
    &&& r.name@ == method_name(m)
    &&& r.cells@.len() == ncols
    &&& forall|j: int| #![trigger r.cells@[j]] 0 <= j < ncols ==> r.cells@[j] == cell_of(o, j)
}

/// A value column of the describe result.
#[derive(Debug, Clone)]
pub struct ResultColumn {
    pub name: String,
    pub value_type: ValueType,
    pub cast: CastBack,
}

/// The describe result: a leading `describe` column holding each row's name,
/// then one column per column of the original table.
#[derive(Debug, Clone)]
pub struct DescribeTable {
    pub columns: Vec<ResultColumn>,
    pub rows: Vec<DescribeRow>,
}

#[derive(Debug, Clone, PartialEq, Eq)]
pub enum DescribeError {
    /// An aggregation failed in the engine, with its message.
    Engine(String),
}

/// The rows are in ascending order of name.
pub open spec fn rows_sorted(rows: Seq<DescribeRow>) -> bool {
    forall|a: int, b: int|
        #![trigger rows[a], rows[b]]
        0 <= a < b < rows.len() ==> lex_le(rows[a].name@, rows[b].name@)
}

/// `perm` maps each position of a sequence of length `n` to a distinct
/// position of another of length `n`.
pub open spec fn is_index_perm(perm: Seq<int>, n: nat) -> bool {
    &&& perm.len() == n
    &&& forall|k: int| #![trigger perm[k]] 0 <= k < n ==> 0 <= perm[k] < n
    &&& forall|a: int, b: int|
        #![trigger perm[a], perm[b]]
        0 <= a < b < n ==> perm[a] != perm[b]
}

/// Rows of equal name stand in the order that `perm` gives them.
pub open spec fn keeps_ties(rows: Seq<DescribeRow>, perm: Seq<int>) -> bool {
    forall|a: int, b: int|
        #![trigger rows[a], rows[b]]
        0 <= a < b < rows.len() && rows[a].name@ == rows[b].name@ ==> perm[a] < perm[b]
}

/// Orders rows by name, ascending; rows of equal name keep their order.
fn sort_rows(rows: Vec<DescribeRow>) -> (r: (Vec<DescribeRow>, Ghost<Seq<int>>))
    ensures
        r.0@.len() == rows@.len(),
        rows_sorted(r.0@),
        is_index_perm(r.1@, rows@.len()),
        keeps_ties(r.0@, r.1@),
        forall|k: int| #![trigger r.0@[k]] 0 <= k < rows@.len() ==> r.0@[k] == rows@[r.1@[k]],
{
    let ghost input = rows@;
    let ghost n = rows@.len();
    let mut rest = rows;
    let mut out: Vec<DescribeRow> = Vec::new();
    let ghost mut perm: Seq<int> = Seq::empty();
    while rest.len() > 0
        invariant
            rest@ == input.subrange(0, rest@.len() as int),
            out@.len() + rest@.len() == n,
            perm.len() == out@.len(),
            n == input.len(),
            rows_sorted(out@),
            forall|k: int|
                #![trigger perm[k]]
                0 <= k < perm.len() ==> rest@.len() <= perm[k] < n && out@[k] == input[perm[k]],
            forall|a: int, b: int|
                #![trigger perm[a], perm[b]]
                0 <= a < b < perm.len() ==> perm[a] != perm[b],
            keeps_ties(out@, perm),
        decreases rest@.len(),
    {
        let ghost idx = rest@.len() - 1;
        let x = rest.pop().unwrap();
        assert(x == input[idx]);
        let mut p: usize = 0;
        while p < out.len() && !name_le(x.name.as_str(), out[p].name.as_str())
            invariant
                p <= out@.len(),
                forall|k: int|
                    #![trigger out@[k]]
                    0 <= k < p ==> !lex_le(x.name@, out@[k].name@) && lex_le(out@[k].name@, x.name@),
            decreases out@.len() - p,
        {
            proof {
                lemma_lex_total(out@[p as int].name@, x.name@);
            }
            p = p + 1;
        }
        let ghost old_out = out@;
        out.insert(p, x);
        assert(out@ == old_out.insert(p as int, x));
        proof {
            assert forall|a: int, b: int|
                #![trigger out@[a], out@[b]]
                0 <= a < b < out@.len() implies lex_le(out@[a].name@, out@[b].name@) by {
                if b < p {
                    assert(old_out[a] == out@[a] && old_out[b] == out@[b]);
                } else if b == p {
                    // every row before x sorts before it, by the search loop
                } else if a < p {
                    assert(old_out[b - 1] == out@[b]);
                    assert(lex_le(x.name@, old_out[p as int].name@));
                    if b - 1 > p {
                        assert(lex_le(old_out[p as int].name@, old_out[b - 1].name@));
                        lemma_lex_trans(x.name@, old_out[p as int].name@, old_out[b - 1].name@);
                    }
                    lemma_lex_trans(out@[a].name@, x.name@, out@[b].name@);
                } else if a == p {
                    assert(old_out[b - 1] == out@[b]);
                    if b - 1 > p {
                        assert(lex_le(old_out[p as int].name@, old_out[b - 1].name@));
                        lemma_lex_trans(x.name@, old_out[p as int].name@, old_out[b - 1].name@);
                    }
                } else {
                    assert(old_out[a - 1] == out@[a] && old_out[b - 1] == out@[b]);
                }
            }
            let old_perm = perm;
            perm = perm.insert(p as int, idx);
            assert forall|a: int, b: int|
                #![trigger out@[a], out@[b]]
                0 <= a < b < out@.len() && out@[a].name@ == out@[b].name@ implies perm[a]
                < perm[b] by {
                if b < p {
                    assert(old_out[a] == out@[a] && old_out[b] == out@[b]);
                } else if b == p {
                    lemma_lex_refl(x.name@);
                } else if a < p {
                    assert(old_out[b - 1] == out@[b]);
                    assert(old_perm[b - 1] == perm[b]);
                } else if a == p {
                    assert(old_perm[b - 1] == perm[b]);
                } else {
                    assert(old_out[a - 1] == out@[a] && old_out[b - 1] == out@[b]);
                    assert(old_perm[a - 1] == perm[a] && old_perm[b - 1] == perm[b]);
                }
            }
        }
    }
    (out, Ghost(perm))
}

/// Computes descriptive statistics of one table: it holds the table's
/// columns, their transformed projection, and the statistics to compute.
#[derive(Debug)]
pub struct DataFrameDescriber {
    pub original: Vec<ColumnDescriptor>,
    pub transformed: Vec<ProjectionItem>,
    pub methods: Vec<DescribeMethod>,
}

/// The value columns of a describe result over table columns `cols`, each
/// with its presentation type and the given cast.
pub open spec fn columns_of(
    columns: Seq<ResultColumn>,
    cols: Seq<ColumnDescriptor>,
    cast_back: bool,
) -> bool {
    &&& columns.len() == cols.len()
    &&& forall|j: int|
        #![trigger columns[j]]
        0 <= j < cols.len() ==> columns[j].name@ == cols[j].name@ && columns[j].value_type
            == value_type_of(cols[j].kind) && columns[j].cast == (if cast_back {
            cast_back_of(cols[j].kind)
        } else {
            CastBack::Keep
        })
}

/// `t` holds, in pass order, one row per statistic of `methods` with the cells
/// that `outcomes` give, over columns as produced.
pub open spec fn is_assembled(
    t: DescribeTable,
    cols: Seq<ColumnDescriptor>,
    methods: Seq<DescribeMethod>,
    outcomes: Seq<PassOutcome>,
) -> bool {
    &&& columns_of(t.columns@, cols, false)
    &&& t.rows@.len() == methods.len()
    &&& forall|i: int|
        #![trigger t.rows@[i]]
        0 <= i < methods.len() ==> is_row_of(t.rows@[i], methods[i], outcomes[i], cols.len())
}

/// `t` holds the same rows as an assembled table, in ascending order of
/// name, over columns cast back.
pub open spec fn is_presented(
    t: DescribeTable,
    cols: Seq<ColumnDescriptor>,
    methods: Seq<DescribeMethod>,
    outcomes: Seq<PassOutcome>,
) -> bool {
    &&& columns_of(t.columns@, cols, true)
    &&& t.rows@.len() == methods.len()
    &&& rows_sorted(t.rows@)
    &&& exists|perm: Seq<int>|
        is_index_perm(perm, methods.len()) && keeps_ties(t.rows@, perm) && forall|k: int|
            #![trigger t.rows@[k]]
            0 <= k < methods.len() ==> is_row_of(
                t.rows@[k],
                methods[perm[k]],
                outcomes[perm[k]],
                cols.len(),
            )
}

impl DataFrameDescriber {
    /// The projection is the transform of the original columns.
    pub open spec fn wf(&self) -> bool {
        is_projection_of(self.transformed@, self.original@)
    }

    /// A describer of a table with columns `schema`, computing count,
    /// null count, mean, std, min, max, median and the 25th, 50th and 75th
    /// percentiles, in that order.
    pub fn try_new(schema: Vec<ColumnDescriptor>) -> (r: Self)
        ensures
            r.wf(),
            r.original@ == schema@,
            r.methods@ == default_methods(),
    {
        let transformed = transform(&schema);
        let mut methods: Vec<DescribeMethod> = Vec::new();
        methods.push(DescribeMethod::Count);
        methods.push(DescribeMethod::NullCount);
        methods.push(DescribeMethod::Mean);
        methods.push(DescribeMethod::Std);
        methods.push(DescribeMethod::Min);
        methods.push(DescribeMethod::Max);
        methods.push(DescribeMethod::Median);
        methods.push(DescribeMethod::Percentile(25));
        methods.push(DescribeMethod::Percentile(50));
        methods.push(DescribeMethod::Percentile(75));
        assert(methods@ =~= default_methods());
        DataFrameDescriber { original: schema, transformed, methods }
    }

    fn aggregate_all(&self, f: AggregateFn) -> (r: Vec<AggregateExpr>)
        ensures
            is_plan_over(r@, self.transformed@, f),
    {
        let mut r: Vec<AggregateExpr> = Vec::new();
        let mut i: usize = 0;
        while i < self.transformed.len()
            invariant
                i <= self.transformed@.len(),
                r@.len() == i,
                forall|k: int|
                    #![trigger r@[k]]
                    0 <= k < i ==> r@[k].column@ == self.transformed@[k].name@ && r@[k].func == f,
            decreases self.transformed@.len() - i,
        {
            r.push(AggregateExpr { column: self.transformed[i].name.clone(), func: f });
            i = i + 1;
        }
        r
    }

    /// The count of non-null values of each column.
    pub fn count(&self) -> (r: Vec<AggregateExpr>)
        ensures
            is_plan_over(r@, self.transformed@, AggregateFn::Count),
    {
        self.aggregate_all(AggregateFn::Count)
    }

    /// The count of null values of each column.
    pub fn null_count(&self) -> (r: Vec<AggregateExpr>)
        ensures
            is_plan_over(r@, self.transformed@, AggregateFn::NullIndicatorSum),
    {
        self.aggregate_all(AggregateFn::NullIndicatorSum)
    }

    pub fn avg(&self) -> (r: Vec<AggregateExpr>)
        ensures
            is_plan_over(r@, self.transformed@, AggregateFn::Avg),
    {
        self.aggregate_all(AggregateFn::Avg)
    }

    pub fn stddev(&self) -> (r: Vec<AggregateExpr>)
        ensures
            is_plan_over(r@, self.transformed@, AggregateFn::StdDev),
    {
        self.aggregate_all(AggregateFn::StdDev)
    }

    pub fn min(&self) -> (r: Vec<AggregateExpr>)
        ensures
            is_plan_over(r@, self.transformed@, AggregateFn::Min),
    {
        self.aggregate_all(AggregateFn::Min)
    }

    pub fn max(&self) -> (r: Vec<AggregateExpr>)
        ensures
            is_plan_over(r@, self.transformed@, AggregateFn::Max),
    {
        self.aggregate_all(AggregateFn::Max)
    }

    pub fn median(&self) -> (r: Vec<AggregateExpr>)
        ensures
            is_plan_over(r@, self.transformed@, AggregateFn::Median),
    {
        self.aggregate_all(AggregateFn::Median)
    }

    /// The approximate continuous percentile at `p / 100` of each column.
    pub fn percentile(&self, p: u8) -> (r: Vec<AggregateExpr>)
        ensures
            is_plan_over(r@, self.transformed@, AggregateFn::ApproxPercentile(p)),
    {
        self.aggregate_all(AggregateFn::ApproxPercentile(p))
    }

    /// The aggregation that statistic `m` issues against the projection.
    pub fn plan(&self, m: DescribeMethod) -> (r: Vec<AggregateExpr>)
        ensures
            is_plan_over(r@, self.transformed@, aggregate_of(m)),
    {
        match m {
            DescribeMethod::Count => self.count(),
            DescribeMethod::NullCount => self.null_count(),
            DescribeMethod::Mean => self.avg(),
            DescribeMethod::Std => self.stddev(),
            DescribeMethod::Min => self.min(),
            DescribeMethod::Max => self.max(),
            DescribeMethod::Median => self.median(),
            DescribeMethod::Percentile(p) => self.percentile(p),
        }
    }

    /// The aggregation that pass `i` sends to the engine; `None` where there
    /// is no column to aggregate, and the pass then gives the placeholder row.
    pub fn pass_request(&self, i: usize) -> (r: Option<Vec<AggregateExpr>>)
        requires
            i < self.methods@.len(),
        ensures
            r is None <==> self.transformed@.len() == 0,
            r is Some ==> is_plan_over(
                r->0@,
                self.transformed@,
                aggregate_of(self.methods@[i as int]),
            ),
    {
        if self.transformed.len() == 0 {
            None
        } else {
            Some(self.plan(self.methods[i]))
        }
    }

    /// Assembles the passes' outcomes, in pass order, into one table. Fails
    /// with the message of the first pass that failed in the engine.
    pub fn describe(&self, outcomes: &Vec<PassOutcome>) -> (r: Result<DescribeTable, DescribeError>)
        requires
            outcomes@.len() == self.methods@.len(),
            forall|i: int|
                0 <= i < outcomes@.len() ==> fits(#[trigger] outcomes@[i], self.original@.len()),
        ensures
            r is Ok <==> !any_failure(outcomes@),
            r matches Err(DescribeError::Engine(msg)) ==> exists|i: int|
                first_failure_at(outcomes@, i) && outcomes@[i]->Failed_0@ == msg@,
            r matches Ok(t) ==> is_assembled(t, self.original@, self.methods@, outcomes@),
    {
        let ncols = self.original.len();
        let mut columns: Vec<ResultColumn> = Vec::new();
        let mut j: usize = 0;
        while j < ncols
            invariant
                ncols == self.original@.len(),
                j <= ncols,
                columns@.len() == j,
                forall|k: int|
                    #![trigger columns@[k]]
                    0 <= k < j ==> columns@[k].name@ == self.original@[k].name@
                        && columns@[k].value_type == value_type_of(self.original@[k].kind)
                        && columns@[k].cast == CastBack::Keep,
            decreases ncols - j,
        {
            let c = &self.original[j];
            columns.push(
                ResultColumn {
                    name: c.name.clone(),
                    value_type: value_type(c.kind),
                    cast: CastBack::Keep,
                },
            );
            j = j + 1;
        }
        let mut rows: Vec<DescribeRow> = Vec::new();
        let mut i: usize = 0;
        while i < outcomes.len()
            invariant
                outcomes@.len() == self.methods@.len(),
                forall|k: int|
                    0 <= k < outcomes@.len() ==> fits(#[trigger] outcomes@[k], ncols as nat),
                ncols == self.original@.len(),
                i <= outcomes@.len(),
                rows@.len() == i,
                forall|k: int| 0 <= k < i ==> !(#[trigger] outcomes@[k] is Failed),
                forall|k: int|
                    #![trigger rows@[k]]
                    0 <= k < i ==> is_row_of(
                        rows@[k],
                        self.methods@[k],
                        outcomes@[k],
                        ncols as nat,
                    ),
            decreases outcomes@.len() - i,
        {
            let o = &outcomes[i];
            if let PassOutcome::Failed(msg) = o {
                assert(first_failure_at(outcomes@, i as int));
                return Err(DescribeError::Engine(msg.clone()));
            }
            let mut cells: Vec<Cell> = Vec::new();
            let mut j: usize = 0;
            while j < ncols
                invariant
                    j <= ncols,
                    fits(*o, ncols as nat),
                    cells@.len() == j,
                    forall|k: int| #![trigger cells@[k]] 0 <= k < j ==> cells@[k] == cell_of(*o, k),
                decreases ncols - j,
            {
                let c = match o {
                    PassOutcome::Row(v) => match &v[j] {
                        Some(s) => Cell::Value(s.clone()),
                        None => Cell::Null,
                    },
                    _ => Cell::Null,
                };
                cells.push(c);
                j = j + 1;
            }
            let name = self.methods[i].name();
            rows.push(DescribeRow { name, cells });
            i = i + 1;
        }
        Ok(DescribeTable { columns, rows })
    }

    /// Casts each column back toward its original type, and orders the rows
    /// by name, ascending; rows of equal name keep their order.
    pub fn cast_back(&self, df: DescribeTable) -> (r: DescribeTable)
        requires
            df.columns@.len() == self.original@.len(),
            forall|j: int|
                #![trigger df.columns@[j]]
                0 <= j < df.columns@.len() ==> df.columns@[j].name@ == self.original@[j].name@
                    && df.columns@[j].value_type == value_type_of(self.original@[j].kind),
        ensures
            columns_of(r.columns@, self.original@, true),
            r.rows@.len() == df.rows@.len(),
            rows_sorted(r.rows@),
            exists|perm: Seq<int>|
                is_index_perm(perm, df.rows@.len()) && keeps_ties(r.rows@, perm) && forall|k: int|
                    #![trigger r.rows@[k]]
                    0 <= k < df.rows@.len() ==> r.rows@[k] == df.rows@[perm[k]],
    {
        let DescribeTable { columns: old_columns, rows } = df;
        let mut columns: Vec<ResultColumn> = Vec::new();
        let mut j: usize = 0;
        while j < old_columns.len()
            invariant
                old_columns@.len() == self.original@.len(),
                forall|k: int|
                    #![trigger old_columns@[k]]
                    0 <= k < old_columns@.len() ==> old_columns@[k].name@ == self.original@[k].name@
                        && old_columns@[k].value_type == value_type_of(self.original@[k].kind),
                j <= old_columns@.len(),
                columns@.len() == j,
                forall|k: int|
                    #![trigger columns@[k]]
                    0 <= k < j ==> columns@[k].name@ == self.original@[k].name@
                        && columns@[k].value_type == value_type_of(self.original@[k].kind)
                        && columns@[k].cast == cast_back_of(self.original@[k].kind),
            decreases old_columns@.len() - j,
        {
            let c = &old_columns[j];
            columns.push(
                ResultColumn {
                    name: c.name.clone(),
                    value_type: c.value_type,
                    cast: cast_back_rule(self.original[j].kind),
                },
            );
            j = j + 1;
        }
        let (sorted, Ghost(perm)) = sort_rows(rows);
        assert(is_index_perm(perm, df.rows@.len()));
        DescribeTable { columns, rows: sorted }
    }

    /// The describe result: the passes' outcomes assembled, cast back, and
    /// ordered by statistic name.
    pub fn describe_table(&self, outcomes: &Vec<PassOutcome>) -> (r: Result<
        DescribeTable,
        DescribeError,
    >)
        requires
            outcomes@.len() == self.methods@.len(),
            forall|i: int|
                0 <= i < outcomes@.len() ==> fits(#[trigger] outcomes@[i], self.original@.len()),
        ensures
            r is Ok <==> !any_failure(outcomes@),
            r matches Err(DescribeError::Engine(msg)) ==> exists|i: int|
                first_failure_at(outcomes@, i) && outcomes@[i]->Failed_0@ == msg@,
            r matches Ok(t) ==> is_presented(t, self.original@, self.methods@, outcomes@),
    {
        match self.describe(outcomes) {
            Ok(t) => {
                let ghost before = t;
                let r = self.cast_back(t);
                proof {
                    let perm = choose|perm: Seq<int>|
                        is_index_perm(perm, before.rows@.len()) && keeps_ties(r.rows@, perm)
                            && forall|k: int|
                            #![trigger r.rows@[k]]
                            0 <= k < before.rows@.len() ==> r.rows@[k] == before.rows@[perm[k]];
                    assert forall|k: int|
                        #![trigger r.rows@[k]]
                        0 <= k < self.methods@.len() implies is_row_of(
                        r.rows@[k],
                        self.methods@[perm[k]],
                        outcomes@[perm[k]],
                        self.original@.len(),
                    ) by {
                        assert(before.rows@[perm[k]] == r.rows@[k]);
                    }
                }
                Ok(r)
            },
            Err(e) => Err(e),
        }
    }
}

proof fn lemma_decimal_len(n: nat)
    ensures
        decimal(n).len() >= 1,
        n >= 10 ==> decimal(n).len() >= 2,
    decreases n,
{
    if n >= 10 {
        lemma_decimal_len(n / 10);
    }
}

/// Distinct numbers have distinct decimal digits.
pub proof fn lemma_decimal_injective(p: nat, q: nat)
    requires
        decimal(p) == decimal(q),
    ensures
        p == q,
    decreases p,
{
    lemma_decimal_len(p);
    lemma_decimal_len(q);
    if p < 10 && q < 10 {
        assert(decimal(p) == seq![digit_char(p)]);
        assert(decimal(q) == seq![digit_char(q)]);
        assert(digit_char(p) == decimal(p)[0]);
        assert(digit_char(p) == digit_char(q));
    } else if p >= 10 && q >= 10 {
        let dp = decimal(p);
        assert(dp == decimal(p / 10).push(digit_char(p % 10)));
        assert(decimal(q) == decimal(q / 10).push(digit_char(q % 10)));
        assert(dp.drop_last() =~= decimal(p / 10));
        assert(decimal(q).drop_last() =~= decimal(q / 10));
        assert(dp[dp.len() - 1] == digit_char(p % 10));
        assert(decimal(q)[dp.len() - 1] == digit_char(q % 10));
        assert(p % 10 == q % 10);
        lemma_decimal_injective(p / 10, q / 10);
        assert(p == (p / 10) * 10 + p % 10);
        assert(q == (q / 10) * 10 + q % 10);
    }
}

/// Distinct statistics have distinct names.
pub proof fn lemma_method_name_injective(m1: DescribeMethod, m2: DescribeMethod)
    requires
        method_name(m1) == method_name(m2),
    ensures
        m1 == m2,
{
    reveal_strlit("count");
    reveal_strlit("null_count");
    reveal_strlit("mean");
    reveal_strlit("std");
    reveal_strlit("min");
    reveal_strlit("max");
    reveal_strlit("median");
    reveal_strlit("percentile_");
    let n = method_name(m1);
    if let DescribeMethod::Percentile(p) = m1 {
        lemma_decimal_len(p as nat);
    }
    if let DescribeMethod::Percentile(q) = m2 {
        lemma_decimal_len(q as nat);
    }
    if m1 is Percentile && m2 is Percentile {
        let p = m1->Percentile_0;
        let q = m2->Percentile_0;
        assert(decimal(p as nat) =~= n.subrange(11, n.len() as int));
        assert(decimal(q as nat) =~= method_name(m2).subrange(11, n.len() as int));
        lemma_decimal_injective(p as nat, q as nat);
    } else {
        assert(n.len() == method_name(m2).len());
        if n.len() == 3 {
            assert(n[1] == method_name(m2)[1]);
        }
    }
}

/// The statistics of a describer are pairwise distinct.
pub proof fn lemma_default_methods_distinct()
    ensures
        forall|a: int, b: int|
            #![trigger default_methods()[a], default_methods()[b]]
            0 <= a < b < default_methods().len() ==> default_methods()[a] != default_methods()[b],
{
}

/// `name` is the name of one of `methods`.
pub open spec fn names_a_method(name: Seq<char>, methods: Seq<DescribeMethod>) -> bool {
    exists|i: int| 0 <= i < methods.len() && name == method_name(#[trigger] methods[i])
}

/// For every table, the describe result has exactly one row per statistic,
/// in ascending order of name; where the statistics are pairwise distinct,
/// as those of a new describer are, each row has a name of its own.
pub proof fn lemma_describe_rows_uniquely_tagged(
    d: DataFrameDescriber,
    outcomes: Seq<PassOutcome>,
    t: DescribeTable,
)
    requires
        forall|a: int, b: int|
            #![trigger d.methods@[a], d.methods@[b]]
            0 <= a < b < d.methods@.len() ==> d.methods@[a] != d.methods@[b],
        is_presented(t, d.original@, d.methods@, outcomes),
    ensures
        t.rows@.len() == d.methods@.len(),
        rows_sorted(t.rows@),
        forall|k: int|
            #![trigger t.rows@[k]]
            0 <= k < t.rows@.len() ==> names_a_method(t.rows@[k].name@, d.methods@),
        forall|a: int, b: int|
            #![trigger t.rows@[a], t.rows@[b]]
            0 <= a < b < t.rows@.len() ==> t.rows@[a].name@ != t.rows@[b].name@,
{
    let n = d.methods@.len();
    let perm = choose|perm: Seq<int>|
        is_index_perm(perm, n) && keeps_ties(t.rows@, perm) && forall|k: int|
            #![trigger t.rows@[k]]
            0 <= k < n ==> is_row_of(t.rows@[k], d.methods@[perm[k]], outcomes[perm[k]], d.original@.len());
    assert forall|k: int|
        #![trigger t.rows@[k]]
        0 <= k < t.rows@.len() implies names_a_method(t.rows@[k].name@, d.methods@) by {
        let i = perm[k];
        assert(0 <= i < n);
        assert(t.rows@[k].name@ == method_name(d.methods@[i]));
    }
    assert forall|a: int, b: int|
        #![trigger t.rows@[a], t.rows@[b]]
        0 <= a < b < t.rows@.len() implies t.rows@[a].name@ != t.rows@[b].name@ by {
        assert(perm[a] != perm[b]);
        assert(0 <= perm[a] < n && 0 <= perm[b] < n);
        assert(t.rows@[a].name@ == method_name(d.methods@[perm[a]]));
        assert(t.rows@[b].name@ == method_name(d.methods@[perm[b]]));
        if t.rows@[a].name@ == t.rows@[b].name@ {
            lemma_method_name_injective(d.methods@[perm[a]], d.methods@[perm[b]]);
            if perm[a] < perm[b] {
                assert(d.methods@[perm[a]] != d.methods@[perm[b]]);
            } else {
                assert(d.methods@[perm[b]] != d.methods@[perm[a]]);
            }
        }
    }
}

/// On a table with no rows the mean, std and median passes aggregate no
/// value: their rows then hold the placeholder in every column, while the
/// count row holds what the count pass gave for each column.
pub proof fn lemma_empty_table_placeholders(
    d: DataFrameDescriber,
    outcomes: Seq<PassOutcome>,
    t: DescribeTable,
)
    requires
        d.methods@ == default_methods(),
        outcomes.len() == default_methods().len(),
        forall|i: int|
            (i == 2 || i == 3 || i == 6) ==> (#[trigger] outcomes[i] is Placeholder || (
            outcomes[i] matches PassOutcome::Row(v) && v@.len() == d.original@.len() && forall|j: int|
                0 <= j < v@.len() ==> #[trigger] v@[j] is None)),
        outcomes[0] matches PassOutcome::Row(v) && v@.len() == d.original@.len(),
        is_assembled(t, d.original@, d.methods@, outcomes),
    ensures
        t.rows@[0].name@ == "count"@,
        forall|j: int|
            #![trigger t.rows@[0].cells@[j]]
            0 <= j < d.original@.len() ==> t.rows@[0].cells@[j] == match outcomes[0]->Row_0@[j] {
                Some(s) => Cell::Value(s),
                None => Cell::Null,
            },
        t.rows@[2].name@ == "mean"@,
        t.rows@[3].name@ == "std"@,
        t.rows@[6].name@ == "median"@,
        forall|i: int, j: int|
            #![trigger t.rows@[i].cells@[j]]
            (i == 2 || i == 3 || i == 6) && 0 <= j < d.original@.len() ==> t.rows@[i].cells@[j]
                == Cell::Null,
{
    assert forall|i: int, j: int|
        #![trigger t.rows@[i].cells@[j]]
        (i == 2 || i == 3 || i == 6) && 0 <= j < d.original@.len() implies t.rows@[i].cells@[j]
        == Cell::Null by {
        assert(is_row_of(t.rows@[i], d.methods@[i], outcomes[i], d.original@.len()));
        assert(t.rows@[i].cells@[j] == cell_of(outcomes[i], j));
        if outcomes[i] is Row {
            assert(outcomes[i]->Row_0@[j] is None);
        }
    }
    assert(is_row_of(t.rows@[0], d.methods@[0], outcomes[0], d.original@.len()));
}

} // verus!
