use vstd::prelude::*;

use crate::arrow_kernels::{
    add_i64_kernel, count_true, count_trues, filter_i64_kernel, filtered, lt_i64_kernel,
};
use crate::error::ServerError;
use crate::exec_ctx::ExecContext;

verus! {

/// A constant scalar operand of an expression.
#[derive(Copy, Clone, Debug, PartialEq, Eq, Structural)]
pub enum ScalarValue {
    Int64(i64),
}

/// Reference to one column of a batch.  Evaluation resolves the
/// column by its field name; the position is carried for planning.
#[derive(Clone, Debug)]
pub struct ColumnExpr {
    pub name: String,
    pub index: usize,
}

impl ColumnExpr {
    /// A reference to the column called `name` at position `index`.
    pub fn new(name: String, index: usize) -> (r: ColumnExpr)
        ensures
            r.name@ == name@,
            r.index == index,
    {
        ColumnExpr { name, index }
    }
}

/// Mathematical model of a [`Batch`].
pub struct BatchModel {
    pub fields: Seq<Seq<char>>,
    pub columns: Seq<Seq<i64>>,
    pub n_rows: int,
}

/// A batch of rows in columnar form: one named 64-bit integer column
/// per field, all of the same length.
#[derive(Debug)]
pub struct Batch {
    pub fields: Vec<String>,
    pub columns: Vec<Vec<i64>>,
    pub n_rows: usize,
}

impl View for Batch {
    type V = BatchModel;

    open spec fn view(&self) -> BatchModel {
        BatchModel {
            fields: self.fields@.map(|i: int, f: String| f@),
            columns: self.columns@.map(|i: int, c: Vec<i64>| c@),
            n_rows: self.n_rows as int,
        }
    }
}

impl Batch {
    /// One column per field, every column as long as the batch.
    pub open spec fn wf(self) -> bool {
        &&& self.columns@.len() == self.fields@.len()
        &&& forall|c: int|
            0 <= c < self.columns@.len() ==> (#[trigger] self.columns@[c])@.len() == self.n_rows
    }

    /// An independent copy of the batch.
    pub fn duplicate(&self) -> (r: Batch)
        ensures
            r@ == self@,
            r.fields@.len() == self.fields@.len(),
            r.columns@.len() == self.columns@.len(),
            forall|c: int|
                0 <= c < self.columns@.len() ==> (#[trigger] r.columns@[c])@
                    == self.columns@[c]@,
            r.n_rows == self.n_rows,
    {
        let mut fields: Vec<String> = Vec::new();
        let mut i: usize = 0;
        while i < self.fields.len()
            invariant
                i <= self.fields@.len(),
                fields@.len() == i,
                forall|j: int| 0 <= j < i ==> (#[trigger] fields@[j])@ == self.fields@[j]@,
            decreases self.fields@.len() - i,
        {
            fields.push(self.fields[i].clone());
            i += 1;
        }
        let mut columns: Vec<Vec<i64>> = Vec::new();
        let mut c: usize = 0;
        while c < self.columns.len()
            invariant
                c <= self.columns@.len(),
                columns@.len() == c,
                forall|j: int| 0 <= j < c ==> (#[trigger] columns@[j])@ == self.columns@[j]@,
            decreases self.columns@.len() - c,
        {
            columns.push(self.columns[c].clone());
            c += 1;
        }
        let r = Batch { fields, columns, n_rows: self.n_rows };
        proof {
            assert(r@.fields =~= self@.fields);
            assert(r@.columns =~= self@.columns);
        }
        r
    }
}

/// The position of the first field with this name, if any.
pub open spec fn field_lookup(fields: Seq<Seq<char>>, name: Seq<char>) -> Option<int>
    decreases fields.len(),
{
    if fields.len() == 0 {
        None
    } else if fields[0] == name {
        Some(0int)
    } else {
        match field_lookup(fields.drop_first(), name) {
            Some(i) => Some(i + 1),
            None => None,
        }
    }
}

/// A name that first occurs at position `i` looks up to `i`.
proof fn lemma_field_lookup_found(fields: Seq<Seq<char>>, name: Seq<char>, i: int)
    requires
        0 <= i < fields.len(),
        fields[i] == name,
        forall|j: int| 0 <= j < i ==> fields[j] != name,
    ensures
        field_lookup(fields, name) == Some(i),
    decreases i,
{
    if i == 0 {
    } else {
        assert(fields[0] != name);
        let rest = fields.drop_first();
        assert(rest[i - 1] == fields[i]);
        assert forall|j: int| 0 <= j < i - 1 implies rest[j] != name by {
            assert(rest[j] == fields[j + 1]);
        }
        lemma_field_lookup_found(rest, name, i - 1);
    }
}

/// A name that occurs nowhere looks up to nothing.
proof fn lemma_field_lookup_none(fields: Seq<Seq<char>>, name: Seq<char>)
    requires
        forall|j: int| 0 <= j < fields.len() ==> fields[j] != name,
    ensures
        field_lookup(fields, name) is None,
    decreases fields.len(),
{
    if fields.len() > 0 {
        let rest = fields.drop_first();
        assert forall|j: int| 0 <= j < rest.len() implies rest[j] != name by {
            assert(rest[j] == fields[j + 1]);
        }
        lemma_field_lookup_none(rest, name);
    }
}

impl Batch {
    /// The position of the first field with this name.
    fn field_position(&self, name: &String) -> (r: Option<usize>)
        ensures
            match r {
                Some(i) => i < self.fields@.len() && field_lookup(self@.fields, name@) == Some(
                    i as int,
                ),
                None => field_lookup(self@.fields, name@) is None,
            },
    {
        let mut i: usize = 0;
        while i < self.fields.len()
            invariant
                i <= self.fields@.len(),
                forall|j: int| 0 <= j < i ==> self@.fields[j] != name@,
            decreases self.fields@.len() - i,
        {
            if self.fields[i] == *name {
                proof {
                    assert(self@.fields[i as int] == name@);
                    lemma_field_lookup_found(self@.fields, name@, i as int);
                }
                return Some(i);
            }
            proof {
                assert(self@.fields[i as int] == self.fields@[i as int]@);
            }
            i += 1;
        }
        proof {
            lemma_field_lookup_none(self@.fields, name@);
        }
        None
    }
}

/// A column's worth of evaluated values.
#[derive(Debug)]
pub enum ColumnData {
    Int64(Vec<i64>),
    Boolean(Vec<bool>),
}

/// What evaluating an expression yields: a whole column, or one
/// scalar that stands for every row.
#[derive(Debug)]
pub enum Datum {
    Array(ColumnData),
    Scalar(ScalarValue),
}

/// Mathematical model of a [`Datum`].
pub enum DatumModel {
    Ints(Seq<int>),
    Bools(Seq<bool>),
    Scalar(int),
}

/// The model of an evaluated datum.
pub open spec fn model_of(d: Datum) -> DatumModel {
    match d {
        Datum::Array(ColumnData::Int64(v)) => DatumModel::Ints(
            v@.map(|i: int, x: i64| x as int),
        ),
        Datum::Array(ColumnData::Boolean(v)) => DatumModel::Bools(v@),
        Datum::Scalar(ScalarValue::Int64(x)) => DatumModel::Scalar(x as int),
    }
}

/// The binary operations of the expression layer.
#[derive(Copy, Clone, Debug, PartialEq, Eq, Structural)]
pub enum Op {
    Add,
    Lt,
}

/// A constant expression node.
#[derive(Debug)]
pub struct LiteralExpr {
    pub scalar: ScalarValue,
}

impl LiteralExpr {
    /// A node that evaluates to the scalar on every row.
    pub fn new(scalar: ScalarValue) -> (r: LiteralExpr)
        ensures
            r.scalar == scalar,
    {
        LiteralExpr { scalar }
    }
}

/// A binary expression node over two children.
#[derive(Debug)]
pub struct BinaryExpr {
    pub op: Op,
    pub lhs: Box<PhysExpr>,
    pub rhs: Box<PhysExpr>,
}

impl BinaryExpr {
    /// A node applying `op` to the two children, row by row.
    pub fn new(op: Op, lhs: Box<PhysExpr>, rhs: Box<PhysExpr>) -> (r: BinaryExpr)
        ensures
            r.op == op,
            r.lhs == lhs,
            r.rhs == rhs,
    {
        BinaryExpr { op, lhs, rhs }
    }
}

/// A physical expression: the closed set of node kinds the evaluator
/// and the code generator dispatch over.
#[derive(Debug)]
pub enum PhysExpr {
    Binary(BinaryExpr),
    Column(ColumnExpr),
    Literal(LiteralExpr),
}

/// The result type an expression produces.
#[derive(Copy, Clone, Debug, PartialEq, Eq, Structural)]
pub enum OutputType {
    Int64,
    Boolean,
}

/// The result type of an expression: columns and sums are 64-bit
/// integers, comparisons are boolean.
pub open spec fn spec_output_type(e: PhysExpr) -> OutputType {
    match e {
        PhysExpr::Column(..) => OutputType::Int64,
        PhysExpr::Literal(..) => OutputType::Int64,
        PhysExpr::Binary(b) => match b.op {
            Op::Add => OutputType::Int64,
            Op::Lt => OutputType::Boolean,
        },
    }
}

/// A scalar stands for every row; a column must already have the
/// batch's length; a boolean column is no arithmetic operand.
pub open spec fn broadcast(m: DatumModel, n_rows: nat) -> Option<Seq<int>> {
    match m {
        DatumModel::Ints(s) => if s.len() == n_rows {
            Some(s)
        } else {
            None
        },
        DatumModel::Scalar(v) => Some(Seq::new(n_rows, |i: int| v)),
        DatumModel::Bools(..) => None,
    }
}

/// Does this mathematical sum fit a 64-bit integer?
pub open spec fn fits_i64(v: int) -> bool {
    i64::MIN <= v <= i64::MAX
}

/// What evaluating an expression over a batch yields: the column
/// whose field name matches the reference, the constant for a
/// literal, and the row-wise operation for a binary node, with scalar
/// operands broadcast over the rows.  `None` exactly when no field
/// carries a referenced name, a boolean column meets an arithmetic
/// operator, an operand column has the wrong length, or a sum
/// overflows.
pub open spec fn sem(
    e: PhysExpr,
    fields: Seq<Seq<char>>,
    columns: Seq<Seq<i64>>,
    n_rows: nat,
) -> Option<DatumModel>
    decreases e,
{
    match e {
        PhysExpr::Column(c) => match field_lookup(fields, c.name@) {
            Some(i) => if i < columns.len() {
                Some(DatumModel::Ints(columns[i].map(|k: int, x: i64| x as int)))
            } else {
                None
            },
            None => None,
        },
        PhysExpr::Literal(l) => match l.scalar {
            ScalarValue::Int64(v) => Some(DatumModel::Scalar(v as int)),
        },
        PhysExpr::Binary(b) => {
            let ls = sem(*b.lhs, fields, columns, n_rows);
            let rs = sem(*b.rhs, fields, columns, n_rows);
            if ls is Some && rs is Some {
                let lb = broadcast(ls.unwrap(), n_rows);
                let rb = broadcast(rs.unwrap(), n_rows);
                if lb is Some && rb is Some {
                    let lv = lb.unwrap();
                    let rv = rb.unwrap();
                    match b.op {
                        Op::Add => if forall|i: int|
                            0 <= i < n_rows ==> fits_i64(#[trigger] (lv[i] + rv[i])) {
                            Some(
                                DatumModel::Ints(Seq::new(n_rows, |i: int| lv[i] + rv[i])),
                            )
                        } else {
                            None
                        },
                        Op::Lt => Some(
                            DatumModel::Bools(Seq::new(n_rows, |i: int| lv[i] < rv[i])),
                        ),
                    }
                } else {
                    None
                }
            } else {
                None
            }
        },
    }
}

/// The columns of a batch, mathematically.
pub open spec fn batch_cols(b: Batch) -> Seq<Seq<i64>> {
    b.columns@.map(|i: int, c: Vec<i64>| c@)
}

/// Broadcast a datum to one value per row: a column must have the
/// batch's length, a scalar is repeated, a boolean column is refused.
fn to_rows(d: Datum, n_rows: usize) -> (r: Result<Vec<i64>, ServerError>)
    ensures
        match broadcast(model_of(d), n_rows as nat) {
            Some(s) => r matches Ok(v) && v@.len() == n_rows && forall|i: int|
                0 <= i < n_rows ==> (#[trigger] v@[i]) as int == s[i],
            None => r is Err,
        },
{
    match d {
        Datum::Array(ColumnData::Int64(v)) => {
            if v.len() == n_rows {
                Ok(v)
            } else {
                Err(ServerError::ArgumentError("operand column has the wrong length".to_owned()))
            }
        },
        Datum::Array(ColumnData::Boolean(..)) => Err(
            ServerError::NotSupported("boolean operand of an arithmetic operator".to_owned()),
        ),
        Datum::Scalar(ScalarValue::Int64(x)) => {
            let mut v: Vec<i64> = Vec::new();
            let mut i: usize = 0;
            while i < n_rows
                invariant
                    i <= n_rows,
                    v@.len() == i,
                    forall|j: int| 0 <= j < i ==> (#[trigger] v@[j]) == x,
                decreases n_rows - i,
            {
                v.push(x);
                i += 1;
            }
            Ok(v)
        },
    }
}

impl PhysExpr {
    /// The result type of this expression.
    pub fn output_type(&self) -> (r: OutputType)
        ensures
            r == spec_output_type(*self),
    {
        match self {
            PhysExpr::Column(..) => OutputType::Int64,
            PhysExpr::Literal(..) => OutputType::Int64,
            PhysExpr::Binary(b) => match b.op {
                Op::Add => OutputType::Int64,
                Op::Lt => OutputType::Boolean,
            },
        }
    }

    /// The direct children of this node: two for a binary node, none
    /// otherwise.
    pub fn children(&self) -> (r: Vec<&PhysExpr>)
        ensures
            (self matches PhysExpr::Binary(b) ==> r@ == seq![&*b.lhs, &*b.rhs]),
            !(self matches PhysExpr::Binary(..)) ==> r@.len() == 0,
    {
        match self {
            PhysExpr::Binary(b) => {
                let mut v: Vec<&PhysExpr> = Vec::new();
                v.push(&b.lhs);
                v.push(&b.rhs);
                proof {
                    assert(v@ =~= seq![&*b.lhs, &*b.rhs]);
                }
                v
            },
            _ => Vec::new(),
        }
    }

    /// Evaluate the expression over a batch; column references
    /// resolve by field name.  The result is exactly the batch
    /// semantics [`sem`] assigns: it succeeds if and only if `sem` is
    /// defined, and then returns its value.
    pub fn eval(&self, batch: &Batch) -> (r: Result<Datum, ServerError>)
        requires
            batch.wf(),
        ensures
            match sem(*self, batch@.fields, batch_cols(*batch), batch.n_rows as nat) {
                Some(m) => r matches Ok(d) && model_of(d) == m,
                None => r is Err,
            },
        decreases *self,
    {
        match self {
            PhysExpr::Column(c) => {
                match batch.field_position(&c.name) {
                    Some(i) => {
                        let col = batch.columns[i].clone();
                        proof {
                            assert(batch_cols(*batch)[i as int] == batch.columns@[i as int]@);
                        }
                        Ok(Datum::Array(ColumnData::Int64(col)))
                    },
                    None => Err(
                        ServerError::ArgumentError("no column carries that name".to_owned()),
                    ),
                }
            },
            PhysExpr::Literal(l) => Ok(Datum::Scalar(l.scalar)),
            PhysExpr::Binary(b) => {
                let ld = match b.lhs.eval(batch) {
                    Ok(d) => d,
                    Err(e) => {
                        return Err(e);
                    },
                };
                let rd = match b.rhs.eval(batch) {
                    Ok(d) => d,
                    Err(e) => {
                        return Err(e);
                    },
                };
                let lv = match to_rows(ld, batch.n_rows) {
                    Ok(v) => v,
                    Err(e) => {
                        return Err(e);
                    },
                };
                let rv = match to_rows(rd, batch.n_rows) {
                    Ok(v) => v,
                    Err(e) => {
                        return Err(e);
                    },
                };
                let ghost ls = sem(*b.lhs, batch@.fields, batch_cols(*batch), batch.n_rows as nat);
                let ghost rs = sem(*b.rhs, batch@.fields, batch_cols(*batch), batch.n_rows as nat);
                let ghost lseq = broadcast(ls.unwrap(), batch.n_rows as nat).unwrap();
                let ghost rseq = broadcast(rs.unwrap(), batch.n_rows as nat).unwrap();
                match b.op {
                    Op::Add => match add_i64_kernel(&lv, &rv) {
                        Some(s) => {
                            proof {
                                assert forall|i: int|
                                    0 <= i < batch.n_rows implies fits_i64(
                                    #[trigger] (lseq[i] + rseq[i]),
                                ) by {
                                    assert((lv@[i]) as int == lseq[i]);
                                    assert((rv@[i]) as int == rseq[i]);
                                    assert(i64::MIN <= lv@[i] + rv@[i] <= i64::MAX);
                                }
                                assert(s@.map(|i: int, x: i64| x as int) =~= Seq::new(
                                    batch.n_rows as nat,
                                    |i: int| lseq[i] + rseq[i],
                                )) by {
                                    assert forall|i: int|
                                        0 <= i < batch.n_rows implies (#[trigger] s@[i]) as int
                                        == lseq[i] + rseq[i] by {
                                        assert((lv@[i]) as int == lseq[i]);
                                        assert((rv@[i]) as int == rseq[i]);
                                        assert(s@[i] == lv@[i] + rv@[i]);
                                    }
                                }
                            }
                            Ok(Datum::Array(ColumnData::Int64(s)))
                        },
                        None => {
                            proof {
                                let i = choose|i: int|
                                    0 <= i < lv@.len() && !(i64::MIN <= #[trigger] (lv@[i]
                                        + rv@[i]) <= i64::MAX);
                                assert((lv@[i]) as int == lseq[i]);
                                assert((rv@[i]) as int == rseq[i]);
                                assert(!fits_i64(lseq[i] + rseq[i]));
                            }
                            Err(
                                ServerError::ArgumentError(
                                    "addition overflows a 64-bit integer".to_owned(),
                                ),
                            )
                        },
                    },
                    Op::Lt => {
                        let s = lt_i64_kernel(&lv, &rv);
                        proof {
                            assert(s@ =~= Seq::new(
                                batch.n_rows as nat,
                                |i: int| lseq[i] < rseq[i],
                            ));
                        }
                        Ok(Datum::Array(ColumnData::Boolean(s)))
                    },
                }
            },
        }
    }
}

/// A source operator that replays one in-memory batch.
#[derive(Debug)]
pub struct MemSourceScan {
    pub batch: Batch,
}

impl MemSourceScan {
    /// A source over the given batch.
    pub fn new(batch: Batch) -> (r: MemSourceScan)
        ensures
            r.batch == batch,
    {
        MemSourceScan { batch }
    }
}

/// An operator that keeps the input rows its boolean predicate
/// selects.
#[derive(Debug)]
pub struct FilterOperator {
    pub input: Box<OperatorNode>,
    pub predicate: PhysExpr,
}

impl FilterOperator {
    /// A filter of `input` by `predicate`.
    pub fn new(input: Box<OperatorNode>, predicate: PhysExpr) -> (r: FilterOperator)
        ensures
            r.input == input,
            r.predicate == predicate,
    {
        FilterOperator { input, predicate }
    }
}

/// The closed set of operators a plan is built from.
#[derive(Debug)]
pub enum OperatorNode {
    Mem(MemSourceScan),
    Filter(FilterOperator),
}

/// Every batch held by the plan is well formed.
pub open spec fn node_wf(n: OperatorNode) -> bool
    decreases n,
{
    match n {
        OperatorNode::Mem(m) => m.batch.wf(),
        OperatorNode::Filter(f) => node_wf(*f.input),
    }
}

/// The field names a plan's output carries: those of its source.
pub open spec fn node_schema(n: OperatorNode) -> Seq<Seq<char>>
    decreases n,
{
    match n {
        OperatorNode::Mem(m) => m.batch@.fields,
        OperatorNode::Filter(f) => node_schema(*f.input),
    }
}

/// What executing a plan yields: the source batch, or the input rows
/// at which the predicate holds, each column filtered by the same
/// mask and the row count set to the number of selected rows.  `None`
/// exactly when the predicate's semantics is undefined or not
/// boolean.
pub open spec fn node_sem(n: OperatorNode) -> Option<BatchModel>
    decreases n,
{
    match n {
        OperatorNode::Mem(m) => Some(m.batch@),
        OperatorNode::Filter(f) => match node_sem(*f.input) {
            Some(b) => match sem(f.predicate, b.fields, b.columns, b.n_rows as nat) {
                Some(DatumModel::Bools(mask)) => Some(
                    BatchModel {
                        fields: b.fields,
                        columns: b.columns.map(|i: int, c: Seq<i64>| filtered(c, mask)),
                        n_rows: count_trues(mask),
                    },
                ),
                _ => None,
            },
            None => None,
        },
    }
}

impl OperatorNode {
    /// The field names of the operator's output.
    pub fn schema(&self) -> (r: &Vec<String>)
        ensures
            r@.map(|i: int, f: String| f@) == node_schema(*self),
        decreases *self,
    {
        match self {
            OperatorNode::Mem(m) => &m.batch.fields,
            OperatorNode::Filter(f) => f.input.schema(),
        }
    }

    /// Execute the operator.  The result is exactly the plan
    /// semantics [`node_sem`] assigns: execution succeeds if and only
    /// if the semantics is defined, and then returns its batch.
    pub fn exec(&self, ctx: &ExecContext) -> (r: Result<Batch, ServerError>)
        requires
            node_wf(*self),
        ensures
            match node_sem(*self) {
                Some(m) => r matches Ok(b) && b@ == m && b.wf(),
                None => r is Err,
            },
        decreases *self,
    {
        match self {
            OperatorNode::Mem(m) => {
                let b = m.batch.duplicate();
                Ok(b)
            },
            OperatorNode::Filter(f) => {
                let input = match f.input.exec(ctx) {
                    Ok(b) => b,
                    Err(e) => {
                        return Err(e);
                    },
                };
                let predicate = match f.predicate.eval(&input) {
                    Ok(d) => d,
                    Err(e) => {
                        return Err(e);
                    },
                };
                let mask = match predicate {
                    Datum::Array(ColumnData::Boolean(mask)) => mask,
                    _ => {
                        return Err(
                            ServerError::NotSupported(
                                "filter predicate is not boolean".to_owned(),
                            ),
                        );
                    },
                };
                let ghost in_model = node_sem(*f.input).unwrap();
                let ghost mask_model = mask@;
                let mut columns: Vec<Vec<i64>> = Vec::new();
                let mut c: usize = 0;
                while c < input.columns.len()
                    invariant
                        c <= input.columns@.len(),
                        columns@.len() == c,
                        input.wf(),
                        mask@ == mask_model,
                        mask@.len() == input.n_rows,
                        forall|j: int|
                            0 <= j < c ==> (#[trigger] columns@[j])@ == filtered(
                                input.columns@[j]@,
                                mask_model,
                            ),
                    decreases input.columns@.len() - c,
                {
                    let col = filter_i64_kernel(&input.columns[c], &mask);
                    columns.push(col);
                    c += 1;
                }
                let mut fields: Vec<String> = Vec::new();
                let mut i: usize = 0;
                while i < input.fields.len()
                    invariant
                        i <= input.fields@.len(),
                        fields@.len() == i,
                        forall|j: int| 0 <= j < i ==> (#[trigger] fields@[j])@ == input.fields@[j]@,
                    decreases input.fields@.len() - i,
                {
                    fields.push(input.fields[i].clone());
                    i += 1;
                }
                let n_rows = count_true(&mask);
                let out = Batch { fields, columns, n_rows };
                proof {
                    assert forall|j: int| 0 <= j < out.columns@.len() implies (#[trigger] out
                        .columns@[j])@.len() == out.n_rows by {
                        crate::arrow_kernels::lemma_filtered_len(
                            input.columns@[j]@,
                            mask_model,
                        );
                    }
                    assert(out@.fields =~= in_model.fields);
                    assert(out@.columns =~= in_model.columns.map(
                        |i: int, col: Seq<i64>| filtered(col, mask_model),
                    ));
                }
                Ok(out)
            },
        }
    }
}

} // verus!
