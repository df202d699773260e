use exprjit::error::ServerError;
use exprjit::exec_ctx::ExecContext;
use exprjit::physical::{
    Batch, BinaryExpr, ColumnData, ColumnExpr, Datum, FilterOperator, LiteralExpr, MemSourceScan,
    Op, OperatorNode, OutputType, PhysExpr, ScalarValue,
};

fn num_batch(values: Vec<i64>) -> Batch {
    let n_rows = values.len();
    Batch { fields: vec!["num".to_owned()], columns: vec![values], n_rows }
}

fn column(name: &str, index: usize) -> PhysExpr {
    PhysExpr::Column(ColumnExpr::new(name.to_owned(), index))
}

fn literal(v: i64) -> PhysExpr {
    PhysExpr::Literal(LiteralExpr::new(ScalarValue::Int64(v)))
}

fn binary(op: Op, lhs: PhysExpr, rhs: PhysExpr) -> PhysExpr {
    PhysExpr::Binary(BinaryExpr::new(op, Box::new(lhs), Box::new(rhs)))
}

#[test]
fn filter_keeps_rows_below_the_bound() {
    let ctx = ExecContext::new().as_ref();
    let batch = num_batch(vec![1, 2, 3, 4, 5]);
    let source = MemSourceScan::new(batch);
    let plan = OperatorNode::Filter(FilterOperator::new(
        Box::new(OperatorNode::Mem(source)),
        binary(Op::Lt, column("num", 0), literal(3)),
    ));
    let result = plan.exec(&ctx).unwrap();
    assert_eq!(result.columns, vec![vec![1, 2]]);
    assert_eq!(result.n_rows, 2);
    assert_eq!(result.fields, vec!["num".to_owned()]);
    assert_eq!(plan.schema(), &vec!["num".to_owned()]);
}

#[test]
fn filter_of_nothing_keeps_nothing() {
    let ctx = ExecContext::new().as_ref();
    let plan = OperatorNode::Filter(FilterOperator::new(
        Box::new(OperatorNode::Mem(MemSourceScan::new(num_batch(vec![7, 8])))),
        binary(Op::Lt, column("num", 0), literal(0)),
    ));
    let result = plan.exec(&ctx).unwrap();
    assert_eq!(result.columns, vec![Vec::<i64>::new()]);
    assert_eq!(result.n_rows, 0);
}

#[test]
fn add_broadcasts_a_scalar_over_the_column() {
    let batch = num_batch(vec![1, 2, 3]);
    let expr = binary(Op::Add, column("num", 0), literal(10));
    match expr.eval(&batch).unwrap() {
        Datum::Array(ColumnData::Int64(v)) => assert_eq!(v, vec![11, 12, 13]),
        other => panic!("expected an integer column, got {:?}", other),
    }
}

#[test]
fn add_of_two_columns_is_element_wise() {
    let batch = Batch {
        fields: vec!["a".to_owned(), "b".to_owned()],
        columns: vec![vec![1, 2, 3], vec![10, 20, 30]],
        n_rows: 3,
    };
    let expr = binary(Op::Add, column("a", 0), column("b", 1));
    match expr.eval(&batch).unwrap() {
        Datum::Array(ColumnData::Int64(v)) => assert_eq!(v, vec![11, 22, 33]),
        other => panic!("expected an integer column, got {:?}", other),
    }
}

#[test]
fn overflowing_add_is_an_error() {
    let batch = num_batch(vec![i64::MAX, 1]);
    let expr = binary(Op::Add, column("num", 0), literal(1));
    match expr.eval(&batch) {
        Err(ServerError::ArgumentError(_)) => {}
        other => panic!("expected an argument error, got {:?}", other),
    }
}

#[test]
fn unknown_column_name_is_an_error() {
    let batch = num_batch(vec![1, 2]);
    let expr = column("nope", 3);
    match expr.eval(&batch) {
        Err(ServerError::ArgumentError(_)) => {}
        other => panic!("expected an argument error, got {:?}", other),
    }
}

#[test]
fn column_resolves_by_field_name_not_position() {
    let batch = Batch {
        fields: vec!["a".to_owned(), "b".to_owned()],
        columns: vec![vec![1], vec![2]],
        n_rows: 1,
    };
    // A reference named "b" returns the "b" column, whatever position
    // the reference carries.
    match column("b", 0).eval(&batch).unwrap() {
        Datum::Array(ColumnData::Int64(v)) => assert_eq!(v, vec![2]),
        other => panic!("expected an integer column, got {:?}", other),
    }
    match column("a", 1).eval(&batch).unwrap() {
        Datum::Array(ColumnData::Int64(v)) => assert_eq!(v, vec![1]),
        other => panic!("expected an integer column, got {:?}", other),
    }
}

#[test]
fn boolean_operand_of_add_is_an_error() {
    let batch = num_batch(vec![1, 2]);
    let expr = binary(Op::Add, binary(Op::Lt, column("num", 0), literal(2)), literal(1));
    match expr.eval(&batch) {
        Err(ServerError::NotSupported(_)) => {}
        other => panic!("expected a not-supported error, got {:?}", other),
    }
}

#[test]
fn output_types_and_children() {
    let lt = binary(Op::Lt, column("num", 0), literal(3));
    assert_eq!(lt.output_type(), OutputType::Boolean);
    assert_eq!(binary(Op::Add, column("num", 0), literal(3)).output_type(), OutputType::Int64);
    assert_eq!(literal(1).output_type(), OutputType::Int64);
    assert_eq!(column("num", 0).output_type(), OutputType::Int64);
    assert_eq!(lt.children().len(), 2);
    assert_eq!(literal(1).children().len(), 0);
}

#[test]
fn literal_evaluates_to_its_scalar() {
    let batch = num_batch(vec![1]);
    match literal(42).eval(&batch).unwrap() {
        Datum::Scalar(ScalarValue::Int64(v)) => assert_eq!(v, 42),
        other => panic!("expected a scalar, got {:?}", other),
    }
}
