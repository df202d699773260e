use exprjit::denote::SymExpr;
use exprjit::expr_gen::{Expr, ExprGen};
use exprjit::func_gen::ValueId;
use exprjit::gen_ctx::{CodegenContext, CodegenContextBuilder};
use exprjit::kind::Kind;
use exprjit::native_opcall::NativeOpCall;

fn standard_ctx() -> CodegenContext {
    CodegenContextBuilder::new()
        .register_opcall(NativeOpCall::Float64AddWrapping, 0x1000)
        .unwrap()
        .register_opcall(NativeOpCall::Float64DivWrapping, 0x2000)
        .unwrap()
        .register_opcall(NativeOpCall::Float64Lt, 0x3000)
        .unwrap()
        .finish()
}

fn col(index: usize) -> Box<Expr> {
    Box::new(Expr::ColumnRef { index })
}

fn eval(e: &SymExpr, params: &[f64]) -> f64 {
    match e {
        SymExpr::Param(i) => params[*i],
        SymExpr::Add(a, b) => eval(a, params) + eval(b, params),
        SymExpr::Div(a, b) => eval(a, params) / eval(b, params),
        SymExpr::Lt(a, b) => {
            if eval(a, params) < eval(b, params) {
                1.0
            } else {
                0.0
            }
        }
        other => panic!("unexpected node {:?}", other),
    }
}

#[test]
fn tree_lowering_matches_the_hand_written_builder() {
    // Lower ((col0 + col1) / col2) < col3 through the ExprGen
    // capability and compare its meaning with the hand-written
    // compilation of the same predicate.
    let tree = Expr::Binary {
        op: NativeOpCall::Float64Lt,
        lhs: Box::new(Expr::Binary {
            op: NativeOpCall::Float64DivWrapping,
            lhs: Box::new(Expr::Binary {
                op: NativeOpCall::Float64AddWrapping,
                lhs: col(0),
                rhs: col(1),
            }),
            rhs: col(2),
        }),
        rhs: col(3),
    };

    let mut ctx = standard_ctx();
    let mut func_ctx = ctx
        .create_func_gen_ctx(
            "tree",
            vec![Kind::F64, Kind::F64, Kind::F64, Kind::F64],
            vec![Kind::I8],
        )
        .unwrap();
    let entry = func_ctx.create_block();
    func_ctx.switch_to_block(entry);
    func_ctx.append_block_params_for_function_params(entry);
    let value = tree.gen(&mut func_ctx);
    let f = func_ctx.finalize(vec![value]);

    let mut ctx2 = standard_ctx();
    let reference = exprjit::expr_build::jit_expr_v1(&mut ctx2).unwrap();
    let t1 = f.symbolic_value(value);
    let t2 = reference.symbolic_value(reference.single_return_value(0).unwrap());
    assert_eq!(format!("{:?}", t1), format!("{:?}", t2));
}

#[test]
fn compiled_tree_computes_the_predicate() {
    let tree = Expr::Binary {
        op: NativeOpCall::Float64Lt,
        lhs: Box::new(Expr::Binary {
            op: NativeOpCall::Float64DivWrapping,
            lhs: Box::new(Expr::Binary {
                op: NativeOpCall::Float64AddWrapping,
                lhs: col(0),
                rhs: col(1),
            }),
            rhs: col(2),
        }),
        rhs: col(3),
    };
    let mut ctx = standard_ctx();
    let f = exprjit::expr_gen::compile_expr(&mut ctx, "predicate", 4, &tree).unwrap();
    assert_eq!(f.sig.params, vec![Kind::F64; 4]);
    assert_eq!(f.sig.returns, vec![Kind::I8]);
    let ret = f.single_return_value(0).unwrap();
    let sym = f.symbolic_value(ret);
    // The symbolic reading evaluates like the predicate itself.
    assert_eq!(eval(&sym, &[3.0, 4.0, 3.0, 4.0]), 1.0);
    assert_eq!(eval(&sym, &[9.0, 4.0, 3.0, 4.0]), 0.0);
    assert_eq!(eval(&sym, &[5.0, 4.0, 3.0, 4.0]), 1.0);
}

#[test]
fn literal_node_lowers_to_a_constant() {
    let mut ctx = standard_ctx();
    let mut func_ctx = ctx.create_func_gen_ctx("konst", vec![], vec![Kind::I64]).unwrap();
    let entry = func_ctx.create_block();
    func_ctx.switch_to_block(entry);
    func_ctx.append_block_params_for_function_params(entry);
    let node = Expr::Literal { value: exprjit::physical::ScalarValue::Int64(5) };
    let value = node.gen(&mut func_ctx);
    assert_eq!(value, ValueId(0));
    let f = func_ctx.finalize(vec![value]);
    let tree = f.symbolic_value(value);
    assert_eq!(format!("{:?}", tree), format!("{:?}", exprjit::denote::SymExpr::ConstInt(5)));
}
