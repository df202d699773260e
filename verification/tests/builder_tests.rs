use exprjit::denote::SymExpr;
use exprjit::error::{BuildError, RegistryError};
use exprjit::expr_build::{compile_add_call, jit_expr_v1, jit_expr_v2, jit_expr_v3, jit_index_f64};
use exprjit::func_gen::{BinOp, Inst, ValueId};
use exprjit::gen_ctx::{CodegenContext, CodegenContextBuilder};
use exprjit::kind::{CallConv, Kind, Signature};
use exprjit::native_opcall::NativeOpCall;
use exprjit::registry::NativeOperation;

/// A unit with the three standard operations bound to placeholder
/// addresses, as a lowering embedder would bind real routine entry
/// points.
fn standard_ctx() -> CodegenContext {
    CodegenContextBuilder::new()
        .register_opcall(NativeOpCall::Float64AddWrapping, 0x1000)
        .unwrap()
        .register_opcall(NativeOpCall::Float64DivWrapping, 0x2000)
        .unwrap()
        .register_opcall(NativeOpCall::Float64Lt, 0x3000)
        .unwrap()
        .finish()
}

/// Evaluate a symbolic expression over scalar parameters; `loads`
/// gives the element behind each pointer parameter for one lane.
fn eval_sym(e: &SymExpr, params: &[f64], loads: &[f64]) -> f64 {
    match e {
        SymExpr::Param(i) => params[*i],
        SymExpr::ConstInt(v) => *v as f64,
        SymExpr::Add(a, b) => eval_sym(a, params, loads) + eval_sym(b, params, loads),
        SymExpr::Div(a, b) => eval_sym(a, params, loads) / eval_sym(b, params, loads),
        SymExpr::Lt(a, b) => {
            if eval_sym(a, params, loads) < eval_sym(b, params, loads) {
                1.0
            } else {
                0.0
            }
        }
        SymExpr::Splat(a) => eval_sym(a, params, loads),
        SymExpr::LoadAt(a) => match **a {
            SymExpr::Param(i) => loads[i],
            _ => panic!("load through a non-parameter address"),
        },
        SymExpr::Opaque => panic!("opaque expression"),
    }
}

fn predicate_result(f: &exprjit::func_gen::FunctionSpec, a: f64, b: f64, c: f64, d: f64) -> bool {
    let ret = f.single_return_value(0).expect("single return value");
    let tree = f.symbolic_value(ret);
    eval_sym(&tree, &[a, b, c, d], &[]) == 1.0
}

#[test]
fn v1_compiles_the_predicate() {
    let mut ctx = standard_ctx();
    let f = jit_expr_v1(&mut ctx).unwrap();
    assert_eq!(f.name, "op_v1");
    assert_eq!(f.sig.params, vec![Kind::F64, Kind::F64, Kind::F64, Kind::F64]);
    assert_eq!(f.sig.returns, vec![Kind::I8]);
    assert_eq!(
        f.func_refs,
        vec![
            "Float64AddWrapping".to_owned(),
            "Float64DivWrapping".to_owned(),
            "Float64Lt".to_owned()
        ]
    );
    assert!(predicate_result(&f, 3.0, 4.0, 3.0, 4.0));
    assert!(!predicate_result(&f, 9.0, 4.0, 3.0, 4.0));
    assert!(predicate_result(&f, 5.0, 4.0, 3.0, 4.0));
}

#[test]
fn v2_compiles_the_predicate_inline() {
    let mut ctx = standard_ctx();
    let f = jit_expr_v2(&mut ctx).unwrap();
    assert_eq!(f.name, "op_v2");
    assert!(f.func_refs.is_empty());
    assert!(predicate_result(&f, 3.0, 4.0, 3.0, 4.0));
    assert!(!predicate_result(&f, 9.0, 4.0, 3.0, 4.0));
    assert!(predicate_result(&f, 5.0, 4.0, 3.0, 4.0));
}

#[test]
fn independent_compilations_agree() {
    let mut ctx1 = standard_ctx();
    let mut ctx2 = standard_ctx();
    let f1 = jit_expr_v1(&mut ctx1).unwrap();
    let f2 = jit_expr_v1(&mut ctx2).unwrap();
    let t1 = f1.symbolic_value(f1.single_return_value(0).unwrap());
    let t2 = f2.symbolic_value(f2.single_return_value(0).unwrap());
    assert_eq!(format!("{:?}", t1), format!("{:?}", t2));

    let f3 = jit_expr_v2(&mut ctx1).unwrap();
    let t3 = f3.symbolic_value(f3.single_return_value(0).unwrap());
    assert_eq!(format!("{:?}", t1), format!("{:?}", t3));
    for (a, b, c, d) in [(3.0, 4.0, 3.0, 4.0), (9.0, 4.0, 3.0, 4.0), (5.0, 4.0, 3.0, 4.0)] {
        assert_eq!(predicate_result(&f1, a, b, c, d), predicate_result(&f3, a, b, c, d));
    }
}

#[test]
fn duplicate_function_name_is_refused() {
    let mut ctx = standard_ctx();
    jit_expr_v1(&mut ctx).unwrap();
    match jit_expr_v1(&mut ctx) {
        Err(BuildError::DuplicateFunction(name)) => assert_eq!(name, "op_v1"),
        other => panic!("expected DuplicateFunction, got {:?}", other),
    }
}

#[test]
fn vectorized_lanes_match_the_scalar_reference() {
    let mut ctx = standard_ctx();
    let f = jit_expr_v3(&mut ctx).unwrap();
    assert_eq!(f.name, "op_v3");
    assert_eq!(f.blocks.len(), 3);

    // The stored lane value of the loop body.
    let lane = f.symbolic_value(ValueId(20));

    // a = [2, 4], b = [9, 4], c = 3, d = 3: lane-wise the expected
    // booleans are [false, true], and they equal the scalar reference
    // (a[i] + b[i]) / c < d element by element.
    let a = [2.0_f64, 4.0_f64];
    let b = [9.0_f64, 4.0_f64];
    let c = 3.0_f64;
    let d = 3.0_f64;
    let mut ctx2 = standard_ctx();
    let scalar = jit_expr_v2(&mut ctx2).unwrap();
    let mut got = Vec::new();
    for i in 0..2 {
        // Body parameters: pointers 0..2, broadcast divisor 3, bound 4.
        let lane_result = eval_sym(&lane, &[0.0, 0.0, 0.0, c, d], &[a[i], b[i]]) == 1.0;
        got.push(lane_result);
        assert_eq!(lane_result, predicate_result(&scalar, a[i], b[i], c, d));
    }
    assert_eq!(got, vec![false, true]);
}

#[test]
fn vectorized_loop_shape() {
    let mut ctx = standard_ctx();
    let f = jit_expr_v3(&mut ctx).unwrap();
    // The entry block broadcasts the scalars and jumps into the body.
    match f.blocks[0].insts.last().unwrap() {
        Inst::Jump { target, args } => {
            assert_eq!(target.0, 1);
            assert_eq!(args.len(), 7);
        }
        other => panic!("entry must end in a jump, got {:?}", other),
    }
    // The body stores one vector of boolean lanes per iteration and
    // conditionally re-enters itself with advanced pointers.
    assert_eq!(f.blocks[1].insts.len(), 14);
    assert!(matches!(f.blocks[1].insts[5], Inst::Store { value: ValueId(20), addr: ValueId(11), offset: 0 }));
    // The stepping: 16-byte input advance, 2-byte result advance, the
    // index risen by one and compared against the bound.
    assert!(matches!(f.blocks[1].insts[6], Inst::Iconst { kind: Kind::I64, imm: 16, result: ValueId(21) }));
    assert!(matches!(f.blocks[1].insts[7], Inst::Iconst { kind: Kind::I64, imm: 2, result: ValueId(22) }));
    assert!(matches!(
        f.blocks[1].insts[11],
        Inst::IaddImm { a: ValueId(14), imm: 1, result: ValueId(26) }
    ));
    assert!(matches!(
        f.blocks[1].insts[12],
        Inst::Bin { op: BinOp::IcmpSlt, a: ValueId(26), b: ValueId(15), result: ValueId(27) }
    ));
    match f.blocks[1].insts.last().unwrap() {
        Inst::Brif { cond, then_target, else_target, then_args, else_args } => {
            assert_eq!(cond.0, 27);
            assert_eq!(then_target.0, 1);
            assert_eq!(else_target.0, 2);
            assert_eq!(then_args.len(), 7);
            assert!(else_args.is_empty());
        }
        other => panic!("body must end in a conditional branch, got {:?}", other),
    }
    // Every block is sealed and terminated after finalization.
    for block in &f.blocks {
        assert!(block.sealed);
        assert!(block.terminated);
    }
}

#[test]
fn index_function_shape() {
    let mut ctx = standard_ctx();
    let f = jit_index_f64(&mut ctx).unwrap();
    assert_eq!(f.name, "op_test");
    assert_eq!(f.sig.params, vec![Kind::Ptr, Kind::I64]);
    assert_eq!(f.sig.returns, vec![Kind::F64]);
    let insts = &f.blocks[0].insts;
    assert_eq!(insts.len(), 5);
    assert!(matches!(insts[0], Inst::Iconst { kind: Kind::I64, imm: 8, result: ValueId(2) }));
    assert!(matches!(
        insts[1],
        Inst::Bin { op: BinOp::Imul, a: ValueId(1), b: ValueId(2), result: ValueId(3) }
    ));
    assert!(matches!(
        insts[2],
        Inst::Bin { op: BinOp::Iadd, a: ValueId(0), b: ValueId(3), result: ValueId(4) }
    ));
    assert!(matches!(
        insts[3],
        Inst::Load { kind: Kind::F64, addr: ValueId(4), offset: 0, result: ValueId(5) }
    ));
}

#[test]
fn forwarder_calls_the_imported_routine() {
    let mut ctx = CodegenContextBuilder::new()
        .register_func(NativeOperation {
            name: "add".to_owned(),
            sig: Signature {
                params: vec![Kind::Ptr, Kind::Ptr],
                returns: vec![Kind::Ptr],
                call_conv: CallConv::Fast,
            },
            address: 0x4000,
        })
        .unwrap()
        .finish();
    let f = compile_add_call(&mut ctx).unwrap();
    assert_eq!(f.name, "call");
    assert_eq!(f.func_refs, vec!["add".to_owned()]);
    assert_eq!(f.blocks[0].insts.len(), 2);
    match &f.blocks[0].insts[0] {
        Inst::CallNative { func_ref, args, result } => {
            assert_eq!(*func_ref, 0);
            assert_eq!(args.as_slice(), &[ValueId(0), ValueId(1)]);
            assert_eq!(*result, ValueId(2));
        }
        other => panic!("expected a native call, got {:?}", other),
    }
}

#[test]
fn unknown_native_call_leaves_no_partial_instruction() {
    let mut ctx = standard_ctx();
    let mut func_ctx = ctx
        .create_func_gen_ctx("probe", vec![Kind::F64, Kind::F64], vec![Kind::F64])
        .unwrap();
    let entry = func_ctx.create_block();
    func_ctx.switch_to_block(entry);
    func_ctx.append_block_params_for_function_params(entry);
    let ps = func_ctx.block_params(entry);
    let insts_before = func_ctx.blocks[0].insts.len();
    let refs_before = func_ctx.func_refs.len();
    let values_before = func_ctx.values.len();
    match func_ctx.emit_native_call(&"not_registered".to_owned(), vec![ps[0], ps[1]]) {
        Err(RegistryError::UnknownOperation(name)) => assert_eq!(name, "not_registered"),
        other => panic!("expected UnknownOperation, got {:?}", other),
    }
    assert_eq!(func_ctx.blocks[0].insts.len(), insts_before);
    assert_eq!(func_ctx.func_refs.len(), refs_before);
    assert_eq!(func_ctx.values.len(), values_before);
}

#[test]
fn slot_store_load_and_fresh_offsets() {
    let mut ctx = standard_ctx();
    let mut func_ctx = ctx.create_func_gen_ctx("slots", vec![], vec![]).unwrap();
    let entry = func_ctx.create_block();
    func_ctx.switch_to_block(entry);
    func_ctx.make_static_stack(32);

    let first = func_ctx.iconst(Kind::I64, 41);
    func_ctx.stack_store_value("x", Kind::I64, first);
    assert_eq!(func_ctx.slots.len(), 1);
    assert_eq!(func_ctx.slots[0].offset, 0);
    assert_eq!(func_ctx.stack_len, 8);

    // Loading the name reads the very offset the store wrote.
    let store_offset = match func_ctx.blocks[0].insts.last().unwrap() {
        Inst::StackStore { value, offset } => {
            assert_eq!(*value, first);
            *offset
        }
        other => panic!("expected a frame store, got {:?}", other),
    };
    func_ctx.stack_load_value("x");
    match func_ctx.blocks[0].insts.last().unwrap() {
        Inst::StackLoad { kind, offset, .. } => {
            assert_eq!(*kind, Kind::I64);
            assert_eq!(*offset, store_offset);
        }
        other => panic!("expected a frame load, got {:?}", other),
    }

    // Storing the name again reuses the slot; a second distinct name
    // advances the frame offset past the first slot.
    let second = func_ctx.iconst(Kind::I64, 42);
    func_ctx.stack_store_value("x", Kind::I64, second);
    assert_eq!(func_ctx.slots.len(), 1);
    assert_eq!(func_ctx.stack_len, 8);
    let third = func_ctx.iconst(Kind::I64, 43);
    func_ctx.stack_store_value("y", Kind::I64, third);
    assert_eq!(func_ctx.slots.len(), 2);
    assert_eq!(func_ctx.slots[1].name, "y");
    assert_eq!(func_ctx.slots[1].offset, 8);
    assert_eq!(func_ctx.stack_len, 16);
}

#[test]
fn reference_slot_addresses_lanes_by_kind_width() {
    let mut ctx = standard_ctx();
    let mut func_ctx = ctx.create_func_gen_ctx("lanes", vec![Kind::Ptr], vec![]).unwrap();
    let entry = func_ctx.create_block();
    func_ctx.switch_to_block(entry);
    func_ctx.append_block_params_for_function_params(entry);
    func_ctx.make_static_stack(16);
    let base = func_ctx.block_params(entry)[0];
    func_ctx.stack_store_ref("buf", Kind::F64, base);
    assert!(func_ctx.slots[0].is_ref);

    func_ctx.stack_load_ref_data("buf", 3);
    match func_ctx.blocks[0].insts.last().unwrap() {
        Inst::Load { kind, offset, .. } => {
            assert_eq!(*kind, Kind::F64);
            assert_eq!(*offset, 24);
        }
        other => panic!("expected a load, got {:?}", other),
    }
}
