use jinko::{
    run_program, check_program, BinaryOp, Context, ErrKind, FunctionCall, FunctionDec, Instr, ObjectInstance,
    Operator, TypeCtx, TypeId, Value, Var, VarAssign, Block,
};

fn int_lit(n: i64) -> Box<Instr> {
    Box::new(Instr::Const(Value::Int(n)))
}

fn float(text: &str) -> Box<Instr> {
    Box::new(Instr::Const(Value::Float(text.to_string())))
}

fn binop(l: Box<Instr>, r: Box<Instr>, op: &str) -> Box<Instr> {
    Box::new(Instr::BinaryOp(BinaryOp::new(l, r, Operator::new(op))))
}

fn assign(name: &str, value: Box<Instr>) -> Instr {
    Instr::VarAssign(VarAssign::new(false, name.to_string(), value))
}

fn call(name: &str, args: Vec<Instr>) -> Instr {
    Instr::FunctionCall(FunctionCall::new(name.to_string(), args))
}

fn type_checks(program: &Vec<Instr>) -> bool {
    let mut ctx = TypeCtx::new();
    check_program(program, &mut ctx)
}

fn binop_assert(l_num: i64, r_num: i64, op_string: &str, res: i64) {
    let binop = BinaryOp::new(int_lit(l_num), int_lit(r_num), Operator::new(op_string));
    let mut i = Context::new();
    assert_eq!(
        binop.execute(&mut i).unwrap(),
        ObjectInstance::from_value(Value::Int(res)),
    );
    assert!(!i.has_errors());
}

#[test]
fn t_binop_add_same() {
    binop_assert(12, 12, "+", 24);
}

#[test]
fn t_binop_add_l_diff() {
    binop_assert(12, 2, "+", 14);
}

#[test]
fn t_binop_add_r_diff() {
    binop_assert(2, 99, "+", 101);
}

#[test]
fn t_binop_mul_same() {
    binop_assert(12, 12, "*", 144);
}

#[test]
fn t_binop_mul_l_diff() {
    binop_assert(12, 2, "*", 24);
}

#[test]
fn t_binop_mul_r_diff() {
    binop_assert(2, 99, "*", 198);
}

#[test]
fn t_binop_rhs_execute() {
    let r_bin = BinaryOp::new(int_lit(12), int_lit(3), Operator::new("*"));
    let binary_op = BinaryOp::new(int_lit(9), Box::new(Instr::BinaryOp(r_bin)), Operator::new("-"));
    let mut i = Context::new();
    assert_eq!(
        binary_op.rhs().execute(&mut i).unwrap(),
        ObjectInstance::from_value(Value::Int(36)),
    );
    assert!(!i.has_errors());
}

#[test]
fn t_binop_lhs_execute() {
    let l_bin = BinaryOp::new(int_lit(12), int_lit(3), Operator::new("*"));
    let binary_op = BinaryOp::new(Box::new(Instr::BinaryOp(l_bin)), int_lit(9), Operator::new("-"));
    let mut i = Context::new();
    assert_eq!(binary_op.operator(), Operator::Sub);
    assert_eq!(
        binary_op.lhs().execute(&mut i).unwrap(),
        ObjectInstance::from_value(Value::Int(36))
    );
    assert!(!i.has_errors());
}

#[test]
fn tc_binop_valid() {
    // t0 = 1 + 1; t2 = 1.0 + 1.4;
    let program = vec![
        assign("t0", binop(int_lit(1), int_lit(1), "+")),
        assign("t2", binop(float("1.0"), float("1.4"), "+")),
    ];
    assert!(type_checks(&program));
    let mut ctx = Context::new();
    assert!(program[0].execute(&mut ctx).is_none());
    assert!(!ctx.has_errors());
    assert_eq!(
        Var::new("t0".to_string()).execute(&mut ctx).unwrap(),
        ObjectInstance::from_value(Value::Int(2))
    );
}

#[test]
fn tc_binop_from_func() {
    // func id(x: int) -> int { x }
    // t0 = id(1) + id(id(id(id(14))));
    let mut body = Block::new();
    body.set_statement(false);
    body.add_instruction(Instr::Var(Var::new("x".to_string())));
    let id = FunctionDec::new(
        "id".to_string(),
        vec![("x".to_string(), TypeId::from("int"))],
        Some(TypeId::from("int")),
        body,
    );
    let nested = call("id", vec![call("id", vec![call("id", vec![call("id", vec![Instr::Const(Value::Int(14))])])])]);
    let sum = binop(Box::new(call("id", vec![Instr::Const(Value::Int(1))])), Box::new(nested), "+");
    let program = vec![Instr::FunctionDec(id), assign("t0", sum)];
    assert!(type_checks(&program));
    let mut ctx = Context::new();
    assert!(jinko::run_program(&program, &mut ctx, 100).is_none());
    assert!(!ctx.has_errors());
    assert_eq!(
        Var::new("t0".to_string()).execute(&mut ctx).unwrap(),
        ObjectInstance::from_value(Value::Int(15))
    );
}

#[test]
fn tc_binop_mismatched_valid() {
    // t0 = 1 + '4'; t2 = 1.0 + "hey";
    let program = vec![
        assign("t0", binop(int_lit(1), Box::new(Instr::Const(Value::Char(jinko::JinkChar::from('4')))), "+")),
        assign("t2", binop(float("1.0"), Box::new(Instr::Const(Value::Str("hey".to_string()))), "+")),
    ];
    assert!(!type_checks(&program));
}

#[test]
fn binop_mismatched_types_records_one_diagnostic() {
    let mut ctx = TypeCtx::new();
    let op = binop(int_lit(1), Box::new(Instr::Const(Value::Bool(true))), "+");
    let ty = op.resolve_type(&mut ctx);
    assert!(ty.is_error());
    assert_eq!(ctx.errors().len(), 1);
    assert_eq!(ctx.errors()[0].kind, ErrKind::TypeChecker);
}

#[test]
fn binop_mismatched_types_execute_yields_nothing() {
    let op = binop(int_lit(1), Box::new(Instr::Const(Value::Bool(true))), "+");
    let mut ctx = Context::new();
    assert!(op.execute(&mut ctx).is_none());
    assert!(!ctx.has_errors());
}

#[test]
fn binop_sub_div_and_comparison() {
    binop_assert(9, 36, "-", -27);
    binop_assert(-7, 2, "/", -3);
    binop_assert(7, -2, "/", -3);
    binop_assert(-7, -2, "/", 3);
    let eq = BinaryOp::new(int_lit(3), int_lit(3), Operator::new("=="));
    let mut ctx = Context::new();
    assert_eq!(eq.execute(&mut ctx).unwrap(), ObjectInstance::from_value(Value::Bool(true)));
    let ne = BinaryOp::new(int_lit(3), int_lit(3), Operator::new("!="));
    assert_eq!(ne.execute(&mut ctx).unwrap(), ObjectInstance::from_value(Value::Bool(false)));
}

#[test]
fn binop_division_by_zero_is_recorded() {
    let op = BinaryOp::new(int_lit(1), int_lit(0), Operator::new("/"));
    let mut ctx = Context::new();
    assert!(op.execute(&mut ctx).is_none());
    assert_eq!(ctx.errors().len(), 1);
    assert_eq!(ctx.errors()[0].kind, ErrKind::Context);
}

#[test]
fn binop_overflow_is_recorded() {
    let op = BinaryOp::new(int_lit(i64::MAX), int_lit(1), Operator::new("+"));
    let mut ctx = Context::new();
    assert!(op.execute(&mut ctx).is_none());
    assert!(ctx.has_errors());
    let op = BinaryOp::new(int_lit(i64::MIN), int_lit(-1), Operator::new("/"));
    let mut ctx = Context::new();
    assert!(op.execute(&mut ctx).is_none());
    assert!(ctx.has_errors());
}

#[test]
fn binop_on_floats_has_no_kernel() {
    let op = binop(float("1.0"), float("1.4"), "+");
    let mut ctx = Context::new();
    assert!(op.execute(&mut ctx).is_none());
    assert_eq!(ctx.errors()[0].kind, ErrKind::Context);
}

#[test]
fn binop_with_statement_operand_is_recorded() {
    let op = binop(Box::new(Instr::Block(Block::new())), int_lit(1), "+");
    let mut ctx = Context::new();
    assert!(op.execute(&mut ctx).is_none());
    assert_eq!(ctx.errors().len(), 1);
    assert_eq!(ctx.errors()[0].kind, ErrKind::Context);
    assert_eq!(ctx.errors()[0].message(), "invalid use of statement in binary operation: {\n}");
}

#[test]
fn binop_print() {
    let op = binop(int_lit(-12), binop(int_lit(3), int_lit(4), "*"), "-");
    assert_eq!(op.print(), "-12 - 3 * 4");
}

#[test]
fn int_kernel_values() {
    assert_eq!(jinko::int_kernel(Operator::Add, 2, 99), Some(Value::Int(101)));
    assert_eq!(jinko::int_kernel(Operator::Div, 7, 0), None);
    assert_eq!(jinko::int_kernel(Operator::LeftParenthesis, 7, 1), None);
}

fn int_function(name: &str, params: Vec<&str>, result: Instr) -> Instr {
    let mut body = Block::new();
    body.set_statement(false);
    body.add_instruction(result);
    Instr::FunctionDec(FunctionDec::new(
        name.to_string(),
        params.into_iter().map(|p| (p.to_string(), TypeId::from("int"))).collect(),
        Some(TypeId::from("int")),
        body,
    ))
}

#[test]
fn call_binds_parameters_and_can_come_before_the_declaration() {
    // t = add(2, 40); func add(a: int, b: int) -> int { a + b }
    let program = vec![
        assign("t", Box::new(call("add", vec![Instr::Const(Value::Int(2)), Instr::Const(Value::Int(40))]))),
        int_function(
            "add",
            vec!["a", "b"],
            Instr::BinaryOp(BinaryOp::new(
                Box::new(Instr::Var(Var::new("a".to_string()))),
                Box::new(Instr::Var(Var::new("b".to_string()))),
                Operator::Add,
            )),
        ),
    ];
    assert!(type_checks(&program));
    let mut ctx = Context::new();
    assert!(run_program(&program, &mut ctx, 10).is_none());
    assert!(!ctx.has_errors());
    assert_eq!(
        Var::new("t".to_string()).execute(&mut ctx).unwrap(),
        ObjectInstance::from_value(Value::Int(42))
    );
}

#[test]
fn endless_recursion_is_stopped_by_the_depth_bound() {
    // func spin(x: int) -> int { spin(x) }  spin(1)
    let program = vec![
        int_function("spin", vec!["x"], call("spin", vec![Instr::Var(Var::new("x".to_string()))])),
        call("spin", vec![Instr::Const(Value::Int(1))]),
    ];
    let mut ctx = Context::new();
    assert!(run_program(&program, &mut ctx, 50).is_none());
    assert_eq!(ctx.errors().len(), 1);
    assert_eq!(ctx.errors()[0].kind, ErrKind::Context);
}

#[test]
fn call_errors_at_runtime() {
    let program = vec![int_function("one", vec![], Instr::Const(Value::Int(1)))];
    let mut ctx = Context::new();
    let wrong_count = call("one", vec![Instr::Const(Value::Int(1))]);
    assert!(wrong_count.execute(&mut ctx).is_none());
    assert_eq!(ctx.errors().len(), 1);
    let mut ctx = Context::new();
    let mut with_call = program;
    with_call.push(call("two", vec![]));
    assert!(run_program(&with_call, &mut ctx, 5).is_none());
    assert_eq!(ctx.errors().len(), 1);
}
