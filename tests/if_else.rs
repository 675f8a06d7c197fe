use jinko::{
    check_program, Block, Context, ErrKind, FunctionDec, IfElse, InstrKind, Instr, ObjectInstance,
    TypeCtx, TypeId, Value, Var,
};

fn lit(v: Value) -> Box<Instr> {
    Box::new(Instr::Const(v))
}

fn value_block(v: Value) -> Block {
    let mut b = Block::new();
    b.set_statement(false);
    b.add_instruction(Instr::Const(v));
    b
}

fn type_checks(program: &Vec<Instr>) -> bool {
    let mut ctx = TypeCtx::new();
    check_program(program, &mut ctx)
}

#[test]
fn t_if_print() {
    let if_block = IfElse::new(lit(Value::Bool(true)), Block::new(), None);
    assert_eq!(Instr::IfElse(if_block).print(), "if true {\n}".to_string());
}

#[test]
fn t_if_else_print() {
    let if_block = IfElse::new(lit(Value::Bool(true)), Block::new(), Some(Block::new()));
    assert_eq!(if_block.print(), "if true {\n} else {\n}".to_string());
}

#[test]
fn t_if_kind() {
    let if_block = IfElse::new(lit(Value::Bool(true)), Block::new(), None);
    assert_eq!(if_block.kind(), InstrKind::Statement);
}

#[test]
fn t_if_execute() {
    let mut ctx = Context::new();
    let if_else = IfElse::new(
        lit(Value::Bool(true)),
        value_block(Value::Int(42)),
        Some(value_block(Value::Int(69))),
    );
    assert_eq!(
        if_else.execute(&mut ctx).unwrap(),
        ObjectInstance::from_value(Value::Int(42))
    );
}

#[test]
fn t_else_execute() {
    let mut ctx = Context::new();
    let if_else = IfElse::new(
        lit(Value::Bool(false)),
        value_block(Value::Int(42)),
        Some(value_block(Value::Int(69))),
    );
    assert_eq!(
        if_else.execute(&mut ctx).unwrap(),
        ObjectInstance::from_value(Value::Int(69))
    );
}

#[test]
fn if_false_without_else_yields_nothing() {
    let mut ctx = Context::new();
    let mut body = Block::new();
    body.add_instruction(Instr::Const(Value::Int(42)));
    let if_else = IfElse::new(lit(Value::Bool(false)), body, None);
    assert!(if_else.execute(&mut ctx).is_none());
    assert!(!ctx.has_errors());
}

#[test]
fn if_false_without_else_records_the_missing_value() {
    let mut ctx = Context::new();
    let if_else = IfElse::new(lit(Value::Bool(false)), value_block(Value::Int(42)), None);
    assert!(if_else.execute(&mut ctx).is_none());
    assert_eq!(ctx.errors().len(), 1);
    assert_eq!(ctx.errors()[0].kind, ErrKind::Context);
}

#[test]
fn if_with_non_boolean_condition_is_recorded_at_runtime() {
    let mut ctx = Context::new();
    let if_else = IfElse::new(lit(Value::Int(1)), value_block(Value::Int(42)), None);
    assert!(if_else.execute(&mut ctx).is_none());
    assert_eq!(ctx.errors()[0].kind, ErrKind::Context);
}

#[test]
fn tc_if_else_simple() {
    // if true { 15 } else { 14 }
    let program = vec![Instr::IfElse(IfElse::new(
        lit(Value::Bool(true)),
        value_block(Value::Int(15)),
        Some(value_block(Value::Int(14))),
    ))];
    assert!(type_checks(&program));
    let mut ctx = Context::new();
    assert_eq!(program[0].execute(&mut ctx).unwrap(), ObjectInstance::from_value(Value::Int(15)));
    assert!(!ctx.has_errors());
}

#[test]
fn tc_if_else_in_func() {
    // func bool_to_int(b: bool) -> int { if b { 1 } else { 0 } }
    let cond = IfElse::new(
        Box::new(Instr::Var(Var::new("b".to_string()))),
        value_block(Value::Int(1)),
        Some(value_block(Value::Int(0))),
    );
    let mut body = Block::new();
    body.set_statement(false);
    body.add_instruction(Instr::IfElse(cond));
    let f = FunctionDec::new(
        "bool_to_int".to_string(),
        vec![("b".to_string(), TypeId::from("bool"))],
        Some(TypeId::from("int")),
        body,
    );
    assert!(type_checks(&vec![Instr::FunctionDec(f)]));
}

#[test]
fn tc_if_else_not_bool_in_cond() {
    // if 4.5 { 15 } else { 14 }
    let program = vec![Instr::IfElse(IfElse::new(
        lit(Value::Float("4.5".to_string())),
        value_block(Value::Int(15)),
        Some(value_block(Value::Int(14))),
    ))];
    assert!(!type_checks(&program));
}

#[test]
fn tc_if_else_mismatched_types() {
    // if true { 1 } else { 4.5 }
    let program = vec![Instr::IfElse(IfElse::new(
        lit(Value::Bool(true)),
        value_block(Value::Int(1)),
        Some(value_block(Value::Float("4.5".to_string()))),
    ))];
    assert!(!type_checks(&program));
}

#[test]
fn if_else_mismatched_types_give_error_marker() {
    let ie = IfElse::new(
        lit(Value::Bool(true)),
        value_block(Value::Int(1)),
        Some(value_block(Value::Float("4.5".to_string()))),
    );
    let mut ctx = TypeCtx::new();
    assert!(ie.resolve_type(&mut ctx).is_error());
    assert_eq!(ctx.errors().len(), 1);
}

#[test]
fn if_value_without_else_is_a_type_error() {
    let ie = IfElse::new(lit(Value::Bool(true)), value_block(Value::Int(1)), None);
    let mut ctx = TypeCtx::new();
    assert!(ie.resolve_type(&mut ctx).is_error());
    assert_eq!(ctx.errors().len(), 1);
}

#[test]
fn if_else_cached_type() {
    let mut ie = IfElse::new(
        lit(Value::Bool(true)),
        value_block(Value::Int(1)),
        Some(value_block(Value::Int(2))),
    );
    let mut ctx = TypeCtx::new();
    let t = ie.type_of(&mut ctx);
    assert_eq!(t.name(), "int");
    assert_eq!(ie.cached_type().unwrap().name(), "int");
}
