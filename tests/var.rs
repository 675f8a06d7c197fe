use jinko::{
    check_program, Block, CheckedType, Context, ErrKind, FunctionCall, FunctionDec, Instr,
    ObjectInstance, TypeCtx, TypeId, Value, Var, VarAssign,
};

fn assign(mutable: bool, name: &str, v: Value) -> Instr {
    Instr::VarAssign(VarAssign::new(mutable, name.to_string(), Box::new(Instr::Const(v))))
}

#[test]
fn keep_instance() {
    let mut i = Context::new();
    let mut v = Var::new("a".to_string());
    let instance = ObjectInstance::from_value(Value::Int(15));
    v.set_instance(instance.clone());
    i.add_variable(v.clone()).unwrap();
    assert_eq!(v.execute(&mut i).unwrap(), instance);
}

#[test]
fn tc_valid() {
    // a = 15; a
    let program = vec![assign(false, "a", Value::Int(15)), Instr::Var(Var::new("a".to_string()))];
    let mut ctx = TypeCtx::new();
    assert!(check_program(&program, &mut ctx));
    let mut run = Context::new();
    assert!(program[0].execute(&mut run).is_none());
    assert_eq!(program[1].execute(&mut run).unwrap(), ObjectInstance::from_value(Value::Int(15)));
    assert!(!run.has_errors());
}

#[test]
fn tc_invalid() {
    // a (undeclared variable)
    let program = vec![Instr::Var(Var::new("a".to_string()))];
    let mut ctx = TypeCtx::new();
    assert!(!check_program(&program, &mut ctx));
}

#[test]
fn undeclared_var_fails_at_runtime() {
    let mut ctx = Context::new();
    assert!(Var::new("nope".to_string()).execute(&mut ctx).is_none());
    assert_eq!(ctx.errors().len(), 1);
    assert_eq!(ctx.errors()[0].kind, ErrKind::Context);
}

#[test]
fn read_returns_a_copy() {
    let mut ctx = Context::new();
    let mut block = Block::new();
    block.set_statement(false);
    block.add_instruction(assign(true, "a", Value::Int(1)));
    block.add_instruction(Instr::Var(Var::new("a".to_string())));
    let first = Instr::Block(block).execute(&mut ctx).unwrap();
    assert_eq!(first, ObjectInstance::from_value(Value::Int(1)));
    assert!(!ctx.has_errors());
}

#[test]
fn reassignment_rules() {
    let mut ctx = Context::new();
    assert!(assign(true, "m", Value::Int(1)).execute(&mut ctx).is_none());
    assert!(assign(false, "m", Value::Int(2)).execute(&mut ctx).is_none());
    assert!(!ctx.has_errors());
    assert_eq!(
        Var::new("m".to_string()).execute(&mut ctx).unwrap(),
        ObjectInstance::from_value(Value::Int(2))
    );
    assert!(assign(false, "k", Value::Int(1)).execute(&mut ctx).is_none());
    assert!(assign(false, "k", Value::Int(2)).execute(&mut ctx).is_none());
    assert_eq!(ctx.errors().len(), 1);
}

#[test]
fn block_stops_after_a_diagnostic() {
    let mut ctx = Context::new();
    let mut block = Block::new();
    block.set_statement(false);
    block.add_instruction(Instr::Var(Var::new("missing".to_string())));
    block.add_instruction(assign(false, "x", Value::Int(3)));
    block.add_instruction(Instr::Const(Value::Int(7)));
    assert!(Instr::Block(block).execute(&mut ctx).is_none());
    assert_eq!(ctx.errors().len(), 1);
}

#[test]
fn var_accessors() {
    let mut v = Var::new("x".to_string());
    assert_eq!(v.name(), "x");
    assert!(!v.mutable());
    v.set_mutable(true);
    assert!(v.mutable());
    assert_eq!(v.instance(), ObjectInstance::empty());
    v.set_instance(ObjectInstance::from_value(Value::Char(jinko::JinkChar::from('c'))));
    v.set_type(TypeId::from("letter"));
    assert_eq!(v.instance().ty().name(), "letter");
    assert_eq!(v.instance().as_string(), "c");
}

#[test]
fn var_cached_type_is_recomputed_when_deferred() {
    let mut v = Var::new("y".to_string());
    v.set_cached_type(CheckedType::Later);
    let mut ctx = TypeCtx::new();
    ctx.declare_var("y".to_string(), CheckedType::resolved("int")).unwrap();
    assert_eq!(v.type_of(&mut ctx).name(), "int");
    v.set_cached_type(CheckedType::resolved("bool"));
    assert_eq!(v.type_of(&mut ctx).name(), "bool");
}

#[test]
fn forward_function_reference_needs_the_second_pass() {
    // t = f(); func f() -> int { 1 }
    let mut body = Block::new();
    body.set_statement(false);
    body.add_instruction(Instr::Const(Value::Int(1)));
    let f = FunctionDec::new("f".to_string(), vec![], Some(TypeId::from("int")), body);
    let use_f = Instr::VarAssign(VarAssign::new(
        false,
        "t".to_string(),
        Box::new(Instr::FunctionCall(FunctionCall::new("f".to_string(), vec![]))),
    ));
    let program = vec![use_f, Instr::FunctionDec(f)];
    let mut first = TypeCtx::new();
    let call = FunctionCall::new("f".to_string(), vec![]);
    assert!(call.resolve_type(&mut first).is_later());
    assert!(!first.has_errors());
    let mut ctx = TypeCtx::new();
    assert!(check_program(&program, &mut ctx));
    assert_eq!(call.resolve_type(&mut ctx).name(), "int");
}

#[test]
fn never_declared_function_fails_in_second_pass() {
    let program = vec![Instr::FunctionCall(FunctionCall::new("g".to_string(), vec![]))];
    let mut ctx = TypeCtx::new();
    assert!(!check_program(&program, &mut ctx));
    assert_eq!(ctx.errors().len(), 1);
}

#[test]
fn redeclaration_in_first_and_second_pass() {
    let mut ctx = TypeCtx::new();
    assert!(ctx.declare_var("a".to_string(), CheckedType::resolved("int")).is_ok());
    assert!(ctx.declare_var("a".to_string(), CheckedType::resolved("int")).is_err());
    assert!(ctx.declare_function("f".to_string(), vec![], CheckedType::Void).is_ok());
    assert!(ctx.declare_function("f".to_string(), vec![], CheckedType::Void).is_err());
    assert!(ctx.declare_custom_type("int".to_string(), CheckedType::resolved("int"), vec![]).is_err());
    ctx.start_second_pass();
    assert!(ctx.is_second_pass());
    assert!(ctx.declare_var("a".to_string(), CheckedType::resolved("int")).is_ok());
    assert!(ctx.declare_function("f".to_string(), vec![], CheckedType::Void).is_ok());
    assert!(ctx.declare_custom_type("int".to_string(), CheckedType::resolved("int"), vec![]).is_ok());
}

#[test]
fn type_ctx_scopes_and_lookups() {
    let mut ctx = TypeCtx::new();
    assert_eq!(ctx.get_custom_type("string").unwrap().0.name(), "string");
    assert!(ctx.get_custom_type("other").is_none());
    ctx.declare_var("a".to_string(), CheckedType::resolved("int")).unwrap();
    ctx.scope_enter();
    assert!(ctx.declare_var("a".to_string(), CheckedType::resolved("bool")).is_ok());
    assert_eq!(ctx.get_var("a").unwrap().name(), "bool");
    ctx.declare_function("h".to_string(), vec![("x".to_string(), CheckedType::resolved("int"))], CheckedType::Void).unwrap();
    assert_eq!(ctx.get_function("h").unwrap().0.len(), 1);
    ctx.scope_exit();
    assert_eq!(ctx.get_var("a").unwrap().name(), "int");
    assert!(ctx.get_function("h").is_none());
    ctx.set_path(Some("main.jk".to_string()));
    assert_eq!(ctx.path().unwrap(), "main.jk");
    ctx.mark_included("lib.jk".to_string());
    assert!(ctx.is_included("lib.jk"));
    assert!(!ctx.is_included("main.jk"));
}

#[test]
fn deferred_variable_type_is_refined_in_second_pass() {
    // t = f(); x = t + 1; func f() -> int { 1 }
    let mut body = Block::new();
    body.set_statement(false);
    body.add_instruction(Instr::Const(Value::Int(1)));
    let f = FunctionDec::new("f".to_string(), vec![], Some(TypeId::from("int")), body);
    let t = Instr::VarAssign(VarAssign::new(
        false,
        "t".to_string(),
        Box::new(Instr::FunctionCall(FunctionCall::new("f".to_string(), vec![]))),
    ));
    let sum = jinko::BinaryOp::new(
        Box::new(Instr::Var(Var::new("t".to_string()))),
        Box::new(Instr::Const(Value::Int(1))),
        jinko::Operator::Add,
    );
    let x = Instr::VarAssign(VarAssign::new(false, "x".to_string(), Box::new(Instr::BinaryOp(sum))));
    let program = vec![t, x, Instr::FunctionDec(f)];
    let mut ctx = TypeCtx::new();
    assert!(check_program(&program, &mut ctx));
    assert_eq!(ctx.get_var("x").unwrap().name(), "int");
}

#[test]
fn second_pass_finds_first_pass_declarations_from_a_nested_scope() {
    let mut ctx = TypeCtx::new();
    ctx.declare_function("f".to_string(), vec![], CheckedType::resolved("int")).unwrap();
    ctx.declare_custom_type("Point".to_string(), CheckedType::resolved("Point"), vec![]).unwrap();
    ctx.start_second_pass();
    ctx.scope_enter();
    assert_eq!(ctx.get_function("f").unwrap().1.name(), "int");
    assert_eq!(ctx.get_custom_type("Point").unwrap().0.name(), "Point");
    assert!(ctx.get_function("g").is_none());
    ctx.error(jinko::Error::new(ErrKind::TypeChecker).with_msg("boom".to_string()));
    assert_eq!(ctx.errors().last().unwrap().message(), "boom");
}
