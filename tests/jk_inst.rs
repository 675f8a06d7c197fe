use jinko::{check_program, Context, FunctionCall, Instr, JkInst, JkInstKind, TypeCtx, Var};

#[test]
fn t_invalid_jkinst() {
    let fc = FunctionCall::new("tamer".to_string(), vec![]);
    let inst = JkInst::from_function_call(fc);
    assert!(inst.is_err(), "tamer is not a valid ctx directive")
}

#[test]
fn t_valid_inst_no_args() {
    let fc = FunctionCall::new("dump".to_string(), vec![]);
    let inst = JkInst::from_function_call(fc);
    assert!(inst.is_ok(), "dump is a valid ctx directive")
}

#[test]
fn t_valid_inst_with_args() {
    let fc = FunctionCall::new("ir".to_string(), vec![Instr::Var(Var::new("fn".to_string()))]);
    let inst = JkInst::from_function_call(fc);
    assert!(
        inst.is_ok(),
        "ir(func) is a valid use of the ir ctx directive"
    );
    assert_eq!(inst.unwrap().args.len(), 1);
}

#[test]
fn tc_valid_jk_inst() {
    // @dump();
    let fc = FunctionCall::new("dump".to_string(), vec![]);
    let program = vec![Instr::JkInst(JkInst::from_function_call(fc).unwrap())];
    let mut ctx = TypeCtx::new();
    assert!(check_program(&program, &mut ctx));
    let mut run = Context::new();
    assert!(program[0].execute(&mut run).is_none());
    assert!(!run.has_errors());
    assert_eq!(run.directives(), &vec![JkInstKind::Dump]);
}

#[test]
fn directive_kinds_and_print() {
    let quit = JkInst::from_function_call(FunctionCall::new("quit".to_string(), vec![])).unwrap();
    assert_eq!(quit.kind, JkInstKind::Quit);
    assert_eq!(Instr::JkInst(quit).print(), "@quit");
    let ir = JkInst::from_function_call(FunctionCall::new("ir".to_string(), vec![])).unwrap();
    assert_eq!(ir.print(), "@ir");
    let err = JkInst::from_function_call(FunctionCall::new("dumb".to_string(), vec![])).unwrap_err();
    assert_eq!(err.kind, jinko::ErrKind::Parsing);
}

#[test]
fn directive_execution_is_queued() {
    let dump = JkInst::from_function_call(FunctionCall::new("dump".to_string(), vec![])).unwrap();
    let mut ctx = Context::new();
    assert!(Instr::JkInst(dump).execute(&mut ctx).is_none());
    assert_eq!(ctx.directives(), &vec![JkInstKind::Dump]);
    ctx.clear_directives();
    assert!(ctx.directives().is_empty());
}
