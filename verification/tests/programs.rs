use bytecode_vm::{
    Blob, Block, Error, ErrorKind, Host, HostReply, Op, OpResult, Prog, Type, Value, VM,
};

type Extern = fn(&[Value], bool) -> Result<Value, ErrorKind>;

struct TestHost {
    externs: Vec<Extern>,
    printed: Vec<Value>,
    blocks_shown: usize,
    stacks_shown: usize,
}

impl TestHost {
    fn new() -> Self {
        TestHost { externs: Vec::new(), printed: Vec::new(), blocks_shown: 0, stacks_shown: 0 }
    }

    fn with(externs: Vec<Extern>) -> Self {
        TestHost { externs, printed: Vec::new(), blocks_shown: 0, stacks_shown: 0 }
    }
}

impl Host for TestHost {
    fn call(&mut self, slot: usize, args: &Vec<Value>, typecheck: bool) -> Result<Value, ErrorKind> {
        match self.externs.get(slot) {
            Some(f) => f(args, typecheck),
            None => Err(ErrorKind::InvalidProgram),
        }
    }

    fn float_arith(&mut self, op: &Op, a: u64, b: u64) -> u64 {
        let (x, y) = (f64::from_bits(a), f64::from_bits(b));
        let r = match op {
            Op::Add => x + y,
            Op::Sub => x - y,
            Op::Mul => x * y,
            _ => x / y,
        };
        r.to_bits()
    }

    fn print(&mut self, value: &Value) {
        self.printed.push(value.clone());
    }

    fn show_block(&mut self, _block: &Block, _checking: bool) {
        self.blocks_shown += 1;
    }

    fn show_stack(&mut self, _vm: &VM) {
        self.stacks_shown += 1;
    }
}

const BUDGET: usize = 100_000;

fn float_value(x: f64) -> Value {
    Value::Float(x.to_bits())
}

fn int_op(i: i64) -> Op {
    Op::Constant(Value::Int(i))
}

fn text(s: &str) -> Value {
    Value::String(s.to_string())
}

fn function(block: usize) -> Op {
    Op::Constant(Value::Function(Vec::new(), block))
}

fn fn_type(args: Vec<Type>, ret: Type) -> Type {
    Type::Function(args, Box::new(ret))
}

fn block(name: &str, ty: Type, ups: Vec<(usize, bool, Type)>, ops: Vec<Op>) -> Block {
    let mut b = Block::new(name, "test.src", 1);
    b.ty = ty;
    b.ups = ups;
    for (i, op) in ops.into_iter().enumerate() {
        b.add(op, i + 1);
    }
    b
}

fn main_block(mut ops: Vec<Op>) -> Block {
    ops.push(Op::Constant(Value::Nil));
    ops.push(Op::Return);
    block("main", fn_type(vec![], Type::Void), vec![], ops)
}

fn prog(blocks: Vec<Block>) -> Prog {
    Prog { blocks, blobs: Vec::new() }
}

fn assert_equal() -> Vec<Op> {
    vec![Op::Equal, Op::Assert, Op::Pop]
}

fn run(prog: &Prog) -> Result<OpResult, Vec<Error>> {
    run_with(prog, &mut TestHost::new())
}

fn run_with(prog: &Prog, host: &mut TestHost) -> Result<OpResult, Vec<Error>> {
    let mut vm = VM::new();
    vm.typecheck(host, prog)?;
    vm.init(prog);
    vm.run(host, BUDGET).map_err(|e| vec![e])
}

fn run_unchecked(prog: &Prog) -> Result<OpResult, Error> {
    let mut vm = VM::new();
    vm.init(prog);
    vm.run(&mut TestHost::new(), BUDGET)
}

fn kinds(r: Result<OpResult, Vec<Error>>) -> Vec<ErrorKind> {
    r.unwrap_err().into_iter().map(|e| e.kind).collect()
}

#[test]
fn unreachable_token() {
    let p = prog(vec![main_block(vec![Op::Unreachable])]);
    let errors = run(&p).unwrap_err();
    assert_eq!(errors.len(), 1);
    assert!(matches!(errors[0].kind, ErrorKind::Unreachable));
}

#[test]
fn unreachable_typechecks_and_reports_its_place() {
    let p = prog(vec![main_block(vec![Op::Unreachable])]);
    let mut vm = VM::new();
    let mut host = TestHost::new();
    assert_eq!(vm.typecheck(&mut host, &p), Ok(()));
    vm.init(&p);
    let e = vm.run(&mut host, BUDGET).unwrap_err();
    assert_eq!(e.kind, ErrorKind::Unreachable);
    assert_eq!(e.file, "test.src");
    assert_eq!(e.line, 1);
    assert_eq!(e.message, None);
}

#[test]
fn terms_and_factors() {
    let mut ops = vec![int_op(1), int_op(1), int_op(2), Op::Mul, Op::Add, int_op(3)];
    ops.extend(assert_equal());
    ops.extend(vec![int_op(1), int_op(2), Op::Mul, int_op(3), Op::Add, int_op(5)]);
    ops.extend(assert_equal());
    assert_eq!(run(&prog(vec![main_block(ops)])), Ok(OpResult::Done));
}

#[test]
fn negation() {
    let mut ops = vec![int_op(1), Op::Neg, int_op(0), int_op(1), Op::Sub];
    ops.extend(assert_equal());
    ops.extend(vec![int_op(1), int_op(2), Op::Add, Op::Neg, int_op(3), Op::Neg]);
    ops.extend(assert_equal());
    assert_eq!(run(&prog(vec![main_block(ops)])), Ok(OpResult::Done));
}

#[test]
fn variables_and_assignment() {
    // a := 1; b := 2; a = b; a <=> 2; b <=> 2
    let mut ops = vec![
        int_op(1),
        Op::Define(Type::UnknownType),
        int_op(2),
        Op::Define(Type::Int),
        Op::ReadLocal(2),
        Op::AssignLocal(1),
        Op::ReadLocal(1),
        int_op(2),
    ];
    ops.extend(assert_equal());
    ops.extend(vec![Op::ReadLocal(2), int_op(2)]);
    ops.extend(assert_equal());
    assert_eq!(run(&prog(vec![main_block(ops)])), Ok(OpResult::Done));
}

#[test]
fn if_else_takes_the_right_branch() {
    // a := 1; res := 0; if a == 0 { <!> } else { res = 1 }; res <=> 1
    let mut ops = vec![
        int_op(1),
        Op::Define(Type::UnknownType),
        int_op(0),
        Op::Define(Type::UnknownType),
        Op::ReadLocal(1),
        int_op(0),
        Op::Equal,
        Op::JmpFalse(10),
        Op::Unreachable,
        Op::Jmp(12),
        int_op(1),
        Op::AssignLocal(2),
        Op::ReadLocal(2),
        int_op(1),
    ];
    ops.extend(assert_equal());
    assert_eq!(run(&prog(vec![main_block(ops)])), Ok(OpResult::Done));
}

fn add_program() -> Prog {
    // f := fn a: int, b: int -> int { ret a + b }
    // f(10, 20) <=> 30
    let f = block(
        "f",
        fn_type(vec![Type::Int, Type::Int], Type::Int),
        vec![],
        vec![Op::ReadLocal(1), Op::ReadLocal(2), Op::Add, Op::Return],
    );
    let mut ops = vec![
        function(1),
        Op::Define(Type::UnknownType),
        Op::ReadLocal(1),
        int_op(10),
        int_op(20),
        Op::Call(2),
        int_op(30),
    ];
    ops.extend(assert_equal());
    prog(vec![main_block(ops), f])
}

#[test]
fn param_2() {
    assert_eq!(run(&add_program()), Ok(OpResult::Done));
}

fn factorial_program(n: i64, expected: i64) -> Prog {
    // factorial : fn int -> int = fn n: int -> int {
    //   if n <= 1 { ret 1 }
    //   ret n * factorial(n - 1)
    // }
    let ty = fn_type(vec![Type::Int], Type::Int);
    let factorial = block(
        "factorial",
        ty.clone(),
        vec![(1, false, Type::UnknownType)],
        vec![
            Op::ReadLocal(1),
            int_op(1),
            Op::Greater,
            Op::Not,
            Op::JmpFalse(7),
            int_op(1),
            Op::Return,
            Op::ReadLocal(1),
            Op::ReadUpvalue(0),
            Op::ReadLocal(1),
            int_op(1),
            Op::Sub,
            Op::Call(1),
            Op::Mul,
            Op::Return,
        ],
    );
    let mut ops = vec![function(1), Op::Define(ty), Op::ReadLocal(1), int_op(n), Op::Call(1), int_op(expected)];
    ops.extend(assert_equal());
    prog(vec![main_block(ops), factorial])
}

#[test]
fn factorial() {
    assert_eq!(run(&factorial_program(5, 120)), Ok(OpResult::Done));
    assert_eq!(run(&factorial_program(6, 720)), Ok(OpResult::Done));
    assert_eq!(run(&factorial_program(12, 479001600)), Ok(OpResult::Done));
}

#[test]
fn factorial_with_a_wrong_expectation_fails_its_assertion() {
    assert_eq!(kinds(run(&factorial_program(5, 121))), vec![ErrorKind::Assert]);
}

fn counter_program(checks: Vec<(usize, i64)>) -> Prog {
    // f : fn -> fn -> int = fn -> fn -> int {
    //     x : int = 0
    //     f := fn -> int { x = x + 1  ret x }
    //     f() <=> 1
    //     ret f
    // }
    // a := f()
    // b := f()
    let inner_ty = fn_type(vec![], Type::Int);
    let outer_ty = fn_type(vec![], inner_ty.clone());
    let inner = block(
        "inner",
        inner_ty,
        vec![(1, false, Type::UnknownType)],
        vec![
            Op::ReadUpvalue(0),
            int_op(1),
            Op::Add,
            Op::AssignUpvalue(0),
            Op::ReadUpvalue(0),
            Op::Return,
        ],
    );
    let mut outer_ops = vec![
        int_op(0),
        Op::Define(Type::Int),
        function(2),
        Op::Define(Type::UnknownType),
        Op::ReadLocal(2),
        Op::Call(0),
        int_op(1),
    ];
    outer_ops.extend(assert_equal());
    outer_ops.extend(vec![Op::ReadLocal(2), Op::Return]);
    let outer = block("f", outer_ty.clone(), vec![], outer_ops);
    let mut ops = vec![
        function(1),
        Op::Define(outer_ty),
        Op::ReadLocal(1),
        Op::Call(0),
        Op::Define(Type::UnknownType),
        Op::ReadLocal(1),
        Op::Call(0),
        Op::Define(Type::UnknownType),
    ];
    for (local, expected) in checks {
        ops.extend(vec![Op::ReadLocal(local), Op::Call(0), int_op(expected)]);
        ops.extend(assert_equal());
    }
    prog(vec![main_block(ops), outer, inner])
}

#[test]
fn returning_closures() {
    let p = counter_program(vec![(2, 2), (2, 3), (3, 2), (3, 3), (2, 4)]);
    assert_eq!(run(&p), Ok(OpResult::Done));
}

#[test]
fn counters_of_two_activations_are_independent() {
    // were the two closures to share a cell, b() would give 4 here
    let p = counter_program(vec![(2, 2), (2, 3), (3, 4)]);
    assert_eq!(kinds(run(&p)), vec![ErrorKind::Assert]);
}

#[test]
fn closures_of_one_activation_share_their_capture() {
    // outer := fn -> int {
    //     x := 0
    //     inc := fn { x = x + 1 }
    //     get := fn -> int { ret x }
    //     inc()  inc()
    //     ret get()
    // }
    // outer() <=> 2
    let inc = block(
        "inc",
        fn_type(vec![], Type::Void),
        vec![(1, false, Type::UnknownType)],
        vec![
            Op::ReadUpvalue(0),
            int_op(1),
            Op::Add,
            Op::AssignUpvalue(0),
            Op::Constant(Value::Nil),
            Op::Return,
        ],
    );
    let get = block(
        "get",
        fn_type(vec![], Type::Int),
        vec![(1, false, Type::UnknownType)],
        vec![Op::ReadUpvalue(0), Op::Return],
    );
    let outer = block(
        "outer",
        fn_type(vec![], Type::Int),
        vec![],
        vec![
            int_op(0),
            Op::Define(Type::UnknownType),
            function(2),
            Op::Define(Type::UnknownType),
            function(3),
            Op::Define(Type::UnknownType),
            Op::ReadLocal(2),
            Op::Call(0),
            Op::Pop,
            Op::ReadLocal(2),
            Op::Call(0),
            Op::Pop,
            Op::ReadLocal(3),
            Op::Call(0),
            Op::Return,
        ],
    );
    let mut ops = vec![function(1), Op::Define(Type::UnknownType), Op::ReadLocal(1), Op::Call(0), int_op(2)];
    ops.extend(assert_equal());
    let p = prog(vec![main_block(ops), outer, inc, get]);
    assert_eq!(run(&p), Ok(OpResult::Done));
}

#[test]
fn capture_cells_are_shared_and_closed_on_frame_exit() {
    let p = counter_program(vec![]);
    let mut vm = VM::new();
    let mut host = TestHost::new();
    assert_eq!(vm.typecheck(&mut host, &p), Ok(()));
    vm.init(&p);
    assert_eq!(vm.cells_len(), 0);
    assert_eq!(vm.run(&mut host, BUDGET), Ok(OpResult::Done));
    // one cell for each activation of f, each closed over the last value
    // of its x
    assert_eq!(vm.cells_len(), 2);
    let first = vm.cell(0).unwrap();
    let second = vm.cell(1).unwrap();
    assert!(first.is_closed());
    assert!(second.is_closed());
    assert_eq!(first.value, Value::Int(1));
    assert_eq!(second.value, Value::Int(1));
    assert_eq!(vm.cell(2), None);
}

#[test]
fn pop_upvalue_closes_the_cell_over_the_popped_slot() {
    // { x := 7; g := fn -> int { ret x } ; leave the scope } g() <=> 7
    let g = block(
        "g",
        fn_type(vec![], Type::Int),
        vec![(2, false, Type::UnknownType)],
        vec![Op::ReadUpvalue(0), Op::Return],
    );
    let mut ops = vec![
        Op::Constant(Value::Nil),
        Op::Define(Type::UnknownType),
        int_op(7),
        Op::Define(Type::UnknownType),
        function(1),
        Op::AssignLocal(1),
        Op::PopUpvalue,
        Op::ReadLocal(1),
        Op::Call(0),
        int_op(7),
    ];
    ops.extend(assert_equal());
    let p = prog(vec![main_block(ops), g]);
    let mut vm = VM::new();
    vm.init(&p);
    let mut host = TestHost::new();
    assert_eq!(vm.run(&mut host, 6), Ok(OpResult::Continue));
    assert!(vm.is_open(2));
    assert!(!vm.cell(0).unwrap().is_closed());
    assert_eq!(vm.run(&mut host, 1), Ok(OpResult::Continue));
    assert!(!vm.is_open(2));
    assert_eq!(vm.cell(0).unwrap().value, Value::Int(7));
    assert!(vm.cell(0).unwrap().is_closed());
    assert_eq!(vm.run(&mut host, BUDGET), Ok(OpResult::Done));
}

#[test]
fn wrong_ret() {
    // f : fn -> int = fn {}
    let f = block(
        "f",
        fn_type(vec![], Type::Void),
        vec![],
        vec![Op::Constant(Value::Nil), Op::Return],
    );
    let ops = vec![function(1), Op::Define(fn_type(vec![], Type::Int))];
    let errors = run(&prog(vec![main_block(ops), f])).unwrap_err();
    assert_eq!(errors.len(), 1);
    assert!(matches!(errors[0].kind, ErrorKind::TypeError(_, _)));
    assert_eq!(
        errors[0].kind,
        ErrorKind::TypeError(
            Op::Define(fn_type(vec![], Type::Int)),
            vec![fn_type(vec![], Type::Int), fn_type(vec![], Type::Void)]
        )
    );
}

#[test]
fn wrong_params() {
    // f : fn -> int = fn a: int -> int {}
    let f = block(
        "f",
        fn_type(vec![Type::Int], Type::Int),
        vec![],
        vec![Op::Constant(Value::Nil), Op::Return],
    );
    let ops = vec![function(1), Op::Define(fn_type(vec![], Type::Int))];
    let errors = run(&prog(vec![main_block(ops), f])).unwrap_err();
    assert_eq!(errors.len(), 2);
    assert!(matches!(errors[0].kind, ErrorKind::TypeError(_, _)));
    assert!(matches!(errors[1].kind, ErrorKind::TypeError(_, _)));
    assert_eq!(errors[1].kind, ErrorKind::TypeError(Op::Return, vec![Type::Void, Type::Int]));
    assert_eq!(errors[1].message, Some("Not matching return type.".to_string()));
}

#[test]
fn uncallable_type() {
    // f := fn i: int { i() }
    let f = block(
        "f",
        fn_type(vec![Type::Int], Type::Void),
        vec![],
        vec![Op::ReadLocal(1), Op::Call(0), Op::Pop, Op::Constant(Value::Nil), Op::Return],
    );
    let ops = vec![function(1), Op::Define(Type::UnknownType)];
    let errors = run(&prog(vec![main_block(ops), f])).unwrap_err();
    assert_eq!(errors.len(), 1);
    assert_eq!(errors[0].kind, ErrorKind::TypeError(Op::Call(0), vec![Type::Int]));
    assert_eq!(errors[0].line, 2);
}

#[test]
fn well_typed_programs_check_and_end() {
    for p in [add_program(), factorial_program(5, 120), counter_program(vec![(2, 2)])] {
        let mut vm = VM::new();
        let mut host = TestHost::new();
        assert_eq!(vm.typecheck(&mut host, &p), Ok(()));
        vm.init(&p);
        let r = vm.run(&mut host, BUDGET).unwrap();
        assert!(r == OpResult::Done || r == OpResult::Yield);
    }
}

#[test]
fn ill_typed_programs_give_errors() {
    let programs = vec![
        prog(vec![main_block(vec![int_op(1), Op::Define(Type::Bool)])]),
        prog(vec![main_block(vec![int_op(1), text_op("a"), Op::Add])]),
        prog(vec![main_block(vec![int_op(1), Op::JmpFalse(0)])]),
    ];
    for p in programs {
        let mut vm = VM::new();
        let errors = vm.typecheck(&mut TestHost::new(), &p).unwrap_err();
        assert!(!errors.is_empty());
    }
}

fn text_op(s: &str) -> Op {
    Op::Constant(text(s))
}

#[test]
fn every_error_of_a_block_is_reported() {
    let ops = vec![
        int_op(1),
        Op::Define(Type::Bool),
        text_op("a"),
        Op::Define(Type::Int),
        Op::Pop,
        Op::Pop,
        int_op(2),
        Op::JmpFalse(0),
    ];
    let mut vm = VM::new();
    let errors = vm.typecheck(&mut TestHost::new(), &prog(vec![main_block(ops)])).unwrap_err();
    assert_eq!(errors.len(), 3);
    assert_eq!(errors[0].kind, ErrorKind::TypeError(Op::Define(Type::Bool), vec![Type::Bool, Type::Int]));
    assert_eq!(errors[1].kind, ErrorKind::TypeError(Op::Define(Type::Int), vec![Type::Int, Type::String]));
    assert_eq!(errors[2].kind, ErrorKind::TypeError(Op::JmpFalse(0), vec![Type::Int]));
    assert_eq!(errors[0].line, 2);
    assert_eq!(errors[1].line, 4);
    assert_eq!(errors[2].line, 8);
}

#[test]
fn capture_types_are_inferred_from_the_stack() {
    let g = block(
        "g",
        fn_type(vec![], Type::Void),
        vec![(1, false, Type::UnknownType), (0, true, Type::Bool)],
        vec![Op::ReadUpvalue(0), Op::Define(Type::Int), Op::Pop, Op::Constant(Value::Nil), Op::Return],
    );
    let p = prog(vec![main_block(vec![int_op(5), function(1)]), g]);
    let mut vm = VM::new();
    assert_eq!(vm.typecheck(&mut TestHost::new(), &p), Ok(()));
    let refined = vm.block(1).unwrap();
    assert_eq!(refined.ups.len(), 2);
    assert!(refined.ups[0].2 == Type::Int);
    assert_eq!(refined.ups[0].0, 1);
    assert!(!refined.ups[0].1);
    assert!(refined.ups[1].2 == Type::Bool);
}

#[test]
fn conflicting_capture_types_are_a_type_error() {
    let g = block(
        "g",
        fn_type(vec![], Type::Void),
        vec![(1, false, Type::UnknownType)],
        vec![Op::Constant(Value::Nil), Op::Return],
    );
    let ops = vec![int_op(5), function(1), Op::Pop, Op::Pop, text_op("five"), function(1)];
    let p = prog(vec![main_block(ops), g]);
    let mut vm = VM::new();
    let errors = vm.typecheck(&mut TestHost::new(), &p).unwrap_err();
    assert_eq!(errors.len(), 1);
    assert_eq!(
        errors[0].kind,
        ErrorKind::TypeError(function(1), vec![Type::Int, Type::String])
    );
    assert_eq!(errors[0].message, Some("Failed to infer type.".to_string()));
    assert!(vm.block(1).unwrap().ups[0].2 == Type::Int);
}

fn blob_program(value: Value, field_type: Type) -> Prog {
    // blob A { x: T }   a := A()   a.x = v   a.x <=> v
    let mut a = Blob::new("A");
    a.add_field("y", Type::Bool).unwrap();
    a.add_field("x", field_type).unwrap();
    let mut ops = vec![
        Op::Constant(Value::Blob(0)),
        Op::Call(0),
        Op::Define(Type::BlobInstance(0)),
        Op::ReadLocal(1),
        Op::Constant(value.clone()),
        Op::SetField("x".to_string()),
        Op::ReadLocal(1),
        Op::Get("x".to_string()),
        Op::Constant(value),
    ];
    ops.extend(assert_equal());
    Prog { blocks: vec![main_block(ops)], blobs: vec![a] }
}

#[test]
fn field_get() {
    assert_eq!(run(&blob_program(Value::Int(2), Type::Int)), Ok(OpResult::Done));
}

#[test]
fn fields_give_back_what_was_written() {
    assert_eq!(run(&blob_program(Value::Int(-7), Type::Int)), Ok(OpResult::Done));
    assert_eq!(run(&blob_program(float_value(2.5), Type::Float)), Ok(OpResult::Done));
    assert_eq!(run(&blob_program(Value::Bool(false), Type::Bool)), Ok(OpResult::Done));
    assert_eq!(run(&blob_program(text("hello"), Type::String)), Ok(OpResult::Done));
}

#[test]
fn a_field_of_another_type_is_a_type_error() {
    let errors = run(&blob_program(Value::Int(2), Type::String)).unwrap_err();
    assert_eq!(
        errors[0].kind,
        ErrorKind::TypeError(Op::SetField("x".to_string()), vec![Type::String, Type::Int])
    );
}

#[test]
fn instances_share_their_fields() {
    let mut a = Blob::new("A");
    a.add_field("x", Type::Int).unwrap();
    // a := A(); b := a; b.x = 3; a.x <=> 3
    let mut ops = vec![
        Op::Constant(Value::Blob(0)),
        Op::Call(0),
        Op::Define(Type::UnknownType),
        Op::ReadLocal(1),
        Op::Define(Type::UnknownType),
        Op::ReadLocal(2),
        int_op(3),
        Op::SetField("x".to_string()),
        Op::ReadLocal(1),
        Op::Get("x".to_string()),
        int_op(3),
    ];
    ops.extend(assert_equal());
    let p = Prog { blocks: vec![main_block(ops)], blobs: vec![a] };
    let mut vm = VM::new();
    vm.init(&p);
    assert_eq!(vm.run(&mut TestHost::new(), 2), Ok(OpResult::Continue));
    assert_eq!(vm.peek(1), Some(Value::BlobInstance(0, 0)));
    assert_eq!(vm.field(0, 0), Some(Value::Nil));
    assert_eq!(vm.field(0, 1), None);
    assert_eq!(vm.run(&mut TestHost::new(), BUDGET), Ok(OpResult::Done));
    assert_eq!(vm.field(0, 0), Some(Value::Int(3)));
}

#[test]
fn a_missing_field_is_a_runtime_type_error() {
    let a = Blob::new("A");
    let ops = vec![Op::Constant(Value::Blob(0)), Op::Call(0), Op::Get("x".to_string())];
    let p = Prog { blocks: vec![main_block(ops)], blobs: vec![a] };
    let e = {
        let mut vm = VM::new();
        vm.init(&p);
        vm.run(&mut TestHost::new(), BUDGET).unwrap_err()
    };
    assert_eq!(
        e.kind,
        ErrorKind::RuntimeTypeError(Op::Get("x".to_string()), vec![Value::BlobInstance(0, 0)])
    );
    let e = run_unchecked(&prog(vec![main_block(vec![int_op(1), Op::Get("x".to_string())])]))
        .unwrap_err();
    assert_eq!(e.kind, ErrorKind::RuntimeTypeError(Op::Get("x".to_string()), vec![Value::Int(1)]));
}

#[test]
fn illegal_opcode_is_an_invalid_program() {
    let e = run_unchecked(&prog(vec![main_block(vec![Op::Illegal])])).unwrap_err();
    assert_eq!(e.kind, ErrorKind::InvalidProgram);
}

#[test]
fn a_wrong_number_of_arguments_is_an_invalid_program() {
    let f = block(
        "f",
        fn_type(vec![Type::Int], Type::Void),
        vec![],
        vec![Op::Constant(Value::Nil), Op::Return],
    );
    let e = run_unchecked(&prog(vec![main_block(vec![function(1), Op::Call(0)]), f])).unwrap_err();
    assert_eq!(e.kind, ErrorKind::InvalidProgram);
    assert_eq!(
        e.message,
        Some("Invalid number of arguments, got 0 expected 1.".to_string())
    );
    assert_eq!(e.line, 2);
}

#[test]
fn calling_what_cannot_be_called_is_an_invalid_program() {
    let e = run_unchecked(&prog(vec![main_block(vec![int_op(1), Op::Call(0)])])).unwrap_err();
    assert_eq!(e.kind, ErrorKind::InvalidProgram);
    let e = run_unchecked(&prog(vec![main_block(vec![Op::Pop, Op::Pop])])).unwrap_err();
    assert_eq!(e.kind, ErrorKind::InvalidProgram);
}

#[test]
fn a_machine_without_a_program_fails_without_a_place() {
    let mut vm = VM::new();
    let e = vm.run(&mut TestHost::new(), BUDGET).unwrap_err();
    assert_eq!(e.kind, ErrorKind::InvalidProgram);
    assert_eq!(e.file, "");
    assert_eq!(e.line, 0);
    let empty = Prog { blocks: Vec::new(), blobs: Vec::new() };
    vm.init(&empty);
    assert_eq!(vm.run(&mut TestHost::new(), BUDGET).unwrap_err().kind, ErrorKind::InvalidProgram);
}

#[test]
fn running_off_the_end_of_a_block_is_an_invalid_program() {
    let b = block("main", fn_type(vec![], Type::Void), vec![], vec![int_op(1)]);
    let e = run_unchecked(&prog(vec![b])).unwrap_err();
    assert_eq!(e.kind, ErrorKind::InvalidProgram);
}

#[test]
fn mixed_operands_are_a_runtime_type_error() {
    let e = run_unchecked(&prog(vec![main_block(vec![int_op(1), text_op("a"), Op::Add])])).unwrap_err();
    assert_eq!(e.kind, ErrorKind::RuntimeTypeError(Op::Add, vec![Value::Int(1), text("a")]));
    let e = run_unchecked(&prog(vec![main_block(vec![text_op("a"), Op::Neg])])).unwrap_err();
    assert_eq!(e.kind, ErrorKind::RuntimeTypeError(Op::Neg, vec![text("a")]));
    let e = run_unchecked(&prog(vec![main_block(vec![int_op(1), Op::JmpFalse(0)])])).unwrap_err();
    assert_eq!(e.kind, ErrorKind::RuntimeTypeError(Op::JmpFalse(0), vec![Value::Int(1)]));
}

#[test]
fn integer_arithmetic_is_checked() {
    let e = run_unchecked(&prog(vec![main_block(vec![int_op(1), int_op(0), Op::Div])])).unwrap_err();
    assert_eq!(e.kind, ErrorKind::RuntimeTypeError(Op::Div, vec![Value::Int(1), Value::Int(0)]));
    let e = run_unchecked(&prog(vec![main_block(vec![int_op(i64::MAX), int_op(1), Op::Add])])).unwrap_err();
    assert_eq!(e.kind, ErrorKind::RuntimeTypeError(Op::Add, vec![Value::Int(i64::MAX), Value::Int(1)]));
    let e = run_unchecked(&prog(vec![main_block(vec![int_op(i64::MIN), Op::Neg])])).unwrap_err();
    assert_eq!(e.kind, ErrorKind::RuntimeTypeError(Op::Neg, vec![Value::Int(i64::MIN)]));
    let e = run_unchecked(&prog(vec![main_block(vec![int_op(i64::MIN), int_op(-1), Op::Div])])).unwrap_err();
    assert_eq!(e.kind, ErrorKind::RuntimeTypeError(Op::Div, vec![Value::Int(i64::MIN), Value::Int(-1)]));
}

fn top_after(ops: Vec<Op>) -> Value {
    let n = ops.len();
    let mut vm = VM::new();
    vm.init(&prog(vec![main_block(ops)]));
    assert_eq!(vm.run(&mut TestHost::new(), n), Ok(OpResult::Continue));
    vm.peek(vm.depth() - 1).unwrap()
}

#[test]
fn integer_division_rounds_toward_zero() {
    assert_eq!(top_after(vec![int_op(7), int_op(2), Op::Div]), Value::Int(3));
    assert_eq!(top_after(vec![int_op(-7), int_op(2), Op::Div]), Value::Int(-3));
    assert_eq!(top_after(vec![int_op(7), int_op(-2), Op::Div]), Value::Int(-3));
    assert_eq!(top_after(vec![int_op(-7), int_op(-2), Op::Div]), Value::Int(3));
    assert_eq!(top_after(vec![int_op(0), int_op(-2), Op::Div]), Value::Int(0));
    assert_eq!(top_after(vec![int_op(7), int_op(2), Op::Sub]), Value::Int(5));
    assert_eq!(top_after(vec![int_op(7), int_op(-2), Op::Mul]), Value::Int(-14));
}

#[test]
fn texts_concatenate_and_compare() {
    assert_eq!(top_after(vec![text_op("ab"), text_op("cd"), Op::Add]), text("abcd"));
    assert_eq!(top_after(vec![text_op("ab"), text_op("ab"), Op::Equal]), Value::Bool(true));
    assert_eq!(top_after(vec![text_op("ab"), text_op("b"), Op::Less]), Value::Bool(true));
    assert_eq!(top_after(vec![text_op("ab"), text_op("a"), Op::Less]), Value::Bool(false));
    assert_eq!(top_after(vec![text_op("ab"), text_op("a"), Op::Greater]), Value::Bool(true));
    assert_eq!(top_after(vec![text_op(""), text_op(""), Op::Less]), Value::Bool(false));
    assert_eq!(top_after(vec![text_op("é"), text_op("z"), Op::Greater]), Value::Bool(true));
}

#[test]
fn booleans_combine_and_compare() {
    let t = || Op::Constant(Value::Bool(true));
    let f = || Op::Constant(Value::Bool(false));
    assert_eq!(top_after(vec![t(), f(), Op::And]), Value::Bool(false));
    assert_eq!(top_after(vec![t(), f(), Op::Or]), Value::Bool(true));
    assert_eq!(top_after(vec![t(), Op::Not]), Value::Bool(false));
    assert_eq!(top_after(vec![f(), t(), Op::Less]), Value::Bool(true));
    assert_eq!(top_after(vec![t(), f(), Op::Less]), Value::Bool(false));
    assert_eq!(top_after(vec![t(), f(), Op::Greater]), Value::Bool(true));
    assert_eq!(top_after(vec![t(), t(), Op::Equal]), Value::Bool(true));
}

#[test]
fn floats_compute_through_the_host_and_compare_by_their_bits() {
    let c = |x: f64| Op::Constant(float_value(x));
    assert_eq!(top_after(vec![c(1.5), c(2.25), Op::Add]), float_value(3.75));
    assert_eq!(top_after(vec![c(1.5), c(2.0), Op::Mul]), float_value(3.0));
    assert_eq!(top_after(vec![c(1.0), c(4.0), Op::Div]), float_value(0.25));
    assert_eq!(top_after(vec![c(1.0), c(4.0), Op::Sub]), float_value(-3.0));
    assert_eq!(top_after(vec![c(1.5), Op::Neg]), float_value(-1.5));
    let samples = [
        0.0,
        -0.0,
        1.0,
        -1.0,
        1.5,
        -1.5,
        f64::MIN_POSITIVE,
        f64::MAX,
        f64::MIN,
        f64::INFINITY,
        f64::NEG_INFINITY,
        f64::NAN,
        5e-324,
        -5e-324,
    ];
    for x in samples {
        for y in samples {
            assert_eq!(top_after(vec![c(x), c(y), Op::Equal]), Value::Bool(x == y), "{} == {}", x, y);
            assert_eq!(top_after(vec![c(x), c(y), Op::Less]), Value::Bool(x < y), "{} < {}", x, y);
            assert_eq!(top_after(vec![c(x), c(y), Op::Greater]), Value::Bool(x > y), "{} > {}", x, y);
        }
    }
}

#[test]
fn yield_suspends_and_the_next_run_goes_on() {
    let mut ops = vec![int_op(1), Op::Yield, int_op(1)];
    ops.extend(assert_equal());
    let p = prog(vec![main_block(ops)]);
    let mut vm = VM::new();
    let mut host = TestHost::new();
    assert_eq!(vm.typecheck(&mut host, &p), Ok(()));
    vm.init(&p);
    assert_eq!(vm.run(&mut host, BUDGET), Ok(OpResult::Yield));
    assert_eq!(vm.frame().unwrap().ip, 2);
    assert_eq!(vm.run(&mut host, BUDGET), Ok(OpResult::Done));
}

#[test]
fn a_run_out_of_budget_can_be_taken_up_again() {
    let p = add_program();
    let mut vm = VM::new();
    let mut host = TestHost::new();
    vm.init(&p);
    assert_eq!(vm.run(&mut host, 0), Ok(OpResult::Continue));
    assert_eq!(vm.frame().unwrap().ip, 0);
    assert_eq!(vm.run(&mut host, 3), Ok(OpResult::Continue));
    assert_eq!(vm.frame().unwrap().ip, 3);
    assert_eq!(vm.run(&mut host, BUDGET), Ok(OpResult::Done));
    // an endless loop uses up any budget
    let looping = prog(vec![main_block(vec![Op::Jmp(0)])]);
    vm.init(&looping);
    assert_eq!(vm.run(&mut host, 1000), Ok(OpResult::Continue));
}

fn double(args: &[Value], _typecheck: bool) -> Result<Value, ErrorKind> {
    match args {
        [Value::Int(i)] => Ok(Value::Int(2 * i)),
        _ => Err(ErrorKind::Assert),
    }
}

#[test]
fn external_functions_are_the_hosts() {
    let mut ops = vec![Op::Constant(Value::ExternFunction(0)), int_op(21), Op::Call(1), int_op(42)];
    ops.extend(assert_equal());
    let p = prog(vec![main_block(ops)]);
    let mut vm = VM::new();
    let mut host = TestHost::with(vec![double]);
    vm.init(&p);
    assert_eq!(vm.run(&mut host, BUDGET), Ok(OpResult::Done));

    let bad = prog(vec![main_block(vec![
        Op::Constant(Value::ExternFunction(0)),
        text_op("x"),
        Op::Call(1),
    ])]);
    vm.init(&bad);
    let e = vm.run(&mut host, BUDGET).unwrap_err();
    assert_eq!(e.kind, ErrorKind::Assert);
    assert_eq!(e.message, Some("Wrong arguments to external function".to_string()));
    assert_eq!(vm.depth(), 3);

    let errors = vm.typecheck(&mut host, &bad).unwrap_err();
    assert_eq!(errors.len(), 1);
    assert_eq!(errors[0].kind, ErrorKind::Assert);
}

#[test]
fn print_hands_the_value_to_the_host() {
    let p = prog(vec![main_block(vec![int_op(42), Op::Print, text_op("x"), Op::Print])]);
    let mut host = TestHost::new();
    assert_eq!(run_with(&p, &mut host), Ok(OpResult::Done));
    // the checker prints nothing
    assert_eq!(host.printed, vec![Value::Int(42), text("x")]);
}

#[test]
fn dumps_are_shown_only_where_they_are_switched_on() {
    let p = add_program();
    let mut host = TestHost::new();
    let mut vm = VM::new();
    assert!(!vm.prints_blocks());
    assert!(!vm.prints_ops());
    vm.typecheck(&mut host, &p).unwrap();
    vm.init(&p);
    vm.run(&mut host, BUDGET).unwrap();
    assert_eq!(host.blocks_shown, 0);
    assert_eq!(host.stacks_shown, 0);
    let mut vm = VM::new().print_blocks(true).print_ops(true);
    assert!(vm.prints_blocks());
    assert!(vm.prints_ops());
    vm.typecheck(&mut host, &p).unwrap();
    assert_eq!(host.blocks_shown, 2);
    assert_eq!(host.stacks_shown, 16);
    vm.init(&p);
    vm.run(&mut host, BUDGET).unwrap();
    assert_eq!(host.blocks_shown, 4);
}

#[test]
fn a_step_can_be_taken_with_a_reply_of_ones_own() {
    let p = prog(vec![main_block(vec![Op::Constant(float_value(1.0)), Op::Constant(float_value(2.0)), Op::Add])]);
    let mut vm = VM::new();
    vm.init(&p);
    assert_eq!(vm.run(&mut TestHost::new(), 2), Ok(OpResult::Continue));
    let request = vm.request(&Op::Add);
    assert_eq!(request, bytecode_vm::HostRequest::Float(Op::Add, 1.0f64.to_bits(), 2.0f64.to_bits()));
    let reply = HostReply { float: 9.0f64.to_bits(), outcome: Err(ErrorKind::InvalidProgram) };
    assert_eq!(vm.apply(Op::Add, reply), Ok(OpResult::Continue));
    assert_eq!(vm.peek(1), Some(float_value(9.0)));
    assert_eq!(vm.depth(), 2);
}

#[test]
fn init_starts_from_the_entry_block() {
    let p = add_program();
    let mut vm = VM::new();
    vm.init(&p);
    assert_eq!(vm.depth(), 1);
    assert_eq!(vm.peek(0), Some(Value::Function(Vec::new(), 0)));
    let frame = vm.frame().unwrap();
    assert_eq!((frame.stack_offset, frame.block, frame.ip), (0, 0, 0));
    assert_eq!(vm.blocks_len(), 2);
    assert_eq!(vm.op(), Some(function(1)));
}

fn failing(_args: &[Value], _typecheck: bool) -> Result<Value, ErrorKind> {
    Err(ErrorKind::CompileError)
}

fn flagged(_args: &[Value], typecheck: bool) -> Result<Value, ErrorKind> {
    if typecheck {
        Err(ErrorKind::SyntaxError)
    } else {
        Ok(Value::Nil)
    }
}

#[test]
fn the_error_of_an_external_function_is_passed_on() {
    let p = prog(vec![main_block(vec![Op::Constant(Value::ExternFunction(0)), Op::Call(0)])]);
    let mut vm = VM::new();
    let mut host = TestHost::with(vec![failing]);
    vm.init(&p);
    assert_eq!(vm.run(&mut host, BUDGET).unwrap_err().kind, ErrorKind::CompileError);
    // the flag is false while the machine runs, and while it checks
    let mut host = TestHost::with(vec![flagged]);
    assert_eq!(vm.typecheck(&mut host, &p), Ok(()));
    vm.init(&p);
    assert_eq!(vm.run(&mut host, BUDGET), Ok(OpResult::Done));
    // a slot that the host does not have is the host's to refuse
    let missing = prog(vec![main_block(vec![Op::Constant(Value::ExternFunction(3)), Op::Call(0)])]);
    vm.init(&missing);
    assert_eq!(vm.run(&mut host, BUDGET).unwrap_err().kind, ErrorKind::InvalidProgram);
}

#[test]
fn no_cell_is_opened_over_the_first_slot() {
    let g = block(
        "g",
        fn_type(vec![], Type::Void),
        vec![(0, false, Type::UnknownType)],
        vec![Op::Constant(Value::Nil), Op::Return],
    );
    let p = prog(vec![main_block(vec![function(1)]), g]);
    let mut vm = VM::new();
    vm.init(&p);
    let e = vm.run(&mut TestHost::new(), BUDGET).unwrap_err();
    assert_eq!(e.kind, ErrorKind::InvalidProgram);
    assert_eq!(vm.cells_len(), 0);
    assert!(!vm.is_open(0));
}

#[test]
fn a_capture_that_the_running_closure_lacks_is_an_invalid_program() {
    let g = block(
        "g",
        fn_type(vec![], Type::Void),
        vec![(0, true, Type::Int)],
        vec![Op::Constant(Value::Nil), Op::Return],
    );
    let p = prog(vec![main_block(vec![function(1)]), g]);
    assert_eq!(run_unchecked(&p).unwrap_err().kind, ErrorKind::InvalidProgram);
    let reads = prog(vec![main_block(vec![Op::ReadUpvalue(0)])]);
    assert_eq!(run_unchecked(&reads).unwrap_err().kind, ErrorKind::InvalidProgram);
    let writes = prog(vec![main_block(vec![int_op(1), Op::AssignUpvalue(0)])]);
    assert_eq!(run_unchecked(&writes).unwrap_err().kind, ErrorKind::InvalidProgram);
}

#[test]
fn a_blob_called_with_arguments_gives_an_instance_in_their_place() {
    let mut a = Blob::new("A");
    a.add_field("x", Type::Int).unwrap();
    a.add_field("y", Type::String).unwrap();
    let ops = vec![Op::Constant(Value::Blob(0)), int_op(1), int_op(2), Op::Call(2)];
    let p = Prog { blocks: vec![main_block(ops)], blobs: vec![a] };
    let mut vm = VM::new();
    vm.init(&p);
    assert_eq!(vm.run(&mut TestHost::new(), 4), Ok(OpResult::Continue));
    assert_eq!(vm.depth(), 2);
    assert_eq!(vm.peek(1), Some(Value::BlobInstance(0, 0)));
    assert_eq!(vm.field(0, 0), Some(Value::Nil));
    assert_eq!(vm.field(0, 1), Some(Value::Nil));
    assert_eq!(vm.field(0, 2), None);
    // while types are checked the fields hold the canonical values of
    // their types
    let mut checker = VM::new();
    assert_eq!(checker.typecheck(&mut TestHost::new(), &p), Ok(()));
    assert_eq!(checker.field(0, 0), Some(Value::Int(1)));
    assert_eq!(checker.field(0, 1), Some(Value::String(String::new())));
    let unknown = Prog {
        blocks: vec![main_block(vec![Op::Constant(Value::Blob(1)), Op::Call(0)])],
        blobs: vec![Blob::new("A")],
    };
    assert_eq!(run_unchecked(&unknown).unwrap_err().kind, ErrorKind::InvalidProgram);
}

#[test]
fn floats_divide_by_zero_without_an_error() {
    let c = |x: f64| Op::Constant(float_value(x));
    assert_eq!(top_after(vec![c(1.0), c(0.0), Op::Div]), float_value(f64::INFINITY));
    assert_eq!(top_after(vec![c(-1.0), c(0.0), Op::Div]), float_value(f64::NEG_INFINITY));
    match top_after(vec![c(0.0), c(0.0), Op::Div]) {
        Value::Float(bits) => assert!(f64::from_bits(bits).is_nan()),
        other => panic!("{:?}", other),
    }
}

#[test]
fn the_checker_goes_on_after_an_error_with_nil_in_place_of_a_field() {
    let ops = vec![int_op(1), Op::Get("x".to_string()), Op::Define(Type::Void), Op::Pop];
    let mut vm = VM::new();
    let errors = vm.typecheck(&mut TestHost::new(), &prog(vec![main_block(ops)])).unwrap_err();
    assert_eq!(errors.len(), 1);
    assert_eq!(
        errors[0].kind,
        ErrorKind::RuntimeTypeError(Op::Get("x".to_string()), vec![Value::Int(1)])
    );
    assert_eq!(errors[0].line, 2);
}

#[test]
fn the_checker_takes_no_jump_and_stops_at_no_unreachable() {
    // the jump would leave the block; the checker reads on
    let ops = vec![
        Op::Jmp(1000),
        Op::Unreachable,
        Op::Yield,
        Op::Constant(Value::Bool(false)),
        Op::JmpFalse(1000),
        int_op(1),
        Op::Define(Type::Bool),
    ];
    let mut vm = VM::new();
    let errors = vm.typecheck(&mut TestHost::new(), &prog(vec![main_block(ops)])).unwrap_err();
    assert_eq!(errors.len(), 1);
    assert_eq!(errors[0].line, 7);
    assert_eq!(vm.frame().unwrap().ip, 9);
}

#[test]
fn arguments_of_wrong_types_are_a_type_error() {
    let f = block(
        "f",
        fn_type(vec![Type::Int, Type::Bool], Type::Int),
        vec![],
        vec![Op::ReadLocal(1), Op::Return],
    );
    // the failed call leaves the stack as it was: an integer is on top
    let ops = vec![function(1), int_op(1), int_op(2), Op::Call(2), Op::Define(Type::Int)];
    let mut vm = VM::new();
    let errors = vm
        .typecheck(&mut TestHost::new(), &prog(vec![main_block(ops), f.clone()]))
        .unwrap_err();
    assert_eq!(errors.len(), 1);
    assert_eq!(errors[0].kind, ErrorKind::TypeError(Op::Call(2), vec![]));
    assert_eq!(errors[0].message, Some("Expected arguments of other types.".to_string()));
    let ops = vec![function(1), int_op(1), Op::Call(1)];
    let errors = vm.typecheck(&mut TestHost::new(), &prog(vec![main_block(ops), f])).unwrap_err();
    assert_eq!(errors[0].kind, ErrorKind::InvalidProgram);
    assert_eq!(
        errors[0].message,
        Some("Invalid number of arguments, got 1 expected 2.".to_string())
    );
}

#[test]
fn a_write_of_a_wrong_type_through_a_capture_is_a_type_error() {
    let g = block(
        "g",
        fn_type(vec![], Type::Void),
        vec![(1, false, Type::UnknownType)],
        vec![text_op("a"), Op::AssignUpvalue(0), Op::Constant(Value::Nil), Op::Return],
    );
    let p = prog(vec![main_block(vec![int_op(1), function(1)]), g]);
    let mut vm = VM::new();
    let errors = vm.typecheck(&mut TestHost::new(), &p).unwrap_err();
    assert_eq!(errors.len(), 1);
    assert_eq!(
        errors[0].kind,
        ErrorKind::TypeError(Op::AssignUpvalue(0), vec![Type::Int, Type::String])
    );
    assert_eq!(errors[0].message, Some("Incorrect type for upvalue.".to_string()));
}

#[test]
fn copies_are_equal_to_what_they_copy() {
    let p = counter_program(vec![(2, 2)]);
    let copy = p.clone();
    assert_eq!(copy.blocks.len(), p.blocks.len());
    for (a, b) in copy.blocks.iter().zip(p.blocks.iter()) {
        // opcodes that hold the unknown type equal nothing, themselves
        // included: compare what they look like
        assert_eq!(format!("{:?}", a.ops), format!("{:?}", b.ops));
        assert_eq!(a.name, b.name);
        assert_eq!(a.file, b.file);
        assert_eq!(a.line, b.line);
        assert_eq!(a.line_offsets, b.line_offsets);
        assert_eq!(a.last_line_offset, b.last_line_offset);
        assert_eq!(a.ups.len(), b.ups.len());
        assert!(a.ty == b.ty);
    }
    let e = Error {
        kind: ErrorKind::RuntimeTypeError(Op::Add, vec![Value::Int(1), text("a")]),
        file: "f".to_string(),
        line: 3,
        message: Some("m".to_string()),
    };
    assert_eq!(e.clone(), e);
    let v = Value::Function(vec![1, 2], 3);
    assert_eq!(v.clone(), v);
}

#[test]
fn passing_functions() {
    // g := fn -> int { ret 1 }
    // f := fn inner: fn -> int -> int { ret inner() }
    // f(g) <=> 1
    let g_type = fn_type(vec![], Type::Int);
    let g = block("g", g_type.clone(), vec![], vec![int_op(1), Op::Return]);
    let f = block(
        "f",
        fn_type(vec![g_type], Type::Int),
        vec![],
        vec![Op::ReadLocal(1), Op::Call(0), Op::Return],
    );
    let mut ops = vec![
        function(1),
        Op::Define(Type::UnknownType),
        function(2),
        Op::Define(Type::UnknownType),
        Op::ReadLocal(2),
        Op::ReadLocal(1),
        Op::Call(1),
        int_op(1),
    ];
    ops.extend(assert_equal());
    assert_eq!(run(&prog(vec![main_block(ops), g, f])), Ok(OpResult::Done));
}

#[test]
fn passing_functions_mixed() {
    // g := fn a: int -> int { ret a * 2 }
    // f := fn inner: fn int -> int, a: int -> int { ret inner(a) }
    // f(g, 2) <=> 4
    let g_type = fn_type(vec![Type::Int], Type::Int);
    let g = block(
        "g",
        g_type.clone(),
        vec![],
        vec![Op::ReadLocal(1), int_op(2), Op::Mul, Op::Return],
    );
    let f = block(
        "f",
        fn_type(vec![g_type, Type::Int], Type::Int),
        vec![],
        vec![Op::ReadLocal(1), Op::ReadLocal(2), Op::Call(1), Op::Return],
    );
    let mut ops = vec![
        function(1),
        Op::Define(Type::UnknownType),
        function(2),
        Op::Define(Type::UnknownType),
        Op::ReadLocal(2),
        Op::ReadLocal(1),
        int_op(2),
        Op::Call(2),
        int_op(4),
    ];
    ops.extend(assert_equal());
    assert_eq!(run(&prog(vec![main_block(ops), g, f])), Ok(OpResult::Done));
}

#[test]
fn calls_inside_calls() {
    // one := fn -> int { ret 1 }
    // add := fn a: int, b: int -> int { ret a + b }
    // add(add(one(), one()), one()) <=> 3
    let one = block("one", fn_type(vec![], Type::Int), vec![], vec![int_op(1), Op::Return]);
    let add = block(
        "add",
        fn_type(vec![Type::Int, Type::Int], Type::Int),
        vec![],
        vec![Op::ReadLocal(1), Op::ReadLocal(2), Op::Add, Op::Return],
    );
    let mut ops = vec![
        function(1),
        Op::Define(Type::UnknownType),
        function(2),
        Op::Define(Type::UnknownType),
        Op::ReadLocal(2),
        Op::ReadLocal(2),
        Op::ReadLocal(1),
        Op::Call(0),
        Op::ReadLocal(1),
        Op::Call(0),
        Op::Call(2),
        Op::ReadLocal(1),
        Op::Call(0),
        Op::Call(2),
        int_op(3),
    ];
    ops.extend(assert_equal());
    assert_eq!(run(&prog(vec![main_block(ops), one, add])), Ok(OpResult::Done));
}

#[test]
fn multiple_returns() {
    // f := fn a: int -> int { if a == 1 { ret 2 } else { ret 3 } }
    // f(0) <=> 3   f(1) <=> 2   f(2) <=> 3
    let f = block(
        "f",
        fn_type(vec![Type::Int], Type::Int),
        vec![],
        vec![
            Op::ReadLocal(1),
            int_op(1),
            Op::Equal,
            Op::JmpFalse(7),
            int_op(2),
            Op::Return,
            Op::Jmp(9),
            int_op(3),
            Op::Return,
        ],
    );
    let mut ops = vec![function(1), Op::Define(Type::UnknownType)];
    for (argument, expected) in [(0, 3), (1, 2), (2, 3)] {
        ops.extend(vec![Op::ReadLocal(1), int_op(argument), Op::Call(1), int_op(expected)]);
        ops.extend(assert_equal());
    }
    assert_eq!(run(&prog(vec![main_block(ops), f])), Ok(OpResult::Done));
}

#[test]
fn multiple_fields() {
    // blob A { a: int  b: int }   a := A()   a.a = 2   a.b = 3   a.a + a.b <=> 5
    let mut a = Blob::new("A");
    a.add_field("a", Type::Int).unwrap();
    a.add_field("b", Type::Int).unwrap();
    let mut ops = vec![
        Op::Constant(Value::Blob(0)),
        Op::Call(0),
        Op::Define(Type::UnknownType),
        Op::ReadLocal(1),
        int_op(2),
        Op::SetField("a".to_string()),
        Op::ReadLocal(1),
        int_op(3),
        Op::SetField("b".to_string()),
        Op::ReadLocal(1),
        Op::Get("a".to_string()),
        Op::ReadLocal(1),
        Op::Get("b".to_string()),
        Op::Add,
        int_op(5),
    ];
    ops.extend(assert_equal());
    let p = Prog { blocks: vec![main_block(ops)], blobs: vec![a] };
    assert_eq!(run(&p), Ok(OpResult::Done));
}

#[test]
fn simplest() {
    // f := fn {}   f()
    let f = block(
        "f",
        fn_type(vec![], Type::Void),
        vec![],
        vec![Op::Constant(Value::Nil), Op::Return],
    );
    let ops = vec![function(1), Op::Define(Type::UnknownType), Op::ReadLocal(1), Op::Call(0), Op::Pop];
    assert_eq!(run(&prog(vec![main_block(ops), f])), Ok(OpResult::Done));
}

#[test]
fn the_block_that_a_call_enters_is_the_one_shown() {
    let p = add_program();
    let mut vm = VM::new().print_blocks(true);
    let mut host = TestHost::new();
    vm.init(&p);
    // before the call: the closure, and its two arguments above it
    assert_eq!(vm.run(&mut host, 5), Ok(OpResult::Continue));
    assert_eq!(host.blocks_shown, 1);
    assert_eq!(vm.op(), Some(Op::Call(2)));
    assert_eq!(vm.callee(&Op::Call(2)), Some(1));
    assert_eq!(vm.callee(&Op::Call(1)), None);
    assert_eq!(vm.callee(&Op::Call(0)), None);
    assert_eq!(vm.callee(&Op::Call(9)), None);
    assert_eq!(vm.callee(&Op::Pop), None);
    // a run shows the block it starts in, and then each block it enters
    assert_eq!(vm.run(&mut host, 1), Ok(OpResult::Continue));
    assert_eq!(host.blocks_shown, 3);
    assert_eq!(vm.frame().unwrap().block, 1);
    // a call that enters no block shows none
    let f = block(
        "f",
        fn_type(vec![Type::Int], Type::Void),
        vec![],
        vec![Op::Constant(Value::Nil), Op::Return],
    );
    let wrong = prog(vec![main_block(vec![function(1), Op::Call(0)]), f]);
    let mut host = TestHost::new();
    vm.init(&wrong);
    assert_eq!(vm.run(&mut host, 1), Ok(OpResult::Continue));
    assert_eq!(vm.callee(&Op::Call(0)), None);
    assert_eq!(host.blocks_shown, 1);
    assert_eq!(vm.run(&mut host, BUDGET).unwrap_err().kind, ErrorKind::InvalidProgram);
    assert_eq!(host.blocks_shown, 2);
}
