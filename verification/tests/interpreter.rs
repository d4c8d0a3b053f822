use fang::ast::{Builtin, BuiltinFnBody, Node, Spans};
use fang::bytecode::eval_bytecode;
use fang::errs::{FangErr, Stop};
use fang::host::{HostQuery, HostReply, HostTable};
use fang::scope::global_scope;

fn sp() -> Spans {
    Spans::empty()
}

fn num(v: u64) -> Node {
    Node::Integer { val: v, span: sp() }
}

fn fl(v: f64) -> Node {
    Node::Float { bits: v.to_bits(), span: sp() }
}

fn st(s: &str) -> Node {
    Node::Str { val: s.to_string(), span: sp() }
}

fn ident(s: &str) -> Node {
    Node::Identifier { val: s.to_string(), span: sp() }
}

fn add(a: Node, b: Node) -> Node {
    Node::Add { lhs: Box::new(a), rhs: Box::new(b), span: sp() }
}

fn mul(a: Node, b: Node) -> Node {
    Node::Multiply { lhs: Box::new(a), rhs: Box::new(b), span: sp() }
}

fn decl(name: &str, ty: Option<&str>, rhs: Node) -> Node {
    Node::Declaration {
        name: name.to_string(),
        rhs: Some(Box::new(rhs)),
        var_type: ty.map(|t| t.to_string()),
        span: sp(),
    }
}

fn assign(name: &str, rhs: Node) -> Node {
    Node::Assignment { name: name.to_string(), rhs: Box::new(rhs), span: sp() }
}

fn call(name: &str, args: Vec<Node>) -> Node {
    Node::Call { name: name.to_string(), args: Box::new(args), span: sp() }
}

fn log(arg: Node) -> Node {
    call("console.log", vec![arg])
}

fn typed_var(ty: &str, name: &str) -> Node {
    Node::TypedVariable { var_type: ty.to_string(), name: name.to_string(), span: sp() }
}

fn func(name: &str, args: Vec<Node>, body: Vec<Node>, ret: Option<&str>) -> Node {
    Node::Function {
        name: name.to_string(),
        args: Box::new(args),
        body: Box::new(body),
        return_type: ret.map(|t| t.to_string()),
        span: sp(),
    }
}

fn ret(v: Node) -> Node {
    Node::Return { value: Box::new(v), span: sp() }
}

fn answer(q: HostQuery) -> HostReply {
    match q {
        HostQuery::FloatOfInt { val } => HostReply::Bits { bits: (val as f64).to_bits() },
        HostQuery::FloatAdd { a, b } => HostReply::Bits {
            bits: (f64::from_bits(a) + f64::from_bits(b)).to_bits(),
        },
        HostQuery::FloatSub { a, b } => HostReply::Bits {
            bits: (f64::from_bits(a) - f64::from_bits(b)).to_bits(),
        },
        HostQuery::FloatMul { a, b } => HostReply::Bits {
            bits: (f64::from_bits(a) * f64::from_bits(b)).to_bits(),
        },
        HostQuery::FloatDiv { a, b } => HostReply::Bits {
            bits: (f64::from_bits(a) / f64::from_bits(b)).to_bits(),
        },
        HostQuery::FloatText { bits } => HostReply::Text {
            text: f64::from_bits(bits).to_string(),
        },
    }
}

fn run_program(ast: Vec<Node>) -> Result<Vec<String>, Stop> {
    let mut table = HostTable::new();
    loop {
        let mut scope = global_scope();
        let mut out: Vec<String> = Vec::new();
        match eval_bytecode(ast.clone(), &mut scope, &table, &mut out, 100000) {
            Ok(_) => return Ok(out),
            Err(Stop::Pending { query }) => {
                let reply = answer(query);
                table.push(query, reply);
            },
            Err(e) => return Err(e),
        }
    }
}

#[test]
fn arithmetic_precedence_prints_seven() {
    // let x: int = 1 + 2 * 3; console.log(x);
    let ast = vec![
        decl("x", Some("int"), add(num(1), mul(num(2), num(3)))),
        log(ident("x")),
    ];
    assert_eq!(run_program(ast).unwrap(), vec!["7".to_string()]);
}

#[test]
fn float_addition_prints_three_point_five() {
    // let a: float = 1; let b: float = 2.5; console.log(a + b);
    // the integer literal is widened to a float at the declaration
    let ast = vec![
        decl("a", Some("float"), num(1)),
        decl("b", Some("float"), fl(2.5)),
        log(add(ident("a"), ident("b"))),
    ];
    assert_eq!(run_program(ast).unwrap(), vec!["3.5".to_string()]);
}

#[test]
fn float_declaration_widens_integer() {
    // let a: float = 1; console.log(a);
    let ast = vec![decl("a", Some("float"), num(1)), log(ident("a"))];
    assert_eq!(run_program(ast).unwrap(), vec!["1".to_string()]);
}

#[test]
fn non_numeric_float_declaration_is_still_refused() {
    // let a: float = "x";
    let ast = vec![decl("a", Some("float"), st("x"))];
    match run_program(ast) {
        Err(Stop::Fault { err: FangErr::TypeMismatch { expected, found, .. } }) => {
            assert_eq!(expected, "float");
            assert_eq!(found, "string");
        },
        other => panic!("expected a type mismatch, got {:?}", other),
    }
}

#[test]
fn function_after_variable_of_same_name_is_refused() {
    // let x: int = 1; fn x() {}
    let ast = vec![decl("x", Some("int"), num(1)), func("x", vec![], vec![], None)];
    match run_program(ast) {
        Err(Stop::Fault { err: FangErr::AlreadyDeclaredFunction { name, .. } }) => {
            assert_eq!(name, "x");
        },
        other => panic!("expected a redeclaration diagnostic, got {:?}", other),
    }
}

#[test]
fn call_of_unknown_name_is_an_undeclared_function() {
    let ast = vec![call("ghostly", vec![])];
    match run_program(ast) {
        Err(Stop::Fault { err: FangErr::UndeclaredFunction { name, .. } }) => {
            assert_eq!(name, "ghostly");
        },
        other => panic!("expected an undeclared-function diagnostic, got {:?}", other),
    }
}

#[test]
fn integer_widens_to_float() {
    // console.log(1 + 2.5);
    let ast = vec![log(add(num(1), fl(2.5)))];
    assert_eq!(run_program(ast).unwrap(), vec!["3.5".to_string()]);
}

#[test]
fn string_join_stringifies_integer() {
    // let s: string = "hi "; console.log(s + 42);
    let ast = vec![
        decl("s", Some("string"), st("hi ")),
        log(add(ident("s"), num(42))),
    ];
    assert_eq!(run_program(ast).unwrap(), vec!["hi 42".to_string()]);
}

#[test]
fn user_function_call_returns_sum() {
    // fn add(a: int, b: int) -> int { return a + b; } console.log(add(2, 3));
    let ast = vec![
        func(
            "sum2",
            vec![typed_var("int", "a"), typed_var("int", "b")],
            vec![ret(add(ident("a"), ident("b")))],
            Some("int"),
        ),
        log(call("sum2", vec![num(2), num(3)])),
    ];
    assert_eq!(run_program(ast).unwrap(), vec!["5".to_string()]);
}

#[test]
fn assignment_type_mismatch_reports_int_vs_string() {
    // let x: int = 1; x = "no";  The diagnostic carries the assignment's span.
    let here = Spans::new("x = \"no\";", ((2, 0), (2, 9)));
    let ast = vec![
        decl("x", Some("int"), num(1)),
        Node::Assignment {
            name: "x".to_string(),
            rhs: Box::new(st("no")),
            span: here,
        },
    ];
    match run_program(ast) {
        Err(Stop::Fault { err: FangErr::TypeMismatch { expected, found, span, .. } }) => {
            assert_eq!(expected, "int");
            assert_eq!(found, "string");
            assert_eq!(span.line_span, (2, 2));
        },
        other => panic!("expected a type mismatch, got {:?}", other),
    }
}

#[test]
fn arity_mismatch_reports_expected_one_found_two() {
    // fn f(a: int) {} f(1, 2);
    let ast = vec![
        func("f", vec![typed_var("int", "a")], vec![], None),
        call("f", vec![num(1), num(2)]),
    ];
    match run_program(ast) {
        Err(Stop::Fault { err: FangErr::ArgumentLengthMismatch { expected, found, .. } }) => {
            assert_eq!(expected, 1);
            assert_eq!(found, 2);
        },
        other => panic!("expected an arity mismatch, got {:?}", other),
    }
}

#[test]
fn redeclaration_is_refused() {
    let ast = vec![decl("x", Some("int"), num(1)), decl("x", Some("int"), num(2))];
    match run_program(ast) {
        Err(Stop::Fault { err: FangErr::AlreadyDeclaredVariable { name, .. } }) => {
            assert_eq!(name, "x");
        },
        other => panic!("expected a redeclaration diagnostic, got {:?}", other),
    }
}

#[test]
fn undeclared_variable_is_reported() {
    let ast = vec![log(ident("nope"))];
    match run_program(ast) {
        Err(Stop::Fault { err: FangErr::UndeclaredVariable { name, .. } }) => {
            assert_eq!(name, "nope");
        },
        other => panic!("expected an undeclared-variable diagnostic, got {:?}", other),
    }
}

#[test]
fn integer_division_by_zero_is_a_diagnostic() {
    let ast = vec![log(Node::Divide {
        lhs: Box::new(num(1)),
        rhs: Box::new(num(0)),
        span: sp(),
    })];
    match run_program(ast) {
        Err(Stop::Fault { err: FangErr::OperationUnsupported { op, .. } }) => {
            assert_eq!(op, "divide");
        },
        other => panic!("expected a divide diagnostic, got {:?}", other),
    }
}

#[test]
fn mixed_bool_int_coercion_is_refused() {
    let ast = vec![log(add(num(1), Node::Boolean { val: true, span: sp() }))];
    match run_program(ast) {
        Err(Stop::Fault { err: FangErr::OperationUnsupported { op, .. } }) => {
            assert_eq!(op, "coerce");
        },
        other => panic!("expected a coerce diagnostic, got {:?}", other),
    }
}

#[test]
fn object_field_access_through_dotted_name() {
    // a struct value with a field, read through `p.x`
    let obj = Node::Object {
        typed: "Point".to_string(),
        fields: Box::new(vec![Node::Field {
            name: "x".to_string(),
            value: Box::new(num(9)),
            span: sp(),
        }]),
        span: sp(),
    };
    let ast = vec![decl("p", Some("Point"), obj), log(ident("p.x"))];
    assert_eq!(run_program(ast).unwrap(), vec!["9".to_string()]);
}

#[test]
fn return_at_top_level_stops_evaluation() {
    let ast = vec![log(num(1)), ret(num(0)), log(num(2))];
    assert_eq!(run_program(ast).unwrap(), vec!["1".to_string()]);
}
