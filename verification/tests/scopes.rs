use fang::ast::{Node, Spans};
use fang::errs::FangErr;
use fang::scope::{global_scope, Scope, TraitFn, Type};
use fang::strmap::StrMap;
use fang::strutil::u64_string;

fn sp() -> Spans {
    Spans::empty()
}

fn num(v: u64) -> Node {
    Node::Integer { val: v, span: sp() }
}

#[test]
fn decimal_rendering() {
    assert_eq!(u64_string(0), "0");
    assert_eq!(u64_string(7), "7");
    assert_eq!(u64_string(90210), "90210");
    assert_eq!(u64_string(u64::MAX), "18446744073709551615");
}

#[test]
fn snippet_renders_line_and_carets() {
    let span = Spans::new("let x = 1;", ((3, 4), (3, 7)));
    let text = span.snippet("demo.fg");
    assert_eq!(text, "At demo.fg:3:4\n\nlet x = 1;\n    ^^^");
}

#[test]
fn message_renders_kind_and_scope() {
    let e = FangErr::TypeMismatch {
        span: Spans::empty(),
        expected: "int".to_string(),
        found: "string".to_string(),
        scope: "<Fang>".to_string(),
    };
    let m = e.message("demo.fg");
    assert!(m.starts_with("[Type mismatch]: Expected int, found string in scope <Fang>\n"));
    assert!(m.contains("At demo.fg:0:0"));
}

#[test]
fn compare_type_matches_typed_variable_by_name() {
    let tv = Node::TypedVariable { var_type: "int".to_string(), name: "a".to_string(), span: sp() };
    assert!(tv.compare_type(&num(3)));
    assert!(num(3).compare_type(&tv));
    let sv = Node::Str { val: "x".to_string(), span: sp() };
    assert!(!tv.compare_type(&sv));
    assert!(num(1).compare_type(&num(2)));
    assert!(!num(1).compare_type(&sv));
}

#[test]
fn get_type_names_primitives_and_objects() {
    assert_eq!(num(1).get_type(), "int");
    assert_eq!(Node::Boolean { val: true, span: sp() }.get_type(), "bool");
    let obj = Node::Object { typed: "Point".to_string(), fields: Box::new(vec![]), span: sp() };
    assert_eq!(obj.get_type(), "Point");
}

#[test]
fn inspect_renders_objects_and_booleans() {
    let table = fang::host::HostTable::new();
    let obj = Node::Object {
        typed: "Point".to_string(),
        fields: Box::new(vec![
            Node::Field { name: "x".to_string(), value: Box::new(num(1)), span: sp() },
            Node::Field { name: "y".to_string(), value: Box::new(num(2)), span: sp() },
        ]),
        span: sp(),
    };
    assert_eq!(obj.inspect(&table).unwrap(), "Point {x: 1, y: 2}");
    assert_eq!(Node::Boolean { val: false, span: sp() }.inspect(&table).unwrap(), "false");
}

#[test]
fn trait_default_method_resolves_through_dotted_name() {
    // struct S {}; trait T { fn hello() -> int { return 1; } }; impl T for S;
    // an object of type S then resolves `o.hello` to a function value.
    let mut g = global_scope();
    g.define_struct("S".to_string(), vec![]).unwrap();
    let mut fns: StrMap<TraitFn> = StrMap::new();
    fns.put(
        "hello".to_string(),
        TraitFn::DefaultBody {
            name: "hello".to_string(),
            args: vec![],
            body: vec![Node::Return { value: Box::new(num(1)), span: sp() }],
            return_type: Some("int".to_string()),
        },
    );
    g.define_trait("T".to_string(), fns).unwrap();
    g.implement("S".to_string(), "T".to_string(), StrMap::new()).unwrap();
    let obj = Node::Object { typed: "S".to_string(), fields: Box::new(vec![]), span: sp() };
    g.declare("o".to_string(), obj).unwrap();
    match g.get("o.hello") {
        Some(Node::Function { name, .. }) => assert_eq!(name, "hello"),
        other => panic!("expected a function value, got {:?}", other),
    }
    let impls = g.get_implementations_for("S");
    assert_eq!(impls.len(), 1);
    assert!(impls[0].get("hello").is_some());
}

#[test]
fn second_impl_of_same_trait_is_refused() {
    let mut g = Scope::new("<Fang>".to_string(), None);
    g.define_struct("S".to_string(), vec![]).unwrap();
    g.define_trait("T".to_string(), StrMap::new()).unwrap();
    g.implement("S".to_string(), "T".to_string(), StrMap::new()).unwrap();
    match g.implement("S".to_string(), "T".to_string(), StrMap::new()) {
        Err(FangErr::AlreadyImplementedTrait { name, .. }) => assert_eq!(name, "T"),
        other => panic!("expected an already-implemented diagnostic, got {:?}", other),
    }
}

#[test]
fn missing_trait_method_in_impl_is_refused() {
    let mut g = Scope::new("<Fang>".to_string(), None);
    g.define_struct("S".to_string(), vec![]).unwrap();
    let mut fns: StrMap<TraitFn> = StrMap::new();
    fns.put(
        "must".to_string(),
        TraitFn::NoBody { name: "must".to_string(), args: vec![], return_type: None },
    );
    g.define_trait("T".to_string(), fns).unwrap();
    match g.implement("S".to_string(), "T".to_string(), StrMap::new()) {
        Err(FangErr::UndeclaredFunction { name, .. }) => assert_eq!(name, "must"),
        other => panic!("expected a missing-method diagnostic, got {:?}", other),
    }
}

#[test]
fn validate_struct_checks_field_count() {
    let ty = Type::Struct {
        name: "S".to_string(),
        fields: vec![Node::TypedVariable {
            var_type: "int".to_string(),
            name: "x".to_string(),
            span: sp(),
        }],
        implements: vec![],
        implementations: vec![],
    };
    assert!(ty.validate_struct("S", vec![num(1)]).is_ok());
    match ty.validate_struct("S", vec![]) {
        Err(FangErr::ArgumentLengthMismatch { expected, found, .. }) => {
            assert_eq!(expected, 1);
            assert_eq!(found, 0);
        },
        other => panic!("expected an arity diagnostic, got {:?}", other),
    }
}
