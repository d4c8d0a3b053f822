//! Lowering to opcodes, and the stack machine that executes them.
//!
//! A statement list is lowered postorder into a flat `Op` stream (operands of
//! a binary operation right to left, so the left operand ends on top of the
//! stack).  The machine scans the stream with a movable instruction pointer
//! and realizes calls by *splicing*: the callee body is evaluated in a fresh
//! child scope, and the lowering of its returned value is inserted into the
//! caller's stream right after the call instruction.

use vstd::prelude::*;
use vstd::string::StringExecFns;

use crate::ast::{
    clone_nodes, empty_spans, lemma_nodes_view, node_view, nodes_view, spec_compare_type,
    apply_add, apply_div, apply_mul, apply_sub, spec_apply_add, spec_apply_div, spec_apply_mul,
    spec_apply_sub, spec_compare_type as ast_spec_compare_type, spec_get_type as ast_spec_get_type,
    spec_inspect, spec_is_op, spec_span, spec_standardize, spec_widen, standardize_types, widen,
    Builtin, BuiltinFnBody, Node, NodeV, Spans, SpansV,
};
use crate::errs::{spec_with_span, FangErr, FangErrV, Stop, StopV};
use crate::host::{HostQuery, HostTable, TableV};
use crate::scope::{
    spec_assign, spec_declare, spec_get_args, spec_get_fn, spec_implement, spec_put_fn,
    spec_scope_get, FuncRec, FuncV, Scope, ScopeV,
};
use crate::strmap::{assoc_find, assoc_has, assoc_idx, assoc_put, lemma_assoc_idx, DeepClone, StrMap};

verus! {

/// One machine instruction.
#[derive(Debug)]
pub enum Op {
    Push { value: Node },
    Add { span: Spans },
    Subtract { span: Spans },
    Divide { span: Spans },
    Multiply { span: Spans },
    Assign { name: String, span: Spans },
    Declare { name: String, var_type: Option<String> },
    Load { name: String },
    /// A call site; `argc` is how many arguments the call site supplied.
    Call { name: String, argc: usize, span: Spans },
    Function { name: String, args: Vec<Node>, body: Vec<Node>, return_type: Option<String>, span: Spans },
    BuiltinCall { body: BuiltinFnBody },
    ImplTrait { trait_name: String, ty_name: String, fields: Vec<Node>, span: Spans },
    Return,
}

/// Mathematical model of an `Op`.
pub enum OpV {
    Push { value: NodeV },
    Add { span: SpansV },
    Subtract { span: SpansV },
    Divide { span: SpansV },
    Multiply { span: SpansV },
    Assign { name: Seq<char>, span: SpansV },
    Declare { name: Seq<char>, var_type: Option<Seq<char>> },
    Load { name: Seq<char> },
    Call { name: Seq<char>, argc: int, span: SpansV },
    Function {
        name: Seq<char>,
        args: Seq<NodeV>,
        body: Seq<NodeV>,
        return_type: Option<Seq<char>>,
        span: SpansV,
    },
    BuiltinCall { body: Builtin },
    ImplTrait { trait_name: Seq<char>, ty_name: Seq<char>, fields: Seq<NodeV>, span: SpansV },
    Return,
}

impl DeepView for Op {
    type V = OpV;

    open spec fn deep_view(&self) -> OpV {
        match self {
            Op::Push { value } => OpV::Push { value: value.deep_view() },
            Op::Add { span } => OpV::Add { span: span.deep_view() },
            Op::Subtract { span } => OpV::Subtract { span: span.deep_view() },
            Op::Divide { span } => OpV::Divide { span: span.deep_view() },
            Op::Multiply { span } => OpV::Multiply { span: span.deep_view() },
            Op::Assign { name, span } => OpV::Assign { name: name@, span: span.deep_view() },
            Op::Declare { name, var_type } => OpV::Declare {
                name: name@,
                var_type: match var_type {
                    Some(t) => Some(t@),
                    None => None,
                },
            },
            Op::Load { name } => OpV::Load { name: name@ },
            Op::Call { name, argc, span } => OpV::Call {
                name: name@,
                argc: *argc as int,
                span: span.deep_view(),
            },
            Op::Function { name, args, body, return_type, span } => OpV::Function {
                name: name@,
                args: nodes_view(*args),
                body: nodes_view(*body),
                return_type: match return_type {
                    Some(t) => Some(t@),
                    None => None,
                },
                span: span.deep_view(),
            },
            Op::BuiltinCall { body } => OpV::BuiltinCall { body: body.kind },
            Op::ImplTrait { trait_name, ty_name, fields, span } => OpV::ImplTrait {
                trait_name: trait_name@,
                ty_name: ty_name@,
                fields: nodes_view(*fields),
                span: span.deep_view(),
            },
            Op::Return => OpV::Return,
        }
    }
}

/// The opcodes of the arguments of a call, lowered right to left, from
/// position `i` down.
pub open spec fn spec_lower_rev(args: Seq<NodeV>, i: int) -> Seq<OpV>
    decreases args, i + 1,
{
    if i < 0 || i >= args.len() {
        Seq::empty()
    } else {
        spec_lower(args[i]) + spec_lower_rev(args, i - 1)
    }
}

/// The opcode stream one node lowers to: postorder, right operand before the
/// left, so the left operand ends on top of the stack.
pub open spec fn spec_lower(n: NodeV) -> Seq<OpV>
    decreases n, 0int,
{
    match n {
        NodeV::Add { lhs, rhs, span } => spec_lower(*rhs) + spec_lower(*lhs) + seq![
            OpV::Add { span },
        ],
        NodeV::Subtract { lhs, rhs, span } => spec_lower(*rhs) + spec_lower(*lhs) + seq![
            OpV::Subtract { span },
        ],
        NodeV::Multiply { lhs, rhs, span } => spec_lower(*rhs) + spec_lower(*lhs) + seq![
            OpV::Multiply { span },
        ],
        NodeV::Divide { lhs, rhs, span } => spec_lower(*rhs) + spec_lower(*lhs) + seq![
            OpV::Divide { span },
        ],
        NodeV::Declaration { name, rhs, var_type, .. } => (match rhs {
            Some(r) => spec_lower(*r),
            None => Seq::empty(),
        }) + seq![OpV::Declare { name, var_type }],
        NodeV::Assignment { name, rhs, span } => spec_lower(*rhs) + seq![
            OpV::Assign { name, span },
        ],
        NodeV::Identifier { val, .. } => seq![OpV::Load { name: val }],
        NodeV::Object { .. } => seq![OpV::Push { value: n }],
        NodeV::Function { name, args, body, return_type, span } => seq![
            OpV::Function { name, args, body, return_type, span },
        ],
        NodeV::Call { name, args, span } => spec_lower_rev(args, args.len() - 1) + seq![
            OpV::Call { name, argc: args.len() as int, span },
        ],
        NodeV::BuiltinFn { body, .. } => seq![OpV::BuiltinCall { body }],
        NodeV::TraitImpl { trait_name, ty_name, fields, span } => seq![
            OpV::ImplTrait { trait_name, ty_name, fields, span },
        ],
        NodeV::Return { value, .. } => spec_lower(*value) + seq![OpV::Return],
        NodeV::Empty => Seq::empty(),
        _ => seq![OpV::Push { value: n }],
    }
}

/// The opcodes of a statement list, in order, from position `i` on.
pub open spec fn spec_lower_list(stmts: Seq<NodeV>, i: int) -> Seq<OpV>
    decreases stmts.len() - i,
{
    if i < 0 || i >= stmts.len() {
        Seq::empty()
    } else {
        spec_lower(stmts[i]) + spec_lower_list(stmts, i + 1)
    }
}

fn lower_args_rev(args: &Vec<Node>, i: usize, ops: &mut Vec<Op>)
    requires
        i <= args@.len(),
    ensures
        final(ops).deep_view() == old(ops).deep_view() + spec_lower_rev(
            nodes_view(*args),
            i as int - 1,
        ),
    decreases args, i,
{
    proof {
        lemma_nodes_view(*args);
    }
    if i == 0 {
        proof {
            assert(final(ops).deep_view() =~= old(ops).deep_view() + spec_lower_rev(
                nodes_view(*args),
                -1,
            ));
        }
    } else {
        let ghost mid = ops.deep_view();
        lower_into(&args[i - 1], ops);
        lower_args_rev(args, i - 1, ops);
        proof {
            assert(ops.deep_view() =~= old(ops).deep_view() + spec_lower_rev(
                nodes_view(*args),
                i as int - 1,
            ));
        }
    }
}

fn lower_into(node: &Node, ops: &mut Vec<Op>)
    ensures
        final(ops).deep_view() == old(ops).deep_view() + spec_lower(node.deep_view()),
    decreases node, 1int,
{
    match node {
        Node::Add { lhs, rhs, span } => {
            lower_into(&**rhs, ops);
            lower_into(&**lhs, ops);
            let ghost mid = ops.deep_view();
            ops.push(Op::Add { span: span.clone() });
            proof {
                assert(ops.deep_view() =~= mid.push(OpV::Add { span: span.deep_view() }));
                assert(ops.deep_view() =~= old(ops).deep_view() + spec_lower(node.deep_view()));
            }
        },
        Node::Subtract { lhs, rhs, span } => {
            lower_into(&**rhs, ops);
            lower_into(&**lhs, ops);
            let ghost mid = ops.deep_view();
            ops.push(Op::Subtract { span: span.clone() });
            proof {
                assert(ops.deep_view() =~= mid.push(OpV::Subtract { span: span.deep_view() }));
                assert(ops.deep_view() =~= old(ops).deep_view() + spec_lower(node.deep_view()));
            }
        },
        Node::Multiply { lhs, rhs, span } => {
            lower_into(&**rhs, ops);
            lower_into(&**lhs, ops);
            let ghost mid = ops.deep_view();
            ops.push(Op::Multiply { span: span.clone() });
            proof {
                assert(ops.deep_view() =~= mid.push(OpV::Multiply { span: span.deep_view() }));
                assert(ops.deep_view() =~= old(ops).deep_view() + spec_lower(node.deep_view()));
            }
        },
        Node::Divide { lhs, rhs, span } => {
            lower_into(&**rhs, ops);
            lower_into(&**lhs, ops);
            let ghost mid = ops.deep_view();
            ops.push(Op::Divide { span: span.clone() });
            proof {
                assert(ops.deep_view() =~= mid.push(OpV::Divide { span: span.deep_view() }));
                assert(ops.deep_view() =~= old(ops).deep_view() + spec_lower(node.deep_view()));
            }
        },
        Node::Declaration { name, var_type, rhs, .. } => {
            match rhs {
                Some(r) => lower_into(&**r, ops),
                None => (),
            }
            let ghost mid = ops.deep_view();
            ops.push(
                Op::Declare {
                    name: name.clone(),
                    var_type: match var_type {
                        Some(t) => Some(t.clone()),
                        None => None,
                    },
                },
            );
            proof {
                assert(ops.deep_view() =~= mid.push(
                    OpV::Declare {
                        name: name@,
                        var_type: match var_type {
                            Some(t) => Some(t@),
                            None => None,
                        },
                    },
                ));
                assert(ops.deep_view() =~= old(ops).deep_view() + spec_lower(node.deep_view()));
            }
        },
        Node::Assignment { name, rhs, span } => {
            lower_into(&**rhs, ops);
            let ghost mid = ops.deep_view();
            ops.push(Op::Assign { name: name.clone(), span: span.clone() });
            proof {
                assert(ops.deep_view() =~= mid.push(
                    OpV::Assign { name: name@, span: span.deep_view() },
                ));
                assert(ops.deep_view() =~= old(ops).deep_view() + spec_lower(node.deep_view()));
            }
        },
        Node::Identifier { val, .. } => {
            ops.push(Op::Load { name: val.clone() });
            proof {
                assert(ops.deep_view() =~= old(ops).deep_view() + spec_lower(node.deep_view()));
            }
        },
        Node::Object { .. } => {
            ops.push(Op::Push { value: node.clone() });
            proof {
                assert(ops.deep_view() =~= old(ops).deep_view() + spec_lower(node.deep_view()));
            }
        },
        Node::Function { name, args, body, return_type, span } => {
            ops.push(
                Op::Function {
                    name: name.clone(),
                    args: clone_nodes(&**args),
                    body: clone_nodes(&**body),
                    return_type: match return_type {
                        Some(t) => Some(t.clone()),
                        None => None,
                    },
                    span: span.clone(),
                },
            );
            proof {
                assert(ops.deep_view() =~= old(ops).deep_view() + spec_lower(node.deep_view()));
            }
        },
        Node::Call { name, args, span } => {
            lower_args_rev(&**args, args.len(), ops);
            let ghost mid = ops.deep_view();
            ops.push(Op::Call { name: name.clone(), argc: args.len(), span: span.clone() });
            proof {
                lemma_nodes_view(**args);
                assert(ops.deep_view() =~= mid.push(
                    OpV::Call {
                        name: name@,
                        argc: args@.len() as int,
                        span: span.deep_view(),
                    },
                ));
                assert(ops.deep_view() =~= old(ops).deep_view() + spec_lower(node.deep_view()));
            }
        },
        Node::BuiltinFn { body, .. } => {
            ops.push(Op::BuiltinCall { body: *body });
            proof {
                assert(ops.deep_view() =~= old(ops).deep_view() + spec_lower(node.deep_view()));
            }
        },
        Node::TraitImpl { trait_name, ty_name, fields, span } => {
            ops.push(
                Op::ImplTrait {
                    trait_name: trait_name.clone(),
                    ty_name: ty_name.clone(),
                    fields: clone_nodes(&**fields),
                    span: span.clone(),
                },
            );
            proof {
                assert(ops.deep_view() =~= old(ops).deep_view() + spec_lower(node.deep_view()));
            }
        },
        Node::Return { value, .. } => {
            lower_into(&**value, ops);
            let ghost mid = ops.deep_view();
            ops.push(Op::Return);
            proof {
                assert(ops.deep_view() =~= mid.push(OpV::Return));
                assert(ops.deep_view() =~= old(ops).deep_view() + spec_lower(node.deep_view()));
            }
        },
        Node::Empty => {
            proof {
                assert(ops.deep_view() =~= old(ops).deep_view() + spec_lower(node.deep_view()));
            }
        },
        _ => {
            ops.push(Op::Push { value: node.clone() });
            proof {
                assert(ops.deep_view() =~= old(ops).deep_view() + spec_lower(node.deep_view()));
            }
        },
    }
}

/// Lowers one node, appending its opcodes to `ops`; see `spec_lower`.
pub fn ast_to_bytecode(node: Node, ops: &mut Vec<Op>)
    ensures
        final(ops).deep_view() == old(ops).deep_view() + spec_lower(node.deep_view()),
{
    lower_into(&node, ops);
}


/// How one run of the machine ends: the outcome, the final scope, and the
/// output lines it produced, in order.
pub struct RunOut {
    pub r: Result<Option<NodeV>, StopV>,
    pub scope: ScopeV,
    pub out: Seq<Seq<char>>,
}

/// The diagnostic for an operand or argument missing from the value stack.
pub open spec fn spec_underflow(span: SpansV, scope: Seq<char>) -> StopV {
    StopV::Fault {
        err: FangErrV::UnexpectedToken {
            span,
            expected: "value"@,
            found: "end of stack"@,
            scope,
        },
    }
}

/// Which of the four arithmetic operations an instruction performs.
#[derive(Clone, Copy, Debug, PartialEq, Eq, Structural)]
pub enum ArithOp {
    Add,
    Subtract,
    Multiply,
    Divide,
}

/// The operation applied to two standardized operands.
pub open spec fn spec_apply_op(
    k: ArithOp,
    a: NodeV,
    b: NodeV,
    span: SpansV,
    s: ScopeV,
    t: TableV,
) -> Result<NodeV, StopV> {
    match k {
        ArithOp::Add => spec_apply_add(a, b, span, s, t),
        ArithOp::Subtract => spec_apply_sub(a, b, span, s, t),
        ArithOp::Multiply => spec_apply_mul(a, b, span, s, t),
        ArithOp::Divide => spec_apply_div(a, b, span, s, t),
    }
}

/// One arithmetic instruction: the two topmost stack values (left operand on
/// top) are standardized and combined; the result replaces them.
#[verifier::opaque]
pub open spec fn spec_step_arith(
    k: ArithOp,
    stack: Seq<NodeV>,
    span: SpansV,
    s: ScopeV,
    t: TableV,
    fuel: nat,
) -> Result<Seq<NodeV>, StopV> {
    if stack.len() < 2 {
        Err(spec_underflow(span, s.name))
    } else {
        let a = stack[stack.len() - 1];
        let b = stack[stack.len() - 2];
        match spec_standardize(a, b, s, t, fuel) {
            Err(st) => Err(st),
            Ok((x, y)) => match spec_apply_op(k, x, y, span, s, t) {
                Err(st) => Err(st),
                Ok(v) => Ok(stack.take(stack.len() - 2).push(v)),
            },
        }
    }
}

/// One assignment instruction: the top of the stack replaces the binding; a
/// failing assignment's diagnostic carries this instruction's span.
#[verifier::opaque]
pub open spec fn spec_step_assign(
    stack: Seq<NodeV>,
    name: Seq<char>,
    span: SpansV,
    s: ScopeV,
) -> Result<(Seq<NodeV>, ScopeV), StopV> {
    if stack.len() == 0 {
        Err(spec_underflow(span, s.name))
    } else {
        match spec_assign(s, name, stack.last()) {
            Err(e) => Err(StopV::Fault { err: spec_with_span(e, span) }),
            Ok(s2) => Ok((stack.drop_last(), s2)),
        }
    }
}

/// One declaration instruction: the top of the stack becomes the binding.  An
/// integer value declared `float` is widened through the host first; any
/// other disagreement between the declared type and the value's is refused.
#[verifier::opaque]
pub open spec fn spec_step_declare(
    stack: Seq<NodeV>,
    name: Seq<char>,
    var_type: Option<Seq<char>>,
    s: ScopeV,
    t: TableV,
) -> Result<(Seq<NodeV>, ScopeV), StopV> {
    if stack.len() == 0 {
        Err(spec_underflow(empty_spans(), s.name))
    } else {
        let v0 = stack.last();
        let widens = match var_type {
            Some(t0) => t0 == "float"@ && v0 is Integer,
            None => false,
        };
        let vr = if widens {
            spec_widen(v0, t)
        } else {
            Ok(v0)
        };
        match vr {
            Err(e) => Err(e),
            Ok(v) => {
                let tm = match var_type {
                    Some(t0) => t0 != ast_spec_get_type(v),
                    None => false,
                };
                if tm {
                    Err(
                        StopV::Fault {
                            err: FangErrV::TypeMismatch {
                                span: empty_spans(),
                                expected: var_type->0,
                                found: ast_spec_get_type(v),
                                scope: s.name,
                            },
                        },
                    )
                } else {
                    match spec_declare(s, name, v) {
                        Err(e) => Err(StopV::Fault { err: e }),
                        Ok(s2) => Ok((stack.drop_last(), s2)),
                    }
                }
            },
        }
    }
}

/// How many of the formals take a stack argument (every formal but a self
/// reference), from position `i` on.
pub open spec fn spec_count_non_self(formals: Seq<NodeV>, i: int) -> int
    decreases formals.len() - i,
{
    if i < 0 || i >= formals.len() {
        0
    } else if formals[i] is SelfRef {
        spec_count_non_self(formals, i + 1)
    } else {
        1 + spec_count_non_self(formals, i + 1)
    }
}

/// Pops one argument per non-self formal from position `i` on, first formal
/// from the top of the stack, checking each against the formal's type.
/// Yields the arguments in formal order and the remaining stack.
pub open spec fn spec_pop_args(
    stack: Seq<NodeV>,
    formals: Seq<NodeV>,
    i: int,
    span: SpansV,
    sname: Seq<char>,
) -> Result<(Seq<NodeV>, Seq<NodeV>), FangErrV>
    decreases formals.len() - i,
{
    if i < 0 || i >= formals.len() {
        Ok((Seq::empty(), stack))
    } else if formals[i] is SelfRef {
        spec_pop_args(stack, formals, i + 1, span, sname)
    } else if stack.len() == 0 {
        Err(
            FangErrV::UnexpectedToken {
                span,
                expected: "value"@,
                found: "end of stack"@,
                scope: sname,
            },
        )
    } else {
        let prop = stack.last();
        if formals[i] is TypedVariable && !ast_spec_compare_type(prop, formals[i]) {
            Err(
                FangErrV::TypeMismatch {
                    span,
                    expected: ast_spec_get_type(formals[i]),
                    found: ast_spec_get_type(prop),
                    scope: sname,
                },
            )
        } else {
            match spec_pop_args(stack.drop_last(), formals, i + 1, span, sname) {
                Err(e) => Err(e),
                Ok((props, st)) => Ok((seq![prop] + props, st)),
            }
        }
    }
}

/// The argument-collection phase of a call instruction: the callable's
/// formals are found, the call site's arity is checked against the non-self
/// formals, and the arguments are popped and type-checked.
#[verifier::opaque]
pub open spec fn spec_step_call_args(
    stack: Seq<NodeV>,
    name: Seq<char>,
    argc: int,
    span: SpansV,
    s: ScopeV,
) -> Result<(Seq<NodeV>, Seq<NodeV>), StopV> {
    match spec_get_args(s, name) {
        None => Err(
            StopV::Fault { err: FangErrV::UndeclaredFunction { span, name, scope: s.name } },
        ),
        Some(formals) => {
            if argc != spec_count_non_self(formals, 0) {
                Err(
                    StopV::Fault {
                        err: FangErrV::ArgumentLengthMismatch {
                            span,
                            expected: spec_count_non_self(formals, 0),
                            found: argc,
                            scope: s.name,
                        },
                    },
                )
            } else {
                match spec_pop_args(stack, formals, 0, span, s.name) {
                    Err(e) => Err(StopV::Fault { err: e }),
                    Ok(p) => Ok(p),
                }
            }
        },
    }
}

/// The `console.log` built-in: renders the bound `msg` as one output line.
#[verifier::opaque]
pub open spec fn spec_step_log(s: ScopeV, t: TableV) -> Result<Seq<char>, StopV> {
    match spec_scope_get(s, "msg"@) {
        None => Err(
            StopV::Fault {
                err: FangErrV::UndeclaredVariable {
                    span: empty_spans(),
                    name: "msg"@,
                    scope: s.name,
                },
            },
        ),
        Some(v) => match spec_inspect(v, t) {
            Err(q) => Err(StopV::Pending { query: q }),
            Ok(line) => Ok(line),
        },
    }
}

/// Collects the functions of a trait-impl body into a method map, later
/// entries replacing earlier ones of the same name; a body member that is not
/// a function is refused.
pub open spec fn spec_fields_to_map(
    fields: Seq<NodeV>,
    i: int,
    acc: Seq<(Seq<char>, FuncV)>,
    sname: Seq<char>,
) -> Result<Seq<(Seq<char>, FuncV)>, FangErrV>
    decreases fields.len() - i,
{
    if i < 0 || i >= fields.len() {
        Ok(acc)
    } else {
        match fields[i] {
            NodeV::Function { name, args, body, return_type, .. } => spec_fields_to_map(
                fields,
                i + 1,
                assoc_put(acc, name, FuncV { args, body, return_type }),
                sname,
            ),
            _ => Err(
                FangErrV::UnexpectedToken {
                    span: empty_spans(),
                    expected: "Function"@,
                    found: ast_spec_get_type(fields[i]),
                    scope: sname,
                },
            ),
        }
    }
}

/// One trait-implementation instruction: the body's functions become a method
/// map, checked and recorded on the struct.
#[verifier::opaque]
pub open spec fn spec_step_impl(
    s: ScopeV,
    trait_name: Seq<char>,
    ty_name: Seq<char>,
    fields: Seq<NodeV>,
) -> Result<ScopeV, StopV> {
    match spec_fields_to_map(fields, 0, Seq::empty(), s.name) {
        Err(e) => Err(StopV::Fault { err: e }),
        Ok(m) => match spec_implement(s, ty_name, trait_name, m) {
            Err(e) => Err(StopV::Fault { err: e }),
            Ok(s2) => Ok(s2),
        },
    }
}

/// The position of the last `.` in `s`, or -1.
pub open spec fn last_dot(s: Seq<char>) -> int
    decreases s.len(),
{
    if s.len() == 0 {
        -1
    } else if s[s.len() - 1] == '.' {
        s.len() - 1
    } else {
        last_dot(s.drop_last())
    }
}

/// Binds the formals of a callee in its fresh scope, from position `i` on:
/// named formals take the arguments in order, a self reference takes the
/// object left of the last dot at the call site.
pub open spec fn spec_bind_formals(
    child: ScopeV,
    formals: Seq<NodeV>,
    props: Seq<NodeV>,
    i: int,
    selfobj: Option<NodeV>,
) -> Result<ScopeV, FangErrV>
    decreases formals.len() - i,
{
    if i < 0 || i >= formals.len() {
        Ok(child)
    } else {
        match formals[i] {
            NodeV::Identifier { val, .. } => {
                if props.len() == 0 {
                    Err(
                        FangErrV::UnexpectedToken {
                            span: empty_spans(),
                            expected: "value"@,
                            found: "end of stack"@,
                            scope: child.name,
                        },
                    )
                } else {
                    match spec_declare(child, val, props[0]) {
                        Err(e) => Err(e),
                        Ok(c) => spec_bind_formals(c, formals, props.drop_first(), i + 1, selfobj),
                    }
                }
            },
            NodeV::TypedVariable { name, .. } => {
                if props.len() == 0 {
                    Err(
                        FangErrV::UnexpectedToken {
                            span: empty_spans(),
                            expected: "value"@,
                            found: "end of stack"@,
                            scope: child.name,
                        },
                    )
                } else {
                    match spec_declare(child, name, props[0]) {
                        Err(e) => Err(e),
                        Ok(c) => spec_bind_formals(c, formals, props.drop_first(), i + 1, selfobj),
                    }
                }
            },
            NodeV::SelfRef { .. } => {
                match selfobj {
                    Some(o) => match spec_declare(child, "self"@, o) {
                        Err(e) => Err(e),
                        Ok(c) => spec_bind_formals(c, formals, props, i + 1, selfobj),
                    },
                    None => Err(
                        FangErrV::UnexpectedToken {
                            span: empty_spans(),
                            expected: "Object"@,
                            found: ast_spec_get_type(formals[i]),
                            scope: child.name,
                        },
                    ),
                }
            },
            _ => {
                if props.len() == 0 {
                    Err(
                        FangErrV::UnexpectedToken {
                            span: empty_spans(),
                            expected: "value"@,
                            found: "end of stack"@,
                            scope: child.name,
                        },
                    )
                } else {
                    Err(
                        FangErrV::UnexpectedToken {
                            span: empty_spans(),
                            expected: "Identifier"@,
                            found: ast_spec_get_type(props[0]),
                            scope: child.name,
                        },
                    )
                }
            },
        }
    }
}

/// One run of the machine over `ops` from position `i`, with the given value
/// stack, scope and host table, spending one unit of fuel per instruction
/// (and per instruction of every callee).
#[verifier::opaque]
pub open spec fn spec_run(
    ops: Seq<OpV>,
    i: int,
    stack: Seq<NodeV>,
    s: ScopeV,
    t: TableV,
    fuel: nat,
) -> RunOut
    decreases fuel, 0int,
{
    if i < 0 || i >= ops.len() {
        RunOut { r: Ok(None), scope: s, out: Seq::empty() }
    } else if fuel == 0 {
        RunOut { r: Err(StopV::OutOfFuel), scope: s, out: Seq::empty() }
    } else {
        let next_fuel = (fuel - 1) as nat;
        match ops[i] {
            OpV::Push { value } => spec_run(ops, i + 1, stack.push(value), s, t, next_fuel),
            OpV::Add { span } => match spec_step_arith(ArithOp::Add, stack, span, s, t, next_fuel) {
                Err(st) => RunOut { r: Err(st), scope: s, out: Seq::empty() },
                Ok(stack2) => spec_run(ops, i + 1, stack2, s, t, next_fuel),
            },
            OpV::Subtract { span } => match spec_step_arith(
                ArithOp::Subtract,
                stack,
                span,
                s,
                t,
                next_fuel,
            ) {
                Err(st) => RunOut { r: Err(st), scope: s, out: Seq::empty() },
                Ok(stack2) => spec_run(ops, i + 1, stack2, s, t, next_fuel),
            },
            OpV::Multiply { span } => match spec_step_arith(
                ArithOp::Multiply,
                stack,
                span,
                s,
                t,
                next_fuel,
            ) {
                Err(st) => RunOut { r: Err(st), scope: s, out: Seq::empty() },
                Ok(stack2) => spec_run(ops, i + 1, stack2, s, t, next_fuel),
            },
            OpV::Divide { span } => match spec_step_arith(
                ArithOp::Divide,
                stack,
                span,
                s,
                t,
                next_fuel,
            ) {
                Err(st) => RunOut { r: Err(st), scope: s, out: Seq::empty() },
                Ok(stack2) => spec_run(ops, i + 1, stack2, s, t, next_fuel),
            },
            OpV::Assign { name, span } => match spec_step_assign(stack, name, span, s) {
                Err(st) => RunOut { r: Err(st), scope: s, out: Seq::empty() },
                Ok((stack2, s2)) => spec_run(ops, i + 1, stack2, s2, t, next_fuel),
            },
            OpV::Declare { name, var_type } => match spec_step_declare(stack, name, var_type, s, t) {
                Err(st) => RunOut { r: Err(st), scope: s, out: Seq::empty() },
                Ok((stack2, s2)) => spec_run(ops, i + 1, stack2, s2, t, next_fuel),
            },
            OpV::Load { name } => {
                match spec_scope_get(s, name) {
                    Some(v) => spec_run(ops, i + 1, stack.push(v), s, t, next_fuel),
                    None => RunOut {
                        r: Err(
                            StopV::Fault {
                                err: FangErrV::UndeclaredVariable {
                                    span: empty_spans(),
                                    name,
                                    scope: s.name,
                                },
                            },
                        ),
                        scope: s,
                        out: Seq::empty(),
                    },
                }
            },
            OpV::Function { name, args, body, return_type, .. } => {
                match spec_put_fn(s, name, FuncV { args, body, return_type }) {
                    Err(e) => RunOut {
                        r: Err(StopV::Fault { err: e }),
                        scope: s,
                        out: Seq::empty(),
                    },
                    Ok(s2) => spec_run(ops, i + 1, stack, s2, t, next_fuel),
                }
            },
            OpV::Call { name, argc, span } => {
                match spec_step_call_args(stack, name, argc, span, s) {
                    Err(st) => RunOut { r: Err(st), scope: s, out: Seq::empty() },
                    Ok((props, stack2)) => {
                        let co = spec_scope_call(s, name, props, t, next_fuel, span);
                        match co.0 {
                            Err(st) => RunOut { r: Err(st), scope: s, out: co.1 },
                            Ok(splice) => {
                                let ops2 = ops.take(i + 1) + splice + ops.skip(i + 1);
                                let rest = spec_run(ops2, i + 1, stack2, s, t, next_fuel);
                                RunOut { r: rest.r, scope: rest.scope, out: co.1 + rest.out }
                            },
                        }
                    },
                }
            },
            OpV::BuiltinCall { body } => {
                match body {
                    Builtin::ConsoleLog => match spec_step_log(s, t) {
                        Err(st) => RunOut { r: Err(st), scope: s, out: Seq::empty() },
                        Ok(line) => {
                            let rest = spec_run(ops, i + 1, stack, s, t, next_fuel);
                            RunOut { r: rest.r, scope: rest.scope, out: seq![line] + rest.out }
                        },
                    },
                }
            },
            OpV::ImplTrait { trait_name, ty_name, fields, .. } => {
                match spec_step_impl(s, trait_name, ty_name, fields) {
                    Err(st) => RunOut { r: Err(st), scope: s, out: Seq::empty() },
                    Ok(s2) => spec_run(ops, i + 1, stack, s2, t, next_fuel),
                }
            },
            OpV::Return => RunOut {
                r: Ok(
                    if stack.len() == 0 {
                        None
                    } else {
                        Some(stack.last())
                    },
                ),
                scope: s,
                out: Seq::empty(),
            },
        }
    }
}

/// What a call does once its arguments are in hand: resolve the callable,
/// bind the formals in a fresh child scope whose parent is a snapshot of the
/// caller, run the lowered body there, and hand back the lowering of the
/// returned value, to be spliced into the caller's stream.  Resolution and
/// binding diagnostics carry the call instruction's span.
pub open spec fn spec_scope_call(
    s: ScopeV,
    name: Seq<char>,
    props: Seq<NodeV>,
    t: TableV,
    fuel: nat,
    span: SpansV,
) -> (Result<Seq<OpV>, StopV>, Seq<Seq<char>>)
    decreases fuel, 1int,
{
    match spec_get_fn(s, name) {
        None => (
            Err(
                StopV::Fault {
                    err: FangErrV::UndeclaredFunction { span, name, scope: s.name },
                },
            ),
            Seq::empty(),
        ),
        Some(f) => {
            let child0 = ScopeV {
                name,
                store: Seq::empty(),
                functions: Seq::empty(),
                types: Seq::empty(),
                parent: Some(Box::new(s)),
            };
            let d = last_dot(name);
            let selfobj = if d >= 0 {
                spec_scope_get(s, name.take(d))
            } else {
                None
            };
            match spec_bind_formals(child0, f.args, props, 0, selfobj) {
                Err(e) => (Err(StopV::Fault { err: spec_with_span(e, span) }), Seq::empty()),
                Ok(child) => {
                    let rr = spec_run(spec_lower_list(f.body, 0), 0, Seq::empty(), child, t, fuel);
                    match rr.r {
                        Err(st) => (Err(st), rr.out),
                        Ok(ret) => (
                            Ok(
                                match ret {
                                    Some(v) => spec_lower(v),
                                    None => Seq::empty(),
                                },
                            ),
                            rr.out,
                        ),
                    }
                },
            }
        },
    }
}

/// What evaluating a statement list does: lower it and run the machine from
/// the start with an empty stack.
pub open spec fn spec_eval_bytecode(stmts: Seq<NodeV>, s: ScopeV, t: TableV, fuel: nat) -> RunOut {
    spec_run(spec_lower_list(stmts, 0), 0, Seq::empty(), s, t, fuel)
}

fn step_arith(
    k: ArithOp,
    stack: Vec<Node>,
    span: Spans,
    scope: &Scope,
    table: &HostTable,
    fuel: u64,
) -> (r: Result<Vec<Node>, Stop>)
    ensures
        match spec_step_arith(
            k,
            nodes_view(stack),
            span.deep_view(),
            scope.deep_view(),
            table.deep_view(),
            fuel as nat,
        ) {
            Ok(st) => r is Ok && nodes_view(r->Ok_0) == st,
            Err(e) => r is Err && r->Err_0.deep_view() == e,
        },
{
    proof {
        reveal(spec_step_arith);
        lemma_nodes_view(stack);
    }
    let ghost stv = nodes_view(stack);
    if stack.len() < 2 {
        return Err(
            Stop::Fault {
                err: FangErr::UnexpectedToken {
                    span,
                    expected: String::from_str("value"),
                    found: String::from_str("end of stack"),
                    scope: scope.name.clone(),
                },
            },
        );
    }
    let mut stack = stack;
    let a = match stack.pop() {
        Some(a) => a,
        None => {
            proof {
                assert(false);
            }
            Node::Empty
        },
    };
    let b = match stack.pop() {
        Some(b) => b,
        None => {
            proof {
                assert(false);
            }
            Node::Empty
        },
    };
    proof {
        lemma_nodes_view(stack);
        assert(nodes_view(stack) =~= stv.take(stv.len() - 2));
    }
    let (x, y) = match standardize_types(a.boxed(), b.boxed(), scope, table, fuel) {
        Ok(p) => p,
        Err(st) => {
            return Err(st);
        },
    };
    let v = match k {
        ArithOp::Add => apply_add(x, y, span, scope, table),
        ArithOp::Subtract => apply_sub(x, y, span, scope, table),
        ArithOp::Multiply => apply_mul(x, y, span, scope, table),
        ArithOp::Divide => apply_div(x, y, span, scope, table),
    };
    let v = match v {
        Ok(v) => v,
        Err(st) => {
            return Err(st);
        },
    };
    let ghost mid = nodes_view(stack);
    stack.push(v);
    proof {
        lemma_nodes_view(stack);
        assert(nodes_view(stack) =~= mid.push(stack@[stack@.len() - 1].deep_view()));
    }
    Ok(stack)
}


/// Unfolds one successful resolution-and-binding phase of a call.
pub proof fn lemma_scope_call_unfold(
    s: ScopeV,
    name: Seq<char>,
    props: Seq<NodeV>,
    t: TableV,
    fuel: nat,
    span: SpansV,
    fv: FuncV,
    child: ScopeV,
)
    requires
        spec_get_fn(s, name) == Some(fv),
        spec_bind_formals(
            ScopeV {
                name,
                store: Seq::empty(),
                functions: Seq::empty(),
                types: Seq::empty(),
                parent: Some(Box::new(s)),
            },
            fv.args,
            props,
            0,
            if last_dot(name) >= 0 {
                spec_scope_get(s, name.take(last_dot(name)))
            } else {
                None
            },
        ) == Ok::<ScopeV, FangErrV>(child),
    ensures
        ({
            let rr = spec_run(spec_lower_list(fv.body, 0), 0, Seq::empty(), child, t, fuel);
            spec_scope_call(s, name, props, t, fuel, span) == (match rr.r {
                Err(st) => (Err::<Seq<OpV>, StopV>(st), rr.out),
                Ok(ret) => (
                    Ok::<Seq<OpV>, StopV>(
                        match ret {
                            Some(v) => spec_lower(v),
                            None => Seq::<OpV>::empty(),
                        },
                    ),
                    rr.out,
                ),
            })
        }),
{
    reveal(spec_run);
    reveal_with_fuel(spec_scope_call, 2);
    assert(spec_scope_call(s, name, props, t, fuel, span) == (match spec_get_fn(s, name) {
        None => (
            Err::<Seq<OpV>, StopV>(
                StopV::Fault {
                    err: FangErrV::UndeclaredFunction { span, name, scope: s.name },
                },
            ),
            Seq::<Seq<char>>::empty(),
        ),
        Some(f) => {
            let child0 = ScopeV {
                name,
                store: Seq::empty(),
                functions: Seq::empty(),
                types: Seq::empty(),
                parent: Some(Box::new(s)),
            };
            let d = last_dot(name);
            let selfobj = if d >= 0 {
                spec_scope_get(s, name.take(d))
            } else {
                None
            };
            match spec_bind_formals(child0, f.args, props, 0, selfobj) {
                Err(e) => (Err(StopV::Fault { err: spec_with_span(e, span) }), Seq::empty()),
                Ok(child2) => {
                    let rr = spec_run(spec_lower_list(f.body, 0), 0, Seq::empty(), child2, t, fuel);
                    match rr.r {
                        Err(st) => (Err(st), rr.out),
                        Ok(ret) => (
                            Ok(
                                match ret {
                                    Some(v) => spec_lower(v),
                                    None => Seq::empty(),
                                },
                            ),
                            rr.out,
                        ),
                    }
                },
            }
        },
    }));
}

fn count_non_self(formals: &Vec<Node>) -> (r: usize)
    ensures
        r as int == spec_count_non_self(nodes_view(*formals), 0),
{
    proof {
        lemma_nodes_view(*formals);
    }
    let ghost fv = nodes_view(*formals);
    let mut n: usize = 0;
    let mut i: usize = 0;
    while i < formals.len()
        invariant
            i <= formals@.len(),
            n <= i,
            fv == nodes_view(*formals),
            fv.len() == formals@.len(),
            forall|j: int| 0 <= j < formals@.len() ==> fv[j] == node_view(formals@[j]),
            spec_count_non_self(fv, 0) == n + spec_count_non_self(fv, i as int),
        decreases formals@.len() - i,
    {
        match &formals[i] {
            Node::SelfRef { .. } => {},
            _ => {
                n = n + 1;
            },
        }
        i = i + 1;
    }
    n
}

fn pop_args(
    stack: Vec<Node>,
    formals: &Vec<Node>,
    i: usize,
    span: &Spans,
    sname: &String,
) -> (r: Result<(Vec<Node>, Vec<Node>), FangErr>)
    ensures
        match spec_pop_args(
            nodes_view(stack),
            nodes_view(*formals),
            i as int,
            span.deep_view(),
            sname@,
        ) {
            Ok(p) => r is Ok && nodes_view(r->Ok_0.0) == p.0 && nodes_view(r->Ok_0.1) == p.1,
            Err(e) => r is Err && r->Err_0.deep_view() == e,
        },
    decreases formals@.len() - i,
{
    proof {
        lemma_nodes_view(*formals);
        lemma_nodes_view(stack);
    }
    if i >= formals.len() {
        let props: Vec<Node> = Vec::new();
        proof {
            lemma_nodes_view(props);
            assert(nodes_view(props) =~= Seq::<NodeV>::empty());
        }
        Ok((props, stack))
    } else {
        match &formals[i] {
            Node::SelfRef { .. } => pop_args(stack, formals, i + 1, span, sname),
            formal => {
                let mut stack = stack;
                let ghost stv = nodes_view(stack);
                match stack.pop() {
                    None => Err(
                        FangErr::UnexpectedToken {
                            span: span.clone(),
                            expected: String::from_str("value"),
                            found: String::from_str("end of stack"),
                            scope: sname.clone(),
                        },
                    ),
                    Some(prop) => {
                        proof {
                            lemma_nodes_view(stack);
                            assert(nodes_view(stack) =~= stv.drop_last());
                        }
                        let is_typed = matches!(formal, Node::TypedVariable { .. });
                        if is_typed && !prop.compare_type(formal) {
                            Err(
                                FangErr::TypeMismatch {
                                    span: span.clone(),
                                    expected: formal.get_type(),
                                    found: prop.get_type(),
                                    scope: sname.clone(),
                                },
                            )
                        } else {
                            match pop_args(stack, formals, i + 1, span, sname) {
                                Err(e) => Err(e),
                                Ok((props, st)) => {
                                    let ghost pv = nodes_view(props);
                                    proof {
                                        lemma_nodes_view(props);
                                    }
                                    let mut props = props;
                                    props.insert(0, prop);
                                    proof {
                                        lemma_nodes_view(props);
                                        assert(nodes_view(props) =~= seq![
                                            node_view(prop),
                                        ] + pv);
                                    }
                                    Ok((props, st))
                                },
                            }
                        }
                    },
                }
            },
        }
    }
}

fn step_call_args(
    stack: Vec<Node>,
    name: &String,
    argc: usize,
    span: &Spans,
    scope: &Scope,
) -> (r: Result<(Vec<Node>, Vec<Node>), Stop>)
    ensures
        match spec_step_call_args(
            nodes_view(stack),
            name@,
            argc as int,
            span.deep_view(),
            scope.deep_view(),
        ) {
            Ok(p) => r is Ok && nodes_view(r->Ok_0.0) == p.0 && nodes_view(r->Ok_0.1) == p.1,
            Err(e) => r is Err && r->Err_0.deep_view() == e,
        },
{
    proof {
        reveal(spec_step_call_args);
    }
    let formals: Vec<Node> = match scope.get_args(name.as_str()) {
        Some(f) => f,
        None => {
            return Err(
                Stop::Fault {
                    err: FangErr::UndeclaredFunction {
                        span: span.clone(),
                        name: name.clone(),
                        scope: scope.name.clone(),
                    },
                },
            );
        },
    };
    let nsc = count_non_self(&formals);
    if argc != nsc {
        return Err(
            Stop::Fault {
                err: FangErr::ArgumentLengthMismatch {
                    span: span.clone(),
                    expected: nsc,
                    found: argc,
                    scope: scope.name.clone(),
                },
            },
        );
    }
    match pop_args(stack, &formals, 0, span, &scope.name) {
        Ok(p) => Ok(p),
        Err(e) => Err(Stop::Fault { err: e }),
    }
}

fn step_log(scope: &Scope, table: &HostTable) -> (r: Result<String, Stop>)
    ensures
        match spec_step_log(scope.deep_view(), table.deep_view()) {
            Ok(line) => r is Ok && r->Ok_0@ == line,
            Err(e) => r is Err && r->Err_0.deep_view() == e,
        },
{
    proof {
        reveal(spec_step_log);
    }
    let msg = match scope.get("msg") {
        Some(v) => v,
        None => {
            return Err(
                Stop::Fault {
                    err: FangErr::UndeclaredVariable {
                        span: Spans::empty(),
                        name: String::from_str("msg"),
                        scope: scope.name.clone(),
                    },
                },
            );
        },
    };
    match msg.inspect(table) {
        Ok(l) => Ok(l),
        Err(q) => Err(Stop::Pending { query: q }),
    }
}

fn fields_to_map(fields: &Vec<Node>, sname: &String) -> (r: Result<StrMap<FuncRec>, FangErr>)
    ensures
        match spec_fields_to_map(nodes_view(*fields), 0, Seq::empty(), sname@) {
            Ok(m) => r is Ok && r->Ok_0.deep_view() == m,
            Err(e) => r is Err && r->Err_0.deep_view() == e,
        },
{
    proof {
        lemma_nodes_view(*fields);
    }
    let ghost fv = nodes_view(*fields);
    let mut m: StrMap<FuncRec> = StrMap::new();
    let mut i: usize = 0;
    while i < fields.len()
        invariant
            i <= fields@.len(),
            fv == nodes_view(*fields),
            fv.len() == fields@.len(),
            forall|j: int| 0 <= j < fields@.len() ==> fv[j] == node_view(fields@[j]),
            spec_fields_to_map(fv, 0, Seq::empty(), sname@) == spec_fields_to_map(
                fv,
                i as int,
                m.deep_view(),
                sname@,
            ),
        decreases fields@.len() - i,
    {
        match &fields[i] {
            Node::Function { name, args, body, return_type, .. } => {
                let rec = FuncRec {
                    args: clone_nodes(&**args),
                    body: clone_nodes(&**body),
                    return_type: match return_type {
                        Some(t) => Some(t.clone()),
                        None => None,
                    },
                };
                m.upsert(name.as_str(), rec);
            },
            other => {
                return Err(
                    FangErr::UnexpectedToken {
                        span: Spans::empty(),
                        expected: String::from_str("Function"),
                        found: other.get_type(),
                        scope: sname.clone(),
                    },
                );
            },
        }
        i = i + 1;
    }
    Ok(m)
}

fn step_impl(
    scope: &mut Scope,
    trait_name: String,
    ty_name: String,
    fields: &Vec<Node>,
) -> (r: Result<(), Stop>)
    ensures
        match spec_step_impl(
            old(scope).deep_view(),
            trait_name@,
            ty_name@,
            nodes_view(*fields),
        ) {
            Ok(s2) => r is Ok && final(scope).deep_view() == s2,
            Err(e) => r is Err && r->Err_0.deep_view() == e && final(scope).deep_view() == old(
                scope,
            ).deep_view(),
        },
{
    proof {
        reveal(spec_step_impl);
    }
    let m: StrMap<FuncRec> = match fields_to_map(fields, &scope.name) {
        Ok(m) => m,
        Err(e) => {
            return Err(Stop::Fault { err: e });
        },
    };
    match scope.implement(ty_name, trait_name, m) {
        Ok(u) => Ok(()),
        Err(e) => Err(Stop::Fault { err: e }),
    }
}

fn last_dot_exec(s: &str) -> (r: Option<usize>)
    ensures
        match r {
            Some(d) => last_dot(s@) == d as int && (d as int) < s@.len(),
            None => last_dot(s@) == -1,
        },
    decreases s@.len(),
{
    let n = s.unicode_len();
    if n == 0 {
        None
    } else if s.get_char(n - 1) == '.' {
        Some(n - 1)
    } else {
        let prefix = s.substring_char(0, n - 1);
        proof {
            assert(prefix@ =~= s@.drop_last());
        }
        last_dot_exec(prefix)
    }
}

fn bind_formals(
    child: &mut Scope,
    formals: &Vec<Node>,
    props: Vec<Node>,
    i: usize,
    selfobj: &Option<Node>,
) -> (r: Result<(), FangErr>)
    ensures
        match spec_bind_formals(
            old(child).deep_view(),
            nodes_view(*formals),
            nodes_view(props),
            i as int,
            selfobj.deep_view(),
        ) {
            Ok(c) => r is Ok && final(child).deep_view() == c,
            Err(e) => r is Err && r->Err_0.deep_view() == e,
        },
    decreases formals@.len() - i,
{
    proof {
        lemma_nodes_view(*formals);
        lemma_nodes_view(props);
    }
    if i >= formals.len() {
        return Ok(());
    }
    match &formals[i] {
        Node::Identifier { val, .. } => {
            if props.len() == 0 {
                return Err(
                    FangErr::UnexpectedToken {
                        span: Spans::empty(),
                        expected: String::from_str("value"),
                        found: String::from_str("end of stack"),
                        scope: child.name.clone(),
                    },
                );
            }
            let ghost pv = nodes_view(props);
            let mut props = props;
            let p = props.remove(0);
            proof {
                lemma_nodes_view(props);
                assert(nodes_view(props) =~= pv.drop_first());
            }
            match child.declare(val.clone(), p) {
                Ok(u) => {},
                Err(e) => {
                    return Err(e);
                },
            }
            bind_formals(child, formals, props, i + 1, selfobj)
        },
        Node::TypedVariable { name, .. } => {
            if props.len() == 0 {
                return Err(
                    FangErr::UnexpectedToken {
                        span: Spans::empty(),
                        expected: String::from_str("value"),
                        found: String::from_str("end of stack"),
                        scope: child.name.clone(),
                    },
                );
            }
            let ghost pv = nodes_view(props);
            let mut props = props;
            let p = props.remove(0);
            proof {
                lemma_nodes_view(props);
                assert(nodes_view(props) =~= pv.drop_first());
            }
            match child.declare(name.clone(), p) {
                Ok(u) => {},
                Err(e) => {
                    return Err(e);
                },
            }
            bind_formals(child, formals, props, i + 1, selfobj)
        },
        Node::SelfRef { .. } => {
            match selfobj {
                Some(o) => {
                    match child.declare(String::from_str("self"), o.clone()) {
                        Ok(u) => {},
                        Err(e) => {
                            return Err(e);
                        },
                    }
                    bind_formals(child, formals, props, i + 1, selfobj)
                },
                None => Err(
                    FangErr::UnexpectedToken {
                        span: Spans::empty(),
                        expected: String::from_str("Object"),
                        found: formals[i].get_type(),
                        scope: child.name.clone(),
                    },
                ),
            }
        },
        _ => {
            if props.len() == 0 {
                return Err(
                    FangErr::UnexpectedToken {
                        span: Spans::empty(),
                        expected: String::from_str("value"),
                        found: String::from_str("end of stack"),
                        scope: child.name.clone(),
                    },
                );
            }
            Err(
                FangErr::UnexpectedToken {
                    span: Spans::empty(),
                    expected: String::from_str("Identifier"),
                    found: props[0].get_type(),
                    scope: child.name.clone(),
                },
            )
        },
    }
}

fn splice_into(ops: &mut Vec<Op>, at: usize, ins: Vec<Op>)
    requires
        at <= old(ops)@.len(),
    ensures
        final(ops).deep_view() == old(ops).deep_view().take(at as int) + ins.deep_view() + old(
            ops,
        ).deep_view().skip(at as int),
{
    let ghost ops0 = ops.deep_view();
    let ghost insv = ins.deep_view();
    let mut ins = ins;
    let mut tail = ops.split_off(at);
    ops.append(&mut ins);
    ops.append(&mut tail);
    proof {
        assert(ops.deep_view() =~= ops0.take(at as int) + insv + ops0.skip(at as int));
    }
}

fn lower_list(stmts: &Vec<Node>, ops: &mut Vec<Op>)
    ensures
        final(ops).deep_view() == old(ops).deep_view() + spec_lower_list(nodes_view(*stmts), 0),
{
    proof {
        lemma_nodes_view(*stmts);
    }
    let ghost sv = nodes_view(*stmts);
    let mut i: usize = 0;
    while i < stmts.len()
        invariant
            i <= stmts@.len(),
            sv == nodes_view(*stmts),
            sv.len() == stmts@.len(),
            forall|j: int| 0 <= j < stmts@.len() ==> sv[j] == node_view(stmts@[j]),
            ops.deep_view() + spec_lower_list(sv, i as int) =~= old(ops).deep_view()
                + spec_lower_list(sv, 0),
        decreases stmts@.len() - i,
    {
        let ghost before = ops.deep_view();
        lower_into(&stmts[i], ops);
        i = i + 1;
        proof {
            assert(ops.deep_view() + spec_lower_list(sv, i as int) =~= old(ops).deep_view()
                + spec_lower_list(sv, 0));
        }
    }
    proof {
        assert(ops.deep_view() =~= old(ops).deep_view() + spec_lower_list(sv, 0));
    }
}


/// Running past the end of the stream is done with no result.
pub proof fn lemma_run_done(ops: Seq<OpV>, i: int, stack: Seq<NodeV>, s: ScopeV, t: TableV, fuel: nat)
    requires
        i < 0 || i >= ops.len(),
    ensures
        spec_run(ops, i, stack, s, t, fuel) == (RunOut {
            r: Ok(None::<NodeV>),
            scope: s,
            out: Seq::<Seq<char>>::empty(),
        }),
{
    reveal(spec_run);
}

/// With no fuel left, the machine stops.
pub proof fn lemma_run_no_fuel(ops: Seq<OpV>, i: int, stack: Seq<NodeV>, s: ScopeV, t: TableV)
    requires
        0 <= i < ops.len(),
    ensures
        spec_run(ops, i, stack, s, t, 0) == (RunOut {
            r: Err(StopV::OutOfFuel),
            scope: s,
            out: Seq::<Seq<char>>::empty(),
        }),
{
    reveal(spec_run);
}

/// What one `Push` step does.
pub proof fn lemma_run_push(ops: Seq<OpV>, i: int, stack: Seq<NodeV>, s: ScopeV, t: TableV, fuel: nat)
    requires
        0 <= i < ops.len(),
        fuel > 0,
        ops[i] is Push,
    ensures
        spec_run(ops, i, stack, s, t, fuel) == spec_run(
            ops,
            i + 1,
            stack.push(ops[i]->Push_value),
            s,
            t,
            (fuel - 1) as nat,
        ),
{
    reveal(spec_run);
}

/// Which arithmetic operation each arithmetic opcode performs, with its span.
pub open spec fn arith_of_op(op: OpV) -> Option<(ArithOp, SpansV)> {
    match op {
        OpV::Add { span } => Some((ArithOp::Add, span)),
        OpV::Subtract { span } => Some((ArithOp::Subtract, span)),
        OpV::Multiply { span } => Some((ArithOp::Multiply, span)),
        OpV::Divide { span } => Some((ArithOp::Divide, span)),
        _ => None,
    }
}

/// What one arithmetic step does.
pub proof fn lemma_run_arith(ops: Seq<OpV>, i: int, stack: Seq<NodeV>, s: ScopeV, t: TableV, fuel: nat)
    requires
        0 <= i < ops.len(),
        fuel > 0,
        arith_of_op(ops[i]) is Some,
    ensures
        ({
            let ka = arith_of_op(ops[i])->0;
            spec_run(ops, i, stack, s, t, fuel) == (match spec_step_arith(
                ka.0,
                stack,
                ka.1,
                s,
                t,
                (fuel - 1) as nat,
            ) {
                Err(st) => RunOut { r: Err(st), scope: s, out: Seq::<Seq<char>>::empty() },
                Ok(stack2) => spec_run(ops, i + 1, stack2, s, t, (fuel - 1) as nat),
            })
        }),
{
    reveal(spec_run);
}

/// What one `Assign` step does.
pub proof fn lemma_run_assign(ops: Seq<OpV>, i: int, stack: Seq<NodeV>, s: ScopeV, t: TableV, fuel: nat)
    requires
        0 <= i < ops.len(),
        fuel > 0,
        ops[i] is Assign,
    ensures
        spec_run(ops, i, stack, s, t, fuel) == (match spec_step_assign(
            stack,
            ops[i]->Assign_name,
            ops[i]->Assign_span,
            s,
        ) {
            Err(st) => RunOut { r: Err(st), scope: s, out: Seq::<Seq<char>>::empty() },
            Ok(p) => spec_run(ops, i + 1, p.0, p.1, t, (fuel - 1) as nat),
        }),
{
    reveal(spec_run);
}

/// What one `Declare` step does.
pub proof fn lemma_run_declare(ops: Seq<OpV>, i: int, stack: Seq<NodeV>, s: ScopeV, t: TableV, fuel: nat)
    requires
        0 <= i < ops.len(),
        fuel > 0,
        ops[i] is Declare,
    ensures
        spec_run(ops, i, stack, s, t, fuel) == (match spec_step_declare(
            stack,
            ops[i]->Declare_name,
            ops[i]->Declare_var_type,
            s,
            t,
        ) {
            Err(st) => RunOut { r: Err(st), scope: s, out: Seq::<Seq<char>>::empty() },
            Ok(p) => spec_run(ops, i + 1, p.0, p.1, t, (fuel - 1) as nat),
        }),
{
    reveal(spec_run);
}

/// What one `Load` step does.
pub proof fn lemma_run_load(ops: Seq<OpV>, i: int, stack: Seq<NodeV>, s: ScopeV, t: TableV, fuel: nat)
    requires
        0 <= i < ops.len(),
        fuel > 0,
        ops[i] is Load,
    ensures
        spec_run(ops, i, stack, s, t, fuel) == (match spec_scope_get(s, ops[i]->Load_name) {
            Some(v) => spec_run(ops, i + 1, stack.push(v), s, t, (fuel - 1) as nat),
            None => RunOut {
                r: Err(
                    StopV::Fault {
                        err: FangErrV::UndeclaredVariable {
                            span: empty_spans(),
                            name: ops[i]->Load_name,
                            scope: s.name,
                        },
                    },
                ),
                scope: s,
                out: Seq::<Seq<char>>::empty(),
            },
        }),
{
    reveal(spec_run);
}

/// What one `Function` step does.
pub proof fn lemma_run_function(ops: Seq<OpV>, i: int, stack: Seq<NodeV>, s: ScopeV, t: TableV, fuel: nat)
    requires
        0 <= i < ops.len(),
        fuel > 0,
        ops[i] is Function,
    ensures
        spec_run(ops, i, stack, s, t, fuel) == (match spec_put_fn(
            s,
            ops[i]->Function_name,
            FuncV {
                args: ops[i]->Function_args,
                body: ops[i]->Function_body,
                return_type: ops[i]->Function_return_type,
            },
        ) {
            Err(e) => RunOut {
                r: Err(StopV::Fault { err: e }),
                scope: s,
                out: Seq::<Seq<char>>::empty(),
            },
            Ok(s2) => spec_run(ops, i + 1, stack, s2, t, (fuel - 1) as nat),
        }),
{
    reveal(spec_run);
}

/// What one `Call` step does.
pub proof fn lemma_run_call(ops: Seq<OpV>, i: int, stack: Seq<NodeV>, s: ScopeV, t: TableV, fuel: nat)
    requires
        0 <= i < ops.len(),
        fuel > 0,
        ops[i] is Call,
    ensures
        spec_run(ops, i, stack, s, t, fuel) == (match spec_step_call_args(
            stack,
            ops[i]->Call_name,
            ops[i]->Call_argc,
            ops[i]->Call_span,
            s,
        ) {
            Err(st) => RunOut { r: Err(st), scope: s, out: Seq::<Seq<char>>::empty() },
            Ok(p) => {
                let co = spec_scope_call(
                    s,
                    ops[i]->Call_name,
                    p.0,
                    t,
                    (fuel - 1) as nat,
                    ops[i]->Call_span,
                );
                match co.0 {
                    Err(st) => RunOut { r: Err(st), scope: s, out: co.1 },
                    Ok(splice) => {
                        let ops2 = ops.take(i + 1) + splice + ops.skip(i + 1);
                        let rest = spec_run(ops2, i + 1, p.1, s, t, (fuel - 1) as nat);
                        RunOut { r: rest.r, scope: rest.scope, out: co.1 + rest.out }
                    },
                }
            },
        }),
{
    reveal(spec_run);
    reveal(spec_step_call_args);
}

/// What one built-in call step does.
pub proof fn lemma_run_builtin(ops: Seq<OpV>, i: int, stack: Seq<NodeV>, s: ScopeV, t: TableV, fuel: nat)
    requires
        0 <= i < ops.len(),
        fuel > 0,
        ops[i] is BuiltinCall,
        ops[i]->BuiltinCall_body is ConsoleLog,
    ensures
        spec_run(ops, i, stack, s, t, fuel) == (match spec_step_log(s, t) {
            Err(st) => RunOut { r: Err(st), scope: s, out: Seq::<Seq<char>>::empty() },
            Ok(line) => {
                let rest = spec_run(ops, i + 1, stack, s, t, (fuel - 1) as nat);
                RunOut { r: rest.r, scope: rest.scope, out: seq![line] + rest.out }
            },
        }),
{
    reveal(spec_run);
}

/// What one trait-implementation step does.
pub proof fn lemma_run_impl(ops: Seq<OpV>, i: int, stack: Seq<NodeV>, s: ScopeV, t: TableV, fuel: nat)
    requires
        0 <= i < ops.len(),
        fuel > 0,
        ops[i] is ImplTrait,
    ensures
        spec_run(ops, i, stack, s, t, fuel) == (match spec_step_impl(
            s,
            ops[i]->ImplTrait_trait_name,
            ops[i]->ImplTrait_ty_name,
            ops[i]->ImplTrait_fields,
        ) {
            Err(st) => RunOut { r: Err(st), scope: s, out: Seq::<Seq<char>>::empty() },
            Ok(s2) => spec_run(ops, i + 1, stack, s2, t, (fuel - 1) as nat),
        }),
{
    reveal(spec_run);
}

/// What one `Return` step does.
pub proof fn lemma_run_return(ops: Seq<OpV>, i: int, stack: Seq<NodeV>, s: ScopeV, t: TableV, fuel: nat)
    requires
        0 <= i < ops.len(),
        fuel > 0,
        ops[i] is Return,
    ensures
        spec_run(ops, i, stack, s, t, fuel) == (RunOut {
            r: Ok(
                if stack.len() == 0 {
                    None
                } else {
                    Some(stack.last())
                },
            ),
            scope: s,
            out: Seq::<Seq<char>>::empty(),
        }),
{
    reveal(spec_run);
}


fn step_assign(stack: Vec<Node>, name: String, span: Spans, scope: &mut Scope) -> (r: Result<
    Vec<Node>,
    Stop,
>)
    ensures
        match spec_step_assign(
            nodes_view(stack),
            name@,
            span.deep_view(),
            old(scope).deep_view(),
        ) {
            Ok(p) => r is Ok && nodes_view(r->Ok_0) == p.0 && final(scope).deep_view() == p.1,
            Err(e) => r is Err && r->Err_0.deep_view() == e && final(scope).deep_view() == old(
                scope,
            ).deep_view(),
        },
{
    proof {
        reveal(spec_step_assign);
        lemma_nodes_view(stack);
    }
    let ghost stv = nodes_view(stack);
    let mut stack = stack;
    let v = match stack.pop() {
        Some(v) => v,
        None => {
            return Err(
                Stop::Fault {
                    err: FangErr::UnexpectedToken {
                        span,
                        expected: String::from_str("value"),
                        found: String::from_str("end of stack"),
                        scope: scope.name.clone(),
                    },
                },
            );
        },
    };
    proof {
        lemma_nodes_view(stack);
        assert(nodes_view(stack) =~= stv.drop_last());
    }
    match scope.assign(name, v) {
        Ok(u) => Ok(stack),
        Err(e) => Err(Stop::Fault { err: e.with_span(span) }),
    }
}

fn step_declare(
    stack: Vec<Node>,
    name: String,
    var_type: Option<String>,
    scope: &mut Scope,
    table: &HostTable,
) -> (r: Result<Vec<Node>, Stop>)
    ensures
        match spec_step_declare(
            nodes_view(stack),
            name@,
            match var_type {
                Some(t) => Some(t@),
                None => None,
            },
            old(scope).deep_view(),
            table.deep_view(),
        ) {
            Ok(p) => r is Ok && nodes_view(r->Ok_0) == p.0 && final(scope).deep_view() == p.1,
            Err(e) => r is Err && r->Err_0.deep_view() == e && final(scope).deep_view() == old(
                scope,
            ).deep_view(),
        },
{
    proof {
        reveal(spec_step_declare);
        lemma_nodes_view(stack);
    }
    let ghost stv = nodes_view(stack);
    let mut stack = stack;
    let v = match stack.pop() {
        Some(v) => v,
        None => {
            return Err(
                Stop::Fault {
                    err: FangErr::UnexpectedToken {
                        span: Spans::empty(),
                        expected: String::from_str("value"),
                        found: String::from_str("end of stack"),
                        scope: scope.name.clone(),
                    },
                },
            );
        },
    };
    proof {
        lemma_nodes_view(stack);
        assert(nodes_view(stack) =~= stv.drop_last());
    }
    let widens = match &var_type {
        Some(t0) => {
            let fl = String::from_str("float");
            *t0 == fl && v.is_int()
        },
        None => false,
    };
    let v = if widens {
        match widen(v, table) {
            Ok(w) => w,
            Err(e) => {
                return Err(e);
            },
        }
    } else {
        v
    };
    match &var_type {
        Some(t0) => {
            let gt = v.get_type();
            if !(*t0 == gt) {
                return Err(
                    Stop::Fault {
                        err: FangErr::TypeMismatch {
                            span: Spans::empty(),
                            expected: t0.clone(),
                            found: gt,
                            scope: scope.name.clone(),
                        },
                    },
                );
            }
        },
        None => {},
    }
    match scope.declare(name, v) {
        Ok(u) => Ok(stack),
        Err(e) => Err(Stop::Fault { err: e }),
    }
}

#[verifier::rlimit(100)]
fn run(
    ops: Vec<Op>,
    i: usize,
    stack: Vec<Node>,
    scope: &mut Scope,
    table: &HostTable,
    out: &mut Vec<String>,
    fuel: u64,
) -> (r: Result<Option<Node>, Stop>)
    ensures
        ({
            let ro = spec_run(
                ops.deep_view(),
                i as int,
                nodes_view(stack),
                old(scope).deep_view(),
                table.deep_view(),
                fuel as nat,
            );
            &&& (match r {
                Ok(opt) => ro.r is Ok && opt.deep_view() == ro.r->Ok_0,
                Err(st) => ro.r is Err && st.deep_view() == ro.r->Err_0,
            })
            &&& final(scope).deep_view() == ro.scope
            &&& final(out).deep_view() == old(out).deep_view() + ro.out
        }),
    decreases fuel, 0int,
{
    proof {
        lemma_nodes_view(stack);
    }
    let ghost opsv = ops.deep_view();
    let ghost stv = nodes_view(stack);
    let ghost s0 = scope.deep_view();
    if i >= ops.len() {
        proof {
            lemma_run_done(opsv, i as int, stv, s0, table.deep_view(), fuel as nat);
            assert(final(out).deep_view() =~= old(out).deep_view());
        }
        return Ok(None);
    }
    if fuel == 0 {
        proof {
            lemma_run_no_fuel(opsv, i as int, stv, s0, table.deep_view());
            assert(final(out).deep_view() =~= old(out).deep_view());
        }
        return Err(Stop::OutOfFuel);
    }
    match &ops[i] {
        Op::Push { value } => {
            proof {
                lemma_run_push(opsv, i as int, stv, s0, table.deep_view(), fuel as nat);
            }
            let v = value.clone();
            let mut stack = stack;
            stack.push(v);
            proof {
                lemma_nodes_view(stack);
                assert(nodes_view(stack) =~= stv.push(opsv[i as int]->Push_value));
            }
            run(ops, i + 1, stack, scope, table, out, fuel - 1)
        },
        Op::Add { span } => {
            proof {
                lemma_run_arith(opsv, i as int, stv, s0, table.deep_view(), fuel as nat);
            }
            let stack2 = match step_arith(ArithOp::Add, stack, span.clone(), scope, table, fuel
                - 1) {
                Ok(st) => st,
                Err(e) => {
                    return Err(e);
                },
            };
            run(ops, i + 1, stack2, scope, table, out, fuel - 1)
        },
        Op::Subtract { span } => {
            proof {
                lemma_run_arith(opsv, i as int, stv, s0, table.deep_view(), fuel as nat);
            }
            let stack2 = match step_arith(
                ArithOp::Subtract,
                stack,
                span.clone(),
                scope,
                table,
                fuel - 1,
            ) {
                Ok(st) => st,
                Err(e) => {
                    return Err(e);
                },
            };
            run(ops, i + 1, stack2, scope, table, out, fuel - 1)
        },
        Op::Multiply { span } => {
            proof {
                lemma_run_arith(opsv, i as int, stv, s0, table.deep_view(), fuel as nat);
            }
            let stack2 = match step_arith(
                ArithOp::Multiply,
                stack,
                span.clone(),
                scope,
                table,
                fuel - 1,
            ) {
                Ok(st) => st,
                Err(e) => {
                    return Err(e);
                },
            };
            run(ops, i + 1, stack2, scope, table, out, fuel - 1)
        },
        Op::Divide { span } => {
            proof {
                lemma_run_arith(opsv, i as int, stv, s0, table.deep_view(), fuel as nat);
            }
            let stack2 = match step_arith(
                ArithOp::Divide,
                stack,
                span.clone(),
                scope,
                table,
                fuel - 1,
            ) {
                Ok(st) => st,
                Err(e) => {
                    return Err(e);
                },
            };
            run(ops, i + 1, stack2, scope, table, out, fuel - 1)
        },
        Op::Assign { name, span } => {
            proof {
                lemma_run_assign(opsv, i as int, stv, s0, table.deep_view(), fuel as nat);
            }
            let stack2 = match step_assign(stack, name.clone(), span.clone(), scope) {
                Ok(st) => st,
                Err(e) => {
                    return Err(e);
                },
            };
            run(ops, i + 1, stack2, scope, table, out, fuel - 1)
        },
        Op::Declare { name, var_type } => {
            proof {
                lemma_run_declare(opsv, i as int, stv, s0, table.deep_view(), fuel as nat);
            }
            let vt: Option<String> = match var_type {
                Some(t) => Some(t.clone()),
                None => None,
            };
            let stack2 = match step_declare(stack, name.clone(), vt, scope, table) {
                Ok(st) => st,
                Err(e) => {
                    return Err(e);
                },
            };
            run(ops, i + 1, stack2, scope, table, out, fuel - 1)
        },
        Op::Load { name } => {
            proof {
                lemma_run_load(opsv, i as int, stv, s0, table.deep_view(), fuel as nat);
            }
            match scope.get(name.as_str()) {
                Some(v) => {
                    let mut stack = stack;
                    stack.push(v);
                    proof {
                        lemma_nodes_view(stack);
                        assert(nodes_view(stack) =~= stv.push(
                            stack@[stack@.len() - 1].deep_view(),
                        ));
                    }
                    run(ops, i + 1, stack, scope, table, out, fuel - 1)
                },
                None => Err(
                    Stop::Fault {
                        err: FangErr::UndeclaredVariable {
                            span: Spans::empty(),
                            name: name.clone(),
                            scope: scope.name.clone(),
                        },
                    },
                ),
            }
        },
        Op::Function { name, args, body, return_type, .. } => {
            proof {
                lemma_run_function(opsv, i as int, stv, s0, table.deep_view(), fuel as nat);
            }
            let rt: Option<String> = match return_type {
                Some(t) => Some(t.clone()),
                None => None,
            };
            match scope.put_fn(name.clone(), clone_nodes(args), clone_nodes(body), rt) {
                Ok(u) => {},
                Err(e) => {
                    return Err(Stop::Fault { err: e });
                },
            }
            run(ops, i + 1, stack, scope, table, out, fuel - 1)
        },
        Op::Call { name, argc, span } => {
            proof {
                lemma_run_call(opsv, i as int, stv, s0, table.deep_view(), fuel as nat);
            }
            let cname = name.clone();
            let (props, stack2) = match step_call_args(stack, name, *argc, span, scope) {
                Ok(p) => p,
                Err(e) => {
                    return Err(e);
                },
            };
            let splice = match scope.call(cname.as_str(), props, table, out, fuel - 1, span) {
                Ok(sp) => sp,
                Err(st) => {
                    return Err(st);
                },
            };
            let mut ops = ops;
            splice_into(&mut ops, i + 1, splice);
            let r = run(ops, i + 1, stack2, scope, table, out, fuel - 1);
            proof {
                let ro = spec_run(opsv, i as int, stv, s0, table.deep_view(), fuel as nat);
                assert(final(out).deep_view() =~= old(out).deep_view() + ro.out);
            }
            r
        },
        Op::BuiltinCall { body } => {
            proof {
                lemma_run_builtin(opsv, i as int, stv, s0, table.deep_view(), fuel as nat);
            }
            match body.kind {
                Builtin::ConsoleLog => {
                    let line = match step_log(scope, table) {
                        Ok(l) => l,
                        Err(e) => {
                            return Err(e);
                        },
                    };
                    out.push(line);
                    let r = run(ops, i + 1, stack, scope, table, out, fuel - 1);
                    proof {
                        let ro = spec_run(opsv, i as int, stv, s0, table.deep_view(), fuel as nat);
                        assert(final(out).deep_view() =~= old(out).deep_view() + ro.out);
                    }
                    r
                },
            }
        },
        Op::ImplTrait { trait_name, ty_name, fields, .. } => {
            proof {
                lemma_run_impl(opsv, i as int, stv, s0, table.deep_view(), fuel as nat);
            }
            match step_impl(scope, trait_name.clone(), ty_name.clone(), fields) {
                Ok(u) => {},
                Err(e) => {
                    return Err(e);
                },
            }
            run(ops, i + 1, stack, scope, table, out, fuel - 1)
        },
        Op::Return => {
            proof {
                lemma_run_return(opsv, i as int, stv, s0, table.deep_view(), fuel as nat);
            }
            let mut stack = stack;
            let r = stack.pop();
            proof {
                assert(final(out).deep_view() =~= old(out).deep_view());
            }
            Ok(r)
        },
    }
}

impl Scope {
    /// Resolves `name` to a callable, binds the given arguments (and `self`
    /// for a dotted call) in a fresh child scope parented to a snapshot of
    /// this one, evaluates the callee body there, and returns the opcodes to
    /// splice into the caller's stream: the lowering of the returned value,
    /// if any; see `spec_scope_call`.  Output the callee produced is appended
    /// to `out`; `span` is the call instruction's, carried by resolution and
    /// binding diagnostics.
    #[verifier::rlimit(100)]
    pub fn call(
        &self,
        name: &str,
        args: Vec<Node>,
        table: &HostTable,
        out: &mut Vec<String>,
        fuel: u64,
        span: &Spans,
    ) -> (r: Result<Vec<Op>, Stop>)
        ensures
            ({
                let co = spec_scope_call(
                    self.deep_view(),
                    name@,
                    nodes_view(args),
                    table.deep_view(),
                    fuel as nat,
                    span.deep_view(),
                );
                &&& (match r {
                    Ok(sp) => co.0 is Ok && sp.deep_view() == co.0->Ok_0,
                    Err(st) => co.0 is Err && st.deep_view() == co.0->Err_0,
                })
                &&& final(out).deep_view() == old(out).deep_view() + co.1
            }),
        decreases fuel, 1int,
    {
        let ghost argsv = nodes_view(args);
        let f: FuncRec = match self.get_fn(name) {
            Some(f) => f,
            None => {
                proof {
                    assert(final(out).deep_view() =~= old(out).deep_view());
                }
                return Err(
                    Stop::Fault {
                        err: FangErr::UndeclaredFunction {
                            span: span.clone(),
                            name: name.to_owned(),
                            scope: self.name.clone(),
                        },
                    },
                );
            },
        };
        let selfobj: Option<Node> = match last_dot_exec(name) {
            Some(d) => {
                let prefix = name.substring_char(0, d);
                proof {
                    assert(prefix@ =~= name@.take(last_dot(name@)));
                }
                self.get(prefix)
            },
            None => None,
        };
        let mut child = Scope::new(name.to_owned(), Some(Box::new(self.deep_clone())));
        proof {
            assert(child.deep_view() == (ScopeV {
                name: name@,
                store: Seq::empty(),
                functions: Seq::empty(),
                types: Seq::empty(),
                parent: Some(Box::new(self.deep_view())),
            }));
            assert(spec_get_fn(self.deep_view(), name@) == Some(f.deep_view()));
            assert(f.deep_view().args == nodes_view(f.args));
            assert(f.deep_view().body == nodes_view(f.body));
        }
        match bind_formals(&mut child, &f.args, args, 0, &selfobj) {
            Ok(u) => {},
            Err(e) => {
                proof {
                    assert(final(out).deep_view() =~= old(out).deep_view());
                }
                return Err(Stop::Fault { err: e.with_span(span.clone()) });
            },
        }
        let mut body_ops: Vec<Op> = Vec::new();
        lower_list(&f.body, &mut body_ops);
        proof {
            assert(body_ops.deep_view() =~= spec_lower_list(nodes_view(f.body), 0));
        }
        let empty_stack: Vec<Node> = Vec::new();
        proof {
            lemma_nodes_view(empty_stack);
            assert(nodes_view(empty_stack) =~= Seq::<NodeV>::empty());
        }
        proof {
            assert(body_ops.deep_view() == spec_lower_list(f.deep_view().body, 0));
            let sv = self.deep_view();
            let child0 = ScopeV {
                name: name@,
                store: Seq::empty(),
                functions: Seq::empty(),
                types: Seq::empty(),
                parent: Some(Box::new(sv)),
            };
            let d = last_dot(name@);
            let so = if d >= 0 {
                spec_scope_get(sv, name@.take(d))
            } else {
                None
            };
            assert(selfobj.deep_view() == so);
            assert(spec_get_fn(sv, name@) == Some(f.deep_view()));
            let fv = spec_get_fn(sv, name@)->Some_0;
            assert(spec_bind_formals(child0, fv.args, argsv, 0, so) == Ok::<
                ScopeV,
                FangErrV,
            >(child.deep_view()));
            lemma_scope_call_unfold(
                sv,
                name@,
                argsv,
                table.deep_view(),
                fuel as nat,
                span.deep_view(),
                fv,
                child.deep_view(),
            );
        }
        let ret = match run(body_ops, 0, empty_stack, &mut child, table, out, fuel) {
            Ok(rv) => rv,
            Err(st) => {
                return Err(st);
            },
        };
        match ret {
            Some(v) => {
                let mut splice: Vec<Op> = Vec::new();
                ast_to_bytecode(v, &mut splice);
                Ok(splice)
            },
            None => {
                let splice: Vec<Op> = Vec::new();
                proof {
                    assert(splice.deep_view() =~= Seq::<OpV>::empty());
                }
                Ok(splice)
            },
        }
    }
}

/// Lowers a statement list and runs the machine on it; the scope is updated
/// in place and output lines are appended to `out`.  See
/// `spec_eval_bytecode`: the result, the final scope and the output are a
/// function of the statements, the starting scope, the host table and the
/// fuel.
pub fn eval_bytecode(
    ast: Vec<Node>,
    scope: &mut Scope,
    table: &HostTable,
    out: &mut Vec<String>,
    fuel: u64,
) -> (r: Result<Option<Node>, Stop>)
    ensures
        ({
            let ro = spec_eval_bytecode(
                nodes_view(ast),
                old(scope).deep_view(),
                table.deep_view(),
                fuel as nat,
            );
            &&& (match r {
                Ok(opt) => ro.r is Ok && opt.deep_view() == ro.r->Ok_0,
                Err(st) => ro.r is Err && st.deep_view() == ro.r->Err_0,
            })
            &&& final(scope).deep_view() == ro.scope
            &&& final(out).deep_view() == old(out).deep_view() + ro.out
        }),
{
    let mut ops: Vec<Op> = Vec::new();
    lower_list(&ast, &mut ops);
    proof {
        assert(ops.deep_view() =~= spec_lower_list(nodes_view(ast), 0));
    }
    let empty_stack: Vec<Node> = Vec::new();
    proof {
        lemma_nodes_view(empty_stack);
        assert(nodes_view(empty_stack) =~= Seq::<NodeV>::empty());
    }
    run(ops, 0, empty_stack, scope, table, out, fuel)
}

} // verus!
