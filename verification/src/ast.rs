//! Parse-tree nodes and runtime values.
//!
//! Fang uses one tagged `Node` type both for parse-tree forms and for runtime
//! values.  Every node carries a `Spans` source location used by diagnostics.
//! The mathematical model of a node is `NodeV`, reached through `DeepView`;
//! all contracts in the crate speak of these models.

use vstd::prelude::*;
use vstd::string::StringExecFns;

use crate::host::{bits_answer, text_answer, HostQuery, HostReplyV, HostTable, TableV};
use crate::errs::{FangErr, FangErrV, Stop, StopV};
use crate::scope::ScopeV;

verus! {

/// A source location: the text of the source line together with line and
/// column ranges.
#[derive(Debug)]
pub struct Spans {
    pub line: String,
    pub line_span: (usize, usize),
    pub col_span: (usize, usize),
}

/// Mathematical model of a `Spans`.
#[verifier::ext_equal]
pub struct SpansV {
    pub line: Seq<char>,
    pub line_span: (int, int),
    pub col_span: (int, int),
}

impl DeepView for Spans {
    type V = SpansV;

    open spec fn deep_view(&self) -> SpansV {
        SpansV {
            line: self.line@,
            line_span: (self.line_span.0 as int, self.line_span.1 as int),
            col_span: (self.col_span.0 as int, self.col_span.1 as int),
        }
    }
}

impl Clone for Spans {
    fn clone(&self) -> (r: Self)
        ensures
            r.deep_view() == self.deep_view(),
    {
        Spans { line: self.line.clone(), line_span: self.line_span, col_span: self.col_span }
    }
}

/// The empty-span model: what `Spans::empty()` constructs.
pub open spec fn empty_spans() -> SpansV {
    SpansV { line: Seq::empty(), line_span: (0, 0), col_span: (0, 0) }
}

/// The rendered caret snippet for a span, headed by the file name.
pub open spec fn spec_snippet(s: SpansV, file: Seq<char>) -> Seq<char> {
    "At "@ + file + ":"@ + crate::strutil::dec_digits(s.line_span.0 as nat) + ":"@
        + crate::strutil::dec_digits(s.col_span.0 as nat) + "\n\n"@ + s.line + "\n"@
        + crate::strutil::char_run(' ', s.col_span.0 as nat) + crate::strutil::char_run(
        '^',
        if s.col_span.1 >= s.col_span.0 {
            (s.col_span.1 - s.col_span.0) as nat
        } else {
            0
        },
    )
}

impl Spans {
    /// A span over source line text `l`; `s` is the pair of (line, column)
    /// positions for the start and the end of the range.
    pub fn new(l: &str, s: ((usize, usize), (usize, usize))) -> (r: Self)
        ensures
            r.deep_view() == (SpansV {
                line: l@,
                line_span: (s.0.0 as int, s.1.0 as int),
                col_span: (s.0.1 as int, s.1.1 as int),
            }),
    {
        Spans {
            line: l.to_owned(),
            line_span: (s.0.0, s.1.0),
            col_span: (s.0.1, s.1.1),
        }
    }

    /// The span of synthesized nodes: empty line text, zero ranges.
    pub fn empty() -> (r: Self)
        ensures
            r.deep_view() == empty_spans(),
    {
        let r = Spans { line: String::new(), line_span: (0, 0), col_span: (0, 0) };
        proof {
            assert(r.deep_view().line =~= empty_spans().line);
        }
        r
    }

    /// Renders `At <file>:<line>:<col>`, a blank line, the source line, and a
    /// caret run under the column range.  The file name is the one the driver
    /// captured at startup.
    pub fn snippet(&self, file: &str) -> (r: String)
        ensures
            r@ == spec_snippet(self.deep_view(), file@),
    {
        let mut r = String::from_str("At ");
        r.append(file);
        r.append(":");
        let ls = crate::strutil::usize_string(self.line_span.0);
        r.append(ls.as_str());
        r.append(":");
        let cs = crate::strutil::usize_string(self.col_span.0);
        r.append(cs.as_str());
        r.append("\n\n");
        r.append(self.line.as_str());
        r.append("\n");
        proof {
            reveal_strlit(" ");
            reveal_strlit("^");
        }
        let pad = crate::strutil::str_run(" ", self.col_span.0);
        r.append(pad.as_str());
        let width = if self.col_span.1 >= self.col_span.0 {
            self.col_span.1 - self.col_span.0
        } else {
            0
        };
        let carets = crate::strutil::str_run("^", width);
        r.append(carets.as_str());
        proof {
            assert(r@ =~= spec_snippet(self.deep_view(), file@));
        }
        r
    }
}

/// The host-implemented callables the evaluator can seed.
#[derive(Clone, Copy, Debug)]
pub enum Builtin {
    /// `console.log(msg: string)`: renders `msg` and emits it as one output
    /// line.
    ConsoleLog,
}

impl DeepView for Builtin {
    type V = Builtin;

    open spec fn deep_view(&self) -> Builtin {
        *self
    }
}

/// The body of a built-in function value: which host-implemented callable it
/// runs.  Built-in bodies are opaque to the language.
#[derive(Clone, Copy, Debug)]
pub struct BuiltinFnBody {
    pub kind: Builtin,
}

impl DeepView for BuiltinFnBody {
    type V = Builtin;

    open spec fn deep_view(&self) -> Builtin {
        self.kind
    }
}

/// One parse-tree node or runtime value.
#[derive(Debug)]
pub enum Node {
    Add { lhs: Box<Node>, rhs: Box<Node>, span: Spans },
    Subtract { lhs: Box<Node>, rhs: Box<Node>, span: Spans },
    Multiply { lhs: Box<Node>, rhs: Box<Node>, span: Spans },
    Divide { lhs: Box<Node>, rhs: Box<Node>, span: Spans },
    Integer { val: u64, span: Spans },
    /// A double, carried as its IEEE bit pattern; see `crate::host`.
    Float { bits: u64, span: Spans },
    Str { val: String, span: Spans },
    Boolean { val: bool, span: Spans },
    Identifier { val: String, span: Spans },
    Declaration { name: String, rhs: Option<Box<Node>>, var_type: Option<String>, span: Spans },
    Assignment { name: String, rhs: Box<Node>, span: Spans },
    TypedVariable { var_type: String, name: String, span: Spans },
    SelfRef { span: Spans },
    FunctionOutline { name: String, args: Box<Vec<Node>>, return_type: Option<String>, span: Spans },
    Function {
        name: String,
        args: Box<Vec<Node>>,
        body: Box<Vec<Node>>,
        return_type: Option<String>,
        span: Spans,
    },
    Call { name: String, args: Box<Vec<Node>>, span: Spans },
    BuiltinFn {
        name: String,
        args: Box<Vec<Node>>,
        body: BuiltinFnBody,
        return_type: Option<String>,
        span: Spans,
    },
    Struct { name: String, fields: Box<Vec<Node>>, span: Spans },
    Object { typed: String, fields: Box<Vec<Node>>, span: Spans },
    Field { name: String, value: Box<Node>, span: Spans },
    Trait { name: String, fields: Box<Vec<Node>>, span: Spans },
    TraitImpl { trait_name: String, ty_name: String, fields: Box<Vec<Node>>, span: Spans },
    Return { value: Box<Node>, span: Spans },
    Empty,
}

/// Mathematical model of a `Node`.
#[verifier::ext_equal]
pub enum NodeV {
    Add { lhs: Box<NodeV>, rhs: Box<NodeV>, span: SpansV },
    Subtract { lhs: Box<NodeV>, rhs: Box<NodeV>, span: SpansV },
    Multiply { lhs: Box<NodeV>, rhs: Box<NodeV>, span: SpansV },
    Divide { lhs: Box<NodeV>, rhs: Box<NodeV>, span: SpansV },
    Integer { val: u64, span: SpansV },
    Float { bits: u64, span: SpansV },
    Str { val: Seq<char>, span: SpansV },
    Boolean { val: bool, span: SpansV },
    Identifier { val: Seq<char>, span: SpansV },
    Declaration {
        name: Seq<char>,
        rhs: Option<Box<NodeV>>,
        var_type: Option<Seq<char>>,
        span: SpansV,
    },
    Assignment { name: Seq<char>, rhs: Box<NodeV>, span: SpansV },
    TypedVariable { var_type: Seq<char>, name: Seq<char>, span: SpansV },
    SelfRef { span: SpansV },
    FunctionOutline { name: Seq<char>, args: Seq<NodeV>, return_type: Option<Seq<char>>, span: SpansV },
    Function {
        name: Seq<char>,
        args: Seq<NodeV>,
        body: Seq<NodeV>,
        return_type: Option<Seq<char>>,
        span: SpansV,
    },
    Call { name: Seq<char>, args: Seq<NodeV>, span: SpansV },
    BuiltinFn {
        name: Seq<char>,
        args: Seq<NodeV>,
        body: Builtin,
        return_type: Option<Seq<char>>,
        span: SpansV,
    },
    Struct { name: Seq<char>, fields: Seq<NodeV>, span: SpansV },
    Object { typed: Seq<char>, fields: Seq<NodeV>, span: SpansV },
    Field { name: Seq<char>, value: Box<NodeV>, span: SpansV },
    Trait { name: Seq<char>, fields: Seq<NodeV>, span: SpansV },
    TraitImpl { trait_name: Seq<char>, ty_name: Seq<char>, fields: Seq<NodeV>, span: SpansV },
    Return { value: Box<NodeV>, span: SpansV },
    Empty,
}

/// The models of the nodes of `v` from position `i` on.
pub open spec fn nodes_view_at(v: Vec<Node>, i: int) -> Seq<NodeV>
    decreases v, v@.len() - i + 1int,
{
    if i < 0 || i >= v@.len() {
        Seq::empty()
    } else {
        seq![node_view(v[i])] + nodes_view_at(v, i + 1)
    }
}

/// The models of the nodes of `v`, elementwise.
pub open spec fn nodes_view(v: Vec<Node>) -> Seq<NodeV>
    decreases v, v@.len() + 2int,
{
    nodes_view_at(v, 0)
}

/// The mathematical model of one node.
pub open spec fn node_view(n: Node) -> NodeV
    decreases n, 0int,
{
    match n {
        Node::Add { lhs, rhs, span } => NodeV::Add {
            lhs: Box::new(node_view(*lhs)),
            rhs: Box::new(node_view(*rhs)),
            span: span.deep_view(),
        },
        Node::Subtract { lhs, rhs, span } => NodeV::Subtract {
            lhs: Box::new(node_view(*lhs)),
            rhs: Box::new(node_view(*rhs)),
            span: span.deep_view(),
        },
        Node::Multiply { lhs, rhs, span } => NodeV::Multiply {
            lhs: Box::new(node_view(*lhs)),
            rhs: Box::new(node_view(*rhs)),
            span: span.deep_view(),
        },
        Node::Divide { lhs, rhs, span } => NodeV::Divide {
            lhs: Box::new(node_view(*lhs)),
            rhs: Box::new(node_view(*rhs)),
            span: span.deep_view(),
        },
        Node::Integer { val, span } => NodeV::Integer { val: val, span: span.deep_view() },
        Node::Float { bits, span } => NodeV::Float { bits: bits, span: span.deep_view() },
        Node::Str { val, span } => NodeV::Str { val: val@, span: span.deep_view() },
        Node::Boolean { val, span } => NodeV::Boolean { val: val, span: span.deep_view() },
        Node::Identifier { val, span } => NodeV::Identifier { val: val@, span: span.deep_view() },
        Node::Declaration { name, rhs, var_type, span } => NodeV::Declaration {
            name: name@,
            rhs: match rhs {
                Some(n) => Some(Box::new(node_view(*n))),
                None => None,
            },
            var_type: match var_type {
                Some(t) => Some(t@),
                None => None,
            },
            span: span.deep_view(),
        },
        Node::Assignment { name, rhs, span } => NodeV::Assignment {
            name: name@,
            rhs: Box::new(node_view(*rhs)),
            span: span.deep_view(),
        },
        Node::TypedVariable { var_type, name, span } => NodeV::TypedVariable {
            var_type: var_type@,
            name: name@,
            span: span.deep_view(),
        },
        Node::SelfRef { span } => NodeV::SelfRef { span: span.deep_view() },
        Node::FunctionOutline { name, args, return_type, span } => NodeV::FunctionOutline {
            name: name@,
            args: nodes_view(*args),
            return_type: match return_type {
                Some(t) => Some(t@),
                None => None,
            },
            span: span.deep_view(),
        },
        Node::Function { name, args, body, return_type, span } => NodeV::Function {
            name: name@,
            args: nodes_view(*args),
            body: nodes_view(*body),
            return_type: match return_type {
                Some(t) => Some(t@),
                None => None,
            },
            span: span.deep_view(),
        },
        Node::Call { name, args, span } => NodeV::Call {
            name: name@,
            args: nodes_view(*args),
            span: span.deep_view(),
        },
        Node::BuiltinFn { name, args, body, return_type, span } => NodeV::BuiltinFn {
            name: name@,
            args: nodes_view(*args),
            body: body.kind,
            return_type: match return_type {
                Some(t) => Some(t@),
                None => None,
            },
            span: span.deep_view(),
        },
        Node::Struct { name, fields, span } => NodeV::Struct {
            name: name@,
            fields: nodes_view(*fields),
            span: span.deep_view(),
        },
        Node::Object { typed, fields, span } => NodeV::Object {
            typed: typed@,
            fields: nodes_view(*fields),
            span: span.deep_view(),
        },
        Node::Field { name, value, span } => NodeV::Field {
            name: name@,
            value: Box::new(node_view(*value)),
            span: span.deep_view(),
        },
        Node::Trait { name, fields, span } => NodeV::Trait {
            name: name@,
            fields: nodes_view(*fields),
            span: span.deep_view(),
        },
        Node::TraitImpl { trait_name, ty_name, fields, span } => NodeV::TraitImpl {
            trait_name: trait_name@,
            ty_name: ty_name@,
            fields: nodes_view(*fields),
            span: span.deep_view(),
        },
        Node::Return { value, span } => NodeV::Return {
            value: Box::new(node_view(*value)),
            span: span.deep_view(),
        },
        Node::Empty => NodeV::Empty,
    }
}

impl DeepView for Node {
    type V = NodeV;

    open spec fn deep_view(&self) -> NodeV {
        node_view(*self)
    }
}


/// Elementwise description of `nodes_view`.
pub proof fn lemma_nodes_view_at(v: Vec<Node>, i: int)
    requires
        0 <= i <= v@.len(),
    ensures
        nodes_view_at(v, i).len() == v@.len() - i,
        forall|j: int| i <= j < v@.len() ==> nodes_view_at(v, i)[j - i] == node_view(v@[j]),
    decreases v@.len() - i,
{
    if i < v@.len() {
        lemma_nodes_view_at(v, i + 1);
    }
}

/// `nodes_view` is the elementwise model of the vector.
pub proof fn lemma_nodes_view(v: Vec<Node>)
    ensures
        nodes_view(v).len() == v@.len(),
        forall|j: int| 0 <= j < v@.len() ==> nodes_view(v)[j] == node_view(v@[j]),
{
    lemma_nodes_view_at(v, 0);
}

/// Clones a vector of nodes; the model is unchanged.
pub fn clone_nodes(v: &Vec<Node>) -> (r: Vec<Node>)
    ensures
        nodes_view(r) == nodes_view(*v),
    decreases v, v@.len() + 1int,
{
    let mut r: Vec<Node> = Vec::new();
    let mut i: usize = 0;
    while i < v.len()
        invariant
            i <= v@.len(),
            r@.len() == i as int,
            forall|j: int| 0 <= j < i as int ==> node_view(r@[j]) == node_view(v@[j]),
        decreases v@.len() - i,
    {
        r.push(clone_one(&v[i]));
        i = i + 1;
    }
    proof {
        lemma_nodes_view(*v);
        lemma_nodes_view(r);
        assert(nodes_view(r) =~= nodes_view(*v));
    }
    r
}

/// Clones one node; the model is unchanged.
fn clone_one(n: &Node) -> (r: Node)
    ensures
        node_view(r) == node_view(*n),
    decreases n, 0int,
{
    let self_ = n;
    {
        match self_ {
            Node::Add { lhs, rhs, span } => Node::Add {
                lhs: Box::new(clone_one(&**lhs)),
                rhs: Box::new(clone_one(&**rhs)),
                span: span.clone(),
            },
            Node::Subtract { lhs, rhs, span } => Node::Subtract {
                lhs: Box::new(clone_one(&**lhs)),
                rhs: Box::new(clone_one(&**rhs)),
                span: span.clone(),
            },
            Node::Multiply { lhs, rhs, span } => Node::Multiply {
                lhs: Box::new(clone_one(&**lhs)),
                rhs: Box::new(clone_one(&**rhs)),
                span: span.clone(),
            },
            Node::Divide { lhs, rhs, span } => Node::Divide {
                lhs: Box::new(clone_one(&**lhs)),
                rhs: Box::new(clone_one(&**rhs)),
                span: span.clone(),
            },
            Node::Integer { val, span } => Node::Integer { val: *val, span: span.clone() },
            Node::Float { bits, span } => Node::Float { bits: *bits, span: span.clone() },
            Node::Str { val, span } => Node::Str { val: val.clone(), span: span.clone() },
            Node::Boolean { val, span } => Node::Boolean { val: *val, span: span.clone() },
            Node::Identifier { val, span } => Node::Identifier {
                val: val.clone(),
                span: span.clone(),
            },
            Node::Declaration { name, rhs, var_type, span } => Node::Declaration {
                name: name.clone(),
                rhs: match rhs {
                    Some(b) => Some(Box::new(clone_one(&**b))),
                    None => None,
                },
                var_type: match var_type {
                    Some(t) => Some(t.clone()),
                    None => None,
                },
                span: span.clone(),
            },
            Node::Assignment { name, rhs, span } => Node::Assignment {
                name: name.clone(),
                rhs: Box::new(clone_one(&**rhs)),
                span: span.clone(),
            },
            Node::TypedVariable { var_type, name, span } => Node::TypedVariable {
                var_type: var_type.clone(),
                name: name.clone(),
                span: span.clone(),
            },
            Node::SelfRef { span } => Node::SelfRef { span: span.clone() },
            Node::FunctionOutline { name, args, return_type, span } => Node::FunctionOutline {
                name: name.clone(),
                args: Box::new(clone_nodes(&**args)),
                return_type: match return_type {
                    Some(t) => Some(t.clone()),
                    None => None,
                },
                span: span.clone(),
            },
            Node::Function { name, args, body, return_type, span } => Node::Function {
                name: name.clone(),
                args: Box::new(clone_nodes(&**args)),
                body: Box::new(clone_nodes(&**body)),
                return_type: match return_type {
                    Some(t) => Some(t.clone()),
                    None => None,
                },
                span: span.clone(),
            },
            Node::Call { name, args, span } => Node::Call {
                name: name.clone(),
                args: Box::new(clone_nodes(&**args)),
                span: span.clone(),
            },
            Node::BuiltinFn { name, args, body, return_type, span } => Node::BuiltinFn {
                name: name.clone(),
                args: Box::new(clone_nodes(&**args)),
                body: *body,
                return_type: match return_type {
                    Some(t) => Some(t.clone()),
                    None => None,
                },
                span: span.clone(),
            },
            Node::Struct { name, fields, span } => Node::Struct {
                name: name.clone(),
                fields: Box::new(clone_nodes(&**fields)),
                span: span.clone(),
            },
            Node::Object { typed, fields, span } => Node::Object {
                typed: typed.clone(),
                fields: Box::new(clone_nodes(&**fields)),
                span: span.clone(),
            },
            Node::Field { name, value, span } => Node::Field {
                name: name.clone(),
                value: Box::new(clone_one(&**value)),
                span: span.clone(),
            },
            Node::Trait { name, fields, span } => Node::Trait {
                name: name.clone(),
                fields: Box::new(clone_nodes(&**fields)),
                span: span.clone(),
            },
            Node::TraitImpl { trait_name, ty_name, fields, span } => Node::TraitImpl {
                trait_name: trait_name.clone(),
                ty_name: ty_name.clone(),
                fields: Box::new(clone_nodes(&**fields)),
                span: span.clone(),
            },
            Node::Return { value, span } => Node::Return {
                value: Box::new(clone_one(&**value)),
                span: span.clone(),
            },
            Node::Empty => Node::Empty,
        }
    }
}

impl Clone for Node {
    /// Structural copy: the model of the clone equals the model of the
    /// original.
    fn clone(&self) -> (r: Self)
        ensures
            r.deep_view() == self.deep_view(),
    {
        clone_one(self)
    }
}

/// A short label naming a node's syntactic kind, used in diagnostic text for
/// forms that are not values.
pub open spec fn spec_kind_label(n: NodeV) -> Seq<char> {
    match n {
        NodeV::Add { .. } => "add"@,
        NodeV::Subtract { .. } => "subtract"@,
        NodeV::Multiply { .. } => "multiply"@,
        NodeV::Divide { .. } => "divide"@,
        NodeV::Integer { .. } => "integer"@,
        NodeV::Float { .. } => "float"@,
        NodeV::Str { .. } => "string"@,
        NodeV::Boolean { .. } => "boolean"@,
        NodeV::Identifier { .. } => "identifier"@,
        NodeV::Declaration { .. } => "declaration"@,
        NodeV::Assignment { .. } => "assignment"@,
        NodeV::TypedVariable { .. } => "typed variable"@,
        NodeV::SelfRef { .. } => "self"@,
        NodeV::FunctionOutline { .. } => "function outline"@,
        NodeV::Function { .. } => "function"@,
        NodeV::Call { .. } => "call"@,
        NodeV::BuiltinFn { .. } => "builtin"@,
        NodeV::Struct { .. } => "struct"@,
        NodeV::Object { .. } => "object"@,
        NodeV::Field { .. } => "field"@,
        NodeV::Trait { .. } => "trait"@,
        NodeV::TraitImpl { .. } => "impl"@,
        NodeV::Return { .. } => "return"@,
        NodeV::Empty => "empty"@,
    }
}

/// The type name of a value: `int`, `float`, `string`, `bool`, the declared
/// type of a typed variable, the struct name of an object, a function label
/// for functions, the name for identifiers, and an internal label for forms
/// that are not values.
pub open spec fn spec_get_type(n: NodeV) -> Seq<char> {
    match n {
        NodeV::Integer { .. } => "int"@,
        NodeV::Float { .. } => "float"@,
        NodeV::Str { .. } => "string"@,
        NodeV::Boolean { .. } => "bool"@,
        NodeV::TypedVariable { var_type, .. } => var_type,
        NodeV::Function { name, .. } => "<Function: '"@ + name + "'>"@,
        NodeV::Object { typed, .. } => typed,
        NodeV::Identifier { val, .. } => val,
        _ => "<Internal: "@ + spec_kind_label(n) + ">"@,
    }
}

/// Whether two nodes are of the same syntactic kind.
pub open spec fn spec_same_kind(a: NodeV, b: NodeV) -> bool {
    match a {
        NodeV::Add { .. } => b is Add,
        NodeV::Subtract { .. } => b is Subtract,
        NodeV::Multiply { .. } => b is Multiply,
        NodeV::Divide { .. } => b is Divide,
        NodeV::Integer { .. } => b is Integer,
        NodeV::Float { .. } => b is Float,
        NodeV::Str { .. } => b is Str,
        NodeV::Boolean { .. } => b is Boolean,
        NodeV::Identifier { .. } => b is Identifier,
        NodeV::Declaration { .. } => b is Declaration,
        NodeV::Assignment { .. } => b is Assignment,
        NodeV::TypedVariable { .. } => b is TypedVariable,
        NodeV::SelfRef { .. } => b is SelfRef,
        NodeV::FunctionOutline { .. } => b is FunctionOutline,
        NodeV::Function { .. } => b is Function,
        NodeV::Call { .. } => b is Call,
        NodeV::BuiltinFn { .. } => b is BuiltinFn,
        NodeV::Struct { .. } => b is Struct,
        NodeV::Object { .. } => b is Object,
        NodeV::Field { .. } => b is Field,
        NodeV::Trait { .. } => b is Trait,
        NodeV::TraitImpl { .. } => b is TraitImpl,
        NodeV::Return { .. } => b is Return,
        NodeV::Empty => b is Empty,
    }
}

/// Type agreement between a stored or formal slot and a value: a typed
/// variable on either side matches by declared type name; otherwise the two
/// nodes must be of the same kind.
pub open spec fn spec_compare_type(a: NodeV, b: NodeV) -> bool {
    if a is TypedVariable {
        a->TypedVariable_var_type == spec_get_type(b)
    } else if b is TypedVariable {
        b->TypedVariable_var_type == spec_get_type(a)
    } else {
        spec_same_kind(a, b)
    }
}

/// The span carried by a node (an empty span for `Empty`).
pub open spec fn spec_span(n: NodeV) -> SpansV {
    match n {
        NodeV::Add { span, .. } => span,
        NodeV::Subtract { span, .. } => span,
        NodeV::Multiply { span, .. } => span,
        NodeV::Divide { span, .. } => span,
        NodeV::Integer { span, .. } => span,
        NodeV::Float { span, .. } => span,
        NodeV::Str { span, .. } => span,
        NodeV::Boolean { span, .. } => span,
        NodeV::Identifier { span, .. } => span,
        NodeV::Declaration { span, .. } => span,
        NodeV::Assignment { span, .. } => span,
        NodeV::TypedVariable { span, .. } => span,
        NodeV::SelfRef { span } => span,
        NodeV::FunctionOutline { span, .. } => span,
        NodeV::Function { span, .. } => span,
        NodeV::Call { span, .. } => span,
        NodeV::BuiltinFn { span, .. } => span,
        NodeV::Struct { span, .. } => span,
        NodeV::Object { span, .. } => span,
        NodeV::Field { span, .. } => span,
        NodeV::Trait { span, .. } => span,
        NodeV::TraitImpl { span, .. } => span,
        NodeV::Return { span, .. } => span,
        NodeV::Empty => empty_spans(),
    }
}

impl Node {
    /// Whether this node is an integer value.
    pub fn is_int(&self) -> (r: bool)
        ensures
            r == (self.deep_view() is Integer),
    {
        match self {
            Node::Integer { .. } => true,
            _ => false,
        }
    }

    /// Whether this node is a float value.
    pub fn is_float(&self) -> (r: bool)
        ensures
            r == (self.deep_view() is Float),
    {
        match self {
            Node::Float { .. } => true,
            _ => false,
        }
    }

    /// Whether this node is a string value.
    pub fn is_str(&self) -> (r: bool)
        ensures
            r == (self.deep_view() is Str),
    {
        match self {
            Node::Str { .. } => true,
            _ => false,
        }
    }

    /// Whether this node is a boolean value.
    pub fn is_bool(&self) -> (r: bool)
        ensures
            r == (self.deep_view() is Boolean),
    {
        match self {
            Node::Boolean { .. } => true,
            _ => false,
        }
    }

    /// Whether this node is an identifier.
    pub fn is_id(&self) -> (r: bool)
        ensures
            r == (self.deep_view() is Identifier),
    {
        match self {
            Node::Identifier { .. } => true,
            _ => false,
        }
    }

    /// Whether this node is one of the four arithmetic operations.
    pub fn is_op(&self) -> (r: bool)
        ensures
            r == spec_is_op(self.deep_view()),
    {
        match self {
            Node::Add { .. } => true,
            Node::Subtract { .. } => true,
            Node::Multiply { .. } => true,
            Node::Divide { .. } => true,
            _ => false,
        }
    }

    /// The span this node carries.
    pub fn span(&self) -> (r: Spans)
        ensures
            r.deep_view() == spec_span(self.deep_view()),
    {
        match self {
            Node::Add { span, .. } => span.clone(),
            Node::Subtract { span, .. } => span.clone(),
            Node::Multiply { span, .. } => span.clone(),
            Node::Divide { span, .. } => span.clone(),
            Node::Integer { span, .. } => span.clone(),
            Node::Float { span, .. } => span.clone(),
            Node::Str { span, .. } => span.clone(),
            Node::Boolean { span, .. } => span.clone(),
            Node::Identifier { span, .. } => span.clone(),
            Node::Declaration { span, .. } => span.clone(),
            Node::Assignment { span, .. } => span.clone(),
            Node::TypedVariable { span, .. } => span.clone(),
            Node::SelfRef { span } => span.clone(),
            Node::FunctionOutline { span, .. } => span.clone(),
            Node::Function { span, .. } => span.clone(),
            Node::Call { span, .. } => span.clone(),
            Node::BuiltinFn { span, .. } => span.clone(),
            Node::Struct { span, .. } => span.clone(),
            Node::Object { span, .. } => span.clone(),
            Node::Field { span, .. } => span.clone(),
            Node::Trait { span, .. } => span.clone(),
            Node::TraitImpl { span, .. } => span.clone(),
            Node::Return { span, .. } => span.clone(),
            Node::Empty => Spans::empty(),
        }
    }

    /// Boxes this node.
    pub fn boxed(self) -> (r: Box<Node>)
        ensures
            r.deep_view() == self.deep_view(),
    {
        Box::new(self)
    }

    fn kind_label(&self) -> (r: &'static str)
        ensures
            r@ == spec_kind_label(self.deep_view()),
    {
        match self {
            Node::Add { .. } => "add",
            Node::Subtract { .. } => "subtract",
            Node::Multiply { .. } => "multiply",
            Node::Divide { .. } => "divide",
            Node::Integer { .. } => "integer",
            Node::Float { .. } => "float",
            Node::Str { .. } => "string",
            Node::Boolean { .. } => "boolean",
            Node::Identifier { .. } => "identifier",
            Node::Declaration { .. } => "declaration",
            Node::Assignment { .. } => "assignment",
            Node::TypedVariable { .. } => "typed variable",
            Node::SelfRef { .. } => "self",
            Node::FunctionOutline { .. } => "function outline",
            Node::Function { .. } => "function",
            Node::Call { .. } => "call",
            Node::BuiltinFn { .. } => "builtin",
            Node::Struct { .. } => "struct",
            Node::Object { .. } => "object",
            Node::Field { .. } => "field",
            Node::Trait { .. } => "trait",
            Node::TraitImpl { .. } => "impl",
            Node::Return { .. } => "return",
            Node::Empty => "empty",
        }
    }

    /// The type name of this node; see `spec_get_type`.
    pub fn get_type(&self) -> (r: String)
        ensures
            r@ == spec_get_type(self.deep_view()),
    {
        match self {
            Node::Integer { .. } => String::from_str("int"),
            Node::Float { .. } => String::from_str("float"),
            Node::Str { .. } => String::from_str("string"),
            Node::Boolean { .. } => String::from_str("bool"),
            Node::TypedVariable { var_type, .. } => var_type.clone(),
            Node::Function { name, .. } => {
                let mut r = String::from_str("<Function: '");
                r.append(name.as_str());
                r.append("'>");
                r
            },
            Node::Object { typed, .. } => typed.clone(),
            Node::Identifier { val, .. } => val.clone(),
            _ => {
                let mut r = String::from_str("<Internal: ");
                r.append(self.kind_label());
                r.append(">");
                r
            },
        }
    }

    /// Whether this node and `other` agree in type; see `spec_compare_type`.
    pub fn compare_type(&self, other: &Node) -> (r: bool)
        ensures
            r == spec_compare_type(self.deep_view(), other.deep_view()),
    {
        match (self, other) {
            (Node::TypedVariable { var_type, .. }, n) => {
                let gt = n.get_type();
                *var_type == gt
            },
            (n, Node::TypedVariable { var_type, .. }) => {
                let gt = n.get_type();
                *var_type == gt
            },
            _ => self.same_kind(other),
        }
    }

    fn same_kind(&self, other: &Node) -> (r: bool)
        ensures
            r == spec_same_kind(self.deep_view(), other.deep_view()),
    {
        match self {
            Node::Add { .. } => matches!(other, Node::Add { .. }),
            Node::Subtract { .. } => matches!(other, Node::Subtract { .. }),
            Node::Multiply { .. } => matches!(other, Node::Multiply { .. }),
            Node::Divide { .. } => matches!(other, Node::Divide { .. }),
            Node::Integer { .. } => matches!(other, Node::Integer { .. }),
            Node::Float { .. } => matches!(other, Node::Float { .. }),
            Node::Str { .. } => matches!(other, Node::Str { .. }),
            Node::Boolean { .. } => matches!(other, Node::Boolean { .. }),
            Node::Identifier { .. } => matches!(other, Node::Identifier { .. }),
            Node::Declaration { .. } => matches!(other, Node::Declaration { .. }),
            Node::Assignment { .. } => matches!(other, Node::Assignment { .. }),
            Node::TypedVariable { .. } => matches!(other, Node::TypedVariable { .. }),
            Node::SelfRef { .. } => matches!(other, Node::SelfRef { .. }),
            Node::FunctionOutline { .. } => matches!(other, Node::FunctionOutline { .. }),
            Node::Function { .. } => matches!(other, Node::Function { .. }),
            Node::Call { .. } => matches!(other, Node::Call { .. }),
            Node::BuiltinFn { .. } => matches!(other, Node::BuiltinFn { .. }),
            Node::Struct { .. } => matches!(other, Node::Struct { .. }),
            Node::Object { .. } => matches!(other, Node::Object { .. }),
            Node::Field { .. } => matches!(other, Node::Field { .. }),
            Node::Trait { .. } => matches!(other, Node::Trait { .. }),
            Node::TraitImpl { .. } => matches!(other, Node::TraitImpl { .. }),
            Node::Return { .. } => matches!(other, Node::Return { .. }),
            Node::Empty => matches!(other, Node::Empty),
        }
    }
}

/// Whether a node model is one of the four arithmetic operations.
pub open spec fn spec_is_op(n: NodeV) -> bool {
    n is Add || n is Subtract || n is Multiply || n is Divide
}


/// The text of a rendered result, with host queries carried through.
pub open spec fn res_text(r: Result<String, HostQuery>) -> Result<Seq<char>, HostQuery> {
    match r {
        Ok(s) => Ok(s@),
        Err(q) => Err(q),
    }
}

/// The human rendering of a value: the literal for primitives (a float is
/// rendered by the host, so an unanswered query is reported), `Type { name:
/// value, ... }` for objects, `<Function: n>` for functions, and an internal
/// label for forms that are not values.
pub open spec fn spec_inspect(n: NodeV, t: Seq<(HostQuery, HostReplyV)>) -> Result<
    Seq<char>,
    HostQuery,
>
    decreases n, 0int,
{
    match n {
        NodeV::Integer { val, .. } => Ok(crate::strutil::dec_digits(val as nat)),
        NodeV::Float { bits, .. } => match text_answer(t, HostQuery::FloatText { bits }) {
            Some(s) => Ok(s),
            None => Err(HostQuery::FloatText { bits }),
        },
        NodeV::Str { val, .. } => Ok(val),
        NodeV::Boolean { val, .. } => Ok(
            if val {
                "true"@
            } else {
                "false"@
            },
        ),
        NodeV::Identifier { val, .. } => Ok(val),
        NodeV::TypedVariable { name, .. } => Ok(name),
        NodeV::Function { name, .. } => Ok("<Function: "@ + name + ">"@),
        NodeV::Object { typed, fields, .. } => match spec_inspect_fields(fields, t, 0) {
            Ok(inner) => Ok(typed + " {"@ + inner + "}"@),
            Err(q) => Err(q),
        },
        _ => Ok("<Internal: "@ + spec_kind_label(n) + ">"@),
    }
}

/// The `, `-joined rendering of an object's fields from position `i` on:
/// `name: value` for fields, the node's own rendering otherwise.
pub open spec fn spec_inspect_fields(
    fields: Seq<NodeV>,
    t: Seq<(HostQuery, HostReplyV)>,
    i: int,
) -> Result<Seq<char>, HostQuery>
    decreases fields, fields.len() - i + 1int,
{
    if i < 0 || i >= fields.len() {
        Ok(Seq::empty())
    } else {
        let head = match fields[i] {
            NodeV::Field { name, value, .. } => match spec_inspect(*value, t) {
                Ok(s) => Ok(name + ": "@ + s),
                Err(q) => Err(q),
            },
            other => spec_inspect(other, t),
        };
        match head {
            Err(q) => Err(q),
            Ok(h) => {
                if i == fields.len() - 1 {
                    Ok(h)
                } else {
                    match spec_inspect_fields(fields, t, i + 1) {
                        Ok(rest) => Ok(h + ", "@ + rest),
                        Err(q) => Err(q),
                    }
                }
            },
        }
    }
}

fn inspect_fields(fields: &Vec<Node>, i: usize, table: &HostTable) -> (r: Result<
    String,
    HostQuery,
>)
    ensures
        res_text(r) == spec_inspect_fields(nodes_view(*fields), table.deep_view(), i as int),
    decreases fields, fields@.len() - i + 1int,
{
    proof {
        lemma_nodes_view(*fields);
    }
    if i >= fields.len() {
        let s = String::new();
        proof {
            assert(s@ =~= Seq::<char>::empty());
        }
        Ok(s)
    } else {
        let head: Result<String, HostQuery> = match &fields[i] {
            Node::Field { name, value, .. } => match (&**value).inspect(table) {
                Ok(s) => {
                    let mut h = name.clone();
                    h.append(": ");
                    h.append(s.as_str());
                    Ok(h)
                },
                Err(q) => Err(q),
            },
            other => other.inspect(table),
        };
        match head {
            Err(q) => Err(q),
            Ok(h) => {
                if i == fields.len() - 1 {
                    Ok(h)
                } else {
                    match inspect_fields(fields, i + 1, table) {
                        Ok(rest) => {
                            let mut s = h;
                            s.append(", ");
                            s.append(rest.as_str());
                            Ok(s)
                        },
                        Err(q) => Err(q),
                    }
                }
            },
        }
    }
}

impl Node {
    /// Renders this value for humans; see `spec_inspect`.  A float whose text
    /// the host has not yet provided is reported as the unanswered query.
    pub fn inspect(&self, table: &HostTable) -> (r: Result<String, HostQuery>)
        ensures
            res_text(r) == spec_inspect(self.deep_view(), table.deep_view()),
        decreases self, 0int,
    {
        match self {
            Node::Integer { val, .. } => Ok(crate::strutil::u64_string(*val)),
            Node::Float { bits, .. } => match table.text(HostQuery::FloatText { bits: *bits }) {
                Some(s) => Ok(s),
                None => Err(HostQuery::FloatText { bits: *bits }),
            },
            Node::Str { val, .. } => Ok(val.clone()),
            Node::Boolean { val, .. } => {
                if *val {
                    Ok(String::from_str("true"))
                } else {
                    Ok(String::from_str("false"))
                }
            },
            Node::Identifier { val, .. } => Ok(val.clone()),
            Node::TypedVariable { name, .. } => Ok(name.clone()),
            Node::Function { name, .. } => {
                let mut s = String::from_str("<Function: ");
                s.append(name.as_str());
                s.append(">");
                Ok(s)
            },
            Node::Object { typed, fields, .. } => {
                match inspect_fields(&**fields, 0, table) {
                    Ok(inner) => {
                        let mut s = typed.clone();
                        s.append(" {");
                        s.append(inner.as_str());
                        s.append("}");
                        Ok(s)
                    },
                    Err(q) => Err(q),
                }
            },
            _ => {
                let mut s = String::from_str("<Internal: ");
                s.append(self.kind_label());
                s.append(">");
                Ok(s)
            },
        }
    }
}


/// The number of nodes in an arithmetic-operation tree (one for any other
/// form); the measure that bounds operand evaluation.
pub open spec fn node_size(n: NodeV) -> nat
    decreases n,
{
    match n {
        NodeV::Add { lhs, rhs, .. } => 1 + node_size(*lhs) + node_size(*rhs),
        NodeV::Subtract { lhs, rhs, .. } => 1 + node_size(*lhs) + node_size(*rhs),
        NodeV::Multiply { lhs, rhs, .. } => 1 + node_size(*lhs) + node_size(*rhs),
        NodeV::Divide { lhs, rhs, .. } => 1 + node_size(*lhs) + node_size(*rhs),
        _ => 1,
    }
}

/// An integer operand widened to a float through the host; any other operand
/// is left alone.
pub open spec fn spec_widen(n: NodeV, t: TableV) -> Result<NodeV, StopV> {
    match n {
        NodeV::Integer { val, span } => match bits_answer(t, HostQuery::FloatOfInt { val }) {
            Some(bits) => Ok(NodeV::Float { bits, span }),
            None => Err(StopV::Pending { query: HostQuery::FloatOfInt { val } }),
        },
        _ => Ok(n),
    }
}

/// The coercion rule over two resolved, evaluated operands: if either is a
/// string, both are rendered as strings; else if either is a float, integer
/// operands are widened; else integer and boolean pairs pass unchanged, and
/// any other pair is the `coerce` diagnostic (carrying the left operand's
/// span).
pub open spec fn spec_coerce(a: NodeV, b: NodeV, s: ScopeV, t: TableV) -> Result<
    (NodeV, NodeV),
    StopV,
> {
    if a is Str || b is Str {
        match spec_inspect(a, t) {
            Err(q) => Err(StopV::Pending { query: q }),
            Ok(sa) => match spec_inspect(b, t) {
                Err(q) => Err(StopV::Pending { query: q }),
                Ok(sb) => Ok(
                    (
                        NodeV::Str { val: sa, span: spec_span(a) },
                        NodeV::Str { val: sb, span: spec_span(b) },
                    ),
                ),
            },
        }
    } else if a is Float || b is Float {
        match spec_widen(a, t) {
            Err(e) => Err(e),
            Ok(wa) => match spec_widen(b, t) {
                Err(e) => Err(e),
                Ok(wb) => Ok((wa, wb)),
            },
        }
    } else if a is Integer && b is Integer {
        Ok((a, b))
    } else if a is Boolean && b is Boolean {
        Ok((a, b))
    } else {
        Err(
            StopV::Fault {
                err: FangErrV::OperationUnsupported {
                    span: spec_span(a),
                    op: "coerce"@,
                    lhs: spec_get_type(a),
                    rhs: spec_get_type(b),
                    scope: s.name,
                },
            },
        )
    }
}

/// What standardization does: identifiers are resolved through the scope
/// chain, operand operation trees are evaluated (each costing one unit of
/// fuel), and the coercion rule is applied.
pub open spec fn spec_standardize(a: NodeV, b: NodeV, s: ScopeV, t: TableV, fuel: nat) -> Result<
    (NodeV, NodeV),
    StopV,
>
    decreases fuel, node_size(a) + node_size(b), 0int,
{
    let a1r = match a {
        NodeV::Identifier { val, span } => match crate::scope::spec_scope_get(s, val) {
            Some(n) => Ok(n),
            None => Err(
                StopV::Fault {
                    err: FangErrV::UndeclaredVariable { span, name: val, scope: s.name },
                },
            ),
        },
        _ => Ok(a),
    };
    match a1r {
        Err(e) => Err(e),
        Ok(a1) => {
            let b1r = match b {
                NodeV::Identifier { val, span } => match crate::scope::spec_scope_get(s, val) {
                    Some(n) => Ok(n),
                    None => Err(
                        StopV::Fault {
                            err: FangErrV::UndeclaredVariable { span, name: val, scope: s.name },
                        },
                    ),
                },
                _ => Ok(b),
            };
            match b1r {
                Err(e) => Err(e),
                Ok(b1) => {
                    if spec_is_op(a1) || spec_is_op(b1) {
                        if fuel == 0 {
                            Err(StopV::OutOfFuel)
                        } else {
                            let a2r = if spec_is_op(a1) {
                                spec_eval_expr(a1, s, t, (fuel - 1) as nat)
                            } else {
                                Ok(a1)
                            };
                            match a2r {
                                Err(e) => Err(e),
                                Ok(a2) => {
                                    let b2r = if spec_is_op(b1) {
                                        spec_eval_expr(b1, s, t, (fuel - 1) as nat)
                                    } else {
                                        Ok(b1)
                                    };
                                    match b2r {
                                        Err(e) => Err(e),
                                        Ok(b2) => spec_coerce(a2, b2, s, t),
                                    }
                                },
                            }
                        }
                    } else {
                        spec_coerce(a1, b1, s, t)
                    }
                },
            }
        },
    }
}

/// Addition over standardized operands: modular on integers, through the host
/// on floats, concatenation on strings; anything else is the `add`
/// diagnostic.
pub open spec fn spec_apply_add(a: NodeV, b: NodeV, span: SpansV, s: ScopeV, t: TableV) -> Result<
    NodeV,
    StopV,
> {
    match (a, b) {
        (NodeV::Integer { val: x, .. }, NodeV::Integer { val: y, .. }) => Ok(
            NodeV::Integer { val: vstd::wrapping::u64_specs::wrapping_add(x, y), span },
        ),
        (NodeV::Float { bits: x, .. }, NodeV::Float { bits: y, .. }) => match bits_answer(
            t,
            HostQuery::FloatAdd { a: x, b: y },
        ) {
            Some(r) => Ok(NodeV::Float { bits: r, span }),
            None => Err(StopV::Pending { query: HostQuery::FloatAdd { a: x, b: y } }),
        },
        (NodeV::Str { val: x, .. }, NodeV::Str { val: y, .. }) => Ok(
            NodeV::Str { val: x + y, span },
        ),
        _ => Err(
            StopV::Fault {
                err: FangErrV::OperationUnsupported {
                    span,
                    op: "add"@,
                    lhs: spec_get_type(a),
                    rhs: spec_get_type(b),
                    scope: s.name,
                },
            },
        ),
    }
}

/// Subtraction over standardized operands.
pub open spec fn spec_apply_sub(a: NodeV, b: NodeV, span: SpansV, s: ScopeV, t: TableV) -> Result<
    NodeV,
    StopV,
> {
    match (a, b) {
        (NodeV::Integer { val: x, .. }, NodeV::Integer { val: y, .. }) => Ok(
            NodeV::Integer { val: vstd::wrapping::u64_specs::wrapping_sub(x, y), span },
        ),
        (NodeV::Float { bits: x, .. }, NodeV::Float { bits: y, .. }) => match bits_answer(
            t,
            HostQuery::FloatSub { a: x, b: y },
        ) {
            Some(r) => Ok(NodeV::Float { bits: r, span }),
            None => Err(StopV::Pending { query: HostQuery::FloatSub { a: x, b: y } }),
        },
        _ => Err(
            StopV::Fault {
                err: FangErrV::OperationUnsupported {
                    span,
                    op: "subtract"@,
                    lhs: spec_get_type(a),
                    rhs: spec_get_type(b),
                    scope: s.name,
                },
            },
        ),
    }
}

/// Multiplication over standardized operands.
pub open spec fn spec_apply_mul(a: NodeV, b: NodeV, span: SpansV, s: ScopeV, t: TableV) -> Result<
    NodeV,
    StopV,
> {
    match (a, b) {
        (NodeV::Integer { val: x, .. }, NodeV::Integer { val: y, .. }) => Ok(
            NodeV::Integer { val: vstd::wrapping::u64_specs::wrapping_mul(x, y), span },
        ),
        (NodeV::Float { bits: x, .. }, NodeV::Float { bits: y, .. }) => match bits_answer(
            t,
            HostQuery::FloatMul { a: x, b: y },
        ) {
            Some(r) => Ok(NodeV::Float { bits: r, span }),
            None => Err(StopV::Pending { query: HostQuery::FloatMul { a: x, b: y } }),
        },
        _ => Err(
            StopV::Fault {
                err: FangErrV::OperationUnsupported {
                    span,
                    op: "multiply"@,
                    lhs: spec_get_type(a),
                    rhs: spec_get_type(b),
                    scope: s.name,
                },
            },
        ),
    }
}

/// Division over standardized operands.  Integer division by zero is surfaced
/// as the `divide` diagnostic; float division is the host's, following IEEE.
pub open spec fn spec_apply_div(a: NodeV, b: NodeV, span: SpansV, s: ScopeV, t: TableV) -> Result<
    NodeV,
    StopV,
> {
    match (a, b) {
        (NodeV::Integer { val: x, .. }, NodeV::Integer { val: y, .. }) => {
            if y == 0 {
                Err(
                    StopV::Fault {
                        err: FangErrV::OperationUnsupported {
                            span,
                            op: "divide"@,
                            lhs: spec_get_type(a),
                            rhs: spec_get_type(b),
                            scope: s.name,
                        },
                    },
                )
            } else {
                Ok(NodeV::Integer { val: (x as int / y as int) as u64, span })
            }
        },
        (NodeV::Float { bits: x, .. }, NodeV::Float { bits: y, .. }) => match bits_answer(
            t,
            HostQuery::FloatDiv { a: x, b: y },
        ) {
            Some(r) => Ok(NodeV::Float { bits: r, span }),
            None => Err(StopV::Pending { query: HostQuery::FloatDiv { a: x, b: y } }),
        },
        _ => Err(
            StopV::Fault {
                err: FangErrV::OperationUnsupported {
                    span,
                    op: "divide"@,
                    lhs: spec_get_type(a),
                    rhs: spec_get_type(b),
                    scope: s.name,
                },
            },
        ),
    }
}

/// What expression evaluation does: an arithmetic node standardizes its
/// operands and applies the operation; any other node is already a value.
pub open spec fn spec_eval_expr(n: NodeV, s: ScopeV, t: TableV, fuel: nat) -> Result<NodeV, StopV>
    decreases fuel, node_size(n), 1int,
{
    match n {
        NodeV::Add { lhs, rhs, span } => match spec_standardize(*lhs, *rhs, s, t, fuel) {
            Err(e) => Err(e),
            Ok((a, b)) => spec_apply_add(a, b, span, s, t),
        },
        NodeV::Subtract { lhs, rhs, span } => match spec_standardize(*lhs, *rhs, s, t, fuel) {
            Err(e) => Err(e),
            Ok((a, b)) => spec_apply_sub(a, b, span, s, t),
        },
        NodeV::Multiply { lhs, rhs, span } => match spec_standardize(*lhs, *rhs, s, t, fuel) {
            Err(e) => Err(e),
            Ok((a, b)) => spec_apply_mul(a, b, span, s, t),
        },
        NodeV::Divide { lhs, rhs, span } => match spec_standardize(*lhs, *rhs, s, t, fuel) {
            Err(e) => Err(e),
            Ok((a, b)) => spec_apply_div(a, b, span, s, t),
        },
        _ => Ok(n),
    }
}

pub(crate) fn widen(n: Node, table: &HostTable) -> (r: Result<Node, Stop>)
    ensures
        match spec_widen(n.deep_view(), table.deep_view()) {
            Ok(w) => r is Ok && r->Ok_0.deep_view() == w,
            Err(e) => r is Err && r->Err_0.deep_view() == e,
        },
{
    match n {
        Node::Integer { val, span } => match table.bits(HostQuery::FloatOfInt { val }) {
            Some(bits) => Ok(Node::Float { bits, span }),
            None => Err(Stop::Pending { query: HostQuery::FloatOfInt { val } }),
        },
        other => Ok(other),
    }
}

fn coerce(a: Node, b: Node, scope: &crate::scope::Scope, table: &HostTable) -> (r: Result<
    (Node, Node),
    Stop,
>)
    ensures
        match spec_coerce(a.deep_view(), b.deep_view(), scope.deep_view(), table.deep_view()) {
            Ok(p) => r is Ok && r->Ok_0.0.deep_view() == p.0 && r->Ok_0.1.deep_view() == p.1,
            Err(e) => r is Err && r->Err_0.deep_view() == e,
        },
{
    if a.is_str() || b.is_str() {
        let sa = match a.inspect(table) {
            Ok(s) => s,
            Err(q) => {
                return Err(Stop::Pending { query: q });
            },
        };
        let sb = match b.inspect(table) {
            Ok(s) => s,
            Err(q) => {
                return Err(Stop::Pending { query: q });
            },
        };
        let aspan = a.span();
        let bspan = b.span();
        Ok((Node::Str { val: sa, span: aspan }, Node::Str { val: sb, span: bspan }))
    } else if a.is_float() || b.is_float() {
        let wa = widen(a, table)?;
        let wb = widen(b, table)?;
        Ok((wa, wb))
    } else if a.is_int() && b.is_int() {
        Ok((a, b))
    } else if a.is_bool() && b.is_bool() {
        Ok((a, b))
    } else {
        let aspan = a.span();
        Err(
            Stop::Fault {
                err: FangErr::OperationUnsupported {
                    span: aspan,
                    op: String::from_str("coerce"),
                    lhs: a.get_type(),
                    rhs: b.get_type(),
                    scope: scope.name.clone(),
                },
            },
        )
    }
}

/// Standardizes two operands for an arithmetic operation or string join:
/// identifiers are resolved, nested operations evaluated (one unit of fuel
/// each), and the coercion rule applied; see `spec_standardize`.
pub fn standardize_types(
    a: Box<Node>,
    b: Box<Node>,
    scope: &crate::scope::Scope,
    table: &HostTable,
    fuel: u64,
) -> (r: Result<(Node, Node), Stop>)
    ensures
        match spec_standardize(
            a.deep_view(),
            b.deep_view(),
            scope.deep_view(),
            table.deep_view(),
            fuel as nat,
        ) {
            Ok(p) => r is Ok && r->Ok_0.0.deep_view() == p.0 && r->Ok_0.1.deep_view() == p.1,
            Err(e) => r is Err && r->Err_0.deep_view() == e,
        },
    decreases fuel, node_size(a.deep_view()) + node_size(b.deep_view()), 0int,
{
    let a1: Node = match *a {
        Node::Identifier { val, span } => match scope.get(val.as_str()) {
            Some(n) => n,
            None => {
                return Err(
                    Stop::Fault {
                        err: FangErr::UndeclaredVariable {
                            span,
                            name: val,
                            scope: scope.name.clone(),
                        },
                    },
                );
            },
        },
        other => other,
    };
    let b1: Node = match *b {
        Node::Identifier { val, span } => match scope.get(val.as_str()) {
            Some(n) => n,
            None => {
                return Err(
                    Stop::Fault {
                        err: FangErr::UndeclaredVariable {
                            span,
                            name: val,
                            scope: scope.name.clone(),
                        },
                    },
                );
            },
        },
        other => other,
    };
    if a1.is_op() || b1.is_op() {
        if fuel == 0 {
            return Err(Stop::OutOfFuel);
        }
        let a2 = if a1.is_op() {
            eval_expr(a1, scope, table, fuel - 1)?
        } else {
            a1
        };
        let b2 = if b1.is_op() {
            eval_expr(b1, scope, table, fuel - 1)?
        } else {
            b1
        };
        coerce(a2, b2, scope, table)
    } else {
        coerce(a1, b1, scope, table)
    }
}

/// Applies addition to standardized operands; see `spec_apply_add`.
pub(crate) fn apply_add(
    a: Node,
    b: Node,
    span: Spans,
    scope: &crate::scope::Scope,
    table: &HostTable,
) -> (r: Result<Node, Stop>)
    ensures
        match spec_apply_add(
            a.deep_view(),
            b.deep_view(),
            span.deep_view(),
            scope.deep_view(),
            table.deep_view(),
        ) {
            Ok(n) => r is Ok && r->Ok_0.deep_view() == n,
            Err(e) => r is Err && r->Err_0.deep_view() == e,
        },
{
    match (a, b) {
        (Node::Integer { val: x, .. }, Node::Integer { val: y, .. }) => Ok(
            Node::Integer { val: x.wrapping_add(y), span },
        ),
        (Node::Float { bits: x, .. }, Node::Float { bits: y, .. }) => {
            match table.bits(HostQuery::FloatAdd { a: x, b: y }) {
                Some(bits) => Ok(Node::Float { bits, span }),
                None => Err(Stop::Pending { query: HostQuery::FloatAdd { a: x, b: y } }),
            }
        },
        (Node::Str { val: x, .. }, Node::Str { val: y, .. }) => {
            let joined = x.concat(y.as_str());
            Ok(Node::Str { val: joined, span })
        },
        (a, b) => Err(
            Stop::Fault {
                err: FangErr::OperationUnsupported {
                    span,
                    op: String::from_str("add"),
                    lhs: a.get_type(),
                    rhs: b.get_type(),
                    scope: scope.name.clone(),
                },
            },
        ),
    }
}

/// Applies subtraction to standardized operands; see `spec_apply_sub`.
pub(crate) fn apply_sub(
    a: Node,
    b: Node,
    span: Spans,
    scope: &crate::scope::Scope,
    table: &HostTable,
) -> (r: Result<Node, Stop>)
    ensures
        match spec_apply_sub(
            a.deep_view(),
            b.deep_view(),
            span.deep_view(),
            scope.deep_view(),
            table.deep_view(),
        ) {
            Ok(n) => r is Ok && r->Ok_0.deep_view() == n,
            Err(e) => r is Err && r->Err_0.deep_view() == e,
        },
{
    match (a, b) {
        (Node::Integer { val: x, .. }, Node::Integer { val: y, .. }) => Ok(
            Node::Integer { val: x.wrapping_sub(y), span },
        ),
        (Node::Float { bits: x, .. }, Node::Float { bits: y, .. }) => {
            match table.bits(HostQuery::FloatSub { a: x, b: y }) {
                Some(bits) => Ok(Node::Float { bits, span }),
                None => Err(Stop::Pending { query: HostQuery::FloatSub { a: x, b: y } }),
            }
        },
        (a, b) => Err(
            Stop::Fault {
                err: FangErr::OperationUnsupported {
                    span,
                    op: String::from_str("subtract"),
                    lhs: a.get_type(),
                    rhs: b.get_type(),
                    scope: scope.name.clone(),
                },
            },
        ),
    }
}

/// Applies multiplication to standardized operands; see `spec_apply_mul`.
pub(crate) fn apply_mul(
    a: Node,
    b: Node,
    span: Spans,
    scope: &crate::scope::Scope,
    table: &HostTable,
) -> (r: Result<Node, Stop>)
    ensures
        match spec_apply_mul(
            a.deep_view(),
            b.deep_view(),
            span.deep_view(),
            scope.deep_view(),
            table.deep_view(),
        ) {
            Ok(n) => r is Ok && r->Ok_0.deep_view() == n,
            Err(e) => r is Err && r->Err_0.deep_view() == e,
        },
{
    match (a, b) {
        (Node::Integer { val: x, .. }, Node::Integer { val: y, .. }) => Ok(
            Node::Integer { val: x.wrapping_mul(y), span },
        ),
        (Node::Float { bits: x, .. }, Node::Float { bits: y, .. }) => {
            match table.bits(HostQuery::FloatMul { a: x, b: y }) {
                Some(bits) => Ok(Node::Float { bits, span }),
                None => Err(Stop::Pending { query: HostQuery::FloatMul { a: x, b: y } }),
            }
        },
        (a, b) => Err(
            Stop::Fault {
                err: FangErr::OperationUnsupported {
                    span,
                    op: String::from_str("multiply"),
                    lhs: a.get_type(),
                    rhs: b.get_type(),
                    scope: scope.name.clone(),
                },
            },
        ),
    }
}

/// Applies division to standardized operands; see `spec_apply_div`.
pub(crate) fn apply_div(
    a: Node,
    b: Node,
    span: Spans,
    scope: &crate::scope::Scope,
    table: &HostTable,
) -> (r: Result<Node, Stop>)
    ensures
        match spec_apply_div(
            a.deep_view(),
            b.deep_view(),
            span.deep_view(),
            scope.deep_view(),
            table.deep_view(),
        ) {
            Ok(n) => r is Ok && r->Ok_0.deep_view() == n,
            Err(e) => r is Err && r->Err_0.deep_view() == e,
        },
{
    match (a, b) {
        (Node::Integer { val: x, span: xs }, Node::Integer { val: y, span: ys }) => {
            if y == 0 {
                let av = Node::Integer { val: x, span: xs };
                let bv = Node::Integer { val: y, span: ys };
                Err(
                    Stop::Fault {
                        err: FangErr::OperationUnsupported {
                            span,
                            op: String::from_str("divide"),
                            lhs: av.get_type(),
                            rhs: bv.get_type(),
                            scope: scope.name.clone(),
                        },
                    },
                )
            } else {
                Ok(Node::Integer { val: x / y, span })
            }
        },
        (Node::Float { bits: x, .. }, Node::Float { bits: y, .. }) => {
            match table.bits(HostQuery::FloatDiv { a: x, b: y }) {
                Some(bits) => Ok(Node::Float { bits, span }),
                None => Err(Stop::Pending { query: HostQuery::FloatDiv { a: x, b: y } }),
            }
        },
        (a, b) => Err(
            Stop::Fault {
                err: FangErr::OperationUnsupported {
                    span,
                    op: String::from_str("divide"),
                    lhs: a.get_type(),
                    rhs: b.get_type(),
                    scope: scope.name.clone(),
                },
            },
        ),
    }
}

fn eval_expr(expr: Node, scope: &crate::scope::Scope, table: &HostTable, fuel: u64) -> (r: Result<
    Node,
    Stop,
>)
    ensures
        match spec_eval_expr(expr.deep_view(), scope.deep_view(), table.deep_view(), fuel as nat) {
            Ok(n) => r is Ok && r->Ok_0.deep_view() == n,
            Err(e) => r is Err && r->Err_0.deep_view() == e,
        },
    decreases fuel, node_size(expr.deep_view()), 1int,
{
    match expr {
        Node::Add { lhs, rhs, span } => {
            let (a, b) = standardize_types(lhs, rhs, scope, table, fuel)?;
            apply_add(a, b, span, scope, table)
        },
        Node::Subtract { lhs, rhs, span } => {
            let (a, b) = standardize_types(lhs, rhs, scope, table, fuel)?;
            apply_sub(a, b, span, scope, table)
        },
        Node::Multiply { lhs, rhs, span } => {
            let (a, b) = standardize_types(lhs, rhs, scope, table, fuel)?;
            apply_mul(a, b, span, scope, table)
        },
        Node::Divide { lhs, rhs, span } => {
            let (a, b) = standardize_types(lhs, rhs, scope, table, fuel)?;
            apply_div(a, b, span, scope, table)
        },
        a => Ok(a),
    }
}


} // verus!
