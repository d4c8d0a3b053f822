//! The closed diagnostic taxonomy.
//!
//! Every semantic failure carries the responsible span; `message` renders the
//! human form, `[<Kind>]: <message> in scope <scope>` followed by the span
//! snippet.  `Stop` is the full set of reasons evaluation can stop early: a
//! diagnostic, an unanswered host query, or an exhausted step budget.

use vstd::prelude::*;
use vstd::string::StringExecFns;

use crate::ast::{spec_snippet, Spans, SpansV};
use crate::host::HostQuery;
use crate::strutil::dec_digits;

verus! {

/// A semantic diagnostic.
#[derive(Debug)]
pub enum FangErr {
    TypeMismatch { span: Spans, expected: String, found: String, scope: String },
    OperationUnsupported { span: Spans, op: String, lhs: String, rhs: String, scope: String },
    UndeclaredVariable { span: Spans, name: String, scope: String },
    UndeclaredType { span: Spans, name: String, scope: String },
    UndeclaredFunction { span: Spans, name: String, scope: String },
    AlreadyDeclaredVariable { span: Spans, name: String, scope: String },
    AlreadyDeclaredFunction { span: Spans, name: String, scope: String },
    AlreadyDeclaredTrait { span: Spans, name: String, scope: String },
    AlreadyDeclaredStruct { span: Spans, name: String, scope: String },
    AlreadyImplementedTrait { span: Spans, name: String, scope: String },
    UnexpectedToken { span: Spans, expected: String, found: String, scope: String },
    ArgumentLengthMismatch { span: Spans, expected: usize, found: usize, scope: String },
    UnexpectedType { span: Spans, expected: String, found: String, scope: String },
}

/// Mathematical model of a `FangErr`.
pub enum FangErrV {
    TypeMismatch { span: SpansV, expected: Seq<char>, found: Seq<char>, scope: Seq<char> },
    OperationUnsupported {
        span: SpansV,
        op: Seq<char>,
        lhs: Seq<char>,
        rhs: Seq<char>,
        scope: Seq<char>,
    },
    UndeclaredVariable { span: SpansV, name: Seq<char>, scope: Seq<char> },
    UndeclaredType { span: SpansV, name: Seq<char>, scope: Seq<char> },
    UndeclaredFunction { span: SpansV, name: Seq<char>, scope: Seq<char> },
    AlreadyDeclaredVariable { span: SpansV, name: Seq<char>, scope: Seq<char> },
    AlreadyDeclaredFunction { span: SpansV, name: Seq<char>, scope: Seq<char> },
    AlreadyDeclaredTrait { span: SpansV, name: Seq<char>, scope: Seq<char> },
    AlreadyDeclaredStruct { span: SpansV, name: Seq<char>, scope: Seq<char> },
    AlreadyImplementedTrait { span: SpansV, name: Seq<char>, scope: Seq<char> },
    UnexpectedToken { span: SpansV, expected: Seq<char>, found: Seq<char>, scope: Seq<char> },
    ArgumentLengthMismatch { span: SpansV, expected: int, found: int, scope: Seq<char> },
    UnexpectedType { span: SpansV, expected: Seq<char>, found: Seq<char>, scope: Seq<char> },
}

impl DeepView for FangErr {
    type V = FangErrV;

    open spec fn deep_view(&self) -> FangErrV {
        match self {
            FangErr::TypeMismatch { span, expected, found, scope } => FangErrV::TypeMismatch {
                span: span.deep_view(),
                expected: expected@,
                found: found@,
                scope: scope@,
            },
            FangErr::OperationUnsupported {
                span,
                op,
                lhs,
                rhs,
                scope,
            } => FangErrV::OperationUnsupported {
                span: span.deep_view(),
                op: op@,
                lhs: lhs@,
                rhs: rhs@,
                scope: scope@,
            },
            FangErr::UndeclaredVariable { span, name, scope } => FangErrV::UndeclaredVariable {
                span: span.deep_view(),
                name: name@,
                scope: scope@,
            },
            FangErr::UndeclaredType { span, name, scope } => FangErrV::UndeclaredType {
                span: span.deep_view(),
                name: name@,
                scope: scope@,
            },
            FangErr::UndeclaredFunction { span, name, scope } => FangErrV::UndeclaredFunction {
                span: span.deep_view(),
                name: name@,
                scope: scope@,
            },
            FangErr::AlreadyDeclaredVariable {
                span,
                name,
                scope,
            } => FangErrV::AlreadyDeclaredVariable {
                span: span.deep_view(),
                name: name@,
                scope: scope@,
            },
            FangErr::AlreadyDeclaredFunction {
                span,
                name,
                scope,
            } => FangErrV::AlreadyDeclaredFunction {
                span: span.deep_view(),
                name: name@,
                scope: scope@,
            },
            FangErr::AlreadyDeclaredTrait { span, name, scope } => FangErrV::AlreadyDeclaredTrait {
                span: span.deep_view(),
                name: name@,
                scope: scope@,
            },
            FangErr::AlreadyDeclaredStruct {
                span,
                name,
                scope,
            } => FangErrV::AlreadyDeclaredStruct {
                span: span.deep_view(),
                name: name@,
                scope: scope@,
            },
            FangErr::AlreadyImplementedTrait {
                span,
                name,
                scope,
            } => FangErrV::AlreadyImplementedTrait {
                span: span.deep_view(),
                name: name@,
                scope: scope@,
            },
            FangErr::UnexpectedToken {
                span,
                expected,
                found,
                scope,
            } => FangErrV::UnexpectedToken {
                span: span.deep_view(),
                expected: expected@,
                found: found@,
                scope: scope@,
            },
            FangErr::ArgumentLengthMismatch {
                span,
                expected,
                found,
                scope,
            } => FangErrV::ArgumentLengthMismatch {
                span: span.deep_view(),
                expected: *expected as int,
                found: *found as int,
                scope: scope@,
            },
            FangErr::UnexpectedType {
                span,
                expected,
                found,
                scope,
            } => FangErrV::UnexpectedType {
                span: span.deep_view(),
                expected: expected@,
                found: found@,
                scope: scope@,
            },
        }
    }
}

/// The rendered diagnostic text for an error, given the source file name used
/// by span snippets.
pub open spec fn spec_message(e: FangErrV, file: Seq<char>) -> Seq<char> {
    match e {
        FangErrV::TypeMismatch { span, expected, found, scope } => "[Type mismatch]: Expected "@
            + expected + ", found "@ + found + " in scope "@ + scope + "\n"@ + spec_snippet(
            span,
            file,
        ),
        FangErrV::OperationUnsupported {
            span,
            op,
            lhs,
            rhs,
            scope,
        } => "[Operation unsupported]: Tried to "@ + lhs + " "@ + op + " and "@ + rhs
            + " in scope "@ + scope + "\n"@ + spec_snippet(span, file),
        FangErrV::UndeclaredVariable { span, name, scope } => "[Undeclared variable]: Variable "@
            + name + " not found in scope "@ + scope + "\n"@ + spec_snippet(span, file),
        FangErrV::UndeclaredType { span, name, scope } => "[Undeclared type]: Type "@ + name
            + " not found in scope "@ + scope + "\n"@ + spec_snippet(span, file),
        FangErrV::UndeclaredFunction { span, name, scope } => "[Undeclared function]: Function "@
            + name + " not found in scope "@ + scope + "\n"@ + spec_snippet(span, file),
        FangErrV::AlreadyDeclaredVariable { span, name, scope } => "[Already declared]: Variable "@
            + name + " already declared in scope "@ + scope + "\n"@ + spec_snippet(span, file),
        FangErrV::AlreadyDeclaredFunction { span, name, scope } => "[Already declared]: Function "@
            + name + " already declared in scope "@ + scope + "\n"@ + spec_snippet(span, file),
        FangErrV::AlreadyDeclaredTrait { span, name, scope } => "[Already declared]: Trait "@
            + name + " already declared in scope "@ + scope + "\n"@ + spec_snippet(span, file),
        FangErrV::AlreadyDeclaredStruct { span, name, scope } => "[Already declared]: Struct "@
            + name + " already declared in scope "@ + scope + "\n"@ + spec_snippet(span, file),
        FangErrV::AlreadyImplementedTrait {
            span,
            name,
            scope,
        } => "[Already implemented]: Trait "@ + name + " already implemented in scope "@ + scope
            + "\n"@ + spec_snippet(span, file),
        FangErrV::UnexpectedToken { span, expected, found, scope } => "[Unexpected token]: Expected "@
            + expected + ", found "@ + found + " in scope "@ + scope + "\n"@ + spec_snippet(
            span,
            file,
        ),
        FangErrV::ArgumentLengthMismatch {
            span,
            expected,
            found,
            scope,
        } => "[Argument mismatch]: Expected "@ + dec_digits(expected as nat) + " arguments, found "@
            + dec_digits(found as nat) + " in scope "@ + scope + "\n"@ + spec_snippet(span, file),
        FangErrV::UnexpectedType { span, expected, found, scope } => "[Unexpected type]: Expected "@
            + expected + ", found "@ + found + " in scope "@ + scope + "\n"@ + spec_snippet(
            span,
            file,
        ),
    }
}

impl FangErr {
    /// Renders the diagnostic, headed by its kind, followed by the span
    /// snippet for the source file named `file`.
    pub fn message(&self, file: &str) -> (r: String)
        ensures
            r@ == spec_message(self.deep_view(), file@),
    {
        match self {
            FangErr::TypeMismatch { span, expected, found, scope } => {
                let mut r = String::from_str("[Type mismatch]: Expected ");
                r.append(expected.as_str());
                r.append(", found ");
                r.append(found.as_str());
                r.append(" in scope ");
                r.append(scope.as_str());
                r.append("\n");
                let sn = span.snippet(file);
                r.append(sn.as_str());
                r
            },
            FangErr::OperationUnsupported { span, op, lhs, rhs, scope } => {
                let mut r = String::from_str("[Operation unsupported]: Tried to ");
                r.append(lhs.as_str());
                r.append(" ");
                r.append(op.as_str());
                r.append(" and ");
                r.append(rhs.as_str());
                r.append(" in scope ");
                r.append(scope.as_str());
                r.append("\n");
                let sn = span.snippet(file);
                r.append(sn.as_str());
                r
            },
            FangErr::UndeclaredVariable { span, name, scope } => {
                let mut r = String::from_str("[Undeclared variable]: Variable ");
                r.append(name.as_str());
                r.append(" not found in scope ");
                r.append(scope.as_str());
                r.append("\n");
                let sn = span.snippet(file);
                r.append(sn.as_str());
                r
            },
            FangErr::UndeclaredType { span, name, scope } => {
                let mut r = String::from_str("[Undeclared type]: Type ");
                r.append(name.as_str());
                r.append(" not found in scope ");
                r.append(scope.as_str());
                r.append("\n");
                let sn = span.snippet(file);
                r.append(sn.as_str());
                r
            },
            FangErr::UndeclaredFunction { span, name, scope } => {
                let mut r = String::from_str("[Undeclared function]: Function ");
                r.append(name.as_str());
                r.append(" not found in scope ");
                r.append(scope.as_str());
                r.append("\n");
                let sn = span.snippet(file);
                r.append(sn.as_str());
                r
            },
            FangErr::AlreadyDeclaredVariable { span, name, scope } => {
                let mut r = String::from_str("[Already declared]: Variable ");
                r.append(name.as_str());
                r.append(" already declared in scope ");
                r.append(scope.as_str());
                r.append("\n");
                let sn = span.snippet(file);
                r.append(sn.as_str());
                r
            },
            FangErr::AlreadyDeclaredFunction { span, name, scope } => {
                let mut r = String::from_str("[Already declared]: Function ");
                r.append(name.as_str());
                r.append(" already declared in scope ");
                r.append(scope.as_str());
                r.append("\n");
                let sn = span.snippet(file);
                r.append(sn.as_str());
                r
            },
            FangErr::AlreadyDeclaredTrait { span, name, scope } => {
                let mut r = String::from_str("[Already declared]: Trait ");
                r.append(name.as_str());
                r.append(" already declared in scope ");
                r.append(scope.as_str());
                r.append("\n");
                let sn = span.snippet(file);
                r.append(sn.as_str());
                r
            },
            FangErr::AlreadyDeclaredStruct { span, name, scope } => {
                let mut r = String::from_str("[Already declared]: Struct ");
                r.append(name.as_str());
                r.append(" already declared in scope ");
                r.append(scope.as_str());
                r.append("\n");
                let sn = span.snippet(file);
                r.append(sn.as_str());
                r
            },
            FangErr::AlreadyImplementedTrait { span, name, scope } => {
                let mut r = String::from_str("[Already implemented]: Trait ");
                r.append(name.as_str());
                r.append(" already implemented in scope ");
                r.append(scope.as_str());
                r.append("\n");
                let sn = span.snippet(file);
                r.append(sn.as_str());
                r
            },
            FangErr::UnexpectedToken { span, expected, found, scope } => {
                let mut r = String::from_str("[Unexpected token]: Expected ");
                r.append(expected.as_str());
                r.append(", found ");
                r.append(found.as_str());
                r.append(" in scope ");
                r.append(scope.as_str());
                r.append("\n");
                let sn = span.snippet(file);
                r.append(sn.as_str());
                r
            },
            FangErr::ArgumentLengthMismatch { span, expected, found, scope } => {
                let mut r = String::from_str("[Argument mismatch]: Expected ");
                let es = crate::strutil::usize_string(*expected);
                r.append(es.as_str());
                r.append(" arguments, found ");
                let fs = crate::strutil::usize_string(*found);
                r.append(fs.as_str());
                r.append(" in scope ");
                r.append(scope.as_str());
                r.append("\n");
                let sn = span.snippet(file);
                r.append(sn.as_str());
                r
            },
            FangErr::UnexpectedType { span, expected, found, scope } => {
                let mut r = String::from_str("[Unexpected type]: Expected ");
                r.append(expected.as_str());
                r.append(", found ");
                r.append(found.as_str());
                r.append(" in scope ");
                r.append(scope.as_str());
                r.append("\n");
                let sn = span.snippet(file);
                r.append(sn.as_str());
                r
            },
        }
    }
}


/// The same diagnostic, carrying the given span instead.
pub open spec fn spec_with_span(e: FangErrV, span: SpansV) -> FangErrV {
    match e {
        FangErrV::TypeMismatch { expected, found, scope, .. } => FangErrV::TypeMismatch {
            span,
            expected,
            found,
            scope,
        },
        FangErrV::OperationUnsupported { op, lhs, rhs, scope, .. } => FangErrV::OperationUnsupported {
            span,
            op,
            lhs,
            rhs,
            scope,
        },
        FangErrV::UndeclaredVariable { name, scope, .. } => FangErrV::UndeclaredVariable {
            span,
            name,
            scope,
        },
        FangErrV::UndeclaredType { name, scope, .. } => FangErrV::UndeclaredType {
            span,
            name,
            scope,
        },
        FangErrV::UndeclaredFunction { name, scope, .. } => FangErrV::UndeclaredFunction {
            span,
            name,
            scope,
        },
        FangErrV::AlreadyDeclaredVariable { name, scope, .. } => FangErrV::AlreadyDeclaredVariable {
            span,
            name,
            scope,
        },
        FangErrV::AlreadyDeclaredFunction { name, scope, .. } => FangErrV::AlreadyDeclaredFunction {
            span,
            name,
            scope,
        },
        FangErrV::AlreadyDeclaredTrait { name, scope, .. } => FangErrV::AlreadyDeclaredTrait {
            span,
            name,
            scope,
        },
        FangErrV::AlreadyDeclaredStruct { name, scope, .. } => FangErrV::AlreadyDeclaredStruct {
            span,
            name,
            scope,
        },
        FangErrV::AlreadyImplementedTrait { name, scope, .. } => FangErrV::AlreadyImplementedTrait {
            span,
            name,
            scope,
        },
        FangErrV::UnexpectedToken { expected, found, scope, .. } => FangErrV::UnexpectedToken {
            span,
            expected,
            found,
            scope,
        },
        FangErrV::ArgumentLengthMismatch { expected, found, scope, .. } => FangErrV::ArgumentLengthMismatch {
            span,
            expected,
            found,
            scope,
        },
        FangErrV::UnexpectedType { expected, found, scope, .. } => FangErrV::UnexpectedType {
            span,
            expected,
            found,
            scope,
        },
    }
}

impl FangErr {
    /// The same diagnostic, carrying `span` instead; used where an
    /// instruction's span is more precise than the one a deeper check
    /// supplied.
    pub fn with_span(self, span: Spans) -> (r: FangErr)
        ensures
            r.deep_view() == spec_with_span(self.deep_view(), span.deep_view()),
    {
        match self {
            FangErr::TypeMismatch { expected, found, scope, .. } => FangErr::TypeMismatch {
                span,
                expected,
                found,
                scope,
            },
            FangErr::OperationUnsupported { op, lhs, rhs, scope, .. } => FangErr::OperationUnsupported {
                span,
                op,
                lhs,
                rhs,
                scope,
            },
            FangErr::UndeclaredVariable { name, scope, .. } => FangErr::UndeclaredVariable {
                span,
                name,
                scope,
            },
            FangErr::UndeclaredType { name, scope, .. } => FangErr::UndeclaredType {
                span,
                name,
                scope,
            },
            FangErr::UndeclaredFunction { name, scope, .. } => FangErr::UndeclaredFunction {
                span,
                name,
                scope,
            },
            FangErr::AlreadyDeclaredVariable { name, scope, .. } => FangErr::AlreadyDeclaredVariable {
                span,
                name,
                scope,
            },
            FangErr::AlreadyDeclaredFunction { name, scope, .. } => FangErr::AlreadyDeclaredFunction {
                span,
                name,
                scope,
            },
            FangErr::AlreadyDeclaredTrait { name, scope, .. } => FangErr::AlreadyDeclaredTrait {
                span,
                name,
                scope,
            },
            FangErr::AlreadyDeclaredStruct { name, scope, .. } => FangErr::AlreadyDeclaredStruct {
                span,
                name,
                scope,
            },
            FangErr::AlreadyImplementedTrait { name, scope, .. } => FangErr::AlreadyImplementedTrait {
                span,
                name,
                scope,
            },
            FangErr::UnexpectedToken { expected, found, scope, .. } => FangErr::UnexpectedToken {
                span,
                expected,
                found,
                scope,
            },
            FangErr::ArgumentLengthMismatch { expected, found, scope, .. } => FangErr::ArgumentLengthMismatch {
                span,
                expected,
                found,
                scope,
            },
            FangErr::UnexpectedType { expected, found, scope, .. } => FangErr::UnexpectedType {
                span,
                expected,
                found,
                scope,
            },
        }
    }
}

/// Why evaluation stopped before reaching the end of the program.
#[derive(Debug)]
pub enum Stop {
    /// A semantic diagnostic; evaluation halts for good.
    Fault { err: FangErr },
    /// A floating-point query the host has not answered yet; answer it and
    /// evaluate again.
    Pending { query: HostQuery },
    /// The step budget ran out before the program ended.
    OutOfFuel,
}

/// Mathematical model of a `Stop`.
pub enum StopV {
    Fault { err: FangErrV },
    Pending { query: HostQuery },
    OutOfFuel,
}

impl DeepView for Stop {
    type V = StopV;

    open spec fn deep_view(&self) -> StopV {
        match self {
            Stop::Fault { err } => StopV::Fault { err: err.deep_view() },
            Stop::Pending { query } => StopV::Pending { query: *query },
            Stop::OutOfFuel => StopV::OutOfFuel,
        }
    }
}

} // verus!
