//! The crate's general laws, stated and proved over the models: type
//! preservation of bindings, redeclaration fidelity, the arithmetic coercion
//! lattice, splice isolation, trait-default resolution, and purity of value
//! rendering.

use vstd::prelude::*;

use crate::ast::{
    empty_spans, spec_coerce, spec_get_type, spec_inspect, spec_is_op, spec_span,
    spec_standardize, NodeV,
};
use crate::bytecode::{lemma_run_push, spec_lower, spec_run, OpV};
use crate::errs::{FangErrV, StopV};
use crate::host::TableV;
use crate::scope::{
    spec_assign, spec_declare, spec_define_struct, spec_define_trait, spec_field_find,
    spec_implementations_for, spec_put_fn, spec_trait_method, spec_walk, FuncV, ScopeV, TraitFnV,
    TypeV,
};
use crate::strmap::{
    assoc_find, lemma_assoc_idx, lemma_assoc_push_has, lemma_assoc_update_find,
};

verus! {

/// Type preservation: once a name holds a primitive value, every successful
/// reassignment stores a value of the same type name.
pub proof fn law_type_preservation(s: ScopeV, name: Seq<char>, v: NodeV)
    requires
        spec_assign(s, name, v) is Ok,
        ({
            let cur = assoc_find(s.store, name)->0;
            ||| cur is Integer
            ||| cur is Float
            ||| cur is Str
            ||| cur is Boolean
        }),
    ensures
        assoc_find(spec_assign(s, name, v)->Ok_0.store, name) == Some(v),
        spec_get_type(v) == spec_get_type(assoc_find(s.store, name)->0),
{
    lemma_assoc_idx(s.store, name);
    lemma_assoc_update_find(s.store, name, v, 0);
}

/// Redeclaration fidelity, after a variable declaration: none of the four
/// definers can bind the name again in that scope; each second attempt yields
/// its matching diagnostic.
pub proof fn law_redeclare_after_declare(
    s: ScopeV,
    name: Seq<char>,
    v1: NodeV,
    v2: NodeV,
    f: FuncV,
    fields: Seq<NodeV>,
    fns: Seq<(Seq<char>, TraitFnV)>,
)
    requires
        spec_declare(s, name, v1) is Ok,
    ensures
        ({
            let s2 = spec_declare(s, name, v1)->Ok_0;
            &&& spec_declare(s2, name, v2) == Err::<ScopeV, FangErrV>(
                FangErrV::AlreadyDeclaredVariable { span: empty_spans(), name, scope: s.name },
            )
            &&& spec_put_fn(s2, name, f) == Err::<ScopeV, FangErrV>(
                FangErrV::AlreadyDeclaredFunction { span: empty_spans(), name, scope: s.name },
            )
            &&& spec_define_struct(s2, name, fields) == Err::<ScopeV, FangErrV>(
                FangErrV::AlreadyDeclaredStruct { span: empty_spans(), name, scope: s.name },
            )
            &&& spec_define_trait(s2, name, fns) == Err::<ScopeV, FangErrV>(
                FangErrV::AlreadyDeclaredTrait { span: empty_spans(), name, scope: s.name },
            )
        }),
{
    lemma_assoc_push_has(s.store, name, v1, 0);
}

/// Redeclaration fidelity, after a function definition.
pub proof fn law_redeclare_after_put_fn(
    s: ScopeV,
    name: Seq<char>,
    f1: FuncV,
    v: NodeV,
    f2: FuncV,
    fields: Seq<NodeV>,
    fns: Seq<(Seq<char>, TraitFnV)>,
)
    requires
        spec_put_fn(s, name, f1) is Ok,
    ensures
        ({
            let s2 = spec_put_fn(s, name, f1)->Ok_0;
            &&& spec_declare(s2, name, v) == Err::<ScopeV, FangErrV>(
                FangErrV::AlreadyDeclaredVariable { span: empty_spans(), name, scope: s.name },
            )
            &&& spec_put_fn(s2, name, f2) == Err::<ScopeV, FangErrV>(
                FangErrV::AlreadyDeclaredFunction { span: empty_spans(), name, scope: s.name },
            )
            &&& spec_define_struct(s2, name, fields) == Err::<ScopeV, FangErrV>(
                FangErrV::AlreadyDeclaredStruct { span: empty_spans(), name, scope: s.name },
            )
            &&& spec_define_trait(s2, name, fns) == Err::<ScopeV, FangErrV>(
                FangErrV::AlreadyDeclaredTrait { span: empty_spans(), name, scope: s.name },
            )
        }),
{
    lemma_assoc_push_has(s.functions, name, f1, 0);
}

/// Redeclaration fidelity, after a struct definition.
pub proof fn law_redeclare_after_define_struct(
    s: ScopeV,
    name: Seq<char>,
    fields: Seq<NodeV>,
    v: NodeV,
    f: FuncV,
    fields2: Seq<NodeV>,
    fns: Seq<(Seq<char>, TraitFnV)>,
)
    requires
        spec_define_struct(s, name, fields) is Ok,
    ensures
        ({
            let s2 = spec_define_struct(s, name, fields)->Ok_0;
            &&& spec_declare(s2, name, v) == Err::<ScopeV, FangErrV>(
                FangErrV::AlreadyDeclaredVariable { span: empty_spans(), name, scope: s.name },
            )
            &&& spec_put_fn(s2, name, f) == Err::<ScopeV, FangErrV>(
                FangErrV::AlreadyDeclaredFunction { span: empty_spans(), name, scope: s.name },
            )
            &&& spec_define_struct(s2, name, fields2) == Err::<ScopeV, FangErrV>(
                FangErrV::AlreadyDeclaredStruct { span: empty_spans(), name, scope: s.name },
            )
            &&& spec_define_trait(s2, name, fns) == Err::<ScopeV, FangErrV>(
                FangErrV::AlreadyDeclaredTrait { span: empty_spans(), name, scope: s.name },
            )
        }),
{
    lemma_assoc_push_has(
        s.types,
        name,
        TypeV::Struct { name, fields, implements: Seq::empty(), implementations: Seq::empty() },
        0,
    );
}

/// Redeclaration fidelity, after a trait definition.
pub proof fn law_redeclare_after_define_trait(
    s: ScopeV,
    name: Seq<char>,
    fns: Seq<(Seq<char>, TraitFnV)>,
    v: NodeV,
    f: FuncV,
    fields: Seq<NodeV>,
    fns2: Seq<(Seq<char>, TraitFnV)>,
)
    requires
        spec_define_trait(s, name, fns) is Ok,
    ensures
        ({
            let s2 = spec_define_trait(s, name, fns)->Ok_0;
            &&& spec_declare(s2, name, v) == Err::<ScopeV, FangErrV>(
                FangErrV::AlreadyDeclaredVariable { span: empty_spans(), name, scope: s.name },
            )
            &&& spec_put_fn(s2, name, f) == Err::<ScopeV, FangErrV>(
                FangErrV::AlreadyDeclaredFunction { span: empty_spans(), name, scope: s.name },
            )
            &&& spec_define_struct(s2, name, fields) == Err::<ScopeV, FangErrV>(
                FangErrV::AlreadyDeclaredStruct { span: empty_spans(), name, scope: s.name },
            )
            &&& spec_define_trait(s2, name, fns2) == Err::<ScopeV, FangErrV>(
                FangErrV::AlreadyDeclaredTrait { span: empty_spans(), name, scope: s.name },
            )
        }),
{
    lemma_assoc_push_has(s.types, name, TypeV::Trait { name, functions: fns }, 0);
}

/// The arithmetic coercion lattice over primitive operands: a string on
/// either side makes both strings; else a float on either side makes a
/// numeric pair float; integer and boolean pairs pass unchanged; a mixed
/// integer/boolean pair is the `coerce` diagnostic.  Stopping early is only
/// ever for an unanswered host query, never a diagnostic, in the coercing
/// cases.
pub proof fn law_coercion_lattice(a: NodeV, b: NodeV, s: ScopeV, t: TableV)
    requires
        a is Integer || a is Float || a is Str || a is Boolean,
        b is Integer || b is Float || b is Str || b is Boolean,
    ensures
        (a is Str || b is Str) ==> (match spec_coerce(a, b, s, t) {
            Ok(p) => p.0 is Str && p.1 is Str,
            Err(st) => st is Pending,
        }),
        (!(a is Str || b is Str) && (a is Float || b is Float) && !(a is Boolean)
            && !(b is Boolean)) ==> (match spec_coerce(a, b, s, t) {
            Ok(p) => p.0 is Float && p.1 is Float,
            Err(st) => st is Pending,
        }),
        (a is Integer && b is Integer) ==> spec_coerce(a, b, s, t) == Ok::<
            (NodeV, NodeV),
            StopV,
        >((a, b)),
        (a is Boolean && b is Boolean) ==> spec_coerce(a, b, s, t) == Ok::<
            (NodeV, NodeV),
            StopV,
        >((a, b)),
        ((a is Integer && b is Boolean) || (a is Boolean && b is Integer)) ==> spec_coerce(
            a,
            b,
            s,
            t,
        ) == Err::<(NodeV, NodeV), StopV>(
            StopV::Fault {
                err: FangErrV::OperationUnsupported {
                    span: spec_span(a),
                    op: "coerce"@,
                    lhs: spec_get_type(a),
                    rhs: spec_get_type(b),
                    scope: s.name,
                },
            },
        ),
        spec_standardize(a, b, s, t, 0) == spec_coerce(a, b, s, t),
{
}

/// Which node forms lower to a single push of themselves.
pub open spec fn is_value_form(v: NodeV) -> bool {
    v is Integer || v is Float || v is Str || v is Boolean || v is Object
}

/// Splice isolation: when a call's splice is the lowering of a returned
/// value, the machine resumes right after the call instruction with the
/// caller's stack less the consumed arguments (`stack2`), and executing the
/// spliced push leaves exactly that stack plus the returned value.
pub proof fn law_splice_isolation(
    ops: Seq<OpV>,
    i: int,
    stack2: Seq<NodeV>,
    s: ScopeV,
    t: TableV,
    fuel: nat,
    v: NodeV,
)
    requires
        0 <= i < ops.len(),
        fuel > 0,
        is_value_form(v),
    ensures
        ({
            let ops2 = ops.take(i + 1) + spec_lower(v) + ops.skip(i + 1);
            spec_lower(v) == seq![OpV::Push { value: v }] && spec_run(
                ops2,
                i + 1,
                stack2,
                s,
                t,
                fuel,
            ) == spec_run(ops2, i + 2, stack2.push(v), s, t, (fuel - 1) as nat)
        }),
{
    assert(spec_lower(v) == seq![OpV::Push { value: v }]);
    let ops2 = ops.take(i + 1) + spec_lower(v) + ops.skip(i + 1);
    assert(ops2[i + 1] == OpV::Push { value: v });
    lemma_run_push(ops2, i + 1, stack2, s, t, fuel);
}

/// Trait conformance round-trip, at the resolution step: when the last part
/// of a dotted path names no field of an object but a default-bodied method
/// of one of its type's implemented traits, the walk resolves it to that
/// method, materialized as a function value.
pub proof fn law_trait_default_resolution(
    s: ScopeV,
    obj: NodeV,
    parts: Seq<Seq<char>>,
    i: int,
    f: FuncV,
)
    requires
        0 <= i == parts.len() - 1,
        obj is Object,
        spec_field_find(obj->Object_fields, parts[i], 0) is None,
        spec_trait_method(spec_implementations_for(s, obj->Object_typed), parts[i], 0) == Some(f),
    ensures
        spec_walk(s, obj, parts, i) == Some(
            NodeV::Function {
                name: parts[i],
                args: f.args,
                body: f.body,
                return_type: f.return_type,
                span: empty_spans(),
            },
        ),
{
    reveal_with_fuel(spec_walk, 3);
}

/// Purity of value rendering: the rendering is a function of the value's
/// model and the host table alone, so equal values render equally.
pub proof fn law_inspect_pure(a: NodeV, b: NodeV, t1: TableV, t2: TableV)
    requires
        a == b,
        t1 == t2,
    ensures
        spec_inspect(a, t1) == spec_inspect(b, t2),
{
}

} // verus!
