//! Nested, parent-linked scopes: variables, user functions and type
//! definitions, with name resolution (including dotted paths), trait-method
//! lookup and conformance checking.
//!
//! A child scope owns a clone of its parent, used for lookup only; a call's
//! scope lives exactly as long as the call.

use vstd::prelude::*;
use vstd::string::StringExecFns;

use crate::ast::{
    empty_spans, node_view, nodes_view, spec_compare_type, spec_get_type, Builtin, BuiltinFnBody,
    Node, NodeV,
};
use crate::errs::{FangErr, FangErrV};
use crate::strmap::{assoc_find, assoc_has, assoc_idx, lemma_assoc_idx, DeepClone, StrMap};

verus! {

/// A user function: formals, body statements, optional return type.
#[derive(Debug)]
pub struct FuncRec {
    pub args: Vec<Node>,
    pub body: Vec<Node>,
    pub return_type: Option<String>,
}

/// Mathematical model of a `FuncRec`.
#[verifier::ext_equal]
pub struct FuncV {
    pub args: Seq<NodeV>,
    pub body: Seq<NodeV>,
    pub return_type: Option<Seq<char>>,
}

impl DeepView for FuncRec {
    type V = FuncV;

    open spec fn deep_view(&self) -> FuncV {
        FuncV {
            args: nodes_view(self.args),
            body: nodes_view(self.body),
            return_type: match self.return_type {
                Some(t) => Some(t@),
                None => None,
            },
        }
    }
}

impl DeepClone for FuncRec {
    fn deep_clone(&self) -> (r: Self)
        ensures
            r.deep_view() == self.deep_view(),
    {
        FuncRec {
            args: crate::ast::clone_nodes(&self.args),
            body: crate::ast::clone_nodes(&self.body),
            return_type: match &self.return_type {
                Some(t) => Some(t.clone()),
                None => None,
            },
        }
    }
}

/// One method of a trait: with a default body, or a bare signature.
#[derive(Debug)]
pub enum TraitFn {
    DefaultBody { name: String, args: Vec<Node>, body: Vec<Node>, return_type: Option<String> },
    NoBody { name: String, args: Vec<Node>, return_type: Option<String> },
}

/// Mathematical model of a `TraitFn`.
#[verifier::ext_equal]
pub enum TraitFnV {
    DefaultBody {
        name: Seq<char>,
        args: Seq<NodeV>,
        body: Seq<NodeV>,
        return_type: Option<Seq<char>>,
    },
    NoBody { name: Seq<char>, args: Seq<NodeV>, return_type: Option<Seq<char>> },
}

impl TraitFnV {
    /// The formals of the method, in either form.
    pub open spec fn args(self) -> Seq<NodeV> {
        match self {
            TraitFnV::DefaultBody { args, .. } => args,
            TraitFnV::NoBody { args, .. } => args,
        }
    }

    /// The declared return type of the method, in either form.
    pub open spec fn return_type(self) -> Option<Seq<char>> {
        match self {
            TraitFnV::DefaultBody { return_type, .. } => return_type,
            TraitFnV::NoBody { return_type, .. } => return_type,
        }
    }
}

impl DeepView for TraitFn {
    type V = TraitFnV;

    open spec fn deep_view(&self) -> TraitFnV {
        match self {
            TraitFn::DefaultBody { name, args, body, return_type } => TraitFnV::DefaultBody {
                name: name@,
                args: nodes_view(*args),
                body: nodes_view(*body),
                return_type: match return_type {
                    Some(t) => Some(t@),
                    None => None,
                },
            },
            TraitFn::NoBody { name, args, return_type } => TraitFnV::NoBody {
                name: name@,
                args: nodes_view(*args),
                return_type: match return_type {
                    Some(t) => Some(t@),
                    None => None,
                },
            },
        }
    }
}

impl DeepClone for TraitFn {
    fn deep_clone(&self) -> (r: Self)
        ensures
            r.deep_view() == self.deep_view(),
    {
        match self {
            TraitFn::DefaultBody { name, args, body, return_type } => TraitFn::DefaultBody {
                name: name.clone(),
                args: crate::ast::clone_nodes(args),
                body: crate::ast::clone_nodes(body),
                return_type: match return_type {
                    Some(t) => Some(t.clone()),
                    None => None,
                },
            },
            TraitFn::NoBody { name, args, return_type } => TraitFn::NoBody {
                name: name.clone(),
                args: crate::ast::clone_nodes(args),
                return_type: match return_type {
                    Some(t) => Some(t.clone()),
                    None => None,
                },
            },
        }
    }
}

/// A user-declared type: a trait (named set of methods, some with default
/// bodies) or a struct (named field templates, plus the traits it implements
/// and the method maps those impls provided).
#[derive(Debug)]
pub enum Type {
    Trait { name: String, functions: StrMap<TraitFn> },
    Struct {
        name: String,
        fields: Vec<Node>,
        implements: Vec<String>,
        implementations: Vec<StrMap<FuncRec>>,
    },
}

/// Mathematical model of a `Type`.
#[verifier::ext_equal]
pub enum TypeV {
    Trait { name: Seq<char>, functions: Seq<(Seq<char>, TraitFnV)> },
    Struct {
        name: Seq<char>,
        fields: Seq<NodeV>,
        implements: Seq<Seq<char>>,
        implementations: Seq<Seq<(Seq<char>, FuncV)>>,
    },
}

impl DeepView for Type {
    type V = TypeV;

    open spec fn deep_view(&self) -> TypeV {
        match self {
            Type::Trait { name, functions } => TypeV::Trait {
                name: name@,
                functions: functions.deep_view(),
            },
            Type::Struct { name, fields, implements, implementations } => TypeV::Struct {
                name: name@,
                fields: nodes_view(*fields),
                implements: implements.deep_view(),
                implementations: implementations.deep_view(),
            },
        }
    }
}

fn clone_strings(v: &Vec<String>) -> (r: Vec<String>)
    ensures
        r.deep_view() == v.deep_view(),
{
    let mut r: Vec<String> = Vec::new();
    let mut i: usize = 0;
    while i < v.len()
        invariant
            i <= v@.len(),
            r@.len() == i as int,
            forall|j: int| 0 <= j < i as int ==> r@[j]@ == v@[j]@,
        decreases v@.len() - i,
    {
        r.push(v[i].clone());
        i = i + 1;
    }
    proof {
        assert(r.deep_view() =~= v.deep_view());
    }
    r
}

fn clone_impl_maps(v: &Vec<StrMap<FuncRec>>) -> (r: Vec<StrMap<FuncRec>>)
    ensures
        r.deep_view() == v.deep_view(),
{
    let mut r: Vec<StrMap<FuncRec>> = Vec::new();
    let mut i: usize = 0;
    while i < v.len()
        invariant
            i <= v@.len(),
            r@.len() == i as int,
            forall|j: int| 0 <= j < i as int ==> r@[j].deep_view() == v@[j].deep_view(),
        decreases v@.len() - i,
    {
        r.push(v[i].deep_clone());
        i = i + 1;
    }
    proof {
        assert(r.deep_view() =~= v.deep_view());
    }
    r
}

impl DeepClone for Type {
    fn deep_clone(&self) -> (r: Self)
        ensures
            r.deep_view() == self.deep_view(),
    {
        match self {
            Type::Trait { name, functions } => Type::Trait {
                name: name.clone(),
                functions: functions.deep_clone(),
            },
            Type::Struct { name, fields, implements, implementations } => Type::Struct {
                name: name.clone(),
                fields: crate::ast::clone_nodes(fields),
                implements: clone_strings(implements),
                implementations: clone_impl_maps(implementations),
            },
        }
    }
}

/// A lexical scope: named values, user functions and types, and a back link
/// to the parent used for lookup only.
#[derive(Debug)]
pub struct Scope {
    pub name: String,
    pub store: StrMap<Node>,
    pub functions: StrMap<FuncRec>,
    pub types: StrMap<Type>,
    pub parent: Option<Box<Scope>>,
}

/// Mathematical model of a `Scope`.
#[verifier::ext_equal]
pub struct ScopeV {
    pub name: Seq<char>,
    pub store: Seq<(Seq<char>, NodeV)>,
    pub functions: Seq<(Seq<char>, FuncV)>,
    pub types: Seq<(Seq<char>, TypeV)>,
    pub parent: Option<Box<ScopeV>>,
}

/// The mathematical model of a scope chain.
pub open spec fn scope_view(s: Scope) -> ScopeV
    decreases s,
{
    ScopeV {
        name: s.name@,
        store: s.store.deep_view(),
        functions: s.functions.deep_view(),
        types: s.types.deep_view(),
        parent: match s.parent {
            Some(b) => Some(Box::new(scope_view(*b))),
            None => None,
        },
    }
}

impl DeepView for Scope {
    type V = ScopeV;

    open spec fn deep_view(&self) -> ScopeV {
        scope_view(*self)
    }
}

impl DeepClone for Scope {
    fn deep_clone(&self) -> (r: Self)
        ensures
            r.deep_view() == self.deep_view(),
        decreases self,
    {
        Scope {
            name: self.name.clone(),
            store: self.store.deep_clone(),
            functions: self.functions.deep_clone(),
            types: self.types.deep_clone(),
            parent: match &self.parent {
                Some(b) => Some(Box::new((&**b).deep_clone())),
                None => None,
            },
        }
    }
}


/// Whether `name` is already bound in this scope by any of the four definers:
/// as a variable, a function, or a type.  At most one definition per name may
/// succeed in a scope.
pub open spec fn spec_name_bound(s: ScopeV, name: Seq<char>) -> bool {
    assoc_has(s.store, name) || assoc_has(s.functions, name) || assoc_has(s.types, name)
}

/// What `Scope::declare` does: a fresh binding, or the redeclaration
/// diagnostic when the name is already bound here by any definer.
pub open spec fn spec_declare(s: ScopeV, name: Seq<char>, val: NodeV) -> Result<ScopeV, FangErrV> {
    if spec_name_bound(s, name) {
        Err(FangErrV::AlreadyDeclaredVariable { span: empty_spans(), name, scope: s.name })
    } else {
        Ok(ScopeV { store: s.store.push((name, val)), ..s })
    }
}

/// What `Scope::assign` does: the existing binding is replaced when the new
/// value's type agrees with the stored one; otherwise the matching
/// diagnostic.
pub open spec fn spec_assign(s: ScopeV, name: Seq<char>, val: NodeV) -> Result<ScopeV, FangErrV> {
    match assoc_find(s.store, name) {
        None => Err(FangErrV::UndeclaredVariable { span: empty_spans(), name, scope: s.name }),
        Some(cur) => {
            if !spec_compare_type(cur, val) {
                Err(
                    FangErrV::TypeMismatch {
                        span: empty_spans(),
                        expected: spec_get_type(cur),
                        found: spec_get_type(val),
                        scope: s.name,
                    },
                )
            } else {
                Ok(ScopeV { store: s.store.update(assoc_idx(s.store, name), (name, val)), ..s })
            }
        },
    }
}

/// What `Scope::put_fn` does: a fresh function record, or the redeclaration
/// diagnostic when the name is already bound here by any definer.
pub open spec fn spec_put_fn(s: ScopeV, name: Seq<char>, f: FuncV) -> Result<ScopeV, FangErrV> {
    if spec_name_bound(s, name) {
        Err(FangErrV::AlreadyDeclaredFunction { span: empty_spans(), name, scope: s.name })
    } else {
        Ok(ScopeV { functions: s.functions.push((name, f)), ..s })
    }
}

/// What `Scope::define_struct` does: a fresh struct type, or the
/// redeclaration diagnostic when the name is already bound here by any
/// definer.
pub open spec fn spec_define_struct(s: ScopeV, name: Seq<char>, fields: Seq<NodeV>) -> Result<
    ScopeV,
    FangErrV,
> {
    if spec_name_bound(s, name) {
        Err(FangErrV::AlreadyDeclaredStruct { span: empty_spans(), name, scope: s.name })
    } else {
        Ok(
            ScopeV {
                types: s.types.push(
                    (
                        name,
                        TypeV::Struct {
                            name,
                            fields,
                            implements: Seq::empty(),
                            implementations: Seq::empty(),
                        },
                    ),
                ),
                ..s
            },
        )
    }
}

/// What `Scope::define_trait` does: a fresh trait type, or the redeclaration
/// diagnostic when the name is already bound here by any definer.
pub open spec fn spec_define_trait(
    s: ScopeV,
    name: Seq<char>,
    functions: Seq<(Seq<char>, TraitFnV)>,
) -> Result<ScopeV, FangErrV> {
    if spec_name_bound(s, name) {
        Err(FangErrV::AlreadyDeclaredTrait { span: empty_spans(), name, scope: s.name })
    } else {
        Ok(ScopeV { types: s.types.push((name, TypeV::Trait { name, functions })), ..s })
    }
}

/// The first type of the given name visible from this scope.
pub open spec fn spec_get_type_in(s: ScopeV, name: Seq<char>) -> Option<TypeV>
    decreases s,
{
    match assoc_find(s.types, name) {
        Some(t) => Some(t),
        None => match s.parent {
            Some(p) => spec_get_type_in(*p, name),
            None => None,
        },
    }
}

impl Scope {
    /// A fresh scope with the given name and parent link.
    pub fn new(name: String, parent: Option<Box<Scope>>) -> (r: Self)
        ensures
            r.deep_view() == (ScopeV {
                name: name@,
                store: Seq::empty(),
                functions: Seq::empty(),
                types: Seq::empty(),
                parent: match parent {
                    Some(b) => Some(Box::new(b.deep_view())),
                    None => None,
                },
            }),
    {
        Scope {
            name,
            store: StrMap::new(),
            functions: StrMap::new(),
            types: StrMap::new(),
            parent,
        }
    }

    /// Binds `name` to `val` here; a second declaration of the same name is
    /// refused with `AlreadyDeclaredVariable`.
    pub fn declare(&mut self, name: String, val: Node) -> (r: Result<(), FangErr>)
        ensures
            match spec_declare(old(self).deep_view(), name@, val.deep_view()) {
                Ok(s) => r is Ok && final(self).deep_view() == s,
                Err(e) => r is Err && r->Err_0.deep_view() == e && final(self).deep_view() == old(
                    self,
                ).deep_view(),
            },
    {
        if self.store.contains_key(name.as_str()) || self.functions.contains_key(name.as_str())
            || self.types.contains_key(name.as_str()) {
            return Err(
                FangErr::AlreadyDeclaredVariable {
                    span: crate::ast::Spans::empty(),
                    name,
                    scope: self.name.clone(),
                },
            );
        }
        self.store.put(name, val);
        Ok(())
    }

    /// Replaces the binding of `name`; the name must be bound here and the
    /// new value must agree in type with the stored one, else the matching
    /// diagnostic is returned and nothing changes.
    pub fn assign(&mut self, name: String, val: Node) -> (r: Result<(), FangErr>)
        ensures
            match spec_assign(old(self).deep_view(), name@, val.deep_view()) {
                Ok(s) => r is Ok && final(self).deep_view() == s,
                Err(e) => r is Err && r->Err_0.deep_view() == e && final(self).deep_view() == old(
                    self,
                ).deep_view(),
            },
    {
        proof {
            lemma_assoc_idx(self.store.deep_view(), name@);
        }
        let cur_type: String = match self.store.get(name.as_str()) {
            None => {
                return Err(
                    FangErr::UndeclaredVariable {
                        span: crate::ast::Spans::empty(),
                        name,
                        scope: self.name.clone(),
                    },
                );
            },
            Some(cur) => {
                if !cur.compare_type(&val) {
                    cur.get_type()
                } else {
                    self.store.set(name.as_str(), val);
                    return Ok(());
                }
            },
        };
        Err(
            FangErr::TypeMismatch {
                span: crate::ast::Spans::empty(),
                expected: cur_type,
                found: val.get_type(),
                scope: self.name.clone(),
            },
        )
    }

    /// Records a user function; a second function of the same name here is
    /// refused with `AlreadyDeclaredFunction`.
    pub fn put_fn(
        &mut self,
        name: String,
        args: Vec<Node>,
        body: Vec<Node>,
        return_type: Option<String>,
    ) -> (r: Result<(), FangErr>)
        ensures
            match spec_put_fn(
                old(self).deep_view(),
                name@,
                FuncV {
                    args: nodes_view(args),
                    body: nodes_view(body),
                    return_type: match return_type {
                        Some(t) => Some(t@),
                        None => None,
                    },
                },
            ) {
                Ok(s) => r is Ok && final(self).deep_view() == s,
                Err(e) => r is Err && r->Err_0.deep_view() == e && final(self).deep_view() == old(
                    self,
                ).deep_view(),
            },
    {
        if self.store.contains_key(name.as_str()) || self.functions.contains_key(name.as_str())
            || self.types.contains_key(name.as_str()) {
            return Err(
                FangErr::AlreadyDeclaredFunction {
                    span: crate::ast::Spans::empty(),
                    name,
                    scope: self.name.clone(),
                },
            );
        }
        self.functions.put(name, FuncRec { args, body, return_type });
        Ok(())
    }

    /// Records a struct type; a second type of the same name here is refused
    /// with `AlreadyDeclaredStruct`.
    pub fn define_struct(&mut self, name: String, fields: Vec<Node>) -> (r: Result<(), FangErr>)
        ensures
            match spec_define_struct(old(self).deep_view(), name@, nodes_view(fields)) {
                Ok(s) => r is Ok && final(self).deep_view() == s,
                Err(e) => r is Err && r->Err_0.deep_view() == e && final(self).deep_view() == old(
                    self,
                ).deep_view(),
            },
    {
        if self.store.contains_key(name.as_str()) || self.functions.contains_key(name.as_str())
            || self.types.contains_key(name.as_str()) {
            return Err(
                FangErr::AlreadyDeclaredStruct {
                    span: crate::ast::Spans::empty(),
                    name,
                    scope: self.name.clone(),
                },
            );
        }
        let ty = Type::Struct {
            name: name.clone(),
            fields,
            implements: Vec::new(),
            implementations: Vec::new(),
        };
        proof {
            assert(ty.deep_view()->Struct_implements =~= Seq::<Seq<char>>::empty());
            assert(ty.deep_view()->Struct_implementations =~= Seq::<
                Seq<(Seq<char>, FuncV)>,
            >::empty());
        }
        self.types.put(name, ty);
        Ok(())
    }

    /// Records a trait type; a second type of the same name here is refused
    /// with `AlreadyDeclaredTrait`.
    pub fn define_trait(&mut self, name: String, functions: StrMap<TraitFn>) -> (r: Result<
        (),
        FangErr,
    >)
        ensures
            match spec_define_trait(old(self).deep_view(), name@, functions.deep_view()) {
                Ok(s) => r is Ok && final(self).deep_view() == s,
                Err(e) => r is Err && r->Err_0.deep_view() == e && final(self).deep_view() == old(
                    self,
                ).deep_view(),
            },
    {
        if self.store.contains_key(name.as_str()) || self.functions.contains_key(name.as_str())
            || self.types.contains_key(name.as_str()) {
            return Err(
                FangErr::AlreadyDeclaredTrait {
                    span: crate::ast::Spans::empty(),
                    name,
                    scope: self.name.clone(),
                },
            );
        }
        self.types.put(name.clone(), Type::Trait { name, functions });
        Ok(())
    }

    /// The first type of the given name visible from this scope, searching
    /// the parent chain.
    pub fn get_type(&self, name: &str) -> (r: Option<&Type>)
        ensures
            r.deep_view() == spec_get_type_in(self.deep_view(), name@),
        decreases self,
    {
        match self.types.get(name) {
            Some(t) => Some(t),
            None => match &self.parent {
                Some(p) => (&**p).get_type(name),
                None => None,
            },
        }
    }
}


/// The position of the first `.` in `s` at or after `i`, or -1.
pub open spec fn find_dot_from(s: Seq<char>, i: int) -> int
    decreases s.len() - i,
{
    if i < 0 || i >= s.len() {
        -1
    } else if s[i] == '.' {
        i
    } else {
        find_dot_from(s, i + 1)
    }
}

/// The position of the first `.` in `s`, or -1.
pub open spec fn find_dot(s: Seq<char>) -> int {
    find_dot_from(s, 0)
}

/// Where the first dot is, if any.
pub proof fn lemma_find_dot_from(s: Seq<char>, i: int)
    requires
        0 <= i <= s.len(),
    ensures
        find_dot_from(s, i) == -1 ==> forall|j: int| i <= j < s.len() ==> s[j] != '.',
        find_dot_from(s, i) != -1 ==> i <= find_dot_from(s, i) < s.len() && s[find_dot_from(s, i)]
            == '.',
    decreases s.len() - i,
{
    if i < s.len() && s[i] != '.' {
        lemma_find_dot_from(s, i + 1);
    }
}

/// A dotted name split at its dots; a name without dots is one part.
pub open spec fn spec_split_dots(s: Seq<char>) -> Seq<Seq<char>>
    decreases s.len(),
{
    let i = find_dot(s);
    if !(0 <= i < s.len()) {
        seq![s]
    } else {
        seq![s.take(i)] + spec_split_dots(s.skip(i + 1))
    }
}

fn find_dot_exec(s: &str, i: usize) -> (r: Option<usize>)
    requires
        i <= s@.len(),
    ensures
        match r {
            Some(j) => find_dot_from(s@, i as int) == j as int && j < s@.len(),
            None => find_dot_from(s@, i as int) == -1,
        },
    decreases s@.len() - i,
{
    if i >= s.unicode_len() {
        None
    } else if s.get_char(i) == '.' {
        Some(i)
    } else {
        find_dot_exec(s, i + 1)
    }
}

/// Splits a dotted name at its dots.
pub fn split_dots(name: &str) -> (parts: Vec<String>)
    ensures
        parts.deep_view() == spec_split_dots(name@),
        parts@.len() >= 1,
    decreases name@.len(),
{
    match find_dot_exec(name, 0) {
        None => {
            let mut v: Vec<String> = Vec::new();
            v.push(name.to_owned());
            proof {
                assert(v.deep_view() =~= spec_split_dots(name@));
            }
            v
        },
        Some(i) => {
            let n = name.unicode_len();
            let head = name.substring_char(0, i).to_owned();
            let rest = name.substring_char(i + 1, n);
            let mut parts = split_dots(rest);
            parts.insert(0, head);
            proof {
                assert(rest@ =~= name@.skip(i + 1));
                assert(head@ =~= name@.take(i as int));
                assert(parts.deep_view() =~= spec_split_dots(name@));
            }
            parts
        },
    }
}

/// The first binding of `key` in this scope or an ancestor.
pub open spec fn spec_chain_lookup(s: ScopeV, key: Seq<char>) -> Option<NodeV>
    decreases s,
{
    match assoc_find(s.store, key) {
        Some(v) => Some(v),
        None => match s.parent {
            Some(p) => spec_chain_lookup(*p, key),
            None => None,
        },
    }
}

/// The first `Field` named `key` among an object's fields, from position `i`.
pub open spec fn spec_field_find(fields: Seq<NodeV>, key: Seq<char>, i: int) -> Option<NodeV>
    decreases fields.len() - i,
{
    if i < 0 || i >= fields.len() {
        None
    } else if fields[i] is Field && fields[i]->Field_name == key {
        Some(fields[i])
    } else {
        spec_field_find(fields, key, i + 1)
    }
}

/// What `spec_field_find` can return.
pub proof fn lemma_field_find(fields: Seq<NodeV>, key: Seq<char>, i: int)
    ensures
        spec_field_find(fields, key, i) is Some ==> spec_field_find(fields, key, i)->0 is Field,
    decreases fields.len() - i,
{
    if 0 <= i < fields.len() && !(fields[i] is Field && fields[i]->Field_name == key) {
        lemma_field_find(fields, key, i + 1);
    }
}

/// The default-bodied methods of a trait, as function records, from entry `i`
/// on, in declaration order.
pub open spec fn spec_defaults_from(fns: Seq<(Seq<char>, TraitFnV)>, i: int) -> Seq<
    (Seq<char>, FuncV),
>
    decreases fns.len() - i,
{
    if i < 0 || i >= fns.len() {
        Seq::empty()
    } else {
        match fns[i].1 {
            TraitFnV::DefaultBody { args, body, return_type, .. } => seq![
                (fns[i].0, FuncV { args, body, return_type }),
            ] + spec_defaults_from(fns, i + 1),
            TraitFnV::NoBody { .. } => spec_defaults_from(fns, i + 1),
        }
    }
}

/// One method map per implemented trait (empty for a dangling trait name),
/// from position `i` of the implements list on.
pub open spec fn spec_impls_from(s: ScopeV, implements: Seq<Seq<char>>, i: int) -> Seq<
    Seq<(Seq<char>, FuncV)>,
>
    decreases implements.len() - i,
{
    if i < 0 || i >= implements.len() {
        Seq::empty()
    } else {
        let m = match spec_get_type_in(s, implements[i]) {
            Some(TypeV::Trait { functions, .. }) => spec_defaults_from(functions, 0),
            _ => Seq::empty(),
        };
        seq![m] + spec_impls_from(s, implements, i + 1)
    }
}

/// The default-method maps of the traits a struct implements, in
/// implementation order; empty when `name` is not a visible struct.
pub open spec fn spec_implementations_for(s: ScopeV, name: Seq<char>) -> Seq<
    Seq<(Seq<char>, FuncV)>,
> {
    match spec_get_type_in(s, name) {
        Some(TypeV::Struct { implements, .. }) => spec_impls_from(s, implements, 0),
        _ => Seq::empty(),
    }
}

/// The first trait-default method named `key` among the given method maps.
pub open spec fn spec_trait_method(
    impls: Seq<Seq<(Seq<char>, FuncV)>>,
    key: Seq<char>,
    i: int,
) -> Option<FuncV>
    decreases impls.len() - i,
{
    if i < 0 || i >= impls.len() {
        None
    } else {
        match assoc_find(impls[i], key) {
            Some(f) => Some(f),
            None => spec_trait_method(impls, key, i + 1),
        }
    }
}

/// Walks the remaining parts of a dotted path through `container`: a field
/// named for the part yields its value; otherwise a default method of the
/// object's type is materialized as a function value; anything else is
/// absent.
pub open spec fn spec_walk(s: ScopeV, container: NodeV, parts: Seq<Seq<char>>, i: int) -> Option<
    NodeV,
>
    decreases parts.len() - i,
{
    if i < 0 || i >= parts.len() {
        Some(container)
    } else {
        match container {
            NodeV::Object { typed, fields, .. } => {
                match spec_field_find(fields, parts[i], 0) {
                    Some(f) => spec_walk(s, *f->Field_value, parts, i + 1),
                    None => match spec_trait_method(
                        spec_implementations_for(s, typed),
                        parts[i],
                        0,
                    ) {
                        Some(func) => spec_walk(
                            s,
                            NodeV::Function {
                                name: parts[i],
                                args: func.args,
                                body: func.body,
                                return_type: func.return_type,
                                span: empty_spans(),
                            },
                            parts,
                            i + 1,
                        ),
                        None => None,
                    },
                }
            },
            _ => None,
        }
    }
}

/// What `Scope::get` resolves `name` to: the first part through the scope
/// chain, the remaining parts walked through objects.
pub open spec fn spec_scope_get(s: ScopeV, name: Seq<char>) -> Option<NodeV> {
    let parts = spec_split_dots(name);
    match spec_chain_lookup(s, parts[0]) {
        Some(v) => spec_walk(s, v, parts, 1),
        None => None,
    }
}

/// Like `spec_scope_get`, but the first part must be bound in this scope's
/// own store.
pub open spec fn spec_local_get(s: ScopeV, name: Seq<char>) -> Option<NodeV> {
    let parts = spec_split_dots(name);
    match assoc_find(s.store, parts[0]) {
        Some(v) => spec_walk(s, v, parts, 1),
        None => None,
    }
}

/// A stored value seen as a callable: a function as itself, a built-in
/// wrapped as a one-statement callee, anything else not callable.
pub open spec fn spec_fn_of_node(n: NodeV) -> Option<FuncV> {
    match n {
        NodeV::Function { args, body, return_type, .. } => Some(FuncV { args, body, return_type }),
        NodeV::BuiltinFn { name, args, body, return_type, .. } => Some(
            FuncV {
                args,
                body: seq![
                    NodeV::BuiltinFn { name, args, body, return_type, span: empty_spans() },
                ],
                return_type,
            },
        ),
        _ => None,
    }
}

/// What `Scope::get_fn` resolves `name` to: per scope, first its own
/// functions, then a callable value in its own store, then the parent.
pub open spec fn spec_get_fn(s: ScopeV, name: Seq<char>) -> Option<FuncV>
    decreases s,
{
    match assoc_find(s.functions, name) {
        Some(f) => Some(f),
        None => {
            let from_store = match spec_local_get(s, name) {
                Some(n) => spec_fn_of_node(n),
                None => None,
            };
            match from_store {
                Some(f) => Some(f),
                None => match s.parent {
                    Some(p) => spec_get_fn(*p, name),
                    None => None,
                },
            }
        },
    }
}

/// What `Scope::get_args` returns: the formals of the named callable; for a
/// stored value that is not callable, an empty formals list; absent when the
/// name resolves to nothing at all.
pub open spec fn spec_get_args(s: ScopeV, name: Seq<char>) -> Option<Seq<NodeV>> {
    match spec_get_fn(s, name) {
        Some(f) => Some(f.args),
        None => match spec_scope_get(s, name) {
            Some(NodeV::Function { args, .. }) => Some(args),
            Some(NodeV::BuiltinFn { args, .. }) => Some(args),
            Some(_) => Some(Seq::empty()),
            None => None,
        },
    }
}

fn field_find<'a>(fields: &'a Vec<Node>, key: &str, i: usize) -> (r: Option<&'a Node>)
    ensures
        r.deep_view() == spec_field_find(nodes_view(*fields), key@, i as int),
    decreases fields@.len() - i,
{
    proof {
        crate::ast::lemma_nodes_view(*fields);
    }
    if i >= fields.len() {
        None
    } else {
        let nd = &fields[i];
        match nd {
            Node::Field { name, .. } => {
                let key_s = key.to_owned();
                if *name == key_s {
                    Some(nd)
                } else {
                    field_find(fields, key, i + 1)
                }
            },
            _ => field_find(fields, key, i + 1),
        }
    }
}

fn defaults_from(functions: &StrMap<TraitFn>, i: usize) -> (r: Vec<(String, FuncRec)>)
    ensures
        r.deep_view() == spec_defaults_from(functions.deep_view(), i as int),
    decreases functions.deep_view().len() - i,
{
    let n = functions.len();
    if i >= n {
        let r: Vec<(String, FuncRec)> = Vec::new();
        proof {
            assert(r.deep_view() =~= spec_defaults_from(functions.deep_view(), i as int));
        }
        r
    } else {
        match functions.val_at(i) {
            TraitFn::DefaultBody { args, body, return_type, .. } => {
                let rec = FuncRec {
                    args: crate::ast::clone_nodes(args),
                    body: crate::ast::clone_nodes(body),
                    return_type: match return_type {
                        Some(t) => Some(t.clone()),
                        None => None,
                    },
                };
                let key = functions.key_at(i).clone();
                let mut rest = defaults_from(functions, i + 1);
                rest.insert(0, (key, rec));
                proof {
                    assert(rest.deep_view() =~= spec_defaults_from(
                        functions.deep_view(),
                        i as int,
                    ));
                }
                rest
            },
            TraitFn::NoBody { .. } => defaults_from(functions, i + 1),
        }
    }
}

impl Scope {
    fn chain_lookup(&self, key: &str) -> (r: Option<Node>)
        ensures
            r.deep_view() == spec_chain_lookup(self.deep_view(), key@),
        decreases self,
    {
        match self.store.get(key) {
            Some(n) => Some(n.clone()),
            None => match &self.parent {
                Some(p) => (&**p).chain_lookup(key),
                None => None,
            },
        }
    }

    /// The default-method maps of the traits the named struct implements; see
    /// `spec_implementations_for`.
    pub fn get_implementations_for(&self, name: &str) -> (r: Vec<StrMap<FuncRec>>)
        ensures
            r.deep_view() == spec_implementations_for(self.deep_view(), name@),
    {
        let implements: &Vec<String> = match self.get_type(name) {
            Some(Type::Struct { implements, .. }) => implements,
            _ => {
                let r: Vec<StrMap<FuncRec>> = Vec::new();
                proof {
                    assert(r.deep_view() =~= spec_implementations_for(self.deep_view(), name@));
                }
                return r;
            },
        };
        let mut r: Vec<StrMap<FuncRec>> = Vec::new();
        let mut i: usize = 0;
        while i < implements.len()
            invariant
                i <= implements@.len(),
                r.deep_view() + spec_impls_from(self.deep_view(), implements.deep_view(), i as int)
                    =~= spec_impls_from(self.deep_view(), implements.deep_view(), 0),
            decreases implements@.len() - i,
        {
            let m: StrMap<FuncRec> = match self.get_type(implements[i].as_str()) {
                Some(Type::Trait { functions, .. }) => {
                    StrMap { pairs: defaults_from(functions, 0) }
                },
                _ => StrMap::new(),
            };
            let ghost prev = r.deep_view();
            r.push(m);
            proof {
                assert(r.deep_view() =~= prev.push(m.deep_view()));
                assert(r.deep_view() + spec_impls_from(
                    self.deep_view(),
                    implements.deep_view(),
                    i + 1,
                ) =~= spec_impls_from(self.deep_view(), implements.deep_view(), 0));
            }
            i = i + 1;
        }
        proof {
            assert(r.deep_view() =~= spec_impls_from(
                self.deep_view(),
                implements.deep_view(),
                0,
            ));
        }
        r
    }

    fn trait_method(&self, typed: &str, key: &str) -> (r: Option<FuncRec>)
        ensures
            r.deep_view() == spec_trait_method(
                spec_implementations_for(self.deep_view(), typed@),
                key@,
                0,
            ),
    {
        let impls = self.get_implementations_for(typed);
        let mut i: usize = 0;
        while i < impls.len()
            invariant
                i <= impls@.len(),
                impls.deep_view() == spec_implementations_for(self.deep_view(), typed@),
                spec_trait_method(impls.deep_view(), key@, 0) == spec_trait_method(
                    impls.deep_view(),
                    key@,
                    i as int,
                ),
            decreases impls@.len() - i,
        {
            match impls[i].get(key) {
                Some(f) => {
                    return Some(f.deep_clone());
                },
                None => {},
            }
            i = i + 1;
        }
        None
    }

    fn walk(&self, container: Node, parts: &Vec<String>, i: usize) -> (r: Option<Node>)
        ensures
            r.deep_view() == spec_walk(
                self.deep_view(),
                container.deep_view(),
                parts.deep_view(),
                i as int,
            ),
        decreases parts@.len() - i,
    {
        if i >= parts.len() {
            return Some(container);
        }
        match container {
            Node::Object { typed, fields, span } => {
                proof {
                    lemma_field_find(nodes_view(*fields), parts@[i as int]@, 0);
                }
                match field_find(&*fields, parts[i].as_str(), 0) {
                    Some(f) => {
                        let next: Node = match f {
                            Node::Field { value, .. } => (&**value).clone(),
                            _ => {
                                proof {
                                    assert(false);
                                }
                                Node::Empty
                            },
                        };
                        self.walk(next, parts, i + 1)
                    },
                    None => {
                        match self.trait_method(typed.as_str(), parts[i].as_str()) {
                            Some(func) => {
                                let node = Node::Function {
                                    name: parts[i].clone(),
                                    args: Box::new(func.args),
                                    body: Box::new(func.body),
                                    return_type: func.return_type,
                                    span: crate::ast::Spans::empty(),
                                };
                                self.walk(node, parts, i + 1)
                            },
                            None => None,
                        }
                    },
                }
            },
            _ => None,
        }
    }

    /// Resolves a (possibly dotted) name to a value; see `spec_scope_get`.
    pub fn get(&self, name: &str) -> (r: Option<Node>)
        ensures
            r.deep_view() == spec_scope_get(self.deep_view(), name@),
    {
        let parts = split_dots(name);
        match self.chain_lookup(parts[0].as_str()) {
            Some(v) => self.walk(v, &parts, 1),
            None => None,
        }
    }

    fn local_get(&self, name: &str) -> (r: Option<Node>)
        ensures
            r.deep_view() == spec_local_get(self.deep_view(), name@),
    {
        let parts = split_dots(name);
        match self.store.get(parts[0].as_str()) {
            Some(v) => self.walk(v.clone(), &parts, 1),
            None => None,
        }
    }

    /// Resolves a name to a callable; see `spec_get_fn`.
    pub fn get_fn(&self, name: &str) -> (r: Option<FuncRec>)
        ensures
            r.deep_view() == spec_get_fn(self.deep_view(), name@),
        decreases self,
    {
        match self.functions.get(name) {
            Some(f) => Some(f.deep_clone()),
            None => {
                let from_store: Option<FuncRec> = match self.local_get(name) {
                    Some(n) => fn_of_node(n),
                    None => None,
                };
                match from_store {
                    Some(f) => Some(f),
                    None => match &self.parent {
                        Some(p) => (&**p).get_fn(name),
                        None => None,
                    },
                }
            },
        }
    }

    /// The formals of the named callable; see `spec_get_args`.
    pub fn get_args(&self, name: &str) -> (r: Option<Vec<Node>>)
        ensures
            match r {
                Some(v) => spec_get_args(self.deep_view(), name@) == Some(nodes_view(v)),
                None => spec_get_args(self.deep_view(), name@) is None,
            },
    {
        match self.get_fn(name) {
            Some(f) => Some(f.args),
            None => match self.get(name) {
                Some(Node::Function { args, .. }) => Some(*args),
                Some(Node::BuiltinFn { args, .. }) => Some(*args),
                Some(_) => {
                    let v: Vec<Node> = Vec::new();
                    proof {
                        crate::ast::lemma_nodes_view(v);
                        assert(nodes_view(v) =~= Seq::<NodeV>::empty());
                    }
                    Some(v)
                },
                None => None,
            },
        }
    }
}

fn fn_of_node(n: Node) -> (r: Option<FuncRec>)
    ensures
        r.deep_view() == spec_fn_of_node(n.deep_view()),
{
    match n {
        Node::Function { args, body, return_type, .. } => Some(
            FuncRec { args: *args, body: *body, return_type },
        ),
        Node::BuiltinFn { name, args, body, return_type, .. } => {
            let args_c = crate::ast::clone_nodes(&*args);
            let rt_c = match &return_type {
                Some(t) => Some(t.clone()),
                None => None,
            };
            let node = Node::BuiltinFn {
                name,
                args,
                body,
                return_type,
                span: crate::ast::Spans::empty(),
            };
            Some(FuncRec { args: args_c, body: vec![node], return_type: rt_c })
        },
        _ => None,
    }
}


/// Positionwise type agreement of formals against values, from position `i`;
/// the first disagreement yields the mismatch diagnostic.
pub open spec fn spec_args_check(
    fargs: Seq<NodeV>,
    args: Seq<NodeV>,
    scope: Seq<char>,
    i: int,
) -> Result<(), FangErrV>
    decreases fargs.len() - i,
{
    if i < 0 || i >= fargs.len() {
        Ok(())
    } else if !spec_compare_type(fargs[i], args[i]) {
        Err(
            FangErrV::TypeMismatch {
                span: empty_spans(),
                expected: spec_get_type(fargs[i]),
                found: spec_get_type(args[i]),
                scope,
            },
        )
    } else {
        spec_args_check(fargs, args, scope, i + 1)
    }
}

/// What `Type::validate_trait` decides: the named method must exist on the
/// trait and the given values must match its formals in number and type.
pub open spec fn spec_validate_trait(t: TypeV, name: Seq<char>, args: Seq<NodeV>) -> Result<
    (),
    FangErrV,
> {
    match t {
        TypeV::Trait { functions, .. } => match assoc_find(functions, name) {
            None => Err(
                FangErrV::UndeclaredFunction { span: empty_spans(), name, scope: "?"@ },
            ),
            Some(tf) => {
                if tf.args().len() != args.len() {
                    Err(
                        FangErrV::ArgumentLengthMismatch {
                            span: empty_spans(),
                            expected: tf.args().len() as int,
                            found: args.len() as int,
                            scope: name,
                        },
                    )
                } else {
                    spec_args_check(tf.args(), args, name, 0)
                }
            },
        },
        _ => Err(
            FangErrV::UnexpectedType {
                span: empty_spans(),
                expected: "Trait"@,
                found: name,
                scope: name,
            },
        ),
    }
}

/// What `Type::validate_struct` decides: the given field values must match
/// the struct's field templates in number and type.
pub open spec fn spec_validate_struct(t: TypeV, name: Seq<char>, fields: Seq<NodeV>) -> Result<
    (),
    FangErrV,
> {
    match t {
        TypeV::Struct { fields: expected, .. } => {
            if expected.len() != fields.len() {
                Err(
                    FangErrV::ArgumentLengthMismatch {
                        span: empty_spans(),
                        expected: expected.len() as int,
                        found: fields.len() as int,
                        scope: name,
                    },
                )
            } else {
                spec_args_check(expected, fields, name, 0)
            }
        },
        _ => Err(
            FangErrV::UnexpectedType {
                span: empty_spans(),
                expected: "Struct"@,
                found: name,
                scope: name,
            },
        ),
    }
}

impl Type {
    /// Checks a use of the named trait method against values; see
    /// `spec_validate_trait`.
    pub fn validate_trait(&self, name: &str, args: Vec<Node>) -> (r: Result<(), FangErr>)
        ensures
            match spec_validate_trait(self.deep_view(), name@, nodes_view(args)) {
                Ok(u) => r is Ok,
                Err(e) => r is Err && r->Err_0.deep_view() == e,
            },
    {
        proof {
            crate::ast::lemma_nodes_view(args);
        }
        let functions: &StrMap<TraitFn> = match self {
            Type::Trait { functions, .. } => functions,
            _ => {
                return Err(
                    FangErr::UnexpectedType {
                        span: crate::ast::Spans::empty(),
                        expected: String::from_str("Trait"),
                        found: name.to_owned(),
                        scope: name.to_owned(),
                    },
                );
            },
        };
        let fargs: &Vec<Node> = match functions.get(name) {
            None => {
                return Err(
                    FangErr::UndeclaredFunction {
                        span: crate::ast::Spans::empty(),
                        name: name.to_owned(),
                        scope: String::from_str("?"),
                    },
                );
            },
            Some(TraitFn::DefaultBody { args, .. }) => args,
            Some(TraitFn::NoBody { args, .. }) => args,
        };
        proof {
            crate::ast::lemma_nodes_view(*fargs);
        }
        if fargs.len() != args.len() {
            return Err(
                FangErr::ArgumentLengthMismatch {
                    span: crate::ast::Spans::empty(),
                    expected: fargs.len(),
                    found: args.len(),
                    scope: name.to_owned(),
                },
            );
        }
        args_check(fargs, &args, name)
    }

    /// Checks field values against the struct's templates; see
    /// `spec_validate_struct`.
    pub fn validate_struct(&self, name: &str, fields: Vec<Node>) -> (r: Result<(), FangErr>)
        ensures
            match spec_validate_struct(self.deep_view(), name@, nodes_view(fields)) {
                Ok(u) => r is Ok,
                Err(e) => r is Err && r->Err_0.deep_view() == e,
            },
    {
        proof {
            crate::ast::lemma_nodes_view(fields);
        }
        let expected: &Vec<Node> = match self {
            Type::Struct { fields, .. } => fields,
            _ => {
                return Err(
                    FangErr::UnexpectedType {
                        span: crate::ast::Spans::empty(),
                        expected: String::from_str("Struct"),
                        found: name.to_owned(),
                        scope: name.to_owned(),
                    },
                );
            },
        };
        proof {
            crate::ast::lemma_nodes_view(*expected);
        }
        if expected.len() != fields.len() {
            return Err(
                FangErr::ArgumentLengthMismatch {
                    span: crate::ast::Spans::empty(),
                    expected: expected.len(),
                    found: fields.len(),
                    scope: name.to_owned(),
                },
            );
        }
        args_check(expected, &fields, name)
    }
}

fn args_check(fargs: &Vec<Node>, args: &Vec<Node>, scope: &str) -> (r: Result<(), FangErr>)
    requires
        fargs@.len() == args@.len(),
    ensures
        match spec_args_check(nodes_view(*fargs), nodes_view(*args), scope@, 0) {
            Ok(u) => r is Ok,
            Err(e) => r is Err && r->Err_0.deep_view() == e,
        },
{
    proof {
        crate::ast::lemma_nodes_view(*fargs);
        crate::ast::lemma_nodes_view(*args);
    }
    let mut i: usize = 0;
    while i < fargs.len()
        invariant
            i <= fargs@.len(),
            fargs@.len() == args@.len(),
            nodes_view(*fargs).len() == fargs@.len(),
            nodes_view(*args).len() == args@.len(),
            spec_args_check(nodes_view(*fargs), nodes_view(*args), scope@, 0) == spec_args_check(
                nodes_view(*fargs),
                nodes_view(*args),
                scope@,
                i as int,
            ),
            forall|j: int| 0 <= j < fargs@.len() ==> nodes_view(*fargs)[j] == node_view(fargs@[j]),
            forall|j: int| 0 <= j < args@.len() ==> nodes_view(*args)[j] == node_view(args@[j]),
        decreases fargs@.len() - i,
    {
        if !fargs[i].compare_type(&args[i]) {
            return Err(
                FangErr::TypeMismatch {
                    span: crate::ast::Spans::empty(),
                    expected: fargs[i].get_type(),
                    found: args[i].get_type(),
                    scope: scope.to_owned(),
                },
            );
        }
        i = i + 1;
    }
    Ok(())
}

/// Positionwise agreement of an implementation's formals with a trait
/// method's: a self reference matches a self reference, typed variables match
/// by declared type, and anything else is refused.
pub open spec fn spec_impl_args_check(
    targs: Seq<NodeV>,
    iargs: Seq<NodeV>,
    scope: Seq<char>,
    i: int,
) -> Result<(), FangErrV>
    decreases targs.len() - i,
{
    if i < 0 || i >= targs.len() {
        Ok(())
    } else {
        match (targs[i], iargs[i]) {
            (NodeV::SelfRef { .. }, NodeV::SelfRef { .. }) => spec_impl_args_check(
                targs,
                iargs,
                scope,
                i + 1,
            ),
            (
                NodeV::TypedVariable { var_type: tv, .. },
                NodeV::TypedVariable { var_type: iv, .. },
            ) => {
                if tv != iv {
                    Err(
                        FangErrV::TypeMismatch {
                            span: empty_spans(),
                            expected: tv,
                            found: iv,
                            scope,
                        },
                    )
                } else {
                    spec_impl_args_check(targs, iargs, scope, i + 1)
                }
            },
            _ => Err(
                FangErrV::UnexpectedToken {
                    span: empty_spans(),
                    expected: "TypedVariable"@,
                    found: spec_get_type(targs[i]),
                    scope,
                },
            ),
        }
    }
}

/// Checks an implementation map against a trait's bodiless methods, from
/// entry `i` of the trait's method list on: each such method must be provided
/// with matching formals and return type.
pub open spec fn spec_check_impl(
    fns: Seq<(Seq<char>, TraitFnV)>,
    impl_map: Seq<(Seq<char>, FuncV)>,
    scope: Seq<char>,
    i: int,
) -> Result<(), FangErrV>
    decreases fns.len() - i,
{
    if i < 0 || i >= fns.len() {
        Ok(())
    } else {
        match fns[i].1 {
            TraitFnV::NoBody { args: targs, return_type: trt, .. } => {
                match assoc_find(impl_map, fns[i].0) {
                    None => Err(
                        FangErrV::UndeclaredFunction {
                            span: empty_spans(),
                            name: fns[i].0,
                            scope,
                        },
                    ),
                    Some(imp) => {
                        if targs.len() != imp.args.len() {
                            Err(
                                FangErrV::ArgumentLengthMismatch {
                                    span: empty_spans(),
                                    expected: targs.len() as int,
                                    found: imp.args.len() as int,
                                    scope,
                                },
                            )
                        } else {
                            match spec_impl_args_check(targs, imp.args, scope, 0) {
                                Err(e) => Err(e),
                                Ok(u) => match (trt, imp.return_type) {
                                    (Some(rt), Some(irt)) => {
                                        if rt != irt {
                                            Err(
                                                FangErrV::TypeMismatch {
                                                    span: empty_spans(),
                                                    expected: rt,
                                                    found: irt,
                                                    scope,
                                                },
                                            )
                                        } else {
                                            spec_check_impl(fns, impl_map, scope, i + 1)
                                        }
                                    },
                                    (None, None) => spec_check_impl(fns, impl_map, scope, i + 1),
                                    _ => Err(
                                        FangErrV::UnexpectedToken {
                                            span: empty_spans(),
                                            expected: "None"@,
                                            found: "Some"@,
                                            scope,
                                        },
                                    ),
                                },
                            }
                        }
                    },
                }
            },
            _ => spec_check_impl(fns, impl_map, scope, i + 1),
        }
    }
}

/// Records a validated implementation on the named struct, wherever in the
/// chain it is defined: the trait name joins `implements` and the method map
/// joins `implementations`; a repeated impl of the same trait is refused.
pub open spec fn spec_record_impl(
    s: ScopeV,
    struct_name: Seq<char>,
    trait_name: Seq<char>,
    impl_map: Seq<(Seq<char>, FuncV)>,
    scope_name: Seq<char>,
) -> Result<ScopeV, FangErrV>
    decreases s,
{
    match assoc_find(s.types, struct_name) {
        Some(t) => match t {
            TypeV::Struct { name, fields, implements, implementations } => {
                if implements.contains(trait_name) {
                    Err(
                        FangErrV::AlreadyImplementedTrait {
                            span: empty_spans(),
                            name: trait_name,
                            scope: scope_name,
                        },
                    )
                } else {
                    Ok(
                        ScopeV {
                            types: s.types.update(
                                assoc_idx(s.types, struct_name),
                                (
                                    struct_name,
                                    TypeV::Struct {
                                        name,
                                        fields,
                                        implements: implements.push(trait_name),
                                        implementations: implementations.push(impl_map),
                                    },
                                ),
                            ),
                            ..s
                        },
                    )
                }
            },
            _ => Err(
                FangErrV::UnexpectedType {
                    span: empty_spans(),
                    expected: "Struct"@,
                    found: struct_name,
                    scope: scope_name,
                },
            ),
        },
        None => match s.parent {
            Some(p) => match spec_record_impl(*p, struct_name, trait_name, impl_map, scope_name) {
                Ok(p2) => Ok(ScopeV { parent: Some(Box::new(p2)), ..s }),
                Err(e) => Err(e),
            },
            None => Err(
                FangErrV::UndeclaredType {
                    span: empty_spans(),
                    name: struct_name,
                    scope: scope_name,
                },
            ),
        },
    }
}

/// What `Scope::implement` does: the named trait must be visible and a
/// trait, the implementation must satisfy its bodiless methods, and the
/// result is recorded on the named struct.
pub open spec fn spec_implement(
    s: ScopeV,
    struct_name: Seq<char>,
    trait_name: Seq<char>,
    impl_map: Seq<(Seq<char>, FuncV)>,
) -> Result<ScopeV, FangErrV> {
    match spec_get_type_in(s, trait_name) {
        None => Err(
            FangErrV::UndeclaredType { span: empty_spans(), name: trait_name, scope: s.name },
        ),
        Some(t) => match t {
            TypeV::Trait { functions, .. } => match spec_check_impl(
                functions,
                impl_map,
                s.name,
                0,
            ) {
                Err(e) => Err(e),
                Ok(u) => spec_record_impl(s, struct_name, trait_name, impl_map, s.name),
            },
            _ => Err(
                FangErrV::UnexpectedType {
                    span: empty_spans(),
                    expected: "Trait"@,
                    found: trait_name,
                    scope: s.name,
                },
            ),
        },
    }
}

fn contains_string(v: &Vec<String>, key: &str) -> (r: bool)
    ensures
        r == v.deep_view().contains(key@),
{
    let ks = key.to_owned();
    let mut i: usize = 0;
    while i < v.len()
        invariant
            i <= v@.len(),
            ks@ == key@,
            forall|j: int| 0 <= j < i as int ==> v.deep_view()[j] != key@,
        decreases v@.len() - i,
    {
        if v[i] == ks {
            proof {
                assert(v.deep_view()[i as int] == key@);
            }
            return true;
        }
        i = i + 1;
    }
    proof {
        assert forall|j: int| 0 <= j < v.deep_view().len() implies v.deep_view()[j] != key@ by {}
        assert(!v.deep_view().contains(key@));
    }
    false
}

impl Scope {
    fn record_impl(
        &mut self,
        struct_name: &str,
        trait_name: String,
        implementation: StrMap<FuncRec>,
        scope_name: &str,
    ) -> (r: Result<(), FangErr>)
        ensures
            match spec_record_impl(
                old(self).deep_view(),
                struct_name@,
                trait_name@,
                implementation.deep_view(),
                scope_name@,
            ) {
                Ok(s) => r is Ok && final(self).deep_view() == s,
                Err(e) => r is Err && r->Err_0.deep_view() == e && final(self).deep_view() == old(
                    self,
                ).deep_view(),
            },
        decreases *self,
    {
        proof {
            lemma_assoc_idx(self.types.deep_view(), struct_name@);
        }
        if self.types.contains_key(struct_name) {
            let new_ty: Type = {
                let cur: &Type = match self.types.get(struct_name) {
                    Some(c) => c,
                    None => {
                        proof {
                            assert(false);
                        }
                        return Err(
                            FangErr::UndeclaredType {
                                span: crate::ast::Spans::empty(),
                                name: struct_name.to_owned(),
                                scope: scope_name.to_owned(),
                            },
                        );
                    },
                };
                match cur {
                    Type::Struct { name, fields, implements, implementations } => {
                        if contains_string(implements, trait_name.as_str()) {
                            return Err(
                                FangErr::AlreadyImplementedTrait {
                                    span: crate::ast::Spans::empty(),
                                    name: trait_name,
                                    scope: scope_name.to_owned(),
                                },
                            );
                        }
                        let mut imps = clone_strings(implements);
                        let mut maps = clone_impl_maps(implementations);
                        imps.push(trait_name);
                        maps.push(implementation);
                        Type::Struct {
                            name: name.clone(),
                            fields: crate::ast::clone_nodes(fields),
                            implements: imps,
                            implementations: maps,
                        }
                    },
                    _ => {
                        return Err(
                            FangErr::UnexpectedType {
                                span: crate::ast::Spans::empty(),
                                expected: String::from_str("Struct"),
                                found: struct_name.to_owned(),
                                scope: scope_name.to_owned(),
                            },
                        );
                    },
                }
            };
            let ghost oldv = old(self).deep_view();
            proof {
                let t = assoc_find(oldv.types, struct_name@)->0;
                assert(new_ty.deep_view()->Struct_implements =~= t->Struct_implements.push(
                    trait_name@,
                ));
                assert(new_ty.deep_view()->Struct_implementations =~= t->Struct_implementations.push(
                    implementation.deep_view(),
                ));
            }
            self.types.set(struct_name, new_ty);
            proof {
                let sp = spec_record_impl(
                    oldv,
                    struct_name@,
                    trait_name@,
                    implementation.deep_view(),
                    scope_name@,
                );
                assert(self.deep_view().types =~= sp->Ok_0.types);
                assert(self.deep_view() == sp->Ok_0);
            }
            Ok(())
        } else {
            match &mut self.parent {
                Some(p) => {
                    let r = (&mut **p).record_impl(
                        struct_name,
                        trait_name,
                        implementation,
                        scope_name,
                    );
                    r
                },
                None => Err(
                    FangErr::UndeclaredType {
                        span: crate::ast::Spans::empty(),
                        name: struct_name.to_owned(),
                        scope: scope_name.to_owned(),
                    },
                ),
            }
        }
    }

    /// Implements `trait_name` for `struct_name`: checks conformance of the
    /// provided methods against the trait's bodiless ones and records the
    /// implementation on the struct; see `spec_implement`.
    pub fn implement(
        &mut self,
        struct_name: String,
        trait_name: String,
        implementation: StrMap<FuncRec>,
    ) -> (r: Result<(), FangErr>)
        ensures
            match spec_implement(
                old(self).deep_view(),
                struct_name@,
                trait_name@,
                implementation.deep_view(),
            ) {
                Ok(s) => r is Ok && final(self).deep_view() == s,
                Err(e) => r is Err && r->Err_0.deep_view() == e && final(self).deep_view() == old(
                    self,
                ).deep_view(),
            },
    {
        let scope_name = self.name.clone();
        {
            let tr: &Type = match self.get_type(trait_name.as_str()) {
                None => {
                    return Err(
                        FangErr::UndeclaredType {
                            span: crate::ast::Spans::empty(),
                            name: trait_name,
                            scope: scope_name,
                        },
                    );
                },
                Some(t) => t,
            };
            let functions: &StrMap<TraitFn> = match tr {
                Type::Trait { functions, .. } => functions,
                _ => {
                    return Err(
                        FangErr::UnexpectedType {
                            span: crate::ast::Spans::empty(),
                            expected: String::from_str("Trait"),
                            found: trait_name,
                            scope: scope_name,
                        },
                    );
                },
            };
            match check_impl_exec(functions, &implementation, scope_name.as_str()) {
                Ok(u) => {},
                Err(e) => {
                    return Err(e);
                },
            }
        }
        self.record_impl(struct_name.as_str(), trait_name, implementation, scope_name.as_str())
    }
}

fn impl_args_check_exec(targs: &Vec<Node>, iargs: &Vec<Node>, scope_name: &str) -> (r: Result<
    (),
    FangErr,
>)
    requires
        targs@.len() == iargs@.len(),
    ensures
        match spec_impl_args_check(nodes_view(*targs), nodes_view(*iargs), scope_name@, 0) {
            Ok(u) => r is Ok,
            Err(e) => r is Err && r->Err_0.deep_view() == e,
        },
{
    proof {
        crate::ast::lemma_nodes_view(*targs);
        crate::ast::lemma_nodes_view(*iargs);
    }
    let ghost targsv = nodes_view(*targs);
    let ghost iargsv = nodes_view(*iargs);
    let ghost snv = scope_name@;
    let mut j: usize = 0;
    while j < targs.len()
        invariant
            j <= targs@.len(),
            targs@.len() == iargs@.len(),
            targsv == nodes_view(*targs),
            iargsv == nodes_view(*iargs),
            snv == scope_name@,
            targsv.len() == targs@.len(),
            iargsv.len() == iargs@.len(),
            forall|k: int| 0 <= k < targs@.len() ==> targsv[k] == node_view(targs@[k]),
            forall|k: int| 0 <= k < iargs@.len() ==> iargsv[k] == node_view(iargs@[k]),
            spec_impl_args_check(targsv, iargsv, snv, 0) == spec_impl_args_check(
                targsv,
                iargsv,
                snv,
                j as int,
            ),
        decreases targs@.len() - j,
    {
        match (&targs[j], &iargs[j]) {
            (Node::SelfRef { .. }, Node::SelfRef { .. }) => {},
            (
                Node::TypedVariable { var_type: tv, .. },
                Node::TypedVariable { var_type: iv, .. },
            ) => {
                if !(*tv == *iv) {
                    return Err(
                        FangErr::TypeMismatch {
                            span: crate::ast::Spans::empty(),
                            expected: tv.clone(),
                            found: iv.clone(),
                            scope: scope_name.to_owned(),
                        },
                    );
                }
            },
            (t_arg, _) => {
                return Err(
                    FangErr::UnexpectedToken {
                        span: crate::ast::Spans::empty(),
                        expected: String::from_str("TypedVariable"),
                        found: t_arg.get_type(),
                        scope: scope_name.to_owned(),
                    },
                );
            },
        }
        j = j + 1;
    }
    Ok(())
}

fn check_impl_exec(
    functions: &StrMap<TraitFn>,
    implementation: &StrMap<FuncRec>,
    scope_name: &str,
) -> (r: Result<(), FangErr>)
    ensures
        match spec_check_impl(
            functions.deep_view(),
            implementation.deep_view(),
            scope_name@,
            0,
        ) {
            Ok(u) => r is Ok,
            Err(e) => r is Err && r->Err_0.deep_view() == e,
        },
{
    let ghost fnsv = functions.deep_view();
    let ghost implv = implementation.deep_view();
    let ghost snv = scope_name@;
    let n = functions.len();
    let mut i: usize = 0;
    while i < n
        invariant
            i <= n,
            n == fnsv.len(),
            fnsv == functions.deep_view(),
            implv == implementation.deep_view(),
            snv == scope_name@,
            spec_check_impl(fnsv, implv, snv, 0) == spec_check_impl(fnsv, implv, snv, i as int),
        decreases n - i,
    {
        match functions.val_at(i) {
            TraitFn::NoBody { args: targs, return_type: trt, .. } => {
                proof {
                    crate::ast::lemma_nodes_view(*targs);
                }
                let fname: &String = functions.key_at(i);
                let imp: &FuncRec = match implementation.get(fname.as_str()) {
                    None => {
                        return Err(
                            FangErr::UndeclaredFunction {
                                span: crate::ast::Spans::empty(),
                                name: fname.clone(),
                                scope: scope_name.to_owned(),
                            },
                        );
                    },
                    Some(x) => x,
                };
                proof {
                    crate::ast::lemma_nodes_view(imp.args);
                }
                if targs.len() != imp.args.len() {
                    return Err(
                        FangErr::ArgumentLengthMismatch {
                            span: crate::ast::Spans::empty(),
                            expected: targs.len(),
                            found: imp.args.len(),
                            scope: scope_name.to_owned(),
                        },
                    );
                }
                match impl_args_check_exec(targs, &imp.args, scope_name) {
                    Ok(u) => {},
                    Err(e) => {
                        return Err(e);
                    },
                }
                match (trt, &imp.return_type) {
                    (Some(rt), Some(irt)) => {
                        if !(*rt == *irt) {
                            return Err(
                                FangErr::TypeMismatch {
                                    span: crate::ast::Spans::empty(),
                                    expected: rt.clone(),
                                    found: irt.clone(),
                                    scope: scope_name.to_owned(),
                                },
                            );
                        }
                    },
                    (None, None) => {},
                    _ => {
                        return Err(
                            FangErr::UnexpectedToken {
                                span: crate::ast::Spans::empty(),
                                expected: String::from_str("None"),
                                found: String::from_str("Some"),
                                scope: scope_name.to_owned(),
                            },
                        );
                    },
                }
            },
            _ => {},
        }
        i = i + 1;
    }
    Ok(())
}


/// The root scope every program starts from: `console` is bound to an object
/// whose `log` field is the host-implemented printing built-in, taking one
/// untyped parameter `msg` (any value is accepted and rendered).
pub open spec fn spec_global_scope() -> ScopeV {
    ScopeV {
        name: "<Fang>"@,
        store: seq![
            (
                "console"@,
                NodeV::Object {
                    typed: "<Internal>"@,
                    fields: seq![
                        NodeV::Field {
                            name: "log"@,
                            value: Box::new(
                                NodeV::BuiltinFn {
                                    name: "log"@,
                                    args: seq![
                                        NodeV::Identifier { val: "msg"@, span: empty_spans() },
                                    ],
                                    body: Builtin::ConsoleLog,
                                    return_type: None,
                                    span: empty_spans(),
                                },
                            ),
                            span: empty_spans(),
                        },
                    ],
                    span: empty_spans(),
                },
            ),
        ],
        functions: Seq::empty(),
        types: Seq::empty(),
        parent: None,
    }
}

/// Builds the root scope; see `spec_global_scope`.
pub fn global_scope() -> (r: Scope)
    ensures
        r.deep_view() == spec_global_scope(),
{
    let mut g = Scope::new(String::from_str("<Fang>"), None);
    let msg_param = Node::Identifier {
        val: String::from_str("msg"),
        span: crate::ast::Spans::empty(),
    };
    let mut args: Vec<Node> = Vec::new();
    args.push(msg_param);
    proof {
        crate::ast::lemma_nodes_view(args);
        assert(nodes_view(args) =~= seq![
            NodeV::Identifier { val: "msg"@, span: empty_spans() },
        ]);
    }
    let log_fn = Node::BuiltinFn {
        name: String::from_str("log"),
        args: Box::new(args),
        body: BuiltinFnBody { kind: Builtin::ConsoleLog },
        return_type: None,
        span: crate::ast::Spans::empty(),
    };
    let mut fields: Vec<Node> = Vec::new();
    fields.push(Node::Field {
        name: String::from_str("log"),
        value: Box::new(log_fn),
        span: crate::ast::Spans::empty(),
    });
    proof {
        crate::ast::lemma_nodes_view(fields);
        reveal_with_fuel(node_view, 4);
        reveal_with_fuel(nodes_view, 4);
        reveal_with_fuel(crate::ast::nodes_view_at, 4);
        let fv = spec_global_scope().store[0].1->Object_fields;
        assert(fields@.len() == 1);
        assert(nodes_view(fields).len() == 1);
        assert(nodes_view(fields)[0] == node_view(fields@[0]));
        assert(node_view(fields@[0]) is Field);
        assert(node_view(fields@[0])->Field_name == fv[0]->Field_name);
        assert(node_view(fields@[0])->Field_span =~~= fv[0]->Field_span);
        assert((*node_view(fields@[0])->Field_value) is BuiltinFn);
        assert((*node_view(fields@[0])->Field_value)->BuiltinFn_name == (*fv[0]->Field_value)->BuiltinFn_name);
        assert((*node_view(fields@[0])->Field_value)->BuiltinFn_args =~~= (*fv[0]->Field_value)->BuiltinFn_args);
        assert((*node_view(fields@[0])->Field_value)->BuiltinFn_body == (*fv[0]->Field_value)->BuiltinFn_body);
        assert((*node_view(fields@[0])->Field_value)->BuiltinFn_return_type == (*fv[0]->Field_value)->BuiltinFn_return_type);
        assert((*node_view(fields@[0])->Field_value)->BuiltinFn_span =~~= (*fv[0]->Field_value)->BuiltinFn_span);
        assert((*node_view(fields@[0])->Field_value) =~~= (*fv[0]->Field_value));
        assert(node_view(fields@[0]) =~~= fv[0]);
        assert(nodes_view(fields) =~~= fv);
    }
    let console = Node::Object {
        typed: String::from_str("<Internal>"),
        fields: Box::new(fields),
        span: crate::ast::Spans::empty(),
    };
    let ok = g.declare(String::from_str("console"), console);
    proof {
        assert(g.deep_view().store =~~= spec_global_scope().store);
        assert(g.deep_view() == spec_global_scope());
    }
    g
}

} // verus!
