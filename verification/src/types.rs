//! The tagged representation of types, its mathematical model, and the
//! copying and comparing of types.

use crate::ids::{GenericTplId, SignatureId, TypeDeclId};
use crate::text::opt_view;
use vstd::prelude::*;
use vstd::std_specs::cmp::PartialEqSpecImpl;

verus! {

/// A generic parameter that stands where a type is expected.
#[derive(Debug)]
pub struct GenericTpl {
    pub tpl_id: GenericTplId,
    pub name: String,
}

/// A generic parameter whose argument is given as a string literal: the
/// literal, between `prefix` and `suffix`, names the type.
#[derive(Debug)]
pub struct StringTplType {
    pub prefix: String,
    pub name: String,
    pub suffix: String,
    pub tpl_id: GenericTplId,
}

/// A generic type applied to arguments.
#[derive(Debug)]
pub struct GenericType {
    pub base: TypeDeclId,
    pub params: Vec<Type>,
}

/// A function type written in a doc comment.
#[derive(Debug)]
pub struct FunctionType {
    pub is_async: bool,
    pub is_colon_define: bool,
    pub params: Vec<(String, Option<Type>)>,
    pub ret: Type,
}

/// A type.
#[derive(Debug)]
pub enum Type {
    Any,
    Nil,
    Boolean,
    String,
    Integer,
    Number,
    Function,
    SelfInfer,
    IntegerConst(i64),
    /// A number literal, kept as the text that writes it.
    FloatConst(String),
    StringConst(String),
    DocIntegerConst(i64),
    DocStringConst(String),
    Ref(TypeDeclId),
    Generic(GenericType),
    Union(Vec<Type>),
    /// A union whose branches each carry an optional description.
    MultiLineUnion(Vec<(Type, Option<String>)>),
    DocFunction(Box<FunctionType>),
    Signature(SignatureId),
    TplRef(GenericTpl),
    StrTplRef(StringTplType),
}

/// The mathematical value of a [`FunctionType`].
pub struct FunctionTypeView {
    pub is_async: bool,
    pub is_colon_define: bool,
    pub params: Seq<(Seq<char>, Option<TypeView>)>,
    pub ret: TypeView,
}

/// The mathematical value of a [`Type`].
pub enum TypeView {
    Any,
    Nil,
    Boolean,
    String,
    Integer,
    Number,
    Function,
    SelfInfer,
    IntegerConst(int),
    FloatConst(Seq<char>),
    StringConst(Seq<char>),
    DocIntegerConst(int),
    DocStringConst(Seq<char>),
    Ref(Seq<char>),
    Generic { base: Seq<char>, params: Seq<TypeView> },
    Union(Seq<TypeView>),
    MultiLineUnion(Seq<(TypeView, Option<Seq<char>>)>),
    DocFunction(Box<FunctionTypeView>),
    Signature(SignatureId),
    TplRef { tpl_id: GenericTplId, name: Seq<char> },
    StrTplRef { prefix: Seq<char>, name: Seq<char>, suffix: Seq<char>, tpl_id: GenericTplId },
}

/// The value of a type.
pub open spec fn type_view(t: Type) -> TypeView
    decreases t,
{
    match t {
        Type::Any => TypeView::Any,
        Type::Nil => TypeView::Nil,
        Type::Boolean => TypeView::Boolean,
        Type::String => TypeView::String,
        Type::Integer => TypeView::Integer,
        Type::Number => TypeView::Number,
        Type::Function => TypeView::Function,
        Type::SelfInfer => TypeView::SelfInfer,
        Type::IntegerConst(i) => TypeView::IntegerConst(i as int),
        Type::FloatConst(s) => TypeView::FloatConst(s@),
        Type::StringConst(s) => TypeView::StringConst(s@),
        Type::DocIntegerConst(i) => TypeView::DocIntegerConst(i as int),
        Type::DocStringConst(s) => TypeView::DocStringConst(s@),
        Type::Ref(id) => TypeView::Ref(id@),
        Type::Generic(g) => TypeView::Generic { base: g.base@, params: types_view(g.params@) },
        Type::Union(members) => TypeView::Union(types_view(members@)),
        Type::MultiLineUnion(branches) => TypeView::MultiLineUnion(branches_view(branches@)),
        Type::DocFunction(f) => TypeView::DocFunction(Box::new(function_view(*f))),
        Type::Signature(id) => TypeView::Signature(id),
        Type::TplRef(tpl) => TypeView::TplRef { tpl_id: tpl.tpl_id, name: tpl.name@ },
        Type::StrTplRef(tpl) => TypeView::StrTplRef {
            prefix: tpl.prefix@,
            name: tpl.name@,
            suffix: tpl.suffix@,
            tpl_id: tpl.tpl_id,
        },
    }
}

/// The values of a list of types.
pub open spec fn types_view(s: Seq<Type>) -> Seq<TypeView>
    decreases s,
{
    Seq::new(
        s.len(),
        |i: int|
            if 0 <= i < s.len() {
                type_view(s[i])
            } else {
                TypeView::Nil
            },
    )
}

/// The value of an optional type.
pub open spec fn opt_type_view(o: Option<Type>) -> Option<TypeView>
    decreases o,
{
    match o {
        Some(t) => Some(type_view(t)),
        None => None,
    }
}

/// The values of a list of named, optionally typed parameters.
pub open spec fn params_view(s: Seq<(String, Option<Type>)>) -> Seq<(Seq<char>, Option<TypeView>)>
    decreases s,
{
    Seq::new(
        s.len(),
        |i: int|
            if 0 <= i < s.len() {
                (s[i].0@, opt_type_view(s[i].1))
            } else {
                (Seq::empty(), None)
            },
    )
}

/// The values of the branches of a multi-line union.
pub open spec fn branches_view(s: Seq<(Type, Option<String>)>) -> Seq<(TypeView, Option<Seq<char>>)>
    decreases s,
{
    Seq::new(
        s.len(),
        |i: int|
            if 0 <= i < s.len() {
                (type_view(s[i].0), opt_view(s[i].1))
            } else {
                (TypeView::Nil, None)
            },
    )
}

/// The value of a function type.
pub open spec fn function_view(f: FunctionType) -> FunctionTypeView
    decreases f,
{
    FunctionTypeView {
        is_async: f.is_async,
        is_colon_define: f.is_colon_define,
        params: params_view(f.params@),
        ret: type_view(f.ret),
    }
}

impl View for Type {
    type V = TypeView;

    open spec fn view(&self) -> TypeView {
        type_view(*self)
    }
}

impl View for FunctionType {
    type V = FunctionTypeView;

    open spec fn view(&self) -> FunctionTypeView {
        function_view(*self)
    }
}

/// A copy of an optional string.
pub fn clone_opt_string(o: &Option<String>) -> (r: Option<String>)
    ensures
        opt_view(r) == opt_view(*o),
{
    match o {
        Some(s) => Some(s.clone()),
        None => None,
    }
}

/// Whether two optional strings hold the same text.
pub fn opt_string_eq(a: &Option<String>, b: &Option<String>) -> (r: bool)
    ensures
        r == (opt_view(*a) == opt_view(*b)),
{
    match (a, b) {
        (Some(x), Some(y)) => *x == *y,
        (None, None) => true,
        _ => false,
    }
}

/// A copy of `t`.
pub fn clone_type(t: &Type) -> (r: Type)
    ensures
        r@ == t@,
    decreases t,
{
    match t {
        Type::Any => Type::Any,
        Type::Nil => Type::Nil,
        Type::Boolean => Type::Boolean,
        Type::String => Type::String,
        Type::Integer => Type::Integer,
        Type::Number => Type::Number,
        Type::Function => Type::Function,
        Type::SelfInfer => Type::SelfInfer,
        Type::IntegerConst(i) => Type::IntegerConst(*i),
        Type::FloatConst(s) => Type::FloatConst(s.clone()),
        Type::StringConst(s) => Type::StringConst(s.clone()),
        Type::DocIntegerConst(i) => Type::DocIntegerConst(*i),
        Type::DocStringConst(s) => Type::DocStringConst(s.clone()),
        Type::Ref(id) => Type::Ref(id.clone()),
        Type::Generic(g) => Type::Generic(
            GenericType { base: g.base.clone(), params: clone_types(&g.params) },
        ),
        Type::Union(members) => Type::Union(clone_types(members)),
        Type::MultiLineUnion(branches) => Type::MultiLineUnion(clone_branches(branches)),
        Type::DocFunction(f) => Type::DocFunction(Box::new(clone_function(&**f))),
        Type::Signature(id) => Type::Signature(*id),
        Type::TplRef(tpl) => Type::TplRef(GenericTpl { tpl_id: tpl.tpl_id, name: tpl.name.clone() }),
        Type::StrTplRef(tpl) => Type::StrTplRef(
            StringTplType {
                prefix: tpl.prefix.clone(),
                name: tpl.name.clone(),
                suffix: tpl.suffix.clone(),
                tpl_id: tpl.tpl_id,
            },
        ),
    }
}

/// A copy of a list of types.
pub fn clone_types(v: &Vec<Type>) -> (r: Vec<Type>)
    ensures
        types_view(r@) == types_view(v@),
    decreases v,
{
    let mut out: Vec<Type> = Vec::new();
    let mut i: usize = 0;
    while i < v.len()
        invariant
            i <= v.len(),
            out.len() == i,
            forall|j: int| 0 <= j < i ==> type_view(out@[j]) == type_view(v@[j]),
        decreases v.len() - i,
    {
        out.push(clone_type(&v[i]));
        i += 1;
    }
    assert(types_view(out@) =~= types_view(v@));
    out
}

/// A copy of an optional type.
pub fn clone_opt_type(o: &Option<Type>) -> (r: Option<Type>)
    ensures
        opt_type_view(r) == opt_type_view(*o),
    decreases o,
{
    match o {
        Some(t) => Some(clone_type(t)),
        None => None,
    }
}

/// A copy of a parameter list.
pub fn clone_params(v: &Vec<(String, Option<Type>)>) -> (r: Vec<(String, Option<Type>)>)
    ensures
        params_view(r@) == params_view(v@),
    decreases v,
{
    let mut out: Vec<(String, Option<Type>)> = Vec::new();
    let mut i: usize = 0;
    while i < v.len()
        invariant
            i <= v.len(),
            out.len() == i,
            forall|j: int|
                0 <= j < i ==> out@[j].0@ == v@[j].0@ && opt_type_view(out@[j].1) == opt_type_view(
                    v@[j].1,
                ),
        decreases v.len() - i,
    {
        let ty = match &v[i].1 {
            Some(t) => Some(clone_type(t)),
            None => None,
        };
        out.push((v[i].0.clone(), ty));
        i += 1;
    }
    assert(params_view(out@) =~= params_view(v@));
    out
}

/// A copy of the branches of a multi-line union.
pub fn clone_branches(v: &Vec<(Type, Option<String>)>) -> (r: Vec<(Type, Option<String>)>)
    ensures
        branches_view(r@) == branches_view(v@),
    decreases v,
{
    let mut out: Vec<(Type, Option<String>)> = Vec::new();
    let mut i: usize = 0;
    while i < v.len()
        invariant
            i <= v.len(),
            out.len() == i,
            forall|j: int|
                0 <= j < i ==> type_view(out@[j].0) == type_view(v@[j].0) && opt_view(out@[j].1)
                    == opt_view(v@[j].1),
        decreases v.len() - i,
    {
        out.push((clone_type(&v[i].0), clone_opt_string(&v[i].1)));
        i += 1;
    }
    assert(branches_view(out@) =~= branches_view(v@));
    out
}

/// A copy of a function type.
pub fn clone_function(f: &FunctionType) -> (r: FunctionType)
    ensures
        r@ == f@,
    decreases f,
{
    FunctionType {
        is_async: f.is_async,
        is_colon_define: f.is_colon_define,
        params: clone_params(&f.params),
        ret: clone_type(&f.ret),
    }
}

/// Whether two types have the same value.
pub fn type_eq(a: &Type, b: &Type) -> (r: bool)
    ensures
        r == (a@ == b@),
    decreases a,
{
    match (a, b) {
        (Type::Any, Type::Any) => true,
        (Type::Nil, Type::Nil) => true,
        (Type::Boolean, Type::Boolean) => true,
        (Type::String, Type::String) => true,
        (Type::Integer, Type::Integer) => true,
        (Type::Number, Type::Number) => true,
        (Type::Function, Type::Function) => true,
        (Type::SelfInfer, Type::SelfInfer) => true,
        (Type::IntegerConst(x), Type::IntegerConst(y)) => *x == *y,
        (Type::FloatConst(x), Type::FloatConst(y)) => *x == *y,
        (Type::StringConst(x), Type::StringConst(y)) => *x == *y,
        (Type::DocIntegerConst(x), Type::DocIntegerConst(y)) => *x == *y,
        (Type::DocStringConst(x), Type::DocStringConst(y)) => *x == *y,
        (Type::Ref(x), Type::Ref(y)) => x.name == y.name,
        (Type::Generic(x), Type::Generic(y)) => x.base.name == y.base.name && types_eq(
            &x.params,
            &y.params,
        ),
        (Type::Union(x), Type::Union(y)) => types_eq(x, y),
        (Type::MultiLineUnion(x), Type::MultiLineUnion(y)) => branches_eq(x, y),
        (Type::DocFunction(x), Type::DocFunction(y)) => function_eq(&**x, &**y),
        (Type::Signature(x), Type::Signature(y)) => *x == *y,
        (Type::TplRef(x), Type::TplRef(y)) => x.tpl_id == y.tpl_id && x.name == y.name,
        (Type::StrTplRef(x), Type::StrTplRef(y)) => x.tpl_id == y.tpl_id && x.prefix == y.prefix
            && x.name == y.name && x.suffix == y.suffix,
        _ => false,
    }
}

/// Whether two lists of types have the same values.
pub fn types_eq(a: &Vec<Type>, b: &Vec<Type>) -> (r: bool)
    ensures
        r == (types_view(a@) == types_view(b@)),
    decreases a,
{
    if a.len() != b.len() {
        assert(types_view(a@).len() != types_view(b@).len());
        return false;
    }
    let mut i: usize = 0;
    while i < a.len()
        invariant
            i <= a.len(),
            a.len() == b.len(),
            forall|j: int| 0 <= j < i ==> type_view(a@[j]) == type_view(b@[j]),
        decreases a.len() - i,
    {
        if !type_eq(&a[i], &b[i]) {
            assert(types_view(a@)[i as int] != types_view(b@)[i as int]);
            return false;
        }
        i += 1;
    }
    assert(types_view(a@) =~= types_view(b@));
    true
}

/// Whether two optional types have the same value.
pub fn opt_type_eq(a: &Option<Type>, b: &Option<Type>) -> (r: bool)
    ensures
        r == (opt_type_view(*a) == opt_type_view(*b)),
    decreases a,
{
    match (a, b) {
        (Some(x), Some(y)) => type_eq(x, y),
        (None, None) => true,
        _ => false,
    }
}

/// Whether two parameter lists have the same values: names and types.
pub fn params_eq(a: &Vec<(String, Option<Type>)>, b: &Vec<(String, Option<Type>)>) -> (r: bool)
    ensures
        r == (params_view(a@) == params_view(b@)),
    decreases a,
{
    if a.len() != b.len() {
        assert(params_view(a@).len() != params_view(b@).len());
        return false;
    }
    let mut i: usize = 0;
    while i < a.len()
        invariant
            i <= a.len(),
            a.len() == b.len(),
            forall|j: int| 0 <= j < i ==> params_view(a@)[j] == params_view(b@)[j],
        decreases a.len() - i,
    {
        if !(a[i].0 == b[i].0 && opt_type_eq(&a[i].1, &b[i].1)) {
            assert(params_view(a@)[i as int] != params_view(b@)[i as int]);
            return false;
        }
        i += 1;
    }
    assert(params_view(a@) =~= params_view(b@));
    true
}

/// Whether two lists of union branches have the same values.
pub fn branches_eq(a: &Vec<(Type, Option<String>)>, b: &Vec<(Type, Option<String>)>) -> (r: bool)
    ensures
        r == (branches_view(a@) == branches_view(b@)),
    decreases a,
{
    if a.len() != b.len() {
        assert(branches_view(a@).len() != branches_view(b@).len());
        return false;
    }
    let mut i: usize = 0;
    while i < a.len()
        invariant
            i <= a.len(),
            a.len() == b.len(),
            forall|j: int| 0 <= j < i ==> branches_view(a@)[j] == branches_view(b@)[j],
        decreases a.len() - i,
    {
        if !(type_eq(&a[i].0, &b[i].0) && opt_string_eq(&a[i].1, &b[i].1)) {
            assert(branches_view(a@)[i as int] != branches_view(b@)[i as int]);
            return false;
        }
        i += 1;
    }
    assert(branches_view(a@) =~= branches_view(b@));
    true
}

/// Whether two function types have the same value.
pub fn function_eq(a: &FunctionType, b: &FunctionType) -> (r: bool)
    ensures
        r == (a@ == b@),
    decreases a,
{
    a.is_async == b.is_async && a.is_colon_define == b.is_colon_define && params_eq(
        &a.params,
        &b.params,
    ) && type_eq(&a.ret, &b.ret)
}

impl Clone for Type {
    fn clone(&self) -> (r: Self)
        ensures
            r@ == self@,
    {
        clone_type(self)
    }
}

impl Clone for FunctionType {
    fn clone(&self) -> (r: Self)
        ensures
            r@ == self@,
    {
        clone_function(self)
    }
}

impl PartialEq for Type {
    fn eq(&self, other: &Self) -> (r: bool) {
        type_eq(self, other)
    }
}

impl PartialEqSpecImpl for Type {
    open spec fn obeys_eq_spec() -> bool {
        true
    }

    open spec fn eq_spec(&self, other: &Self) -> bool {
        self@ == other@
    }
}

impl PartialEq for FunctionType {
    fn eq(&self, other: &Self) -> (r: bool) {
        function_eq(self, other)
    }
}

impl PartialEqSpecImpl for FunctionType {
    open spec fn obeys_eq_spec() -> bool {
        true
    }

    open spec fn eq_spec(&self, other: &Self) -> bool {
        self@ == other@
    }
}

impl TypeView {
    /// Whether the type is one of the string types: `string` itself or a
    /// string constant.
    pub open spec fn is_string(self) -> bool {
        self is String || self is StringConst || self is DocStringConst
    }
}

impl Type {
    /// Whether the type is `nil`.
    pub fn is_nil(&self) -> (r: bool)
        ensures
            r == (self@ is Nil),
    {
        match self {
            Type::Nil => true,
            _ => false,
        }
    }

    /// Whether the type is one of the string types.
    pub fn is_string(&self) -> (r: bool)
        ensures
            r == self@.is_string(),
    {
        match self {
            Type::String | Type::StringConst(_) | Type::DocStringConst(_) => true,
            _ => false,
        }
    }

    /// Whether the type is the receiver, to be inferred.
    pub fn is_self_infer(&self) -> (r: bool)
        ensures
            r == (self@ is SelfInfer),
    {
        match self {
            Type::SelfInfer => true,
            _ => false,
        }
    }
}

impl FunctionType {
    /// The parameters, in order.
    pub fn get_params(&self) -> (r: &Vec<(String, Option<Type>)>)
        ensures
            params_view(r@) == self@.params,
    {
        &self.params
    }

    /// The return type.
    pub fn get_ret(&self) -> (r: &Type)
        ensures
            r@ == self@.ret,
    {
        &self.ret
    }

    /// Whether the function is asynchronous.
    pub fn is_async(&self) -> (r: bool)
        ensures
            r == self@.is_async,
    {
        self.is_async
    }

    /// Whether the function was declared with a receiver.
    pub fn is_colon_define(&self) -> (r: bool)
        ensures
            r == self@.is_colon_define,
    {
        self.is_colon_define
    }
}

} // verus!
