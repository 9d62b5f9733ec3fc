//! What the names and operators of types written in doc comments denote.

use crate::ids::{GenericTplId, TypeDeclId};
use crate::text::{str_eq, views};
use crate::types::{types_view, GenericTpl, Type, TypeView};
use vstd::prelude::*;

verus! {

/// The names of the generic parameters in scope: those of the function,
/// and those of the type that the function belongs to.
#[derive(Debug)]
pub struct GenericScope {
    pub func: Vec<String>,
    pub ty: Vec<String>,
}

/// The mathematical value of a [`GenericScope`].
pub struct GenericScopeView {
    pub func: Seq<Seq<char>>,
    pub ty: Seq<Seq<char>>,
}

impl View for GenericScope {
    type V = GenericScopeView;

    open spec fn view(&self) -> GenericScopeView {
        GenericScopeView { func: views(self.func@), ty: views(self.ty@) }
    }
}

/// The position of the first `name` in `names`; `names.len()` where there
/// is none.
pub open spec fn position_of(names: Seq<Seq<char>>, name: Seq<char>) -> int
    decreases names.len(),
{
    if names.len() == 0 {
        0
    } else if names[0] == name {
        0
    } else {
        1 + position_of(names.drop_first(), name)
    }
}

impl GenericScopeView {
    /// The slot that `name` names: a parameter of the function where it
    /// has one of that name, else a parameter of the type. A slot has an
    /// index that a `u32` holds.
    pub open spec fn slot(self, name: Seq<char>) -> Option<GenericTplId> {
        let f = position_of(self.func, name);
        let t = position_of(self.ty, name);
        if f < self.func.len() && f <= u32::MAX {
            Some(GenericTplId::Func(f as u32))
        } else if t < self.ty.len() && t <= u32::MAX {
            Some(GenericTplId::Type(t as u32))
        } else {
            None
        }
    }
}

/// The position of the first `name` in `names`.
fn find_name(names: &Vec<String>, name: &str) -> (r: usize)
    ensures
        r == position_of(views(names@), name@),
{
    let mut i: usize = 0;
    assert(views(names@).skip(0) =~= views(names@));
    while i < names.len()
        invariant
            i <= names.len(),
            position_of(views(names@), name@) == i + position_of(
                views(names@).skip(i as int),
                name@,
            ),
        decreases names.len() - i,
    {
        proof {
            assert(views(names@).skip(i as int).drop_first() =~= views(names@).skip(i as int + 1));
        }
        if str_eq(names[i].as_str(), name) {
            return i;
        }
        i += 1;
    }
    i
}

impl GenericScope {
    /// A scope without generic parameters.
    pub fn empty() -> (r: GenericScope)
        ensures
            r@.func.len() == 0,
            r@.ty.len() == 0,
    {
        GenericScope { func: Vec::new(), ty: Vec::new() }
    }

    /// The slot that `name` names.
    pub fn find(&self, name: &str) -> (r: Option<GenericTplId>)
        ensures
            r == self@.slot(name@),
    {
        let f = find_name(&self.func, name);
        if f < self.func.len() && f <= 0xffff_ffff {
            return Some(GenericTplId::Func(f as u32));
        }
        let t = find_name(&self.ty, name);
        if t < self.ty.len() && t <= 0xffff_ffff {
            return Some(GenericTplId::Type(t as u32));
        }
        None
    }
}

/// The type that a name written in a doc comment denotes: a built-in
/// type, a generic parameter in scope, or else the declaration of that name.
pub open spec fn named(name: Seq<char>, scope: GenericScopeView) -> TypeView {
    if name == "any"@ {
        TypeView::Any
    } else if name == "nil"@ {
        TypeView::Nil
    } else if name == "boolean"@ {
        TypeView::Boolean
    } else if name == "string"@ {
        TypeView::String
    } else if name == "integer"@ {
        TypeView::Integer
    } else if name == "number"@ {
        TypeView::Number
    } else if name == "function"@ {
        TypeView::Function
    } else if name == "self"@ {
        TypeView::SelfInfer
    } else {
        match scope.slot(name) {
            Some(tpl_id) => TypeView::TplRef { tpl_id, name },
            None => TypeView::Ref(name),
        }
    }
}

/// The type that a name written in a doc comment denotes.
pub fn named_type(name: &str, scope: &GenericScope) -> (r: Type)
    ensures
        r@ == named(name@, scope@),
{
    if str_eq(name, "any") {
        Type::Any
    } else if str_eq(name, "nil") {
        Type::Nil
    } else if str_eq(name, "boolean") {
        Type::Boolean
    } else if str_eq(name, "string") {
        Type::String
    } else if str_eq(name, "integer") {
        Type::Integer
    } else if str_eq(name, "number") {
        Type::Number
    } else if str_eq(name, "function") {
        Type::Function
    } else if str_eq(name, "self") {
        Type::SelfInfer
    } else {
        match scope.find(name) {
            Some(tpl_id) => Type::TplRef(GenericTpl { tpl_id, name: String::from_str(name) }),
            None => Type::Ref(TypeDeclId::new(name)),
        }
    }
}

/// The members that a type brings into a union: its own where it is a
/// union, else itself.
pub open spec fn as_members(t: TypeView) -> Seq<TypeView> {
    match t {
        TypeView::Union(members) => members,
        _ => seq![t],
    }
}

/// The union of two types, written `left | right`. Unions on either side
/// are merged into it, so that a chain of bars is one union.
pub fn union_of(left: Type, right: Type) -> (r: Type)
    ensures
        r@ == TypeView::Union(as_members(left@) + as_members(right@)),
{
    let mut members: Vec<Type> = match left {
        Type::Union(inner) => inner,
        other => {
            let mut list: Vec<Type> = Vec::new();
            list.push(other);
            assert(types_view(list@) =~= seq![other@]);
            list
        },
    };
    let ghost first = types_view(members@);
    match right {
        Type::Union(inner) => {
            let mut inner = inner;
            let ghost second = types_view(inner@);
            members.append(&mut inner);
            assert(types_view(members@) =~= first + second);
        },
        other => {
            members.push(other);
            assert(types_view(members@) =~= first + seq![other@]);
        },
    }
    Type::Union(members)
}

/// The type written `t?`: `t` or `nil`.
pub fn nullable(t: Type) -> (r: Type)
    ensures
        r@ == TypeView::Union(seq![t@, TypeView::Nil]),
{
    let mut members: Vec<Type> = Vec::new();
    members.push(t);
    members.push(Type::Nil);
    assert(types_view(members@) =~= seq![t@, TypeView::Nil]);
    Type::Union(members)
}

} // verus!
