//! Structural and nominal compatibility of types.

use crate::db::{find_type_decl, Database, DatabaseView, TypeDecl};
use crate::ids::TypeDeclId;
use crate::text::{lemma_take_push, natural_text, natural_to_string};
use crate::types::{type_eq, type_view, types_view, Type, TypeView};
use vstd::prelude::*;

verus! {

/// Why a type is not accepted where another is expected.
#[derive(Debug)]
pub enum TypeCheckFailReason {
    /// The types do not match.
    TypeNotMatch,
    /// The types do not match, for the reason given.
    TypeNotMatchWithReason(String),
    /// The check was skipped on purpose: nothing is known either way.
    DonotCheck,
    /// The comparison went deeper than the bound: a cyclic reference.
    TypeRecursion,
}

/// The mathematical value of a [`TypeCheckFailReason`].
pub enum FailReasonView {
    TypeNotMatch,
    TypeNotMatchWithReason(Seq<char>),
    DonotCheck,
    TypeRecursion,
}

impl View for TypeCheckFailReason {
    type V = FailReasonView;

    open spec fn view(&self) -> FailReasonView {
        match self {
            TypeCheckFailReason::TypeNotMatch => FailReasonView::TypeNotMatch,
            TypeCheckFailReason::TypeNotMatchWithReason(s) => FailReasonView::TypeNotMatchWithReason(
                s@,
            ),
            TypeCheckFailReason::DonotCheck => FailReasonView::DonotCheck,
            TypeCheckFailReason::TypeRecursion => FailReasonView::TypeRecursion,
        }
    }
}

/// The result of a check.
pub type TypeCheckResult = Result<(), TypeCheckFailReason>;

/// The mathematical value of a [`TypeCheckResult`].
pub open spec fn result_view(r: TypeCheckResult) -> Result<(), FailReasonView> {
    match r {
        Ok(_) => Ok(()),
        Err(reason) => Err(reason@),
    }
}

/// How deep a comparison follows declarations and nested types before it
/// gives up with `TypeRecursion`.
pub const TYPE_CHECK_DEPTH: usize = 100;

impl TypeView {
    /// Whether the type stands for something that only a call makes
    /// known: a generic parameter or the receiver.
    pub open spec fn is_unresolved(self) -> bool {
        self is TplRef || self is StrTplRef || self is SelfInfer
    }

    /// The members of a union, plain or multi-line.
    pub open spec fn members(self) -> Option<Seq<TypeView>> {
        match self {
            TypeView::Union(ms) => Some(ms),
            TypeView::MultiLineUnion(bs) => Some(bs.map_values(|b: (TypeView, Option<Seq<char>>)| b.0)),
            _ => None,
        }
    }
}

/// What `t` stands for, where it refers to an alias with an origin.
pub open spec fn alias_origin(db: DatabaseView, t: TypeView) -> Option<TypeView> {
    match t {
        TypeView::Ref(name) => match find_type_decl(db.types, name) {
            Some(d) => d.origin(),
            None => None,
        },
        _ => None,
    }
}

/// The reason given where two applications of one generic type differ in
/// the number of their arguments.
pub open spec fn arity_reason(expected: nat, found: nat) -> Seq<char> {
    "expected "@ + natural_text(expected) + " generic arguments, found "@ + natural_text(found)
}

/// Whether `actual` is accepted where `expected` is asked for, following
/// declarations and nested types at most `fuel` deep.
///
/// In this order: equal types match; at depth zero the answer is
/// `TypeRecursion`; `any` matches on either side; a generic parameter or the
/// receiver on either side skips the check; an alias on either side is
/// replaced by its origin; a union on the actual side matches when one of
/// its members does, and so does a union on the expected side; a constant
/// matches its base type and the same constant in its other form; a
/// reference matches the declarations that extend it; two applications of
/// one generic type match when their arguments match pairwise; a function
/// type and a signature are not compared.
pub open spec fn compatible(db: DatabaseView, expected: TypeView, actual: TypeView, fuel: nat) -> Result<
    (),
    FailReasonView,
>
    decreases fuel, 0nat,
{
    if expected == actual {
        Ok(())
    } else if fuel == 0 {
        Err(FailReasonView::TypeRecursion)
    } else if expected is Any || actual is Any {
        Ok(())
    } else if expected.is_unresolved() || actual.is_unresolved() {
        Err(FailReasonView::DonotCheck)
    } else if alias_origin(db, actual) is Some {
        compatible(db, expected, alias_origin(db, actual).unwrap(), (fuel - 1) as nat)
    } else if alias_origin(db, expected) is Some {
        compatible(db, alias_origin(db, expected).unwrap(), actual, (fuel - 1) as nat)
    } else if actual.members() is Some {
        any_actual(db, expected, actual.members().unwrap(), 0, (fuel - 1) as nat)
    } else if expected.members() is Some {
        any_expected(db, expected.members().unwrap(), actual, 0, (fuel - 1) as nat)
    } else {
        match expected {
            TypeView::String => verdict(actual is StringConst || actual is DocStringConst),
            TypeView::Integer => verdict(actual is IntegerConst || actual is DocIntegerConst),
            TypeView::Number => verdict(
                actual is Integer || actual is IntegerConst || actual is DocIntegerConst
                    || actual is FloatConst,
            ),
            TypeView::Function => verdict(actual is DocFunction || actual is Signature),
            TypeView::StringConst(s) => verdict(actual == TypeView::DocStringConst(s)),
            TypeView::DocStringConst(s) => verdict(actual == TypeView::StringConst(s)),
            TypeView::IntegerConst(i) => verdict(actual == TypeView::DocIntegerConst(i)),
            TypeView::DocIntegerConst(i) => verdict(actual == TypeView::IntegerConst(i)),
            TypeView::Ref(name) => match actual {
                TypeView::Ref(actual_name) => extends(db, actual_name, name, (fuel - 1) as nat),
                TypeView::Generic { base, params } => extends(db, base, name, (fuel - 1) as nat),
                _ => Err(FailReasonView::TypeNotMatch),
            },
            TypeView::Generic { base, params } => match actual {
                TypeView::Generic { base: actual_base, params: actual_params } => {
                    if actual_base != base {
                        Err(FailReasonView::TypeNotMatch)
                    } else if actual_params.len() != params.len() {
                        Err(
                            FailReasonView::TypeNotMatchWithReason(
                                arity_reason(params.len(), actual_params.len()),
                            ),
                        )
                    } else {
                        all_compatible(db, params, actual_params, 0, (fuel - 1) as nat)
                    }
                },
                _ => Err(FailReasonView::TypeNotMatch),
            },
            TypeView::DocFunction(_) => if actual is Signature {
                Err(FailReasonView::DonotCheck)
            } else {
                Err(FailReasonView::TypeNotMatch)
            },
            TypeView::Signature(_) => if actual is DocFunction {
                Err(FailReasonView::DonotCheck)
            } else {
                Err(FailReasonView::TypeNotMatch)
            },
            _ => Err(FailReasonView::TypeNotMatch),
        }
    }
}

/// A match where `matches` holds, a plain mismatch where it does not.
pub open spec fn verdict(matches: bool) -> Result<(), FailReasonView> {
    if matches {
        Ok(())
    } else {
        Err(FailReasonView::TypeNotMatch)
    }
}

/// The check of the members `members[from..]` of an actual union against
/// `expected`: the first member that matches, or that runs into the depth
/// bound, decides; where there is none, the types do not match.
pub open spec fn any_actual(
    db: DatabaseView,
    expected: TypeView,
    members: Seq<TypeView>,
    from: int,
    fuel: nat,
) -> Result<(), FailReasonView>
    decreases fuel, members.len() - from + 1,
{
    if from < 0 || from >= members.len() {
        Err(FailReasonView::TypeNotMatch)
    } else {
        match compatible(db, expected, members[from], fuel) {
            Ok(_) => Ok(()),
            Err(FailReasonView::TypeRecursion) => Err(FailReasonView::TypeRecursion),
            Err(_) => any_actual(db, expected, members, from + 1, fuel),
        }
    }
}

/// The check of `actual` against the members `members[from..]` of an
/// expected union: the first member that accepts it, or that runs into the
/// depth bound, decides; where there is none, the types do not match.
pub open spec fn any_expected(
    db: DatabaseView,
    members: Seq<TypeView>,
    actual: TypeView,
    from: int,
    fuel: nat,
) -> Result<(), FailReasonView>
    decreases fuel, members.len() - from + 1,
{
    if from < 0 || from >= members.len() {
        Err(FailReasonView::TypeNotMatch)
    } else {
        match compatible(db, members[from], actual, fuel) {
            Ok(_) => Ok(()),
            Err(FailReasonView::TypeRecursion) => Err(FailReasonView::TypeRecursion),
            Err(_) => any_expected(db, members, actual, from + 1, fuel),
        }
    }
}

/// The pairwise check of `actual[from..]` against `expected[from..]`: the
/// first pair that fails gives the result.
pub open spec fn all_compatible(
    db: DatabaseView,
    expected: Seq<TypeView>,
    actual: Seq<TypeView>,
    from: int,
    fuel: nat,
) -> Result<(), FailReasonView>
    decreases fuel, expected.len() - from + 1,
{
    if from < 0 || from >= expected.len() || from >= actual.len() {
        Ok(())
    } else {
        match compatible(db, expected[from], actual[from], fuel) {
            Ok(_) => all_compatible(db, expected, actual, from + 1, fuel),
            Err(reason) => Err(reason),
        }
    }
}

/// Whether the declaration `name` is `target` or extends it, directly or
/// through other declarations, at most `fuel` steps away.
pub open spec fn extends(db: DatabaseView, name: Seq<char>, target: Seq<char>, fuel: nat) -> Result<
    (),
    FailReasonView,
>
    decreases fuel, 0nat,
{
    if name == target {
        Ok(())
    } else if fuel == 0 {
        Err(FailReasonView::TypeRecursion)
    } else {
        match find_type_decl(db.types, name) {
            Some(d) => any_extends(db, d.supers, target, 0, (fuel - 1) as nat),
            None => Err(FailReasonView::TypeNotMatch),
        }
    }
}

/// Whether one of `supers[from..]` is `target` or extends it: the first
/// that does, or that runs into the depth bound, decides.
pub open spec fn any_extends(
    db: DatabaseView,
    supers: Seq<Seq<char>>,
    target: Seq<char>,
    from: int,
    fuel: nat,
) -> Result<(), FailReasonView>
    decreases fuel, supers.len() - from + 1,
{
    if from < 0 || from >= supers.len() {
        Err(FailReasonView::TypeNotMatch)
    } else {
        match extends(db, supers[from], target, fuel) {
            Ok(_) => Ok(()),
            Err(FailReasonView::TypeRecursion) => Err(FailReasonView::TypeRecursion),
            Err(_) => any_extends(db, supers, target, from + 1, fuel),
        }
    }
}

/// Whether `actual` is accepted where `expected` is asked for.
pub open spec fn type_check_spec(db: DatabaseView, expected: TypeView, actual: TypeView) -> Result<
    (),
    FailReasonView,
> {
    compatible(db, expected, actual, TYPE_CHECK_DEPTH as nat)
}

/// Every type is accepted where it is itself expected, whatever the
/// database holds and however deep the type is.
pub proof fn type_check_reflexive(db: DatabaseView, t: TypeView)
    ensures
        type_check_spec(db, t, t) is Ok,
{
}

/// Every name in `names` is an alias in `db` whose origin is a reference
/// to a name in `names`: following origins from a name in `names` never
/// leaves it.
pub open spec fn alias_cycle(db: DatabaseView, names: Set<Seq<char>>) -> bool {
    forall|n: Seq<char>| #[trigger]
        names.contains(n) ==> (alias_origin(db, TypeView::Ref(n)) matches Some(
            TypeView::Ref(next),
        ) && names.contains(next))
}

/// A comparison that can only follow a cycle of aliases ends with
/// `TypeRecursion`, at every depth bound: an expected reference into the
/// cycle is never matched by an actual type that is neither `any`, nor a
/// generic parameter or the receiver, nor an alias, nor that reference
/// itself.
pub proof fn alias_cycle_ends_in_recursion(
    db: DatabaseView,
    names: Set<Seq<char>>,
    name: Seq<char>,
    actual: TypeView,
    fuel: nat,
)
    requires
        alias_cycle(db, names),
        names.contains(name),
        !(actual is Any),
        !actual.is_unresolved(),
        alias_origin(db, actual) is None,
    ensures
        compatible(db, TypeView::Ref(name), actual, fuel) == Err::<(), FailReasonView>(
            FailReasonView::TypeRecursion,
        ),
    decreases fuel,
{
    let expected = TypeView::Ref(name);
    assert(expected != actual) by {
        if expected == actual {
            assert(alias_origin(db, actual) is Some);
        }
    }
    if fuel > 0 {
        let next = alias_origin(db, expected).unwrap();
        assert(next is Ref && names.contains(next->Ref_0));
        alias_cycle_ends_in_recursion(db, names, next->Ref_0, actual, (fuel - 1) as nat);
    }
}

/// The answer that a comparison gives where it runs into the depth
/// bound.
pub open spec fn out_of_depth() -> Result<(), FailReasonView> {
    Err(FailReasonView::TypeRecursion)
}

/// A comparison that ends within its depth bound gives the same answer
/// under every larger bound: the bound decides nothing but whether
/// `TypeRecursion` is answered.
pub proof fn deeper_bound_keeps_the_answer(
    db: DatabaseView,
    expected: TypeView,
    actual: TypeView,
    fuel: nat,
    more: nat,
)
    requires
        fuel <= more,
        compatible(db, expected, actual, fuel) != out_of_depth(),
    ensures
        compatible(db, expected, actual, more) == compatible(db, expected, actual, fuel),
    decreases fuel, 0nat,
{
    if expected != actual && fuel > 0 && !(expected is Any || actual is Any)
        && !(expected.is_unresolved() || actual.is_unresolved()) {
        let f = (fuel - 1) as nat;
        let m = (more - 1) as nat;
        if alias_origin(db, actual) is Some {
            deeper_bound_keeps_the_answer(db, expected, alias_origin(db, actual).unwrap(), f, m);
        } else if alias_origin(db, expected) is Some {
            deeper_bound_keeps_the_answer(db, alias_origin(db, expected).unwrap(), actual, f, m);
        } else if actual.members() is Some {
            lemma_any_actual_stable(db, expected, actual.members().unwrap(), 0, f, m);
        } else if expected.members() is Some {
            lemma_any_expected_stable(db, expected.members().unwrap(), actual, 0, f, m);
        } else {
            match expected {
                TypeView::Ref(name) => match actual {
                    TypeView::Ref(actual_name) => {
                        lemma_extends_stable(db, actual_name, name, f, m);
                    },
                    TypeView::Generic { base, params } => {
                        lemma_extends_stable(db, base, name, f, m);
                    },
                    _ => {},
                },
                TypeView::Generic { base, params } => match actual {
                    TypeView::Generic { base: actual_base, params: actual_params } => {
                        if actual_base == base && actual_params.len() == params.len() {
                            lemma_all_compatible_stable(db, params, actual_params, 0, f, m);
                        }
                    },
                    _ => {},
                },
                _ => {},
            }
        }
    }
}

/// The check of the members of an actual union keeps its answer under a
/// larger bound.
pub proof fn lemma_any_actual_stable(
    db: DatabaseView,
    expected: TypeView,
    members: Seq<TypeView>,
    from: int,
    fuel: nat,
    more: nat,
)
    requires
        fuel <= more,
        any_actual(db, expected, members, from, fuel) != out_of_depth(),
    ensures
        any_actual(db, expected, members, from, more) == any_actual(
            db,
            expected,
            members,
            from,
            fuel,
        ),
    decreases fuel, members.len() - from + 1,
{
    if 0 <= from < members.len() {
        let here = compatible(db, expected, members[from], fuel);
        if here != out_of_depth() {
            deeper_bound_keeps_the_answer(db, expected, members[from], fuel, more);
            if here is Err {
                lemma_any_actual_stable(db, expected, members, from + 1, fuel, more);
            }
        }
    }
}

/// The check against the members of an expected union keeps its answer
/// under a larger bound.
pub proof fn lemma_any_expected_stable(
    db: DatabaseView,
    members: Seq<TypeView>,
    actual: TypeView,
    from: int,
    fuel: nat,
    more: nat,
)
    requires
        fuel <= more,
        any_expected(db, members, actual, from, fuel) != out_of_depth(),
    ensures
        any_expected(db, members, actual, from, more) == any_expected(
            db,
            members,
            actual,
            from,
            fuel,
        ),
    decreases fuel, members.len() - from + 1,
{
    if 0 <= from < members.len() {
        let here = compatible(db, members[from], actual, fuel);
        if here != out_of_depth() {
            deeper_bound_keeps_the_answer(db, members[from], actual, fuel, more);
            if here is Err {
                lemma_any_expected_stable(db, members, actual, from + 1, fuel, more);
            }
        }
    }
}

/// The pairwise check of two lists keeps its answer under a larger bound.
pub proof fn lemma_all_compatible_stable(
    db: DatabaseView,
    expected: Seq<TypeView>,
    actual: Seq<TypeView>,
    from: int,
    fuel: nat,
    more: nat,
)
    requires
        fuel <= more,
        all_compatible(db, expected, actual, from, fuel) != out_of_depth(),
    ensures
        all_compatible(db, expected, actual, from, more) == all_compatible(
            db,
            expected,
            actual,
            from,
            fuel,
        ),
    decreases fuel, expected.len() - from + 1,
{
    if 0 <= from < expected.len() && from < actual.len() {
        let here = compatible(db, expected[from], actual[from], fuel);
        if here != out_of_depth() {
            deeper_bound_keeps_the_answer(db, expected[from], actual[from], fuel, more);
            if here is Ok {
                lemma_all_compatible_stable(db, expected, actual, from + 1, fuel, more);
            }
        }
    }
}

/// The walk up the declarations that a declaration extends keeps its
/// answer under a larger bound.
pub proof fn lemma_extends_stable(
    db: DatabaseView,
    name: Seq<char>,
    target: Seq<char>,
    fuel: nat,
    more: nat,
)
    requires
        fuel <= more,
        extends(db, name, target, fuel) != out_of_depth(),
    ensures
        extends(db, name, target, more) == extends(db, name, target, fuel),
    decreases fuel, 0nat,
{
    if name != target && fuel > 0 {
        match find_type_decl(db.types, name) {
            Some(d) => {
                lemma_any_extends_stable(
                    db,
                    d.supers,
                    target,
                    0,
                    (fuel - 1) as nat,
                    (more - 1) as nat,
                );
            },
            None => {},
        }
    }
}

/// The walk up a list of extended declarations keeps its answer under a
/// larger bound.
pub proof fn lemma_any_extends_stable(
    db: DatabaseView,
    supers: Seq<Seq<char>>,
    target: Seq<char>,
    from: int,
    fuel: nat,
    more: nat,
)
    requires
        fuel <= more,
        any_extends(db, supers, target, from, fuel) != out_of_depth(),
    ensures
        any_extends(db, supers, target, from, more) == any_extends(db, supers, target, from, fuel),
    decreases fuel, supers.len() - from + 1,
{
    if 0 <= from < supers.len() {
        let here = extends(db, supers[from], target, fuel);
        if here != out_of_depth() {
            lemma_extends_stable(db, supers[from], target, fuel, more);
            if here is Err {
                lemma_any_extends_stable(db, supers, target, from + 1, fuel, more);
            }
        }
    }
}

/// The values of a list of borrowed types.
pub open spec fn refs_view(s: Seq<&Type>) -> Seq<TypeView> {
    s.map_values(|m: &Type| type_view(*m))
}

impl Type {
    /// Whether the type is `any`.
    pub fn is_any(&self) -> (r: bool)
        ensures
            r == (self@ is Any),
    {
        match self {
            Type::Any => true,
            _ => false,
        }
    }

    /// Whether the type stands for something that only a call makes
    /// known: a generic parameter or the receiver.
    pub fn is_unresolved(&self) -> (r: bool)
        ensures
            r == self@.is_unresolved(),
    {
        match self {
            Type::TplRef(_) | Type::StrTplRef(_) | Type::SelfInfer => true,
            _ => false,
        }
    }

    /// The members of a union, plain or multi-line.
    pub fn union_members(&self) -> (r: Option<Vec<&Type>>)
        ensures
            match r {
                Some(v) => self@.members() == Some(refs_view(v@)),
                None => self@.members() is None,
            },
    {
        match self {
            Type::Union(ms) => {
                let mut out: Vec<&Type> = Vec::new();
                let mut i: usize = 0;
                while i < ms.len()
                    invariant
                        i <= ms.len(),
                        refs_view(out@) == types_view(ms@).take(i as int),
                    decreases ms.len() - i,
                {
                    proof {
                        lemma_take_push(types_view(ms@), i as int);
                        assert(types_view(ms@)[i as int] == ms@[i as int]@);
                        assert(refs_view(out@.push(&ms@[i as int])) =~= refs_view(out@).push(
                            ms@[i as int]@,
                        ));
                    }
                    out.push(&ms[i]);
                    i += 1;
                }
                assert(types_view(ms@).take(ms.len() as int) =~= types_view(ms@));
                Some(out)
            },
            Type::MultiLineUnion(bs) => {
                let ghost all = self@.members().unwrap();
                let mut out: Vec<&Type> = Vec::new();
                let mut i: usize = 0;
                while i < bs.len()
                    invariant
                        i <= bs.len(),
                        all.len() == bs.len(),
                        forall|j: int| 0 <= j < bs.len() ==> all[j] == type_view(bs@[j].0),
                        refs_view(out@) == all.take(i as int),
                    decreases bs.len() - i,
                {
                    proof {
                        lemma_take_push(all, i as int);
                        assert(refs_view(out@.push(&bs@[i as int].0)) =~= refs_view(out@).push(
                            bs@[i as int].0@,
                        ));
                    }
                    out.push(&bs[i].0);
                    i += 1;
                }
                assert(all.take(bs.len() as int) =~= all);
                Some(out)
            },
            _ => None,
        }
    }
}

/// What `t` stands for, where it refers to an alias with an origin.
pub fn alias_origin_of<'a>(db: &'a Database, t: &Type) -> (r: Option<&'a Type>)
    ensures
        match r {
            Some(o) => alias_origin(db@, t@) == Some(o@),
            None => alias_origin(db@, t@) is None,
        },
{
    match t {
        Type::Ref(id) => match db.get_type_index().get_type_decl(id) {
            Some(d) => d.get_alias_origin(),
            None => None,
        },
        _ => None,
    }
}

/// A match where `matches` holds, a plain mismatch where it does not.
fn verdict_of(matches: bool) -> (r: TypeCheckResult)
    ensures
        result_view(r) == verdict(matches),
{
    if matches {
        Ok(())
    } else {
        Err(TypeCheckFailReason::TypeNotMatch)
    }
}

/// The reason given where two applications of one generic type differ in
/// the number of their arguments.
fn arity_mismatch(expected: usize, found: usize) -> (r: TypeCheckFailReason)
    ensures
        r@ == FailReasonView::TypeNotMatchWithReason(arity_reason(expected as nat, found as nat)),
{
    let mut text = String::from_str("expected ");
    let e = natural_to_string(expected as u64);
    text.append(e.as_str());
    text.append(" generic arguments, found ");
    let f = natural_to_string(found as u64);
    text.append(f.as_str());
    TypeCheckFailReason::TypeNotMatchWithReason(text)
}

/// Whether `actual` is accepted where `expected` is asked for, following
/// declarations and nested types at most `fuel` deep.
pub fn check_compatible(db: &Database, expected: &Type, actual: &Type, fuel: usize) -> (r:
    TypeCheckResult)
    ensures
        result_view(r) == compatible(db@, expected@, actual@, fuel as nat),
    decreases fuel, 0nat,
{
    if type_eq(expected, actual) {
        return Ok(());
    }
    if fuel == 0 {
        return Err(TypeCheckFailReason::TypeRecursion);
    }
    if expected.is_any() || actual.is_any() {
        return Ok(());
    }
    if expected.is_unresolved() || actual.is_unresolved() {
        return Err(TypeCheckFailReason::DonotCheck);
    }
    if let Some(origin) = alias_origin_of(db, actual) {
        return check_compatible(db, expected, origin, fuel - 1);
    }
    if let Some(origin) = alias_origin_of(db, expected) {
        return check_compatible(db, origin, actual, fuel - 1);
    }
    if let Some(members) = actual.union_members() {
        return check_any_actual(db, expected, &members, fuel - 1);
    }
    if let Some(members) = expected.union_members() {
        return check_any_expected(db, &members, actual, fuel - 1);
    }
    match expected {
        Type::String => verdict_of(
            match actual {
                Type::StringConst(_) | Type::DocStringConst(_) => true,
                _ => false,
            },
        ),
        Type::Integer => verdict_of(
            match actual {
                Type::IntegerConst(_) | Type::DocIntegerConst(_) => true,
                _ => false,
            },
        ),
        Type::Number => verdict_of(
            match actual {
                Type::Integer | Type::IntegerConst(_) | Type::DocIntegerConst(_) | Type::FloatConst(
                    _,
                ) => true,
                _ => false,
            },
        ),
        Type::Function => verdict_of(
            match actual {
                Type::DocFunction(_) | Type::Signature(_) => true,
                _ => false,
            },
        ),
        Type::StringConst(s) => verdict_of(
            match actual {
                Type::DocStringConst(t) => *s == *t,
                _ => false,
            },
        ),
        Type::DocStringConst(s) => verdict_of(
            match actual {
                Type::StringConst(t) => *s == *t,
                _ => false,
            },
        ),
        Type::IntegerConst(i) => verdict_of(
            match actual {
                Type::DocIntegerConst(j) => *i == *j,
                _ => false,
            },
        ),
        Type::DocIntegerConst(i) => verdict_of(
            match actual {
                Type::IntegerConst(j) => *i == *j,
                _ => false,
            },
        ),
        Type::Ref(id) => match actual {
            Type::Ref(actual_id) => check_extends(db, actual_id, id, fuel - 1),
            Type::Generic(g) => check_extends(db, &g.base, id, fuel - 1),
            _ => Err(TypeCheckFailReason::TypeNotMatch),
        },
        Type::Generic(g) => match actual {
            Type::Generic(h) => {
                if h.base.name != g.base.name {
                    Err(TypeCheckFailReason::TypeNotMatch)
                } else if h.params.len() != g.params.len() {
                    Err(arity_mismatch(g.params.len(), h.params.len()))
                } else {
                    check_all_compatible(db, &g.params, &h.params, fuel - 1)
                }
            },
            _ => Err(TypeCheckFailReason::TypeNotMatch),
        },
        Type::DocFunction(_) => match actual {
            Type::Signature(_) => Err(TypeCheckFailReason::DonotCheck),
            _ => Err(TypeCheckFailReason::TypeNotMatch),
        },
        Type::Signature(_) => match actual {
            Type::DocFunction(_) => Err(TypeCheckFailReason::DonotCheck),
            _ => Err(TypeCheckFailReason::TypeNotMatch),
        },
        _ => Err(TypeCheckFailReason::TypeNotMatch),
    }
}

/// Checks the members of an actual union against `expected`, in order.
pub fn check_any_actual(db: &Database, expected: &Type, members: &Vec<&Type>, fuel: usize) -> (r:
    TypeCheckResult)
    ensures
        result_view(r) == any_actual(db@, expected@, refs_view(members@), 0, fuel as nat),
    decreases fuel, 1nat,
{
    let ghost ms = refs_view(members@);
    let mut i: usize = 0;
    while i < members.len()
        invariant
            i <= members.len(),
            ms == refs_view(members@),
            any_actual(db@, expected@, ms, 0, fuel as nat) == any_actual(
                db@,
                expected@,
                ms,
                i as int,
                fuel as nat,
            ),
        decreases members.len() - i,
    {
        assert(ms[i as int] == members@[i as int]@);
        match check_compatible(db, expected, members[i], fuel) {
            Ok(_) => {
                return Ok(());
            },
            Err(TypeCheckFailReason::TypeRecursion) => {
                return Err(TypeCheckFailReason::TypeRecursion);
            },
            Err(_) => {},
        }
        i += 1;
    }
    Err(TypeCheckFailReason::TypeNotMatch)
}

/// Checks `actual` against the members of an expected union, in order.
pub fn check_any_expected(db: &Database, members: &Vec<&Type>, actual: &Type, fuel: usize) -> (r:
    TypeCheckResult)
    ensures
        result_view(r) == any_expected(db@, refs_view(members@), actual@, 0, fuel as nat),
    decreases fuel, 1nat,
{
    let ghost ms = refs_view(members@);
    let mut i: usize = 0;
    while i < members.len()
        invariant
            i <= members.len(),
            ms == refs_view(members@),
            any_expected(db@, ms, actual@, 0, fuel as nat) == any_expected(
                db@,
                ms,
                actual@,
                i as int,
                fuel as nat,
            ),
        decreases members.len() - i,
    {
        assert(ms[i as int] == members@[i as int]@);
        match check_compatible(db, members[i], actual, fuel) {
            Ok(_) => {
                return Ok(());
            },
            Err(TypeCheckFailReason::TypeRecursion) => {
                return Err(TypeCheckFailReason::TypeRecursion);
            },
            Err(_) => {},
        }
        i += 1;
    }
    Err(TypeCheckFailReason::TypeNotMatch)
}

/// Checks two lists pairwise, in order, as far as both reach.
pub fn check_all_compatible(db: &Database, expected: &Vec<Type>, actual: &Vec<Type>, fuel: usize) -> (r:
    TypeCheckResult)
    ensures
        result_view(r) == all_compatible(
            db@,
            types_view(expected@),
            types_view(actual@),
            0,
            fuel as nat,
        ),
    decreases fuel, 1nat,
{
    let ghost es = types_view(expected@);
    let ghost acs = types_view(actual@);
    let mut i: usize = 0;
    while i < expected.len() && i < actual.len()
        invariant
            i <= expected.len(),
            i <= actual.len(),
            es == types_view(expected@),
            acs == types_view(actual@),
            all_compatible(db@, es, acs, 0, fuel as nat) == all_compatible(
                db@,
                es,
                acs,
                i as int,
                fuel as nat,
            ),
        decreases expected.len() - i,
    {
        assert(es[i as int] == expected@[i as int]@);
        assert(acs[i as int] == actual@[i as int]@);
        match check_compatible(db, &expected[i], &actual[i], fuel) {
            Ok(_) => {},
            Err(reason) => {
                return Err(reason);
            },
        }
        i += 1;
    }
    Ok(())
}

/// Whether the declaration `id` is `target` or extends it, at most `fuel`
/// steps away.
pub fn check_extends(db: &Database, id: &TypeDeclId, target: &TypeDeclId, fuel: usize) -> (r:
    TypeCheckResult)
    ensures
        result_view(r) == extends(db@, id@, target@, fuel as nat),
    decreases fuel, 0nat,
{
    if id.name == target.name {
        return Ok(());
    }
    if fuel == 0 {
        return Err(TypeCheckFailReason::TypeRecursion);
    }
    match db.get_type_index().get_type_decl(id) {
        Some(d) => check_any_extends(db, d, target, fuel - 1),
        None => Err(TypeCheckFailReason::TypeNotMatch),
    }
}

/// Whether one of the declarations that `decl` extends is `target` or
/// extends it.
pub fn check_any_extends(db: &Database, decl: &TypeDecl, target: &TypeDeclId, fuel: usize) -> (r:
    TypeCheckResult)
    ensures
        result_view(r) == any_extends(db@, decl@.supers, target@, 0, fuel as nat),
    decreases fuel, 1nat,
{
    let ghost supers = decl@.supers;
    let mut i: usize = 0;
    while i < decl.supers.len()
        invariant
            i <= decl.supers.len(),
            supers == decl@.supers,
            any_extends(db@, supers, target@, 0, fuel as nat) == any_extends(
                db@,
                supers,
                target@,
                i as int,
                fuel as nat,
            ),
        decreases decl.supers.len() - i,
    {
        assert(supers[i as int] == decl.supers@[i as int]@);
        match check_extends(db, &decl.supers[i], target, fuel) {
            Ok(_) => {
                return Ok(());
            },
            Err(TypeCheckFailReason::TypeRecursion) => {
                return Err(TypeCheckFailReason::TypeRecursion);
            },
            Err(_) => {},
        }
        i += 1;
    }
    Err(TypeCheckFailReason::TypeNotMatch)
}

/// Checks that `actual` is accepted where `expected` is asked for.
///
/// The comparison always ends: it follows declarations and nested types
/// no deeper than [`TYPE_CHECK_DEPTH`], and answers `TypeRecursion` where
/// that is not deep enough.
pub fn type_check(db: &Database, expected: &Type, actual: &Type) -> (r: TypeCheckResult)
    ensures
        result_view(r) == type_check_spec(db@, expected@, actual@),
{
    check_compatible(db, expected, actual, TYPE_CHECK_DEPTH)
}

} // verus!
