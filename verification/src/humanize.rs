//! Rendering a type as text, at a chosen level of detail.

use crate::db::{
    find_signature, Database, DatabaseView, DocReturnInfo, DocReturnInfoView, Signature,
    SignatureView,
};
use crate::text::{
    integer_text, integer_to_string, join, join_strings, lemma_take_push, lemma_views_push, views,
};
use crate::types::{
    branches_view, opt_type_view, params_view, types_view, FunctionType, FunctionTypeView, Type,
    TypeView,
};
use vstd::prelude::*;

verus! {

/// How much of a type is spelled out.
#[derive(Clone, Copy, PartialEq, Eq, Structural, Debug)]
pub enum RenderLevel {
    Detailed,
    Normal,
    Simple,
    Minimal,
}

impl RenderLevel {
    /// The levels in order, `Minimal` lowest.
    pub open spec fn rank(self) -> nat {
        match self {
            RenderLevel::Detailed => 3,
            RenderLevel::Normal => 2,
            RenderLevel::Simple => 1,
            RenderLevel::Minimal => 0,
        }
    }

    /// The level at which the parts of a type are rendered.
    pub open spec fn lower(self) -> RenderLevel {
        match self {
            RenderLevel::Detailed => RenderLevel::Normal,
            RenderLevel::Normal => RenderLevel::Simple,
            RenderLevel::Simple => RenderLevel::Minimal,
            RenderLevel::Minimal => RenderLevel::Minimal,
        }
    }

    /// How many members of a union are shown.
    pub open spec fn union_limit(self) -> nat {
        match self {
            RenderLevel::Detailed => 8,
            RenderLevel::Normal => 4,
            RenderLevel::Simple => 4,
            RenderLevel::Minimal => 2,
        }
    }

    /// The level at which the parts of a type are rendered.
    pub fn next_level(self) -> (r: RenderLevel)
        ensures
            r == self.lower(),
    {
        match self {
            RenderLevel::Detailed => RenderLevel::Normal,
            RenderLevel::Normal => RenderLevel::Simple,
            RenderLevel::Simple => RenderLevel::Minimal,
            RenderLevel::Minimal => RenderLevel::Minimal,
        }
    }

    /// How many members of a union are shown.
    pub fn get_union_limit(self) -> (r: usize)
        ensures
            r == self.union_limit(),
    {
        match self {
            RenderLevel::Detailed => 8,
            RenderLevel::Normal => 4,
            RenderLevel::Simple => 4,
            RenderLevel::Minimal => 2,
        }
    }
}

/// `s` between double quotes.
pub open spec fn quoted(s: Seq<char>) -> Seq<char> {
    "\""@ + s + "\""@
}

/// The text of a union whose shown members read `parts`: the members with
/// bars between them, dots after them where members were left out, and
/// brackets round them unless a single member is all there is.
pub open spec fn union_text(parts: Seq<Seq<char>>, truncated: bool) -> Seq<char> {
    if truncated {
        "("@ + join(parts, "|"@) + "...)"@
    } else if parts.len() <= 1 {
        join(parts, "|"@)
    } else {
        "("@ + join(parts, "|"@) + ")"@
    }
}

/// The text of a parameter: its name, then its type where it has one.
pub open spec fn param_text(name: Seq<char>, ty: Option<Seq<char>>) -> Seq<char> {
    match ty {
        Some(t) => name + ": "@ + t,
        None => name,
    }
}

/// The text of a function type from the texts of its parts.
pub open spec fn function_text(is_async: bool, params: Seq<Seq<char>>, ret: Option<Seq<char>>) -> Seq<
    char,
> {
    let head = if is_async {
        "async fun("@
    } else {
        "fun("@
    };
    match ret {
        Some(r) => head + join(params, ", "@) + ") -> "@ + r,
        None => head + join(params, ", "@) + ")"@,
    }
}

/// The text of the type `t` at the level `level`.
///
/// Constants are spelled out at `Detailed` only, doc constants always. The
/// parts of a compound type are rendered one level lower. A signature is
/// looked up in the database and rendered from its parameters and returns;
/// at `Minimal`, or where the database does not hold it, it reads `fun`,
/// so that a signature which mentions itself is rendered to a bounded depth.
pub open spec fn humanize(db: DatabaseView, t: TypeView, level: RenderLevel) -> Seq<char>
    decreases level.rank(), 0nat, t,
{
    match t {
        TypeView::Any => "any"@,
        TypeView::Nil => "nil"@,
        TypeView::Boolean => "boolean"@,
        TypeView::String => "string"@,
        TypeView::Integer => "integer"@,
        TypeView::Number => "number"@,
        TypeView::Function => "function"@,
        TypeView::SelfInfer => "self"@,
        TypeView::IntegerConst(i) => if level == RenderLevel::Detailed {
            integer_text(i)
        } else {
            "integer"@
        },
        TypeView::FloatConst(s) => if level == RenderLevel::Detailed {
            s
        } else {
            "number"@
        },
        TypeView::StringConst(s) => if level == RenderLevel::Detailed {
            quoted(s)
        } else {
            "string"@
        },
        TypeView::DocIntegerConst(i) => integer_text(i),
        TypeView::DocStringConst(s) => quoted(s),
        TypeView::Ref(name) => name,
        TypeView::Generic { base, params } => base + "<"@ + join(
            humanize_all(db, params, level.lower()),
            ", "@,
        ) + ">"@,
        TypeView::Union(members) => union_text(
            humanize_all(db, members, level.lower()).take(shown(members.len(), level)),
            members.len() > level.union_limit(),
        ),
        TypeView::MultiLineUnion(branches) => union_text(
            humanize_branches(db, branches, level.lower()).take(shown(branches.len(), level)),
            branches.len() > level.union_limit(),
        ),
        TypeView::DocFunction(f) => humanize_function(db, *f, level),
        TypeView::Signature(id) => if level == RenderLevel::Minimal {
            "fun"@
        } else {
            match find_signature(db.signatures, id) {
                Some(sig) => humanize_signature(db, sig, level.lower()),
                None => "fun"@,
            }
        },
        TypeView::TplRef { tpl_id, name } => name,
        TypeView::StrTplRef { prefix, name, suffix, tpl_id } => prefix + "`"@ + name + "`"@
            + suffix,
    }
}

/// How many of `len` union members are shown at `level`.
pub open spec fn shown(len: nat, level: RenderLevel) -> int {
    if len <= level.union_limit() {
        len as int
    } else {
        level.union_limit() as int
    }
}

/// The texts of the types `ts`, each at `level`.
pub open spec fn humanize_all(db: DatabaseView, ts: Seq<TypeView>, level: RenderLevel) -> Seq<
    Seq<char>,
>
    decreases level.rank(), 0nat, ts,
{
    Seq::new(
        ts.len(),
        |i: int|
            if 0 <= i < ts.len() {
                humanize(db, ts[i], level)
            } else {
                Seq::empty()
            },
    )
}

/// The texts of the types of the branches `bs`, each at `level`.
pub open spec fn humanize_branches(
    db: DatabaseView,
    bs: Seq<(TypeView, Option<Seq<char>>)>,
    level: RenderLevel,
) -> Seq<Seq<char>>
    decreases level.rank(), 0nat, bs,
{
    Seq::new(
        bs.len(),
        |i: int|
            if 0 <= i < bs.len() {
                humanize(db, bs[i].0, level)
            } else {
                Seq::empty()
            },
    )
}

/// The texts of the parameters `ps`, their types at `level`.
pub open spec fn humanize_params(
    db: DatabaseView,
    ps: Seq<(Seq<char>, Option<TypeView>)>,
    level: RenderLevel,
) -> Seq<Seq<char>>
    decreases level.rank(), 0nat, ps,
{
    Seq::new(
        ps.len(),
        |i: int|
            if 0 <= i < ps.len() {
                param_text(
                    ps[i].0,
                    match ps[i].1 {
                        Some(t) => Some(humanize(db, t, level)),
                        None => None,
                    },
                )
            } else {
                Seq::empty()
            },
    )
}

/// The text of a function type, its parts one level below `level`.
pub open spec fn humanize_function(db: DatabaseView, f: FunctionTypeView, level: RenderLevel) -> Seq<
    char,
>
    decreases level.rank(), 0nat, f,
{
    function_text(
        f.is_async,
        humanize_params(db, f.params, level.lower()),
        if f.ret is Nil {
            None
        } else {
            Some(humanize(db, f.ret, level.lower()))
        },
    )
}

/// The types of the documented returns `rs`.
pub open spec fn return_types(rs: Seq<DocReturnInfoView>) -> Seq<TypeView> {
    rs.map_values(|r: DocReturnInfoView| r.type_ref)
}

/// The text of a signature, its parts at `level`.
pub open spec fn humanize_signature(db: DatabaseView, sig: SignatureView, level: RenderLevel) -> Seq<
    char,
>
    decreases level.rank(), 2nat, sig,
{
    function_text(
        sig.is_async,
        humanize_params(db, sig.params, level),
        if sig.returns_nil() {
            None
        } else {
            Some(join(humanize_all(db, return_types(sig.return_docs), level), ", "@))
        },
    )
}

/// The text of a union from the texts of its shown members.
pub fn format_union(parts: &Vec<String>, truncated: bool) -> (out: String)
    ensures
        out@ == union_text(views(parts@), truncated),
{
    let body = join_strings(parts, "|");
    if truncated {
        let mut out = String::from_str("(");
        out.append(body.as_str());
        out.append("...)");
        out
    } else if parts.len() <= 1 {
        body
    } else {
        let mut out = String::from_str("(");
        out.append(body.as_str());
        out.append(")");
        out
    }
}

/// The text of a parameter from its name and the text of its type.
pub fn format_param(name: &str, ty: Option<String>) -> (out: String)
    ensures
        out@ == param_text(
            name@,
            match ty {
                Some(t) => Some(t@),
                None => None,
            },
        ),
{
    let mut out = String::from_str(name);
    match ty {
        Some(t) => {
            out.append(": ");
            out.append(t.as_str());
        },
        None => {},
    }
    out
}

/// The text of a function type from the texts of its parts.
pub fn format_function(is_async: bool, params: &Vec<String>, ret: Option<String>) -> (out: String)
    ensures
        out@ == function_text(
            is_async,
            views(params@),
            match ret {
                Some(r) => Some(r@),
                None => None,
            },
        ),
{
    let mut out = if is_async {
        String::from_str("async fun(")
    } else {
        String::from_str("fun(")
    };
    let list = join_strings(params, ", ");
    out.append(list.as_str());
    match ret {
        Some(r) => {
            out.append(") -> ");
            out.append(r.as_str());
        },
        None => {
            out.append(")");
        },
    }
    out
}

/// `s` between double quotes.
pub fn quote(s: &str) -> (out: String)
    ensures
        out@ == quoted(s@),
{
    let mut out = String::from_str("\"");
    out.append(s);
    out.append("\"");
    out
}

/// Renders the type `t` at the level `level`.
pub fn humanize_type(db: &Database, t: &Type, level: RenderLevel) -> (out: String)
    ensures
        out@ == humanize(db@, t@, level),
    decreases level.rank(), 0nat, t,
{
    match t {
        Type::Any => String::from_str("any"),
        Type::Nil => String::from_str("nil"),
        Type::Boolean => String::from_str("boolean"),
        Type::String => String::from_str("string"),
        Type::Integer => String::from_str("integer"),
        Type::Number => String::from_str("number"),
        Type::Function => String::from_str("function"),
        Type::SelfInfer => String::from_str("self"),
        Type::IntegerConst(i) => {
            if level == RenderLevel::Detailed {
                integer_to_string(*i)
            } else {
                String::from_str("integer")
            }
        },
        Type::FloatConst(s) => {
            if level == RenderLevel::Detailed {
                s.clone()
            } else {
                String::from_str("number")
            }
        },
        Type::StringConst(s) => {
            if level == RenderLevel::Detailed {
                quote(s.as_str())
            } else {
                String::from_str("string")
            }
        },
        Type::DocIntegerConst(i) => integer_to_string(*i),
        Type::DocStringConst(s) => quote(s.as_str()),
        Type::Ref(id) => id.name.clone(),
        Type::Generic(g) => {
            let parts = humanize_types(db, &g.params, level.next_level(), g.params.len());
            proof {
                let all = humanize_all(db@, types_view(g.params@), level.lower());
                assert(all.take(g.params.len() as int) =~= all);
            }
            let mut out = g.base.name.clone();
            out.append("<");
            let list = join_strings(&parts, ", ");
            out.append(list.as_str());
            out.append(">");
            out
        },
        Type::Union(members) => {
            let limit = level.get_union_limit();
            let n = if members.len() <= limit {
                members.len()
            } else {
                limit
            };
            let parts = humanize_types(db, members, level.next_level(), n);
            format_union(&parts, members.len() > limit)
        },
        Type::MultiLineUnion(branches) => {
            let limit = level.get_union_limit();
            let n = if branches.len() <= limit {
                branches.len()
            } else {
                limit
            };
            let parts = humanize_branch_types(db, branches, level.next_level(), n);
            format_union(&parts, branches.len() > limit)
        },
        Type::DocFunction(f) => humanize_function_type(db, &**f, level),
        Type::Signature(id) => {
            if level == RenderLevel::Minimal {
                String::from_str("fun")
            } else {
                match db.get_signature_index().get(id) {
                    Some(sig) => humanize_signature_type(db, sig, level.next_level()),
                    None => String::from_str("fun"),
                }
            }
        },
        Type::TplRef(tpl) => tpl.name.clone(),
        Type::StrTplRef(tpl) => {
            let mut out = tpl.prefix.clone();
            out.append("`");
            out.append(tpl.name.as_str());
            out.append("`");
            out.append(tpl.suffix.as_str());
            out
        },
    }
}

/// How many of `len` members are rendered where `n` are asked for.
pub open spec fn at_most(n: usize, len: nat) -> int {
    if n <= len {
        n as int
    } else {
        len as int
    }
}

/// Renders the first `n` of the types `ts`, or all where there are fewer,
/// each at `level`.
pub fn humanize_types(db: &Database, ts: &Vec<Type>, level: RenderLevel, n: usize) -> (out: Vec<
    String,
>)
    ensures
        views(out@) == humanize_all(db@, types_view(ts@), level).take(at_most(n, ts@.len())),
    decreases level.rank(), 0nat, ts,
{
    let n = if n <= ts.len() {
        n
    } else {
        ts.len()
    };
    let mut out: Vec<String> = Vec::new();
    let mut i: usize = 0;
    while i < n
        invariant
            i <= n <= ts.len(),
            views(out@) == humanize_all(db@, types_view(ts@), level).take(i as int),
        decreases n - i,
    {
        let text = humanize_type(db, &ts[i], level);
        proof {
            let all = humanize_all(db@, types_view(ts@), level);
            assert(types_view(ts@)[i as int] == ts@[i as int]@);
            assert(all[i as int] == text@);
            lemma_take_push(all, i as int);
            lemma_views_push(out@, text);
        }
        out.push(text);
        i += 1;
    }
    out
}

/// Renders the types of the first `n` of the branches `bs`, or of all
/// where there are fewer, each at `level`.
pub fn humanize_branch_types(
    db: &Database,
    bs: &Vec<(Type, Option<String>)>,
    level: RenderLevel,
    n: usize,
) -> (out: Vec<String>)
    ensures
        views(out@) == humanize_branches(db@, branches_view(bs@), level).take(
            at_most(n, bs@.len()),
        ),
    decreases level.rank(), 0nat, bs,
{
    let n = if n <= bs.len() {
        n
    } else {
        bs.len()
    };
    let mut out: Vec<String> = Vec::new();
    let mut i: usize = 0;
    while i < n
        invariant
            i <= n <= bs.len(),
            views(out@) == humanize_branches(db@, branches_view(bs@), level).take(i as int),
        decreases n - i,
    {
        let text = humanize_type(db, &bs[i].0, level);
        proof {
            let all = humanize_branches(db@, branches_view(bs@), level);
            assert(branches_view(bs@)[i as int].0 == bs@[i as int].0@);
            assert(all[i as int] == text@);
            lemma_take_push(all, i as int);
            lemma_views_push(out@, text);
        }
        out.push(text);
        i += 1;
    }
    out
}

/// Renders the parameters `ps`, their types at `level`.
pub fn humanize_param_list(db: &Database, ps: &Vec<(String, Option<Type>)>, level: RenderLevel) -> (out:
    Vec<String>)
    ensures
        views(out@) == humanize_params(db@, params_view(ps@), level),
    decreases level.rank(), 0nat, ps,
{
    let mut out: Vec<String> = Vec::new();
    let mut i: usize = 0;
    while i < ps.len()
        invariant
            i <= ps.len(),
            views(out@) == humanize_params(db@, params_view(ps@), level).take(i as int),
        decreases ps.len() - i,
    {
        let ty = match &ps[i].1 {
            Some(t) => Some(humanize_type(db, t, level)),
            None => None,
        };
        let text = format_param(ps[i].0.as_str(), ty);
        proof {
            let all = humanize_params(db@, params_view(ps@), level);
            assert(params_view(ps@)[i as int] == (ps@[i as int].0@, opt_type_view(ps@[i as int].1)));
            assert(all[i as int] == text@);
            lemma_take_push(all, i as int);
            lemma_views_push(out@, text);
        }
        out.push(text);
        i += 1;
    }
    assert(humanize_params(db@, params_view(ps@), level).take(ps.len() as int)
        =~= humanize_params(db@, params_view(ps@), level));
    out
}

/// Renders a function type, its parts one level below `level`.
pub fn humanize_function_type(db: &Database, f: &FunctionType, level: RenderLevel) -> (out: String)
    ensures
        out@ == humanize_function(db@, f@, level),
    decreases level.rank(), 0nat, f,
{
    let params = humanize_param_list(db, &f.params, level.next_level());
    let ret = if f.ret.is_nil() {
        None
    } else {
        Some(humanize_type(db, &f.ret, level.next_level()))
    };
    format_function(f.is_async, &params, ret)
}

/// Renders the types of the documented returns `rs`, each at `level`.
pub fn humanize_return_types(db: &Database, rs: &Vec<DocReturnInfo>, level: RenderLevel) -> (out:
    Vec<String>)
    ensures
        views(out@) == humanize_all(
            db@,
            return_types(rs@.map_values(|r: DocReturnInfo| r@)),
            level,
        ),
    decreases level.rank(), 1nat, rs,
{
    let ghost all = humanize_all(db@, return_types(rs@.map_values(|r: DocReturnInfo| r@)), level);
    let mut out: Vec<String> = Vec::new();
    let mut i: usize = 0;
    while i < rs.len()
        invariant
            i <= rs.len(),
            all == humanize_all(db@, return_types(rs@.map_values(|r: DocReturnInfo| r@)), level),
            views(out@) == all.take(i as int),
        decreases rs.len() - i,
    {
        let text = humanize_type(db, &rs[i].type_ref, level);
        proof {
            assert(return_types(rs@.map_values(|r: DocReturnInfo| r@))[i as int]
                == rs@[i as int].type_ref@);
            assert(all[i as int] == text@);
            lemma_take_push(all, i as int);
            lemma_views_push(out@, text);
        }
        out.push(text);
        i += 1;
    }
    assert(all.take(rs.len() as int) =~= all);
    out
}

/// Renders a signature, its parts at `level`.
pub fn humanize_signature_type(db: &Database, sig: &Signature, level: RenderLevel) -> (out: String)
    ensures
        out@ == humanize_signature(db@, sig@, level),
    decreases level.rank(), 2nat, sig,
{
    let params = humanize_param_list(db, &sig.params, level);
    let ret = if sig.returns_nil() {
        None
    } else {
        let rets = humanize_return_types(db, &sig.return_docs, level);
        Some(join_strings(&rets, ", "))
    };
    format_function(sig.is_async, &params, ret)
}

/// Rendering is a function of the database, the type and the level: two
/// texts that both render one type at one level are the same text.
pub proof fn rendering_is_deterministic(
    db: DatabaseView,
    t: TypeView,
    level: RenderLevel,
    first: Seq<char>,
    second: Seq<char>,
)
    requires
        first == humanize(db, t, level),
        second == humanize(db, t, level),
    ensures
        first == second,
{
}

/// At the lowest level no signature is looked up, so the text of a type
/// does not depend on what the database holds: this is where the rendering
/// of a signature that mentions itself, at whatever level it starts, comes
/// to an end.
pub proof fn minimal_rendering_ignores_database(db1: DatabaseView, db2: DatabaseView, t: TypeView)
    ensures
        humanize(db1, t, RenderLevel::Minimal) == humanize(db2, t, RenderLevel::Minimal),
    decreases t,
{
    match t {
        TypeView::Generic { base, params } => {
            minimal_rendering_of_all(db1, db2, params);
        },
        TypeView::Union(members) => {
            minimal_rendering_of_all(db1, db2, members);
        },
        TypeView::MultiLineUnion(branches) => {
            assert forall|i: int| 0 <= i < branches.len() implies humanize(
                db1,
                branches[i].0,
                RenderLevel::Minimal,
            ) == humanize(db2, branches[i].0, RenderLevel::Minimal) by {
                minimal_rendering_ignores_database(db1, db2, branches[i].0);
            }
            assert(humanize_branches(db1, branches, RenderLevel::Minimal) =~= humanize_branches(
                db2,
                branches,
                RenderLevel::Minimal,
            ));
        },
        TypeView::DocFunction(f) => {
            let ps = f.params;
            assert forall|i: int| 0 <= i < ps.len() implies humanize_params(
                db1,
                ps,
                RenderLevel::Minimal,
            )[i] == humanize_params(db2, ps, RenderLevel::Minimal)[i] by {
                match ps[i].1 {
                    Some(pt) => {
                        minimal_rendering_ignores_database(db1, db2, pt);
                    },
                    None => {},
                }
            }
            assert(humanize_params(db1, ps, RenderLevel::Minimal) =~= humanize_params(
                db2,
                ps,
                RenderLevel::Minimal,
            ));
            minimal_rendering_ignores_database(db1, db2, f.ret);
        },
        _ => {},
    }
}

/// At the lowest level the texts of a list of types do not depend on what
/// the database holds.
pub proof fn minimal_rendering_of_all(db1: DatabaseView, db2: DatabaseView, ts: Seq<TypeView>)
    ensures
        humanize_all(db1, ts, RenderLevel::Minimal) == humanize_all(db2, ts, RenderLevel::Minimal),
    decreases ts,
{
    assert forall|i: int| 0 <= i < ts.len() implies humanize(db1, ts[i], RenderLevel::Minimal)
        == humanize(db2, ts[i], RenderLevel::Minimal) by {
        minimal_rendering_ignores_database(db1, db2, ts[i]);
    }
    assert(humanize_all(db1, ts, RenderLevel::Minimal) =~= humanize_all(
        db2,
        ts,
        RenderLevel::Minimal,
    ));
}

} // verus!
