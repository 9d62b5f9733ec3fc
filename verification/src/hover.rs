//! Rendering types for a hover: constants with their value, unions member
//! by member, and multi-line unions as a name with an expansion beside it.

use crate::db::{
    find_decl, find_member, find_property, find_std_description, find_type_decl, Database,
    DatabaseView, DeclKind, Member, MemberView,
};
use crate::hover_builder::{
    lemma_add_expansion_is_list, lemma_add_expansions_twice, DescriptionInfo, DescriptionInfoView,
    HoverBuilder,
};
use crate::humanize::{
    format_union, humanize, humanize_branch_types, humanize_branches, humanize_type, shown,
    union_text, RenderLevel,
};
use crate::ids::{FileId, MemberOwner, MemberOwnerView, SemanticDeclId, SignatureId, SourceRange};
use crate::semantic::{SemanticModel, SemanticModelView};
use crate::syntax::{find_local_name, find_node, SyntaxNode, SyntaxNodeView};
use crate::text::{
    join, join_strings, lemma_take_push, lemma_views_push, opt_view, starts_with, views,
};
use crate::types::{branches_view, clone_opt_string, types_view, Type, TypeView};
use vstd::prelude::*;

verus! {

/// The hover text of a constant: its base type and its value; of any
/// other type, the type in full detail.
pub open spec fn const_text(db: DatabaseView, t: TypeView) -> Seq<char> {
    match t {
        TypeView::IntegerConst(_) | TypeView::DocIntegerConst(_) => "integer = "@ + humanize(
            db,
            t,
            RenderLevel::Detailed,
        ),
        TypeView::FloatConst(_) => "number = "@ + humanize(db, t, RenderLevel::Detailed),
        TypeView::StringConst(_) | TypeView::DocStringConst(_) => "string = "@ + humanize(
            db,
            t,
            RenderLevel::Detailed,
        ),
        _ => humanize(db, t, RenderLevel::Detailed),
    }
}

/// Renders a constant with its base type and its value.
pub fn hover_const_type(db: &Database, typ: &Type) -> (out: String)
    ensures
        out@ == const_text(db@, typ@),
{
    let const_value = humanize_type(db, typ, RenderLevel::Detailed);
    match typ {
        Type::IntegerConst(_) | Type::DocIntegerConst(_) => {
            let mut out = String::from_str("integer = ");
            out.append(const_value.as_str());
            out
        },
        Type::FloatConst(_) => {
            let mut out = String::from_str("number = ");
            out.append(const_value.as_str());
            out
        },
        Type::StringConst(_) | Type::DocStringConst(_) => {
            let mut out = String::from_str("string = ");
            out.append(const_value.as_str());
            out
        },
        _ => const_value,
    }
}

/// The line of a function: label and `async` mark, the mark first where
/// the label begins with `function`; then name, parameters in brackets, and
/// returns.
pub open spec fn function_line(
    type_label: Seq<char>,
    async_label: Seq<char>,
    full_name: Seq<char>,
    params: Seq<char>,
    rets: Seq<char>,
) -> Seq<char> {
    if "function"@.is_prefix_of(type_label) {
        async_label + type_label + full_name + "("@ + params + ")"@ + rets
    } else {
        type_label + async_label + full_name + "("@ + params + ")"@ + rets
    }
}

/// Puts the line of a function together.
pub fn format_function_type(
    type_label: &str,
    async_label: &str,
    full_name: String,
    params: String,
    rets: String,
) -> (out: String)
    ensures
        out@ == function_line(type_label@, async_label@, full_name@, params@, rets@),
{
    let mut out = if starts_with(type_label, "function") {
        let mut prefix = String::from_str(async_label);
        prefix.append(type_label);
        prefix
    } else {
        let mut prefix = String::from_str(type_label);
        prefix.append(async_label);
        prefix
    };
    out.append(full_name.as_str());
    out.append("(");
    out.append(params.as_str());
    out.append(")");
    out.append(rets.as_str());
    out
}

/// How many branches the summary of an unnamed multi-line union shows.
pub const SUMMARY_BRANCHES: usize = 10;

/// The name under which an unnamed multi-line union is shown: its first
/// ten branch types between brackets, with bars between them.
pub open spec fn union_summary(db: DatabaseView, branches: Seq<(TypeView, Option<Seq<char>>)>) -> Seq<
    char,
> {
    "("@ + join(
        humanize_branches(db, branches, RenderLevel::Simple).take(
            if branches.len() <= SUMMARY_BRANCHES {
                branches.len() as int
            } else {
                SUMMARY_BRANCHES as int
            },
        ),
        "|"@,
    ) + ")"@
}

/// The line of one branch in the expansion of a multi-line union.
pub open spec fn branch_line(db: DatabaseView, branch: (TypeView, Option<Seq<char>>)) -> Seq<char> {
    match branch.1 {
        Some(description) => "    | "@ + humanize(db, branch.0, RenderLevel::Minimal) + " -- "@
            + description + "\n"@,
        None => "    | "@ + humanize(db, branch.0, RenderLevel::Minimal) + "\n"@,
    }
}

/// The expansion of a multi-line union shown as `name`: a header, then the
/// lines of the first `n` branches.
pub open spec fn expansion_text(
    db: DatabaseView,
    branches: Seq<(TypeView, Option<Seq<char>>)>,
    name: Seq<char>,
    n: nat,
) -> Seq<char>
    decreases n,
{
    if n == 0 {
        name + ":\n"@
    } else {
        expansion_text(db, branches, name, (n - 1) as nat) + branch_line(db, branches[n - 1])
    }
}

/// The name under which a multi-line union is shown: its own where it has
/// one, else its summary.
pub open spec fn union_name(
    db: DatabaseView,
    branches: Seq<(TypeView, Option<Seq<char>>)>,
    ty_name: Option<Seq<char>>,
) -> Seq<char> {
    match ty_name {
        Some(name) => name,
        None => union_summary(db, branches),
    }
}

/// Renders a multi-line union: adds its expansion to the builder and
/// returns the name under which it is shown.
pub fn hover_multi_line_union_type(
    builder: &mut HoverBuilder,
    db: &Database,
    multi_union: &Vec<(Type, Option<String>)>,
    ty_name: Option<&str>,
) -> (r: Option<String>)
    ensures
        r matches Some(name) && name@ == union_name(
            db@,
            branches_view(multi_union@),
            match ty_name {
                Some(n) => Some(n@),
                None => None,
            },
        ),
        final(builder)@ == old(builder)@.add_expansion(
            expansion_text(
                db@,
                branches_view(multi_union@),
                r.unwrap()@,
                multi_union.len() as nat,
            ),
        ),
{
    let ghost branches = branches_view(multi_union@);
    let shown_name = match ty_name {
        Some(name) => String::from_str(name),
        None => {
            let n = if multi_union.len() <= SUMMARY_BRANCHES {
                multi_union.len()
            } else {
                SUMMARY_BRANCHES
            };
            let parts = humanize_branch_types(db, multi_union, RenderLevel::Simple, n);
            let mut summary = String::from_str("(");
            let body = join_strings(&parts, "|");
            summary.append(body.as_str());
            summary.append(")");
            summary
        },
    };
    let mut text = shown_name.clone();
    text.append(":\n");
    let mut i: usize = 0;
    while i < multi_union.len()
        invariant
            i <= multi_union.len(),
            branches == branches_view(multi_union@),
            text@ == expansion_text(db@, branches, shown_name@, i as nat),
        decreases multi_union.len() - i,
    {
        let type_humanize_text = humanize_type(db, &multi_union[i].0, RenderLevel::Minimal);
        assert(branches[i as int] == (multi_union@[i as int].0@, opt_view(multi_union@[i as int].1)));
        text.append("    | ");
        text.append(type_humanize_text.as_str());
        match &multi_union[i].1 {
            Some(description) => {
                text.append(" -- ");
                text.append(description.as_str());
            },
            None => {},
        }
        text.append("\n");
        assert(text@ =~= expansion_text(db@, branches, shown_name@, i as nat) + branch_line(
            db@,
            branches[i as int],
        ));
        i += 1;
    }
    builder.add_type_expansion(text);
    Some(shown_name)
}

/// The multi-line union that `t` stands for by name: where `t` refers to
/// an alias whose origin is a multi-line union, the alias's full name and
/// the branches.
pub open spec fn aliased_union(db: DatabaseView, t: TypeView) -> Option<
    (Seq<char>, Seq<(TypeView, Option<Seq<char>>)>),
> {
    match t {
        TypeView::Ref(name) => match find_type_decl(db.types, name) {
            Some(d) => match d.origin() {
                Some(TypeView::MultiLineUnion(branches)) => Some((d.name, branches)),
                _ => None,
            },
            None => None,
        },
        _ => None,
    }
}

/// The level at which a type is rendered where the hover has no form of
/// its own for it.
pub open spec fn level_or_simple(fallback: Option<RenderLevel>) -> RenderLevel {
    match fallback {
        Some(level) => level,
        None => RenderLevel::Simple,
    }
}

/// The hover text of a type.
///
/// A multi-line union, written out or reached through an alias, is shown
/// by name. A union is shown member by member, each member as a hover text
/// of its own. Every other type is rendered at the fallback level, or at
/// `Simple` where none is given.
pub open spec fn hover_text(db: DatabaseView, t: TypeView, fallback: Option<RenderLevel>) -> Seq<char>
    decreases t,
{
    match t {
        TypeView::Ref(_) => match aliased_union(db, t) {
            Some((name, branches)) => name,
            None => humanize(db, t, level_or_simple(fallback)),
        },
        TypeView::MultiLineUnion(branches) => union_summary(db, branches),
        TypeView::Union(members) => union_text(
            hover_texts(db, members, RenderLevel::Detailed.lower()).take(
                shown(members.len(), RenderLevel::Detailed),
            ),
            members.len() > RenderLevel::Detailed.union_limit(),
        ),
        _ => humanize(db, t, level_or_simple(fallback)),
    }
}

/// The hover texts of the members of a union, with `level` as their
/// fallback level.
pub open spec fn hover_texts(db: DatabaseView, ts: Seq<TypeView>, level: RenderLevel) -> Seq<
    Seq<char>,
>
    decreases ts,
{
    Seq::new(
        ts.len(),
        |i: int|
            if 0 <= i < ts.len() {
                hover_text(db, ts[i], Some(level))
            } else {
                Seq::empty()
            },
    )
}

/// The expansions that the hover text of a type brings with it: one for
/// each multi-line union shown by name, in the order in which they are met.
pub open spec fn hover_expansions(db: DatabaseView, t: TypeView) -> Seq<Seq<char>>
    decreases t, 0int,
{
    match t {
        TypeView::Ref(_) => match aliased_union(db, t) {
            Some((name, branches)) => seq![expansion_text(db, branches, name, branches.len())],
            None => Seq::empty(),
        },
        TypeView::MultiLineUnion(branches) => seq![
            expansion_text(db, branches, union_summary(db, branches), branches.len()),
        ],
        TypeView::Union(members) => members_expansions(
            db,
            members,
            shown(members.len(), RenderLevel::Detailed),
        ),
        _ => Seq::empty(),
    }
}

/// The expansions that the first `n` members of a union bring with them.
pub open spec fn members_expansions(db: DatabaseView, ts: Seq<TypeView>, n: int) -> Seq<Seq<char>>
    decreases ts, n,
{
    if n <= 0 || n > ts.len() {
        Seq::empty()
    } else {
        members_expansions(db, ts, n - 1) + hover_expansions(db, ts[n - 1])
    }
}

/// Renders a type for a hover. The expansions of the multi-line unions it
/// shows by name are added to the builder.
pub fn hover_humanize_type(
    builder: &mut HoverBuilder,
    ty: &Type,
    fallback_level: Option<RenderLevel>,
) -> (out: String)
    ensures
        out@ == hover_text(old(builder)@.model.db, ty@, fallback_level),
        final(builder)@ == old(builder)@.add_expansions(
            hover_expansions(old(builder)@.model.db, ty@),
        ),
    decreases ty, 0int,
{
    let db = builder.semantic_model.get_db();
    let level = match fallback_level {
        Some(l) => l,
        None => RenderLevel::Simple,
    };
    match ty {
        Type::Ref(type_decl_id) => {
            if let Some(type_decl) = db.get_type_index().get_type_decl(type_decl_id) {
                if let Some(Type::MultiLineUnion(multi_union)) = type_decl.get_alias_origin() {
                    proof {
                        lemma_add_expansion_is_list(
                            builder@,
                            expansion_text(
                                db@,
                                branches_view(multi_union@),
                                type_decl@.name,
                                multi_union.len() as nat,
                            ),
                        );
                    }
                    let name = hover_multi_line_union_type(
                        builder,
                        db,
                        multi_union,
                        Some(type_decl.get_full_name()),
                    );
                    return name.unwrap();
                }
            }
            humanize_type(db, ty, level)
        },
        Type::MultiLineUnion(multi_union) => {
            proof {
                lemma_add_expansion_is_list(
                    builder@,
                    expansion_text(
                        db@,
                        branches_view(multi_union@),
                        union_summary(db@, branches_view(multi_union@)),
                        multi_union.len() as nat,
                    ),
                );
            }
            let name = hover_multi_line_union_type(builder, db, multi_union, None);
            name.unwrap()
        },
        Type::Union(members) => hover_union_type(builder, members, RenderLevel::Detailed),
        _ => humanize_type(db, ty, level),
    }
}

/// Renders a union for a hover: as many members as `level` shows, each as
/// a hover text of its own, one level below `level` where it has no form of
/// its own.
pub fn hover_union_type(builder: &mut HoverBuilder, union: &Vec<Type>, level: RenderLevel) -> (out:
    String)
    ensures
        out@ == union_text(
            hover_texts(old(builder)@.model.db, types_view(union@), level.lower()).take(
                shown(union.len() as nat, level),
            ),
            union.len() > level.union_limit(),
        ),
        final(builder)@ == old(builder)@.add_expansions(
            members_expansions(
                old(builder)@.model.db,
                types_view(union@),
                shown(union.len() as nat, level),
            ),
        ),
    decreases union, 1int,
{
    let ghost db = builder@.model.db;
    let ghost members = types_view(union@);
    let ghost all = hover_texts(db, members, level.lower());
    let limit = level.get_union_limit();
    let n = if union.len() <= limit {
        union.len()
    } else {
        limit
    };
    let member_level = level.next_level();
    let mut parts: Vec<String> = Vec::new();
    let mut i: usize = 0;
    while i < n
        invariant
            i <= n <= union.len(),
            member_level == level.lower(),
            members == types_view(union@),
            all == hover_texts(db, members, level.lower()),
            db == old(builder)@.model.db,
            builder@.model.db == db,
            views(parts@) == all.take(i as int),
            builder@ == old(builder)@.add_expansions(members_expansions(db, members, i as int)),
        decreases n - i,
    {
        proof {
            assert(members[i as int] == union@[i as int]@);
            lemma_add_expansions_twice(
                old(builder)@,
                members_expansions(db, members, i as int),
                hover_expansions(db, members[i as int]),
            );
        }
        let text = hover_humanize_type(builder, &union[i], Some(member_level));
        proof {
            assert(all[i as int] == text@);
            lemma_take_push(all, i as int);
            lemma_views_push(parts@, text);
        }
        parts.push(text);
        i += 1;
    }
    format_union(&parts, union.len() > limit)
}

/// The name of the global that the prefix of the member `member` refers
/// to: there is one where the member is declared by an index expression
/// whose prefix refers to a declaration that is known and global.
pub open spec fn prefix_global_name(model: SemanticModelView, member: MemberView) -> Option<
    Seq<char>,
> {
    match model.db.vfs.syntax_tree(member.id.file_id) {
        Some(tree) => match find_node(tree, member.id.syntax_id) {
            Some(SyntaxNodeView::Index(index_expr)) => match index_expr.prefix {
                Some(prefix) => match model.cache.decl_ref(member.id.file_id, prefix) {
                    Some(SemanticDeclId::LuaDecl(id)) => match find_decl(model.db.decls, id) {
                        Some(decl) => if decl.kind == DeclKind::Global {
                            Some(decl.name)
                        } else {
                            None
                        },
                        None => None,
                    },
                    _ => None,
                },
                None => None,
            },
            _ => None,
        },
        None => None,
    }
}

/// Says whether the prefix of the member is a global, and if so, which.
pub fn infer_prefix_global_name<'a>(semantic_model: &'a SemanticModel, member: &Member) -> (r:
    Option<&'a str>)
    ensures
        match r {
            Some(name) => prefix_global_name(semantic_model@, member@) == Some(name@),
            None => prefix_global_name(semantic_model@, member@) is None,
        },
{
    let db = semantic_model.get_db();
    let root = match db.get_vfs().get_syntax_tree(&member.get_file_id()) {
        Some(t) => t,
        None => {
            return None;
        },
    };
    let cur_node = match root.get_node(&member.get_syntax_id()) {
        Some(n) => n,
        None => {
            return None;
        },
    };
    match cur_node {
        SyntaxNode::Index(index_expr) => {
            let prefix = match index_expr.prefix {
                Some(p) => p,
                None => {
                    return None;
                },
            };
            match semantic_model.find_decl_in(member.get_file_id(), prefix) {
                Some(SemanticDeclId::LuaDecl(id)) => {
                    match db.get_decl_index().get_decl(&id) {
                        Some(decl) => {
                            if decl.is_global() {
                                Some(decl.get_name())
                            } else {
                                None
                            }
                        },
                        None => None,
                    }
                },
                _ => None,
            }
        },
        _ => None,
    }
}

/// The name of the local that the element at `range` of the file `file`
/// is bound to.
pub open spec fn element_owner_name(db: DatabaseView, file: FileId, range: SourceRange) -> Option<
    Seq<char>,
> {
    match db.vfs.syntax_tree(file) {
        Some(tree) => find_local_name(tree, range),
        None => None,
    }
}

/// Finds the name of the local that an element, such as a table literal,
/// is bound to.
pub fn extract_owner_name_from_element(
    semantic_model: &SemanticModel,
    file_id: FileId,
    range: SourceRange,
) -> (r: Option<String>)
    ensures
        opt_view(r) == element_owner_name(semantic_model@.db, file_id, range),
{
    let root = match semantic_model.get_db().get_vfs().get_syntax_tree(&file_id) {
        Some(t) => t,
        None => {
            return None;
        },
    };
    match root.get_local_name(range) {
        Some(name) => Some(String::from_str(name)),
        None => None,
    }
}

/// The signature that documents the field `member`: there is one where the
/// member is declared by a doc tag whose type is written as a function
/// type.
pub open spec fn field_signature_id(db: DatabaseView, member: MemberView) -> Option<SignatureId> {
    match db.vfs.syntax_tree(member.id.file_id) {
        Some(tree) => match find_node(tree, member.id.syntax_id) {
            Some(SyntaxNodeView::DocTagField(field)) => match field.func_position {
                Some(position) => Some(SignatureId { file_id: member.id.file_id, position }),
                None => None,
            },
            _ => None,
        },
        None => None,
    }
}

/// Finds the signature that documents a field declared in a doc comment.
pub fn try_extract_signature_id_from_field(semantic_model: &SemanticModel, member: &Member) -> (r:
    Option<SignatureId>)
    ensures
        r == field_signature_id(semantic_model@.db, member@),
{
    let root = match semantic_model.get_db().get_vfs().get_syntax_tree(&member.get_file_id()) {
        Some(t) => t,
        None => {
            return None;
        },
    };
    match root.get_node(&member.get_syntax_id()) {
        Some(SyntaxNode::DocTagField(field)) => match field.func_position {
            Some(position) => Some(SignatureId { file_id: member.get_file_id(), position }),
            None => None,
        },
        _ => None,
    }
}

/// `detail`, or what the standard library's documentation says in its
/// place: where `found` is not empty, `found`.
pub open spec fn preferred(found: Seq<char>, detail: Seq<char>) -> Seq<char> {
    if found.len() > 0 {
        found
    } else {
        detail
    }
}

/// The description `detail` of `owner`, unless `owner` belongs to the
/// standard library and its documentation describes it: a member of a type,
/// by the type's name and the member's; a declaration, by its name.
pub open spec fn described(db: DatabaseView, owner: SemanticDeclId, detail: Seq<char>) -> Seq<char> {
    match owner {
        SemanticDeclId::Member(id) => match find_member(db.members, id) {
            Some(member) => match member.owner {
                MemberOwnerView::Type(ty) => if db.vfs.is_std(member.id.file_id) {
                    preferred(
                        find_std_description(db.vfs.std_descriptions, ty, member.key.name()),
                        detail,
                    )
                } else {
                    detail
                },
                _ => detail,
            },
            None => detail,
        },
        SemanticDeclId::LuaDecl(id) => match find_decl(db.decls, id) {
            Some(decl) => if db.vfs.is_std(decl.id.file_id) {
                preferred(find_std_description(db.vfs.std_descriptions, decl.name, None), detail)
            } else {
                detail
            },
            None => detail,
        },
        _ => detail,
    }
}

/// What the documentation says of `owner`: its property's description,
/// references and other tags; `None` where it has no property or the
/// property says nothing.
pub open spec fn description_of(db: DatabaseView, owner: SemanticDeclId) -> Option<
    DescriptionInfoView,
> {
    match find_property(db.properties, owner) {
        Some(property) => {
            let info = DescriptionInfoView {
                description: match property.description {
                    Some(detail) => Some(described(db, owner, detail)),
                    None => None,
                },
                see_content: property.see_content,
                other_content: property.other_content,
            };
            if info.is_empty() {
                None
            } else {
                Some(info)
            }
        },
        None => None,
    }
}

/// Gathers what the documentation says of `property_owner`.
pub fn extract_description_from_property_owner(
    semantic_model: &SemanticModel,
    property_owner: &SemanticDeclId,
) -> (r: Option<DescriptionInfo>)
    ensures
        crate::hover_builder::opt_description_view(r) == description_of(
            semantic_model@.db,
            *property_owner,
        ),
{
    let db = semantic_model.get_db();
    let property = match db.get_property_index().get_property(property_owner) {
        Some(p) => p,
        None => {
            return None;
        },
    };
    let mut result = DescriptionInfo::new();
    if let Some(detail) = &property.description {
        let mut description = detail.clone();
        match property_owner {
            SemanticDeclId::Member(id) => {
                if let Some(member) = db.get_member_index().get_member(id) {
                    if let Some(MemberOwner::Type(ty)) = db.get_member_index().get_current_owner(id) {
                        if db.get_vfs().is_std(&member.get_file_id()) {
                            let std_desc = db.get_vfs().std_description(
                                ty.get_name(),
                                member.get_key().get_name(),
                            );
                            if !std_desc.as_str().is_empty() {
                                description = std_desc;
                            }
                        }
                    }
                }
            },
            SemanticDeclId::LuaDecl(id) => {
                if let Some(decl) = db.get_decl_index().get_decl(id) {
                    if db.get_vfs().is_std(&decl.get_file_id()) {
                        let std_desc = db.get_vfs().std_description(decl.get_name(), None);
                        if !std_desc.as_str().is_empty() {
                            description = std_desc;
                        }
                    }
                }
            },
            _ => {},
        }
        result.description = Some(description);
    }
    result.see_content = clone_opt_string(&property.see_content);
    result.other_content = clone_opt_string(&property.other_content);
    if result.is_empty() {
        None
    } else {
        Some(result)
    }
}

} // verus!
