//! Rendering functions for a hover: the line of a function, its returns,
//! its overloads, and the choice among the candidates that a hovered
//! symbol resolves to.

use crate::db::{
    find_decl, find_member, find_owner, find_signature, Database, DatabaseView, DeclKind,
    DocReturnInfo, DocReturnInfoView, Member, MemberView, Signature, SignatureView,
};
use crate::hover::{
    description_of, element_owner_name, extract_description_from_property_owner,
    extract_owner_name_from_element, field_signature_id, format_function_type, function_line,
    hover_expansions, hover_humanize_type, hover_text, infer_prefix_global_name,
    prefix_global_name, try_extract_signature_id_from_field,
};
use crate::hover_builder::{
    clone_opt_description, lemma_add_expansions_twice, opt_description_view, DescriptionInfo,
    DescriptionInfoView, HoverBuilder, HoverBuilderView,
};
use crate::humanize::{format_param, humanize, humanize_type, param_text, RenderLevel};
use crate::ids::{MemberKey, MemberKeyView, MemberOwner, MemberOwnerView, SemanticDeclId, SignatureId};
use crate::semantic::{is_method_of, SemanticModelView};
use crate::text::{
    after_last, contains_text, drop_empty, join, join_strings, lemma_take_push, lemma_views_push,
    lines_of, natural_text, natural_to_string, push_nonempty, split_lines, tail, views,
};
use crate::types::{
    clone_function, opt_type_view, params_eq, params_view, FunctionType,
    FunctionTypeView, Type, TypeView,
};
use vstd::prelude::*;

verus! {

/// The lines below the header of each of the first `n` expansions, in
/// order.
pub open spec fn expansion_body_lines(expansions: Seq<Seq<char>>, n: nat) -> Seq<Seq<char>>
    decreases n,
{
    if n == 0 {
        Seq::empty()
    } else {
        expansion_body_lines(expansions, (n - 1) as nat) + tail(lines_of(expansions[n - 1]))
    }
}

/// The first `n` of `lines`, each on a line of its own, without those that
/// occurred before.
pub open spec fn merged_lines(lines: Seq<Seq<char>>, n: nat) -> Seq<char>
    decreases n,
{
    if n == 0 {
        Seq::empty()
    } else if lines.take(n - 1).contains(lines[n - 1]) {
        merged_lines(lines, (n - 1) as nat)
    } else {
        merged_lines(lines, (n - 1) as nat) + "\n"@ + lines[n - 1]
    }
}

/// The one expansion that takes the place of the expansions that the type
/// of return value `i` brought with it: a header that numbers the return
/// value, then their lines, each once.
pub open spec fn return_expansion(i: nat, expansions: Seq<Seq<char>>) -> Seq<char> {
    let lines = expansion_body_lines(expansions, expansions.len());
    "return #"@ + natural_text(i + 1) + merged_lines(lines, lines.len())
}

/// The expansions that the type of return value `i` adds to a hover.
pub open spec fn ret_type_expansions(db: DatabaseView, ret_type: TypeView, i: nat) -> Seq<Seq<char>> {
    let brought = hover_expansions(db, ret_type);
    if brought.len() == 0 {
        Seq::empty()
    } else {
        seq![return_expansion(i, brought)]
    }
}

/// The expansions that the first `n` documented returns add to a hover.
pub open spec fn rets_expansions(db: DatabaseView, docs: Seq<DocReturnInfoView>, n: nat) -> Seq<
    Seq<char>,
>
    decreases n,
{
    if n == 0 {
        Seq::empty()
    } else {
        rets_expansions(db, docs, (n - 1) as nat) + ret_type_expansions(
            db,
            docs[n - 1].type_ref,
            (n - 1) as nat,
        )
    }
}

/// The hover texts of the types of the documented returns.
pub open spec fn ret_texts(db: DatabaseView, docs: Seq<DocReturnInfoView>) -> Seq<Seq<char>> {
    Seq::new(docs.len(), |i: int| hover_text(db, docs[i].type_ref, Some(RenderLevel::Simple)))
}

/// The line of return value `i` in a full hover: an arrow before the
/// first, a number before the others; then the name, where it has one; then
/// the type.
pub open spec fn ret_line(i: nat, name: Option<Seq<char>>, type_text: Seq<char>) -> Seq<char> {
    let prefix = if i == 0 {
        "-> "@
    } else {
        natural_text(i + 1) + ". "@
    };
    match name {
        Some(n) => if n.len() > 0 {
            "  "@ + prefix + n + ": "@ + type_text + "\n"@
        } else {
            "  "@ + prefix + type_text + "\n"@
        },
        None => "  "@ + prefix + type_text + "\n"@,
    }
}

/// The lines of the first `n` return values in a full hover, after a line
/// break.
pub open spec fn ret_lines(db: DatabaseView, docs: Seq<DocReturnInfoView>, n: nat) -> Seq<char>
    decreases n,
{
    if n == 0 {
        "\n"@
    } else {
        ret_lines(db, docs, (n - 1) as nat) + ret_line(
            (n - 1) as nat,
            docs[n - 1].name,
            hover_text(db, docs[n - 1].type_ref, Some(RenderLevel::Simple)),
        )
    }
}

/// Whether the returns are those of the overload: it is given and does
/// not return `nil`.
pub open spec fn overload_returns(overload: Option<FunctionTypeView>) -> bool {
    overload matches Some(o) && !(o.ret is Nil)
}

/// The returns of a signature, or of one of its overloads, as they follow
/// the parameters.
///
/// An overload that returns something shows its return type on the same
/// line. Otherwise the signature's documented returns are shown, unless it
/// returns nothing: on the same line for a completion, else on a line each.
pub open spec fn signature_rets_text(
    db: DatabaseView,
    signature: SignatureView,
    is_completion: bool,
    overload: Option<FunctionTypeView>,
) -> Seq<char> {
    if overload_returns(overload) {
        " -> "@ + humanize(db, overload.unwrap().ret, RenderLevel::Simple)
    } else if signature.returns_nil() {
        Seq::empty()
    } else if is_completion {
        " -> "@ + join(ret_texts(db, signature.return_docs), ", "@)
    } else {
        ret_lines(db, signature.return_docs, signature.return_docs.len())
    }
}

/// The expansions that the returns of a signature, or of one of its
/// overloads, add to a hover.
pub open spec fn signature_rets_expansions(
    db: DatabaseView,
    signature: SignatureView,
    overload: Option<FunctionTypeView>,
) -> Seq<Seq<char>> {
    if overload_returns(overload) || signature.returns_nil() {
        Seq::empty()
    } else {
        rets_expansions(db, signature.return_docs, signature.return_docs.len())
    }
}

/// How a function is introduced: its label, its full name, whether it is
/// shown as a method, and the type of its receiver.
pub struct FunctionHead {
    pub type_label: Seq<char>,
    pub full_name: Seq<char>,
    pub is_method: bool,
    pub self_type: TypeView,
}

/// The name of a key as it follows the owner's name.
pub open spec fn key_suffix(key: MemberKeyView) -> Seq<char> {
    match key {
        MemberKeyView::Name(n) => n,
        MemberKeyView::Integer(_) => Seq::empty(),
    }
}

/// The name under which the type `ty` is shown as an owner: the global it
/// was reached through, else its simple name.
pub open spec fn owner_type_name(global_name: Option<Seq<char>>, ty: Seq<char>) -> Seq<char> {
    match global_name {
        Some(g) => g,
        None => after_last(ty, '.'),
    }
}

/// How a function type written in a doc comment is introduced.
///
/// Without an owning member it is a plain function under its own name. A
/// member of a type is shown under the type's name, as a method where it is
/// one, else as a field or a function; a member of an element under the
/// name of the local that the element is bound to.
pub open spec fn doc_function_head(
    db: DatabaseView,
    model: SemanticModelView,
    f: FunctionTypeView,
    owner: Option<MemberView>,
    func_name: Seq<char>,
) -> FunctionHead {
    match owner {
        None => FunctionHead {
            type_label: "function "@,
            full_name: func_name,
            is_method: f.is_colon_define,
            self_type: TypeView::SelfInfer,
        },
        Some(m) => {
            let (name, label, is_method) = match find_owner(db.members, m.id) {
                Some(MemberOwnerView::Type(ty)) => (
                    owner_type_name(prefix_global_name(model, m), ty),
                    if m.is_field {
                        "(field) "@
                    } else {
                        "function "@
                    },
                    is_method_of(model.db, f.is_colon_define, f.params, Some(TypeView::Ref(ty))),
                ),
                Some(MemberOwnerView::Element(file, range)) => (
                    match element_owner_name(model.db, file, range) {
                        Some(n) => n,
                        None => Seq::empty(),
                    },
                    "function "@,
                    f.is_colon_define,
                ),
                None => (Seq::empty(), "function "@, f.is_colon_define),
            };
            FunctionHead {
                type_label: if is_method {
                    "(method) "@
                } else {
                    label
                },
                full_name: if is_method {
                    name + ":"@ + key_suffix(m.key)
                } else {
                    name + "."@ + key_suffix(m.key)
                },
                is_method,
                self_type: TypeView::SelfInfer,
            }
        },
    }
}

/// The texts of the parameters of a function line: each as name and type
/// at `level`, the first empty where `first_hidden` holds.
pub open spec fn line_param_texts(
    db: DatabaseView,
    params: Seq<(Seq<char>, Option<TypeView>)>,
    first_hidden: bool,
    level: RenderLevel,
) -> Seq<Seq<char>> {
    Seq::new(
        params.len(),
        |i: int|
            if i == 0 && first_hidden {
                Seq::empty()
            } else {
                param_text(
                    params[i].0,
                    match params[i].1 {
                        Some(t) => Some(humanize(db, t, level)),
                        None => None,
                    },
                )
            },
    )
}

/// The parameters of a function line: the texts that are not empty, with
/// commas between them.
pub open spec fn line_params(
    db: DatabaseView,
    params: Seq<(Seq<char>, Option<TypeView>)>,
    first_hidden: bool,
    level: RenderLevel,
) -> Seq<char> {
    join(drop_empty(line_param_texts(db, params, first_hidden, level)), ", "@)
}

/// The mark of an asynchronous function.
pub open spec fn async_label(is_async: bool) -> Seq<char> {
    if is_async {
        "async "@
    } else {
        Seq::empty()
    }
}

/// The hover line of a function type written in a doc comment. The
/// receiver of a method is not shown among its parameters.
pub open spec fn doc_function_text(
    db: DatabaseView,
    model: SemanticModelView,
    f: FunctionTypeView,
    owner: Option<MemberView>,
    func_name: Seq<char>,
) -> Seq<char> {
    let head = doc_function_head(db, model, f, owner, func_name);
    function_line(
        head.type_label,
        async_label(f.is_async),
        head.full_name,
        line_params(db, f.params, head.is_method, RenderLevel::Normal),
        if f.ret is Nil {
            Seq::empty()
        } else {
            " -> "@ + humanize(db, f.ret, RenderLevel::Simple)
        },
    )
}

/// How a signature is introduced.
///
/// Without an owning member it is a function, local where the hovered name
/// is, under its own name. A member of a type is shown under the type's
/// name, as a method where it is one, else as a field or a function; a
/// member of an element under the name of the local that the element is
/// bound to, where there is one.
pub open spec fn signature_head(
    db: DatabaseView,
    model: SemanticModelView,
    signature: SignatureView,
    owner: Option<MemberView>,
    func_name: Seq<char>,
    is_local: bool,
) -> FunctionHead {
    match owner {
        None => FunctionHead {
            type_label: if is_local {
                "local function "@
            } else {
                "function "@
            },
            full_name: func_name,
            is_method: signature.is_colon_define,
            self_type: TypeView::SelfInfer,
        },
        Some(m) => match find_owner(db.members, m.id) {
            Some(MemberOwnerView::Type(ty)) => {
                let is_method = is_method_of(
                    model.db,
                    signature.is_colon_define,
                    signature.params,
                    Some(TypeView::Ref(ty)),
                );
                let name = owner_type_name(prefix_global_name(model, m), ty);
                FunctionHead {
                    type_label: if is_method {
                        "(method) "@
                    } else if m.is_field {
                        "(field) "@
                    } else {
                        "function "@
                    },
                    full_name: if is_method {
                        name + ":"@ + key_suffix(m.key)
                    } else {
                        name + "."@ + key_suffix(m.key)
                    },
                    is_method,
                    self_type: TypeView::Ref(ty),
                }
            },
            Some(MemberOwnerView::Element(file, range)) => FunctionHead {
                type_label: "function "@,
                full_name: match element_owner_name(model.db, file, range) {
                    Some(n) => n + "."@ + key_suffix(m.key),
                    None => key_suffix(m.key),
                },
                is_method: signature.is_colon_define,
                self_type: TypeView::SelfInfer,
            },
            None => FunctionHead {
                type_label: "function "@,
                full_name: key_suffix(m.key),
                is_method: signature.is_colon_define,
                self_type: TypeView::SelfInfer,
            },
        },
    }
}

/// The hover line of a signature itself. The receiver of a method that
/// was declared without one is not shown among its parameters.
pub open spec fn signature_line(
    db: DatabaseView,
    model: SemanticModelView,
    is_completion: bool,
    signature: SignatureView,
    head: FunctionHead,
) -> Seq<char> {
    function_line(
        head.type_label,
        async_label(signature.is_async),
        head.full_name,
        line_params(
            db,
            signature.params,
            !signature.is_colon_define && head.is_method,
            RenderLevel::Simple,
        ),
        signature_rets_text(model.db, signature, is_completion, None),
    )
}

/// Whether the first parameter of an overload is its receiver: it is
/// typed, and the overload is a method of the receiver's type.
pub open spec fn overload_hides_first(
    model: SemanticModelView,
    overload: FunctionTypeView,
    self_type: TypeView,
) -> bool {
    overload.params.len() > 0 && overload.params[0].1 is Some && is_method_of(
        model.db,
        overload.is_colon_define,
        overload.params,
        Some(self_type),
    )
}

/// The hover line of an overload of a signature.
pub open spec fn overload_line(
    db: DatabaseView,
    model: SemanticModelView,
    is_completion: bool,
    signature: SignatureView,
    head: FunctionHead,
    overload: FunctionTypeView,
) -> Seq<char> {
    function_line(
        head.type_label,
        async_label(overload.is_async),
        head.full_name,
        line_params(
            db,
            overload.params,
            overload_hides_first(model, overload, head.self_type),
            RenderLevel::Simple,
        ),
        signature_rets_text(model.db, signature, is_completion, Some(overload)),
    )
}

/// The hover lines of the first `n` overloads of a signature.
pub open spec fn overload_lines(
    db: DatabaseView,
    model: SemanticModelView,
    is_completion: bool,
    signature: SignatureView,
    head: FunctionHead,
    n: nat,
) -> Seq<Seq<char>>
    decreases n,
{
    if n == 0 {
        Seq::empty()
    } else {
        overload_lines(db, model, is_completion, signature, head, (n - 1) as nat).push(
            overload_line(db, model, is_completion, signature, head, signature.overloads[n - 1]),
        )
    }
}

/// The expansions that the returns of the first `n` overloads add.
pub open spec fn overloads_expansions(model: SemanticModelView, signature: SignatureView, n: nat) -> Seq<
    Seq<char>,
>
    decreases n,
{
    if n == 0 {
        Seq::empty()
    } else {
        overloads_expansions(model, signature, (n - 1) as nat) + signature_rets_expansions(
            model.db,
            signature,
            Some(signature.overloads[n - 1]),
        )
    }
}

/// Whether the called function has the parameters of `overload`.
pub open spec fn calls_overload(overload: FunctionTypeView, call: Option<FunctionTypeView>) -> bool {
    call matches Some(c) && c.params == overload.params
}

/// The position among the first `n` overloads of the first whose
/// parameters are those of the called function; `n` where there is none.
pub open spec fn matching_overload(
    overloads: Seq<FunctionTypeView>,
    call: Option<FunctionTypeView>,
    n: nat,
) -> nat
    decreases n,
{
    if n == 0 {
        0
    } else {
        let before = matching_overload(overloads, call, (n - 1) as nat);
        if before < n - 1 {
            before
        } else if calls_overload(overloads[n - 1], call) {
            (n - 1) as nat
        } else {
            n
        }
    }
}

/// What the hover of a signature shows.
pub struct SignatureHoverView {
    pub type_description: Seq<char>,
    pub overloads: Option<Seq<Seq<char>>>,
    pub call_function: Option<FunctionTypeView>,
}

/// Whether the called function has the parameters of the signature itself.
pub open spec fn calls_signature(signature: SignatureView, call: Option<FunctionTypeView>) -> bool {
    call matches Some(c) && c.params == signature.params
}

/// What the hover of the signature `id` shows; `None` where the database
/// does not hold it.
///
/// Where the called function has the signature's own parameters, the
/// signature's line alone. Else, where it has the parameters of an
/// overload, the line of the first such overload alone. Else the signature's
/// line and the lines of all its overloads.
pub open spec fn signature_hover(
    db: DatabaseView,
    model: SemanticModelView,
    is_completion: bool,
    id: SignatureId,
    owner: Option<MemberView>,
    func_name: Seq<char>,
    is_local: bool,
    call: Option<FunctionTypeView>,
) -> Option<SignatureHoverView> {
    match find_signature(db.signatures, id) {
        Some(signature) => {
            let head = signature_head(db, model, signature, owner, func_name, is_local);
            let count = signature.overloads.len();
            let found = matching_overload(signature.overloads, call, count);
            if calls_signature(signature, call) {
                Some(
                    SignatureHoverView {
                        type_description: signature_line(db, model, is_completion, signature, head),
                        overloads: None,
                        call_function: call,
                    },
                )
            } else if found < count {
                Some(
                    SignatureHoverView {
                        type_description: overload_line(
                            db,
                            model,
                            is_completion,
                            signature,
                            head,
                            signature.overloads[found as int],
                        ),
                        overloads: None,
                        call_function: call,
                    },
                )
            } else {
                Some(
                    SignatureHoverView {
                        type_description: signature_line(db, model, is_completion, signature, head),
                        overloads: Some(
                            overload_lines(db, model, is_completion, signature, head, count),
                        ),
                        call_function: None,
                    },
                )
            }
        },
        None => None,
    }
}

/// The expansions that the hover of the signature `id` adds: those of its
/// own returns, then those of the returns of each overload that is
/// rendered, up to the first that has the parameters of the called function.
pub open spec fn signature_hover_expansions(
    db: DatabaseView,
    model: SemanticModelView,
    id: SignatureId,
    call: Option<FunctionTypeView>,
) -> Seq<Seq<char>> {
    match find_signature(db.signatures, id) {
        Some(signature) => {
            let count = signature.overloads.len();
            let found = matching_overload(signature.overloads, call, count);
            let own = signature_rets_expansions(model.db, signature, None);
            if calls_signature(signature, call) {
                own
            } else if found < count {
                own + overloads_expansions(model, signature, found + 1)
            } else {
                own + overloads_expansions(model, signature, count)
            }
        },
        None => Seq::empty(),
    }
}

/// Where the called function has the parameters of an overload of a
/// signature, or the signature's own, the hover of the signature shows one
/// line and no overloads, whatever else tells the called function from the
/// overload: its return type, its `async` mark, its receiver.
pub proof fn matched_signature_shows_no_overloads(
    db: DatabaseView,
    model: SemanticModelView,
    is_completion: bool,
    id: SignatureId,
    owner: Option<MemberView>,
    func_name: Seq<char>,
    is_local: bool,
    call: FunctionTypeView,
    j: int,
)
    requires
        find_signature(db.signatures, id) matches Some(signature) && (call.params
            == signature.params || (0 <= j < signature.overloads.len()
            && signature.overloads[j].params == call.params)),
    ensures
        signature_hover(
            db,
            model,
            is_completion,
            id,
            owner,
            func_name,
            is_local,
            Some(call),
        ) matches Some(shown) && shown.overloads is None && shown.call_function == Some(call),
{
    let signature = find_signature(db.signatures, id).unwrap();
    if call.params != signature.params {
        lemma_matching_overload_found(signature.overloads, Some(call), signature.overloads.len(), j);
    }
}

/// An overload among the first `n` that has the parameters of the called
/// function is found, at its position or before.
pub proof fn lemma_matching_overload_found(
    overloads: Seq<FunctionTypeView>,
    call: Option<FunctionTypeView>,
    n: nat,
    j: int,
)
    requires
        0 <= j < n <= overloads.len(),
        calls_overload(overloads[j], call),
    ensures
        matching_overload(overloads, call, n) <= j,
    decreases n,
{
    if j < n - 1 {
        lemma_matching_overload_found(overloads, call, (n - 1) as nat, j);
    } else {
        lemma_matching_overload_bound(overloads, call, (n - 1) as nat);
    }
}

/// The position found among the first `n` overloads is at most `n`, and
/// where it is below `n`, the overload there has the parameters of the
/// called function.
pub proof fn lemma_matching_overload_bound(
    overloads: Seq<FunctionTypeView>,
    call: Option<FunctionTypeView>,
    n: nat,
)
    requires
        n <= overloads.len(),
    ensures
        matching_overload(overloads, call, n) <= n,
        matching_overload(overloads, call, n) < n ==> calls_overload(
            overloads[matching_overload(overloads, call, n) as int],
            call,
        ),
    decreases n,
{
    if n > 0 {
        lemma_matching_overload_bound(overloads, call, (n - 1) as nat);
    }
}

/// The view of an optional borrowed function type.
pub open spec fn opt_function_view(o: Option<&FunctionType>) -> Option<FunctionTypeView> {
    match o {
        Some(f) => Some(f@),
        None => None,
    }
}

/// The view of an optional borrowed member.
pub open spec fn opt_member_view(o: Option<&Member>) -> Option<MemberView> {
    match o {
        Some(m) => Some(m@),
        None => None,
    }
}

/// Puts the expansions that the type of return value `i` brought with it
/// into one.
pub fn merge_expansions(expansions: &Vec<String>, i: usize) -> (out: String)
    requires
        i < usize::MAX,
    ensures
        out@ == return_expansion(i as nat, views(expansions@)),
{
    let ghost texts = views(expansions@);
    let mut all_lines: Vec<String> = Vec::new();
    let mut k: usize = 0;
    while k < expansions.len()
        invariant
            k <= expansions.len(),
            texts == views(expansions@),
            views(all_lines@) == expansion_body_lines(texts, k as nat),
        decreases expansions.len() - k,
    {
        let lines = split_lines(expansions[k].as_str());
        let ghost base = views(all_lines@);
        let ghost body = tail(views(lines@));
        let mut j: usize = 1;
        assert(base + body.take(0) =~= base);
        while j < lines.len()
            invariant
                1 <= j,
                j <= lines.len() || j == 1,
                body == tail(views(lines@)),
                views(all_lines@) == base + body.take(j - 1),
            decreases lines.len() - j,
        {
            let line = lines[j].clone();
            proof {
                lemma_views_push(all_lines@, line);
                lemma_take_push(body, j - 1);
                assert(body[j - 1] == line@);
                assert((base + body.take(j - 1)).push(line@) =~= base + body.take(j - 1).push(line@));
            }
            all_lines.push(line);
            j += 1;
        }
        proof {
            if lines.len() > 0 {
                assert(body.take(lines.len() - 1) =~= body);
            } else {
                assert(body.take(0) =~= body);
            }
            assert(texts[k as int] == expansions@[k as int]@);
            assert(views(all_lines@) == base + body);
            assert(body == tail(lines_of(texts[k as int])));
            assert(expansion_body_lines(texts, (k + 1) as nat) == expansion_body_lines(
                texts,
                k as nat,
            ) + tail(lines_of(texts[k as int])));
        }
        k += 1;
    }
    let mut out = String::from_str("return #");
    let number = natural_to_string((i + 1) as u64);
    out.append(number.as_str());
    let ghost header = out@;
    let ghost lines = views(all_lines@);
    let mut n: usize = 0;
    assert(header + merged_lines(lines, 0) =~= header);
    while n < all_lines.len()
        invariant
            n <= all_lines.len(),
            lines == views(all_lines@),
            out@ == header + merged_lines(lines, n as nat),
        decreases all_lines.len() - n,
    {
        if !contains_text(&all_lines, n, all_lines[n].as_str()) {
            out.append("\n");
            out.append(all_lines[n].as_str());
            assert(out@ =~= header + (merged_lines(lines, n as nat) + "\n"@ + lines[n as int]));
        }
        n += 1;
    }
    out
}

/// Renders the type of return value `i`. The expansions it brings with
/// it are put into one, under a header that numbers the return value.
pub fn build_signature_ret_type(builder: &mut HoverBuilder, ret_info: &DocReturnInfo, i: usize) -> (out:
    String)
    requires
        i < usize::MAX,
    ensures
        out@ == hover_text(
            old(builder)@.model.db,
            ret_info@.type_ref,
            Some(RenderLevel::Simple),
        ),
        final(builder)@ == old(builder)@.add_expansions(
            ret_type_expansions(old(builder)@.model.db, ret_info@.type_ref, i as nat),
        ),
{
    let ghost brought = hover_expansions(builder@.model.db, ret_info@.type_ref);
    let type_expansion_count = builder.get_type_expansion_count();
    let type_text = hover_humanize_type(builder, &ret_info.type_ref, Some(RenderLevel::Simple));
    if builder.get_type_expansion_count() > type_expansion_count {
        match builder.pop_type_expansion(type_expansion_count) {
            Some(popped) => {
                proof {
                    assert(views(popped@) =~= brought);
                }
                let merged = merge_expansions(&popped, i);
                builder.add_type_expansion(merged);
                proof {
                    assert(old(builder)@.expansions().push(merged@) =~= old(builder)@.expansions()
                        + seq![merged@]);
                    assert((old(builder)@.expansions() + brought).take(type_expansion_count as int)
                        =~= old(builder)@.expansions());
                }
            },
            None => {},
        }
    }
    type_text
}

/// Renders the returns of a signature, or of one of its overloads, as
/// they follow the parameters.
pub fn build_signature_rets(
    builder: &mut HoverBuilder,
    signature: &Signature,
    is_completion: bool,
    overload: Option<&FunctionType>,
) -> (out: String)
    ensures
        out@ == signature_rets_text(
            old(builder)@.model.db,
            signature@,
            is_completion,
            opt_function_view(overload),
        ),
        final(builder)@ == old(builder)@.add_expansions(
            signature_rets_expansions(
                old(builder)@.model.db,
                signature@,
                opt_function_view(overload),
            ),
        ),
{
    let db = builder.semantic_model.get_db();
    if let Some(o) = overload {
        if !o.get_ret().is_nil() {
            let mut out = String::from_str(" -> ");
            let text = humanize_type(db, o.get_ret(), RenderLevel::Simple);
            out.append(text.as_str());
            return out;
        }
    }
    if signature.returns_nil() {
        return String::new();
    }
    let ghost docs = signature@.return_docs;
    let rets = &signature.return_docs;
    if is_completion {
        let ghost all = ret_texts(db@, docs);
        let mut parts: Vec<String> = Vec::new();
        let mut i: usize = 0;
        while i < rets.len()
            invariant
                i <= rets.len(),
                rets == &signature.return_docs,
                docs == signature@.return_docs,
                all == ret_texts(db@, docs),
                db@ == old(builder)@.model.db,
                builder@.model.db == db@,
                views(parts@) == all.take(i as int),
                builder@ == old(builder)@.add_expansions(rets_expansions(db@, docs, i as nat)),
            decreases rets.len() - i,
        {
            proof {
                assert(docs[i as int] == rets@[i as int]@);
                lemma_add_expansions_twice(
                    old(builder)@,
                    rets_expansions(db@, docs, i as nat),
                    ret_type_expansions(db@, docs[i as int].type_ref, i as nat),
                );
            }
            let text = build_signature_ret_type(builder, &rets[i], i);
            proof {
                assert(all[i as int] == text@);
                lemma_take_push(all, i as int);
                lemma_views_push(parts@, text);
            }
            parts.push(text);
            i += 1;
        }
        assert(all.take(rets.len() as int) =~= all);
        let mut out = String::from_str(" -> ");
        let list = join_strings(&parts, ", ");
        out.append(list.as_str());
        out
    } else {
        let mut out = String::from_str("\n");
        let mut i: usize = 0;
        while i < rets.len()
            invariant
                i <= rets.len(),
                rets == &signature.return_docs,
                docs == signature@.return_docs,
                db@ == old(builder)@.model.db,
                builder@.model.db == db@,
                out@ == ret_lines(db@, docs, i as nat),
                builder@ == old(builder)@.add_expansions(rets_expansions(db@, docs, i as nat)),
            decreases rets.len() - i,
        {
            proof {
                assert(docs[i as int] == rets@[i as int]@);
                lemma_add_expansions_twice(
                    old(builder)@,
                    rets_expansions(db@, docs, i as nat),
                    ret_type_expansions(db@, docs[i as int].type_ref, i as nat),
                );
            }
            let ghost before = out@;
            let type_text = build_signature_ret_type(builder, &rets[i], i);
            out.append("  ");
            if i == 0 {
                out.append("-> ");
            } else {
                let number = natural_to_string((i + 1) as u64);
                out.append(number.as_str());
                out.append(". ");
            }
            match &rets[i].name {
                Some(name) => {
                    if !name.as_str().is_empty() {
                        out.append(name.as_str());
                        out.append(": ");
                    }
                },
                None => {},
            }
            out.append(type_text.as_str());
            out.append("\n");
            assert(out@ =~= before + ret_line(i as nat, docs[i as int].name, type_text@));
            i += 1;
        }
        out
    }
}

/// Renders the parameters of a function line: name and type at `level`,
/// without the first where `first_hidden` holds and without those that
/// come out empty, with commas between them.
pub fn render_line_params(
    db: &Database,
    params: &Vec<(String, Option<Type>)>,
    first_hidden: bool,
    level: RenderLevel,
) -> (out: String)
    ensures
        out@ == line_params(db@, params_view(params@), first_hidden, level),
{
    let ghost all = line_param_texts(db@, params_view(params@), first_hidden, level);
    let mut parts: Vec<String> = Vec::new();
    let mut i: usize = 0;
    assert(drop_empty(all.take(0)) =~= Seq::<Seq<char>>::empty());
    while i < params.len()
        invariant
            i <= params.len(),
            all == line_param_texts(db@, params_view(params@), first_hidden, level),
            views(parts@) == drop_empty(all.take(i as int)),
        decreases params.len() - i,
    {
        assert(params_view(params@)[i as int] == (
            params@[i as int].0@,
            opt_type_view(params@[i as int].1),
        ));
        let text = if i == 0 && first_hidden {
            String::new()
        } else {
            let ty = match &params[i].1 {
                Some(t) => Some(humanize_type(db, t, level)),
                None => None,
            };
            format_param(params[i].0.as_str(), ty)
        };
        proof {
            assert(all[i as int] == text@);
            lemma_take_push(all, i as int);
            crate::text::lemma_drop_empty_push(all.take(i as int), text@);
        }
        push_nonempty(&mut parts, text);
        i += 1;
    }
    assert(all.take(params.len() as int) =~= all);
    join_strings(&parts, ", ")
}

/// The mark of an asynchronous function.
pub fn async_label_of(is_async: bool) -> (out: &'static str)
    ensures
        out@ == async_label(is_async),
{
    proof {
        reveal_strlit("");
        assert(""@ =~= Seq::<char>::empty());
    }
    if is_async {
        "async "
    } else {
        ""
    }
}

/// Renders the line of a function type written in a doc comment.
pub fn hover_doc_function_type(
    builder: &HoverBuilder,
    db: &Database,
    lua_func: &FunctionType,
    owner_member: Option<&Member>,
    func_name: &str,
) -> (out: String)
    ensures
        out@ == doc_function_text(
            db@,
            builder@.model,
            lua_func@,
            opt_member_view(owner_member),
            func_name@,
        ),
{
    let mut is_method = lua_func.is_colon_define();
    let mut type_label = "function ";
    let full_name = match owner_member {
        Some(owner_member) => {
            let global_name = infer_prefix_global_name(builder.semantic_model, owner_member);
            let mut name = String::new();
            match db.get_member_index().get_current_owner(&owner_member.get_id()) {
                Some(MemberOwner::Type(type_decl_id)) => {
                    match global_name {
                        Some(global_name) => {
                            name.append(global_name);
                        },
                        None => {
                            name.append(type_decl_id.get_simple_name());
                        },
                    }
                    if owner_member.is_field() {
                        type_label = "(field) ";
                    }
                    let owner_type = Type::Ref(type_decl_id.clone());
                    is_method = lua_func.is_method(builder.semantic_model, Some(&owner_type));
                },
                Some(MemberOwner::Element(file_id, range)) => {
                    match extract_owner_name_from_element(builder.semantic_model, *file_id, *range) {
                        Some(owner_name) => {
                            name.append(owner_name.as_str());
                        },
                        None => {},
                    }
                },
                None => {},
            }
            if is_method {
                type_label = "(method) ";
                name.append(":");
            } else {
                name.append(".");
            }
            match owner_member.get_key() {
                MemberKey::Name(n) => {
                    name.append(n.as_str());
                },
                MemberKey::Integer(_) => {},
            }
            proof {
                let head = doc_function_head(
                    db@,
                    builder@.model,
                    lua_func@,
                    opt_member_view(Some(owner_member)),
                    func_name@,
                );
                assert(name@ =~= head.full_name);
            }
            name
        },
        None => String::from_str(func_name),
    };
    let params = render_line_params(db, lua_func.get_params(), is_method, RenderLevel::Normal);
    let ret_detail = if lua_func.get_ret().is_nil() {
        String::new()
    } else {
        let mut text = String::from_str(" -> ");
        let ret = humanize_type(db, lua_func.get_ret(), RenderLevel::Simple);
        text.append(ret.as_str());
        text
    };
    format_function_type(
        type_label,
        async_label_of(lua_func.is_async()),
        full_name,
        params,
        ret_detail,
    )
}

/// Once an overload among the first `m` is found, it is still the one
/// found among the first `n`, for every larger `n`.
pub proof fn lemma_matching_overload_stable(
    overloads: Seq<FunctionTypeView>,
    call: Option<FunctionTypeView>,
    m: nat,
    n: nat,
)
    requires
        m <= n,
        matching_overload(overloads, call, m) < m,
    ensures
        matching_overload(overloads, call, n) == matching_overload(overloads, call, m),
    decreases n,
{
    if m < n {
        lemma_matching_overload_stable(overloads, call, m, (n - 1) as nat);
    }
}

/// What the hover of a signature shows.
#[derive(Debug)]
pub struct HoverSignatureResult {
    pub type_description: String,
    pub overloads: Option<Vec<String>>,
    /// The called function, where the line shown is the one it matches.
    pub call_function: Option<FunctionType>,
}

impl View for HoverSignatureResult {
    type V = SignatureHoverView;

    open spec fn view(&self) -> SignatureHoverView {
        SignatureHoverView {
            type_description: self.type_description@,
            overloads: match self.overloads {
                Some(v) => Some(views(v@)),
                None => None,
            },
            call_function: match self.call_function {
                Some(f) => Some(f@),
                None => None,
            },
        }
    }
}

/// The view of an optional result.
pub open spec fn opt_signature_hover_view(o: Option<HoverSignatureResult>) -> Option<
    SignatureHoverView,
> {
    match o {
        Some(r) => Some(r@),
        None => None,
    }
}

/// Renders a signature for a hover: its line and the lines of its
/// overloads, or the one line that the called function matches.
pub fn hover_signature_type(
    builder: &mut HoverBuilder,
    db: &Database,
    signature_id: SignatureId,
    owner_member: Option<&Member>,
    func_name: &str,
    is_local: bool,
    call_function: Option<&FunctionType>,
) -> (r: Option<HoverSignatureResult>)
    ensures
        opt_signature_hover_view(r) == signature_hover(
            db@,
            old(builder)@.model,
            old(builder)@.is_completion,
            signature_id,
            opt_member_view(owner_member),
            func_name@,
            is_local,
            opt_function_view(call_function),
        ),
        final(builder)@ == old(builder)@.add_expansions(
            signature_hover_expansions(
                db@,
                old(builder)@.model,
                signature_id,
                opt_function_view(call_function),
            ),
        ),
{
    let ghost model = builder@.model;
    let ghost call = opt_function_view(call_function);
    let signature = match db.get_signature_index().get(&signature_id) {
        Some(s) => s,
        None => {
            return None;
        },
    };
    let ghost sig = signature@;
    let ghost head = signature_head(
        db@,
        model,
        sig,
        opt_member_view(owner_member),
        func_name@,
        is_local,
    );
    let mut is_method = signature.is_colon_define;
    let mut self_real_type = Type::SelfInfer;
    let mut type_label = "function ";
    let full_name = match owner_member {
        Some(owner_member) => {
            let global_name = infer_prefix_global_name(builder.semantic_model, owner_member);
            let mut name = String::new();
            match db.get_member_index().get_current_owner(&owner_member.get_id()) {
                Some(MemberOwner::Type(type_decl_id)) => {
                    self_real_type = Type::Ref(type_decl_id.clone());
                    match global_name {
                        Some(global_name) => {
                            name.append(global_name);
                        },
                        None => {
                            name.append(type_decl_id.get_simple_name());
                        },
                    }
                    if owner_member.is_field() {
                        type_label = "(field) ";
                    }
                    is_method = signature.is_method(builder.semantic_model, Some(&self_real_type));
                    if is_method {
                        type_label = "(method) ";
                        name.append(":");
                    } else {
                        name.append(".");
                    }
                },
                Some(MemberOwner::Element(file_id, range)) => {
                    match extract_owner_name_from_element(builder.semantic_model, *file_id, *range) {
                        Some(owner_name) => {
                            name.append(owner_name.as_str());
                            name.append(".");
                        },
                        None => {},
                    }
                },
                None => {},
            }
            match owner_member.get_key() {
                MemberKey::Name(n) => {
                    name.append(n.as_str());
                },
                MemberKey::Integer(_) => {},
            }
            proof {
                assert(name@ =~= head.full_name);
            }
            name
        },
        None => {
            if is_local {
                type_label = "local function ";
            }
            String::from_str(func_name)
        },
    };
    assert(type_label@ == head.type_label);
    assert(is_method == head.is_method);
    assert(self_real_type@ == head.self_type);
    let is_completion = builder.is_completion;
    let ghost own = signature_rets_expansions(model.db, sig, None);
    let params = render_line_params(
        db,
        &signature.params,
        !signature.is_colon_define && is_method,
        RenderLevel::Simple,
    );
    let rets = build_signature_rets(builder, signature, is_completion, None);
    let signature_info = format_function_type(
        type_label,
        async_label_of(signature.is_async),
        full_name.clone(),
        params,
        rets,
    );
    if let Some(called) = call_function {
        if params_eq(called.get_params(), &signature.params) {
            return Some(
                HoverSignatureResult {
                    type_description: signature_info,
                    overloads: None,
                    call_function: Some(clone_function(called)),
                },
            );
        }
    }
    let mut overloads: Vec<String> = Vec::new();
    let mut k: usize = 0;
    proof {
        assert(own + overloads_expansions(model, sig, 0) =~= own);
    }
    while k < signature.overloads.len()
        invariant
            k <= signature.overloads.len(),
            sig == signature@,
            find_signature(db@.signatures, signature_id) == Some(sig),
            model == old(builder)@.model,
            builder@.model == model,
            is_completion == old(builder)@.is_completion,
            call == opt_function_view(call_function),
            head == signature_head(
                db@,
                model,
                sig,
                opt_member_view(owner_member),
                func_name@,
                is_local,
            ),
            type_label@ == head.type_label,
            full_name@ == head.full_name,
            self_real_type@ == head.self_type,
            own == signature_rets_expansions(model.db, sig, None),
            !calls_signature(sig, call),
            matching_overload(sig.overloads, call, k as nat) == k,
            views(overloads@) == overload_lines(db@, model, is_completion, sig, head, k as nat),
            builder@ == old(builder)@.add_expansions(
                own + overloads_expansions(model, sig, k as nat),
            ),
        decreases signature.overloads.len() - k,
    {
        let overload = &signature.overloads[k];
        assert(sig.overloads[k as int] == overload@);
        proof {
            lemma_add_expansions_twice(
                old(builder)@,
                own + overloads_expansions(model, sig, k as nat),
                signature_rets_expansions(model.db, sig, Some(overload@)),
            );
            assert((own + overloads_expansions(model, sig, k as nat)) + signature_rets_expansions(
                model.db,
                sig,
                Some(overload@),
            ) =~= own + overloads_expansions(model, sig, (k + 1) as nat));
            assert(params_view(overload.params@) == overload@.params);
            if overload.params.len() > 0 {
                assert(overload@.params[0] == (
                    overload.params@[0].0@,
                    opt_type_view(overload.params@[0].1),
                ));
            }
        }
        let hidden = overload.params.len() > 0 && overload.params[0].1.is_some()
            && overload.is_method(builder.semantic_model, Some(&self_real_type));
        let params = render_line_params(db, &overload.params, hidden, RenderLevel::Simple);
        let rets = build_signature_rets(builder, signature, is_completion, Some(overload));
        let result = format_function_type(
            type_label,
            async_label_of(overload.is_async()),
            full_name.clone(),
            params,
            rets,
        );
        if let Some(called) = call_function {
            if params_eq(called.get_params(), overload.get_params()) {
                proof {
                    assert(matching_overload(sig.overloads, call, (k + 1) as nat) == k);
                    lemma_matching_overload_stable(
                        sig.overloads,
                        call,
                        (k + 1) as nat,
                        sig.overloads.len(),
                    );
                }
                return Some(
                    HoverSignatureResult {
                        type_description: result,
                        overloads: None,
                        call_function: Some(clone_function(called)),
                    },
                );
            }
        }
        proof {
            lemma_views_push(overloads@, result);
        }
        overloads.push(result);
        k += 1;
    }
    Some(
        HoverSignatureResult {
            type_description: signature_info,
            overloads: Some(overloads),
            call_function: None,
        },
    )
}

/// What one candidate contributes to the hover of a function.
pub struct FunctionInfoView {
    pub type_description: Seq<char>,
    pub overloads: Option<Seq<Seq<char>>>,
    pub description: Option<DescriptionInfoView>,
    /// The candidate has the parameters of the function that the hovered
    /// call resolves to.
    pub is_call_function: bool,
}

/// The name under which the hovered function is shown, and whether it is
/// a local: taken from the declaration or member that the first candidate
/// resolves to.
pub open spec fn hovered_name(db: DatabaseView, first: SemanticDeclId) -> Option<(Seq<char>, bool)> {
    match first {
        SemanticDeclId::LuaDecl(id) => match find_decl(db.decls, id) {
            Some(decl) => Some((decl.name, decl.kind == DeclKind::Local)),
            None => None,
        },
        SemanticDeclId::Member(id) => match find_member(db.members, id) {
            Some(member) => Some((member.key.path(), false)),
            None => None,
        },
        SemanticDeclId::Signature(_) => None,
    }
}

/// The values of a list of candidates.
pub open spec fn decls_view(s: Seq<(SemanticDeclId, Type)>) -> Seq<(SemanticDeclId, TypeView)> {
    s.map_values(|d: (SemanticDeclId, Type)| (d.0, d.1@))
}

/// Whether candidate `k` resolves to something that no earlier candidate
/// resolves to.
pub open spec fn is_new_entry(decls: Seq<(SemanticDeclId, TypeView)>, k: int) -> bool {
    forall|j: int| 0 <= j < k ==> (#[trigger] decls[j]).0 != decls[k].0
}

/// The member that a candidate resolves to.
pub open spec fn entry_member(db: DatabaseView, id: SemanticDeclId) -> Option<MemberView> {
    match id {
        SemanticDeclId::Member(member_id) => find_member(db.members, member_id),
        _ => None,
    }
}

/// Whether a candidate resolves to a member that the database does not
/// hold: the hover is given up there.
pub open spec fn entry_aborts(db: DatabaseView, id: SemanticDeclId) -> bool {
    id is Member && entry_member(db, id) is None
}

/// The description that a candidate carries: that of what it resolves to,
/// the first time this is met; for a field documented by a function type,
/// which has none of its own, that of the function type's signature.
pub open spec fn entry_description(
    db: DatabaseView,
    model: SemanticModelView,
    id: SemanticDeclId,
    is_new: bool,
) -> Option<DescriptionInfoView> {
    if !is_new {
        None
    } else {
        let own = description_of(model.db, id);
        match entry_member(db, id) {
            Some(member) => if own is None {
                match field_signature_id(model.db, member) {
                    Some(signature_id) => description_of(
                        model.db,
                        SemanticDeclId::Signature(signature_id),
                    ),
                    None => None,
                }
            } else {
                own
            },
            None => own,
        }
    }
}

/// What a candidate that is neither given up nor skipped contributes; a
/// candidate whose type is a union is skipped.
pub open spec fn entry_info(
    db: DatabaseView,
    model: SemanticModelView,
    is_completion: bool,
    call: Option<FunctionTypeView>,
    name: Seq<char>,
    is_local: bool,
    entry: (SemanticDeclId, TypeView),
    is_new: bool,
) -> Option<FunctionInfoView> {
    let member = entry_member(db, entry.0);
    let description = entry_description(db, model, entry.0, is_new);
    match entry.1 {
        TypeView::Function => Some(
            FunctionInfoView {
                type_description: "function "@ + name + "()"@,
                overloads: None,
                description,
                is_call_function: false,
            },
        ),
        TypeView::DocFunction(f) => Some(
            FunctionInfoView {
                type_description: doc_function_text(db, model, *f, member, name),
                overloads: None,
                description,
                is_call_function: call matches Some(c) && c.params == f.params,
            },
        ),
        TypeView::Signature(id) => match signature_hover(
            db,
            model,
            is_completion,
            id,
            member,
            name,
            is_local,
            call,
        ) {
            Some(shown) => Some(
                FunctionInfoView {
                    type_description: shown.type_description,
                    overloads: shown.overloads,
                    description,
                    is_call_function: shown.call_function is Some,
                },
            ),
            None => Some(
                FunctionInfoView {
                    type_description: "function "@ + name,
                    overloads: None,
                    description,
                    is_call_function: false,
                },
            ),
        },
        TypeView::Union(_) => None,
        _ => Some(
            FunctionInfoView {
                type_description: "function "@ + name,
                overloads: None,
                description,
                is_call_function: false,
            },
        ),
    }
}

/// The expansions that rendering a candidate adds to the hover.
pub open spec fn entry_expansions(
    db: DatabaseView,
    model: SemanticModelView,
    call: Option<FunctionTypeView>,
    entry: (SemanticDeclId, TypeView),
) -> Seq<Seq<char>> {
    match entry.1 {
        TypeView::Signature(id) => signature_hover_expansions(db, model, id, call),
        _ => Seq::empty(),
    }
}

/// Where the walk through the candidates stands.
pub struct ScanView {
    /// What the candidates met so far contribute.
    pub infos: Seq<FunctionInfoView>,
    /// The expansions that rendering them added.
    pub expansions: Seq<Seq<char>>,
    /// The hover was given up.
    pub aborted: bool,
    /// A candidate with the parameters of the called function was met:
    /// `infos` holds it alone, and the walk is over.
    pub matched: bool,
}

/// The expansions that candidate `k` adds to the hover: none where the
/// hover is given up at it.
pub open spec fn step_expansions(
    db: DatabaseView,
    model: SemanticModelView,
    call: Option<FunctionTypeView>,
    decls: Seq<(SemanticDeclId, TypeView)>,
    k: int,
) -> Seq<Seq<char>> {
    if entry_aborts(db, decls[k].0) {
        Seq::empty()
    } else {
        entry_expansions(db, model, call, decls[k])
    }
}

/// The walk one candidate on: from where it stands before candidate `k`
/// to where it stands after it.
///
/// A walk that has ended stays as it is. The walk is given up where the
/// candidate resolves to an unknown member. A candidate that has the
/// parameters of the function that the hovered call resolves to takes the
/// place of all that were met before, and ends the walk. Every other candidate that is not skipped
/// joins those met before.
#[verifier::opaque]
pub open spec fn scan_step(
    before: ScanView,
    db: DatabaseView,
    model: SemanticModelView,
    is_completion: bool,
    call: Option<FunctionTypeView>,
    name: Seq<char>,
    is_local: bool,
    decls: Seq<(SemanticDeclId, TypeView)>,
    k: int,
) -> ScanView {
    let entry = decls[k];
    if before.aborted || before.matched {
        before
    } else if entry_aborts(db, entry.0) {
        ScanView { aborted: true, ..before }
    } else {
        let expansions = before.expansions + entry_expansions(db, model, call, entry);
        match entry_info(
            db,
            model,
            is_completion,
            call,
            name,
            is_local,
            entry,
            is_new_entry(decls, k),
        ) {
            Some(info) => if info.is_call_function {
                ScanView { infos: seq![info], expansions, aborted: false, matched: true }
            } else {
                ScanView {
                    infos: before.infos.push(info),
                    expansions,
                    aborted: false,
                    matched: false,
                }
            },
            None => ScanView { expansions, ..before },
        }
    }
}

/// The walk through the first `k` candidates, in order.
pub open spec fn scan(
    db: DatabaseView,
    model: SemanticModelView,
    is_completion: bool,
    call: Option<FunctionTypeView>,
    name: Seq<char>,
    is_local: bool,
    decls: Seq<(SemanticDeclId, TypeView)>,
    k: nat,
) -> ScanView
    decreases k,
{
    if k == 0 {
        ScanView { infos: Seq::empty(), expansions: Seq::empty(), aborted: false, matched: false }
    } else {
        scan_step(
            scan(db, model, is_completion, call, name, is_local, decls, (k - 1) as nat),
            db,
            model,
            is_completion,
            call,
            name,
            is_local,
            decls,
            k - 1,
        )
    }
}

/// Whether contribution `k` shows a line that no earlier contribution
/// shows.
pub open spec fn is_new_line(infos: Seq<FunctionInfoView>, k: int) -> bool {
    forall|j: int|
        0 <= j < k ==> (#[trigger] infos[j]).type_description != infos[k].type_description
}

/// The first `n` of `infos` without those that show a line that an earlier
/// one shows: every line is kept once, where it first occurs.
pub open spec fn dedup_infos(infos: Seq<FunctionInfoView>, n: nat) -> Seq<FunctionInfoView>
    decreases n,
{
    if n == 0 {
        Seq::empty()
    } else if is_new_line(infos, n - 1) {
        dedup_infos(infos, (n - 1) as nat).push(infos[n - 1])
    } else {
        dedup_infos(infos, (n - 1) as nat)
    }
}

/// The builder after the first `n` of `rest` were added as overloads:
/// for each its line, then the lines of its own overloads, then its
/// description.
pub open spec fn add_overload_entries(b: HoverBuilderView, rest: Seq<FunctionInfoView>, n: nat) -> HoverBuilderView
    decreases n,
{
    if n == 0 {
        b
    } else {
        let entry = rest[n - 1];
        add_overload_entries(b, rest, (n - 1) as nat).add_overload(
            entry.type_description,
        ).add_overloads(
            match entry.overloads {
                Some(o) => o,
                None => Seq::empty(),
            },
        ).add_description(entry.description)
    }
}

/// The builder with `info` as its primary line and description.
pub open spec fn show_primary(b: HoverBuilderView, info: FunctionInfoView) -> HoverBuilderView {
    (HoverBuilderView { type_description: info.type_description, ..b }).add_description(
        info.description,
    )
}

/// The hover that the contributions `infos` make, and whether there is
/// one.
///
/// Where the first has the parameters of the called function, it is shown
/// alone and no overloads are shown. Otherwise every line is kept once, where it first
/// occurs; of the contributions kept, the last is the primary line and the
/// others are overloads.
pub open spec fn finish(b: HoverBuilderView, infos: Seq<FunctionInfoView>) -> (HoverBuilderView, bool) {
    if infos.len() > 0 && infos[0].is_call_function {
        (show_primary(HoverBuilderView { signature_overload: None, ..b }, infos[0]), true)
    } else {
        let kept = dedup_infos(infos, infos.len());
        if kept.len() == 0 {
            (b, false)
        } else if kept.len() == 1 {
            (show_primary(b, kept[0]), true)
        } else {
            (
                add_overload_entries(
                    show_primary(b, kept.last()),
                    kept.drop_last(),
                    (kept.len() - 1) as nat,
                ),
                true,
            )
        }
    }
}

/// The hover of a function from the candidates that the hovered symbol
/// resolves to, and whether there is one.
pub open spec fn function_hover(
    b: HoverBuilderView,
    db: DatabaseView,
    decls: Seq<(SemanticDeclId, TypeView)>,
) -> (HoverBuilderView, bool) {
    if decls.len() == 0 {
        (b, false)
    } else {
        match hovered_name(db, decls[0].0) {
            Some((name, is_local)) => {
                let walked = scan(
                    db,
                    b.model,
                    b.is_completion,
                    b.call_function,
                    name,
                    is_local,
                    decls,
                    decls.len(),
                );
                if walked.aborted {
                    (b.add_expansions(walked.expansions), false)
                } else {
                    finish(b.add_expansions(walked.expansions), walked.infos)
                }
            },
            None => (b, false),
        }
    }
}

/// A walk that has ended stays as it is.
pub proof fn lemma_scan_ended(
    db: DatabaseView,
    model: SemanticModelView,
    is_completion: bool,
    call: Option<FunctionTypeView>,
    name: Seq<char>,
    is_local: bool,
    decls: Seq<(SemanticDeclId, TypeView)>,
    m: nat,
    n: nat,
)
    requires
        m <= n,
        ({
            let walked = scan(db, model, is_completion, call, name, is_local, decls, m);
            walked.aborted || walked.matched
        }),
    ensures
        scan(db, model, is_completion, call, name, is_local, decls, n) == scan(
            db,
            model,
            is_completion,
            call,
            name,
            is_local,
            decls,
            m,
        ),
    decreases n,
{
    reveal(scan_step);
    if m < n {
        lemma_scan_ended(db, model, is_completion, call, name, is_local, decls, m, (n - 1) as nat);
    }
}

/// Where none of the first `n` overloads has the parameters of the called
/// function, none is found.
pub proof fn lemma_matching_overload_none(
    overloads: Seq<FunctionTypeView>,
    call: Option<FunctionTypeView>,
    n: nat,
)
    requires
        n <= overloads.len(),
        forall|j: int| 0 <= j < n ==> !calls_overload(#[trigger] overloads[j], call),
    ensures
        matching_overload(overloads, call, n) == n,
    decreases n,
{
    if n > 0 {
        lemma_matching_overload_none(overloads, call, (n - 1) as nat);
    }
}

/// Where the called function has neither the signature's own parameters
/// nor those of one of its overloads, or where nothing is called, the hover
/// of the signature shows the signature's line and the lines of all its
/// overloads.
pub proof fn unmatched_signature_lists_all_overloads(
    db: DatabaseView,
    model: SemanticModelView,
    is_completion: bool,
    id: SignatureId,
    owner: Option<MemberView>,
    func_name: Seq<char>,
    is_local: bool,
    call: Option<FunctionTypeView>,
)
    requires
        find_signature(db.signatures, id) matches Some(signature) && !calls_signature(
            signature,
            call,
        ) && forall|j: int|
            0 <= j < signature.overloads.len() ==> !calls_overload(
                #[trigger] signature.overloads[j],
                call,
            ),
    ensures
        ({
            let signature = find_signature(db.signatures, id).unwrap();
            let head = signature_head(db, model, signature, owner, func_name, is_local);
            signature_hover(db, model, is_completion, id, owner, func_name, is_local, call) == Some(
                SignatureHoverView {
                    type_description: signature_line(db, model, is_completion, signature, head),
                    overloads: Some(
                        overload_lines(
                            db,
                            model,
                            is_completion,
                            signature,
                            head,
                            signature.overloads.len(),
                        ),
                    ),
                    call_function: None,
                },
            )
        }),
{
    let signature = find_signature(db.signatures, id).unwrap();
    lemma_matching_overload_none(signature.overloads, call, signature.overloads.len());
}

/// Whether a candidate has the parameters of the called function: a
/// function type written in a doc comment by its own parameters, a signature
/// by its own or by those of one of its overloads.
pub open spec fn has_call_params(
    db: DatabaseView,
    call: Option<FunctionTypeView>,
    entry: (SemanticDeclId, TypeView),
) -> bool {
    match call {
        Some(c) => match entry.1 {
            TypeView::DocFunction(f) => c.params == f.params,
            TypeView::Signature(id) => match find_signature(db.signatures, id) {
                Some(signature) => c.params == signature.params || exists|j: int|
                    0 <= j < signature.overloads.len() && calls_overload(
                        #[trigger] signature.overloads[j],
                        call,
                    ),
                None => false,
            },
            _ => false,
        },
        None => false,
    }
}

/// Whether a candidate counts as the function that the hovered call
/// resolves to.
pub open spec fn entry_is_called(
    db: DatabaseView,
    model: SemanticModelView,
    is_completion: bool,
    call: Option<FunctionTypeView>,
    name: Seq<char>,
    is_local: bool,
    entry: (SemanticDeclId, TypeView),
    is_new: bool,
) -> bool {
    entry_info(db, model, is_completion, call, name, is_local, entry, is_new) matches Some(info)
        && info.is_call_function
}

/// A candidate counts as the function that the hovered call resolves to
/// exactly where it has the parameters of the called function.
pub proof fn lemma_called_by_params(
    db: DatabaseView,
    model: SemanticModelView,
    is_completion: bool,
    call: Option<FunctionTypeView>,
    name: Seq<char>,
    is_local: bool,
    entry: (SemanticDeclId, TypeView),
    is_new: bool,
)
    ensures
        entry_is_called(db, model, is_completion, call, name, is_local, entry, is_new)
            == has_call_params(db, call, entry),
{
    match entry.1 {
        TypeView::Signature(id) => match find_signature(db.signatures, id) {
            Some(signature) => {
                let count = signature.overloads.len();
                lemma_matching_overload_bound(signature.overloads, call, count);
                if has_call_params(db, call, entry) && !calls_signature(signature, call) {
                    let j = choose|j: int|
                        0 <= j < signature.overloads.len() && calls_overload(
                            #[trigger] signature.overloads[j],
                            call,
                        );
                    lemma_matching_overload_found(signature.overloads, call, count, j);
                }
            },
            None => {},
        },
        _ => {},
    }
}

/// As long as no candidate is given up and none has the parameters of the
/// called function, the walk goes on.
pub proof fn lemma_scan_goes_on(
    db: DatabaseView,
    model: SemanticModelView,
    is_completion: bool,
    call: Option<FunctionTypeView>,
    name: Seq<char>,
    is_local: bool,
    decls: Seq<(SemanticDeclId, TypeView)>,
    k: nat,
)
    requires
        k <= decls.len(),
        forall|j: int|
            0 <= j < k ==> !entry_aborts(db, (#[trigger] decls[j]).0) && !has_call_params(
                db,
                call,
                decls[j],
            ),
    ensures
        !scan(db, model, is_completion, call, name, is_local, decls, k).aborted,
        !scan(db, model, is_completion, call, name, is_local, decls, k).matched,
    decreases k,
{
    reveal(scan_step);
    if k > 0 {
        lemma_scan_goes_on(db, model, is_completion, call, name, is_local, decls, (k - 1) as nat);
        let entry = decls[k - 1];
        lemma_called_by_params(
            db,
            model,
            is_completion,
            call,
            name,
            is_local,
            entry,
            is_new_entry(decls, k - 1),
        );
    }
}

/// The first candidate that has the parameters of the called function is
/// shown alone, provided that no candidate up to it resolves to an unknown
/// member: there is a hover, its primary line is that candidate's line, it
/// lists no overloads, whatever it listed before, and of the candidates'
/// descriptions only that candidate's is added.
pub proof fn candidate_with_call_params_is_shown_alone(
    b: HoverBuilderView,
    db: DatabaseView,
    decls: Seq<(SemanticDeclId, TypeView)>,
    k: int,
)
    requires
        0 <= k < decls.len(),
        hovered_name(db, decls[0].0) is Some,
        forall|j: int| 0 <= j <= k ==> !entry_aborts(db, (#[trigger] decls[j]).0),
        forall|j: int| 0 <= j < k ==> !has_call_params(db, b.call_function, #[trigger] decls[j]),
        has_call_params(db, b.call_function, decls[k]),
    ensures
        ({
            let name = hovered_name(db, decls[0].0).unwrap();
            let shown = entry_info(
                db,
                b.model,
                b.is_completion,
                b.call_function,
                name.0,
                name.1,
                decls[k],
                is_new_entry(decls, k),
            );
            let hover = function_hover(b, db, decls);
            &&& shown is Some
            &&& hover.1
            &&& hover.0.type_description == shown.unwrap().type_description
            &&& hover.0.signature_overload is None
            &&& hover.0.annotation_description == b.add_description(
                shown.unwrap().description,
            ).annotation_description
            &&& hover.0.see_content == b.add_description(shown.unwrap().description).see_content
            &&& hover.0.other_content == b.add_description(
                shown.unwrap().description,
            ).other_content
        }),
{
    let name = hovered_name(db, decls[0].0).unwrap();
    let call = b.call_function;
    lemma_scan_goes_on(db, b.model, b.is_completion, call, name.0, name.1, decls, k as nat);
    lemma_called_by_params(
        db,
        b.model,
        b.is_completion,
        call,
        name.0,
        name.1,
        decls[k],
        is_new_entry(decls, k),
    );
    let met = scan(db, b.model, b.is_completion, call, name.0, name.1, decls, (k + 1) as nat);
    assert(met.matched && !met.aborted && met.infos.len() == 1) by {
        reveal(scan_step);
    }
    assert(met.infos[0] == entry_info(
        db,
        b.model,
        b.is_completion,
        call,
        name.0,
        name.1,
        decls[k],
        is_new_entry(decls, k),
    ).unwrap()) by {
        reveal(scan_step);
    }
    lemma_scan_ended(
        db,
        b.model,
        b.is_completion,
        call,
        name.0,
        name.1,
        decls,
        (k + 1) as nat,
        decls.len(),
    );
}

/// What one candidate contributes to the hover of a function.
#[derive(Debug)]
pub struct HoverFunctionInfo {
    pub type_description: String,
    pub overloads: Option<Vec<String>>,
    pub description: Option<DescriptionInfo>,
    pub is_call_function: bool,
}

impl View for HoverFunctionInfo {
    type V = FunctionInfoView;

    open spec fn view(&self) -> FunctionInfoView {
        FunctionInfoView {
            type_description: self.type_description@,
            overloads: match self.overloads {
                Some(v) => Some(views(v@)),
                None => None,
            },
            description: opt_description_view(self.description),
            is_call_function: self.is_call_function,
        }
    }
}

/// The values of a list of contributions.
pub open spec fn infos_view(s: Seq<HoverFunctionInfo>) -> Seq<FunctionInfoView> {
    s.map_values(|i: HoverFunctionInfo| i@)
}

/// A copy of a list of strings.
pub fn clone_strings(v: &Vec<String>) -> (r: Vec<String>)
    ensures
        views(r@) == views(v@),
{
    let mut out: Vec<String> = Vec::new();
    let mut i: usize = 0;
    while i < v.len()
        invariant
            i <= v.len(),
            views(out@) == views(v@).take(i as int),
        decreases v.len() - i,
    {
        let s = v[i].clone();
        proof {
            lemma_views_push(out@, s);
            lemma_take_push(views(v@), i as int);
        }
        out.push(s);
        i += 1;
    }
    assert(views(v@).take(v.len() as int) =~= views(v@));
    out
}

impl Clone for HoverFunctionInfo {
    fn clone(&self) -> (r: Self)
        ensures
            r@ == self@,
    {
        HoverFunctionInfo {
            type_description: self.type_description.clone(),
            overloads: match &self.overloads {
                Some(v) => Some(clone_strings(v)),
                None => None,
            },
            description: clone_opt_description(&self.description),
            is_call_function: self.is_call_function,
        }
    }
}

/// The name under which the hovered function is shown, and whether it is
/// a local.
pub fn hover_name(db: &Database, first: &SemanticDeclId) -> (r: Option<(String, bool)>)
    ensures
        match r {
            Some((name, is_local)) => hovered_name(db@, *first) == Some((name@, is_local)),
            None => hovered_name(db@, *first) is None,
        },
{
    match first {
        SemanticDeclId::LuaDecl(id) => match db.get_decl_index().get_decl(id) {
            Some(decl) => Some((String::from_str(decl.get_name()), decl.is_local())),
            None => None,
        },
        SemanticDeclId::Member(id) => match db.get_member_index().get_member(id) {
            Some(member) => Some((member.get_key().to_path(), false)),
            None => None,
        },
        SemanticDeclId::Signature(_) => None,
    }
}

/// Whether candidate `k` resolves to something that no earlier candidate
/// resolves to.
fn is_new_decl(semantic_decls: &Vec<(SemanticDeclId, Type)>, k: usize) -> (r: bool)
    requires
        k < semantic_decls.len(),
    ensures
        r == is_new_entry(decls_view(semantic_decls@), k as int),
{
    let ghost decls = decls_view(semantic_decls@);
    let mut j: usize = 0;
    while j < k
        invariant
            j <= k < semantic_decls.len(),
            decls == decls_view(semantic_decls@),
            forall|i: int| 0 <= i < j ==> (#[trigger] decls[i]).0 != decls[k as int].0,
        decreases k - j,
    {
        assert(decls[j as int].0 == semantic_decls@[j as int].0);
        assert(decls[k as int].0 == semantic_decls@[k as int].0);
        if semantic_decls[j].0 == semantic_decls[k].0 {
            return false;
        }
        j += 1;
    }
    true
}

/// The line of a function that is known by its name alone.
fn plain_function_line(name: &str, with_brackets: bool) -> (out: String)
    ensures
        out@ == if with_brackets {
            "function "@ + name@ + "()"@
        } else {
            "function "@ + name@
        },
{
    let mut out = String::from_str("function ");
    out.append(name);
    if with_brackets {
        out.append("()");
    }
    out
}

/// Renders candidate `k` and says what it contributes; `None` for a
/// candidate whose type is a union.
fn candidate_info(
    builder: &mut HoverBuilder,
    db: &Database,
    call_function: &Option<FunctionType>,
    name: &str,
    is_local: bool,
    semantic_decls: &Vec<(SemanticDeclId, Type)>,
    k: usize,
    function_member: Option<&Member>,
) -> (r: Option<HoverFunctionInfo>)
    requires
        k < semantic_decls.len(),
        opt_member_view(function_member) == entry_member(db@, semantic_decls@[k as int].0),
    ensures
        match r {
            Some(info) => Some(info@),
            None => None,
        } == entry_info(
            db@,
            old(builder)@.model,
            old(builder)@.is_completion,
            match *call_function {
                Some(f) => Some(f@),
                None => None,
            },
            name@,
            is_local,
            decls_view(semantic_decls@)[k as int],
            is_new_entry(decls_view(semantic_decls@), k as int),
        ),
        final(builder)@ == old(builder)@.add_expansions(
            entry_expansions(
                db@,
                old(builder)@.model,
                match *call_function {
                    Some(f) => Some(f@),
                    None => None,
                },
                decls_view(semantic_decls@)[k as int],
            ),
        ),
{
    let is_new = is_new_decl(semantic_decls, k);
    let semantic_decl_id = semantic_decls[k].0;
    let typ = &semantic_decls[k].1;
    assert(decls_view(semantic_decls@)[k as int] == (semantic_decl_id, typ@));
    let mut description = if is_new {
        extract_description_from_property_owner(builder.semantic_model, &semantic_decl_id)
    } else {
        None
    };
    if let Some(member) = function_member {
        if is_new && description.is_none() {
            if let Some(signature_id) = try_extract_signature_id_from_field(
                builder.semantic_model,
                member,
            ) {
                description = extract_description_from_property_owner(
                    builder.semantic_model,
                    &SemanticDeclId::Signature(signature_id),
                );
            }
        }
    }
    let called = match call_function {
        Some(f) => Some(f),
        None => None,
    };
    match typ {
        Type::Function => Some(
            HoverFunctionInfo {
                type_description: plain_function_line(name, true),
                overloads: None,
                description,
                is_call_function: false,
            },
        ),
        Type::DocFunction(lua_func) => {
            let type_description = hover_doc_function_type(
                builder,
                db,
                &**lua_func,
                function_member,
                name,
            );
            let is_call_function = match called {
                Some(c) => params_eq(c.get_params(), lua_func.get_params()),
                None => false,
            };
            Some(
                HoverFunctionInfo {
                    type_description,
                    overloads: None,
                    description,
                    is_call_function,
                },
            )
        },
        Type::Signature(signature_id) => {
            match hover_signature_type(
                builder,
                db,
                *signature_id,
                function_member,
                name,
                is_local,
                called,
            ) {
                Some(shown) => Some(
                    HoverFunctionInfo {
                        type_description: shown.type_description,
                        overloads: shown.overloads,
                        description,
                        is_call_function: shown.call_function.is_some(),
                    },
                ),
                None => Some(
                    HoverFunctionInfo {
                        type_description: plain_function_line(name, false),
                        overloads: None,
                        description,
                        is_call_function: false,
                    },
                ),
            }
        },
        Type::Union(_) => None,
        _ => Some(
            HoverFunctionInfo {
                type_description: plain_function_line(name, false),
                overloads: None,
                description,
                is_call_function: false,
            },
        ),
    }
}

/// Whether contribution `k` shows a line that no earlier contribution
/// shows.
fn line_is_new(infos: &Vec<HoverFunctionInfo>, k: usize) -> (r: bool)
    requires
        k < infos.len(),
    ensures
        r == is_new_line(infos_view(infos@), k as int),
{
    let ghost all = infos_view(infos@);
    let mut j: usize = 0;
    while j < k
        invariant
            j <= k < infos.len(),
            all == infos_view(infos@),
            forall|i: int|
                0 <= i < j ==> (#[trigger] all[i]).type_description != all[k as int].type_description,
        decreases k - j,
    {
        assert(all[j as int] == infos@[j as int]@);
        assert(all[k as int] == infos@[k as int]@);
        if infos[j].type_description == infos[k].type_description {
            return false;
        }
        j += 1;
    }
    true
}

/// Copies of `infos` without those that show a line that an earlier one
/// shows.
pub fn dedup_by_description(infos: &Vec<HoverFunctionInfo>) -> (kept: Vec<HoverFunctionInfo>)
    ensures
        infos_view(kept@) == dedup_infos(infos_view(infos@), infos.len() as nat),
{
    let ghost all = infos_view(infos@);
    let mut kept: Vec<HoverFunctionInfo> = Vec::new();
    let mut i: usize = 0;
    assert(infos_view(kept@) =~= dedup_infos(all, 0));
    while i < infos.len()
        invariant
            i <= infos.len(),
            all == infos_view(infos@),
            infos_view(kept@) == dedup_infos(all, i as nat),
        decreases infos.len() - i,
    {
        assert(all[i as int] == infos@[i as int]@);
        if line_is_new(infos, i) {
            let copy = infos[i].clone();
            assert(infos_view(kept@.push(copy)) =~= infos_view(kept@).push(copy@));
            kept.push(copy);
        }
        i += 1;
    }
    kept
}

/// Makes the hover from what the candidates contribute; says whether
/// there is one.
pub fn finish_function_hover(builder: &mut HoverBuilder, type_descs: &Vec<HoverFunctionInfo>) -> (r:
    Option<()>)
    ensures
        (final(builder)@, r is Some) == finish(old(builder)@, infos_view(type_descs@)),
{
    if type_descs.len() > 0 && type_descs[0].is_call_function {
        assert(infos_view(type_descs@)[0] == type_descs@[0]@);
        builder.clear_signature_overload();
        builder.set_type_description(type_descs[0].type_description.clone());
        builder.add_description_from_info(clone_opt_description(&type_descs[0].description));
        return Some(());
    }
    if type_descs.len() > 0 {
        assert(infos_view(type_descs@)[0] == type_descs@[0]@);
    }
    let kept = dedup_by_description(type_descs);
    if kept.len() == 0 {
        return None;
    }
    let ghost kept_view = infos_view(kept@);
    let last = kept.len() - 1;
    assert(kept_view.last() == kept@[last as int]@);
    builder.set_type_description(kept[last].type_description.clone());
    builder.add_description_from_info(clone_opt_description(&kept[last].description));
    let ghost primary = builder@;
    let ghost rest = kept_view.drop_last();
    let mut i: usize = 0;
    while i < last
        invariant
            i <= last,
            last == kept.len() - 1,
            kept_view == infos_view(kept@),
            rest == kept_view.drop_last(),
            builder@ == add_overload_entries(primary, rest, i as nat),
        decreases last - i,
    {
        assert(rest[i as int] == kept@[i as int]@);
        builder.add_signature_overload(kept[i].type_description.clone());
        match &kept[i].overloads {
            Some(overloads) => {
                builder.add_signature_overloads(overloads);
            },
            None => {},
        }
        builder.add_description_from_info(clone_opt_description(&kept[i].description));
        i += 1;
    }
    Some(())
}

/// Takes the walk one candidate on: renders candidate `k`, adds what it
/// contributes to `type_descs`, and says whether the hover is given up and
/// whether a candidate with the parameters of the called function was met.
fn walk_candidate(
    builder: &mut HoverBuilder,
    db: &Database,
    call_function: &Option<FunctionType>,
    name: &str,
    is_local: bool,
    semantic_decls: &Vec<(SemanticDeclId, Type)>,
    k: usize,
    type_descs: &mut Vec<HoverFunctionInfo>,
    Ghost(before): Ghost<ScanView>,
) -> (r: (bool, bool))
    requires
        k < semantic_decls.len(),
        !before.aborted,
        !before.matched,
        infos_view(old(type_descs)@) == before.infos,
    ensures
        ({
            let call = match *call_function {
                Some(f) => Some(f@),
                None => None,
            };
            let decls = decls_view(semantic_decls@);
            let added = step_expansions(db@, old(builder)@.model, call, decls, k as int);
            let next = scan_step(
                before,
                db@,
                old(builder)@.model,
                old(builder)@.is_completion,
                call,
                name@,
                is_local,
                decls,
                k as int,
            );
            &&& r.0 == next.aborted
            &&& r.1 == next.matched
            &&& infos_view(final(type_descs)@) == next.infos
            &&& next.expansions == before.expansions + added
            &&& final(builder)@ == old(builder)@.add_expansions(added)
        }),
{
    reveal(scan_step);
    let ghost decls = decls_view(semantic_decls@);
    let semantic_decl_id = semantic_decls[k].0;
    assert(decls[k as int] == (semantic_decl_id, semantic_decls@[k as int].1@));
    let function_member = match semantic_decl_id {
        SemanticDeclId::Member(id) => match db.get_member_index().get_member(&id) {
            Some(member) => Some(member),
            None => {
                assert(before.expansions + Seq::<Seq<char>>::empty() =~= before.expansions);
                return (true, false);
            },
        },
        _ => None,
    };
    let info = candidate_info(
        builder,
        db,
        call_function,
        name,
        is_local,
        semantic_decls,
        k,
        function_member,
    );
    match info {
        Some(function_info) => {
            let is_call_function = function_info.is_call_function;
            if is_call_function {
                *type_descs = Vec::new();
                assert(infos_view(type_descs@.push(function_info)) =~= seq![function_info@]);
            } else {
                assert(infos_view(type_descs@.push(function_info)) =~= infos_view(
                    type_descs@,
                ).push(function_info@));
            }
            type_descs.push(function_info);
            (false, is_call_function)
        },
        None => (false, false),
    }
}

/// Renders the hover of a function from the candidates that the hovered
/// symbol resolves to; says whether there is one.
///
/// Where one of the candidates has the parameters of the function that the
/// hovered call resolves to, the line of the first such candidate is shown
/// alone. Otherwise the candidates' lines are shown, each once: the last as
/// the primary line, the others, with their own overloads, as overloads.
pub fn hover_function_type(
    builder: &mut HoverBuilder,
    db: &Database,
    semantic_decls: &Vec<(SemanticDeclId, Type)>,
) -> (r: Option<()>)
    ensures
        (final(builder)@, r is Some) == function_hover(
            old(builder)@,
            db@,
            decls_view(semantic_decls@),
        ),
{
    if semantic_decls.len() == 0 {
        return None;
    }
    let ghost decls = decls_view(semantic_decls@);
    assert(decls[0].0 == semantic_decls@[0].0);
    let (name, is_local) = match hover_name(db, &semantic_decls[0].0) {
        Some(found) => found,
        None => {
            return None;
        },
    };
    let call_function = builder.get_call_function();
    let ghost model = builder@.model;
    let ghost is_completion = builder@.is_completion;
    let ghost call = builder@.call_function;
    let mut type_descs: Vec<HoverFunctionInfo> = Vec::new();
    let mut matched = false;
    let mut k: usize = 0;
    let ghost mut walked = scan(db@, model, is_completion, call, name@, is_local, decls, 0);
    assert(infos_view(type_descs@) =~= walked.infos);
    while k < semantic_decls.len() && !matched
        invariant
            k <= semantic_decls.len(),
            decls == decls_view(semantic_decls@),
            decls.len() > 0,
            hovered_name(db@, decls[0].0) == Some((name@, is_local)),
            model == old(builder)@.model,
            is_completion == old(builder)@.is_completion,
            call == old(builder)@.call_function,
            call == match call_function {
                Some(f) => Some(f@),
                None => None,
            },
            walked == scan(db@, model, is_completion, call, name@, is_local, decls, k as nat),
            !walked.aborted,
            walked.matched == matched,
            infos_view(type_descs@) == walked.infos,
            builder@ == old(builder)@.add_expansions(walked.expansions),
        decreases semantic_decls.len() - k,
    {
        proof {
            lemma_add_expansions_twice(
                old(builder)@,
                walked.expansions,
                step_expansions(db@, model, call, decls, k as int),
            );
        }
        let outcome = walk_candidate(
            builder,
            db,
            &call_function,
            name.as_str(),
            is_local,
            semantic_decls,
            k,
            &mut type_descs,
            Ghost(walked),
        );
        proof {
            walked = scan(db@, model, is_completion, call, name@, is_local, decls, (k + 1) as nat);
        }
        if outcome.0 {
            proof {
                lemma_scan_ended(
                    db@,
                    model,
                    is_completion,
                    call,
                    name@,
                    is_local,
                    decls,
                    (k + 1) as nat,
                    decls.len(),
                );
            }
            return None;
        }
        matched = outcome.1;
        k += 1;
    }
    proof {
        if matched {
            lemma_scan_ended(
                db@,
                model,
                is_completion,
                call,
                name@,
                is_local,
                decls,
                k as nat,
                decls.len(),
            );
        }
    }
    finish_function_hover(builder, &type_descs)
}

} // verus!
