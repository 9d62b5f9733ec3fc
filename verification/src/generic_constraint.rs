//! The checker of generic constraints: a type argument, given in a doc
//! comment or inferred at a call, has to meet the bound that the generic
//! parameter declares.

use crate::db::{find_owner, find_signature, Signature, SignatureView};
use crate::diagnostic::{DiagnosticCode, DiagnosticContext, DiagnosticView};
use crate::humanize::{humanize, humanize_type, RenderLevel};
use crate::ids::{GenericTplId, MemberOwner, MemberOwnerView, SemanticDeclId, SourceRange, TypeDeclId};
use crate::semantic::{SemanticModel, SemanticModelView};
use crate::syntax::{
    CallExpr, CallExprView, DocTagType, DocTypeView, SyntaxNode, SyntaxNodeView,
};
use crate::type_check::{
    result_view, type_check_spec, FailReasonView, TypeCheckFailReason, TypeCheckResult,
};
use crate::types::{
    clone_opt_type, opt_type_view, params_view, types_view, StringTplType, Type, TypeView,
};
use vstd::prelude::*;

verus! {

/// The checker of generic constraints.
#[derive(Debug)]
pub struct GenericConstraintMismatchChecker;

/// What a failed check adds to the message.
pub open spec fn reason_text(reason: FailReasonView) -> Seq<char> {
    match reason {
        FailReasonView::TypeNotMatchWithReason(text) => text,
        FailReasonView::TypeNotMatch => Seq::empty(),
        FailReasonView::DonotCheck => Seq::empty(),
        FailReasonView::TypeRecursion => "type recursion"@,
    }
}

/// The message of a mismatch: the bound, rendered, and the reason.
pub open spec fn mismatch_message(
    db: crate::db::DatabaseView,
    bound: TypeView,
    reason: FailReasonView,
) -> Seq<char> {
    "the generic constraint must be a subclass of `"@ + humanize(db, bound, RenderLevel::Simple)
        + "`. "@ + reason_text(reason)
}

/// The diagnostic of a mismatch at `range`.
pub open spec fn mismatch(
    db: crate::db::DatabaseView,
    range: SourceRange,
    bound: TypeView,
    reason: FailReasonView,
) -> DiagnosticView {
    DiagnosticView {
        code: DiagnosticCode::GenericConstraintMismatch,
        range,
        message: mismatch_message(db, bound, reason),
        data: None,
    }
}

/// What the check of one argument against one bound reports: nothing where
/// the argument is accepted, one mismatch at `range` where it is not.
pub open spec fn constraint_diagnostics(
    db: crate::db::DatabaseView,
    range: SourceRange,
    bound: TypeView,
    arg: TypeView,
) -> Seq<DiagnosticView> {
    match type_check_spec(db, bound, arg) {
        Ok(_) => Seq::empty(),
        Err(reason) => seq![mismatch(db, range, bound, reason)],
    }
}

/// What position `i` of a generic application reports: the check of the
/// argument against the bound where the parameter has one, else nothing.
pub open spec fn position_diagnostics(
    db: crate::db::DatabaseView,
    range: SourceRange,
    generic_params: Seq<(Seq<char>, Option<TypeView>)>,
    args: Seq<TypeView>,
    i: int,
) -> Seq<DiagnosticView> {
    if 0 <= i < generic_params.len() && i < args.len() && generic_params[i].1 is Some {
        constraint_diagnostics(db, range, generic_params[i].1.unwrap(), args[i])
    } else {
        Seq::empty()
    }
}

/// What the first `n` positions of a generic application report, in order.
pub open spec fn application_diagnostics(
    db: crate::db::DatabaseView,
    range: SourceRange,
    generic_params: Seq<(Seq<char>, Option<TypeView>)>,
    args: Seq<TypeView>,
    n: nat,
) -> Seq<DiagnosticView>
    decreases n,
{
    if n == 0 {
        Seq::empty()
    } else {
        application_diagnostics(db, range, generic_params, args, (n - 1) as nat)
            + position_diagnostics(db, range, generic_params, args, n - 1)
    }
}

/// What a type written in a doc comment reports: where it applies a
/// declared generic type, the checks of all its positions.
pub open spec fn doc_type_diagnostics(db: crate::db::DatabaseView, doc_type: DocTypeView) -> Seq<
    DiagnosticView,
> {
    match doc_type.ty {
        TypeView::Generic { base, params } => match db.generic_params(base) {
            Some(generic_params) => application_diagnostics(
                db,
                doc_type.range,
                generic_params,
                params,
                params.len(),
            ),
            None => Seq::empty(),
        },
        _ => Seq::empty(),
    }
}

/// What the first `n` types of a doc tag report, in order.
pub open spec fn doc_tag_diagnostics(
    db: crate::db::DatabaseView,
    types: Seq<DocTypeView>,
    n: nat,
) -> Seq<DiagnosticView>
    decreases n,
{
    if n == 0 {
        Seq::empty()
    } else {
        doc_tag_diagnostics(db, types, (n - 1) as nat) + doc_type_diagnostics(db, types[n - 1])
    }
}

/// The receiver parameter that a call with a colon supplies.
pub open spec fn self_param() -> (Seq<char>, Option<TypeView>) {
    ("self"@, Some(TypeView::SelfInfer))
}

/// The parameters that the arguments of a call are held against.
///
/// Where call and declaration agree on the receiver, the declared
/// parameters. Where a function declared without a receiver is called with a
/// colon, the declared parameters after a receiver parameter. Where a
/// function declared with a receiver is called with a dot, the declared
/// parameters without the first.
pub open spec fn effective_params(
    params: Seq<(Seq<char>, Option<TypeView>)>,
    called_with_colon: bool,
    declared_with_colon: bool,
) -> Seq<(Seq<char>, Option<TypeView>)> {
    if called_with_colon == declared_with_colon {
        params
    } else if called_with_colon {
        seq![self_param()] + params
    } else if params.len() >= 1 {
        params.drop_first()
    } else {
        params
    }
}

/// The bound that the generic parameter `tpl_id` declares, seen from the
/// call `call` of `signature`.
///
/// A parameter of the function is looked up in the signature's own generic
/// parameters. A parameter of a type is looked up in the generic parameters
/// of the type that holds the called member.
pub open spec fn extend_type(
    model: SemanticModelView,
    call: CallExprView,
    tpl_id: GenericTplId,
    signature: SignatureView,
) -> Option<TypeView> {
    match tpl_id {
        GenericTplId::Func(i) => if i < signature.generic_params.len() {
            signature.generic_params[i as int].1
        } else {
            None
        },
        GenericTplId::Type(i) => match call.prefix {
            Some(prefix) => match model.decl_of(prefix) {
                Some(SemanticDeclId::Member(member_id)) => match find_owner(
                    model.db.members,
                    member_id,
                ) {
                    Some(MemberOwnerView::Type(name)) => match model.db.generic_params(name) {
                        Some(generic_params) => if i < generic_params.len() {
                            generic_params[i as int].1
                        } else {
                            None
                        },
                        None => None,
                    },
                    _ => None,
                },
                _ => None,
            },
            None => None,
        },
    }
}

/// What the argument at position `i` reports where the parameter there is
/// a generic parameter with the bound `bound`: the check of the argument's
/// inferred type against the bound, at the argument's range.
pub open spec fn tpl_ref_diagnostics(
    model: SemanticModelView,
    call: CallExprView,
    i: int,
    bound: Option<TypeView>,
) -> Seq<DiagnosticView> {
    match (bound, call.arg(i)) {
        (Some(b), Some(arg)) => match model.infer(arg) {
            Some(arg_type) => constraint_diagnostics(model.db, arg.range, b, arg_type),
            None => Seq::empty(),
        },
        _ => Seq::empty(),
    }
}

/// What the argument at position `i` reports where the parameter there is
/// a string-template parameter with the bound `bound`.
///
/// Nothing where bound and argument are both of a string type. Otherwise a
/// string constant names a type, its text between `prefix` and `suffix`,
/// and the reference to that type is checked against the bound.
pub open spec fn str_tpl_ref_diagnostics(
    model: SemanticModelView,
    call: CallExprView,
    i: int,
    bound: Option<TypeView>,
    prefix: Seq<char>,
    suffix: Seq<char>,
) -> Seq<DiagnosticView> {
    match (bound, call.arg(i)) {
        (Some(b), Some(arg)) => match model.infer(arg) {
            Some(arg_type) => if b.is_string() && arg_type.is_string() {
                Seq::empty()
            } else {
                match arg_type {
                    TypeView::StringConst(text) => constraint_diagnostics(
                        model.db,
                        arg.range,
                        b,
                        TypeView::Ref(prefix + text + suffix),
                    ),
                    _ => Seq::empty(),
                }
            },
            None => Seq::empty(),
        },
        _ => Seq::empty(),
    }
}

/// What position `i` of the effective parameters `params` reports.
pub open spec fn param_diagnostics(
    model: SemanticModelView,
    call: CallExprView,
    signature: SignatureView,
    params: Seq<(Seq<char>, Option<TypeView>)>,
    i: int,
) -> Seq<DiagnosticView> {
    match params[i].1 {
        Some(TypeView::StrTplRef { prefix, name, suffix, tpl_id }) => str_tpl_ref_diagnostics(
            model,
            call,
            i,
            extend_type(model, call, tpl_id, signature),
            prefix,
            suffix,
        ),
        Some(TypeView::TplRef { tpl_id, name }) => tpl_ref_diagnostics(
            model,
            call,
            i,
            extend_type(model, call, tpl_id, signature),
        ),
        _ => Seq::empty(),
    }
}

/// What the first `n` of the effective parameters report, in order.
pub open spec fn params_diagnostics(
    model: SemanticModelView,
    call: CallExprView,
    signature: SignatureView,
    params: Seq<(Seq<char>, Option<TypeView>)>,
    n: nat,
) -> Seq<DiagnosticView>
    decreases n,
{
    if n == 0 {
        Seq::empty()
    } else {
        params_diagnostics(model, call, signature, params, (n - 1) as nat) + param_diagnostics(
            model,
            call,
            signature,
            params,
            n - 1,
        )
    }
}

/// What a call reports: where what is called is a known signature, the
/// checks of its effective parameters.
pub open spec fn call_diagnostics(model: SemanticModelView, call: CallExprView) -> Seq<
    DiagnosticView,
> {
    match call.prefix {
        Some(prefix) => match model.infer(prefix) {
            Some(TypeView::Signature(id)) => match find_signature(model.db.signatures, id) {
                Some(signature) => {
                    let params = effective_params(
                        signature.params,
                        call.is_colon_call,
                        signature.is_colon_define,
                    );
                    params_diagnostics(model, call, signature, params, params.len())
                },
                None => Seq::empty(),
            },
            _ => Seq::empty(),
        },
        None => Seq::empty(),
    }
}

/// What one node reports.
pub open spec fn node_diagnostics(model: SemanticModelView, node: SyntaxNodeView) -> Seq<
    DiagnosticView,
> {
    match node {
        SyntaxNodeView::Call(call) => call_diagnostics(model, call),
        SyntaxNodeView::DocTagType(tag) => doc_tag_diagnostics(model.db, tag.types, tag.types.len()),
        _ => Seq::empty(),
    }
}

/// What the first `n` nodes of a file report, in document order.
pub open spec fn tree_diagnostics(model: SemanticModelView, nodes: Seq<SyntaxNodeView>, n: nat) -> Seq<
    DiagnosticView,
>
    decreases n,
{
    if n == 0 {
        Seq::empty()
    } else {
        tree_diagnostics(model, nodes, (n - 1) as nat) + node_diagnostics(model, nodes[n - 1])
    }
}

/// A bounded position of a generic application reports exactly one
/// mismatch, at the application's range, where the argument violates the
/// bound, and nothing where the argument meets it.
pub proof fn bounded_position_reports_once(
    db: crate::db::DatabaseView,
    range: SourceRange,
    generic_params: Seq<(Seq<char>, Option<TypeView>)>,
    args: Seq<TypeView>,
    i: int,
)
    requires
        0 <= i < generic_params.len(),
        i < args.len(),
        generic_params[i].1 is Some,
    ensures
        type_check_spec(db, generic_params[i].1.unwrap(), args[i]) is Ok ==> position_diagnostics(
            db,
            range,
            generic_params,
            args,
            i,
        ).len() == 0,
        type_check_spec(db, generic_params[i].1.unwrap(), args[i]) is Err ==> {
            let reported = position_diagnostics(db, range, generic_params, args, i);
            &&& reported.len() == 1
            &&& reported[0].code == DiagnosticCode::GenericConstraintMismatch
            &&& reported[0].range == range
        },
{
}

/// Whether position `j` of a generic application is in order: unbounded,
/// or bounded with an argument that meets the bound.
pub open spec fn position_in_order(
    db: crate::db::DatabaseView,
    generic_params: Seq<(Seq<char>, Option<TypeView>)>,
    args: Seq<TypeView>,
    j: int,
) -> bool {
    0 <= j < generic_params.len() && j < args.len() && generic_params[j].1 is Some
        ==> type_check_spec(db, generic_params[j].1.unwrap(), args[j]) is Ok
}

/// An application of a generic type in which every position among the
/// first `n` is in order reports nothing.
pub proof fn compatible_application_reports_nothing(
    db: crate::db::DatabaseView,
    range: SourceRange,
    generic_params: Seq<(Seq<char>, Option<TypeView>)>,
    args: Seq<TypeView>,
    n: nat,
)
    requires
        forall|j: int| 0 <= j < n ==> position_in_order(db, generic_params, args, j),
    ensures
        application_diagnostics(db, range, generic_params, args, n).len() == 0,
    decreases n,
{
    if n > 0 {
        compatible_application_reports_nothing(db, range, generic_params, args, (n - 1) as nat);
        assert(position_in_order(db, generic_params, args, n - 1));
    }
}

/// An application of a generic type whose argument at the bounded
/// position `i` violates the bound, and whose other positions are in order,
/// reports exactly one mismatch, at the application's range.
pub proof fn violated_bound_reports_exactly_once(
    db: crate::db::DatabaseView,
    range: SourceRange,
    generic_params: Seq<(Seq<char>, Option<TypeView>)>,
    args: Seq<TypeView>,
    i: int,
    n: nat,
)
    requires
        0 <= i < generic_params.len(),
        i < args.len(),
        i < n,
        generic_params[i].1 is Some,
        type_check_spec(db, generic_params[i].1.unwrap(), args[i]) is Err,
        forall|j: int| 0 <= j < n && j != i ==> position_in_order(db, generic_params, args, j),
    ensures
        application_diagnostics(db, range, generic_params, args, n).len() == 1,
        application_diagnostics(db, range, generic_params, args, n)[0].code
            == DiagnosticCode::GenericConstraintMismatch,
        application_diagnostics(db, range, generic_params, args, n)[0].range == range,
    decreases n,
{
    if n - 1 == i {
        compatible_application_reports_nothing(db, range, generic_params, args, (n - 1) as nat);
    } else {
        violated_bound_reports_exactly_once(db, range, generic_params, args, i, (n - 1) as nat);
        assert(position_in_order(db, generic_params, args, n - 1));
    }
}

/// A function declared with a receiver and called with a dot is checked
/// against its declared parameters without the first: one fewer than
/// declared.
pub proof fn dot_call_of_colon_define_drops_self(params: Seq<(Seq<char>, Option<TypeView>)>)
    requires
        params.len() >= 1,
    ensures
        effective_params(params, false, true).len() == params.len() - 1,
        forall|i: int|
            0 <= i < params.len() - 1 ==> effective_params(params, false, true)[i] == params[i + 1],
{
}

/// A function declared without a receiver and called with a colon is
/// checked against a receiver parameter followed by its declared
/// parameters.
pub proof fn colon_call_of_dot_define_adds_self(params: Seq<(Seq<char>, Option<TypeView>)>)
    ensures
        effective_params(params, true, false).len() == params.len() + 1,
        effective_params(params, true, false)[0] == self_param(),
        forall|i: int|
            0 <= i < params.len() ==> effective_params(params, true, false)[i + 1] == params[i],
{
}

/// With neither prefix nor suffix, a string constant given for a
/// string-template parameter is checked as the reference to the type that
/// the constant names; and where bound and argument are both of a string
/// type nothing is reported, whatever the argument's value.
pub proof fn string_template_check(
    model: SemanticModelView,
    call: CallExprView,
    i: int,
    bound: TypeView,
    arg: crate::ids::SyntaxId,
    arg_type: TypeView,
)
    requires
        call.arg(i) == Some(arg),
        model.infer(arg) == Some(arg_type),
    ensures
        bound.is_string() && arg_type.is_string() ==> str_tpl_ref_diagnostics(
            model,
            call,
            i,
            Some(bound),
            Seq::empty(),
            Seq::empty(),
        ).len() == 0,
        !bound.is_string() ==> (arg_type matches TypeView::StringConst(text)
            ==> str_tpl_ref_diagnostics(model, call, i, Some(bound), Seq::empty(), Seq::empty())
            == constraint_diagnostics(model.db, arg.range, bound, TypeView::Ref(text))),
{
    if let TypeView::StringConst(text) = arg_type {
        assert(Seq::<char>::empty() + text + Seq::<char>::empty() =~= text);
    }
}

/// Adds the diagnostic of a failed check of an argument against the bound
/// `extend_type`; adds nothing where the check passed.
pub fn add_type_check_diagnostic(
    context: &mut DiagnosticContext,
    semantic_model: &SemanticModel,
    range: SourceRange,
    extend_type: &Type,
    result: TypeCheckResult,
)
    ensures
        final(context)@.file_id == old(context)@.file_id,
        final(context)@.diagnostics == old(context)@.diagnostics + match result_view(result) {
            Ok(_) => Seq::empty(),
            Err(reason) => seq![mismatch(semantic_model@.db, range, extend_type@, reason)],
        },
{
    let db = semantic_model.get_db();
    match result {
        Ok(_) => {
            assert(context@.diagnostics + Seq::empty() =~= context@.diagnostics);
        },
        Err(reason) => {
            let reason_message = match reason {
                TypeCheckFailReason::TypeNotMatchWithReason(text) => text,
                TypeCheckFailReason::TypeNotMatch | TypeCheckFailReason::DonotCheck => String::new(),
                TypeCheckFailReason::TypeRecursion => String::from_str("type recursion"),
            };
            let mut message = String::from_str("the generic constraint must be a subclass of `");
            let source = humanize_type(db, extend_type, RenderLevel::Simple);
            message.append(source.as_str());
            message.append("`. ");
            message.append(reason_message.as_str());
            context.add_diagnostic(DiagnosticCode::GenericConstraintMismatch, range, message, None);
            assert(context@.diagnostics =~= old(context)@.diagnostics + seq![
                mismatch(semantic_model@.db, range, extend_type@, reason@),
            ]);
        },
    }
}

/// Checks `arg` against `bound` and reports a mismatch at `range`.
pub fn check_constraint(
    context: &mut DiagnosticContext,
    semantic_model: &SemanticModel,
    range: SourceRange,
    bound: &Type,
    arg: &Type,
)
    ensures
        final(context)@.file_id == old(context)@.file_id,
        final(context)@.diagnostics == old(context)@.diagnostics + constraint_diagnostics(
            semantic_model@.db,
            range,
            bound@,
            arg@,
        ),
{
    let result = semantic_model.type_check(bound, arg);
    if result.is_err() {
        add_type_check_diagnostic(context, semantic_model, range, bound, result);
    } else {
        assert(context@.diagnostics + Seq::empty() =~= context@.diagnostics);
    }
}

/// Checks the generic types that a doc tag applies: each argument against
/// the bound of its parameter, where the parameter has one.
pub fn check_doc_tag_type(
    context: &mut DiagnosticContext,
    semantic_model: &SemanticModel,
    doc_tag_type: &DocTagType,
)
    ensures
        final(context)@.file_id == old(context)@.file_id,
        final(context)@.diagnostics == old(context)@.diagnostics + doc_tag_diagnostics(
            semantic_model@.db,
            doc_tag_type@.types,
            doc_tag_type@.types.len(),
        ),
{
    let ghost db = semantic_model@.db;
    let ghost types = doc_tag_type@.types;
    let mut k: usize = 0;
    assert(context@.diagnostics + Seq::empty() =~= context@.diagnostics);
    while k < doc_tag_type.types.len()
        invariant
            k <= doc_tag_type.types.len(),
            db == semantic_model@.db,
            types == doc_tag_type@.types,
            context@.file_id == old(context)@.file_id,
            context@.diagnostics == old(context)@.diagnostics + doc_tag_diagnostics(
                db,
                types,
                k as nat,
            ),
        decreases doc_tag_type.types.len() - k,
    {
        let doc_type = &doc_tag_type.types[k];
        let ghost before = context@.diagnostics;
        assert(types[k as int] == doc_type@);
        match &doc_type.ty {
            Type::Generic(generic_type) => {
                match semantic_model.get_db().get_type_index().get_generic_params(
                    &generic_type.base,
                ) {
                    Some(generic_params) => {
                        let ghost gps = params_view(generic_params@);
                        let ghost args = types_view(generic_type.params@);
                        let mut i: usize = 0;
                        assert(context@.diagnostics + Seq::empty() =~= context@.diagnostics);
                        while i < generic_type.params.len()
                            invariant
                                i <= generic_type.params.len(),
                                db == semantic_model@.db,
                                gps == params_view(generic_params@),
                                args == types_view(generic_type.params@),
                                context@.file_id == old(context)@.file_id,
                                context@.diagnostics == before + application_diagnostics(
                                    db,
                                    doc_type.range,
                                    gps,
                                    args,
                                    i as nat,
                                ),
                            decreases generic_type.params.len() - i,
                        {
                            let ghost so_far = context@.diagnostics;
                            let ghost here = position_diagnostics(
                                db,
                                doc_type.range,
                                gps,
                                args,
                                i as int,
                            );
                            assert(args[i as int] == generic_type.params@[i as int]@);
                            if i < generic_params.len() {
                                match &generic_params[i].1 {
                                    Some(bound) => {
                                        check_constraint(
                                            context,
                                            semantic_model,
                                            doc_type.range,
                                            bound,
                                            &generic_type.params[i],
                                        );
                                    },
                                    None => {},
                                }
                            }
                            assert(context@.diagnostics =~= so_far + here);
                            assert(context@.diagnostics =~= before + application_diagnostics(
                                db,
                                doc_type.range,
                                gps,
                                args,
                                (i + 1) as nat,
                            ));
                            i += 1;
                        }
                    },
                    None => {
                        assert(context@.diagnostics + Seq::empty() =~= context@.diagnostics);
                    },
                }
            },
            _ => {
                assert(context@.diagnostics + Seq::empty() =~= context@.diagnostics);
            },
        }
        assert(context@.diagnostics == before + doc_type_diagnostics(db, types[k as int]));
        assert(context@.diagnostics =~= old(context)@.diagnostics + doc_tag_diagnostics(
            db,
            types,
            (k + 1) as nat,
        ));
        k += 1;
    }
}

/// The parameters that the arguments of a call are held against.
pub fn adjust_params(
    params: Vec<(String, Option<Type>)>,
    called_with_colon: bool,
    declared_with_colon: bool,
) -> (r: Vec<(String, Option<Type>)>)
    ensures
        params_view(r@) == effective_params(
            params_view(params@),
            called_with_colon,
            declared_with_colon,
        ),
{
    let mut params = params;
    let ghost declared = params@;
    if called_with_colon == declared_with_colon {
    } else if called_with_colon {
        params.insert(0, (String::from_str("self"), Some(Type::SelfInfer)));
        assert(params_view(params@) =~= seq![self_param()] + params_view(declared));
    } else if params.len() >= 1 {
        params.remove(0);
        assert(params_view(params@) =~= params_view(declared).drop_first());
    }
    params
}

/// The bound that the generic parameter `tpl_id` declares, seen from the
/// call `call_expr` of `signature`.
pub fn get_extend_type(
    semantic_model: &SemanticModel,
    call_expr: &CallExpr,
    tpl_id: GenericTplId,
    signature: &Signature,
) -> (r: Option<Type>)
    ensures
        opt_type_view(r) == extend_type(semantic_model@, call_expr@, tpl_id, signature@),
{
    match tpl_id {
        GenericTplId::Func(i) => {
            if (i as usize) < signature.generic_params.len() {
                assert(signature@.generic_params[i as int] == (
                    signature.generic_params@[i as int].0@,
                    opt_type_view(signature.generic_params@[i as int].1),
                ));
                clone_opt_type(&signature.generic_params[i as usize].1)
            } else {
                None
            }
        },
        GenericTplId::Type(i) => {
            let prefix = match call_expr.get_prefix_expr() {
                Some(p) => p,
                None => {
                    return None;
                },
            };
            let member_id = match semantic_model.find_decl(prefix) {
                Some(SemanticDeclId::Member(id)) => id,
                _ => {
                    return None;
                },
            };
            let db = semantic_model.get_db();
            let type_id = match db.get_member_index().get_current_owner(&member_id) {
                Some(MemberOwner::Type(id)) => id,
                _ => {
                    return None;
                },
            };
            match db.get_type_index().get_generic_params(type_id) {
                Some(generic_params) => {
                    if (i as usize) < generic_params.len() {
                        assert(params_view(generic_params@)[i as int] == (
                            generic_params@[i as int].0@,
                            opt_type_view(generic_params@[i as int].1),
                        ));
                        clone_opt_type(&generic_params[i as usize].1)
                    } else {
                        None
                    }
                },
                None => None,
            }
        },
    }
}

/// Checks the argument at `param_index` against the bound of a generic
/// parameter.
pub fn check_tpl_ref(
    context: &mut DiagnosticContext,
    semantic_model: &SemanticModel,
    call_expr: &CallExpr,
    param_index: usize,
    extend_type: &Option<Type>,
)
    ensures
        final(context)@.file_id == old(context)@.file_id,
        final(context)@.diagnostics == old(context)@.diagnostics + tpl_ref_diagnostics(
            semantic_model@,
            call_expr@,
            param_index as int,
            opt_type_view(*extend_type),
        ),
{
    assert(context@.diagnostics + Seq::empty() =~= context@.diagnostics);
    let bound = match extend_type {
        Some(b) => b,
        None => {
            return ;
        },
    };
    let arg_expr = match call_expr.get_arg(param_index) {
        Some(a) => a,
        None => {
            return ;
        },
    };
    let arg_type = match semantic_model.infer_expr(arg_expr) {
        Some(t) => t,
        None => {
            return ;
        },
    };
    check_constraint(context, semantic_model, arg_expr.range, bound, &arg_type);
}

/// Checks the argument at `param_index` against the bound of a
/// string-template parameter.
pub fn check_str_tpl_ref(
    context: &mut DiagnosticContext,
    semantic_model: &SemanticModel,
    call_expr: &CallExpr,
    param_index: usize,
    extend_type: &Option<Type>,
    str_tpl_ref: &StringTplType,
)
    ensures
        final(context)@.file_id == old(context)@.file_id,
        final(context)@.diagnostics == old(context)@.diagnostics + str_tpl_ref_diagnostics(
            semantic_model@,
            call_expr@,
            param_index as int,
            opt_type_view(*extend_type),
            str_tpl_ref.prefix@,
            str_tpl_ref.suffix@,
        ),
{
    assert(context@.diagnostics + Seq::empty() =~= context@.diagnostics);
    let bound = match extend_type {
        Some(b) => b,
        None => {
            return ;
        },
    };
    let arg_expr = match call_expr.get_arg(param_index) {
        Some(a) => a,
        None => {
            return ;
        },
    };
    let arg_type = match semantic_model.infer_expr(arg_expr) {
        Some(t) => t,
        None => {
            return ;
        },
    };
    if bound.is_string() && arg_type.is_string() {
        return ;
    }
    match &arg_type {
        Type::StringConst(text) => {
            let mut full_name = str_tpl_ref.prefix.clone();
            full_name.append(text.as_str());
            full_name.append(str_tpl_ref.suffix.as_str());
            let referenced = Type::Ref(TypeDeclId::new(full_name.as_str()));
            check_constraint(context, semantic_model, arg_expr.range, bound, &referenced);
        },
        _ => {},
    }
}

/// Checks the arguments of a call against the bounds of the generic
/// parameters that the called signature's parameters name.
pub fn check_call_expr(
    context: &mut DiagnosticContext,
    semantic_model: &SemanticModel,
    call_expr: &CallExpr,
)
    ensures
        final(context)@.file_id == old(context)@.file_id,
        final(context)@.diagnostics == old(context)@.diagnostics + call_diagnostics(
            semantic_model@,
            call_expr@,
        ),
{
    assert(context@.diagnostics + Seq::empty() =~= context@.diagnostics);
    let prefix = match call_expr.get_prefix_expr() {
        Some(p) => p,
        None => {
            return ;
        },
    };
    let function = match semantic_model.infer_expr(prefix) {
        Some(t) => t,
        None => {
            return ;
        },
    };
    let signature_id = match function {
        Type::Signature(id) => id,
        _ => {
            return ;
        },
    };
    let signature = match semantic_model.get_db().get_signature_index().get(&signature_id) {
        Some(s) => s,
        None => {
            return ;
        },
    };
    let params = adjust_params(
        signature.get_type_params(),
        call_expr.is_colon_call(),
        signature.is_colon_define,
    );
    let ghost model = semantic_model@;
    let ghost call = call_expr@;
    let ghost sig = signature@;
    let ghost ps = params_view(params@);
    let mut i: usize = 0;
    while i < params.len()
        invariant
            i <= params.len(),
            model == semantic_model@,
            call == call_expr@,
            sig == signature@,
            ps == params_view(params@),
            context@.file_id == old(context)@.file_id,
            context@.diagnostics == old(context)@.diagnostics + params_diagnostics(
                model,
                call,
                sig,
                ps,
                i as nat,
            ),
        decreases params.len() - i,
    {
        let ghost so_far = context@.diagnostics;
        let ghost here = param_diagnostics(model, call, sig, ps, i as int);
        assert(ps[i as int] == (params@[i as int].0@, opt_type_view(params@[i as int].1)));
        match &params[i].1 {
            Some(Type::StrTplRef(str_tpl_ref)) => {
                let bound = get_extend_type(
                    semantic_model,
                    call_expr,
                    str_tpl_ref.tpl_id,
                    signature,
                );
                check_str_tpl_ref(context, semantic_model, call_expr, i, &bound, str_tpl_ref);
            },
            Some(Type::TplRef(tpl_ref)) => {
                let bound = get_extend_type(semantic_model, call_expr, tpl_ref.tpl_id, signature);
                check_tpl_ref(context, semantic_model, call_expr, i, &bound);
            },
            _ => {
                assert(context@.diagnostics + Seq::empty() =~= context@.diagnostics);
            },
        }
        assert(context@.diagnostics == so_far + here);
        assert(context@.diagnostics =~= old(context)@.diagnostics + params_diagnostics(
            model,
            call,
            sig,
            ps,
            (i + 1) as nat,
        ));
        i += 1;
    }
}

impl GenericConstraintMismatchChecker {
    /// The codes of the diagnostics that this checker makes.
    pub fn codes() -> (r: Vec<DiagnosticCode>)
        ensures
            r@ == seq![DiagnosticCode::GenericConstraintMismatch],
    {
        let mut codes: Vec<DiagnosticCode> = Vec::new();
        codes.push(DiagnosticCode::GenericConstraintMismatch);
        assert(codes@ =~= seq![DiagnosticCode::GenericConstraintMismatch]);
        codes
    }

    /// Checks the node at position `index` of the model's file; says
    /// whether there is such a node. A caller that checks the nodes one by
    /// one, in order, may stop between any two of them.
    pub fn check_node(
        context: &mut DiagnosticContext,
        semantic_model: &SemanticModel,
        index: usize,
    ) -> (r: bool)
        ensures
            r == (index < semantic_model@.root.len()),
            final(context)@.file_id == old(context)@.file_id,
            r ==> final(context)@.diagnostics == old(context)@.diagnostics + node_diagnostics(
                semantic_model@,
                semantic_model@.root[index as int],
            ),
            !r ==> final(context)@.diagnostics == old(context)@.diagnostics,
    {
        let root = semantic_model.get_root();
        if index >= root.nodes.len() {
            return false;
        }
        assert(semantic_model@.root[index as int] == root.nodes@[index as int]@);
        match &root.nodes[index] {
            SyntaxNode::Call(call_expr) => {
                check_call_expr(context, semantic_model, call_expr);
            },
            SyntaxNode::DocTagType(doc_tag_type) => {
                check_doc_tag_type(context, semantic_model, doc_tag_type);
            },
            _ => {
                assert(context@.diagnostics + Seq::empty() =~= context@.diagnostics);
            },
        }
        true
    }

    /// Walks the nodes of the model's file once, in document order, and
    /// checks each call and each doc tag with types.
    pub fn check(context: &mut DiagnosticContext, semantic_model: &SemanticModel)
        ensures
            final(context)@.file_id == old(context)@.file_id,
            final(context)@.diagnostics == old(context)@.diagnostics + tree_diagnostics(
                semantic_model@,
                semantic_model@.root,
                semantic_model@.root.len(),
            ),
    {
        let ghost model = semantic_model@;
        let mut k: usize = 0;
        assert(context@.diagnostics + Seq::empty() =~= context@.diagnostics);
        let count = semantic_model.get_root().nodes.len();
        assert(model.root.len() == count);
        loop
            invariant
                k <= model.root.len() <= usize::MAX,
                model == semantic_model@,
                context@.file_id == old(context)@.file_id,
                context@.diagnostics == old(context)@.diagnostics + tree_diagnostics(
                    model,
                    model.root,
                    k as nat,
                ),
            ensures
                k == model.root.len(),
            decreases model.root.len() - k,
        {
            let ghost so_far = context@.diagnostics;
            if !Self::check_node(context, semantic_model, k) {
                break ;
            }
            assert(context@.diagnostics =~= old(context)@.diagnostics + tree_diagnostics(
                model,
                model.root,
                (k + 1) as nat,
            ));
            k += 1;
        }
    }
}

} // verus!
