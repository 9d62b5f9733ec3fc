//! The registry of checkers: which there are, which codes each may report,
//! and the run of all of them over one file.

use crate::db::{DatabaseView, SignatureView};
use crate::diagnostic::{DiagnosticCode, DiagnosticContext, DiagnosticView};
use crate::generic_constraint::{
    application_diagnostics, call_diagnostics, doc_tag_diagnostics, doc_type_diagnostics,
    node_diagnostics, param_diagnostics, params_diagnostics, tree_diagnostics,
    GenericConstraintMismatchChecker,
};
use crate::ids::SourceRange;
use crate::semantic::{SemanticModel, SemanticModelView};
use crate::syntax::{CallExprView, DocTypeView, SyntaxNodeView};
use crate::types::TypeView;
use vstd::prelude::*;

verus! {

/// The checkers that there are.
#[derive(Clone, Copy, PartialEq, Eq, Structural, Debug)]
pub enum CheckerKind {
    GenericConstraintMismatch,
}

/// The checkers in the order in which they run.
pub open spec fn registered() -> Seq<CheckerKind> {
    seq![CheckerKind::GenericConstraintMismatch]
}

/// The codes that a checker may report.
pub open spec fn checker_codes(kind: CheckerKind) -> Seq<DiagnosticCode> {
    match kind {
        CheckerKind::GenericConstraintMismatch => seq![DiagnosticCode::GenericConstraintMismatch],
    }
}

/// What a checker reports of a file.
pub open spec fn checker_diagnostics(kind: CheckerKind, model: SemanticModelView) -> Seq<
    DiagnosticView,
> {
    match kind {
        CheckerKind::GenericConstraintMismatch => tree_diagnostics(
            model,
            model.root,
            model.root.len(),
        ),
    }
}

/// What the first `n` of the checkers `kinds` report of a file, checker
/// after checker.
pub open spec fn checkers_diagnostics(kinds: Seq<CheckerKind>, model: SemanticModelView, n: nat) -> Seq<
    DiagnosticView,
>
    decreases n,
{
    if n == 0 {
        Seq::empty()
    } else {
        checkers_diagnostics(kinds, model, (n - 1) as nat) + checker_diagnostics(
            kinds[n - 1],
            model,
        )
    }
}

/// Whether every diagnostic of `found` has one of the codes `codes`.
pub open spec fn within_codes(found: Seq<DiagnosticView>, codes: Seq<DiagnosticCode>) -> bool {
    forall|i: int| 0 <= i < found.len() ==> codes.contains(#[trigger] found[i].code)
}

/// The checkers in the order in which they run.
pub fn checkers() -> (r: Vec<CheckerKind>)
    ensures
        r@ == registered(),
{
    let mut list: Vec<CheckerKind> = Vec::new();
    list.push(CheckerKind::GenericConstraintMismatch);
    assert(list@ =~= registered());
    list
}

/// The codes that a checker may report.
pub fn codes_of(kind: CheckerKind) -> (r: Vec<DiagnosticCode>)
    ensures
        r@ == checker_codes(kind),
{
    match kind {
        CheckerKind::GenericConstraintMismatch => GenericConstraintMismatchChecker::codes(),
    }
}

/// Runs one checker over the model's file.
pub fn run_checker(kind: CheckerKind, context: &mut DiagnosticContext, semantic_model: &SemanticModel)
    ensures
        final(context)@.file_id == old(context)@.file_id,
        final(context)@.diagnostics == old(context)@.diagnostics + checker_diagnostics(
            kind,
            semantic_model@,
        ),
{
    match kind {
        CheckerKind::GenericConstraintMismatch => {
            GenericConstraintMismatchChecker::check(context, semantic_model);
        },
    }
}

/// Runs every checker over the model's file, in the registered order.
pub fn check_file(context: &mut DiagnosticContext, semantic_model: &SemanticModel)
    ensures
        final(context)@.file_id == old(context)@.file_id,
        final(context)@.diagnostics == old(context)@.diagnostics + checkers_diagnostics(
            registered(),
            semantic_model@,
            registered().len(),
        ),
{
    let kinds = checkers();
    let mut i: usize = 0;
    assert(context@.diagnostics + Seq::empty() =~= context@.diagnostics);
    while i < kinds.len()
        invariant
            i <= kinds.len(),
            kinds@ == registered(),
            context@.file_id == old(context)@.file_id,
            context@.diagnostics == old(context)@.diagnostics + checkers_diagnostics(
                registered(),
                semantic_model@,
                i as nat,
            ),
        decreases kinds.len() - i,
    {
        let ghost so_far = context@.diagnostics;
        run_checker(kinds[i], context, semantic_model);
        assert(context@.diagnostics =~= old(context)@.diagnostics + checkers_diagnostics(
            registered(),
            semantic_model@,
            (i + 1) as nat,
        ));
        i += 1;
    }
}

/// The diagnostics of two lists within some codes are, put together,
/// within those codes.
pub proof fn lemma_within_codes_concat(
    first: Seq<DiagnosticView>,
    second: Seq<DiagnosticView>,
    codes: Seq<DiagnosticCode>,
)
    requires
        within_codes(first, codes),
        within_codes(second, codes),
    ensures
        within_codes(first + second, codes),
{
    assert forall|i: int| 0 <= i < (first + second).len() implies codes.contains(
        #[trigger] (first + second)[i].code,
    ) by {
        if i < first.len() {
            assert((first + second)[i] == first[i]);
        } else {
            assert((first + second)[i] == second[i - first.len()]);
        }
    }
}

/// Whatever an application of a generic type reports has the code of a
/// generic constraint mismatch.
proof fn lemma_application_within_codes(
    db: DatabaseView,
    range: SourceRange,
    generic_params: Seq<(Seq<char>, Option<TypeView>)>,
    args: Seq<TypeView>,
    n: nat,
)
    ensures
        within_codes(
            application_diagnostics(db, range, generic_params, args, n),
            checker_codes(CheckerKind::GenericConstraintMismatch),
        ),
    decreases n,
{
    let codes = checker_codes(CheckerKind::GenericConstraintMismatch);
    assert(codes[0] == DiagnosticCode::GenericConstraintMismatch);
    if n > 0 {
        lemma_application_within_codes(db, range, generic_params, args, (n - 1) as nat);
        lemma_within_codes_concat(
            application_diagnostics(db, range, generic_params, args, (n - 1) as nat),
            crate::generic_constraint::position_diagnostics(db, range, generic_params, args, n - 1),
            codes,
        );
    }
}

/// Whatever the types of a doc tag report has the code of a generic
/// constraint mismatch.
proof fn lemma_doc_tag_within_codes(db: DatabaseView, types: Seq<DocTypeView>, n: nat)
    ensures
        within_codes(
            doc_tag_diagnostics(db, types, n),
            checker_codes(CheckerKind::GenericConstraintMismatch),
        ),
    decreases n,
{
    let codes = checker_codes(CheckerKind::GenericConstraintMismatch);
    if n > 0 {
        lemma_doc_tag_within_codes(db, types, (n - 1) as nat);
        match types[n - 1].ty {
            TypeView::Generic { base, params } => match db.generic_params(base) {
                Some(generic_params) => {
                    lemma_application_within_codes(
                        db,
                        types[n - 1].range,
                        generic_params,
                        params,
                        params.len(),
                    );
                },
                None => {},
            },
            _ => {},
        }
        lemma_within_codes_concat(
            doc_tag_diagnostics(db, types, (n - 1) as nat),
            doc_type_diagnostics(db, types[n - 1]),
            codes,
        );
    }
}

/// Whatever the parameters of a call report has the code of a generic
/// constraint mismatch.
proof fn lemma_params_within_codes(
    model: SemanticModelView,
    call: CallExprView,
    signature: SignatureView,
    params: Seq<(Seq<char>, Option<TypeView>)>,
    n: nat,
)
    ensures
        within_codes(
            params_diagnostics(model, call, signature, params, n),
            checker_codes(CheckerKind::GenericConstraintMismatch),
        ),
    decreases n,
{
    let codes = checker_codes(CheckerKind::GenericConstraintMismatch);
    assert(codes[0] == DiagnosticCode::GenericConstraintMismatch);
    if n > 0 {
        lemma_params_within_codes(model, call, signature, params, (n - 1) as nat);
        lemma_within_codes_concat(
            params_diagnostics(model, call, signature, params, (n - 1) as nat),
            param_diagnostics(model, call, signature, params, n - 1),
            codes,
        );
    }
}

/// Whatever the nodes of a file report has the code of a generic
/// constraint mismatch.
proof fn lemma_tree_within_codes(model: SemanticModelView, nodes: Seq<SyntaxNodeView>, n: nat)
    ensures
        within_codes(
            tree_diagnostics(model, nodes, n),
            checker_codes(CheckerKind::GenericConstraintMismatch),
        ),
    decreases n,
{
    let codes = checker_codes(CheckerKind::GenericConstraintMismatch);
    if n > 0 {
        lemma_tree_within_codes(model, nodes, (n - 1) as nat);
        match nodes[n - 1] {
            SyntaxNodeView::Call(call) => {
                match call.prefix {
                    Some(prefix) => match model.infer(prefix) {
                        Some(TypeView::Signature(id)) => match crate::db::find_signature(
                            model.db.signatures,
                            id,
                        ) {
                            Some(signature) => {
                                let params = crate::generic_constraint::effective_params(
                                    signature.params,
                                    call.is_colon_call,
                                    signature.is_colon_define,
                                );
                                lemma_params_within_codes(
                                    model,
                                    call,
                                    signature,
                                    params,
                                    params.len(),
                                );
                            },
                            None => {},
                        },
                        _ => {},
                    },
                    None => {},
                }
                assert(within_codes(call_diagnostics(model, call), codes));
            },
            SyntaxNodeView::DocTagType(tag) => {
                lemma_doc_tag_within_codes(model.db, tag.types, tag.types.len());
            },
            _ => {},
        }
        lemma_within_codes_concat(
            tree_diagnostics(model, nodes, (n - 1) as nat),
            node_diagnostics(model, nodes[n - 1]),
            codes,
        );
    }
}

/// A checker reports only the codes that it declares.
pub proof fn checker_stays_within_its_codes(kind: CheckerKind, model: SemanticModelView)
    ensures
        within_codes(checker_diagnostics(kind, model), checker_codes(kind)),
{
    match kind {
        CheckerKind::GenericConstraintMismatch => {
            lemma_tree_within_codes(model, model.root, model.root.len());
        },
    }
}

} // verus!
