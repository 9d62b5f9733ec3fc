//! The quick fixes that an editor is offered for a diagnostic, as plans:
//! what each action is called and what it does.

use crate::diagnostic::{code_name, code_named, DiagnosticCode};
use crate::ids::FileId;
use crate::semantic::SemanticModel;
use crate::text::{opt_view, str_eq};
use vstd::prelude::*;

verus! {

/// A position in a document: line and character, both from zero.
#[derive(Clone, Copy, PartialEq, Eq, Structural, Debug)]
pub struct Position {
    pub line: u32,
    pub character: u32,
}

/// A range in a document.
#[derive(Clone, Copy, PartialEq, Eq, Structural, Debug)]
pub struct DocumentRange {
    pub start: Position,
    pub end: Position,
}

/// The code of a diagnostic as an editor hands it back.
#[derive(Debug)]
pub enum NumberOrString {
    Number(i32),
    String(String),
}

/// A diagnostic as an editor hands it back.
#[derive(Debug)]
pub struct EditorDiagnostic {
    pub source: Option<String>,
    pub code: Option<NumberOrString>,
    pub range: DocumentRange,
}

/// The mathematical value of a [`NumberOrString`].
pub enum EditorCodeView {
    Number(int),
    Name(Seq<char>),
}

impl View for NumberOrString {
    type V = EditorCodeView;

    open spec fn view(&self) -> EditorCodeView {
        match self {
            NumberOrString::Number(n) => EditorCodeView::Number(*n as int),
            NumberOrString::String(s) => EditorCodeView::Name(s@),
        }
    }
}

/// The mathematical value of an [`EditorDiagnostic`].
pub struct EditorDiagnosticView {
    pub source: Option<Seq<char>>,
    pub code: Option<EditorCodeView>,
    pub range: DocumentRange,
}

impl View for EditorDiagnostic {
    type V = EditorDiagnosticView;

    open spec fn view(&self) -> EditorDiagnosticView {
        EditorDiagnosticView {
            source: opt_view(self.source),
            code: match self.code {
                Some(c) => Some(c@),
                None => None,
            },
            range: self.range,
        }
    }
}

/// What an action does.
#[derive(Clone, Copy, PartialEq, Eq, Structural, Debug)]
pub enum ActionKind {
    /// Suppresses the code on the line of the diagnostic.
    DisableNextLine,
    /// Suppresses the code in the whole file.
    DisableFile,
    /// Suppresses the code in the whole project.
    DisableProject,
}

/// Text to be put into a document at a position.
#[derive(Debug)]
pub struct TextInsert {
    pub position: Position,
    pub text: String,
}

/// The mathematical value of a [`TextInsert`].
pub struct TextInsertView {
    pub position: Position,
    pub text: Seq<char>,
}

impl View for TextInsert {
    type V = TextInsertView;

    open spec fn view(&self) -> TextInsertView {
        TextInsertView { position: self.position, text: self.text@ }
    }
}

/// One action offered for a diagnostic. An action that suppresses a code
/// on a line or in a file is carried out by an edit of the document; one
/// that suppresses it in the project has no edit, and is carried out by a
/// command.
#[derive(Debug)]
pub struct CodeActionPlan {
    pub title: String,
    pub kind: ActionKind,
    pub code: DiagnosticCode,
    pub file_id: FileId,
    pub range: DocumentRange,
    pub edit: Option<TextInsert>,
}

/// The mathematical value of a [`CodeActionPlan`].
pub struct CodeActionPlanView {
    pub title: Seq<char>,
    pub kind: ActionKind,
    pub code: DiagnosticCode,
    pub file_id: FileId,
    pub range: DocumentRange,
    pub edit: Option<TextInsertView>,
}

impl View for CodeActionPlan {
    type V = CodeActionPlanView;

    open spec fn view(&self) -> CodeActionPlanView {
        CodeActionPlanView {
            title: self.title@,
            kind: self.kind,
            code: self.code,
            file_id: self.file_id,
            range: self.range,
            edit: match self.edit {
                Some(e) => Some(e@),
                None => None,
            },
        }
    }
}

/// The values of a list of plans.
pub open spec fn plans_view(s: Seq<CodeActionPlan>) -> Seq<CodeActionPlanView> {
    s.map_values(|p: CodeActionPlan| p@)
}

/// The title of an action of the kind `kind` for the code `code`.
pub open spec fn action_title(kind: ActionKind, code: DiagnosticCode) -> Seq<char> {
    match kind {
        ActionKind::DisableNextLine => "Disable current line diagnostic ("@ + code_name(code)
            + ")"@,
        ActionKind::DisableFile => "Disable all diagnostics in current file ("@ + code_name(code)
            + ")"@,
        ActionKind::DisableProject => "Disable all diagnostics in current project ("@ + code_name(
            code,
        ) + ")"@,
    }
}

/// The edit that carries out an action of the kind `kind`.
///
/// For the line of the diagnostic, a comment line put before that line
/// that suppresses the code on the line that follows it. For the file, a
/// comment line put at the top of the file that suppresses the code from
/// there on. For the project, none.
pub open spec fn action_edit(kind: ActionKind, code: DiagnosticCode, range: DocumentRange) -> Option<
    TextInsertView,
> {
    match kind {
        ActionKind::DisableNextLine => Some(
            TextInsertView {
                position: Position { line: range.start.line, character: 0 },
                text: "---@diagnostic disable-next-line: "@ + code_name(code) + "\n"@,
            },
        ),
        ActionKind::DisableFile => Some(
            TextInsertView {
                position: Position { line: 0, character: 0 },
                text: "---@diagnostic disable: "@ + code_name(code) + "\n"@,
            },
        ),
        ActionKind::DisableProject => None,
    }
}

/// The plan of an action of the kind `kind`.
pub open spec fn plan(kind: ActionKind, code: DiagnosticCode, file_id: FileId, range: DocumentRange) -> CodeActionPlanView {
    CodeActionPlanView {
        title: action_title(kind, code),
        kind,
        code,
        file_id,
        range,
        edit: action_edit(kind, code, range),
    }
}

/// The actions that suppress the code `code`: for the line, for the file
/// and for the project, in this order. A syntax error cannot be suppressed.
pub open spec fn disable_actions(code: DiagnosticCode, file_id: FileId, range: DocumentRange) -> Seq<
    CodeActionPlanView,
> {
    if code == DiagnosticCode::SyntaxError {
        Seq::empty()
    } else {
        seq![
            plan(ActionKind::DisableNextLine, code, file_id, range),
            plan(ActionKind::DisableFile, code, file_id, range),
            plan(ActionKind::DisableProject, code, file_id, range),
        ]
    }
}

/// The code of a diagnostic that this analyzer made: its source is
/// `EmmyLua` and its code names a diagnostic code.
pub open spec fn own_code(diagnostic: EditorDiagnosticView) -> Option<DiagnosticCode> {
    match (diagnostic.source, diagnostic.code) {
        (Some(source), Some(EditorCodeView::Name(name))) => if source == "EmmyLua"@ {
            code_named(name)
        } else {
            None
        },
        _ => None,
    }
}

/// The actions offered for one diagnostic.
pub open spec fn diagnostic_actions(diagnostic: EditorDiagnosticView, file_id: FileId) -> Seq<
    CodeActionPlanView,
> {
    match own_code(diagnostic) {
        Some(code) => disable_actions(code, file_id, diagnostic.range),
        None => Seq::empty(),
    }
}

/// The actions offered for the first `n` diagnostics, in order.
pub open spec fn all_actions(diagnostics: Seq<EditorDiagnosticView>, file_id: FileId, n: nat) -> Seq<
    CodeActionPlanView,
>
    decreases n,
{
    if n == 0 {
        Seq::empty()
    } else {
        all_actions(diagnostics, file_id, (n - 1) as nat) + diagnostic_actions(
            diagnostics[n - 1],
            file_id,
        )
    }
}

/// Adds the actions that mend what the code reports. No code has one.
pub fn add_fix_code_action(
    actions: &mut Vec<CodeActionPlan>,
    diagnostic_code: DiagnosticCode,
    file_id: FileId,
    range: DocumentRange,
) -> (r: Option<()>)
    ensures
        r is Some,
        plans_view(final(actions)@) == plans_view(old(actions)@),
{
    Some(())
}

/// The plan of one action.
fn make_plan(kind: ActionKind, code: DiagnosticCode, file_id: FileId, range: DocumentRange) -> (r:
    CodeActionPlan)
    ensures
        r@ == plan(kind, code, file_id, range),
{
    let mut title = match kind {
        ActionKind::DisableNextLine => String::from_str("Disable current line diagnostic ("),
        ActionKind::DisableFile => String::from_str("Disable all diagnostics in current file ("),
        ActionKind::DisableProject => String::from_str(
            "Disable all diagnostics in current project (",
        ),
    };
    title.append(code.get_name());
    title.append(")");
    let edit = match kind {
        ActionKind::DisableNextLine => {
            let mut text = String::from_str("---@diagnostic disable-next-line: ");
            text.append(code.get_name());
            text.append("\n");
            Some(TextInsert { position: Position { line: range.start.line, character: 0 }, text })
        },
        ActionKind::DisableFile => {
            let mut text = String::from_str("---@diagnostic disable: ");
            text.append(code.get_name());
            text.append("\n");
            Some(TextInsert { position: Position { line: 0, character: 0 }, text })
        },
        ActionKind::DisableProject => None,
    };
    CodeActionPlan { title, kind, code, file_id, range, edit }
}

/// Adds the actions that suppress the code.
pub fn add_disable_code_action(
    semantic_model: &SemanticModel,
    actions: &mut Vec<CodeActionPlan>,
    diagnostic_code: DiagnosticCode,
    file_id: FileId,
    range: DocumentRange,
) -> (r: Option<()>)
    ensures
        r is Some,
        plans_view(final(actions)@) == plans_view(old(actions)@) + disable_actions(
            diagnostic_code,
            file_id,
            range,
        ),
{
    if diagnostic_code == DiagnosticCode::SyntaxError {
        assert(plans_view(actions@) + Seq::empty() =~= plans_view(actions@));
        return Some(());
    }
    let first = make_plan(ActionKind::DisableNextLine, diagnostic_code, file_id, range);
    let second = make_plan(ActionKind::DisableFile, diagnostic_code, file_id, range);
    let third = make_plan(ActionKind::DisableProject, diagnostic_code, file_id, range);
    actions.push(first);
    actions.push(second);
    actions.push(third);
    assert(plans_view(actions@) =~= plans_view(old(actions)@) + disable_actions(
        diagnostic_code,
        file_id,
        range,
    ));
    Some(())
}

/// The actions offered for the diagnostics that this analyzer made, in
/// the order of the diagnostics; `None` where there is none.
pub fn build_actions(semantic_model: &SemanticModel, diagnostics: Vec<EditorDiagnostic>) -> (r:
    Option<Vec<CodeActionPlan>>)
    ensures
        ({
            let offered = all_actions(
                diagnostics@.map_values(|d: EditorDiagnostic| d@),
                semantic_model@.file_id(),
                diagnostics.len() as nat,
            );
            match r {
                Some(actions) => offered.len() > 0 && plans_view(actions@) == offered,
                None => offered.len() == 0,
            }
        }),
{
    let ghost views = diagnostics@.map_values(|d: EditorDiagnostic| d@);
    let mut actions: Vec<CodeActionPlan> = Vec::new();
    let file_id = semantic_model.get_file_id();
    let mut i: usize = 0;
    assert(plans_view(actions@) =~= all_actions(views, file_id, 0));
    while i < diagnostics.len()
        invariant
            i <= diagnostics.len(),
            views == diagnostics@.map_values(|d: EditorDiagnostic| d@),
            file_id == semantic_model@.file_id(),
            plans_view(actions@) == all_actions(views, file_id, i as nat),
        decreases diagnostics.len() - i,
    {
        let diagnostic = &diagnostics[i];
        assert(views[i as int] == diagnostic@);
        let ghost before = plans_view(actions@);
        let mut code: Option<DiagnosticCode> = None;
        if let Some(source) = &diagnostic.source {
            if str_eq(source.as_str(), "EmmyLua") {
                if let Some(NumberOrString::String(action_string)) = &diagnostic.code {
                    code = DiagnosticCode::from_name(action_string.as_str());
                }
            }
        }
        assert(code == own_code(diagnostic@));
        match code {
            Some(diagnostic_code) => {
                add_fix_code_action(&mut actions, diagnostic_code, file_id, diagnostic.range);
                add_disable_code_action(
                    semantic_model,
                    &mut actions,
                    diagnostic_code,
                    file_id,
                    diagnostic.range,
                );
            },
            None => {
                assert(before + Seq::empty() =~= before);
            },
        }
        i += 1;
    }
    if actions.len() == 0 {
        return None;
    }
    Some(actions)
}

} // verus!
