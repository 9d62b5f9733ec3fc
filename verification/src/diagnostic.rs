//! Diagnostics: their codes, and the list that a checker adds them to.

use crate::ids::{FileId, SourceRange};
use crate::text::{opt_view, str_eq};
use vstd::prelude::*;

verus! {

/// What a diagnostic reports.
#[derive(Clone, Copy, PartialEq, Eq, Structural, Debug, Hash)]
pub enum DiagnosticCode {
    SyntaxError,
    TypeNotFound,
    ParamTypeNotMatch,
    UndefinedGlobal,
    Unused,
    GenericConstraintMismatch,
}

/// The name under which a code is written in suppression comments and
/// reported to editors.
pub open spec fn code_name(code: DiagnosticCode) -> Seq<char> {
    match code {
        DiagnosticCode::SyntaxError => "syntax-error"@,
        DiagnosticCode::TypeNotFound => "type-not-found"@,
        DiagnosticCode::ParamTypeNotMatch => "param-type-not-match"@,
        DiagnosticCode::UndefinedGlobal => "undefined-global"@,
        DiagnosticCode::Unused => "unused"@,
        DiagnosticCode::GenericConstraintMismatch => "generic-constraint-mismatch"@,
    }
}

/// The code named `name`.
pub open spec fn code_named(name: Seq<char>) -> Option<DiagnosticCode> {
    if name == "syntax-error"@ {
        Some(DiagnosticCode::SyntaxError)
    } else if name == "type-not-found"@ {
        Some(DiagnosticCode::TypeNotFound)
    } else if name == "param-type-not-match"@ {
        Some(DiagnosticCode::ParamTypeNotMatch)
    } else if name == "undefined-global"@ {
        Some(DiagnosticCode::UndefinedGlobal)
    } else if name == "unused"@ {
        Some(DiagnosticCode::Unused)
    } else if name == "generic-constraint-mismatch"@ {
        Some(DiagnosticCode::GenericConstraintMismatch)
    } else {
        None
    }
}

impl DiagnosticCode {
    /// The code's name.
    pub fn get_name(&self) -> (r: &'static str)
        ensures
            r@ == code_name(*self),
    {
        match self {
            DiagnosticCode::SyntaxError => "syntax-error",
            DiagnosticCode::TypeNotFound => "type-not-found",
            DiagnosticCode::ParamTypeNotMatch => "param-type-not-match",
            DiagnosticCode::UndefinedGlobal => "undefined-global",
            DiagnosticCode::Unused => "unused",
            DiagnosticCode::GenericConstraintMismatch => "generic-constraint-mismatch",
        }
    }

    /// The code named `name`.
    pub fn from_name(name: &str) -> (r: Option<DiagnosticCode>)
        ensures
            r == code_named(name@),
    {
        if str_eq(name, "syntax-error") {
            Some(DiagnosticCode::SyntaxError)
        } else if str_eq(name, "type-not-found") {
            Some(DiagnosticCode::TypeNotFound)
        } else if str_eq(name, "param-type-not-match") {
            Some(DiagnosticCode::ParamTypeNotMatch)
        } else if str_eq(name, "undefined-global") {
            Some(DiagnosticCode::UndefinedGlobal)
        } else if str_eq(name, "unused") {
            Some(DiagnosticCode::Unused)
        } else if str_eq(name, "generic-constraint-mismatch") {
            Some(DiagnosticCode::GenericConstraintMismatch)
        } else {
            None
        }
    }
}

/// The names of two codes differ in their length or in their first
/// character, so every code is found again by its name.
pub proof fn code_name_round_trip(code: DiagnosticCode)
    ensures
        code_named(code_name(code)) == Some(code),
{
    reveal_strlit("syntax-error");
    reveal_strlit("type-not-found");
    reveal_strlit("param-type-not-match");
    reveal_strlit("undefined-global");
    reveal_strlit("unused");
    reveal_strlit("generic-constraint-mismatch");
    assert("syntax-error"@.len() == 12);
    assert("type-not-found"@.len() == 14);
    assert("param-type-not-match"@.len() == 20);
    assert("undefined-global"@.len() == 16);
    assert("unused"@.len() == 6);
    assert("generic-constraint-mismatch"@.len() == 27);
}

/// One finding: what, where, and the message for the reader.
#[derive(Debug)]
pub struct Diagnostic {
    pub code: DiagnosticCode,
    pub range: SourceRange,
    pub message: String,
    pub data: Option<String>,
}

/// The mathematical value of a [`Diagnostic`].
pub struct DiagnosticView {
    pub code: DiagnosticCode,
    pub range: SourceRange,
    pub message: Seq<char>,
    pub data: Option<Seq<char>>,
}

impl View for Diagnostic {
    type V = DiagnosticView;

    open spec fn view(&self) -> DiagnosticView {
        DiagnosticView {
            code: self.code,
            range: self.range,
            message: self.message@,
            data: opt_view(self.data),
        }
    }
}

/// The findings for one file, in the order in which they were made.
#[derive(Debug)]
pub struct DiagnosticContext {
    pub file_id: FileId,
    pub diagnostics: Vec<Diagnostic>,
}

/// The mathematical value of a [`DiagnosticContext`].
pub struct DiagnosticContextView {
    pub file_id: FileId,
    pub diagnostics: Seq<DiagnosticView>,
}

impl View for DiagnosticContext {
    type V = DiagnosticContextView;

    open spec fn view(&self) -> DiagnosticContextView {
        DiagnosticContextView {
            file_id: self.file_id,
            diagnostics: self.diagnostics@.map_values(|d: Diagnostic| d@),
        }
    }
}

impl DiagnosticContext {
    /// A context for the file `file_id`, with no finding yet.
    pub fn new(file_id: FileId) -> (r: DiagnosticContext)
        ensures
            r@.file_id == file_id,
            r@.diagnostics.len() == 0,
    {
        DiagnosticContext { file_id, diagnostics: Vec::new() }
    }

    /// Adds one finding after those made so far.
    pub fn add_diagnostic(
        &mut self,
        code: DiagnosticCode,
        range: SourceRange,
        message: String,
        data: Option<String>,
    )
        ensures
            final(self)@.file_id == old(self)@.file_id,
            final(self)@.diagnostics == old(self)@.diagnostics.push(
                DiagnosticView { code, range, message: message@, data: opt_view(data) },
            ),
    {
        self.diagnostics.push(Diagnostic { code, range, message, data });
        assert(self@.diagnostics =~= old(self)@.diagnostics.push(
            DiagnosticView { code, range, message: message@, data: opt_view(data) },
        ));
    }

    /// The findings made so far.
    pub fn get_diagnostics(&self) -> (r: &Vec<Diagnostic>)
        ensures
            r@.map_values(|d: Diagnostic| d@) == self@.diagnostics,
    {
        &self.diagnostics
    }
}

} // verus!
