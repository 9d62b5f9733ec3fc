use emmylua_parser::{
    LuaAst, LuaAstNode, LuaDocGenericDeclList, LuaDocTag, LuaDocType, LuaParser, ParserConfig,
};
use lua_type_engine::db::{Database, FileEntry, TypeDecl, TypeDeclKind};
use lua_type_engine::diagnostic::{Diagnostic, DiagnosticCode, DiagnosticContext};
use lua_type_engine::generic_constraint::GenericConstraintMismatchChecker;
use lua_type_engine::ids::{FileId, SourceRange, SyntaxId, SyntaxKind, TypeDeclId};
use lua_type_engine::semantic::{InferCache, SemanticModel};
use lua_type_engine::syntax::{DocTagType, DocType, SyntaxNode, SyntaxTree};
use lua_type_engine::types::{GenericType, Type};

const E2E_FILE: FileId = FileId { id: 0 };

fn e2e_range(range: rowan::TextRange) -> SourceRange {
    SourceRange { start: range.start().into(), end: range.end().into() }
}

fn e2e_type(node: &LuaDocType) -> Type {
    match node {
        LuaDocType::Name(name) => match name.get_name_text().as_deref() {
            Some("string") => Type::String,
            Some("integer") => Type::Integer,
            Some("number") => Type::Number,
            Some(other) => Type::Ref(TypeDeclId::new(other)),
            None => Type::Any,
        },
        LuaDocType::Generic(generic) => {
            match generic.get_name_type().and_then(|n| n.get_name_text()) {
                Some(base) => Type::Generic(GenericType {
                    base: TypeDeclId::new(&base),
                    params: generic
                        .get_generic_types()
                        .map(|list| list.get_types().map(|t| e2e_type(&t)).collect())
                        .unwrap_or_default(),
                }),
                None => Type::Any,
            }
        }
        _ => Type::Any,
    }
}

fn e2e_generics(list: Option<LuaDocGenericDeclList>) -> Vec<(String, Option<Type>)> {
    let Some(list) = list else {
        return Vec::new();
    };
    list.get_generic_decl()
        .filter_map(|decl| {
            let name = decl.get_name_token()?.get_name_text().to_string();
            Some((name, decl.get_constraint_type().map(|t| e2e_type(&t))))
        })
        .collect()
}

/// Parses `text`, records the classes it declares and the types its doc
/// tags apply, and checks the generic constraints.
fn e2e_check(text: &str) -> Vec<Diagnostic> {
    let parsed = LuaParser::parse(text, ParserConfig::default());
    let root = parsed.get_red_root();
    let mut db = Database::new();
    let mut nodes = Vec::new();
    for node in root.descendants().filter_map(LuaAst::cast) {
        match &node {
            LuaAst::LuaDocTagClass(class) => {
                let name = class.get_name_token().unwrap();
                let supers = class
                    .get_supers()
                    .map(|list| {
                        list.get_types()
                            .filter_map(|t| match e2e_type(&t) {
                                Type::Ref(id) => Some(id),
                                _ => None,
                            })
                            .collect()
                    })
                    .unwrap_or_default();
                assert!(db.type_index.add_type_decl(TypeDecl {
                    id: TypeDeclId::new(name.get_name_text()),
                    kind: TypeDeclKind::Class,
                    generic_params: e2e_generics(class.get_generic_decl()),
                    alias_origin: None,
                    supers,
                }));
            }
            LuaAst::LuaDocTagType(tag) => {
                assert!(LuaDocTag::can_cast(tag.syntax().kind().into()));
                nodes.push(SyntaxNode::DocTagType(DocTagType {
                    id: SyntaxId { kind: SyntaxKind::DocTagType, range: e2e_range(tag.get_range()) },
                    types: tag
                        .get_type_list()
                        .map(|t| DocType { range: e2e_range(t.get_range()), ty: e2e_type(&t) })
                        .collect(),
                }));
            }
            _ => {}
        }
    }
    assert!(db.vfs.add_file(FileEntry {
        id: E2E_FILE,
        path: None,
        is_std: false,
        tree: Some(SyntaxTree { nodes }),
    }));
    let model = SemanticModel::new(&db, InferCache::new(E2E_FILE)).unwrap();
    let mut context = DiagnosticContext::new(E2E_FILE);
    GenericConstraintMismatchChecker::check(&mut context, &model);
    context.diagnostics
}

const E2E_CLASSES: &str = "\
---@class Base
---@class Derived: Base
---@class Other
---@class Box<T: Base>
---@class Pair<K, V: Base>
";

#[test]
fn parsed_application_that_violates_the_bound_is_reported_at_its_range() {
    let text = format!("{}---@type Box<Other>\nlocal b = nil\n", E2E_CLASSES);
    let found = e2e_check(&text);
    assert_eq!(found.len(), 1);
    assert_eq!(found[0].code, DiagnosticCode::GenericConstraintMismatch);
    assert_eq!(found[0].message, "the generic constraint must be a subclass of `Base`. ");
    let start = text.find("Box<Other>").unwrap() as u32;
    assert_eq!(found[0].range, SourceRange { start, end: start + 10 });
}

#[test]
fn parsed_application_that_meets_the_bound_is_not_reported() {
    for applied in ["Box<Derived>", "Box<Base>", "Pair<Other, Derived>", "Pair<string, Base>"] {
        let text = format!("{}---@type {}\nlocal b = nil\n", E2E_CLASSES, applied);
        assert!(e2e_check(&text).is_empty(), "{}", applied);
    }
}

#[test]
fn parsed_file_reports_each_violation_in_order() {
    let text = format!(
        "{}---@type Box<Other>\nlocal a = nil\n---@type Pair<Other, Other>\nlocal b = nil\n\
         ---@type Box<Derived>\nlocal c = nil\n---@type Box<string>\nlocal d = nil\n",
        E2E_CLASSES
    );
    let found = e2e_check(&text);
    assert_eq!(found.len(), 3);
    let starts: Vec<u32> = found.iter().map(|d| d.range.start).collect();
    let expected: Vec<u32> = ["Box<Other>", "Pair<Other, Other>", "Box<string>"]
        .iter()
        .map(|needle| text.find(needle).unwrap() as u32)
        .collect();
    assert_eq!(starts, expected);
}

use emmylua_parser::{LuaCommentOwner, LuaExpr, LuaLiteralToken, LuaVarExpr};
use lua_type_engine::db::Signature;
use lua_type_engine::ids::{GenericTplId, SignatureId};
use lua_type_engine::syntax::CallExpr;
use lua_type_engine::types::{GenericTpl, StringTplType};

fn e2e_id(node: &emmylua_parser::LuaSyntaxNode, kind: SyntaxKind) -> SyntaxId {
    SyntaxId { kind, range: e2e_range(node.text_range()) }
}

fn e2e_param_type(node: &LuaDocType, generics: &[(String, Option<Type>)]) -> Type {
    let slot = |name: &str| generics.iter().position(|(n, _)| n == name);
    match node {
        LuaDocType::Name(name) => {
            let text = name.get_name_text().unwrap_or_default();
            match slot(&text) {
                Some(i) => Type::TplRef(GenericTpl { tpl_id: GenericTplId::Func(i as u32), name: text }),
                None => e2e_type(node),
            }
        }
        LuaDocType::StrTpl(str_tpl) => {
            let (prefix, name, suffix) = str_tpl.get_name();
            let name = name.unwrap_or_default();
            match slot(&name) {
                Some(i) => Type::StrTplRef(StringTplType {
                    prefix: prefix.unwrap_or_default(),
                    name,
                    suffix: suffix.unwrap_or_default(),
                    tpl_id: GenericTplId::Func(i as u32),
                }),
                None => Type::Any,
            }
        }
        _ => e2e_type(node),
    }
}

/// Parses `text`, records its classes and the signatures of its global
/// functions, the types of its literals and what its calls call, and checks
/// the generic constraints of the calls.
fn e2e_check_calls(text: &str) -> Vec<Diagnostic> {
    let parsed = LuaParser::parse(text, ParserConfig::default());
    let root = parsed.get_red_root();
    let mut db = Database::new();
    let mut cache = InferCache::new(E2E_FILE);
    let mut functions: Vec<(String, SignatureId)> = Vec::new();
    let mut nodes = Vec::new();
    for node in root.descendants().filter_map(LuaAst::cast) {
        match &node {
            LuaAst::LuaDocTagClass(class) => {
                let name = class.get_name_token().unwrap();
                let supers = class
                    .get_supers()
                    .map(|list| {
                        list.get_types()
                            .filter_map(|t| match e2e_type(&t) {
                                Type::Ref(id) => Some(id),
                                _ => None,
                            })
                            .collect()
                    })
                    .unwrap_or_default();
                db.type_index.add_type_decl(TypeDecl {
                    id: TypeDeclId::new(name.get_name_text()),
                    kind: TypeDeclKind::Class,
                    generic_params: e2e_generics(class.get_generic_decl()),
                    alias_origin: None,
                    supers,
                });
            }
            LuaAst::LuaFuncStat(stat) => {
                let Some(LuaVarExpr::NameExpr(name)) = stat.get_func_name() else {
                    continue;
                };
                let closure = stat.get_closure().unwrap();
                let tags: Vec<LuaDocTag> = stat
                    .get_comments()
                    .iter()
                    .flat_map(|c| c.get_doc_tags().collect::<Vec<_>>())
                    .collect();
                let mut generics = Vec::new();
                for tag in &tags {
                    if let LuaDocTag::Generic(generic) = tag {
                        generics.extend(e2e_generics(generic.get_generic_decl_list()));
                    }
                }
                let mut params = Vec::new();
                for param in closure.get_params_list().unwrap().get_params() {
                    let param_name = param.get_name_token().unwrap().get_name_text().to_string();
                    let documented = tags.iter().find_map(|tag| match tag {
                        LuaDocTag::Param(p)
                            if p.get_name_token().map(|n| n.get_name_text().to_string())
                                == Some(param_name.clone()) =>
                        {
                            p.get_type().map(|t| e2e_param_type(&t, &generics))
                        }
                        _ => None,
                    });
                    params.push((param_name, documented));
                }
                let id = SignatureId { file_id: E2E_FILE, position: closure.get_position().into() };
                assert!(db.signature_index.add_signature(Signature {
                    id,
                    params,
                    return_docs: Vec::new(),
                    is_colon_define: false,
                    is_async: false,
                    overloads: Vec::new(),
                    generic_params: generics,
                }));
                functions.push((name.get_name_text().unwrap(), id));
            }
            LuaAst::LuaLiteralExpr(literal) => {
                let ty = match literal.get_literal() {
                    Some(LuaLiteralToken::String(s)) => Some(Type::StringConst(s.get_value())),
                    Some(LuaLiteralToken::Nil(_)) => Some(Type::Nil),
                    _ => None,
                };
                if let Some(ty) = ty {
                    cache.record_expr_type(
                        E2E_FILE,
                        e2e_id(literal.syntax(), SyntaxKind::LiteralExpr),
                        ty,
                    );
                }
            }
            LuaAst::LuaCallExpr(call) => {
                let kind_of = |e: &LuaExpr| match e {
                    LuaExpr::LiteralExpr(_) => SyntaxKind::LiteralExpr,
                    LuaExpr::NameExpr(_) => SyntaxKind::NameExpr,
                    _ => SyntaxKind::Other,
                };
                let prefix = call.get_prefix_expr().map(|e| e2e_id(e.syntax(), kind_of(&e)));
                if let (Some(id), Some(LuaExpr::NameExpr(name))) = (prefix, call.get_prefix_expr()) {
                    let called = name.get_name_text().unwrap();
                    cache.record_call_target(E2E_FILE, id, &called, &functions);
                }
                nodes.push(SyntaxNode::Call(CallExpr {
                    id: e2e_id(call.syntax(), SyntaxKind::CallExpr),
                    prefix,
                    is_colon_call: call.is_colon_call(),
                    args: call.get_args_list().map(|list| {
                        list.get_args().map(|e| e2e_id(e.syntax(), kind_of(&e))).collect()
                    }),
                }));
            }
            _ => {}
        }
    }
    assert!(db.vfs.add_file(FileEntry {
        id: E2E_FILE,
        path: None,
        is_std: false,
        tree: Some(SyntaxTree { nodes }),
    }));
    let model = SemanticModel::new(&db, cache).unwrap();
    let mut context = DiagnosticContext::new(E2E_FILE);
    GenericConstraintMismatchChecker::check(&mut context, &model);
    context.diagnostics
}

const E2E_FACTORY: &str = "\
---@class Base
---@class Derived: Base
---@class Other
---@generic T: Base
---@param name `T`
function make(name) end
";

#[test]
fn parsed_call_with_a_string_that_names_a_violating_type_is_reported() {
    let text = format!("{}make(\"Other\")\n", E2E_FACTORY);
    let found = e2e_check_calls(&text);
    assert_eq!(found.len(), 1);
    assert_eq!(found[0].code, DiagnosticCode::GenericConstraintMismatch);
    let start = text.find("\"Other\"").unwrap() as u32;
    assert_eq!(found[0].range, SourceRange { start, end: start + 7 });
}

#[test]
fn parsed_call_with_a_string_that_names_a_compatible_type_is_not_reported() {
    for arg in ["\"Derived\"", "\"Base\"", "nil"] {
        let text = format!("{}make({})\n", E2E_FACTORY, arg);
        assert!(e2e_check_calls(&text).is_empty(), "{}", arg);
    }
}

#[test]
fn parsed_call_with_a_string_bound_accepts_every_string() {
    let text = "\
---@generic T: string
---@param name `T`
function named(name) end
named(\"anything at all\")
";
    assert!(e2e_check_calls(text).is_empty());
}
