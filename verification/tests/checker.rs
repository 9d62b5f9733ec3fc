use lua_type_engine::checker::{check_file, checkers, codes_of, run_checker, CheckerKind};
use lua_type_engine::db::{Database, FileEntry, TypeDecl, TypeDeclKind};
use lua_type_engine::diagnostic::{DiagnosticCode, DiagnosticContext};
use lua_type_engine::generic_constraint::GenericConstraintMismatchChecker;
use lua_type_engine::ids::{FileId, SourceRange, SyntaxId, SyntaxKind, TypeDeclId};
use lua_type_engine::semantic::{InferCache, SemanticModel};
use lua_type_engine::syntax::{DocTagType, DocType, SyntaxNode, SyntaxTree};
use lua_type_engine::types::{GenericType, Type};

const CK_FILE: FileId = FileId { id: 3 };

fn ck_tag(start: u32, arg: &str) -> SyntaxNode {
    SyntaxNode::DocTagType(DocTagType {
        id: SyntaxId {
            kind: SyntaxKind::DocTagType,
            range: SourceRange { start, end: start + 9 },
        },
        types: vec![DocType {
            range: SourceRange { start: start + 1, end: start + 8 },
            ty: Type::Generic(GenericType {
                base: TypeDeclId::new("Box"),
                params: vec![Type::Ref(TypeDeclId::new(arg))],
            }),
        }],
    })
}

fn ck_db() -> Database {
    let mut db = Database::new();
    let class = |name: &str, generic_params| TypeDecl {
        id: TypeDeclId::new(name),
        kind: TypeDeclKind::Class,
        generic_params,
        alias_origin: None,
        supers: Vec::new(),
    };
    assert!(db.type_index.add_type_decl(class("Base", Vec::new())));
    assert!(db.type_index.add_type_decl(class("Other", Vec::new())));
    assert!(db.type_index.add_type_decl(class(
        "Box",
        vec![("T".to_string(), Some(Type::Ref(TypeDeclId::new("Base"))))]
    )));
    let tree = SyntaxTree {
        nodes: vec![ck_tag(0, "Other"), ck_tag(10, "Base"), ck_tag(20, "Other")],
    };
    assert!(db.vfs.add_file(FileEntry { id: CK_FILE, path: None, is_std: false, tree: Some(tree) }));
    db
}

#[test]
fn registry_lists_the_checkers_and_their_codes() {
    assert_eq!(checkers(), vec![CheckerKind::GenericConstraintMismatch]);
    assert_eq!(
        codes_of(CheckerKind::GenericConstraintMismatch),
        vec![DiagnosticCode::GenericConstraintMismatch]
    );
}

#[test]
fn check_file_runs_every_checker() {
    let db = ck_db();
    let model = SemanticModel::new(&db, InferCache::new(CK_FILE)).unwrap();
    let mut all = DiagnosticContext::new(CK_FILE);
    check_file(&mut all, &model);
    let mut one = DiagnosticContext::new(CK_FILE);
    run_checker(CheckerKind::GenericConstraintMismatch, &mut one, &model);
    assert_eq!(all.get_diagnostics().len(), 2);
    assert_eq!(one.get_diagnostics().len(), 2);
    for (a, b) in all.get_diagnostics().iter().zip(one.get_diagnostics()) {
        assert_eq!(a.range, b.range);
        assert_eq!(a.message, b.message);
        assert!(codes_of(CheckerKind::GenericConstraintMismatch).contains(&a.code));
    }
    assert_eq!(all.get_diagnostics()[0].range, SourceRange { start: 1, end: 8 });
    assert_eq!(all.get_diagnostics()[1].range, SourceRange { start: 21, end: 28 });
}

#[test]
fn checking_node_by_node_gives_what_the_whole_walk_gives() {
    let db = ck_db();
    let model = SemanticModel::new(&db, InferCache::new(CK_FILE)).unwrap();
    let mut whole = DiagnosticContext::new(CK_FILE);
    GenericConstraintMismatchChecker::check(&mut whole, &model);
    let mut stepped = DiagnosticContext::new(CK_FILE);
    let mut counts = Vec::new();
    let mut index = 0;
    while GenericConstraintMismatchChecker::check_node(&mut stepped, &model, index) {
        counts.push(stepped.get_diagnostics().len());
        index += 1;
    }
    assert_eq!(index, 3);
    assert_eq!(counts, vec![1, 1, 2]);
    assert!(!GenericConstraintMismatchChecker::check_node(&mut stepped, &model, 7));
    assert_eq!(stepped.get_diagnostics().len(), whole.get_diagnostics().len());
    for (a, b) in stepped.get_diagnostics().iter().zip(whole.get_diagnostics()) {
        assert_eq!(a.range, b.range);
        assert_eq!(a.message, b.message);
    }
}
