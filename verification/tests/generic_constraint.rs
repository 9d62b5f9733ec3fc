use lua_type_engine::db::{
    Database, FileEntry, Member, Signature, TypeDecl, TypeDeclKind,
};
use lua_type_engine::diagnostic::{Diagnostic, DiagnosticCode, DiagnosticContext};
use lua_type_engine::generic_constraint::{
    add_type_check_diagnostic, adjust_params, check_call_expr, check_doc_tag_type,
    check_str_tpl_ref, check_tpl_ref, get_extend_type, GenericConstraintMismatchChecker,
};
use lua_type_engine::ids::{
    FileId, GenericTplId, MemberId, MemberKey, MemberOwner, SemanticDeclId, SignatureId,
    SourceRange, SyntaxId, SyntaxKind, TypeDeclId,
};
use lua_type_engine::semantic::{InferCache, SemanticModel};
use lua_type_engine::syntax::{CallExpr, DocTagType, DocType, SyntaxNode, SyntaxTree};
use lua_type_engine::type_check::TypeCheckFailReason;
use lua_type_engine::types::{GenericTpl, GenericType, StringTplType, Type};

const GC_FILE: FileId = FileId { id: 1 };

fn gc_range(start: u32, end: u32) -> SourceRange {
    SourceRange { start, end }
}

fn gc_expr(kind: SyntaxKind, start: u32, end: u32) -> SyntaxId {
    SyntaxId { kind, range: gc_range(start, end) }
}

fn gc_ref(name: &str) -> Type {
    Type::Ref(TypeDeclId::new(name))
}

fn gc_class(name: &str, supers: &[&str], generic_params: Vec<(String, Option<Type>)>) -> TypeDecl {
    TypeDecl {
        id: TypeDeclId::new(name),
        kind: TypeDeclKind::Class,
        generic_params,
        alias_origin: None,
        supers: supers.iter().map(|s| TypeDeclId::new(s)).collect(),
    }
}

fn gc_tpl(index: u32) -> Type {
    Type::TplRef(GenericTpl { tpl_id: GenericTplId::Func(index), name: "T".to_string() })
}

fn gc_str_tpl(prefix: &str, suffix: &str) -> StringTplType {
    StringTplType {
        prefix: prefix.to_string(),
        name: "T".to_string(),
        suffix: suffix.to_string(),
        tpl_id: GenericTplId::Func(0),
    }
}

fn gc_sig_id(position: u32) -> SignatureId {
    SignatureId { file_id: GC_FILE, position }
}

fn gc_signature(
    position: u32,
    params: Vec<(String, Option<Type>)>,
    is_colon_define: bool,
    generic_params: Vec<(String, Option<Type>)>,
) -> Signature {
    Signature {
        id: gc_sig_id(position),
        params,
        return_docs: Vec::new(),
        is_colon_define,
        is_async: false,
        overloads: Vec::new(),
        generic_params,
    }
}

fn gc_db(tree: SyntaxTree) -> Database {
    let mut db = Database::new();
    assert!(db.type_index.add_type_decl(gc_class("Base", &[], Vec::new())));
    assert!(db.type_index.add_type_decl(gc_class("Derived", &["Base"], Vec::new())));
    assert!(db.type_index.add_type_decl(gc_class("Other", &[], Vec::new())));
    assert!(db.type_index.add_type_decl(gc_class(
        "Box",
        &[],
        vec![("T".to_string(), Some(gc_ref("Base")))]
    )));
    assert!(db.type_index.add_type_decl(gc_class(
        "Pair",
        &[],
        vec![
            ("K".to_string(), None),
            ("V".to_string(), Some(gc_ref("Base"))),
        ]
    )));
    assert!(db.type_index.add_type_decl(gc_class(
        "Both",
        &[],
        vec![
            ("A".to_string(), Some(Type::String)),
            ("B".to_string(), Some(gc_ref("Base"))),
        ]
    )));
    assert!(db.vfs.add_file(FileEntry { id: GC_FILE, path: None, is_std: false, tree: Some(tree) }));
    db
}

fn gc_applied(range: SourceRange, base: &str, params: Vec<Type>) -> DocType {
    DocType {
        range,
        ty: Type::Generic(GenericType { base: TypeDeclId::new(base), params }),
    }
}

fn gc_tag(types: Vec<DocType>) -> DocTagType {
    DocTagType { id: gc_expr(SyntaxKind::DocTagType, 0, 1), types }
}

fn gc_check_tag(db: &Database, tag: &DocTagType) -> Vec<Diagnostic> {
    let model = SemanticModel::new(db, InferCache::new(GC_FILE)).unwrap();
    let mut context = DiagnosticContext::new(GC_FILE);
    check_doc_tag_type(&mut context, &model, tag);
    context.diagnostics
}

#[test]
fn applied_generic_with_violating_argument_reports_once() {
    let db = gc_db(SyntaxTree { nodes: Vec::new() });
    let range = gc_range(10, 20);
    let found = gc_check_tag(&db, &gc_tag(vec![gc_applied(range, "Box", vec![gc_ref("Other")])]));
    assert_eq!(found.len(), 1);
    assert_eq!(found[0].code, DiagnosticCode::GenericConstraintMismatch);
    assert_eq!(found[0].range, range);
    assert_eq!(found[0].message, "the generic constraint must be a subclass of `Base`. ");
    assert_eq!(found[0].data, None);
}

#[test]
fn applied_generic_with_compatible_argument_reports_nothing() {
    let db = gc_db(SyntaxTree { nodes: Vec::new() });
    let range = gc_range(10, 20);
    assert!(gc_check_tag(&db, &gc_tag(vec![gc_applied(range, "Box", vec![gc_ref("Derived")])]))
        .is_empty());
    assert!(gc_check_tag(&db, &gc_tag(vec![gc_applied(range, "Box", vec![gc_ref("Base")])]))
        .is_empty());
    assert!(gc_check_tag(&db, &gc_tag(vec![gc_applied(range, "Box", vec![Type::Any])])).is_empty());
}

#[test]
fn applied_generic_skips_positions_without_a_bound() {
    let db = gc_db(SyntaxTree { nodes: Vec::new() });
    let range = gc_range(3, 9);
    let found = gc_check_tag(
        &db,
        &gc_tag(vec![gc_applied(range, "Pair", vec![Type::Integer, gc_ref("Other")])]),
    );
    assert_eq!(found.len(), 1);
    assert_eq!(found[0].range, range);
    assert!(gc_check_tag(
        &db,
        &gc_tag(vec![gc_applied(range, "Pair", vec![gc_ref("Other"), gc_ref("Derived")])])
    )
    .is_empty());
}

#[test]
fn applied_generic_reports_each_violated_position() {
    let db = gc_db(SyntaxTree { nodes: Vec::new() });
    let range = gc_range(3, 9);
    let found = gc_check_tag(
        &db,
        &gc_tag(vec![gc_applied(range, "Both", vec![Type::Integer, Type::Integer])]),
    );
    assert_eq!(found.len(), 2);
    assert_eq!(found[0].message, "the generic constraint must be a subclass of `string`. ");
    assert_eq!(found[1].message, "the generic constraint must be a subclass of `Base`. ");
}

#[test]
fn applied_generic_with_more_arguments_than_parameters() {
    let db = gc_db(SyntaxTree { nodes: Vec::new() });
    let range = gc_range(3, 9);
    assert!(gc_check_tag(
        &db,
        &gc_tag(vec![gc_applied(range, "Box", vec![gc_ref("Derived"), gc_ref("Other")])])
    )
    .is_empty());
}

#[test]
fn doc_tag_checks_every_type_of_its_list() {
    let db = gc_db(SyntaxTree { nodes: Vec::new() });
    let found = gc_check_tag(
        &db,
        &gc_tag(vec![
            gc_applied(gc_range(1, 2), "Unknown", vec![Type::Integer]),
            DocType { range: gc_range(2, 3), ty: Type::Integer },
            gc_applied(gc_range(3, 4), "Box", vec![gc_ref("Other")]),
            gc_applied(gc_range(5, 6), "Box", vec![gc_ref("Derived")]),
            gc_applied(gc_range(7, 8), "Box", vec![Type::Nil]),
        ]),
    );
    assert_eq!(found.len(), 2);
    assert_eq!(found[0].range, gc_range(3, 4));
    assert_eq!(found[1].range, gc_range(7, 8));
}

#[test]
fn add_type_check_diagnostic_words_each_reason() {
    let db = gc_db(SyntaxTree { nodes: Vec::new() });
    let model = SemanticModel::new(&db, InferCache::new(GC_FILE)).unwrap();
    let range = gc_range(0, 4);
    let bound = gc_ref("Base");
    let cases: Vec<(Result<(), TypeCheckFailReason>, Option<&str>)> = vec![
        (Ok(()), None),
        (
            Err(TypeCheckFailReason::TypeNotMatch),
            Some("the generic constraint must be a subclass of `Base`. "),
        ),
        (
            Err(TypeCheckFailReason::DonotCheck),
            Some("the generic constraint must be a subclass of `Base`. "),
        ),
        (
            Err(TypeCheckFailReason::TypeRecursion),
            Some("the generic constraint must be a subclass of `Base`. type recursion"),
        ),
        (
            Err(TypeCheckFailReason::TypeNotMatchWithReason("because".to_string())),
            Some("the generic constraint must be a subclass of `Base`. because"),
        ),
    ];
    for (result, expected) in cases {
        let mut context = DiagnosticContext::new(GC_FILE);
        add_type_check_diagnostic(&mut context, &model, range, &bound, result);
        match expected {
            None => assert!(context.get_diagnostics().is_empty()),
            Some(message) => {
                assert_eq!(context.get_diagnostics().len(), 1);
                assert_eq!(context.get_diagnostics()[0].message, message);
                assert_eq!(context.get_diagnostics()[0].range, range);
            }
        }
    }
}

#[test]
fn dot_call_of_colon_defined_signature_drops_the_first_parameter() {
    let declared = vec![
        ("self".to_string(), Some(Type::SelfInfer)),
        ("a".to_string(), Some(Type::Integer)),
        ("b".to_string(), None),
    ];
    let effective = adjust_params(declared, false, true);
    assert_eq!(effective.len(), 2);
    assert_eq!(effective[0].0, "a");
    assert!(effective[0].1 == Some(Type::Integer));
    assert_eq!(effective[1].0, "b");
    assert!(adjust_params(Vec::new(), false, true).is_empty());
}

#[test]
fn colon_call_of_dot_defined_signature_gains_self() {
    let declared = vec![("a".to_string(), Some(Type::Integer))];
    let effective = adjust_params(declared, true, false);
    assert_eq!(effective.len(), 2);
    assert_eq!(effective[0].0, "self");
    assert!(effective[0].1 == Some(Type::SelfInfer));
    assert_eq!(effective[1].0, "a");
    let from_none = adjust_params(Vec::new(), true, false);
    assert_eq!(from_none.len(), 1);
    assert_eq!(from_none[0].0, "self");
}

#[test]
fn matching_call_and_declaration_keep_the_parameters() {
    let declared = vec![("a".to_string(), Some(Type::Integer)), ("b".to_string(), None)];
    for colon in [true, false] {
        let effective = adjust_params(declared.clone(), colon, colon);
        assert_eq!(effective.len(), 2);
        assert_eq!(effective[0].0, "a");
        assert_eq!(effective[1].0, "b");
    }
}

struct GcCall {
    db: Database,
    cache: InferCache,
    call: CallExpr,
}

fn gc_call(
    signature: Signature,
    is_colon_call: bool,
    arg_types: Vec<Option<Type>>,
) -> GcCall {
    let prefix = gc_expr(SyntaxKind::NameExpr, 0, 3);
    let mut cache = InferCache::new(GC_FILE);
    assert!(cache.record_expr_type(GC_FILE, prefix, Type::Signature(signature.id)));
    let mut args = Vec::new();
    for (i, ty) in arg_types.into_iter().enumerate() {
        let start = 10 + 10 * (i as u32);
        let arg = gc_expr(SyntaxKind::LiteralExpr, start, start + 5);
        if let Some(ty) = ty {
            assert!(cache.record_expr_type(GC_FILE, arg, ty));
        }
        args.push(arg);
    }
    let mut db = gc_db(SyntaxTree { nodes: Vec::new() });
    assert!(db.signature_index.add_signature(signature));
    let call = CallExpr {
        id: gc_expr(SyntaxKind::CallExpr, 0, 100),
        prefix: Some(prefix),
        is_colon_call,
        args: Some(args),
    };
    GcCall { db, cache, call }
}

fn gc_check_call(setup: GcCall) -> Vec<Diagnostic> {
    let model = SemanticModel::new(&setup.db, setup.cache).unwrap();
    let mut context = DiagnosticContext::new(GC_FILE);
    check_call_expr(&mut context, &model, &setup.call);
    context.diagnostics
}

#[test]
fn call_argument_violating_the_bound_of_a_generic_parameter() {
    let signature = gc_signature(
        50,
        vec![("x".to_string(), Some(gc_tpl(0)))],
        false,
        vec![("T".to_string(), Some(gc_ref("Base")))],
    );
    let found = gc_check_call(gc_call(signature, false, vec![Some(gc_ref("Other"))]));
    assert_eq!(found.len(), 1);
    assert_eq!(found[0].code, DiagnosticCode::GenericConstraintMismatch);
    assert_eq!(found[0].range, gc_range(10, 15));
    assert_eq!(found[0].message, "the generic constraint must be a subclass of `Base`. ");
}

#[test]
fn call_argument_meeting_the_bound_of_a_generic_parameter() {
    let signature = gc_signature(
        50,
        vec![("x".to_string(), Some(gc_tpl(0)))],
        false,
        vec![("T".to_string(), Some(gc_ref("Base")))],
    );
    assert!(gc_check_call(gc_call(signature, false, vec![Some(gc_ref("Derived"))])).is_empty());
}

#[test]
fn call_without_bound_or_argument_or_type_reports_nothing() {
    let unbounded = gc_signature(
        50,
        vec![("x".to_string(), Some(gc_tpl(0)))],
        false,
        vec![("T".to_string(), None)],
    );
    assert!(gc_check_call(gc_call(unbounded, false, vec![Some(gc_ref("Other"))])).is_empty());
    let out_of_range = gc_signature(
        50,
        vec![("x".to_string(), Some(gc_tpl(3)))],
        false,
        vec![("T".to_string(), Some(gc_ref("Base")))],
    );
    assert!(gc_check_call(gc_call(out_of_range, false, vec![Some(gc_ref("Other"))])).is_empty());
    let bounded = || {
        gc_signature(
            50,
            vec![("x".to_string(), Some(gc_tpl(0)))],
            false,
            vec![("T".to_string(), Some(gc_ref("Base")))],
        )
    };
    assert!(gc_check_call(gc_call(bounded(), false, Vec::new())).is_empty());
    assert!(gc_check_call(gc_call(bounded(), false, vec![None])).is_empty());
    let mut no_list = gc_call(bounded(), false, vec![Some(gc_ref("Other"))]);
    no_list.call.args = None;
    assert!(gc_check_call(no_list).is_empty());
    let mut no_prefix = gc_call(bounded(), false, vec![Some(gc_ref("Other"))]);
    no_prefix.call.prefix = None;
    assert!(gc_check_call(no_prefix).is_empty());
}

#[test]
fn colon_call_of_dot_defined_signature_shifts_the_arguments() {
    let signature = || {
        gc_signature(
            50,
            vec![("x".to_string(), Some(gc_tpl(0)))],
            false,
            vec![("T".to_string(), Some(gc_ref("Base")))],
        )
    };
    let found = gc_check_call(gc_call(
        signature(),
        true,
        vec![Some(gc_ref("Derived")), Some(gc_ref("Other"))],
    ));
    assert_eq!(found.len(), 1);
    assert_eq!(found[0].range, gc_range(20, 25));
    assert!(gc_check_call(gc_call(
        signature(),
        true,
        vec![Some(gc_ref("Other")), Some(gc_ref("Derived"))]
    ))
    .is_empty());
}

#[test]
fn dot_call_of_colon_defined_signature_shifts_the_parameters() {
    let signature = || {
        gc_signature(
            50,
            vec![
                ("first".to_string(), Some(Type::Integer)),
                ("x".to_string(), Some(gc_tpl(0))),
            ],
            true,
            vec![("T".to_string(), Some(gc_ref("Base")))],
        )
    };
    let found = gc_check_call(gc_call(
        signature(),
        false,
        vec![Some(gc_ref("Other")), Some(gc_ref("Derived"))],
    ));
    assert_eq!(found.len(), 1);
    assert_eq!(found[0].range, gc_range(10, 15));
    let colon = gc_check_call(gc_call(
        signature(),
        true,
        vec![Some(gc_ref("Other")), Some(gc_ref("Derived"))],
    ));
    assert!(colon.is_empty());
}

#[test]
fn string_template_argument_names_the_type_to_check() {
    let signature = |prefix: &str, suffix: &str| {
        gc_signature(
            50,
            vec![("name".to_string(), Some(Type::StrTplRef(gc_str_tpl(prefix, suffix))))],
            false,
            vec![("T".to_string(), Some(gc_ref("Base")))],
        )
    };
    let derived = Some(Type::StringConst("Derived".to_string()));
    assert!(gc_check_call(gc_call(signature("", ""), false, vec![derived.clone()])).is_empty());
    let other = Some(Type::StringConst("Other".to_string()));
    let found = gc_check_call(gc_call(signature("", ""), false, vec![other]));
    assert_eq!(found.len(), 1);
    assert_eq!(found[0].range, gc_range(10, 15));
    assert_eq!(found[0].message, "the generic constraint must be a subclass of `Base`. ");
    let missing = Some(Type::StringConst("Nowhere".to_string()));
    assert_eq!(gc_check_call(gc_call(signature("", ""), false, vec![missing])).len(), 1);
    let part = Some(Type::StringConst("riv".to_string()));
    assert!(gc_check_call(gc_call(signature("De", "ed"), false, vec![part.clone()])).is_empty());
    assert_eq!(gc_check_call(gc_call(signature("De", ""), false, vec![part])).len(), 1);
    assert!(gc_check_call(gc_call(signature("", ""), false, vec![Some(Type::String)])).is_empty());
    assert!(gc_check_call(gc_call(signature("", ""), false, vec![Some(Type::Integer)])).is_empty());
}

#[test]
fn string_template_with_string_bound_accepts_every_string() {
    let signature = || {
        gc_signature(
            50,
            vec![("name".to_string(), Some(Type::StrTplRef(gc_str_tpl("", ""))))],
            false,
            vec![("T".to_string(), Some(Type::String))],
        )
    };
    for arg in [
        Type::StringConst("Nowhere".to_string()),
        Type::StringConst(String::new()),
        Type::DocStringConst("x".to_string()),
        Type::String,
    ] {
        assert!(gc_check_call(gc_call(signature(), false, vec![Some(arg)])).is_empty());
    }
}

#[test]
fn check_str_tpl_ref_and_check_tpl_ref_directly() {
    let signature = gc_signature(50, Vec::new(), false, Vec::new());
    let setup = gc_call(signature, false, vec![Some(Type::StringConst("Other".to_string()))]);
    let model = SemanticModel::new(&setup.db, setup.cache).unwrap();
    let bound = Some(gc_ref("Base"));
    let mut context = DiagnosticContext::new(GC_FILE);
    check_str_tpl_ref(&mut context, &model, &setup.call, 0, &bound, &gc_str_tpl("", ""));
    assert_eq!(context.get_diagnostics().len(), 1);
    check_str_tpl_ref(&mut context, &model, &setup.call, 1, &bound, &gc_str_tpl("", ""));
    check_str_tpl_ref(&mut context, &model, &setup.call, 0, &None, &gc_str_tpl("", ""));
    assert_eq!(context.get_diagnostics().len(), 1);
    check_tpl_ref(&mut context, &model, &setup.call, 0, &bound);
    assert_eq!(context.get_diagnostics().len(), 2);
    check_tpl_ref(&mut context, &model, &setup.call, 0, &Some(Type::String));
    check_tpl_ref(&mut context, &model, &setup.call, 0, &None);
    check_tpl_ref(&mut context, &model, &setup.call, 5, &bound);
    assert_eq!(context.get_diagnostics().len(), 2);
}

#[test]
fn extend_type_of_a_type_parameter_comes_from_the_owner_of_the_member() {
    let signature = gc_signature(
        50,
        vec![("x".to_string(), Some(gc_tpl(0)))],
        false,
        vec![("F".to_string(), Some(Type::Integer))],
    );
    let mut setup = gc_call(signature, false, Vec::new());
    let prefix = setup.call.prefix.unwrap();
    let member_id = MemberId { file_id: GC_FILE, syntax_id: prefix };
    assert!(setup.db.member_index.add_member(Member {
        id: member_id,
        key: MemberKey::Name("put".to_string()),
        is_field: false,
        owner: MemberOwner::Type(TypeDeclId::new("Pair")),
    }));
    assert!(setup.cache.record_decl_ref(GC_FILE, prefix, SemanticDeclId::Member(member_id)));
    let model = SemanticModel::new(&setup.db, setup.cache).unwrap();
    let signature = setup.db.get_signature_index().get(&gc_sig_id(50)).unwrap();
    assert!(get_extend_type(&model, &setup.call, GenericTplId::Type(1), signature)
        == Some(gc_ref("Base")));
    assert!(get_extend_type(&model, &setup.call, GenericTplId::Type(0), signature).is_none());
    assert!(get_extend_type(&model, &setup.call, GenericTplId::Type(2), signature).is_none());
    assert!(get_extend_type(&model, &setup.call, GenericTplId::Func(0), signature)
        == Some(Type::Integer));
    assert!(get_extend_type(&model, &setup.call, GenericTplId::Func(1), signature).is_none());
}

#[test]
fn checker_walks_the_whole_file_in_order() {
    let prefix = gc_expr(SyntaxKind::NameExpr, 0, 3);
    let arg = gc_expr(SyntaxKind::LiteralExpr, 4, 9);
    let tree = SyntaxTree {
        nodes: vec![
            SyntaxNode::DocTagType(gc_tag(vec![gc_applied(
                gc_range(100, 110),
                "Box",
                vec![gc_ref("Other")],
            )])),
            SyntaxNode::Other(gc_expr(SyntaxKind::Other, 0, 200)),
            SyntaxNode::Call(CallExpr {
                id: gc_expr(SyntaxKind::CallExpr, 0, 10),
                prefix: Some(prefix),
                is_colon_call: false,
                args: Some(vec![arg]),
            }),
            SyntaxNode::DocTagType(gc_tag(vec![gc_applied(
                gc_range(120, 130),
                "Box",
                vec![gc_ref("Derived")],
            )])),
        ],
    };
    let mut db = gc_db(tree);
    assert!(db.signature_index.add_signature(gc_signature(
        50,
        vec![("x".to_string(), Some(gc_tpl(0)))],
        false,
        vec![("T".to_string(), Some(gc_ref("Base")))],
    )));
    let mut cache = InferCache::new(GC_FILE);
    assert!(cache.record_expr_type(GC_FILE, prefix, Type::Signature(gc_sig_id(50))));
    assert!(cache.record_expr_type(GC_FILE, arg, Type::Integer));
    let model = SemanticModel::new(&db, cache).unwrap();
    let mut context = DiagnosticContext::new(GC_FILE);
    GenericConstraintMismatchChecker::check(&mut context, &model);
    let found = context.get_diagnostics();
    assert_eq!(found.len(), 2);
    assert_eq!(found[0].range, gc_range(100, 110));
    assert_eq!(found[1].range, gc_range(4, 9));
    assert_eq!(
        GenericConstraintMismatchChecker::codes(),
        vec![DiagnosticCode::GenericConstraintMismatch]
    );
}

#[test]
fn diagnostic_codes_have_names() {
    let codes = [
        (DiagnosticCode::SyntaxError, "syntax-error"),
        (DiagnosticCode::TypeNotFound, "type-not-found"),
        (DiagnosticCode::ParamTypeNotMatch, "param-type-not-match"),
        (DiagnosticCode::UndefinedGlobal, "undefined-global"),
        (DiagnosticCode::Unused, "unused"),
        (DiagnosticCode::GenericConstraintMismatch, "generic-constraint-mismatch"),
    ];
    for (code, name) in codes {
        assert_eq!(code.get_name(), name);
        assert_eq!(DiagnosticCode::from_name(name), Some(code));
    }
    assert_eq!(DiagnosticCode::from_name("no-such-code"), None);
    assert_eq!(DiagnosticCode::from_name(""), None);
}
