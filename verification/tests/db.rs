use lua_type_engine::db::{
    Database, Decl, DeclKind, FileEntry, Member, Property, Signature, StdDescription, TypeDecl,
    TypeDeclKind,
};
use lua_type_engine::ids::{
    DeclId, FileId, MemberId, MemberKey, MemberOwner, SemanticDeclId, SignatureId, SourceRange,
    SyntaxId, SyntaxKind, TypeDeclId,
};
use lua_type_engine::types::Type;

fn db_member_id(n: u32) -> MemberId {
    MemberId {
        file_id: FileId { id: 1 },
        syntax_id: SyntaxId {
            kind: SyntaxKind::IndexExpr,
            range: SourceRange { start: n, end: n + 1 },
        },
    }
}

#[test]
fn type_index_finds_what_was_added_first() {
    let mut db = Database::new();
    let first = TypeDecl {
        id: TypeDeclId::new("ns.Foo"),
        kind: TypeDeclKind::Enum,
        generic_params: vec![("T".to_string(), Some(Type::String))],
        alias_origin: None,
        supers: Vec::new(),
    };
    let second = TypeDecl {
        id: TypeDeclId::new("ns.Foo"),
        kind: TypeDeclKind::Class,
        generic_params: Vec::new(),
        alias_origin: None,
        supers: Vec::new(),
    };
    assert!(db.type_index.add_type_decl(first));
    assert!(!db.type_index.add_type_decl(second));
    assert_eq!(db.type_index.decls.len(), 1);
    let found = db.get_type_index().get_type_decl(&TypeDeclId::new("ns.Foo")).unwrap();
    assert!(found.is_enum());
    assert!(!found.is_alias());
    assert_eq!(found.get_full_name(), "ns.Foo");
    assert_eq!(found.get_name(), "Foo");
    assert!(found.get_alias_origin().is_none());
    let params = db.get_type_index().get_generic_params(&TypeDeclId::new("ns.Foo")).unwrap();
    assert_eq!(params.len(), 1);
    assert!(db.get_type_index().get_type_decl(&TypeDeclId::new("Foo")).is_none());
    assert!(db.get_type_index().get_generic_params(&TypeDeclId::new("Foo")).is_none());
}

#[test]
fn alias_origin_is_given_for_aliases_only() {
    let alias = TypeDecl {
        id: TypeDeclId::new("A"),
        kind: TypeDeclKind::Alias,
        generic_params: Vec::new(),
        alias_origin: Some(Type::Integer),
        supers: Vec::new(),
    };
    assert!(alias.get_alias_origin().unwrap() == &Type::Integer);
    let class = TypeDecl {
        id: TypeDeclId::new("C"),
        kind: TypeDeclKind::Class,
        generic_params: Vec::new(),
        alias_origin: Some(Type::Integer),
        supers: Vec::new(),
    };
    assert!(class.get_alias_origin().is_none());
}

#[test]
fn signature_index_and_returns() {
    let mut db = Database::new();
    let id = SignatureId { file_id: FileId { id: 1 }, position: 4 };
    let sig = Signature {
        id,
        params: vec![("a".to_string(), None)],
        return_docs: Vec::new(),
        is_colon_define: true,
        is_async: false,
        overloads: Vec::new(),
        generic_params: Vec::new(),
    };
    assert!(sig.returns_nil());
    assert!(db.signature_index.add_signature(sig));
    let found = db.get_signature_index().get(&id).unwrap();
    assert_eq!(found.get_type_params().len(), 1);
    assert!(db
        .get_signature_index()
        .get(&SignatureId { file_id: FileId { id: 1 }, position: 5 })
        .is_none());
}

#[test]
fn member_index_gives_member_and_owner() {
    let mut db = Database::new();
    assert!(db.member_index.add_member(Member {
        id: db_member_id(1),
        key: MemberKey::Name("run".to_string()),
        is_field: true,
        owner: MemberOwner::Type(TypeDeclId::new("Job")),
    }));
    assert!(!db.member_index.add_member(Member {
        id: db_member_id(1),
        key: MemberKey::Integer(1),
        is_field: false,
        owner: MemberOwner::Element(FileId { id: 1 }, SourceRange { start: 0, end: 1 }),
    }));
    let m = db.get_member_index().get_member(&db_member_id(1)).unwrap();
    assert!(m.is_field());
    assert_eq!(m.get_key().to_path(), "run");
    assert_eq!(m.get_file_id(), FileId { id: 1 });
    match db.get_member_index().get_current_owner(&db_member_id(1)) {
        Some(MemberOwner::Type(id)) => assert_eq!(id.get_name(), "Job"),
        other => panic!("unexpected owner {:?}", other),
    }
    assert!(db.get_member_index().get_current_owner(&db_member_id(2)).is_none());
}

#[test]
fn decl_and_property_index() {
    let mut db = Database::new();
    let id = DeclId { file_id: FileId { id: 2 }, position: 9 };
    assert!(db.decl_index.add_decl(Decl {
        id,
        name: "x".to_string(),
        kind: DeclKind::Param,
        value_syntax_id: None,
    }));
    let d = db.get_decl_index().get_decl(&id).unwrap();
    assert!(d.is_param() && !d.is_local() && !d.is_global());
    assert_eq!(d.get_name(), "x");
    assert!(d.get_value_syntax_id().is_none());
    let owner = SemanticDeclId::LuaDecl(id);
    assert!(db.property_index.add_property(Property {
        owner,
        description: Some("first".to_string()),
        see_content: None,
        other_content: None,
    }));
    assert!(!db.property_index.add_property(Property {
        owner,
        description: Some("second".to_string()),
        see_content: None,
        other_content: None,
    }));
    let p = db.get_property_index().get_property(&owner).unwrap();
    assert_eq!(p.description.as_deref(), Some("first"));
}

#[test]
fn vfs_files_and_std_descriptions() {
    let mut db = Database::new();
    assert!(db.vfs.add_file(FileEntry {
        id: FileId { id: 1 },
        path: Some(vec!["ws".to_string(), "a.lua".to_string()]),
        is_std: false,
        tree: None,
    }));
    assert!(db.vfs.add_file(FileEntry {
        id: FileId { id: 2 },
        path: None,
        is_std: true,
        tree: None,
    }));
    assert!(!db.vfs.add_file(FileEntry {
        id: FileId { id: 2 },
        path: None,
        is_std: false,
        tree: None,
    }));
    assert_eq!(db.get_vfs().get_all_file_ids(), vec![FileId { id: 1 }, FileId { id: 2 }]);
    assert_eq!(db.get_vfs().get_file_path(&FileId { id: 1 }).unwrap().len(), 2);
    assert!(db.get_vfs().get_file_path(&FileId { id: 2 }).is_none());
    assert!(db.get_vfs().get_file_path(&FileId { id: 3 }).is_none());
    assert!(db.get_vfs().is_std(&FileId { id: 2 }));
    assert!(!db.get_vfs().is_std(&FileId { id: 1 }));
    assert!(!db.get_vfs().is_std(&FileId { id: 3 }));
    assert!(db.get_vfs().get_syntax_tree(&FileId { id: 1 }).is_none());
    db.vfs.add_std_description(StdDescription {
        owner_name: "string".to_string(),
        member_name: Some("len".to_string()),
        text: "length".to_string(),
    });
    db.vfs.add_std_description(StdDescription {
        owner_name: "print".to_string(),
        member_name: None,
        text: "prints".to_string(),
    });
    assert_eq!(db.get_vfs().std_description("string", Some("len")), "length");
    assert_eq!(db.get_vfs().std_description("print", None), "prints");
    assert_eq!(db.get_vfs().std_description("string", None), "");
    assert_eq!(db.get_vfs().std_description("print", Some("len")), "");
}
