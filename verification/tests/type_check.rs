use lua_type_engine::db::{Database, TypeDecl, TypeDeclKind};
use lua_type_engine::ids::{FileId, GenericTplId, SignatureId, TypeDeclId};
use lua_type_engine::type_check::{
    check_compatible, check_extends, type_check, TypeCheckFailReason, TYPE_CHECK_DEPTH,
};
use lua_type_engine::types::{FunctionType, GenericTpl, GenericType, StringTplType, Type};

fn tc_class(name: &str, supers: &[&str]) -> TypeDecl {
    TypeDecl {
        id: TypeDeclId::new(name),
        kind: TypeDeclKind::Class,
        generic_params: Vec::new(),
        alias_origin: None,
        supers: supers.iter().map(|s| TypeDeclId::new(s)).collect(),
    }
}

fn tc_alias(name: &str, origin: Type) -> TypeDecl {
    TypeDecl {
        id: TypeDeclId::new(name),
        kind: TypeDeclKind::Alias,
        generic_params: Vec::new(),
        alias_origin: Some(origin),
        supers: Vec::new(),
    }
}

fn tc_ref(name: &str) -> Type {
    Type::Ref(TypeDeclId::new(name))
}

fn tc_db() -> Database {
    let mut db = Database::new();
    assert!(db.type_index.add_type_decl(tc_class("Animal", &[])));
    assert!(db.type_index.add_type_decl(tc_class("Dog", &["Animal"])));
    assert!(db.type_index.add_type_decl(tc_class("Puppy", &["Dog"])));
    assert!(db.type_index.add_type_decl(tc_class("Cat", &["Animal"])));
    assert!(db.type_index.add_type_decl(tc_alias("Id", Type::Integer)));
    assert!(db.type_index.add_type_decl(tc_alias(
        "Mode",
        Type::MultiLineUnion(vec![
            (Type::DocStringConst("r".to_string()), Some("read".to_string())),
            (Type::DocStringConst("w".to_string()), None),
        ])
    )));
    assert!(db.type_index.add_type_decl(tc_alias("Loop", tc_ref("Loop"))));
    assert!(db.type_index.add_type_decl(tc_alias("Ping", tc_ref("Pong"))));
    assert!(db.type_index.add_type_decl(tc_alias("Pong", tc_ref("Ping"))));
    assert!(db.type_index.add_type_decl(tc_alias(
        "Twice",
        Type::Union(vec![tc_ref("Twice"), tc_ref("Twice")])
    )));
    assert!(db.type_index.add_type_decl(tc_class("Ouro", &["Ouro", "Ouro"])));
    db
}

fn tc_is_not_match(r: Result<(), TypeCheckFailReason>) -> bool {
    matches!(r, Err(TypeCheckFailReason::TypeNotMatch))
}

fn tc_is_recursion(r: Result<(), TypeCheckFailReason>) -> bool {
    matches!(r, Err(TypeCheckFailReason::TypeRecursion))
}

fn tc_is_skipped(r: Result<(), TypeCheckFailReason>) -> bool {
    matches!(r, Err(TypeCheckFailReason::DonotCheck))
}

#[test]
fn type_check_is_reflexive_on_samples() {
    let db = tc_db();
    let samples = vec![
        Type::Any,
        Type::Nil,
        Type::String,
        Type::IntegerConst(1),
        Type::FloatConst("0.5".to_string()),
        tc_ref("Dog"),
        tc_ref("Unknown"),
        tc_ref("Loop"),
        tc_ref("Twice"),
        Type::SelfInfer,
        Type::TplRef(GenericTpl { tpl_id: GenericTplId::Func(0), name: "T".to_string() }),
        Type::Union(vec![tc_ref("Loop"), Type::Nil]),
        Type::Generic(GenericType { base: TypeDeclId::new("Box"), params: vec![tc_ref("Ping")] }),
        Type::Signature(SignatureId { file_id: FileId { id: 0 }, position: 1 }),
    ];
    for t in &samples {
        assert!(type_check(&db, t, t).is_ok(), "{:?}", t);
    }
}

#[test]
fn type_check_is_reflexive_beyond_the_depth_bound() {
    let db = tc_db();
    let mut deep = Type::Integer;
    for _ in 0..(TYPE_CHECK_DEPTH + 50) {
        deep = Type::Union(vec![deep, Type::Nil]);
    }
    assert!(type_check(&db, &deep, &deep.clone()).is_ok());
}

#[test]
fn type_check_widens_constants_to_their_base() {
    let db = tc_db();
    assert!(type_check(&db, &Type::String, &Type::StringConst("a".to_string())).is_ok());
    assert!(type_check(&db, &Type::String, &Type::DocStringConst("a".to_string())).is_ok());
    assert!(type_check(&db, &Type::Integer, &Type::IntegerConst(1)).is_ok());
    assert!(type_check(&db, &Type::Integer, &Type::DocIntegerConst(1)).is_ok());
    assert!(type_check(&db, &Type::Number, &Type::Integer).is_ok());
    assert!(type_check(&db, &Type::Number, &Type::IntegerConst(1)).is_ok());
    assert!(type_check(&db, &Type::Number, &Type::FloatConst("1.5".to_string())).is_ok());
    assert!(tc_is_not_match(type_check(&db, &Type::Integer, &Type::Number)));
    assert!(tc_is_not_match(type_check(&db, &Type::Integer, &Type::FloatConst("1.5".to_string()))));
    assert!(tc_is_not_match(type_check(&db, &Type::StringConst("a".to_string()), &Type::String)));
    assert!(tc_is_not_match(type_check(&db, &Type::String, &Type::Integer)));
    assert!(tc_is_not_match(type_check(&db, &Type::Boolean, &Type::Nil)));
}

#[test]
fn type_check_matches_constants_across_forms() {
    let db = tc_db();
    let s = Type::StringConst("a".to_string());
    let ds = Type::DocStringConst("a".to_string());
    assert!(type_check(&db, &s, &ds).is_ok());
    assert!(type_check(&db, &ds, &s).is_ok());
    assert!(tc_is_not_match(type_check(&db, &ds, &Type::StringConst("b".to_string()))));
    assert!(type_check(&db, &Type::IntegerConst(2), &Type::DocIntegerConst(2)).is_ok());
    assert!(type_check(&db, &Type::DocIntegerConst(2), &Type::IntegerConst(2)).is_ok());
    assert!(tc_is_not_match(type_check(&db, &Type::DocIntegerConst(2), &Type::IntegerConst(3))));
}

#[test]
fn type_check_any_matches_everything() {
    let db = tc_db();
    assert!(type_check(&db, &Type::Any, &tc_ref("Dog")).is_ok());
    assert!(type_check(&db, &tc_ref("Dog"), &Type::Any).is_ok());
    assert!(type_check(&db, &Type::Any, &Type::SelfInfer).is_ok());
}

#[test]
fn type_check_skips_placeholders() {
    let db = tc_db();
    let tpl = Type::TplRef(GenericTpl { tpl_id: GenericTplId::Func(0), name: "T".to_string() });
    let str_tpl = Type::StrTplRef(StringTplType {
        prefix: String::new(),
        name: "T".to_string(),
        suffix: String::new(),
        tpl_id: GenericTplId::Func(0),
    });
    assert!(tc_is_skipped(type_check(&db, &tpl, &Type::Integer)));
    assert!(tc_is_skipped(type_check(&db, &Type::Integer, &str_tpl)));
    assert!(tc_is_skipped(type_check(&db, &Type::SelfInfer, &tc_ref("Dog"))));
}

#[test]
fn type_check_does_not_compare_function_shapes() {
    let db = tc_db();
    let f = Type::DocFunction(Box::new(FunctionType {
        is_async: false,
        is_colon_define: false,
        params: Vec::new(),
        ret: Type::Nil,
    }));
    let s = Type::Signature(SignatureId { file_id: FileId { id: 0 }, position: 1 });
    assert!(tc_is_skipped(type_check(&db, &f, &s)));
    assert!(tc_is_skipped(type_check(&db, &s, &f)));
    assert!(type_check(&db, &Type::Function, &f).is_ok());
    assert!(type_check(&db, &Type::Function, &s).is_ok());
    assert!(tc_is_not_match(type_check(&db, &f, &Type::Function)));
    assert!(tc_is_not_match(type_check(&db, &s, &Type::Integer)));
}

#[test]
fn type_check_follows_declared_supers() {
    let db = tc_db();
    assert!(type_check(&db, &tc_ref("Animal"), &tc_ref("Dog")).is_ok());
    assert!(type_check(&db, &tc_ref("Animal"), &tc_ref("Puppy")).is_ok());
    assert!(type_check(&db, &tc_ref("Dog"), &tc_ref("Puppy")).is_ok());
    assert!(tc_is_not_match(type_check(&db, &tc_ref("Dog"), &tc_ref("Animal"))));
    assert!(tc_is_not_match(type_check(&db, &tc_ref("Dog"), &tc_ref("Cat"))));
    assert!(tc_is_not_match(type_check(&db, &tc_ref("Dog"), &tc_ref("Unknown"))));
    assert!(tc_is_not_match(type_check(&db, &tc_ref("Dog"), &Type::Integer)));
    let generic_dog = Type::Generic(GenericType {
        base: TypeDeclId::new("Dog"),
        params: vec![Type::Integer],
    });
    assert!(type_check(&db, &tc_ref("Animal"), &generic_dog).is_ok());
    assert!(type_check(&db, &tc_ref("Dog"), &generic_dog).is_ok());
    assert!(tc_is_not_match(type_check(&db, &tc_ref("Cat"), &generic_dog)));
}

#[test]
fn check_extends_is_bounded_by_its_fuel() {
    let db = tc_db();
    let puppy = TypeDeclId::new("Puppy");
    let animal = TypeDeclId::new("Animal");
    assert!(check_extends(&db, &puppy, &animal, 2).is_ok());
    assert!(tc_is_recursion(check_extends(&db, &puppy, &animal, 1)));
    assert!(tc_is_recursion(check_extends(&db, &puppy, &animal, 0)));
    assert!(check_extends(&db, &puppy, &puppy, 0).is_ok());
}

#[test]
fn type_check_resolves_aliases() {
    let db = tc_db();
    assert!(type_check(&db, &tc_ref("Id"), &Type::IntegerConst(4)).is_ok());
    assert!(type_check(&db, &Type::Integer, &tc_ref("Id")).is_ok());
    assert!(type_check(&db, &Type::Number, &tc_ref("Id")).is_ok());
    assert!(tc_is_not_match(type_check(&db, &tc_ref("Id"), &Type::String)));
    assert!(type_check(&db, &tc_ref("Mode"), &Type::StringConst("r".to_string())).is_ok());
    assert!(type_check(&db, &tc_ref("Mode"), &Type::DocStringConst("w".to_string())).is_ok());
    assert!(tc_is_not_match(type_check(&db, &tc_ref("Mode"), &Type::StringConst("x".to_string()))));
    assert!(type_check(&db, &Type::String, &tc_ref("Mode")).is_ok());
}

#[test]
fn type_check_union_matches_when_any_member_does() {
    let db = tc_db();
    let int_or_nil = Type::Union(vec![Type::Integer, Type::Nil]);
    assert!(type_check(&db, &int_or_nil, &Type::Nil).is_ok());
    assert!(type_check(&db, &int_or_nil, &Type::IntegerConst(1)).is_ok());
    assert!(tc_is_not_match(type_check(&db, &int_or_nil, &Type::String)));
    assert!(type_check(&db, &Type::Integer, &int_or_nil).is_ok());
    assert!(type_check(&db, &Type::Nil, &int_or_nil).is_ok());
    assert!(tc_is_not_match(type_check(&db, &Type::String, &int_or_nil)));
    assert!(tc_is_not_match(type_check(&db, &Type::String, &Type::Union(Vec::new()))));
    assert!(tc_is_not_match(type_check(&db, &Type::Union(Vec::new()), &Type::String)));
}

#[test]
fn type_check_compares_generic_arguments_pairwise() {
    let db = tc_db();
    let boxed = |params: Vec<Type>| {
        Type::Generic(GenericType { base: TypeDeclId::new("Box"), params })
    };
    assert!(type_check(&db, &boxed(vec![tc_ref("Animal")]), &boxed(vec![tc_ref("Dog")])).is_ok());
    assert!(tc_is_not_match(type_check(
        &db,
        &boxed(vec![tc_ref("Dog")]),
        &boxed(vec![tc_ref("Animal")])
    )));
    assert!(type_check(
        &db,
        &boxed(vec![Type::Integer, Type::String]),
        &boxed(vec![Type::IntegerConst(1), Type::StringConst("s".to_string())])
    )
    .is_ok());
    let other = Type::Generic(GenericType {
        base: TypeDeclId::new("Bag"),
        params: vec![tc_ref("Dog")],
    });
    assert!(tc_is_not_match(type_check(&db, &boxed(vec![tc_ref("Dog")]), &other)));
    assert!(tc_is_not_match(type_check(&db, &boxed(vec![tc_ref("Dog")]), &tc_ref("Box"))));
}

#[test]
fn type_check_explains_a_differing_argument_count() {
    let db = tc_db();
    let one = Type::Generic(GenericType {
        base: TypeDeclId::new("Box"),
        params: vec![Type::Integer],
    });
    let two = Type::Generic(GenericType {
        base: TypeDeclId::new("Box"),
        params: vec![Type::Integer, Type::String],
    });
    match type_check(&db, &one, &two) {
        Err(TypeCheckFailReason::TypeNotMatchWithReason(reason)) => {
            assert_eq!(reason, "expected 1 generic arguments, found 2");
        }
        other => panic!("unexpected result {:?}", other),
    }
    match type_check(&db, &two, &one) {
        Err(TypeCheckFailReason::TypeNotMatchWithReason(reason)) => {
            assert_eq!(reason, "expected 2 generic arguments, found 1");
        }
        other => panic!("unexpected result {:?}", other),
    }
}

#[test]
fn type_check_ends_on_cyclic_aliases() {
    let db = tc_db();
    assert!(tc_is_recursion(type_check(&db, &tc_ref("Loop"), &Type::Integer)));
    assert!(tc_is_recursion(type_check(&db, &Type::Integer, &tc_ref("Loop"))));
    assert!(tc_is_recursion(type_check(&db, &tc_ref("Ping"), &Type::String)));
    assert!(tc_is_recursion(type_check(&db, &tc_ref("Pong"), &tc_ref("Dog"))));
    assert!(tc_is_recursion(type_check(&db, &tc_ref("Twice"), &Type::Integer)));
    assert!(tc_is_recursion(type_check(&db, &Type::Integer, &tc_ref("Twice"))));
    assert!(tc_is_recursion(type_check(&db, &tc_ref("Ping"), &tc_ref("Loop"))));
}

#[test]
fn type_check_ends_on_cyclic_supers() {
    let db = tc_db();
    assert!(tc_is_recursion(type_check(&db, &tc_ref("Animal"), &tc_ref("Ouro"))));
    assert!(type_check(&db, &tc_ref("Ouro"), &tc_ref("Ouro")).is_ok());
}

#[test]
fn check_compatible_at_depth_zero() {
    let db = tc_db();
    assert!(check_compatible(&db, &Type::Integer, &Type::Integer, 0).is_ok());
    assert!(tc_is_recursion(check_compatible(&db, &Type::Integer, &Type::IntegerConst(1), 0)));
    assert!(check_compatible(&db, &Type::Integer, &Type::IntegerConst(1), 1).is_ok());
}
