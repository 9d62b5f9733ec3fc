use lua_type_engine::doc_type::{named_type, nullable, union_of, GenericScope};
use lua_type_engine::ids::{GenericTplId, TypeDeclId};
use lua_type_engine::types::{GenericTpl, Type};

fn dt_scope() -> GenericScope {
    GenericScope {
        func: vec!["T".to_string(), "U".to_string(), "T".to_string()],
        ty: vec!["K".to_string(), "U".to_string()],
    }
}

#[test]
fn names_of_builtin_types() {
    let scope = GenericScope::empty();
    let cases = [
        ("any", Type::Any),
        ("nil", Type::Nil),
        ("boolean", Type::Boolean),
        ("string", Type::String),
        ("integer", Type::Integer),
        ("number", Type::Number),
        ("function", Type::Function),
        ("self", Type::SelfInfer),
    ];
    for (name, expected) in cases {
        assert!(named_type(name, &scope) == expected, "{}", name);
        assert!(named_type(name, &dt_scope()) == expected, "{}", name);
    }
}

#[test]
fn names_of_generic_parameters_and_declarations() {
    let scope = dt_scope();
    let tpl = |tpl_id, name: &str| Type::TplRef(GenericTpl { tpl_id, name: name.to_string() });
    assert!(named_type("T", &scope) == tpl(GenericTplId::Func(0), "T"));
    assert!(named_type("U", &scope) == tpl(GenericTplId::Func(1), "U"));
    assert!(named_type("K", &scope) == tpl(GenericTplId::Type(0), "K"));
    assert!(named_type("V", &scope) == Type::Ref(TypeDeclId::new("V")));
    assert!(named_type("String", &scope) == Type::Ref(TypeDeclId::new("String")));
    assert!(named_type("T", &GenericScope::empty()) == Type::Ref(TypeDeclId::new("T")));
    assert_eq!(scope.find("U"), Some(GenericTplId::Func(1)));
    assert_eq!(scope.find("K"), Some(GenericTplId::Type(0)));
    assert_eq!(scope.find("Z"), None);
}

#[test]
fn union_of_merges_unions() {
    let a = || Type::Integer;
    let b = || Type::String;
    let c = || Type::Nil;
    assert!(union_of(a(), b()) == Type::Union(vec![a(), b()]));
    assert!(union_of(Type::Union(vec![a(), b()]), c()) == Type::Union(vec![a(), b(), c()]));
    assert!(union_of(a(), Type::Union(vec![b(), c()])) == Type::Union(vec![a(), b(), c()]));
    assert!(
        union_of(Type::Union(vec![a()]), Type::Union(vec![b(), c()]))
            == Type::Union(vec![a(), b(), c()])
    );
    assert!(union_of(Type::Union(Vec::new()), a()) == Type::Union(vec![a()]));
    assert!(union_of(a(), a()) == Type::Union(vec![a(), a()]));
}

#[test]
fn nullable_adds_nil() {
    assert!(nullable(Type::Integer) == Type::Union(vec![Type::Integer, Type::Nil]));
    let u = Type::Union(vec![Type::Integer]);
    assert!(nullable(u.clone()) == Type::Union(vec![u, Type::Nil]));
}
