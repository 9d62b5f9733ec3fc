use lua_type_engine::ids::{
    FileId, GenericTplId, MemberKey, SignatureId, SourceRange, TypeDeclId,
};
use lua_type_engine::types::{
    function_eq, params_eq, type_eq, FunctionType, GenericTpl, GenericType, StringTplType, Type,
};

fn types_sample_function() -> FunctionType {
    FunctionType {
        is_async: true,
        is_colon_define: false,
        params: vec![
            ("a".to_string(), Some(Type::Integer)),
            ("b".to_string(), None),
        ],
        ret: Type::Union(vec![Type::String, Type::Nil]),
    }
}

fn types_samples() -> Vec<Type> {
    vec![
        Type::Any,
        Type::Nil,
        Type::Boolean,
        Type::String,
        Type::Integer,
        Type::Number,
        Type::Function,
        Type::SelfInfer,
        Type::IntegerConst(3),
        Type::FloatConst("1.5".to_string()),
        Type::StringConst("x".to_string()),
        Type::DocIntegerConst(3),
        Type::DocStringConst("x".to_string()),
        Type::Ref(TypeDeclId::new("a.Foo")),
        Type::Generic(GenericType {
            base: TypeDeclId::new("Box"),
            params: vec![Type::Integer, Type::String],
        }),
        Type::Union(vec![Type::Integer, Type::Nil]),
        Type::MultiLineUnion(vec![
            (Type::DocStringConst("a".to_string()), Some("first".to_string())),
            (Type::DocStringConst("b".to_string()), None),
        ]),
        Type::DocFunction(Box::new(types_sample_function())),
        Type::Signature(SignatureId { file_id: FileId { id: 1 }, position: 10 }),
        Type::TplRef(GenericTpl { tpl_id: GenericTplId::Func(0), name: "T".to_string() }),
        Type::StrTplRef(StringTplType {
            prefix: "p.".to_string(),
            name: "T".to_string(),
            suffix: ".s".to_string(),
            tpl_id: GenericTplId::Type(1),
        }),
    ]
}

#[test]
fn type_eq_holds_of_a_type_and_its_copy_only() {
    let samples = types_samples();
    for (i, a) in samples.iter().enumerate() {
        for (j, b) in samples.iter().enumerate() {
            assert_eq!(type_eq(a, b), i == j, "{:?} against {:?}", a, b);
            assert_eq!(a == b, i == j);
        }
        assert!(type_eq(a, &a.clone()));
    }
}

#[test]
fn type_eq_looks_inside() {
    let a = Type::Union(vec![Type::Integer, Type::Nil]);
    let b = Type::Union(vec![Type::Nil, Type::Integer]);
    let c = Type::Union(vec![Type::Integer]);
    assert!(!type_eq(&a, &b));
    assert!(!type_eq(&a, &c));
    let f = types_sample_function();
    let mut g = types_sample_function();
    assert!(function_eq(&f, &g));
    g.params[1].0 = "c".to_string();
    assert!(!function_eq(&f, &g));
    assert!(!params_eq(&f.params, &g.params));
    let mut h = types_sample_function();
    h.is_async = false;
    assert!(f != h);
    assert!(params_eq(f.get_params(), h.get_params()));
}

#[test]
fn classification_of_types() {
    assert!(Type::Nil.is_nil());
    assert!(!Type::Any.is_nil());
    assert!(Type::String.is_string());
    assert!(Type::StringConst("a".to_string()).is_string());
    assert!(Type::DocStringConst("a".to_string()).is_string());
    assert!(!Type::Integer.is_string());
    assert!(Type::SelfInfer.is_self_infer());
    assert!(Type::Any.is_any());
    assert!(Type::SelfInfer.is_unresolved());
    assert!(!Type::Nil.is_unresolved());
    let u = Type::Union(vec![Type::Integer, Type::Nil]);
    let members = u.union_members().unwrap();
    assert_eq!(members.len(), 2);
    assert!(members[0] == &Type::Integer);
    assert!(Type::Integer.union_members().is_none());
}

#[test]
fn type_decl_id_names() {
    let id = TypeDeclId::new("ns.sub.Foo");
    assert_eq!(id.get_name(), "ns.sub.Foo");
    assert_eq!(id.get_simple_name(), "Foo");
    assert_eq!(TypeDeclId::new("Foo").get_simple_name(), "Foo");
    assert!(id == id.clone());
    assert!(id != TypeDeclId::new("ns.sub.Bar"));
}

#[test]
fn member_key_paths() {
    assert_eq!(MemberKey::Name("x".to_string()).to_path(), "x");
    assert_eq!(MemberKey::Integer(3).to_path(), "[3]");
    assert_eq!(MemberKey::Integer(-12).to_path(), "[-12]");
    assert_eq!(MemberKey::Name("x".to_string()).get_name(), Some("x"));
    assert_eq!(MemberKey::Integer(1).get_name(), None);
}

#[test]
fn source_range_is_well_formed_or_absent() {
    assert_eq!(SourceRange::new(2, 5), Some(SourceRange { start: 2, end: 5 }));
    assert_eq!(SourceRange::new(5, 5), Some(SourceRange { start: 5, end: 5 }));
    assert_eq!(SourceRange::new(6, 5), None);
    assert_eq!(SourceRange { start: 2, end: 5 }.len(), 3);
}

#[test]
fn generic_tpl_id_index() {
    assert_eq!(GenericTplId::Func(2).get_idx(), 2);
    assert_eq!(GenericTplId::Type(0).get_idx(), 0);
    assert!(GenericTplId::Func(2).is_func());
    assert!(!GenericTplId::Type(2).is_func());
}
