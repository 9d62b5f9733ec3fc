use lua_type_engine::db::{Database, DocReturnInfo, Signature};
use lua_type_engine::humanize::{
    format_function, format_param, format_union, humanize_type, quote, RenderLevel,
};
use lua_type_engine::ids::{FileId, GenericTplId, SignatureId, TypeDeclId};
use lua_type_engine::types::{FunctionType, GenericTpl, GenericType, StringTplType, Type};

fn hz_levels() -> [RenderLevel; 4] {
    [RenderLevel::Detailed, RenderLevel::Normal, RenderLevel::Simple, RenderLevel::Minimal]
}

fn hz_sig_id(position: u32) -> SignatureId {
    SignatureId { file_id: FileId { id: 7 }, position }
}

fn hz_db() -> Database {
    let mut db = Database::new();
    assert!(db.signature_index.add_signature(Signature {
        id: hz_sig_id(1),
        params: vec![
            ("a".to_string(), Some(Type::IntegerConst(1))),
            ("b".to_string(), None),
        ],
        return_docs: vec![
            DocReturnInfo { name: None, type_ref: Type::String, description: None },
            DocReturnInfo {
                name: Some("ok".to_string()),
                type_ref: Type::Boolean,
                description: None,
            },
        ],
        is_colon_define: false,
        is_async: true,
        overloads: Vec::new(),
        generic_params: Vec::new(),
    }));
    assert!(db.signature_index.add_signature(Signature {
        id: hz_sig_id(2),
        params: vec![("again".to_string(), Some(Type::Signature(hz_sig_id(2))))],
        return_docs: Vec::new(),
        is_colon_define: false,
        is_async: false,
        overloads: Vec::new(),
        generic_params: Vec::new(),
    }));
    db
}

#[test]
fn humanize_base_types() {
    let db = hz_db();
    for level in hz_levels() {
        assert_eq!(humanize_type(&db, &Type::Any, level), "any");
        assert_eq!(humanize_type(&db, &Type::Nil, level), "nil");
        assert_eq!(humanize_type(&db, &Type::Boolean, level), "boolean");
        assert_eq!(humanize_type(&db, &Type::String, level), "string");
        assert_eq!(humanize_type(&db, &Type::Integer, level), "integer");
        assert_eq!(humanize_type(&db, &Type::Number, level), "number");
        assert_eq!(humanize_type(&db, &Type::Function, level), "function");
        assert_eq!(humanize_type(&db, &Type::SelfInfer, level), "self");
    }
}

#[test]
fn humanize_spells_constants_out_at_detailed_only() {
    let db = hz_db();
    let i = Type::IntegerConst(-42);
    let f = Type::FloatConst("1.5".to_string());
    let s = Type::StringConst("hi".to_string());
    assert_eq!(humanize_type(&db, &i, RenderLevel::Detailed), "-42");
    assert_eq!(humanize_type(&db, &f, RenderLevel::Detailed), "1.5");
    assert_eq!(humanize_type(&db, &s, RenderLevel::Detailed), "\"hi\"");
    for level in [RenderLevel::Normal, RenderLevel::Simple, RenderLevel::Minimal] {
        assert_eq!(humanize_type(&db, &i, level), "integer");
        assert_eq!(humanize_type(&db, &f, level), "number");
        assert_eq!(humanize_type(&db, &s, level), "string");
    }
}

#[test]
fn humanize_spells_doc_constants_out_always() {
    let db = hz_db();
    for level in hz_levels() {
        assert_eq!(humanize_type(&db, &Type::DocIntegerConst(7), level), "7");
        assert_eq!(humanize_type(&db, &Type::DocStringConst("a b".to_string()), level), "\"a b\"");
    }
}

#[test]
fn humanize_names() {
    let db = hz_db();
    let r = Type::Ref(TypeDeclId::new("ns.Foo"));
    let t = Type::TplRef(GenericTpl { tpl_id: GenericTplId::Func(0), name: "T".to_string() });
    let st = Type::StrTplRef(StringTplType {
        prefix: "pre.".to_string(),
        name: "T".to_string(),
        suffix: ".post".to_string(),
        tpl_id: GenericTplId::Func(0),
    });
    for level in hz_levels() {
        assert_eq!(humanize_type(&db, &r, level), "ns.Foo");
        assert_eq!(humanize_type(&db, &t, level), "T");
        assert_eq!(humanize_type(&db, &st, level), "pre.`T`.post");
    }
}

#[test]
fn humanize_generic_application() {
    let db = hz_db();
    let g = Type::Generic(GenericType {
        base: TypeDeclId::new("Map"),
        params: vec![Type::String, Type::IntegerConst(3)],
    });
    assert_eq!(humanize_type(&db, &g, RenderLevel::Detailed), "Map<string, integer>");
    assert_eq!(humanize_type(&db, &g, RenderLevel::Minimal), "Map<string, integer>");
    let empty = Type::Generic(GenericType { base: TypeDeclId::new("Map"), params: Vec::new() });
    assert_eq!(humanize_type(&db, &empty, RenderLevel::Simple), "Map<>");
}

#[test]
fn humanize_union_shows_as_many_members_as_the_level_allows() {
    let db = hz_db();
    let members: Vec<Type> = (1..=9).map(Type::DocIntegerConst).collect();
    let u = Type::Union(members);
    assert_eq!(humanize_type(&db, &u, RenderLevel::Detailed), "(1|2|3|4|5|6|7|8...)");
    assert_eq!(humanize_type(&db, &u, RenderLevel::Normal), "(1|2|3|4...)");
    assert_eq!(humanize_type(&db, &u, RenderLevel::Simple), "(1|2|3|4...)");
    assert_eq!(humanize_type(&db, &u, RenderLevel::Minimal), "(1|2...)");
    let two = Type::Union(vec![Type::Integer, Type::Nil]);
    for level in hz_levels() {
        assert_eq!(humanize_type(&db, &two, level), "(integer|nil)");
    }
    let one = Type::Union(vec![Type::Integer]);
    assert_eq!(humanize_type(&db, &one, RenderLevel::Simple), "integer");
    assert_eq!(humanize_type(&db, &Type::Union(Vec::new()), RenderLevel::Simple), "");
    let eight: Vec<Type> = (1..=8).map(Type::DocIntegerConst).collect();
    assert_eq!(
        humanize_type(&db, &Type::Union(eight), RenderLevel::Detailed),
        "(1|2|3|4|5|6|7|8)"
    );
}

#[test]
fn humanize_union_members_one_level_lower() {
    let db = hz_db();
    let u = Type::Union(vec![Type::IntegerConst(5), Type::StringConst("s".to_string())]);
    assert_eq!(humanize_type(&db, &u, RenderLevel::Detailed), "(integer|string)");
    let nested = Type::Union(vec![Type::Union(vec![
        Type::DocIntegerConst(1),
        Type::DocIntegerConst(2),
        Type::DocIntegerConst(3),
    ])]);
    assert_eq!(humanize_type(&db, &nested, RenderLevel::Simple), "(1|2...)");
}

#[test]
fn humanize_multi_line_union_like_a_union() {
    let db = hz_db();
    let u = Type::MultiLineUnion(vec![
        (Type::DocStringConst("r".to_string()), Some("read".to_string())),
        (Type::DocStringConst("w".to_string()), None),
        (Type::DocStringConst("a".to_string()), None),
    ]);
    assert_eq!(humanize_type(&db, &u, RenderLevel::Simple), "(\"r\"|\"w\"|\"a\")");
    assert_eq!(humanize_type(&db, &u, RenderLevel::Minimal), "(\"r\"|\"w\"...)");
}

#[test]
fn humanize_doc_function() {
    let db = hz_db();
    let f = Type::DocFunction(Box::new(FunctionType {
        is_async: false,
        is_colon_define: false,
        params: vec![
            ("x".to_string(), Some(Type::IntegerConst(1))),
            ("y".to_string(), None),
        ],
        ret: Type::StringConst("r".to_string()),
    }));
    assert_eq!(humanize_type(&db, &f, RenderLevel::Detailed), "fun(x: integer, y) -> string");
    let g = Type::DocFunction(Box::new(FunctionType {
        is_async: true,
        is_colon_define: true,
        params: Vec::new(),
        ret: Type::Nil,
    }));
    assert_eq!(humanize_type(&db, &g, RenderLevel::Simple), "async fun()");
}

#[test]
fn humanize_signature_from_the_database() {
    let db = hz_db();
    let s = Type::Signature(hz_sig_id(1));
    assert_eq!(
        humanize_type(&db, &s, RenderLevel::Detailed),
        "async fun(a: integer, b) -> string, boolean"
    );
    assert_eq!(humanize_type(&db, &s, RenderLevel::Minimal), "fun");
    let unknown = Type::Signature(hz_sig_id(99));
    assert_eq!(humanize_type(&db, &unknown, RenderLevel::Detailed), "fun");
}

#[test]
fn humanize_signature_that_mentions_itself_is_cut_off() {
    let db = hz_db();
    let s = Type::Signature(hz_sig_id(2));
    assert_eq!(
        humanize_type(&db, &s, RenderLevel::Detailed),
        "fun(again: fun(again: fun(again: fun)))"
    );
    assert_eq!(humanize_type(&db, &s, RenderLevel::Normal), "fun(again: fun(again: fun))");
    assert_eq!(humanize_type(&db, &s, RenderLevel::Simple), "fun(again: fun)");
}

#[test]
fn humanize_twice_gives_the_same_text() {
    let db = hz_db();
    let samples = vec![
        Type::Signature(hz_sig_id(1)),
        Type::Union(vec![Type::IntegerConst(1), Type::Ref(TypeDeclId::new("X"))]),
        Type::FloatConst("2.25".to_string()),
    ];
    for t in &samples {
        for level in hz_levels() {
            let first = humanize_type(&db, t, level);
            let second = humanize_type(&db, &t.clone(), level);
            assert_eq!(first.as_bytes(), second.as_bytes());
        }
    }
}

#[test]
fn render_level_steps_down() {
    assert_eq!(RenderLevel::Detailed.next_level(), RenderLevel::Normal);
    assert_eq!(RenderLevel::Normal.next_level(), RenderLevel::Simple);
    assert_eq!(RenderLevel::Simple.next_level(), RenderLevel::Minimal);
    assert_eq!(RenderLevel::Minimal.next_level(), RenderLevel::Minimal);
    assert_eq!(RenderLevel::Detailed.get_union_limit(), 8);
    assert_eq!(RenderLevel::Normal.get_union_limit(), 4);
    assert_eq!(RenderLevel::Simple.get_union_limit(), 4);
    assert_eq!(RenderLevel::Minimal.get_union_limit(), 2);
}

#[test]
fn format_helpers() {
    assert_eq!(quote("a"), "\"a\"");
    assert_eq!(format_param("x", Some("integer".to_string())), "x: integer");
    assert_eq!(format_param("x", None), "x");
    assert_eq!(format_union(&vec!["a".to_string(), "b".to_string()], false), "(a|b)");
    assert_eq!(format_union(&vec!["a".to_string()], false), "a");
    assert_eq!(format_union(&vec!["a".to_string()], true), "(a...)");
    assert_eq!(
        format_function(true, &vec!["a".to_string(), "b".to_string()], Some("r".to_string())),
        "async fun(a, b) -> r"
    );
    assert_eq!(format_function(false, &Vec::new(), None), "fun()");
}
