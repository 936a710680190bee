use cornucopia::pg_type::{CornucopiaField, CornucopiaType, CornucopiaTypeKind, TypeRegistrar};

fn base(schema: &str, name: &str, rust: &str) -> CornucopiaType {
    CornucopiaType {
        schema: String::from(schema),
        name: String::from(name),
        kind: CornucopiaTypeKind::Base,
        rust_ty_usage_path: String::from(rust),
        rust_ty_definition_path: String::from(rust),
        rust_ty_name: String::from(rust),
    }
}

fn enumeration(schema: &str, name: &str, rust: &str, variants: &[&str]) -> CornucopiaType {
    CornucopiaType {
        schema: String::from(schema),
        name: String::from(name),
        kind: CornucopiaTypeKind::Enum(variants.iter().map(|v| String::from(*v)).collect()),
        rust_ty_usage_path: format!("super::super::types::{}::{}", schema, rust),
        rust_ty_definition_path: format!("super::{}::{}", schema, rust),
        rust_ty_name: String::from(rust),
    }
}

#[test]
fn borrowed_type_is_a_reference_to_the_usage_path() {
    assert_eq!(base("pg_catalog", "int4", "i32").borrowed_rust_ty(), "&i32");
    assert_eq!(
        enumeration("public", "mood", "Mood", &["Happy"]).borrowed_rust_ty(),
        "&super::super::types::public::Mood"
    );
}

#[test]
fn owned_type_is_the_usage_path() {
    assert_eq!(base("pg_catalog", "text", "String").owned_rust_ty(false), "String");
}

#[test]
fn owned_type_of_nullable_is_an_option() {
    assert_eq!(base("pg_catalog", "text", "String").owned_rust_ty(true), "Option<String>");
    assert_eq!(
        enumeration("public", "mood", "Mood", &["Happy"]).owned_rust_ty(true),
        "Option<super::super::types::public::Mood>"
    );
}

#[test]
fn new_registrar_is_empty() {
    let registrar = TypeRegistrar::new();
    assert_eq!(registrar.types().len(), 0);
    assert!(registrar.get("public", "mood").is_none());
}

#[test]
fn register_appends_fresh_types_in_order() {
    let mut registrar = TypeRegistrar::new();
    assert!(registrar.register(enumeration("public", "mood", "Mood", &["Happy"])));
    assert!(registrar.register(enumeration("public", "size", "Size", &["Small"])));
    assert!(registrar.register(enumeration("other", "mood", "Mood", &["Sad"])));
    let names: Vec<(String, String)> =
        registrar.types().iter().map(|t| (t.schema.clone(), t.name.clone())).collect();
    assert_eq!(
        names,
        vec![
            (String::from("public"), String::from("mood")),
            (String::from("public"), String::from("size")),
            (String::from("other"), String::from("mood")),
        ]
    );
}

#[test]
fn register_replaces_a_type_with_the_same_identity_in_place() {
    let mut registrar = TypeRegistrar::new();
    assert!(registrar.register(enumeration("public", "mood", "Mood", &["Happy"])));
    assert!(registrar.register(enumeration("public", "size", "Size", &["Small"])));
    assert!(!registrar.register(enumeration("public", "mood", "Humour", &["Dry"])));
    assert_eq!(registrar.types().len(), 2);
    assert_eq!(registrar.types()[0].rust_ty_name, "Humour");
    assert_eq!(registrar.types()[1].rust_ty_name, "Size");
}

#[test]
fn get_finds_by_schema_and_name() {
    let mut registrar = TypeRegistrar::new();
    registrar.register(enumeration("public", "mood", "Mood", &["Happy"]));
    registrar.register(enumeration("other", "mood", "OtherMood", &["Sad"]));
    assert_eq!(registrar.get("other", "mood").map(|t| t.rust_ty_name.clone()), Some(String::from("OtherMood")));
    assert_eq!(registrar.get("public", "mood").map(|t| t.rust_ty_name.clone()), Some(String::from("Mood")));
    assert!(registrar.get("public", "size").is_none());
    assert!(registrar.get("mood", "public").is_none());
}

#[test]
fn clone_of_a_type_keeps_every_part() {
    let inner = base("pg_catalog", "text", "String");
    let composite = CornucopiaType {
        schema: String::from("public"),
        name: String::from("address"),
        kind: CornucopiaTypeKind::Composite(vec![
            CornucopiaField { name: String::from("street"), ty: inner.clone() },
            CornucopiaField {
                name: String::from("moods"),
                ty: CornucopiaType {
                    schema: String::from("public"),
                    name: String::from("_mood"),
                    kind: CornucopiaTypeKind::Array(Box::new(enumeration(
                        "public",
                        "mood",
                        "Mood",
                        &["Happy", "Sad"],
                    ))),
                    rust_ty_usage_path: String::from("Vec<super::super::types::public::Mood>"),
                    rust_ty_definition_path: String::from("Vec<super::public::Mood>"),
                    rust_ty_name: String::from("Vec<Mood>"),
                },
            },
        ]),
        rust_ty_usage_path: String::from("super::super::types::public::Address"),
        rust_ty_definition_path: String::from("super::public::Address"),
        rust_ty_name: String::from("Address"),
    };
    let copy = composite.clone();
    assert_eq!(format!("{:?}", copy), format!("{:?}", composite));
    let kind_copy = composite.kind.clone();
    assert_eq!(format!("{:?}", kind_copy), format!("{:?}", composite.kind));
}

#[test]
fn clone_of_a_registrar_keeps_the_types_in_order() {
    let mut registrar = TypeRegistrar::new();
    registrar.register(enumeration("public", "mood", "Mood", &["Happy"]));
    registrar.register(enumeration("other", "size", "Size", &["Small", "Big"]));
    let copy = registrar.clone();
    assert_eq!(format!("{:?}", copy), format!("{:?}", registrar));
    assert_eq!(copy.types().len(), 2);
}
