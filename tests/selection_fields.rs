use graphql_query_derive::{
    convert_field_name, field_impls_for_selection, field_rename_annotation,
    response_fields_for_selection, type_path, FieldDefinition, GenError, Modifier, QueryContext, Schema,
    SchemaType, Selection, SelectionField, SelectionFragmentSpread, SelectionInlineFragment,
    SelectionItem, TypeKind, TypeRef,
};

fn named(base: &str) -> TypeRef {
    TypeRef { base: base.to_string(), modifiers: vec![] }
}

fn field_def(name: &str, ty: TypeRef, description: Option<&str>) -> FieldDefinition {
    FieldDefinition { name: name.to_string(), type_ref: ty, description: description.map(|d| d.to_string()) }
}

fn select(name: &str, nested: Vec<SelectionItem>) -> SelectionItem {
    SelectionItem::Field(SelectionField { name: name.to_string(), fields: Selection(nested) })
}

fn spread(name: &str) -> SelectionItem {
    SelectionItem::FragmentSpread(SelectionFragmentSpread { fragment_name: name.to_string() })
}

fn inline(on: &str) -> SelectionItem {
    SelectionItem::InlineFragment(SelectionInlineFragment { on: on.to_string(), fields: Selection(vec![]) })
}

fn schema() -> Schema {
    Schema {
        types: vec![
            SchemaType { name: "Int".to_string(), kind: TypeKind::Scalar, fields: vec![] },
            SchemaType { name: "String".to_string(), kind: TypeKind::Scalar, fields: vec![] },
            SchemaType { name: "Color".to_string(), kind: TypeKind::Enum, fields: vec![] },
            SchemaType {
                name: "Profile".to_string(),
                kind: TypeKind::Object,
                fields: vec![
                    field_def("name", named("String"), None),
                    field_def("favoriteColor", named("Color"), None),
                ],
            },
            SchemaType {
                name: "Node".to_string(),
                kind: TypeKind::Interface,
                fields: vec![field_def("id", named("Int"), None)],
            },
            SchemaType { name: "Query".to_string(), kind: TypeKind::Object, fields: query_fields() },
        ],
    }
}

fn query_fields() -> Vec<FieldDefinition> {
    vec![
        field_def("id", named("Int"), Some("The identifier.")),
        field_def("profile", named("Profile"), None),
        field_def("type", named("String"), None),
        field_def("firstName", named("String"), None),
        field_def(
            "friends",
            TypeRef { base: "Profile".to_string(), modifiers: vec![Modifier::Nullable, Modifier::List] },
            None,
        ),
        field_def("node", named("Node"), None),
    ]
}

#[test]
fn field_names_convert_to_snake_case() {
    let c = convert_field_name("firstName");
    assert_eq!(c.ident, "first_name");
    assert_eq!(c.rename, Some("firstName".to_string()));
    let c = convert_field_name("id");
    assert_eq!(c.ident, "id");
    assert_eq!(c.rename, None);
}

#[test]
fn rename_annotation_only_on_difference() {
    assert_eq!(field_rename_annotation("firstName", "first_name"), Some("firstName".to_string()));
    assert_eq!(field_rename_annotation("name", "name"), None);
}

#[test]
fn type_path_concatenates_camel_cased_parts() {
    assert_eq!(type_path("query", "profile"), "QueryProfile");
    assert_eq!(type_path("Query", "favoriteColor"), "QueryFavoriteColor");
    assert_eq!(type_path("QueryProfile", "bestFriend"), "QueryProfileBestFriend");
}

#[test]
fn reserved_word_is_escaped_and_renamed() {
    let c = convert_field_name("type");
    assert_eq!(c.ident, "type_");
    assert_eq!(c.rename, Some("type".to_string()));
}

#[test]
fn renders_one_descriptor_per_item_in_order() {
    let s = schema();
    let sel = Selection(vec![select("firstName", vec![]), spread("userInfo"), select("id", vec![])]);
    let out = response_fields_for_selection(&s, &query_fields(), &sel, "Query").unwrap();
    assert_eq!(out.len(), 3);
    assert_eq!(out[0].ident, "first_name");
    assert_eq!(out[1].ident, "user_info");
    assert_eq!(out[2].ident, "id");
}

#[test]
fn empty_selection_renders_nothing() {
    let s = schema();
    let out = response_fields_for_selection(&s, &query_fields(), &Selection(vec![]), "Query").unwrap();
    assert!(out.is_empty());
}

#[test]
fn type_field_renders_escaped() {
    let s = schema();
    let sel = Selection(vec![select("type", vec![])]);
    let out = response_fields_for_selection(&s, &query_fields(), &sel, "Query").unwrap();
    assert_eq!(out[0].ident, "type_");
    assert_eq!(out[0].rename, Some("type".to_string()));
    assert_eq!(out[0].ty.base, "String");
    assert!(!out[0].flatten);
}

#[test]
fn rename_only_when_identifier_differs() {
    let s = schema();
    let sel = Selection(vec![select("id", vec![]), select("firstName", vec![])]);
    let out = response_fields_for_selection(&s, &query_fields(), &sel, "Query").unwrap();
    assert_eq!(out[0].rename, None);
    assert_eq!(out[1].ident, "first_name");
    assert_eq!(out[1].rename, Some("firstName".to_string()));
}

#[test]
fn description_becomes_doc() {
    let s = schema();
    let sel = Selection(vec![select("id", vec![]), select("firstName", vec![])]);
    let out = response_fields_for_selection(&s, &query_fields(), &sel, "Query").unwrap();
    assert_eq!(out[0].doc, Some("The identifier.".to_string()));
    assert_eq!(out[1].doc, None);
}

#[test]
fn missing_field_is_reported_by_name() {
    let s = schema();
    let sel = Selection(vec![select("id", vec![]), select("nickname", vec![])]);
    match response_fields_for_selection(&s, &query_fields(), &sel, "Query") {
        Err(GenError::FieldNotFound(name)) => assert_eq!(name, "nickname"),
        other => panic!("unexpected result: {:?}", other),
    }
}

#[test]
fn inline_fragment_is_rejected() {
    let s = schema();
    let sel = Selection(vec![select("id", vec![]), inline("Profile")]);
    assert!(matches!(
        response_fields_for_selection(&s, &query_fields(), &sel, "Query"),
        Err(GenError::UnsupportedInlineFragment)
    ));
}

#[test]
fn first_error_wins() {
    let s = schema();
    let sel = Selection(vec![select("nickname", vec![]), inline("Profile")]);
    match response_fields_for_selection(&s, &query_fields(), &sel, "Query") {
        Err(GenError::FieldNotFound(name)) => assert_eq!(name, "nickname"),
        other => panic!("unexpected result: {:?}", other),
    }
}

#[test]
fn fragment_spread_flattens_without_lookup() {
    let s = schema();
    let sel = Selection(vec![spread("userInfo")]);
    let out = response_fields_for_selection(&s, &vec![], &sel, "Query").unwrap();
    assert_eq!(out[0].ident, "user_info");
    assert_eq!(out[0].ty.base, "userInfo");
    assert!(out[0].ty.modifiers.is_empty());
    assert!(out[0].flatten);
    assert_eq!(out[0].rename, None);
}

#[test]
fn nested_object_expands_once_with_prefix() {
    let s = schema();
    let sel = Selection(vec![select("id", vec![]), select("profile", vec![select("name", vec![])])]);
    let mut ctx = QueryContext::new();
    field_impls_for_selection(&mut ctx, &s, &query_fields(), &sel, "Query").unwrap();
    let generated = ctx.generated();
    assert_eq!(generated.len(), 1);
    assert_eq!(generated[0].name, "QueryProfile");
    assert_eq!(generated[0].fields.len(), 1);
    assert_eq!(generated[0].fields[0].ident, "name");
    assert_eq!(generated[0].fields[0].ty.base, "String");

    let out = response_fields_for_selection(&s, &query_fields(), &sel, "Query").unwrap();
    assert_eq!(out.len(), 2);
    assert_eq!(out[0].ident, "id");
    assert_eq!(out[0].ty.base, "Int");
    assert_eq!(out[1].ident, "profile");
    assert_eq!(out[1].ty.base, "QueryProfile");
}

#[test]
fn repeated_expansion_registers_once() {
    let s = schema();
    let nested = Selection(vec![select("name", vec![])]);
    let mut ctx = QueryContext::new();
    ctx.maybe_expand_field(&s, "Profile", &nested, "QueryProfile").unwrap();
    ctx.maybe_expand_field(&s, "Profile", &nested, "QueryProfile").unwrap();
    assert_eq!(ctx.generated().len(), 1);
    assert!(ctx.is_registered("QueryProfile"));
}

#[test]
fn leaf_type_expansion_registers_nothing() {
    let s = schema();
    let mut ctx = QueryContext::new();
    ctx.maybe_expand_field(&s, "Color", &Selection(vec![]), "QueryColor").unwrap();
    ctx.maybe_expand_field(&s, "Unknown", &Selection(vec![]), "QueryUnknown").unwrap();
    assert!(ctx.generated().is_empty());
}

#[test]
fn same_type_under_two_fields_gets_two_names() {
    let s = schema();
    let sel = Selection(vec![
        select("profile", vec![select("name", vec![])]),
        select("friends", vec![select("favoriteColor", vec![])]),
    ]);
    let mut ctx = QueryContext::new();
    field_impls_for_selection(&mut ctx, &s, &query_fields(), &sel, "Query").unwrap();
    let names: Vec<&str> = ctx.generated().iter().map(|g| g.name.as_str()).collect();
    assert_eq!(names, vec!["QueryProfile", "QueryFriends"]);

    let out = response_fields_for_selection(&s, &query_fields(), &sel, "Query").unwrap();
    assert_eq!(out[1].ty.base, "QueryFriends");
    assert_eq!(out[1].ty.modifiers, vec![Modifier::Nullable, Modifier::List]);
}

#[test]
fn interface_field_expands() {
    let s = schema();
    let sel = Selection(vec![select("node", vec![select("id", vec![])])]);
    let mut ctx = QueryContext::new();
    field_impls_for_selection(&mut ctx, &s, &query_fields(), &sel, "Query").unwrap();
    assert_eq!(ctx.generated()[0].name, "QueryNode");
}

#[test]
fn nested_missing_field_fails_expansion() {
    let s = schema();
    let sel = Selection(vec![select("profile", vec![select("age", vec![])])]);
    let mut ctx = QueryContext::new();
    match field_impls_for_selection(&mut ctx, &s, &query_fields(), &sel, "Query") {
        Err(GenError::FieldNotFound(name)) => assert_eq!(name, "age"),
        other => panic!("unexpected result: {:?}", other),
    }
}

#[test]
fn nested_inline_fragment_fails_expansion() {
    let s = schema();
    let sel = Selection(vec![select("profile", vec![inline("Profile")])]);
    let mut ctx = QueryContext::new();
    assert!(matches!(
        field_impls_for_selection(&mut ctx, &s, &query_fields(), &sel, "Query"),
        Err(GenError::UnsupportedInlineFragment)
    ));
}

#[test]
fn top_level_spreads_and_inline_fragments_expand_nothing() {
    let s = schema();
    let sel = Selection(vec![spread("userInfo"), inline("Profile")]);
    let mut ctx = QueryContext::new();
    field_impls_for_selection(&mut ctx, &s, &query_fields(), &sel, "Query").unwrap();
    assert!(ctx.generated().is_empty());
}
