use federation_reviews::descriptor::{
    ConfigurationError, FieldDeclaration, Origin, Ownership, TypeDescriptor,
};
use federation_reviews::registry::{resolve_entity, KeyField, KeyValue, ResolveError};
use federation_reviews::schema::Schema;
use federation_reviews::subgraph::{
    product_descriptor, review_descriptor, subgraph_schema, user_descriptor,
};

fn field(name: &str, ownership: Ownership) -> FieldDeclaration {
    FieldDeclaration { name: name.to_string(), ownership }
}

fn provided(source: &str) -> Ownership {
    Ownership::Provided { source_type: source.to_string() }
}

fn extended(name: &str, key: &str, fields: Vec<FieldDeclaration>) -> TypeDescriptor {
    TypeDescriptor {
        name: name.to_string(),
        origin: Origin::Extended { key: key.to_string() },
        fields,
    }
}

fn owned(name: &str, fields: Vec<FieldDeclaration>) -> TypeDescriptor {
    TypeDescriptor { name: name.to_string(), origin: Origin::Owned, fields }
}

#[test]
fn user_descriptor_declares_key_external_and_reviews_owned() {
    let expected = extended(
        "User",
        "id",
        vec![field("id", Ownership::External), field("reviews", Ownership::Owned)],
    );
    assert_eq!(user_descriptor(), expected);
}

#[test]
fn product_descriptor_declares_key_external_and_reviews_owned() {
    let expected = extended(
        "Product",
        "upc",
        vec![field("upc", Ownership::External), field("reviews", Ownership::Owned)],
    );
    assert_eq!(product_descriptor(), expected);
}

#[test]
fn review_descriptor_is_owned_with_a_username_hint() {
    let expected = owned(
        "Review",
        vec![
            field("body", Ownership::Owned),
            field("author", Ownership::Owned),
            field("product", Ownership::Owned),
            field("username", provided("User")),
        ],
    );
    assert_eq!(review_descriptor(), expected);
}

#[test]
fn built_in_descriptors_are_valid() {
    assert_eq!(user_descriptor().validate(), Ok(()));
    assert_eq!(product_descriptor().validate(), Ok(()));
    assert_eq!(review_descriptor().validate(), Ok(()));
}

#[test]
fn subgraph_schema_builds() {
    let schema = subgraph_schema().unwrap();
    let names: Vec<&str> = schema.types().iter().map(|d| d.name.as_str()).collect();
    assert_eq!(names, vec!["User", "Product", "Review"]);
}

#[test]
fn owned_and_external_fields_are_answered_locally() {
    let schema = subgraph_schema().unwrap();
    assert!(schema.answers_locally("User", "id"));
    assert!(schema.answers_locally("User", "reviews"));
    assert!(schema.answers_locally("Product", "upc"));
    assert!(schema.answers_locally("Product", "reviews"));
    assert!(schema.answers_locally("Review", "body"));
    assert!(schema.answers_locally("Review", "author"));
    assert!(schema.answers_locally("Review", "product"));
}

#[test]
fn provided_and_undeclared_fields_are_not_answered_locally() {
    let schema = subgraph_schema().unwrap();
    assert!(!schema.answers_locally("Review", "username"));
    assert!(!schema.answers_locally("User", "username"));
    assert!(!schema.answers_locally("User", "upc"));
    assert!(!schema.answers_locally("Product", "id"));
    assert!(!schema.answers_locally("Order", "id"));
    assert!(!schema.answers_locally("user", "id"));
}

#[test]
fn key_is_known_for_extended_types_only() {
    let schema = subgraph_schema().unwrap();
    assert_eq!(schema.key_of("User"), Some(&"id".to_string()));
    assert_eq!(schema.key_of("Product"), Some(&"upc".to_string()));
    assert_eq!(schema.key_of("Review"), None);
    assert_eq!(schema.key_of("Order"), None);
}

#[test]
fn descriptor_is_found_by_exact_name() {
    let schema = subgraph_schema().unwrap();
    assert_eq!(schema.descriptor("Review"), Some(&review_descriptor()));
    assert_eq!(schema.descriptor("review"), None);
}

#[test]
fn declaration_is_found_by_exact_name() {
    let user = user_descriptor();
    assert_eq!(user.declaration("id"), Some(&field("id", Ownership::External)));
    assert_eq!(user.declaration("reviews"), Some(&field("reviews", Ownership::Owned)));
    assert_eq!(user.declaration("Id"), None);
    assert_eq!(review_descriptor().declaration("username"), Some(&field("username", provided("User"))));
}

#[test]
fn repeated_field_is_refused() {
    let duplicate = extended(
        "User",
        "id",
        vec![
            field("id", Ownership::External),
            field("reviews", Ownership::Owned),
            field("reviews", Ownership::Owned),
        ],
    );
    assert_eq!(duplicate.validate(), Err(ConfigurationError::RepeatedField));
    let conflicting = extended(
        "User",
        "id",
        vec![
            field("id", Ownership::External),
            field("reviews", Ownership::Owned),
            field("id", Ownership::Owned),
        ],
    );
    assert_eq!(conflicting.validate(), Err(ConfigurationError::RepeatedField));
}

#[test]
fn extended_type_without_external_key_is_refused() {
    let undeclared = extended("User", "id", vec![field("reviews", Ownership::Owned)]);
    assert_eq!(undeclared.validate(), Err(ConfigurationError::MissingKey));
    let owned_key = extended(
        "User",
        "id",
        vec![field("id", Ownership::Owned), field("reviews", Ownership::Owned)],
    );
    assert_eq!(owned_key.validate(), Err(ConfigurationError::MissingKey));
    let provided_key = extended("User", "id", vec![field("id", provided("User"))]);
    assert_eq!(provided_key.validate(), Err(ConfigurationError::MissingKey));
    let no_fields = extended("User", "id", vec![]);
    assert_eq!(no_fields.validate(), Err(ConfigurationError::MissingKey));
}

#[test]
fn external_field_on_owned_type_is_refused() {
    let misplaced = owned(
        "Review",
        vec![field("body", Ownership::Owned), field("author", Ownership::External)],
    );
    assert_eq!(misplaced.validate(), Err(ConfigurationError::MisplacedExternal));
}

#[test]
fn repeated_field_is_reported_before_a_missing_key() {
    let both = extended(
        "User",
        "id",
        vec![field("reviews", Ownership::Owned), field("reviews", Ownership::Owned)],
    );
    assert_eq!(both.validate(), Err(ConfigurationError::RepeatedField));
}

#[test]
fn owned_type_without_fields_is_valid() {
    assert_eq!(owned("Empty", vec![]).validate(), Ok(()));
}

#[test]
fn schema_refuses_a_faulty_descriptor() {
    let faulty = extended("User", "id", vec![field("reviews", Ownership::Owned)]);
    let built = Schema::build(vec![review_descriptor(), faulty, product_descriptor()]);
    assert_eq!(built.err(), Some(ConfigurationError::MissingKey));
}

#[test]
fn schema_reports_the_first_faulty_descriptor() {
    let first = owned("A", vec![field("x", Ownership::External)]);
    let second = extended("B", "k", vec![]);
    let built = Schema::build(vec![first, second]);
    assert_eq!(built.err(), Some(ConfigurationError::MisplacedExternal));
}

#[test]
fn schema_refuses_a_repeated_type() {
    let built = Schema::build(vec![user_descriptor(), product_descriptor(), user_descriptor()]);
    assert_eq!(built.err(), Some(ConfigurationError::RepeatedType));
}

#[test]
fn schema_refuses_an_unknown_source_type() {
    let built = Schema::build(vec![review_descriptor(), product_descriptor()]);
    assert_eq!(built.err(), Some(ConfigurationError::UnknownSourceType));
}

#[test]
fn repeated_type_is_reported_before_an_unknown_source() {
    let built = Schema::build(vec![review_descriptor(), review_descriptor()]);
    assert_eq!(built.err(), Some(ConfigurationError::RepeatedType));
}

#[test]
fn empty_schema_is_valid_and_answers_nothing() {
    let schema = Schema::build(Vec::new()).unwrap();
    assert!(schema.types().is_empty());
    assert!(!schema.answers_locally("User", "id"));
    assert_eq!(schema.descriptor("User"), None);
}

#[test]
fn built_schema_keeps_the_table() {
    let table = vec![user_descriptor(), product_descriptor(), review_descriptor()];
    let schema = Schema::build(table.clone()).unwrap();
    assert_eq!(schema.types(), &table);
}

#[test]
fn registry_and_table_agree_on_keys() {
    let schema = subgraph_schema().unwrap();
    for name in ["User", "Product", "Review", "Order"] {
        let outcome = match schema.key_of(name) {
            Some(key) => {
                let fields = vec![KeyField {
                    name: key.clone(),
                    value: KeyValue::Text("k".to_string()),
                }];
                resolve_entity(name, &fields)
            }
            None => resolve_entity(name, &vec![]),
        };
        assert_eq!(outcome.is_ok(), schema.key_of(name).is_some());
        if schema.key_of(name).is_none() {
            assert_eq!(outcome, Err(ResolveError::UnknownEntityType));
        }
    }
}
