//! The declarations of the reviews subgraph itself: `User` and `Product`
//! extended by a `reviews` field, and `Review` owned outright.

use vstd::prelude::*;
use crate::descriptor::{
    ConfigurationError, DescriptorView, FieldDeclaration, FieldView, Origin, Ownership,
    OwnershipView, TypeDescriptor,
};
use crate::names::lemma_first_position;
use crate::schema::{
    descriptor_of, first_descriptor_fault, table_fault, table_view, type_names,
    unknown_source_at, Schema,
};

verus! {

/// `User` is extended: its key `id` is external, and `reviews` is answered
/// here.
pub open spec fn user_declarations() -> DescriptorView {
    DescriptorView {
        name: "User"@,
        key: Some("id"@),
        fields: seq![
            FieldView { name: "id"@, ownership: OwnershipView::External },
            FieldView { name: "reviews"@, ownership: OwnershipView::Owned },
        ],
    }
}

/// `Product` is extended: its key `upc` is external, and `reviews` is
/// answered here.
pub open spec fn product_declarations() -> DescriptorView {
    DescriptorView {
        name: "Product"@,
        key: Some("upc"@),
        fields: seq![
            FieldView { name: "upc"@, ownership: OwnershipView::External },
            FieldView { name: "reviews"@, ownership: OwnershipView::Owned },
        ],
    }
}

/// `Review` is owned outright. The `username` of its author belongs to the
/// subgraph of `User`; it is declared as a hint and no value is held for it.
pub open spec fn review_declarations() -> DescriptorView {
    DescriptorView {
        name: "Review"@,
        key: None,
        fields: seq![
            FieldView { name: "body"@, ownership: OwnershipView::Owned },
            FieldView { name: "author"@, ownership: OwnershipView::Owned },
            FieldView { name: "product"@, ownership: OwnershipView::Owned },
            FieldView {
                name: "username"@,
                ownership: OwnershipView::Provided { source_type: "User"@ },
            },
        ],
    }
}

/// The table of the subgraph.
pub open spec fn subgraph_table() -> Seq<DescriptorView> {
    seq![user_declarations(), product_declarations(), review_declarations()]
}

/// The lengths of the names that the table uses. Names that stand together
/// in one list differ in length, so they differ.
proof fn lemma_name_lengths()
    ensures
        "User"@.len() == 4,
        "Product"@.len() == 7,
        "Review"@.len() == 6,
        "id"@.len() == 2,
        "upc"@.len() == 3,
        "reviews"@.len() == 7,
        "body"@.len() == 4,
        "author"@.len() == 6,
        "product"@.len() == 7,
        "username"@.len() == 8,
{
    reveal_strlit("User");
    reveal_strlit("Product");
    reveal_strlit("Review");
    reveal_strlit("id");
    reveal_strlit("upc");
    reveal_strlit("reviews");
    reveal_strlit("body");
    reveal_strlit("author");
    reveal_strlit("product");
    reveal_strlit("username");
}

/// On `User` this subgraph owns `reviews` and nothing else, holds `id` as
/// key material, and gives no hint.
pub proof fn lemma_user_ownership()
    ensures
        user_declarations().well_formed(),
        user_declarations().owned_fields() == set!["reviews"@],
        user_declarations().external_fields() == set!["id"@],
        user_declarations().provided_hints() == Map::<Seq<char>, Seq<char>>::empty(),
{
    lemma_name_lengths();
    let declared = user_declarations();
    assert forall|field: Seq<char>|
        declared.ownership_of(field) == (if field == "id"@ {
            Some(OwnershipView::External)
        } else if field == "reviews"@ {
            Some(OwnershipView::Owned)
        } else {
            None
        }) by {
        let names = declared.field_names();
        assert(names.len() == 2);
        assert(names[0] == "id"@);
        assert(names[1] == "reviews"@);
        lemma_first_position(names, field);
    }
    assert(declared.owned_fields() =~= set!["reviews"@]);
    assert(declared.external_fields() =~= set!["id"@]);
    assert(declared.provided_hints() =~= Map::<Seq<char>, Seq<char>>::empty());
}

/// On `Product` this subgraph owns `reviews` and nothing else, holds `upc`
/// as key material, and gives no hint.
pub proof fn lemma_product_ownership()
    ensures
        product_declarations().well_formed(),
        product_declarations().owned_fields() == set!["reviews"@],
        product_declarations().external_fields() == set!["upc"@],
        product_declarations().provided_hints() == Map::<Seq<char>, Seq<char>>::empty(),
{
    lemma_name_lengths();
    let declared = product_declarations();
    assert forall|field: Seq<char>|
        declared.ownership_of(field) == (if field == "upc"@ {
            Some(OwnershipView::External)
        } else if field == "reviews"@ {
            Some(OwnershipView::Owned)
        } else {
            None
        }) by {
        let names = declared.field_names();
        assert(names.len() == 2);
        assert(names[0] == "upc"@);
        assert(names[1] == "reviews"@);
        lemma_first_position(names, field);
    }
    assert(declared.owned_fields() =~= set!["reviews"@]);
    assert(declared.external_fields() =~= set!["upc"@]);
    assert(declared.provided_hints() =~= Map::<Seq<char>, Seq<char>>::empty());
}

/// `Review` is owned with its three fields, has no external field, and
/// hints at the `username` of `User`.
pub proof fn lemma_review_ownership()
    ensures
        review_declarations().well_formed(),
        review_declarations().owned_fields() == set!["body"@, "author"@, "product"@],
        review_declarations().external_fields() == Set::<Seq<char>>::empty(),
        review_declarations().provided_hints() == map!["username"@ => "User"@],
{
    lemma_name_lengths();
    let declared = review_declarations();
    assert forall|field: Seq<char>|
        declared.ownership_of(field) == (if field == "body"@ {
            Some(OwnershipView::Owned)
        } else if field == "author"@ {
            Some(OwnershipView::Owned)
        } else if field == "product"@ {
            Some(OwnershipView::Owned)
        } else if field == "username"@ {
            Some(OwnershipView::Provided { source_type: "User"@ })
        } else {
            None
        }) by {
        let names = declared.field_names();
        assert(names.len() == 4);
        assert(names[0] == "body"@);
        assert(names[1] == "author"@);
        assert(names[2] == "product"@);
        assert(names[3] == "username"@);
        lemma_first_position(names, field);
    }
    assert(declared.owned_fields() =~= set!["body"@, "author"@, "product"@]);
    assert(declared.external_fields() =~= Set::<Seq<char>>::empty());
    assert(declared.provided_hints() =~= map!["username"@ => "User"@]);
}

/// The table of the subgraph has no fault, so building it cannot fail.
pub proof fn lemma_subgraph_table_is_sound()
    ensures
        table_fault(subgraph_table()) is None,
{
    lemma_name_lengths();
    lemma_user_ownership();
    lemma_product_ownership();
    lemma_review_ownership();
    let table = subgraph_table();
    assert(first_descriptor_fault(table) is None) by {
        reveal_with_fuel(first_descriptor_fault, 4);
        assert(table.drop_first()[0] == product_declarations());
        assert(table.drop_first().drop_first()[0] == review_declarations());
    }
    lemma_first_position(type_names(table), "User"@);
    assert(descriptor_of(table, "User"@) is Some);
    assert forall|t: int, f: int| !unknown_source_at(table, t, f) by {}
}

/// The descriptor of `User`.
pub fn user_descriptor() -> (descriptor: TypeDescriptor)
    ensures
        descriptor@ == user_declarations(),
{
    let mut fields: Vec<FieldDeclaration> = Vec::new();
    fields.push(FieldDeclaration { name: "id".to_owned(), ownership: Ownership::External });
    fields.push(FieldDeclaration { name: "reviews".to_owned(), ownership: Ownership::Owned });
    let descriptor = TypeDescriptor {
        name: "User".to_owned(),
        origin: Origin::Extended { key: "id".to_owned() },
        fields,
    };
    assert(descriptor@.fields =~= user_declarations().fields);
    descriptor
}

/// The descriptor of `Product`.
pub fn product_descriptor() -> (descriptor: TypeDescriptor)
    ensures
        descriptor@ == product_declarations(),
{
    let mut fields: Vec<FieldDeclaration> = Vec::new();
    fields.push(FieldDeclaration { name: "upc".to_owned(), ownership: Ownership::External });
    fields.push(FieldDeclaration { name: "reviews".to_owned(), ownership: Ownership::Owned });
    let descriptor = TypeDescriptor {
        name: "Product".to_owned(),
        origin: Origin::Extended { key: "upc".to_owned() },
        fields,
    };
    assert(descriptor@.fields =~= product_declarations().fields);
    descriptor
}

/// The descriptor of `Review`.
pub fn review_descriptor() -> (descriptor: TypeDescriptor)
    ensures
        descriptor@ == review_declarations(),
{
    let mut fields: Vec<FieldDeclaration> = Vec::new();
    fields.push(FieldDeclaration { name: "body".to_owned(), ownership: Ownership::Owned });
    fields.push(FieldDeclaration { name: "author".to_owned(), ownership: Ownership::Owned });
    fields.push(FieldDeclaration { name: "product".to_owned(), ownership: Ownership::Owned });
    fields.push(
        FieldDeclaration {
            name: "username".to_owned(),
            ownership: Ownership::Provided { source_type: "User".to_owned() },
        },
    );
    let descriptor = TypeDescriptor { name: "Review".to_owned(), origin: Origin::Owned, fields };
    assert(descriptor@.fields =~= review_declarations().fields);
    descriptor
}

/// The descriptor table of the subgraph, built and checked. It is always
/// `Ok`: the table is proved to have no fault.
pub fn subgraph_schema() -> (built: Result<Schema, ConfigurationError>)
    ensures
        built matches Ok(schema) && schema@ == subgraph_table(),
{
    let mut types: Vec<TypeDescriptor> = Vec::new();
    types.push(user_descriptor());
    types.push(product_descriptor());
    types.push(review_descriptor());
    proof {
        assert(table_view(types@) =~= subgraph_table());
        lemma_subgraph_table_is_sound();
    }
    Schema::build(types)
}

} // verus!
