//! The entity registry: from a reference sent by the gateway (a type name and
//! key fields) to the key-only stub of that entity, or a failure of that one
//! reference.

use vstd::prelude::*;
use crate::entity::{valid_key, Product, Review, User};
use crate::join::{reviews_by_author, reviews_for_product, reviews_for_user, reviews_of_product, targets};
use crate::names::{first_position, lemma_first_position};
use crate::schema::{descriptor_of, type_names};
use crate::subgraph::subgraph_table;

verus! {

/// The value of one key field, as the gateway sent it.
#[derive(Clone, Debug, PartialEq, Eq)]
pub enum KeyValue {
    Null,
    Boolean(bool),
    Number(i64),
    Text(String),
    /// A list or an object; what it holds plays no part in resolution.
    Nested,
}

/// One key field of a reference.
#[derive(Clone, Debug, PartialEq, Eq)]
pub struct KeyField {
    pub name: String,
    pub value: KeyValue,
}

/// A reference to an entity: the name of its type, and its key fields.
#[derive(Clone, Debug, PartialEq, Eq)]
pub struct Representation {
    pub typename: String,
    pub key_fields: Vec<KeyField>,
}

/// A resolved reference: the local stand-in for an entity that another
/// subgraph owns.
#[derive(Clone, Debug, PartialEq, Eq)]
pub enum EntityStub {
    User(User),
    Product(Product),
}

/// Why one reference could not be resolved.
#[derive(Clone, Copy, Debug, PartialEq, Eq)]
pub enum ResolveError {
    /// The reference names a type that this subgraph does not extend.
    UnknownEntityType,
    /// The key field of the type is missing, is not a string, or is empty.
    InvalidKey,
}

/// The resolvers that build a stub from a key.
pub struct Query;

/// A key value as a plain value.
pub enum KeyValueView {
    Null,
    Boolean(bool),
    Number(int),
    Text(Seq<char>),
    Nested,
}

/// A key field as plain values.
pub struct KeyFieldView {
    pub name: Seq<char>,
    pub value: KeyValueView,
}

/// A reference as plain values.
pub struct RepresentationView {
    pub typename: Seq<char>,
    pub key_fields: Seq<KeyFieldView>,
}

/// A stub as plain values: the type it stands for, and the key.
pub enum StubView {
    User { id: Seq<char> },
    Product { upc: Seq<char> },
}

impl View for KeyValue {
    type V = KeyValueView;

    open spec fn view(&self) -> KeyValueView {
        match *self {
            KeyValue::Null => KeyValueView::Null,
            KeyValue::Boolean(b) => KeyValueView::Boolean(b),
            KeyValue::Number(n) => KeyValueView::Number(n as int),
            KeyValue::Text(text) => KeyValueView::Text(text@),
            KeyValue::Nested => KeyValueView::Nested,
        }
    }
}

impl View for KeyField {
    type V = KeyFieldView;

    open spec fn view(&self) -> KeyFieldView {
        KeyFieldView { name: self.name@, value: self.value@ }
    }
}

/// The key fields of a reference as plain values.
pub open spec fn fields_view(fields: Seq<KeyField>) -> Seq<KeyFieldView> {
    fields.map_values(|field: KeyField| field@)
}

impl View for Representation {
    type V = RepresentationView;

    open spec fn view(&self) -> RepresentationView {
        RepresentationView {
            typename: self.typename@,
            key_fields: fields_view(self.key_fields@),
        }
    }
}

impl View for EntityStub {
    type V = StubView;

    open spec fn view(&self) -> StubView {
        match *self {
            EntityStub::User(user) => StubView::User { id: user@ },
            EntityStub::Product(product) => StubView::Product { upc: product@ },
        }
    }
}

/// The outcome of resolving one reference, as plain values.
pub open spec fn outcome_view(outcome: Result<EntityStub, ResolveError>) -> Result<
    StubView,
    ResolveError,
> {
    match outcome {
        Ok(stub) => Ok(stub@),
        Err(error) => Err(error),
    }
}

/// The key field by which a type is resolved: `id` for `User`, `upc` for
/// `Product`. Other types are not resolved here.
pub open spec fn declared_key(typename: Seq<char>) -> Option<Seq<char>> {
    if typename == "User"@ {
        Some("id"@)
    } else if typename == "Product"@ {
        Some("upc"@)
    } else {
        None
    }
}

/// The names of the key fields, in the order sent.
pub open spec fn key_names(fields: Seq<KeyFieldView>) -> Seq<Seq<char>> {
    fields.map_values(|field: KeyFieldView| field.name)
}

/// The key that the field called `name` holds: the text of the first field
/// of that name, if that is a non-empty string. Other fields are ignored.
pub open spec fn key_text(fields: Seq<KeyFieldView>, name: Seq<char>) -> Option<Seq<char>> {
    match first_position(key_names(fields), name) {
        Some(i) => match fields[i].value {
            KeyValueView::Text(text) => if valid_key(text) {
                Some(text)
            } else {
                None
            },
            _ => None,
        },
        None => None,
    }
}

/// What a reference resolves to. A type that is not extended here fails with
/// `UnknownEntityType`, whatever the key fields hold. For `User` and
/// `Product`, a missing or malformed key fails with `InvalidKey`; else the
/// stub of the type carries the key, and nothing else.
pub open spec fn resolution(typename: Seq<char>, fields: Seq<KeyFieldView>) -> Result<
    StubView,
    ResolveError,
> {
    match declared_key(typename) {
        None => Err(ResolveError::UnknownEntityType),
        Some(key) => match key_text(fields, key) {
            None => Err(ResolveError::InvalidKey),
            Some(text) => if typename == "User"@ {
                Ok(StubView::User { id: text })
            } else {
                Ok(StubView::Product { upc: text })
            },
        },
    }
}

/// What a batch of references resolves to: each reference to its own
/// outcome, at its own position.
pub open spec fn batch_resolution(batch: Seq<RepresentationView>) -> Seq<
    Result<StubView, ResolveError>,
> {
    batch.map_values(
        |reference: RepresentationView| resolution(reference.typename, reference.key_fields),
    )
}

/// A batch of references as plain values.
pub open spec fn batch_view(batch: Seq<Representation>) -> Seq<RepresentationView> {
    batch.map_values(|reference: Representation| reference@)
}

/// The outcomes of a batch as plain values.
pub open spec fn outcome_views(outcomes: Seq<Result<EntityStub, ResolveError>>) -> Seq<
    Result<StubView, ResolveError>,
> {
    outcomes.map_values(|outcome: Result<EntityStub, ResolveError>| outcome_view(outcome))
}

/// A batch is never cut short, and what stands at a position of the result
/// depends on the reference at that position alone: a failure of one
/// reference changes nothing for the others.
pub proof fn lemma_batch_is_resolved_slot_by_slot(batch: Seq<RepresentationView>, i: int)
    requires
        0 <= i < batch.len(),
    ensures
        batch_resolution(batch).len() == batch.len(),
        batch_resolution(batch)[i] == resolution(batch[i].typename, batch[i].key_fields),
{
}

/// When each outcome comes: the unknown-type failure exactly for type names
/// other than `User` and `Product`; the key failure exactly for those two
/// with no valid key under the declared name; a stub in all other cases, and
/// then of the named type and with the key that was sent.
pub proof fn lemma_resolution_outcomes(typename: Seq<char>, fields: Seq<KeyFieldView>)
    ensures
        resolution(typename, fields) == Err::<StubView, ResolveError>(
            ResolveError::UnknownEntityType,
        ) <==> typename != "User"@ && typename != "Product"@,
        resolution(typename, fields) == Err::<StubView, ResolveError>(ResolveError::InvalidKey)
            <==> (typename == "User"@ && key_text(fields, "id"@) is None) || (typename
            == "Product"@ && key_text(fields, "upc"@) is None),
        resolution(typename, fields) matches Ok(StubView::User { id }) ==> typename == "User"@
            && key_text(fields, "id"@) == Some(id) && valid_key(id),
        resolution(typename, fields) matches Ok(StubView::Product { upc }) ==> typename
            == "Product"@ && key_text(fields, "upc"@) == Some(upc) && valid_key(upc),
{
    reveal_strlit("User");
    reveal_strlit("Product");
    assert("User"@.len() != "Product"@.len());
}

/// Resolution has no hidden state: two outcomes for one reference agree
/// field for field.
pub proof fn lemma_resolution_is_repeatable(
    typename: Seq<char>,
    fields: Seq<KeyFieldView>,
    first: Result<EntityStub, ResolveError>,
    second: Result<EntityStub, ResolveError>,
)
    requires
        outcome_view(first) == resolution(typename, fields),
        outcome_view(second) == resolution(typename, fields),
    ensures
        outcome_view(first) == outcome_view(second),
        first is Ok <==> second is Ok,
        first matches Ok(EntityStub::User(a)) ==> second matches Ok(EntityStub::User(b)) && a@
            == b@,
        first matches Ok(EntityStub::Product(a)) ==> second matches Ok(EntityStub::Product(b))
            && a@ == b@,
{
}

/// The registry resolves exactly the types that the descriptor table of the
/// subgraph declares as extended, each by the key that the table gives it.
pub proof fn lemma_registry_follows_table(typename: Seq<char>)
    ensures
        declared_key(typename) == match descriptor_of(subgraph_table(), typename) {
            Some(descriptor) => descriptor.key,
            None => None,
        },
{
    reveal_strlit("User");
    reveal_strlit("Product");
    reveal_strlit("Review");
    let names = type_names(subgraph_table());
    assert(names.len() == 3);
    assert(names[0] == "User"@);
    assert(names[1] == "Product"@);
    assert(names[2] == "Review"@);
    assert("User"@.len() == 4 && "Product"@.len() == 7 && "Review"@.len() == 6);
    lemma_first_position(names, typename);
}

impl Query {
    /// The stub of the user with key `id`.
    pub fn find_user_by_id(&self, id: String) -> (user: User)
        ensures
            user@ == id@,
    {
        User { id }
    }

    /// The stub of the product with key `upc`.
    pub fn find_product_by_upc(&self, upc: String) -> (product: Product)
        ensures
            product@ == upc@,
    {
        Product { upc }
    }
}

/// The key held by the field called `name`, if it holds a valid one.
fn find_key_text(fields: &Vec<KeyField>, name: &str) -> (found: Option<String>)
    ensures
        match found {
            Some(text) => key_text(fields_view(fields@), name@) == Some(text@),
            None => key_text(fields_view(fields@), name@) is None,
        },
{
    let wanted = name.to_owned();
    let ghost names = key_names(fields_view(fields@));
    let mut i: usize = 0;
    while i < fields.len()
        invariant
            i <= fields.len(),
            wanted@ == name@,
            names == key_names(fields_view(fields@)),
            forall|j: int| 0 <= j < i ==> names[j] != name@,
        decreases fields.len() - i,
    {
        if fields[i].name == wanted {
            proof {
                assert(fields_view(fields@)[i as int] == fields[i as int]@);
                assert(names[i as int] == name@);
                lemma_first_position(names, name@);
            }
            return match &fields[i].value {
                KeyValue::Text(text) => if text.as_str().is_empty() {
                    None
                } else {
                    Some(text.clone())
                },
                _ => None,
            };
        }
        i += 1;
    }
    proof {
        lemma_first_position(names, name@);
    }
    None
}

/// Resolves one reference to the stub of its entity. The outcome depends on
/// the type name and the key fields alone, and nothing is changed.
pub fn resolve_entity(typename: &str, key_fields: &Vec<KeyField>) -> (outcome: Result<
    EntityStub,
    ResolveError,
>)
    ensures
        outcome_view(outcome) == resolution(typename@, fields_view(key_fields@)),
{
    let named = typename.to_owned();
    if named == "User".to_owned() {
        match find_key_text(key_fields, "id") {
            Some(id) => Ok(EntityStub::User(Query.find_user_by_id(id))),
            None => Err(ResolveError::InvalidKey),
        }
    } else if named == "Product".to_owned() {
        match find_key_text(key_fields, "upc") {
            Some(upc) => Ok(EntityStub::Product(Query.find_product_by_upc(upc))),
            None => Err(ResolveError::InvalidKey),
        }
    } else {
        Err(ResolveError::UnknownEntityType)
    }
}

/// Resolves a batch of references, each on its own: every reference gets its
/// outcome at its own position, and a failure of one leaves the others as
/// they would be without it.
pub fn resolve_entities(batch: &Vec<Representation>) -> (outcomes: Vec<
    Result<EntityStub, ResolveError>,
>)
    ensures
        outcome_views(outcomes@) == batch_resolution(batch_view(batch@)),
        outcomes.len() == batch.len(),
        forall|i: int|
            0 <= i < batch.len() ==> outcome_view(#[trigger] outcomes[i]) == resolution(
                batch[i]@.typename,
                batch[i]@.key_fields,
            ),
{
    let mut outcomes: Vec<Result<EntityStub, ResolveError>> = Vec::new();
    let mut i: usize = 0;
    while i < batch.len()
        invariant
            i <= batch.len(),
            outcomes.len() == i,
            forall|j: int|
                0 <= j < i ==> outcome_view(#[trigger] outcomes[j]) == resolution(
                    batch[j]@.typename,
                    batch[j]@.key_fields,
                ),
        decreases batch.len() - i,
    {
        let reference = &batch[i];
        let outcome = resolve_entity(reference.typename.as_str(), &reference.key_fields);
        outcomes.push(outcome);
        i += 1;
    }
    assert(outcome_views(outcomes@) =~= batch_resolution(batch_view(batch@)));
    outcomes
}

impl EntityStub {
    /// The key that the stub carries.
    pub fn key(&self) -> (key: &String)
        ensures
            key@ == match self@ {
                StubView::User { id } => id,
                StubView::Product { upc } => upc,
            },
    {
        match self {
            EntityStub::User(user) => user.id(),
            EntityStub::Product(product) => product.upc(),
        }
    }

    /// The `reviews` field of a resolved entity: the reviews that a user
    /// wrote, or the reviews of a product, in collection order.
    pub fn reviews<'a>(&self, reviews: &'a Vec<Review>) -> (found: Vec<&'a Review>)
        ensures
            targets(found@) == match self@ {
                StubView::User { id } => reviews_by_author(reviews@, id),
                StubView::Product { upc } => reviews_of_product(reviews@, upc),
            },
    {
        match self {
            EntityStub::User(user) => reviews_for_user(user, reviews),
            EntityStub::Product(product) => reviews_for_product(product, reviews),
        }
    }
}

} // verus!
