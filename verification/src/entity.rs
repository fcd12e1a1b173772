//! The three entities of the subgraph and their mathematical views.

use vstd::prelude::*;

verus! {

/// A key is syntactically valid when it is a non-empty string.
pub open spec fn valid_key(key: Seq<char>) -> bool {
    key.len() > 0
}

/// A user, owned by another subgraph and known here by its key alone.
#[derive(Clone, Debug, PartialEq, Eq)]
pub struct User {
    pub id: String,
}

/// A product, owned by another subgraph and known here by its key alone.
#[derive(Clone, Debug, PartialEq, Eq)]
pub struct Product {
    pub upc: String,
}

/// A review, owned outright by this subgraph. The author and the product are
/// embedded as key-only stubs.
#[derive(Clone, Debug, PartialEq, Eq)]
pub struct Review {
    pub body: String,
    pub author: User,
    pub product: Product,
}

/// What a review is, as plain sequences of characters.
pub struct ReviewView {
    pub body: Seq<char>,
    pub author: Seq<char>,
    pub product: Seq<char>,
}

/// A user stub has no identity beyond its key.
impl View for User {
    type V = Seq<char>;

    open spec fn view(&self) -> Seq<char> {
        self.id@
    }
}

/// A product stub has no identity beyond its key.
impl View for Product {
    type V = Seq<char>;

    open spec fn view(&self) -> Seq<char> {
        self.upc@
    }
}

impl View for Review {
    type V = ReviewView;

    open spec fn view(&self) -> ReviewView {
        ReviewView { body: self.body@, author: self.author@, product: self.product@ }
    }
}

impl User {
    /// The stub for the user with key `id`.
    pub fn new(id: String) -> (user: User)
        ensures
            user@ == id@,
            user.id == id,
    {
        User { id }
    }

    /// The key, returned verbatim: the field is owned elsewhere.
    pub fn id(&self) -> (id: &String)
        ensures
            id@ == self@,
            *id == self.id,
    {
        &self.id
    }
}

impl Product {
    /// The stub for the product with key `upc`.
    pub fn new(upc: String) -> (product: Product)
        ensures
            product@ == upc@,
            product.upc == upc,
    {
        Product { upc }
    }

    /// The key, returned verbatim: the field is owned elsewhere.
    pub fn upc(&self) -> (upc: &String)
        ensures
            upc@ == self@,
            *upc == self.upc,
    {
        &self.upc
    }
}

impl Review {
    /// Both embedded keys are syntactically valid.
    pub open spec fn well_formed(&self) -> bool {
        valid_key(self.author@) && valid_key(self.product@)
    }

    /// A review of `product` written by `author`.
    pub fn new(body: String, author: User, product: Product) -> (review: Review)
        ensures
            review.body == body,
            review.author == author,
            review.product == product,
            review@ == (ReviewView { body: body@, author: author@, product: product@ }),
    {
        Review { body, author, product }
    }

    /// The text of the review.
    pub fn body(&self) -> (body: &String)
        ensures
            *body == self.body,
            body@ == self@.body,
    {
        &self.body
    }

    /// The stub of the user who wrote the review.
    pub fn author(&self) -> (author: &User)
        ensures
            *author == self.author,
            author@ == self@.author,
    {
        &self.author
    }

    /// The stub of the product that the review is about.
    pub fn product(&self) -> (product: &Product)
        ensures
            *product == self.product,
            product@ == self@.product,
    {
        &self.product
    }

    /// Whether both embedded keys are syntactically valid.
    pub fn is_well_formed(&self) -> (ok: bool)
        ensures
            ok == self.well_formed(),
    {
        !self.author.id.as_str().is_empty() && !self.product.upc.as_str().is_empty()
    }
}

} // verus!
