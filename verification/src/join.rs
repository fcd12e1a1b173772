//! The relationship join: the `reviews` field of a user or product stub,
//! computed by one scan of the review collection.

use vstd::prelude::*;
use crate::entity::{Product, Review, User};

verus! {

/// The test that a review was written by the user with key `key`. Keys are
/// compared exactly, character by character.
pub open spec fn written_by(key: Seq<char>) -> spec_fn(Review) -> bool {
    |review: Review| review.author@ == key
}

/// The test that a review is about the product with key `key`. Keys are
/// compared exactly, character by character.
pub open spec fn written_about(key: Seq<char>) -> spec_fn(Review) -> bool {
    |review: Review| review.product@ == key
}

/// The reviews of `reviews` whose author has key `key`, in collection order.
pub open spec fn reviews_by_author(reviews: Seq<Review>, key: Seq<char>) -> Seq<Review> {
    reviews.filter(written_by(key))
}

/// The reviews of `reviews` whose product has key `key`, in collection order.
pub open spec fn reviews_of_product(reviews: Seq<Review>, key: Seq<char>) -> Seq<Review> {
    reviews.filter(written_about(key))
}

/// The reviews that a sequence of references points at.
pub open spec fn targets(found: Seq<&Review>) -> Seq<Review> {
    found.map_values(|review: &Review| *review)
}

/// The positions in `reviews`, ascending, of the reviews that pass `wanted`.
pub open spec fn positions(reviews: Seq<Review>, wanted: spec_fn(Review) -> bool) -> Seq<int>
    decreases reviews.len(),
{
    if reviews.len() == 0 {
        Seq::empty()
    } else {
        let earlier = positions(reviews.drop_last(), wanted);
        if wanted(reviews.last()) {
            earlier.push(reviews.len() - 1)
        } else {
            earlier
        }
    }
}

/// `found` is the subsequence of `reviews` picked out by `wanted`: `at` lists
/// the position in `reviews` of each review of `found`, the positions ascend
/// strictly, each holds a review that passes `wanted`, and no position whose
/// review passes `wanted` is left out.
pub open spec fn selects_in_order(
    reviews: Seq<Review>,
    wanted: spec_fn(Review) -> bool,
    found: Seq<Review>,
    at: Seq<int>,
) -> bool {
    &&& at.len() == found.len()
    &&& forall|j: int|
        0 <= j < at.len() ==> 0 <= #[trigger] at[j] < reviews.len() && wanted(reviews[at[j]])
            && found[j] == reviews[at[j]]
    &&& forall|j: int, k: int| 0 <= j < k < at.len() ==> #[trigger] at[j] < #[trigger] at[k]
    &&& forall|i: int| 0 <= i < reviews.len() && wanted(#[trigger] reviews[i]) ==> at.contains(i)
}

/// A filter keeps exactly the reviews that pass the test, each once, in the
/// order in which the collection holds them.
pub proof fn lemma_filter_selects_in_order(reviews: Seq<Review>, wanted: spec_fn(Review) -> bool)
    ensures
        selects_in_order(reviews, wanted, reviews.filter(wanted), positions(reviews, wanted)),
    decreases reviews.len(),
{
    reveal(Seq::filter);
    if reviews.len() > 0 {
        let front = reviews.drop_last();
        let last = reviews.len() - 1;
        let at = positions(reviews, wanted);
        let found = reviews.filter(wanted);
        let front_at = positions(front, wanted);
        lemma_filter_selects_in_order(front, wanted);
        assert forall|i: int| 0 <= i < reviews.len() && wanted(#[trigger] reviews[i]) implies at.contains(
            i,
        ) by {
            if i < last {
                assert(front[i] == reviews[i]);
                let j = choose|j: int| 0 <= j < front_at.len() && front_at[j] == i;
                assert(at[j] == i);
            } else {
                assert(at[at.len() - 1] == i);
            }
        }
        assert forall|j: int| 0 <= j < at.len() implies 0 <= #[trigger] at[j] < reviews.len()
            && wanted(reviews[at[j]]) && found[j] == reviews[at[j]] by {
            if j < front_at.len() {
                assert(at[j] == front_at[j]);
                assert(front[front_at[j]] == reviews[front_at[j]]);
            }
        }
        assert forall|j: int, k: int| 0 <= j < k < at.len() implies #[trigger] at[j]
            < #[trigger] at[k] by {
            assert(at[j] == front_at[j]);
            if k < front_at.len() {
                assert(at[k] == front_at[k]);
            }
        }
    }
}

/// The reviews written by a user are exactly the subsequence of the
/// collection whose author key equals the user's key, in collection order.
pub proof fn lemma_reviews_by_author_in_order(reviews: Seq<Review>, key: Seq<char>)
    ensures
        selects_in_order(
            reviews,
            written_by(key),
            reviews_by_author(reviews, key),
            positions(reviews, written_by(key)),
        ),
{
    lemma_filter_selects_in_order(reviews, written_by(key));
}

/// The reviews of a product are exactly the subsequence of the collection
/// whose product key equals the product's key, in collection order.
pub proof fn lemma_reviews_of_product_in_order(reviews: Seq<Review>, key: Seq<char>)
    ensures
        selects_in_order(
            reviews,
            written_about(key),
            reviews_of_product(reviews, key),
            positions(reviews, written_about(key)),
        ),
{
    lemma_filter_selects_in_order(reviews, written_about(key));
}

/// A key that no review names as its author has no reviews: the join is
/// empty, and it is no error.
pub proof fn lemma_unknown_author_has_no_reviews(reviews: Seq<Review>, key: Seq<char>)
    requires
        forall|i: int| 0 <= i < reviews.len() ==> (#[trigger] reviews[i]).author@ != key,
    ensures
        reviews_by_author(reviews, key) == Seq::<Review>::empty(),
{
    let wanted = written_by(key);
    assert(reviews.all(|review: Review| !wanted(review)));
    reviews.lemma_all_neg_filter_empty(wanted);
    assert(reviews.filter(wanted) =~= Seq::<Review>::empty());
}

/// A key that no review names as its product has no reviews: the join is
/// empty, and it is no error.
pub proof fn lemma_unknown_product_has_no_reviews(reviews: Seq<Review>, key: Seq<char>)
    requires
        forall|i: int| 0 <= i < reviews.len() ==> (#[trigger] reviews[i]).product@ != key,
    ensures
        reviews_of_product(reviews, key) == Seq::<Review>::empty(),
{
    let wanted = written_about(key);
    assert(reviews.all(|review: Review| !wanted(review)));
    reviews.lemma_all_neg_filter_empty(wanted);
    assert(reviews.filter(wanted) =~= Seq::<Review>::empty());
}

/// One more review scanned: the filter of the longer prefix is the filter of
/// the shorter one, with the new review appended if it passes.
proof fn lemma_filter_next(reviews: Seq<Review>, wanted: spec_fn(Review) -> bool, i: int)
    requires
        0 <= i < reviews.len(),
    ensures
        reviews.take(i + 1).filter(wanted) == if wanted(reviews[i]) {
            reviews.take(i).filter(wanted).push(reviews[i])
        } else {
            reviews.take(i).filter(wanted)
        },
{
    reveal(Seq::filter);
    assert(reviews.take(i + 1).drop_last() =~= reviews.take(i));
}

/// The reviews of `reviews` written by `user`, as references into the
/// collection, in collection order. The collection is only read.
pub fn reviews_for_user<'a>(user: &User, reviews: &'a Vec<Review>) -> (found: Vec<&'a Review>)
    ensures
        targets(found@) == reviews_by_author(reviews@, user@),
        (forall|i: int| 0 <= i < reviews.len() ==> (#[trigger] reviews[i]).author@ != user@)
            ==> found.len() == 0,
{
    let mut found: Vec<&Review> = Vec::new();
    let mut i: usize = 0;
    assert(reviews@.take(0).filter(written_by(user@)) =~= Seq::<Review>::empty()) by {
        reveal(Seq::filter);
    }
    while i < reviews.len()
        invariant
            i <= reviews.len(),
            targets(found@) =~= reviews_by_author(reviews@.take(i as int), user@),
        decreases reviews.len() - i,
    {
        let review = &reviews[i];
        proof {
            lemma_filter_next(reviews@, written_by(user@), i as int);
        }
        if review.author.id == user.id {
            found.push(review);
        }
        i += 1;
    }
    proof {
        assert(reviews@.take(reviews.len() as int) =~= reviews@);
        if forall|i: int| 0 <= i < reviews.len() ==> (#[trigger] reviews[i]).author@ != user@ {
            lemma_unknown_author_has_no_reviews(reviews@, user@);
        }
    }
    found
}

/// The reviews of `reviews` about `product`, as references into the
/// collection, in collection order. The collection is only read.
pub fn reviews_for_product<'a>(product: &Product, reviews: &'a Vec<Review>) -> (found: Vec<
    &'a Review,
>)
    ensures
        targets(found@) == reviews_of_product(reviews@, product@),
        (forall|i: int| 0 <= i < reviews.len() ==> (#[trigger] reviews[i]).product@ != product@)
            ==> found.len() == 0,
{
    let mut found: Vec<&Review> = Vec::new();
    let mut i: usize = 0;
    assert(reviews@.take(0).filter(written_about(product@)) =~= Seq::<Review>::empty()) by {
        reveal(Seq::filter);
    }
    while i < reviews.len()
        invariant
            i <= reviews.len(),
            targets(found@) =~= reviews_of_product(reviews@.take(i as int), product@),
        decreases reviews.len() - i,
    {
        let review = &reviews[i];
        proof {
            lemma_filter_next(reviews@, written_about(product@), i as int);
        }
        if review.product.upc == product.upc {
            found.push(review);
        }
        i += 1;
    }
    proof {
        assert(reviews@.take(reviews.len() as int) =~= reviews@);
        if forall|i: int| 0 <= i < reviews.len() ==> (#[trigger] reviews[i]).product@ != product@ {
            lemma_unknown_product_has_no_reviews(reviews@, product@);
        }
    }
    found
}

impl User {
    /// The `reviews` field of a user stub: the reviews that the user wrote.
    pub fn reviews<'a>(&self, reviews: &'a Vec<Review>) -> (found: Vec<&'a Review>)
        ensures
            targets(found@) == reviews_by_author(reviews@, self@),
    {
        reviews_for_user(self, reviews)
    }
}

impl Product {
    /// The `reviews` field of a product stub: the reviews about the product.
    pub fn reviews<'a>(&self, reviews: &'a Vec<Review>) -> (found: Vec<&'a Review>)
        ensures
            targets(found@) == reviews_of_product(reviews@, self@),
    {
        reviews_for_product(self, reviews)
    }
}

} // verus!
