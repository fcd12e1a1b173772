use federation_reviews::entity::{Product, Review, User};
use federation_reviews::join::{reviews_for_product, reviews_for_user};

fn review(body: &str, author: &str, product: &str) -> Review {
    Review::new(
        body.to_string(),
        User::new(author.to_string()),
        Product::new(product.to_string()),
    )
}

fn sample() -> Vec<Review> {
    vec![
        review("A highly effective form of birth control.", "1234", "top-1"),
        review(
            "Fedoras are one of the most fashionable hats around and can look great with a variety of outfits.",
            "1234",
            "top-1",
        ),
        review("This is the last straw. Hat you will wear. 11/10", "7777", "top-1"),
    ]
}

#[test]
fn user_with_two_reviews_gets_both_in_order() {
    let reviews = sample();
    let found = reviews_for_user(&User::new("1234".to_string()), &reviews);
    assert_eq!(found, vec![&reviews[0], &reviews[1]]);
    assert_eq!(found[0].body(), "A highly effective form of birth control.");
}

#[test]
fn user_with_one_review_gets_it() {
    let reviews = sample();
    let found = reviews_for_user(&User::new("7777".to_string()), &reviews);
    assert_eq!(found, vec![&reviews[2]]);
}

#[test]
fn unknown_user_gets_empty_list() {
    let reviews = sample();
    let found = reviews_for_user(&User::new("9999".to_string()), &reviews);
    assert!(found.is_empty());
}

#[test]
fn product_gets_all_three_in_order() {
    let reviews = sample();
    let found = reviews_for_product(&Product::new("top-1".to_string()), &reviews);
    assert_eq!(found, vec![&reviews[0], &reviews[1], &reviews[2]]);
}

#[test]
fn unknown_product_gets_empty_list() {
    let reviews = sample();
    let found = reviews_for_product(&Product::new("top-2".to_string()), &reviews);
    assert!(found.is_empty());
}

#[test]
fn empty_collection_joins_to_nothing() {
    let reviews: Vec<Review> = Vec::new();
    assert!(reviews_for_user(&User::new("1234".to_string()), &reviews).is_empty());
    assert!(reviews_for_product(&Product::new("top-1".to_string()), &reviews).is_empty());
}

#[test]
fn keys_are_compared_exactly() {
    let reviews = vec![
        review("lower", "abc", "top-1"),
        review("upper", "ABC", "TOP-1"),
        review("padded", " abc", "top-1 "),
        review("prefix", "ab", "top"),
    ];
    let by_author = reviews_for_user(&User::new("abc".to_string()), &reviews);
    assert_eq!(by_author, vec![&reviews[0]]);
    let by_product = reviews_for_product(&Product::new("top-1".to_string()), &reviews);
    assert_eq!(by_product, vec![&reviews[0]]);
}

#[test]
fn interleaved_matches_keep_collection_order() {
    let reviews = vec![
        review("first", "a", "p"),
        review("second", "b", "q"),
        review("third", "a", "q"),
        review("fourth", "b", "p"),
        review("fifth", "a", "p"),
    ];
    let found = reviews_for_user(&User::new("a".to_string()), &reviews);
    let bodies: Vec<&str> = found.iter().map(|r| r.body().as_str()).collect();
    assert_eq!(bodies, vec!["first", "third", "fifth"]);
    let found = reviews_for_product(&Product::new("q".to_string()), &reviews);
    let bodies: Vec<&str> = found.iter().map(|r| r.body().as_str()).collect();
    assert_eq!(bodies, vec!["second", "third"]);
}

#[test]
fn equal_reviews_are_each_returned() {
    let reviews = vec![review("same", "a", "p"), review("same", "a", "p")];
    let found = reviews_for_user(&User::new("a".to_string()), &reviews);
    assert_eq!(found.len(), 2);
    assert!(std::ptr::eq(found[0], &reviews[0]));
    assert!(std::ptr::eq(found[1], &reviews[1]));
}

#[test]
fn join_leaves_the_collection_unchanged() {
    let reviews = sample();
    let before = reviews.clone();
    let _ = reviews_for_user(&User::new("1234".to_string()), &reviews);
    let _ = reviews_for_product(&Product::new("top-1".to_string()), &reviews);
    assert_eq!(reviews, before);
}

#[test]
fn stub_methods_agree_with_the_join() {
    let reviews = sample();
    let user = User::new("1234".to_string());
    let product = Product::new("top-1".to_string());
    assert_eq!(user.reviews(&reviews), reviews_for_user(&user, &reviews));
    assert_eq!(product.reviews(&reviews), reviews_for_product(&product, &reviews));
}

#[test]
fn stubs_return_their_key_verbatim() {
    assert_eq!(User::new("1234".to_string()).id(), "1234");
    assert_eq!(Product::new("top-1".to_string()).upc(), "top-1");
    assert_eq!(User::new(" MiXed ".to_string()).id(), " MiXed ");
}

#[test]
fn review_fields_are_returned_as_stored() {
    let r = review("text", "1234", "top-1");
    assert_eq!(r.body(), "text");
    assert_eq!(r.author(), &User::new("1234".to_string()));
    assert_eq!(r.product(), &Product::new("top-1".to_string()));
}

#[test]
fn review_with_an_empty_key_is_not_well_formed() {
    assert!(review("ok", "1234", "top-1").is_well_formed());
    assert!(!review("no author", "", "top-1").is_well_formed());
    assert!(!review("no product", "1234", "").is_well_formed());
}

#[test]
fn empty_key_joins_only_against_empty_keys() {
    let reviews = sample();
    assert!(reviews_for_user(&User::new(String::new()), &reviews).is_empty());
}
