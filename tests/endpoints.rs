use dogapi::endpoint;

#[test]
fn random_image_address() {
    assert_eq!(endpoint::random_image(), "https://dog.ceo/api/breeds/image/random");
}

#[test]
fn multiple_random_images_address() {
    assert_eq!(
        endpoint::multiple_random_images(3),
        "https://dog.ceo/api/breeds/image/random/3"
    );
    assert_eq!(
        endpoint::multiple_random_images(120),
        "https://dog.ceo/api/breeds/image/random/120"
    );
}

#[test]
fn counts_are_not_checked() {
    assert_eq!(
        endpoint::multiple_random_images(-128),
        "https://dog.ceo/api/breeds/image/random/-128"
    );
    assert_eq!(
        endpoint::multiple_random_images(0),
        "https://dog.ceo/api/breeds/image/random/0"
    );
    assert_eq!(
        endpoint::multiple_random_images_by_breed("hound", i64::MIN),
        "https://dog.ceo/api/breed/hound/images/random/-9223372036854775808"
    );
    assert_eq!(
        endpoint::multiple_random_images_by_breed("hound", i64::MAX),
        "https://dog.ceo/api/breed/hound/images/random/9223372036854775807"
    );
}

#[test]
fn breed_addresses() {
    assert_eq!(
        endpoint::random_image_by_breed("hound"),
        "https://dog.ceo/api/breed/hound/images/random"
    );
    assert_eq!(
        endpoint::multiple_random_images_by_breed("hound", 10),
        "https://dog.ceo/api/breed/hound/images/random/10"
    );
    assert_eq!(endpoint::images_by_breed("hound"), "https://dog.ceo/api/breed/hound/images");
    assert_eq!(endpoint::sub_breeds_list("hound"), "https://dog.ceo/api/breed/hound/list");
}

#[test]
fn sub_breed_addresses() {
    assert_eq!(
        endpoint::random_image_by_sub_breed("hound", "afghan"),
        "https://dog.ceo/api/breed/hound/afghan/images/random"
    );
    assert_eq!(
        endpoint::multiple_random_images_by_sub_breed("hound", "afghan", 4),
        "https://dog.ceo/api/breed/hound/afghan/images/random/4"
    );
    assert_eq!(
        endpoint::images_by_sub_breed("hound", "afghan"),
        "https://dog.ceo/api/breed/hound/afghan/images"
    );
}

#[test]
fn catalog_address() {
    assert_eq!(endpoint::breeds_list(), "https://dog.ceo/api/breeds/list/all");
}

#[test]
fn names_are_trimmed() {
    assert_eq!(
        endpoint::images_by_sub_breed("  hound\t", "\nafghan "),
        "https://dog.ceo/api/breed/hound/afghan/images"
    );
    assert_eq!(
        endpoint::random_image_by_breed(" hound "),
        "https://dog.ceo/api/breed/hound/images/random"
    );
}

#[test]
fn decimal_text_of_integers() {
    assert_eq!(endpoint::decimal_text(0), "0");
    assert_eq!(endpoint::decimal_text(7), "7");
    assert_eq!(endpoint::decimal_text(10), "10");
    assert_eq!(endpoint::decimal_text(-45), "-45");
    assert_eq!(endpoint::decimal_text(1234567890), "1234567890");
}

#[test]
fn unicode_white_space_is_trimmed() {
    assert_eq!(
        endpoint::images_by_breed("\u{3000}hound\u{a0}\u{2028}"),
        "https://dog.ceo/api/breed/hound/images"
    );
    assert_eq!(
        endpoint::images_by_breed("hound-afghan"),
        "https://dog.ceo/api/breed/hound-afghan/images"
    );
}
