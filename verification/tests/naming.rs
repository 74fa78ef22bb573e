use fast_struct::builder::not_found_variant;
use fast_struct::naming::{capitalize, snake_to_pascal};
use fast_struct::text::join;

#[test]
fn pascal_case_of_one_word() {
    assert_eq!(snake_to_pascal("baz"), "Baz");
}

#[test]
fn pascal_case_of_several_words() {
    assert_eq!(snake_to_pascal("foo_bar"), "FooBar");
    assert_eq!(snake_to_pascal("first_name_of_user"), "FirstNameOfUser");
}

#[test]
fn pascal_case_of_the_empty_text() {
    assert_eq!(snake_to_pascal(""), "");
}

#[test]
fn pascal_case_drops_every_underscore() {
    assert_eq!(snake_to_pascal("_"), "");
    assert_eq!(snake_to_pascal("__a"), "A");
    assert_eq!(snake_to_pascal("a__b_"), "AB");
}

#[test]
fn pascal_case_keeps_what_does_not_open_a_word() {
    assert_eq!(snake_to_pascal("fooBar"), "FooBar");
    assert_eq!(snake_to_pascal("a1_2b"), "A12b");
    assert_eq!(snake_to_pascal("ALREADY"), "ALREADY");
}

#[test]
fn pascal_case_takes_the_head_of_a_longer_mapping() {
    assert_eq!(snake_to_pascal("\u{df}x"), "Sx");
    assert_eq!(snake_to_pascal("\u{e9}t\u{e9}"), "\u{c9}t\u{e9}");
}

#[test]
fn capital_of_a_character() {
    assert_eq!(capitalize('a'), 'A');
    assert_eq!(capitalize('z'), 'Z');
    assert_eq!(capitalize('Q'), 'Q');
    assert_eq!(capitalize('7'), '7');
    assert_eq!(capitalize('\u{df}'), 'S');
}

#[test]
fn distinct_snake_case_names_have_distinct_pascal_forms() {
    let names = ["a", "ab", "a_b", "a_bc", "ab_c", "a1", "a_b1", "a1_b"];
    for (i, left) in names.iter().enumerate() {
        for right in names.iter().skip(i + 1) {
            assert_ne!(snake_to_pascal(left), snake_to_pascal(right));
            assert_ne!(not_found_variant(left), not_found_variant(right));
        }
    }
}

#[test]
fn names_that_are_not_snake_case_may_share_a_pascal_form() {
    assert_eq!(snake_to_pascal("foo_bar"), snake_to_pascal("foo__bar"));
    assert_eq!(snake_to_pascal("a_1"), snake_to_pascal("a1"));
}

#[test]
fn error_variant_of_a_field() {
    assert_eq!(not_found_variant("baz"), "BazNotFound");
    assert_eq!(not_found_variant("first_name"), "FirstNameNotFound");
    assert_eq!(not_found_variant(""), "NotFound");
}

#[test]
fn join_puts_the_separator_between_neighbours() {
    let parts = vec!["a".to_string(), "bc".to_string(), "".to_string(), "d".to_string()];
    assert_eq!(join(&parts, ", "), "a, bc, , d");
    assert_eq!(join(&parts, ""), "abcd");
    assert_eq!(join(&vec!["only".to_string()], ", "), "only");
    assert_eq!(join(&Vec::new(), ", "), "");
}
