use ryde::error::classify_database_error;
use ryde::error::Error;
use ryde::strings::dedup_strings;
use ryde::strings::i64_to_string;
use ryde::strings::join;
use ryde::strings::pascal_to_camel;
use ryde::strings::replace_all;
use ryde::strings::snake_to_pascal;
use ryde::strings::split_char;
use ryde::strings::starts_with;
use ryde::strings::trim;
use ryde::strings::trim_end_char;
use ryde::strings::u64_to_string;

#[test]
fn unique_constraint_violations_carry_the_column_names() {
    let err = classify_database_error("UNIQUE constraint failed: posts.title", false);
    assert_eq!(err, Error::UniqueConstraintFailed("posts.title".to_string()));

    let err = classify_database_error("UNIQUE constraint failed: posts.a, posts.b", false);
    assert_eq!(err, Error::UniqueConstraintFailed("posts.a, posts.b".to_string()));
}

#[test]
fn zero_rows_where_one_was_promised_is_not_found() {
    let err = classify_database_error("Query returned no rows", true);
    assert_eq!(err, Error::NotFound);
}

#[test]
fn other_driver_failures_stay_database_errors() {
    let err = classify_database_error("no such table: posts", false);
    assert_eq!(err, Error::Database("no such table: posts".to_string()));
}

#[test]
fn snake_to_pascal_capitalizes_each_word() {
    assert_eq!(snake_to_pascal("create_posts"), "CreatePosts");
    assert_eq!(snake_to_pascal("select_first_item"), "SelectFirstItem");
    assert_eq!(snake_to_pascal("a__b"), "AB");
    assert_eq!(snake_to_pascal("single"), "Single");
    assert_eq!(snake_to_pascal(""), "");
}

#[test]
fn pascal_to_camel_lowers_and_underscores() {
    assert_eq!(pascal_to_camel("FooBar"), "foo_bar");
    assert_eq!(pascal_to_camel("Abc"), "abc");
    assert_eq!(pascal_to_camel("abc"), "abc");
    assert_eq!(pascal_to_camel(""), "");
}

#[test]
fn integers_render_in_decimal() {
    assert_eq!(u64_to_string(0), "0");
    assert_eq!(u64_to_string(7), "7");
    assert_eq!(u64_to_string(18446744073709551615), "18446744073709551615");
    assert_eq!(i64_to_string(-1), "-1");
    assert_eq!(i64_to_string(42), "42");
    assert_eq!(i64_to_string(i64::MIN), "-9223372036854775808");
}

#[test]
fn split_char_keeps_empty_pieces() {
    assert_eq!(split_char("a:b", ':'), vec!["a", "b"]);
    assert_eq!(split_char("", ':'), vec![""]);
    assert_eq!(split_char(":a:", ':'), vec!["", "a", ""]);
}

#[test]
fn join_interleaves_the_separator() {
    assert_eq!(join(&vec!["a".to_string(), "b".to_string()], ", "), "a, b");
    assert_eq!(join(&vec!["a".to_string()], ", "), "a");
    assert_eq!(join(&vec![], ", "), "");
}

#[test]
fn replace_all_scans_left_to_right() {
    assert_eq!(replace_all("a b c", " ", ""), "abc");
    assert_eq!(replace_all("aaa", "aa", "b"), "ba");
    assert_eq!(replace_all("color: var(--x)", ":var(--", "-"), "color: var(--x)");
    assert_eq!(replace_all("color:var(--x)", ":var(--", "-"), "color-x)");
    assert_eq!(replace_all("abc", "", "z"), "abc");
}

#[test]
fn trimming_removes_only_the_edges() {
    assert_eq!(trim("  a b \t"), "a b");
    assert_eq!(trim(""), "");
    assert_eq!(trim_end_char("ab))", ')'), "ab");
    assert_eq!(trim_end_char(")ab", ')'), ")ab");
}

#[test]
fn starts_with_compares_characters() {
    assert!(starts_with("UNIQUE constraint failed: x", "UNIQUE constraint failed: "));
    assert!(!starts_with("UNIQUE", "UNIQUE constraint failed: "));
    assert!(starts_with("anything", ""));
}

#[test]
fn dedup_keeps_first_occurrences_in_order() {
    let v = vec![
        "b".to_string(),
        "a".to_string(),
        "b".to_string(),
        "c".to_string(),
        "a".to_string(),
    ];
    assert_eq!(dedup_strings(&v), vec!["b", "a", "c"]);
}

use ryde::outcome::first_row_or_error;
use ryde::outcome::first_row_or_none;
use ryde::outcome::scalar_value;

#[test]
fn row_shape_decoding_takes_the_first_row_or_fails() {
    assert_eq!(first_row_or_error(vec![1, 2, 3]), Ok(1));
    assert_eq!(first_row_or_error(Vec::<i64>::new()), Err(Error::NotFound));
}

#[test]
fn optional_row_decoding_takes_the_first_row_or_nothing() {
    assert_eq!(first_row_or_none(vec!["a", "b"]), Some("a"));
    assert_eq!(first_row_or_none(Vec::<String>::new()), None);
}

#[test]
fn scalar_decoding_takes_the_single_value() {
    assert_eq!(scalar_value(vec![7]), 7);
    assert_eq!(scalar_value(vec![7, 0]), 7);
}

#[test]
fn errors_map_to_statuses_and_bodies() {
    assert_eq!(Error::NotFound.status(), 404);
    assert_eq!(Error::NotFound.body(), "not found");
    assert_eq!(Error::Multipart("bad part".to_string()).status(), 422);
    assert_eq!(Error::Database("oops".to_string()).status(), 500);
    assert_eq!(Error::Database("oops".to_string()).body(), "oops");
    assert_eq!(
        Error::UniqueConstraintFailed("posts.title".to_string()).body(),
        "posts.title"
    );
}

#[test]
fn errors_carry_descriptive_messages() {
    assert_eq!(
        Error::UniqueConstraintFailed("posts.title".to_string()).message(),
        "Error: Unique constraint failed posts.title"
    );
    assert_eq!(Error::NotFound.message(), "Error: Not found");
    assert_eq!(
        Error::Database("no such table".to_string()).message(),
        "Error: Generic database error no such table"
    );
}
