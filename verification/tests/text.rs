use bubo::hash::{hex_digit, hex_lower, sha256_hash};
use bubo::params::page_to_fetch;
use bubo::text::{
    cache_key, decimal_string, empty_string_as_none, gen_key, push_decimal, push_decimal_digits,
};

#[test]
fn gen_key_joins_with_colons() {
    assert_eq!(gen_key("admin-api", "auth-user", 42), "admin-api:auth-user:42");
    assert_eq!(gen_key("", "", 0), "::0");
    assert_eq!(gen_key("app", "cache-admin_menu", -7), "app:cache-admin_menu:-7");
    assert_eq!(gen_key("a:b", "c", 4194385920), "a:b:c:4194385920");
}

#[test]
fn gen_key_agrees_with_format() {
    for id in [0i64, 1, 9, 10, 99, 100, 12345, -1, -10, i64::MAX, i64::MIN, 7077259206213632] {
        assert_eq!(gen_key("app", "biz", id), format!("{}:{}:{}", "app", "biz", id));
    }
}

#[test]
fn decimal_string_of_the_extremes() {
    assert_eq!(decimal_string(0), "0");
    assert_eq!(decimal_string(7), "7");
    assert_eq!(decimal_string(-1), "-1");
    assert_eq!(decimal_string(1000), "1000");
    assert_eq!(decimal_string(i64::MAX), "9223372036854775807");
    assert_eq!(decimal_string(i64::MIN), "-9223372036854775808");
}

#[test]
fn push_decimal_appends() {
    let mut text = String::from("id=");
    push_decimal(&mut text, -305);
    assert_eq!(text, "id=-305");
    push_decimal_digits(&mut text, u64::MAX);
    assert_eq!(text, "id=-30518446744073709551615");
}

#[test]
fn hex_lower_writes_two_digits_per_byte() {
    assert_eq!(hex_lower(&[]), "");
    assert_eq!(hex_lower(&[10, 20, 30]), "0a141e");
    assert_eq!(hex_lower(&[0, 255, 16, 1]), "00ff1001");
    assert_eq!(hex_digit(0), '0');
    assert_eq!(hex_digit(9), '9');
    assert_eq!(hex_digit(10), 'a');
    assert_eq!(hex_digit(15), 'f');
}

#[test]
fn sha256_hash_of_known_texts() {
    assert_eq!(
        sha256_hash("abc"),
        "ba7816bf8f01cfea414140de5dae2223b00361a396177a9cb410ff61f20015ad"
    );
    assert_eq!(
        sha256_hash(""),
        "e3b0c44298fc1c149afbf4c8996fb92427ae41e4649b934ca495991b7852b855"
    );
    assert_eq!(sha256_hash("123456").len(), 64);
}

#[test]
fn cache_key_names_the_table() {
    assert_eq!(cache_key("admin-api", "admin_user", 12), "admin-api:cache-admin_user:12");
    assert_eq!(cache_key("", "", -1), ":cache-:-1");
}

#[test]
fn an_empty_text_counts_as_missing() {
    assert_eq!(empty_string_as_none(None), None);
    assert_eq!(empty_string_as_none(Some("")), None);
    assert_eq!(empty_string_as_none(Some(" ")), Some(" "));
    assert_eq!(empty_string_as_none(Some("12")), Some("12"));
}

#[test]
fn pages_are_fetched_from_zero() {
    assert_eq!(page_to_fetch(1, 0), None);
    assert_eq!(page_to_fetch(1, 1), Some(0));
    assert_eq!(page_to_fetch(3, 3), Some(2));
    assert_eq!(page_to_fetch(4, 3), None);
    assert_eq!(page_to_fetch(u64::MAX, u64::MAX), Some(u64::MAX - 1));
}
