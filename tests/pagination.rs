use dexie::config::Config;
use dexie::pagination::{build_find_option, LimitOffsetPagination, Query};
use dexie::text::{push_decimal, push_signed_decimal};
use dexie::uri::Uri;

fn users_uri() -> Uri {
    Uri::resolve(String::from("/users"), Some(String::from("example.com")), "fallback.org:8000")
}

fn config(page_size: i64) -> Config {
    Config {
        address: String::from("fallback.org:8000"),
        page_size,
        db_name: String::from("app"),
        shared_secret: String::from("secret"),
    }
}

#[test]
fn decimal_of_zero_and_large_values() {
    let mut s = String::new();
    push_decimal(&mut s, 0u128);
    assert_eq!(s, "0");
    let mut s = String::from("n=");
    push_decimal(&mut s, 12345u128);
    assert_eq!(s, "n=12345");
    let mut s = String::new();
    push_decimal(&mut s, u64::MAX as u128);
    assert_eq!(s, "18446744073709551615");
}

#[test]
fn signed_decimal_of_negatives() {
    let mut s = String::new();
    push_signed_decimal(&mut s, -7i128);
    assert_eq!(s, "-7");
    let mut s = String::new();
    push_signed_decimal(&mut s, i64::MIN as i128);
    assert_eq!(s, "-9223372036854775808");
    let mut s = String::new();
    push_signed_decimal(&mut s, 42i128);
    assert_eq!(s, "42");
}

#[test]
fn uri_uses_host_header() {
    let uri = users_uri();
    assert_eq!(uri.to_string(), "https://example.com/users");
}

#[test]
fn uri_falls_back_to_configured_address() {
    let uri = Uri::resolve(String::from("/items"), None, "fallback.org:8000");
    assert_eq!(uri.host.as_deref(), Some("fallback.org:8000"));
    assert_eq!(uri.to_string(), "https://fallback.org:8000/items");
}

#[test]
fn middle_page_has_both_links() {
    let page = LimitOffsetPagination::new(&Query::new(10, 20), &users_uri(), 25, vec![1, 2, 3]);
    assert_eq!(page.limit(), 10);
    assert_eq!(page.offset(), 20);
    assert_eq!(page.count(), 25);
    assert_eq!(page.next().as_deref(), Some("https://example.com/users?offset=30&limit=10"));
    assert_eq!(page.previous().as_deref(), Some("https://example.com/users?offset=20&limit=10"));
    assert_eq!(page.results(), &vec![1, 2, 3]);
}

#[test]
fn first_page_has_no_previous_link() {
    let page: LimitOffsetPagination<u8> = LimitOffsetPagination::new(&Query::new(10, 0), &users_uri(), 25, vec![]);
    assert_eq!(page.next().as_deref(), Some("https://example.com/users?offset=10&limit=10"));
    assert_eq!(page.previous(), None);
}

#[test]
fn offset_equal_to_limit_has_no_previous_link() {
    let page: LimitOffsetPagination<u8> = LimitOffsetPagination::new(&Query::new(10, 10), &users_uri(), 25, vec![]);
    assert_eq!(page.previous(), None);
}

#[test]
fn offset_at_count_has_no_next_link() {
    let page: LimitOffsetPagination<u8> = LimitOffsetPagination::new(&Query::new(10, 25), &users_uri(), 25, vec![]);
    assert_eq!(page.next(), None);
    assert_eq!(page.previous().as_deref(), Some("https://example.com/users?offset=25&limit=10"));
}

#[test]
fn empty_store_has_no_links() {
    let page: LimitOffsetPagination<u8> = LimitOffsetPagination::new(&Query::new(10, 0), &users_uri(), 0, vec![]);
    assert_eq!(page.next(), None);
    assert_eq!(page.previous(), None);
}

#[test]
fn negative_limit_is_not_clamped() {
    let page: LimitOffsetPagination<u8> = LimitOffsetPagination::new(&Query::new(-5, 0), &users_uri(), 10, vec![]);
    assert_eq!(
        page.next().as_deref(),
        Some("https://example.com/users?offset=-5&limit=-5")
    );
    assert_eq!(page.previous().as_deref(), Some("https://example.com/users?offset=0&limit=-5"));
}

#[test]
fn page_parts_come_out_in_order() {
    let page = LimitOffsetPagination::new(&Query::new(2, 4), &users_uri(), 9, vec!['a', 'b']);
    let (limit, offset, count, next, previous, results) = page.into_parts();
    assert_eq!((limit, offset, count), (2, 4, 9));
    assert_eq!(next.as_deref(), Some("https://example.com/users?offset=6&limit=2"));
    assert_eq!(previous.as_deref(), Some("https://example.com/users?offset=4&limit=2"));
    assert_eq!(results, vec!['a', 'b']);
}

#[test]
fn default_query_uses_page_size() {
    let q = Query::default(&config(15), None);
    assert_eq!((q.limit, q.offset), (15, 0));
    let q = Query::default(&config(15), Some(Query::new(3, 9)));
    assert_eq!((q.limit, q.offset), (3, 9));
}

#[test]
fn find_window_follows_query() {
    let w = build_find_option(&Query::new(7, 14));
    assert_eq!((w.limit, w.skip), (7, 14));
}

#[test]
fn next_offset_past_u64_is_written_in_full() {
    let page: LimitOffsetPagination<u8> =
        LimitOffsetPagination::new(&Query::new(10, u64::MAX - 1), &users_uri(), u64::MAX, vec![]);
    assert_eq!(
        page.next().as_deref(),
        Some("https://example.com/users?offset=18446744073709551624&limit=10")
    );
}
