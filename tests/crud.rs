use dexie::crud::{counted, create_one, get_all, get_one, update_one, WriteStep};
use dexie::error::{DexieError, Error, StoreError};
use dexie::pagination::Query;
use dexie::relation::Batch;
use dexie::uri::Uri;

#[test]
fn get_one_returns_the_match() {
    assert!(matches!(get_one::<u32, &str>(Ok(Some(7))), Ok(7)));
}

#[test]
fn get_one_without_match_is_not_found() {
    let r = get_one::<u32, &str>(Ok(None));
    assert!(matches!(r, Err(StoreError::NotFound)));
    assert_eq!(r.err().map(|e| e.status()), Some(404));
}

#[test]
fn get_one_passes_store_failure_on() {
    assert!(matches!(get_one::<u32, &str>(Err("down")), Err(StoreError::Upstream("down"))));
}

#[test]
fn create_without_identifier_is_no_content() {
    let step = create_one::<u32, &str>(Ok(None));
    assert!(matches!(step, WriteStep::Fail(StoreError::NoContent)));
    if let WriteStep::Fail(e) = step {
        assert_eq!(e.status(), 304);
    }
}

#[test]
fn create_reads_back_new_identifier() {
    assert!(matches!(create_one::<u32, &str>(Ok(Some(99))), WriteStep::ReadBack(99)));
    assert!(matches!(create_one::<u32, &str>(Err("x")), WriteStep::Fail(StoreError::Upstream("x"))));
}

#[test]
fn create_then_get_one_agree() {
    let created = match create_one::<u32, &str>(Ok(Some(5))) {
        WriteStep::ReadBack(_) => get_one::<&str, &str>(Ok(Some("stored"))),
        WriteStep::Fail(e) => Err(e),
    };
    let fetched = get_one::<&str, &str>(Ok(Some("stored")));
    assert!(matches!((created, fetched), (Ok("stored"), Ok("stored"))));
}

#[test]
fn update_reads_back_only_upserts() {
    assert!(matches!(update_one::<u32, &str>(Ok(Some(Some(4)))), WriteStep::ReadBack(4)));
    assert!(matches!(update_one::<u32, &str>(Ok(Some(None))), WriteStep::Fail(StoreError::NoContent)));
    assert!(matches!(update_one::<u32, &str>(Ok(None)), WriteStep::Fail(StoreError::NoContent)));
    assert!(matches!(update_one::<u32, &str>(Err("e")), WriteStep::Fail(StoreError::Upstream("e"))));
}

#[test]
fn count_failure_is_upstream() {
    assert!(matches!(counted::<&str>(Ok(25)), Ok(25)));
    let r = counted::<&str>(Err("count"));
    assert!(matches!(r, Err(StoreError::Upstream("count"))));
    assert_eq!(r.err().map(|e| e.status()), Some(500));
}

#[test]
fn get_all_builds_page() {
    let uri = Uri::resolve(String::from("/notes"), Some(String::from("h.io")), "x");
    let page = get_all::<u8, &str>(&Query::new(2, 0), &uri, 3, Ok(vec![1, 2])).ok().unwrap();
    assert_eq!(page.next().as_deref(), Some("https://h.io/notes?offset=2&limit=2"));
    assert_eq!(page.previous(), None);
    assert_eq!(page.results(), &vec![1, 2]);
    let failed = get_all::<u8, &str>(&Query::new(2, 0), &uri, 3, Err("stream"));
    assert!(matches!(failed, Err(StoreError::Upstream("stream"))));
}

#[test]
fn batch_keeps_cursor_order() {
    let mut batch: Batch<u32, &str> = Batch::new();
    assert!(batch.push(Ok(3)).is_none());
    assert!(batch.push(Ok(1)).is_none());
    assert!(batch.push(Ok(2)).is_none());
    assert_eq!(batch.finish(), vec![3, 1, 2]);
}

#[test]
fn batch_stops_at_first_failure() {
    let mut batch: Batch<u32, &str> = Batch::new();
    assert!(batch.push(Ok(3)).is_none());
    assert!(matches!(batch.push(Err("bad relation")), Some(StoreError::Upstream("bad relation"))));
}

#[test]
fn empty_batch_is_empty() {
    let batch: Batch<u32, &str> = Batch::new();
    assert!(batch.finish().is_empty());
}

#[test]
fn error_body_is_empty_marker() {
    assert!(Error::custom() == Error {});
    assert!(DexieError::NoContent != DexieError::ParseError);
}
