use vstd::prelude::*;
use crate::error::StoreError;
use crate::pagination::{next_link, previous_link, LimitOffsetPagination, Query};
use crate::uri::Uri;

verus! {

/// What a lookup by filter gives, from the store's answer: the record found,
/// `NotFound` when nothing matched, or the store's own failure.
pub open spec fn lookup_outcome<T, E>(found: Result<Option<T>, E>) -> Result<T, StoreError<E>> {
    match found {
        Ok(Some(t)) => Ok(t),
        Ok(None) => Err(StoreError::NotFound),
        Err(e) => Err(StoreError::Upstream(e)),
    }
}

/// The next move of a write: read the written record back by its identifier,
/// or end with the failure given.
pub enum WriteStep<I, E> {
    ReadBack(I),
    Fail(StoreError<E>),
}

/// The next move after an insertion.
pub open spec fn create_step<I, E>(inserted: Result<Option<I>, E>) -> WriteStep<I, E> {
    match inserted {
        Ok(Some(id)) => WriteStep::ReadBack(id),
        Ok(None) => WriteStep::Fail(StoreError::NoContent),
        Err(e) => WriteStep::Fail(StoreError::Upstream(e)),
    }
}

/// The next move after an update: only an upsert is read back.
pub open spec fn update_step<I, E>(updated: Result<Option<Option<I>>, E>) -> WriteStep<I, E> {
    match updated {
        Ok(Some(Some(id))) => WriteStep::ReadBack(id),
        Ok(Some(None)) => WriteStep::Fail(StoreError::NoContent),
        Ok(None) => WriteStep::Fail(StoreError::NoContent),
        Err(e) => WriteStep::Fail(StoreError::Upstream(e)),
    }
}

/// What a write returns: the failure of its step, or else the outcome of
/// reading the written record back.
pub open spec fn write_outcome<I, T, E>(step: WriteStep<I, E>, read_back: Result<Option<T>, E>) -> Result<T, StoreError<E>> {
    match step {
        WriteStep::ReadBack(_) => lookup_outcome(read_back),
        WriteStep::Fail(e) => Err(e),
    }
}

/// Decides a lookup of one record (by filter, or by identifier) from the
/// store's answer to `find_one`.
pub fn get_one<T, E>(found: Result<Option<T>, E>) -> (r: Result<T, StoreError<E>>)
    ensures
        r == lookup_outcome(found),
{
    match found {
        Ok(Some(t)) => Ok(t),
        Ok(None) => Err(StoreError::NotFound),
        Err(e) => Err(StoreError::Upstream(e)),
    }
}

/// Decides the first step of a listing from the store's count of the
/// matching documents.
pub fn counted<E>(count: Result<u64, E>) -> (r: Result<u64, StoreError<E>>)
    ensures
        count is Ok ==> r == Ok::<u64, StoreError<E>>(count->Ok_0),
        count is Err ==> r == Err::<u64, StoreError<E>>(StoreError::Upstream(count->Err_0)),
{
    match count {
        Ok(c) => Ok(c),
        Err(e) => Err(StoreError::Upstream(e)),
    }
}

/// Builds the page of a listing from the total count and the records that
/// the window of `query` streamed, or passes on the store's failure.
pub fn get_all<T, E>(query: &Query, uri: &Uri, count: u64, listed: Result<Vec<T>, E>) -> (r: Result<
    LimitOffsetPagination<T>,
    StoreError<E>,
>)
    requires
        uri.has_host(),
    ensures
        listed is Err ==> r is Err && r->Err_0 == StoreError::<E>::Upstream(listed->Err_0),
        listed is Ok ==> r is Ok && ({
            let page = r->Ok_0;
            &&& page.spec_limit() == query.limit
            &&& page.spec_offset() == query.offset
            &&& page.spec_count() == count
            &&& page.spec_results() == listed->Ok_0@
            &&& page.spec_next() == next_link(uri.spec_text(), query.limit, query.offset, count)
            &&& page.spec_previous() == previous_link(uri.spec_text(), query.limit, query.offset)
        }),
{
    match listed {
        Ok(results) => Ok(LimitOffsetPagination::new(query, uri, count, results)),
        Err(e) => Err(StoreError::Upstream(e)),
    }
}

/// Decides what follows an insertion, from the store's answer: the
/// identifier it generated, if it is one that records are keyed by.
pub fn create_one<I, E>(inserted: Result<Option<I>, E>) -> (r: WriteStep<I, E>)
    ensures
        r == create_step(inserted),
{
    match inserted {
        Ok(Some(id)) => WriteStep::ReadBack(id),
        Ok(None) => WriteStep::Fail(StoreError::NoContent),
        Err(e) => WriteStep::Fail(StoreError::Upstream(e)),
    }
}

/// Decides what follows an update, from the store's answer: whether it
/// upserted a document, and if so whether its identifier is one that
/// records are keyed by. A plain update reports `NoContent`.
pub fn update_one<I, E>(updated: Result<Option<Option<I>>, E>) -> (r: WriteStep<I, E>)
    ensures
        r == update_step(updated),
{
    match updated {
        Ok(Some(Some(id))) => WriteStep::ReadBack(id),
        Ok(Some(None)) => WriteStep::Fail(StoreError::NoContent),
        Ok(None) => WriteStep::Fail(StoreError::NoContent),
        Err(e) => WriteStep::Fail(StoreError::Upstream(e)),
    }
}

/// A created record, as the create returns it, is exactly what `get_one`
/// gives when the store answers the lookup of the new identifier the same
/// way: the create never returns the caller's own value.
pub proof fn lemma_create_then_get_one<I, T, E>(inserted: Result<Option<I>, E>, read_back: Result<Option<T>, E>)
    ensures
        write_outcome(create_step(inserted), read_back) is Ok ==> lookup_outcome(read_back)
            == write_outcome(create_step(inserted), read_back),
{
}

/// A create whose insertion names no identifier ends in `NoContent`,
/// whatever the store would answer to a lookup.
pub proof fn lemma_create_without_id<I, T, E>(read_back: Result<Option<T>, E>)
    ensures
        write_outcome(create_step(Ok::<Option<I>, E>(None)), read_back) == Err::<T, StoreError<E>>(StoreError::NoContent),
{
}

} // verus!
