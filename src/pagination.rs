use vstd::prelude::*;
use vstd::string::StringExecFns;
use crate::config::Config;
use crate::text::{push_signed_decimal, signed_decimal};
use crate::uri::Uri;

verus! {

/// One page request: at most `limit` records, after skipping `offset` of them.
pub struct Query {
    pub limit: i64,
    pub offset: u64,
}

impl Query {
    pub fn new(limit: i64, offset: u64) -> (r: Query)
        ensures
            r.limit == limit,
            r.offset == offset,
    {
        Query { limit, offset }
    }

    /// The query given, or else a first page of the configured size.
    pub fn default(config: &Config, query: Option<Query>) -> (r: Query)
        ensures
            query is Some ==> r == query.unwrap(),
            query is None ==> r.limit == config.page_size && r.offset == 0,
    {
        match query {
            Some(q) => q,
            None => Query { limit: config.page_size, offset: 0 },
        }
    }
}

/// The window that a listing asks of the store.
pub struct FindWindow {
    pub limit: i64,
    pub skip: u64,
}

/// The store options that fetch the page a query asks for.
pub fn build_find_option(query: &Query) -> (r: FindWindow)
    ensures
        r.limit == query.limit,
        r.skip == query.offset,
{
    FindWindow { limit: query.limit, skip: query.offset }
}

/// `<uri>?offset=<offset>&limit=<limit>`.
pub open spec fn page_link(uri: Seq<char>, offset: int, limit: int) -> Seq<char> {
    uri + seq!['?', 'o', 'f', 'f', 's', 'e', 't', '='] + signed_decimal(offset)
        + seq!['&', 'l', 'i', 'm', 'i', 't', '='] + signed_decimal(limit)
}

/// The link to the next page: present exactly when `offset < count`, at
/// offset `offset + limit`.
pub open spec fn next_link(uri: Seq<char>, limit: i64, offset: u64, count: u64) -> Option<Seq<char>> {
    if offset < count {
        Some(page_link(uri, offset as int + limit as int, limit as int))
    } else {
        None
    }
}

/// The link to the previous page: present exactly when `offset > limit`, and it
/// repeats the current offset.
pub open spec fn previous_link(uri: Seq<char>, limit: i64, offset: u64) -> Option<Seq<char>> {
    if offset as int > limit as int {
        Some(page_link(uri, offset as int, limit as int))
    } else {
        None
    }
}

/// A page has a next link exactly when its offset is below the count, and a
/// previous link exactly when its offset is above its limit.
pub proof fn lemma_link_presence(uri: Seq<char>, limit: i64, offset: u64, count: u64)
    ensures
        next_link(uri, limit, offset, count) is Some <==> offset < count,
        previous_link(uri, limit, offset) is Some <==> offset as int > limit as int,
{
}

/// The view of an optional string.
pub open spec fn opt_view(s: Option<String>) -> Option<Seq<char>> {
    match s {
        Some(t) => Some(t@),
        None => None,
    }
}

fn format_link(uri: &Uri, offset: i128, limit: i64) -> (r: String)
    requires
        uri.has_host(),
    ensures
        r@ == page_link(uri.spec_text(), offset as int, limit as int),
{
    proof {
        reveal_strlit("?offset=");
        reveal_strlit("&limit=");
    }
    let mut s = uri.to_string();
    s.append("?offset=");
    push_signed_decimal(&mut s, offset);
    s.append("&limit=");
    push_signed_decimal(&mut s, limit as i128);
    assert(s@ =~= page_link(uri.spec_text(), offset as int, limit as int));
    s
}

/// A page of results with its place in the whole listing.
pub struct LimitOffsetPagination<T> {
    limit: i64,
    offset: u64,
    count: u64,
    next: Option<String>,
    previous: Option<String>,
    results: Vec<T>,
}

impl<T> LimitOffsetPagination<T> {
    pub closed spec fn spec_limit(&self) -> i64 {
        self.limit
    }

    pub closed spec fn spec_offset(&self) -> u64 {
        self.offset
    }

    pub closed spec fn spec_count(&self) -> u64 {
        self.count
    }

    pub closed spec fn spec_next(&self) -> Option<Seq<char>> {
        opt_view(self.next)
    }

    pub closed spec fn spec_previous(&self) -> Option<Seq<char>> {
        opt_view(self.previous)
    }

    pub closed spec fn spec_results(&self) -> Seq<T> {
        self.results@
    }

    /// The link to the page after this one, if there is one.
    pub fn get_next_uri(&self, uri: &Uri) -> (r: Option<String>)
        requires
            uri.has_host(),
        ensures
            opt_view(r) == next_link(uri.spec_text(), self.spec_limit(), self.spec_offset(), self.spec_count()),
    {
        if self.offset < self.count {
            let offset: i128 = self.offset as i128 + self.limit as i128;
            Some(format_link(uri, offset, self.limit))
        } else {
            None
        }
    }

    /// The link to the page before this one, if there is one.
    pub fn get_previous_uri(&self, uri: &Uri) -> (r: Option<String>)
        requires
            uri.has_host(),
        ensures
            opt_view(r) == previous_link(uri.spec_text(), self.spec_limit(), self.spec_offset()),
    {
        if self.limit < 0 || self.offset > self.limit as u64 {
            Some(format_link(uri, self.offset as i128, self.limit))
        } else {
            None
        }
    }

    /// Builds the page for `query`, given the total count and the records found.
    pub fn new(query: &Query, uri: &Uri, count: u64, results: Vec<T>) -> (r: Self)
        requires
            uri.has_host(),
        ensures
            r.spec_limit() == query.limit,
            r.spec_offset() == query.offset,
            r.spec_count() == count,
            r.spec_results() == results@,
            r.spec_next() == next_link(uri.spec_text(), query.limit, query.offset, count),
            r.spec_previous() == previous_link(uri.spec_text(), query.limit, query.offset),
    {
        let mut result = LimitOffsetPagination {
            limit: query.limit,
            offset: query.offset,
            count,
            next: None,
            previous: None,
            results,
        };
        result.next = result.get_next_uri(uri);
        result.previous = result.get_previous_uri(uri);
        result
    }

    pub fn limit(&self) -> (r: i64)
        ensures
            r == self.spec_limit(),
    {
        self.limit
    }

    pub fn offset(&self) -> (r: u64)
        ensures
            r == self.spec_offset(),
    {
        self.offset
    }

    pub fn count(&self) -> (r: u64)
        ensures
            r == self.spec_count(),
    {
        self.count
    }

    pub fn next(&self) -> (r: Option<String>)
        ensures
            opt_view(r) == self.spec_next(),
    {
        match &self.next {
            Some(s) => Some(s.clone()),
            None => None,
        }
    }

    pub fn previous(&self) -> (r: Option<String>)
        ensures
            opt_view(r) == self.spec_previous(),
    {
        match &self.previous {
            Some(s) => Some(s.clone()),
            None => None,
        }
    }

    pub fn results(&self) -> (r: &Vec<T>)
        ensures
            r@ == self.spec_results(),
    {
        &self.results
    }

    /// Takes the page apart into its fields, in declaration order.
    pub fn into_parts(self) -> (r: (i64, u64, u64, Option<String>, Option<String>, Vec<T>))
        ensures
            r.0 == self.spec_limit(),
            r.1 == self.spec_offset(),
            r.2 == self.spec_count(),
            opt_view(r.3) == self.spec_next(),
            opt_view(r.4) == self.spec_previous(),
            r.5@ == self.spec_results(),
    {
        (self.limit, self.offset, self.count, self.next, self.previous, self.results)
    }
}

} // verus!
