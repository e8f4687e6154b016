//! Requests as values: what the client hands to a transport to send.

use crate::mc::playlist::PlaylistItem;
use crate::mc::util::Codec;
use crate::text::{decimal, decimal_string, opt_view, pairs_view};
use std::collections::HashMap;
use vstd::prelude::*;
use vstd::string::*;

verus! {

/// The HTTP method of a request.
#[derive(Clone, Copy, Debug, PartialEq, Eq, Structural)]
pub enum Method {
    Get,
    Post,
}

/// A member of a JSON answer that holds what a request asks for.
#[derive(Clone, Copy, Debug, PartialEq, Eq)]
pub struct Field {
    /// The key of the member.
    pub key: &'static str,
    /// What to call the thing where the answer lacks it.
    pub item: &'static str,
}

/// A [`Field`] as a mathematical value.
pub ghost struct FieldView {
    pub key: Seq<char>,
    pub item: Seq<char>,
}

impl View for Field {
    type V = FieldView;

    open spec fn view(&self) -> FieldView {
        FieldView { key: self.key@, item: self.item@ }
    }
}

/// How the answer to a request is to be taken.
#[derive(Clone, Copy, Debug, PartialEq, Eq)]
pub enum Expect {
    /// The body is a JSON document, and is what was asked for.
    Json,
    /// The body is a JSON object that holds what was asked for in a member.
    Member(Field),
    /// The body is a JSON object that holds what was asked for in two
    /// members.
    Members(Field, Field),
    /// The body is ignored.
    Nothing,
    /// The body is handed on as a stream of bytes.
    Bytes,
}

/// An [`Expect`] as a mathematical value.
pub ghost enum ExpectView {
    Json,
    Member(FieldView),
    Members(FieldView, FieldView),
    Nothing,
    Bytes,
}

impl View for Expect {
    type V = ExpectView;

    open spec fn view(&self) -> ExpectView {
        match *self {
            Expect::Json => ExpectView::Json,
            Expect::Member(f) => ExpectView::Member(f@),
            Expect::Members(f, g) => ExpectView::Members(f@, g@),
            Expect::Nothing => ExpectView::Nothing,
            Expect::Bytes => ExpectView::Bytes,
        }
    }
}

/// The member of an answer with the given key, called by the given name where
/// it is missing.
pub open spec fn member(key: Seq<char>, item: Seq<char>) -> ExpectView {
    ExpectView::Member(FieldView { key, item })
}

/// One request, ready to send: the method, the address, the headers and the
/// query parameters, each list in the order in which it is to be applied.
#[derive(Clone, Debug, PartialEq, Eq)]
pub struct Request {
    pub method: Method,
    pub url: String,
    pub headers: Vec<(String, String)>,
    pub queries: Vec<(String, String)>,
    pub expect: Expect,
}

/// A [`Request`] as a mathematical value.
pub ghost struct RequestView {
    pub method: Method,
    pub url: Seq<char>,
    pub headers: Seq<(Seq<char>, Seq<char>)>,
    pub queries: Seq<(Seq<char>, Seq<char>)>,
    pub expect: ExpectView,
}

impl View for Request {
    type V = RequestView;

    open spec fn view(&self) -> RequestView {
        RequestView {
            method: self.method,
            url: self.url@,
            headers: pairs_view(self.headers@),
            queries: pairs_view(self.queries@),
            expect: self.expect@,
        }
    }
}

/// A POST request with the value that its body carries, if it has one.
#[derive(Debug)]
pub struct Post<B> {
    pub request: Request,
    pub data: Option<B>,
}

/// The headers that every request of a client carries.
pub open spec fn standard_headers(user_agent: Seq<char>) -> Seq<(Seq<char>, Seq<char>)> {
    seq![("User-Agent"@, user_agent), ("Accept"@, "application/json"@)]
}

/// Whether no key occurs twice in a list of query parameters.
pub open spec fn distinct_keys(queries: Seq<(Seq<char>, Seq<char>)>) -> bool {
    forall|i: int, j: int|
        0 <= i < j < queries.len() ==> (#[trigger] queries[i]).0 != (#[trigger] queries[j]).0
}

/// What narrows or orders the answer to a request.
#[derive(Clone, Debug, PartialEq)]
pub struct RequestParameters {
    pub filters: Option<HashMap<String, String>>,
    pub codec: Option<Codec>,
    pub search: Option<String>,
    pub sort: Option<String>,
    pub creator_friendly: Option<bool>,
    pub no_gold: Option<bool>,
    pub pagination: Option<PaginationParameters>,
}

/// [`RequestParameters`] as a mathematical value, but for the filters.
pub ghost struct RequestParametersView {
    pub codec: Option<Codec>,
    pub search: Option<Seq<char>>,
    pub sort: Option<Seq<char>>,
    pub creator_friendly: Option<bool>,
    pub no_gold: Option<bool>,
    pub pagination: Option<PaginationParameters>,
}

impl View for RequestParameters {
    type V = RequestParametersView;

    open spec fn view(&self) -> RequestParametersView {
        RequestParametersView {
            codec: self.codec,
            search: opt_view(self.search),
            sort: opt_view(self.sort),
            creator_friendly: self.creator_friendly,
            no_gold: self.no_gold,
            pagination: self.pagination,
        }
    }
}

impl RequestParametersView {
    /// Parameters that ask for nothing.
    pub open spec fn none() -> RequestParametersView {
        RequestParametersView {
            codec: None,
            search: None,
            sort: None,
            creator_friendly: None,
            no_gold: None,
            pagination: None,
        }
    }

    /// The query parameters that stand for these parameters: the codec as
    /// `format`, the search term as `search`, the order as `sort`, then the
    /// pagination; each only where it is set.
    pub open spec fn queries(self) -> Seq<(Seq<char>, Seq<char>)> {
        (match self.codec {
            Some(codec) => seq![("format"@, codec.text())],
            None => seq![],
        }) + (match self.search {
            Some(term) => seq![("search"@, term)],
            None => seq![],
        }) + (match self.sort {
            Some(order) => seq![("sort"@, order)],
            None => seq![],
        }) + (match self.pagination {
            Some(pagination) => pagination.spec_queries(),
            None => seq![],
        })
    }
}

/// No key occurs twice in the query parameters of any request parameters.
pub proof fn lemma_queries_distinct(parameters: RequestParametersView)
    ensures
        distinct_keys(parameters.queries()),
{
    reveal_strlit("format");
    reveal_strlit("search");
    reveal_strlit("sort");
    reveal_strlit("limit");
    reveal_strlit("offset");
    let q = parameters.queries();
    assert forall|i: int, j: int| 0 <= i < j < q.len() implies (#[trigger] q[i]).0 != (
    #[trigger] q[j]).0 by {
        let a = "format"@;
        let b = "search"@;
        let c = "sort"@;
        let d = "limit"@;
        let e = "offset"@;
        assert(a.len() == 6 && b.len() == 6 && c.len() == 4 && d.len() == 5 && e.len() == 6);
        assert(a[0] == 'f' && b[0] == 's' && e[0] == 'o');
    }
}

impl Default for RequestParameters {
    /// Parameters that ask for the first three items.
    fn default() -> (parameters: RequestParameters)
        ensures
            parameters.filters is None,
            parameters@ == (RequestParametersView {
                pagination: Some(PaginationParameters { limit: 3, offset: 0 }),
                ..RequestParametersView::none()
            }),
    {
        RequestParameters {
            filters: None,
            codec: None,
            search: None,
            sort: None,
            creator_friendly: None,
            no_gold: None,
            pagination: Some(PaginationParameters::default()),
        }
    }
}

impl RequestParameters {
    /// Parameters that ask for one page.
    pub fn from_pagination(pagination: PaginationParameters) -> (parameters: RequestParameters)
        ensures
            parameters.filters is None,
            parameters@ == (RequestParametersView {
                pagination: Some(pagination),
                ..RequestParametersView::none()
            }),
    {
        RequestParameters {
            filters: None,
            codec: None,
            search: None,
            sort: None,
            creator_friendly: None,
            no_gold: None,
            pagination: Some(pagination),
        }
    }

    /// Parameters that search for a term, and ask for the first three items
    /// found.
    pub fn from_search(search_term: String) -> (parameters: RequestParameters)
        ensures
            parameters.filters is None,
            parameters@ == (RequestParametersView {
                search: Some(search_term@),
                pagination: Some(PaginationParameters { limit: 3, offset: 0 }),
                ..RequestParametersView::none()
            }),
    {
        RequestParameters {
            filters: None,
            codec: None,
            search: Some(search_term),
            sort: None,
            creator_friendly: None,
            no_gold: None,
            pagination: Some(PaginationParameters::default()),
        }
    }

    /// Parameters that ask for an audio codec.
    pub fn from_codec(codec: Codec) -> (parameters: RequestParameters)
        ensures
            parameters.filters is None,
            parameters@ == (RequestParametersView {
                codec: Some(codec),
                ..RequestParametersView::none()
            }),
    {
        RequestParameters {
            filters: None,
            codec: Some(codec),
            search: None,
            sort: None,
            creator_friendly: None,
            no_gold: None,
            pagination: None,
        }
    }

    /// The same parameters, asking for the given page.
    pub fn set_pagination(self, pagination: PaginationParameters) -> (parameters:
        RequestParameters)
        ensures
            parameters.filters == self.filters,
            parameters@ == (RequestParametersView { pagination: Some(pagination), ..self@ }),
    {
        let mut parameters = self;
        parameters.pagination = Some(pagination);
        parameters
    }

    /// The same parameters, searching for the given term.
    pub fn set_search(self, search_term: String) -> (parameters: RequestParameters)
        ensures
            parameters.filters == self.filters,
            parameters@ == (RequestParametersView { search: Some(search_term@), ..self@ }),
    {
        let mut parameters = self;
        parameters.search = Some(search_term);
        parameters
    }

    /// The query parameters that stand for these parameters, no key twice.
    pub fn into_queries(self) -> (queries: Vec<(String, String)>)
        ensures
            pairs_view(queries@) == self@.queries(),
            distinct_keys(pairs_view(queries@)),
    {
        let mut queries: Vec<(String, String)> = Vec::new();
        assert(pairs_view(queries@) =~= Seq::empty());
        if let Some(format) = self.codec {
            queries.push((String::from_str("format"), format.to_string()));
        }
        let ghost first = pairs_view(queries@);
        assert(first =~= match self@.codec {
            Some(codec) => seq![("format"@, codec.text())],
            None => seq![],
        });
        if let Some(search) = self.search {
            queries.push((String::from_str("search"), search));
        }
        let ghost second = pairs_view(queries@);
        assert(second =~= first + match self@.search {
            Some(term) => seq![("search"@, term)],
            None => seq![],
        });
        if let Some(sort) = self.sort {
            queries.push((String::from_str("sort"), sort));
        }
        let ghost third = pairs_view(queries@);
        assert(third =~= second + match self@.sort {
            Some(order) => seq![("sort"@, order)],
            None => seq![],
        });
        if let Some(pagination) = self.pagination {
            let mut pagination_queries = pagination.into_queries();
            let ghost before = queries@;
            let ghost added = pagination_queries@;
            queries.append(&mut pagination_queries);
            assert(pairs_view(before + added) =~= pairs_view(before) + pairs_view(added));
        }
        assert(pairs_view(queries@) =~= third + match self@.pagination {
            Some(pagination) => pagination.spec_queries(),
            None => seq![],
        });
        proof {
            lemma_queries_distinct(self@);
        }
        queries
    }
}

/// The page of an answer that a request asks for.
#[derive(Clone, Copy, Debug, PartialEq, Eq, Structural)]
pub struct PaginationParameters {
    pub limit: usize,
    pub offset: usize,
}

impl Default for PaginationParameters {
    /// The first three items: few enough to be no burden to the service.
    fn default() -> (pagination: PaginationParameters)
        ensures
            pagination == (PaginationParameters { limit: 3, offset: 0 }),
    {
        PaginationParameters { limit: 3, offset: 0 }
    }
}

impl PaginationParameters {
    /// The query parameters that stand for the page: `limit` and `offset`,
    /// each in decimal.
    pub open spec fn spec_queries(self) -> Seq<(Seq<char>, Seq<char>)> {
        seq![("limit"@, decimal(self.limit as nat)), ("offset"@, decimal(self.offset as nat))]
    }

    /// The query parameters that stand for the page.
    pub fn into_queries(self) -> (queries: Vec<(String, String)>)
        ensures
            pairs_view(queries@) == self.spec_queries(),
    {
        let mut queries: Vec<(String, String)> = Vec::new();
        queries.push((String::from_str("limit"), decimal_string(self.limit)));
        queries.push((String::from_str("offset"), decimal_string(self.offset)));
        assert(pairs_view(queries@) =~= self.spec_queries());
        queries
    }
}

/// What can be done to one item of a playlist.
#[derive(Clone, Copy, Debug, PartialEq, Eq, Structural)]
pub enum PlaylistItemOperations {
    Add,
    Remove,
    Up,
    Down,
    To,
}

impl PlaylistItemOperations {
    /// The word by which the service knows the operation.
    pub open spec fn text(self) -> Seq<char> {
        match self {
            PlaylistItemOperations::Add => "add"@,
            PlaylistItemOperations::Remove => "remove"@,
            PlaylistItemOperations::Up => "up"@,
            PlaylistItemOperations::Down => "down"@,
            PlaylistItemOperations::To => "to"@,
        }
    }

    /// The word by which the service knows the operation.
    pub fn to_string(&self) -> (s: String)
        ensures
            s@ == self.text(),
    {
        match self {
            PlaylistItemOperations::Add => String::from_str("add"),
            PlaylistItemOperations::Remove => String::from_str("remove"),
            PlaylistItemOperations::Up => String::from_str("up"),
            PlaylistItemOperations::Down => String::from_str("down"),
            PlaylistItemOperations::To => String::from_str("to"),
        }
    }

    /// The query parameter that stands for the operation: its word as `type`.
    pub fn into_queries(self) -> (queries: Vec<(String, String)>)
        ensures
            pairs_view(queries@) == seq![("type"@, self.text())],
    {
        let mut queries: Vec<(String, String)> = Vec::new();
        queries.push((String::from_str("type"), self.to_string()));
        assert(pairs_view(queries@) =~= seq![("type"@, self.text())]);
        queries
    }
}

/// What can be done to several items of a playlist at once.
#[derive(Clone, Copy, Debug, PartialEq, Eq, Structural)]
pub enum PlaylistItemsOperations {
    Add,
    Remove,
}

impl PlaylistItemsOperations {
    /// The word by which the service knows the operation.
    pub open spec fn text(self) -> Seq<char> {
        match self {
            PlaylistItemsOperations::Add => "add"@,
            PlaylistItemsOperations::Remove => "remove"@,
        }
    }

    /// The word by which the service knows the operation.
    pub fn to_string(&self) -> (s: String)
        ensures
            s@ == self.text(),
    {
        match self {
            PlaylistItemsOperations::Add => String::from_str("add"),
            PlaylistItemsOperations::Remove => String::from_str("remove"),
        }
    }

    /// The query parameter that stands for the operation: its word as `type`.
    pub fn into_queries(self) -> (queries: Vec<(String, String)>)
        ensures
            pairs_view(queries@) == seq![("type"@, self.text())],
    {
        let mut queries: Vec<(String, String)> = Vec::new();
        queries.push((String::from_str("type"), self.to_string()));
        assert(pairs_view(queries@) =~= seq![("type"@, self.text())]);
        queries
    }
}

/// The change of one item of a playlist.
#[derive(Clone, Debug, PartialEq)]
pub struct PlaylistItemMod {
    pub move_to: Option<u32>,
    pub record: PlaylistItem,
}

/// The change of several items of a playlist.
#[derive(Clone, Debug, PartialEq)]
pub struct PlaylistItemsMod {
    pub records: Vec<PlaylistItem>,
}

} // verus!
