//! Requests to the API, and the values that go into them.
use vstd::prelude::*;
use vstd::string::StringExecFns;

use crate::errors::CliError;
use crate::ids::{
    no_id_message, normalize_notion_id, normalized_id, normalizing_twice_changes_nothing,
};
use crate::json::{Json, JsonView};
use crate::text::{decimal, decimal_string, view_of};

verus! {

/// The HTTP methods that the API uses.
#[derive(Debug, Clone, Copy, PartialEq, Eq, Structural)]
pub enum Method {
    Get,
    Post,
    Patch,
    Delete,
}

/// A request to the API, without what every request has in common.
#[derive(Debug)]
pub struct ApiRequest {
    pub method: Method,
    pub path: String,
    pub query: Option<Vec<(String, String)>>,
    pub body: Option<Json>,
}

/// What a request asks for.
#[verifier::ext_equal]
pub struct RequestView {
    pub method: Method,
    pub path: Seq<char>,
    pub query: Option<Seq<(Seq<char>, Seq<char>)>>,
    pub body: Option<JsonView>,
}

/// The parameters of a query string.
pub open spec fn pairs_view(pairs: Seq<(String, String)>) -> Seq<(Seq<char>, Seq<char>)> {
    pairs.map_values(|p: (String, String)| (p.0@, p.1@))
}

impl View for ApiRequest {
    type V = RequestView;

    open spec fn view(&self) -> RequestView {
        RequestView {
            method: self.method,
            path: self.path@,
            query: match self.query {
                Some(pairs) => Some(pairs_view(pairs@)),
                None => None,
            },
            body: match self.body {
                Some(body) => Some(body@),
                None => None,
            },
        }
    }
}

impl ApiRequest {
    /// A request with neither parameters nor a body.
    pub fn plain(method: Method, path: &str) -> (r: ApiRequest)
        ensures
            r@ == plain_request(method, path@),
    {
        ApiRequest { method, path: path.to_owned(), query: None, body: None }
    }

    /// A request with a body.
    pub fn with_body(method: Method, path: &str, body: Json) -> (r: ApiRequest)
        ensures
            r@ == body_request(method, path@, body@),
    {
        ApiRequest { method, path: path.to_owned(), query: None, body: Some(body) }
    }

    /// A request for something, with parameters.
    pub fn with_query(path: &str, query: Vec<(String, String)>) -> (r: ApiRequest)
        ensures
            r@ == query_request(path@, pairs_view(query@)),
    {
        ApiRequest { method: Method::Get, path: path.to_owned(), query: Some(query), body: None }
    }
}

/// A request with neither parameters nor a body.
pub open spec fn plain_request(method: Method, path: Seq<char>) -> RequestView {
    RequestView { method, path, query: None, body: None }
}

/// A request with a body.
pub open spec fn body_request(method: Method, path: Seq<char>, body: JsonView) -> RequestView {
    RequestView { method, path, query: None, body: Some(body) }
}

/// A request for something, with parameters.
pub open spec fn query_request(path: Seq<char>, query: Seq<(Seq<char>, Seq<char>)>) -> RequestView {
    RequestView { method: Method::Get, path, query: Some(query), body: None }
}

/// A request or the message of the failure, as text.
pub open spec fn outcome(r: Result<ApiRequest, CliError>) -> Result<RequestView, Seq<char>> {
    match r {
        Ok(request) => Ok(request@),
        Err(e) => Err(e@),
    }
}

/// The request that `make` gives for the id in `raw`, or what the user is told where there is none.
pub open spec fn for_id(
    raw: Seq<char>,
    make: spec_fn(Seq<char>) -> RequestView,
) -> Result<RequestView, Seq<char>> {
    match normalized_id(raw) {
        Some(id) => Ok(make(id)),
        None => Err(no_id_message(raw)),
    }
}

/// The path of the object whose id is in `raw`, under `prefix`.
pub fn id_path(prefix: &str, raw: &str) -> (r: Result<String, CliError>)
    ensures
        match r {
            Ok(path) => normalized_id(raw@) matches Some(id) && path@ == prefix@ + id,
            Err(e) => normalized_id(raw@) is None && e@ == no_id_message(raw@),
        },
{
    match normalize_notion_id(raw) {
        Ok(id) => {
            let mut path = prefix.to_owned();
            path.append(id.as_str());
            Ok(path)
        },
        Err(e) => Err(e),
    }
}

/// The parameters that ask for one page of a list.
pub open spec fn paging(page_size: Option<usize>, cursor: Option<Seq<char>>) -> Seq<
    (Seq<char>, Seq<char>),
> {
    let size = match page_size {
        Some(n) => seq![("page_size"@, decimal(n as nat))],
        None => Seq::empty(),
    };
    let start = match cursor {
        Some(c) => seq![("start_cursor"@, c)],
        None => Seq::empty(),
    };
    size + start
}

/// Adds one parameter.
pub fn push_pair(query: &mut Vec<(String, String)>, name: &str, value: &str)
    ensures
        pairs_view(final(query)@) == pairs_view(old(query)@).push((name@, value@)),
{
    query.push((name.to_owned(), value.to_owned()));
    assert(pairs_view(query@) =~= pairs_view(old(query)@).push((name@, value@)));
}

/// Adds the parameters that ask for one page of a list.
pub fn push_paging(
    query: &mut Vec<(String, String)>,
    page_size: Option<usize>,
    cursor: Option<String>,
)
    ensures
        pairs_view(final(query)@) == pairs_view(old(query)@) + paging(page_size, view_of(cursor)),
{
    if let Some(n) = page_size {
        push_pair(query, "page_size", decimal_string(n as u64).as_str());
    }
    if let Some(c) = cursor {
        push_pair(query, "start_cursor", c.as_str());
    }
    assert(pairs_view(query@) =~= pairs_view(old(query)@) + paging(page_size, view_of(cursor)));
}

/// Asking by URL, or by an id in any of its forms, is asking by the id itself.
pub proof fn urls_and_ids_ask_for_the_same(
    raw: Seq<char>,
    make: spec_fn(Seq<char>) -> RequestView,
)
    ensures
        normalized_id(raw) matches Some(id) ==> for_id(raw, make) == for_id(id, make),
{
    normalizing_twice_changes_nothing(raw);
}

/// The size of a page and the place where it starts are passed on as they are given, and nothing is
/// where they are not.
pub proof fn paging_is_passed_on(size: usize, cursor: Seq<char>)
    ensures
        paging(Some(size), Some(cursor)) == seq![
            ("page_size"@, decimal(size as nat)),
            ("start_cursor"@, cursor),
        ],
        paging(Some(size), None) == seq![("page_size"@, decimal(size as nat))],
        paging(None, Some(cursor)) == seq![("start_cursor"@, cursor)],
        paging(None, None) == Seq::<(Seq<char>, Seq<char>)>::empty(),
{
    assert(paging(Some(size), Some(cursor)) =~= seq![
        ("page_size"@, decimal(size as nat)),
        ("start_cursor"@, cursor),
    ]);
    assert(paging(Some(size), None) =~= seq![("page_size"@, decimal(size as nat))]);
    assert(paging(None, Some(cursor)) =~= seq![("start_cursor"@, cursor)]);
    assert(paging(None, None) =~= Seq::<(Seq<char>, Seq<char>)>::empty());
}

} // verus!
