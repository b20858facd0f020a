//! Searching: pages of results are asked for one after another until there are enough.
use vstd::prelude::*;

use crate::client::{
    add_field, default_list_object, documents_view, number, number_view, object_of_two,
    text_document, text_view, with_field, ListResponse, ListView, NotionClient, SearchFilter,
};
use crate::json::{Json, JsonObject, JsonView};
use crate::request::{body_request, ApiRequest, Method, RequestView};
use crate::text::{decimal, view_of};
use crate::wire::{fields_of, is_object};

verus! {

/// The most results that one request may ask for.
pub const LARGEST_PAGE: usize = 100;

/// A search that is under way: what is looked for, and what was found so far.
#[derive(Debug)]
pub struct SearchRun {
    query: String,
    filter: SearchFilter,
    limit: usize,
    results: Vec<Json>,
    next_cursor: Option<String>,
    has_more: bool,
    object: String,
    list_type: Option<String>,
    extra: JsonObject,
}

/// What is looked for, and what was found so far.
#[verifier::ext_equal]
pub struct SearchView {
    pub query: Seq<char>,
    pub filter: SearchFilter,
    pub limit: nat,
    pub results: Seq<JsonView>,
    pub next_cursor: Option<Seq<char>>,
    pub has_more: bool,
    pub object: Seq<char>,
    pub list_type: Option<Seq<char>>,
    pub extra: Map<Seq<char>, JsonView>,
}

impl View for SearchRun {
    type V = SearchView;

    closed spec fn view(&self) -> SearchView {
        SearchView {
            query: self.query@,
            filter: self.filter,
            limit: self.limit as nat,
            results: documents_view(self.results@),
            next_cursor: view_of(self.next_cursor),
            has_more: self.has_more,
            object: self.object@,
            list_type: view_of(self.list_type),
            extra: self.extra@,
        }
    }
}

/// What a search does next.
#[derive(Debug)]
pub enum SearchStep {
    /// The request goes out; the page that comes back is handed to the run.
    Ask { request: ApiRequest, run: SearchRun },
    Done(ListResponse),
}

/// What a search does next.
pub enum SearchStepView {
    Ask { request: RequestView, run: SearchView },
    Done(ListView),
}

impl View for SearchStep {
    type V = SearchStepView;

    open spec fn view(&self) -> SearchStepView {
        match self {
            SearchStep::Ask { request, run } => SearchStepView::Ask {
                request: request@,
                run: run@,
            },
            SearchStep::Done(list) => SearchStepView::Done(list@),
        }
    }
}

/// A search that has not found anything yet.
pub open spec fn new_search(query: Seq<char>, filter: SearchFilter, limit: nat) -> SearchView {
    SearchView {
        query,
        filter,
        limit,
        results: Seq::empty(),
        next_cursor: None,
        has_more: false,
        object: "list"@,
        list_type: None,
        extra: Map::empty(),
    }
}

impl SearchView {
    /// The results that are still wanted, as many as one request may ask for.
    pub open spec fn page_size(self) -> int {
        let wanted = self.limit - self.results.len();
        if wanted < LARGEST_PAGE {
            wanted
        } else {
            LARGEST_PAGE as int
        }
    }

    /// What is sent to ask for the next page.
    pub open spec fn body(self) -> JsonView {
        let fields = map![
            "query"@ => JsonView::Text(self.query),
            "page_size"@ => number_view(self.page_size() as nat),
        ];
        let filtered = with_field(
            fields,
            "filter"@,
            match self.filter.kind() {
                Some(kind) => Some(
                    JsonView::Object(
                        map![
                            "property"@ => JsonView::Text("object"@),
                            "value"@ => JsonView::Text(kind),
                        ],
                    ),
                ),
                None => None,
            },
        );
        JsonView::Object(with_field(filtered, "start_cursor"@, text_view(self.next_cursor)))
    }

    /// The request for the next page.
    pub open spec fn request(self) -> RequestView {
        body_request(Method::Post, "/v1/search"@, self.body())
    }

    /// The search after this page. Until something is found, the list describes itself as the
    /// latest page does.
    pub open spec fn with_page(self, page: ListView) -> SearchView {
        let first = self.results.len() == 0;
        SearchView {
            results: self.results + page.results,
            next_cursor: page.next_cursor,
            has_more: page.has_more,
            object: if first {
                page.object
            } else {
                self.object
            },
            list_type: if first {
                page.list_type
            } else {
                self.list_type
            },
            extra: if first {
                page.extra
            } else {
                self.extra
            },
            ..self
        }
    }

    /// The search after these pages.
    pub open spec fn with_pages(self, pages: Seq<ListView>) -> SearchView
        decreases pages.len(),
    {
        if pages.len() == 0 {
            self
        } else {
            self.with_pages(pages.drop_last()).with_page(pages.last())
        }
    }

    /// After a page: more results are wanted, and there is a page to find them on.
    pub open spec fn goes_on(self) -> bool {
        self.results.len() < self.limit && self.has_more && self.next_cursor is Some
    }

    /// What the search gives back: no more results than were asked for, and the place to go on
    /// where there is more.
    pub open spec fn answer(self) -> ListView {
        ListView {
            object: self.object,
            results: if self.results.len() < self.limit {
                self.results
            } else {
                self.results.take(self.limit as int)
            },
            next_cursor: if self.has_more {
                self.next_cursor
            } else {
                None
            },
            has_more: self.has_more,
            list_type: self.list_type,
            extra: self.extra,
        }
    }

    /// What happens next, where another page is asked for or not.
    pub open spec fn step(self, more: bool) -> SearchStepView {
        if more {
            SearchStepView::Ask { request: self.request(), run: self }
        } else {
            SearchStepView::Done(self.answer())
        }
    }
}

impl SearchRun {
    /// The request for the next page.
    fn request(&self) -> (r: ApiRequest)
        requires
            self@.results.len() < self@.limit,
        ensures
            r@ == self@.request(),
    {
        let wanted: usize = self.limit - self.results.len();
        let page_size: usize = if wanted < LARGEST_PAGE {
            wanted
        } else {
            LARGEST_PAGE
        };
        let mut body = JsonObject::new();
        body.insert("query", Json::string(self.query.as_str()));
        body.insert("page_size", number(page_size));
        if let Some(kind) = self.filter.api_value() {
            let filter = object_of_two(
                "property",
                Json::string("object"),
                "value",
                Json::string(kind),
            );
            body.insert("filter", filter);
        }
        add_field(&mut body, "start_cursor", text_document(&self.next_cursor));
        ApiRequest::with_body(Method::Post, "/v1/search", body.document())
    }

    /// What the search gives back.
    fn answer(self) -> (r: ListResponse)
        ensures
            r@ == self@.answer(),
    {
        let SearchRun { limit, results, next_cursor, has_more, object, list_type, extra, .. } =
            self;
        let mut results = results;
        let ghost found = documents_view(results@);
        results.truncate(limit);
        assert(documents_view(results@) =~= if found.len() < limit {
            found
        } else {
            found.take(limit as int)
        });
        let next_cursor = if has_more {
            next_cursor
        } else {
            None
        };
        ListResponse { object, results, next_cursor, has_more, list_type, extra }
    }

    /// Takes in the page that came back.
    pub fn absorb(self, page: ListResponse) -> (r: SearchStep)
        ensures
            r@ == self@.with_page(page@).step(self@.with_page(page@).goes_on()),
    {
        let ghost before = self@;
        let ghost arrived = page@;
        let ListResponse { object, results, next_cursor, has_more, list_type, extra } = page;
        let mut run = self;
        if run.results.len() == 0 {
            run.object = object;
            run.list_type = list_type;
            run.extra = extra;
        }
        let mut found = run.results;
        let mut arriving = results;
        found.append(&mut arriving);
        let more = found.len() < run.limit && has_more && next_cursor.is_some();
        let run = SearchRun {
            query: run.query,
            filter: run.filter,
            limit: run.limit,
            results: found,
            next_cursor,
            has_more,
            object: run.object,
            list_type: run.list_type,
            extra: run.extra,
        };
        assert(run@.results =~= before.results + arrived.results);
        assert(run@ =~= before.with_page(arrived));
        if more {
            SearchStep::Ask { request: run.request(), run }
        } else {
            SearchStep::Done(run.answer())
        }
    }
}

impl NotionClient {
    /// Searches for pages and data sources, up to `limit` of them.
    pub fn search(&self, query: &str, filter: SearchFilter, limit: usize) -> (r: SearchStep)
        ensures
            r@ == new_search(query@, filter, limit as nat).step(limit > 0),
    {
        let run = SearchRun {
            query: query.to_owned(),
            filter,
            limit,
            results: Vec::new(),
            next_cursor: None,
            has_more: false,
            object: default_list_object(),
            list_type: None,
            extra: JsonObject::new(),
        };
        assert(run@.results =~= Seq::empty());
        assert(run@ =~= new_search(query@, filter, limit as nat));
        if limit > 0 {
            SearchStep::Ask { request: run.request(), run }
        } else {
            SearchStep::Done(run.answer())
        }
    }
}

/// The results on the pages, one page after another.
pub open spec fn results_on(pages: Seq<ListView>) -> Seq<JsonView>
    decreases pages.len(),
{
    if pages.len() == 0 {
        Seq::empty()
    } else {
        results_on(pages.drop_last()) + pages.last().results
    }
}

/// A search finds what its pages hold, in the order in which they came, and keeps what it looks
/// for.
pub proof fn pages_add_up(query: Seq<char>, filter: SearchFilter, limit: nat, pages: Seq<ListView>)
    ensures
        ({
            let run = new_search(query, filter, limit).with_pages(pages);
            &&& run.results == results_on(pages)
            &&& run.query == query
            &&& run.filter == filter
            &&& run.limit == limit
        }),
    decreases pages.len(),
{
    if pages.len() > 0 {
        pages_add_up(query, filter, limit, pages.drop_last());
    }
}

/// A search gives back the first results that its pages hold: all of them, or as many as were
/// asked for.
pub proof fn answers_keep_to_the_limit(
    query: Seq<char>,
    filter: SearchFilter,
    limit: nat,
    pages: Seq<ListView>,
)
    ensures
        ({
            let given = new_search(query, filter, limit).with_pages(pages).answer().results;
            &&& given.len() <= limit
            &&& given.len() <= results_on(pages).len()
            &&& given == results_on(pages).take(given.len() as int)
            &&& given.len() == limit || given == results_on(pages)
        }),
{
    pages_add_up(query, filter, limit, pages);
    let all = results_on(pages);
    let given = new_search(query, filter, limit).with_pages(pages).answer().results;
    assert(given =~= all.take(given.len() as int));
}

/// A search never asks for more results on a page than are still wanted, than the API allows, or
/// for none.
pub proof fn page_sizes_are_in_bounds(run: SearchView)
    requires
        run.results.len() < run.limit,
    ensures
        1 <= run.page_size() <= LARGEST_PAGE,
        run.results.len() + run.page_size() <= run.limit,
{
}

/// Each page is asked for from where the one before it ended.
pub proof fn pages_follow_one_another(run: SearchView, page: ListView)
    ensures
        run.with_page(page).body().text_field("start_cursor"@) == page.next_cursor,
{
    reveal_strlit("query");
    reveal_strlit("page_size");
    reveal_strlit("filter");
    reveal_strlit("start_cursor");
    assert("start_cursor"@.len() == 12);
    assert("query"@.len() == 5);
    assert("page_size"@.len() == 9);
    assert("filter"@.len() == 6);
}

/// Once something was found, later pages do not change how the list describes itself.
pub proof fn first_results_describe_the_list(run: SearchView, pages: Seq<ListView>)
    requires
        run.results.len() > 0,
    ensures
        run.with_pages(pages).object == run.object,
        run.with_pages(pages).list_type == run.list_type,
        run.with_pages(pages).extra == run.extra,
        run.with_pages(pages).results.len() >= run.results.len(),
    decreases pages.len(),
{
    if pages.len() > 0 {
        first_results_describe_the_list(run, pages.drop_last());
    }
}

/// An answer says where to go on only if there is more.
pub proof fn cursors_come_with_more(run: SearchView)
    ensures
        run.answer().next_cursor is Some ==> run.answer().has_more,
{
}

/// A search comes to an end as long as the pages hold results: each of them leaves fewer to ask
/// for.
pub proof fn results_bring_searches_to_an_end(run: SearchView, page: ListView)
    requires
        page.results.len() > 0,
    ensures
        run.with_page(page).limit - run.with_page(page).results.len() < run.limit
            - run.results.len(),
        run.with_page(page).goes_on() ==> run.with_page(page).limit
            > run.with_page(page).results.len(),
{
}

/// The fields by which a search keeps to one kind of object, and no others.
pub open spec fn keeps_to(filter: JsonView, kind: Seq<char>) -> bool {
    &&& is_object(filter)
    &&& fields_of(filter).dom() == set!["property"@, "value"@]
    &&& fields_of(filter)["property"@] == JsonView::Text("object"@)
    &&& fields_of(filter)["value"@] == JsonView::Text(kind)
}

/// A request of a search holds what is looked for, how many results are wanted, the kind of object
/// where it keeps to one, and the place to go on from where there is one. It holds nothing else.
pub proof fn searches_ask_for_what_is_looked_for(run: SearchView)
    requires
        run.results.len() < run.limit,
    ensures
        ({
            let body = run.request().body->0;
            let fields = fields_of(body);
            let wanted = (run.limit - run.results.len()) as nat;
            &&& run.request().method == Method::Post
            &&& run.request().path == "/v1/search"@
            &&& run.request().query is None
            &&& run.request().body is Some
            &&& is_object(body)
            &&& fields.dom().contains("query"@)
            &&& fields["query"@] == JsonView::Text(run.query)
            &&& fields.dom().contains("page_size"@)
            &&& wanted < 100 ==> fields["page_size"@] == JsonView::Number(decimal(wanted))
            &&& wanted >= 100 ==> fields["page_size"@] == JsonView::Number(decimal(100))
            &&& fields.dom().contains("filter"@) == (run.filter != SearchFilter::All)
            &&& run.filter == SearchFilter::Page ==> keeps_to(fields["filter"@], "page"@)
            &&& run.filter == SearchFilter::DataSource ==> keeps_to(
                fields["filter"@],
                "data_source"@,
            )
            &&& fields.dom().contains("start_cursor"@) == (run.next_cursor is Some)
            &&& run.next_cursor matches Some(cursor) ==> fields["start_cursor"@] == JsonView::Text(
                cursor,
            )
            &&& forall|name: Seq<char>| #[trigger]
                fields.dom().contains(name) ==> name == "query"@ || name == "page_size"@ || name
                    == "filter"@ || name == "start_cursor"@
        }),
{
    reveal_strlit("query");
    reveal_strlit("page_size");
    reveal_strlit("filter");
    reveal_strlit("start_cursor");
    assert("query"@.len() != "page_size"@.len());
    assert("query"@.len() != "filter"@.len());
    assert("query"@.len() != "start_cursor"@.len());
    assert("page_size"@.len() != "filter"@.len());
    assert("page_size"@.len() != "start_cursor"@.len());
    assert("filter"@.len() != "start_cursor"@.len());
    reveal_strlit("property");
    reveal_strlit("value");
    assert("property"@.len() != "value"@.len());
    let fields = fields_of(run.request().body->0);
    if run.filter != SearchFilter::All {
        assert(fields_of(fields["filter"@]).dom() =~= set!["property"@, "value"@]);
    }
}

/// A search starts out with nothing found and nowhere to go on from. It asks for a first page unless
/// nothing is wanted, and then gives back an empty list.
pub proof fn searches_start_at_the_beginning(query: Seq<char>, filter: SearchFilter, limit: nat)
    ensures
        ({
            let run = new_search(query, filter, limit);
            let step = run.step(limit > 0);
            &&& run.query == query
            &&& run.filter == filter
            &&& run.limit == limit
            &&& run.results.len() == 0
            &&& run.next_cursor is None
            &&& limit > 0 ==> step is Ask && step->request == run.request() && step->run == run
            &&& limit == 0 ==> step is Done && step->Done_0.results.len() == 0
                && !step->Done_0.has_more && step->Done_0.next_cursor is None
                && step->Done_0.object == "list"@ && step->Done_0.list_type is None
                && step->Done_0.extra.dom() == Set::<Seq<char>>::empty()
        }),
{
    assert(new_search(query, filter, limit).extra.dom() =~= Set::<Seq<char>>::empty());
}

/// A page brings its results after those before it, and another page is asked for just where more
/// results are wanted, there are more, and the page says where they are. If not, the search gives
/// back what it found, cut at the limit, in a list that describes itself as the page does that
/// brought the first results.
pub proof fn pages_bring_the_next_step(run: SearchView, page: ListView)
    ensures
        ({
            let after = run.with_page(page);
            let step = after.step(after.goes_on());
            let found = run.results + page.results;
            let first = run.results.len() == 0;
            &&& step is Ask == (found.len() < run.limit && page.has_more
                && page.next_cursor is Some)
            &&& step is Ask ==> {
                let next = step->run;
                &&& step->request == next.request()
                &&& next.query == run.query
                &&& next.filter == run.filter
                &&& next.limit == run.limit
                &&& next.results == found
                &&& next.next_cursor == page.next_cursor
                &&& next.has_more
                &&& first ==> next.object == page.object && next.list_type == page.list_type
                    && next.extra == page.extra
                &&& !first ==> next.object == run.object && next.list_type == run.list_type
                    && next.extra == run.extra
            }
            &&& step is Done ==> {
                let list = step->Done_0;
                &&& found.len() <= run.limit ==> list.results == found
                &&& found.len() > run.limit ==> list.results == found.take(run.limit as int)
                &&& list.has_more == page.has_more
                &&& page.has_more ==> list.next_cursor == page.next_cursor
                &&& !page.has_more ==> list.next_cursor is None
                &&& first ==> list.object == page.object && list.list_type == page.list_type
                    && list.extra == page.extra
                &&& !first ==> list.object == run.object && list.list_type == run.list_type
                    && list.extra == run.extra
            }
        }),
{
    let found = run.results + page.results;
    if found.len() == run.limit {
        assert(found.take(run.limit as int) =~= found);
    }
}

} // verus!
