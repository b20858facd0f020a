//! The endpoints of the API: for each operation, the request that it sends.
use vstd::prelude::*;
use vstd::string::StringExecFns;

use crate::config::{not_blank_or, ConfigStore, DEFAULT_API_BASE_URL};
use crate::errors::CliError;
use crate::ids::normalize_notion_id;
use crate::json::{Json, JsonObject, JsonView};
use crate::request::{
    body_request, for_id, id_path, outcome, pairs_view, paging, plain_request, push_pair,
    push_paging, query_request, ApiRequest, Method,
};
use crate::text::{
    decimal, decimal_string, nothing_trails, trim, trim_end_char, trimmed, view_of, view_of_str,
    without_trailing,
};

verus! {

/// One page of a list that the API returns.
#[derive(Debug)]
pub struct ListResponse {
    pub object: String,
    pub results: Vec<Json>,
    pub next_cursor: Option<String>,
    pub has_more: bool,
    pub list_type: Option<String>,
    pub extra: JsonObject,
}

/// What a page of a list says.
#[verifier::ext_equal]
pub struct ListView {
    pub object: Seq<char>,
    pub results: Seq<JsonView>,
    pub next_cursor: Option<Seq<char>>,
    pub has_more: bool,
    pub list_type: Option<Seq<char>>,
    pub extra: Map<Seq<char>, JsonView>,
}

/// What each of the documents says.
pub open spec fn documents_view(documents: Seq<Json>) -> Seq<JsonView> {
    documents.map_values(|j: Json| j@)
}

impl View for ListResponse {
    type V = ListView;

    open spec fn view(&self) -> ListView {
        ListView {
            object: self.object@,
            results: documents_view(self.results@),
            next_cursor: view_of(self.next_cursor),
            has_more: self.has_more,
            list_type: view_of(self.list_type),
            extra: self.extra@,
        }
    }
}

/// Copies of the documents.
fn clone_documents(documents: &Vec<Json>) -> (r: Vec<Json>)
    ensures
        documents_view(r@) == documents_view(documents@),
{
    let mut copies: Vec<Json> = Vec::new();
    let mut i: usize = 0;
    while i < documents.len()
        invariant
            i <= documents.len(),
            copies.len() == i,
            forall|k: int| 0 <= k < i ==> (#[trigger] copies@[k])@ == documents@[k]@,
        decreases documents.len() - i,
    {
        copies.push(documents[i].clone());
        i = i + 1;
    }
    assert(documents_view(copies@) =~= documents_view(documents@));
    copies
}

impl Clone for ListResponse {
    fn clone(&self) -> (r: Self)
        ensures
            r@ == self@,
    {
        ListResponse {
            object: self.object.clone(),
            results: clone_documents(&self.results),
            next_cursor: self.next_cursor.clone(),
            has_more: self.has_more,
            list_type: self.list_type.clone(),
            extra: self.extra.clone(),
        }
    }
}

/// What a list calls itself where it does not say.
pub fn default_list_object() -> (r: String)
    ensures
        r@ == "list"@,
{
    "list".to_owned()
}

/// The contents of a page as markdown.
#[derive(Debug)]
pub struct PageMarkdown {
    pub object: String,
    pub markdown: String,
    pub truncated: Option<bool>,
    pub unknown_block_ids: Vec<String>,
}

/// What the markdown of a page says.
#[verifier::ext_equal]
pub struct MarkdownView {
    pub object: Seq<char>,
    pub markdown: Seq<char>,
    pub truncated: Option<bool>,
    pub unknown_block_ids: Seq<Seq<char>>,
}

impl View for PageMarkdown {
    type V = MarkdownView;

    open spec fn view(&self) -> MarkdownView {
        MarkdownView {
            object: self.object@,
            markdown: self.markdown@,
            truncated: self.truncated,
            unknown_block_ids: self.unknown_block_ids@.map_values(|id: String| id@),
        }
    }
}

impl Clone for PageMarkdown {
    fn clone(&self) -> (r: Self)
        ensures
            r@ == self@,
    {
        let mut unknown_block_ids: Vec<String> = Vec::new();
        let mut i: usize = 0;
        while i < self.unknown_block_ids.len()
            invariant
                i <= self.unknown_block_ids.len(),
                unknown_block_ids@ == self.unknown_block_ids@.take(i as int),
            decreases self.unknown_block_ids.len() - i,
        {
            unknown_block_ids.push(self.unknown_block_ids[i].clone());
            i = i + 1;
        }
        assert(unknown_block_ids@ =~= self.unknown_block_ids@);
        PageMarkdown {
            object: self.object.clone(),
            markdown: self.markdown.clone(),
            truncated: self.truncated,
            unknown_block_ids,
        }
    }
}

/// What a search looks for.
#[derive(Debug, Clone, Copy, PartialEq, Eq, Structural)]
pub enum SearchFilter {
    All,
    Page,
    DataSource,
}

impl SearchFilter {
    /// What the API calls the kind of object that is looked for.
    pub open spec fn kind(self) -> Option<Seq<char>> {
        match self {
            SearchFilter::All => None,
            SearchFilter::Page => Some("page"@),
            SearchFilter::DataSource => Some("data_source"@),
        }
    }

    /// What the API calls the kind of object that is looked for, where there is just one.
    pub fn api_value(self) -> (r: Option<&'static str>)
        ensures
            view_of_str(r) == self.kind(),
    {
        match self {
            SearchFilter::All => None,
            SearchFilter::Page => Some("page"),
            SearchFilter::DataSource => Some("data_source"),
        }
    }
}

/// Where a new page goes: under a page, or into a data source whose title property is known.
#[derive(Debug)]
pub enum CreateParent {
    Page { page_id: String },
    DataSource { data_source_id: String, title_property: String },
}

/// Where a new page goes.
#[verifier::ext_equal]
pub enum ParentView {
    Page { page_id: Seq<char> },
    DataSource { data_source_id: Seq<char>, title_property: Seq<char> },
}

impl View for CreateParent {
    type V = ParentView;

    open spec fn view(&self) -> ParentView {
        match self {
            CreateParent::Page { page_id } => ParentView::Page { page_id: page_id@ },
            CreateParent::DataSource { data_source_id, title_property } => ParentView::DataSource {
                data_source_id: data_source_id@,
                title_property: title_property@,
            },
        }
    }
}

impl Clone for CreateParent {
    fn clone(&self) -> (r: Self)
        ensures
            r@ == self@,
    {
        match self {
            CreateParent::Page { page_id } => CreateParent::Page { page_id: page_id.clone() },
            CreateParent::DataSource { data_source_id, title_property } =>
                CreateParent::DataSource {
                data_source_id: data_source_id.clone(),
                title_property: title_property.clone(),
            },
        }
    }
}

/// What to ask a data source for.
#[derive(Debug)]
pub struct DataSourceQuery {
    pub filter: Option<Json>,
    pub sorts: Option<Json>,
    pub page_size: Option<usize>,
    pub cursor: Option<String>,
}

impl Default for DataSourceQuery {
    fn default() -> (r: Self)
        ensures
            r == (DataSourceQuery { filter: None, sorts: None, page_size: None, cursor: None }),
    {
        DataSourceQuery { filter: None, sorts: None, page_size: None, cursor: None }
    }
}

impl Clone for DataSourceQuery {
    fn clone(&self) -> (r: Self)
        ensures
            document_view(r.filter) == document_view(self.filter),
            document_view(r.sorts) == document_view(self.sorts),
            r.page_size == self.page_size,
            view_of(r.cursor) == view_of(self.cursor),
    {
        DataSourceQuery {
            filter: match &self.filter {
                Some(filter) => Some(filter.clone()),
                None => None,
            },
            sorts: match &self.sorts {
                Some(sorts) => Some(sorts.clone()),
                None => None,
            },
            page_size: self.page_size,
            cursor: self.cursor.clone(),
        }
    }
}

/// The document that is there, if any.
pub open spec fn document_view(document: Option<Json>) -> Option<JsonView> {
    match document {
        Some(j) => Some(j@),
        None => None,
    }
}

/// The fields with one more, where there is a value for it.
pub open spec fn with_field(
    fields: Map<Seq<char>, JsonView>,
    name: Seq<char>,
    value: Option<JsonView>,
) -> Map<Seq<char>, JsonView> {
    match value {
        Some(v) => fields.insert(name, v),
        None => fields,
    }
}

/// Gives the object one more field, where there is a value for it.
pub fn add_field(object: &mut JsonObject, name: &str, value: Option<Json>)
    ensures
        final(object)@ == with_field(old(object)@, name@, document_view(value)),
{
    if let Some(v) = value {
        object.insert(name, v);
    }
}

/// The JSON number `n`.
pub open spec fn number_view(n: nat) -> JsonView {
    JsonView::Number(decimal(n))
}

/// The JSON number `n`.
pub fn number(n: usize) -> (r: Json)
    ensures
        r@ == number_view(n as nat),
{
    Json::numeral(decimal_string(n as u64))
}

/// The JSON string that is there, if any.
pub open spec fn text_view(text: Option<Seq<char>>) -> Option<JsonView> {
    match text {
        Some(t) => Some(JsonView::Text(t)),
        None => None,
    }
}

/// The JSON string for a text that may be missing.
pub fn text_document(text: &Option<String>) -> (r: Option<Json>)
    ensures
        document_view(r) == text_view(view_of(*text)),
{
    match text {
        Some(t) => Some(Json::string(t.as_str())),
        None => None,
    }
}

/// An object with one field.
pub fn object_of(name: &str, value: Json) -> (r: Json)
    ensures
        r@ == JsonView::Object(map![name@ => value@]),
{
    let mut object = JsonObject::new();
    object.insert(name, value);
    object.document()
}

/// An object with two fields.
pub fn object_of_two(name: &str, value: Json, second: &str, second_value: Json) -> (r: Json)
    ensures
        r@ == JsonView::Object(map![name@ => value@, second@ => second_value@]),
{
    let mut object = JsonObject::new();
    object.insert(name, value);
    object.insert(second, second_value);
    object.document()
}

/// The rich text of a title.
pub open spec fn title_value(title: Seq<char>) -> JsonView {
    JsonView::Object(
        map![
            "title"@ => JsonView::Array(
                seq![
                    JsonView::Object(
                        map!["text"@ => JsonView::Object(map!["content"@ => JsonView::Text(title)])],
                    ),
                ],
            ),
        ],
    )
}

/// The rich text of a title.
fn title_document(title: &str) -> (r: Json)
    ensures
        r@ == title_value(title@),
{
    let text = object_of("text", object_of("content", Json::string(title)));
    let mut items: Vec<Json> = Vec::new();
    items.push(text);
    assert(documents_view(items@) =~= seq![text@]);
    object_of("title", Json::array(items))
}

/// The `parent` of a new page.
pub open spec fn parent_value(parent: ParentView) -> JsonView {
    match parent {
        ParentView::Page { page_id } => JsonView::Object(
            map!["type"@ => JsonView::Text("page_id"@), "page_id"@ => JsonView::Text(page_id)],
        ),
        ParentView::DataSource { data_source_id, .. } => JsonView::Object(
            map![
                "type"@ => JsonView::Text("data_source_id"@),
                "data_source_id"@ => JsonView::Text(data_source_id),
            ],
        ),
    }
}

/// The property that holds the title of a new page.
pub open spec fn title_property_of(parent: ParentView) -> Seq<char> {
    match parent {
        ParentView::Page { .. } => "title"@,
        ParentView::DataSource { title_property, .. } => title_property,
    }
}

/// What is sent to create a page.
pub open spec fn new_page(
    parent: ParentView,
    title: Seq<char>,
    markdown: Option<Seq<char>>,
) -> JsonView {
    let fields = map![
        "parent"@ => parent_value(parent),
        "properties"@ => JsonView::Object(map![title_property_of(parent) => title_value(title)]),
    ];
    JsonView::Object(with_field(fields, "markdown"@, text_view(markdown)))
}

/// What is sent to query a data source.
pub open spec fn query_value(
    filter: Option<JsonView>,
    sorts: Option<JsonView>,
    page_size: Option<usize>,
    cursor: Option<Seq<char>>,
) -> JsonView {
    let filtered = with_field(Map::empty(), "filter"@, filter);
    let sorted = with_field(filtered, "sorts"@, sorts);
    let sized = with_field(
        sorted,
        "page_size"@,
        match page_size {
            Some(n) => Some(number_view(n as nat)),
            None => None,
        },
    );
    JsonView::Object(with_field(sized, "start_cursor"@, text_view(cursor)))
}

/// The address of the API without the slashes at its end; Notion's own where it is blank.
pub open spec fn base_url_of(base_url: Seq<char>) -> Seq<char> {
    if trimmed(base_url).len() == 0 {
        without_trailing(DEFAULT_API_BASE_URL@, '/')
    } else {
        without_trailing(base_url, '/')
    }
}

/// The address of the API without the slashes at its end.
pub fn normalize_base_url(base_url: &str) -> (r: String)
    ensures
        r@ == base_url_of(base_url@),
{
    let raw = if trim(base_url).as_str().is_empty() {
        DEFAULT_API_BASE_URL
    } else {
        base_url
    };
    trim_end_char(raw, '/')
}

/// What every request has in common: where it goes, its headers and its bearer token.
#[derive(Debug)]
pub struct RequestHead {
    pub url: String,
    pub headers: Vec<(String, String)>,
    pub bearer_token: String,
}

/// What the head of a request says.
#[verifier::ext_equal]
pub struct HeadView {
    pub url: Seq<char>,
    pub headers: Seq<(Seq<char>, Seq<char>)>,
    pub bearer_token: Seq<char>,
}

impl View for RequestHead {
    type V = HeadView;

    open spec fn view(&self) -> HeadView {
        HeadView {
            url: self.url@,
            headers: pairs_view(self.headers@),
            bearer_token: self.bearer_token@,
        }
    }
}

/// The side of the API that a command talks to.
#[derive(Debug)]
pub struct NotionClient {
    base_url: String,
    notion_version: String,
}

impl Clone for NotionClient {
    fn clone(&self) -> (r: Self)
        ensures
            r@ == self@,
    {
        NotionClient {
            base_url: self.base_url.clone(),
            notion_version: self.notion_version.clone(),
        }
    }
}

/// Which API a client talks to.
pub struct ClientView {
    pub base_url: Seq<char>,
    pub notion_version: Seq<char>,
}

impl View for NotionClient {
    type V = ClientView;

    closed spec fn view(&self) -> ClientView {
        ClientView { base_url: self.base_url@, notion_version: self.notion_version@ }
    }
}

impl ClientView {
    /// The head of a request for `path`.
    pub open spec fn head(self, token: Seq<char>, path: Seq<char>) -> HeadView {
        HeadView {
            url: self.base_url + path,
            headers: seq![
                ("Notion-Version"@, self.notion_version),
                ("Accept"@, "application/json"@),
            ],
            bearer_token: token,
        }
    }
}

impl NotionClient {
    /// A client for the API at `base_url`, in the version `notion_version`.
    pub fn new(base_url: &str, notion_version: &str) -> (r: Self)
        ensures
            r@ == (ClientView {
                base_url: base_url_of(base_url@),
                notion_version: notion_version@,
            }),
    {
        NotionClient {
            base_url: normalize_base_url(base_url),
            notion_version: notion_version.to_owned(),
        }
    }

    /// The client that the configuration asks for. The two texts are what the environment says of
    /// the address of the API and of its version.
    pub fn from_config(
        store: &ConfigStore,
        environment_base_url: Option<String>,
        environment_version: Option<String>,
    ) -> (r: Self)
        ensures
            r@ == (ClientView {
                base_url: base_url_of(
                    not_blank_or(view_of(environment_base_url), DEFAULT_API_BASE_URL@),
                ),
                notion_version: not_blank_or(view_of(environment_version), store@.api_version),
            }),
    {
        let base_url = store.api_base_url(environment_base_url);
        let version = store.api_version(environment_version);
        NotionClient::new(base_url.as_str(), version.as_str())
    }

    /// The head of a request for `path` with this token.
    pub fn request_bearer_json(&self, token: &str, path: &str) -> (r: RequestHead)
        ensures
            r@ == self@.head(token@, path@),
    {
        let mut url = self.base_url.clone();
        url.append(path);
        let mut headers: Vec<(String, String)> = Vec::new();
        push_pair(&mut headers, "Notion-Version", self.notion_version.as_str());
        push_pair(&mut headers, "Accept", "application/json");
        let r = RequestHead { url, headers, bearer_token: token.to_owned() };
        assert(r@.headers =~= self@.head(token@, path@).headers);
        r
    }

    /// Asks for the user object of the bot itself.
    pub fn get_self(&self) -> (r: ApiRequest)
        ensures
            r@ == plain_request(Method::Get, "/v1/users/me"@),
    {
        ApiRequest::plain(Method::Get, "/v1/users/me")
    }

    /// Asks for the user object of the bot that a token belongs to.
    pub fn get_self_for_token(&self, token: &str) -> (r: (RequestHead, ApiRequest))
        ensures
            r.0@ == self@.head(token@, "/v1/users/me"@),
            r.1@ == plain_request(Method::Get, "/v1/users/me"@),
    {
        let request = self.get_self();
        (self.request_bearer_json(token, request.path.as_str()), request)
    }

    /// Asks for a page.
    pub fn get_page(&self, page_id_or_url: &str) -> (r: Result<ApiRequest, CliError>)
        ensures
            outcome(r) == for_id(
                page_id_or_url@,
                |id: Seq<char>| plain_request(Method::Get, "/v1/pages/"@ + id),
            ),
    {
        match id_path("/v1/pages/", page_id_or_url) {
            Ok(path) => Ok(ApiRequest::plain(Method::Get, path.as_str())),
            Err(e) => Err(e),
        }
    }

    /// Asks for one property of a page.
    pub fn get_page_property(
        &self,
        page_id_or_url: &str,
        property_id: &str,
        page_size: Option<usize>,
        cursor: Option<String>,
    ) -> (r: Result<ApiRequest, CliError>)
        ensures
            outcome(r) == for_id(
                page_id_or_url@,
                |id: Seq<char>|
                    query_request(
                        "/v1/pages/"@ + id + "/properties/"@ + property_id@,
                        paging(page_size, view_of(cursor)),
                    ),
            ),
    {
        let mut path = match id_path("/v1/pages/", page_id_or_url) {
            Ok(path) => path,
            Err(e) => {
                return Err(e);
            },
        };
        path.append("/properties/");
        path.append(property_id);
        let mut query: Vec<(String, String)> = Vec::new();
        push_paging(&mut query, page_size, cursor);
        assert(pairs_view(query@) =~= paging(page_size, view_of(cursor)));
        Ok(ApiRequest::with_query(path.as_str(), query))
    }

    /// Asks for the contents of a page as markdown.
    pub fn get_page_markdown(&self, page_id_or_url: &str, include_transcript: bool) -> (r: Result<
        ApiRequest,
        CliError,
    >)
        ensures
            outcome(r) == for_id(
                page_id_or_url@,
                |id: Seq<char>|
                    query_request(
                        "/v1/pages/"@ + id + "/markdown"@,
                        if include_transcript {
                            seq![("include_transcript"@, "true"@)]
                        } else {
                            Seq::empty()
                        },
                    ),
            ),
    {
        let mut path = match id_path("/v1/pages/", page_id_or_url) {
            Ok(path) => path,
            Err(e) => {
                return Err(e);
            },
        };
        path.append("/markdown");
        let mut query: Vec<(String, String)> = Vec::new();
        if include_transcript {
            push_pair(&mut query, "include_transcript", "true");
            assert(pairs_view(query@) =~= seq![("include_transcript"@, "true"@)]);
        } else {
            assert(pairs_view(query@) =~= Seq::empty());
        }
        Ok(ApiRequest::with_query(path.as_str(), query))
    }

    /// Asks for a data source.
    pub fn get_data_source(&self, data_source_id_or_url: &str) -> (r: Result<ApiRequest, CliError>)
        ensures
            outcome(r) == for_id(
                data_source_id_or_url@,
                |id: Seq<char>| plain_request(Method::Get, "/v1/data_sources/"@ + id),
            ),
    {
        match id_path("/v1/data_sources/", data_source_id_or_url) {
            Ok(path) => Ok(ApiRequest::plain(Method::Get, path.as_str())),
            Err(e) => Err(e),
        }
    }

    /// Creates a data source.
    pub fn create_data_source(&self, body: Json) -> (r: ApiRequest)
        ensures
            r@ == body_request(Method::Post, "/v1/data_sources"@, body@),
    {
        ApiRequest::with_body(Method::Post, "/v1/data_sources", body)
    }

    /// Changes a data source.
    pub fn update_data_source(&self, data_source_id_or_url: &str, body: Json) -> (r: Result<
        ApiRequest,
        CliError,
    >)
        ensures
            outcome(r) == for_id(
                data_source_id_or_url@,
                |id: Seq<char>| body_request(Method::Patch, "/v1/data_sources/"@ + id, body@),
            ),
    {
        match id_path("/v1/data_sources/", data_source_id_or_url) {
            Ok(path) => Ok(ApiRequest::with_body(Method::Patch, path.as_str(), body)),
            Err(e) => Err(e),
        }
    }

    /// Asks for entries of a data source.
    pub fn query_data_source(&self, data_source_id_or_url: &str, query: DataSourceQuery) -> (r:
        Result<ApiRequest, CliError>)
        ensures
            outcome(r) == for_id(
                data_source_id_or_url@,
                |id: Seq<char>|
                    body_request(
                        Method::Post,
                        "/v1/data_sources/"@ + id + "/query"@,
                        query_value(
                            document_view(query.filter),
                            document_view(query.sorts),
                            query.page_size,
                            view_of(query.cursor),
                        ),
                    ),
            ),
    {
        let mut path = match id_path("/v1/data_sources/", data_source_id_or_url) {
            Ok(path) => path,
            Err(e) => {
                return Err(e);
            },
        };
        path.append("/query");
        let mut body = JsonObject::new();
        add_field(&mut body, "filter", query.filter);
        add_field(&mut body, "sorts", query.sorts);
        if let Some(n) = query.page_size {
            body.insert("page_size", number(n));
        }
        add_field(&mut body, "start_cursor", text_document(&query.cursor));
        Ok(ApiRequest::with_body(Method::Post, path.as_str(), body.document()))
    }

    /// Creates a page.
    pub fn create_page(&self, parent: CreateParent, title: &str, markdown: Option<String>) -> (r:
        ApiRequest)
        ensures
            r@ == body_request(
                Method::Post,
                "/v1/pages"@,
                new_page(parent@, title@, view_of(markdown)),
            ),
    {
        let (parent_document, title_property) = match parent {
            CreateParent::Page { page_id } => (
                object_of_two(
                    "type",
                    Json::string("page_id"),
                    "page_id",
                    Json::string(page_id.as_str()),
                ),
                "title".to_owned(),
            ),
            CreateParent::DataSource { data_source_id, title_property } => (
                object_of_two(
                    "type",
                    Json::string("data_source_id"),
                    "data_source_id",
                    Json::string(data_source_id.as_str()),
                ),
                title_property,
            ),
        };
        let properties = object_of(title_property.as_str(), title_document(title));
        let mut body = JsonObject::new();
        body.insert("parent", parent_document);
        body.insert("properties", properties);
        add_field(&mut body, "markdown", text_document(&markdown));
        ApiRequest::with_body(Method::Post, "/v1/pages", body.document())
    }

    /// Changes a page.
    pub fn update_page(&self, page_id_or_url: &str, body: Json) -> (r: Result<ApiRequest, CliError>)
        ensures
            outcome(r) == for_id(
                page_id_or_url@,
                |id: Seq<char>| body_request(Method::Patch, "/v1/pages/"@ + id, body@),
            ),
    {
        match id_path("/v1/pages/", page_id_or_url) {
            Ok(path) => Ok(ApiRequest::with_body(Method::Patch, path.as_str(), body)),
            Err(e) => Err(e),
        }
    }

    /// Asks for a database.
    pub fn get_database(&self, database_id_or_url: &str) -> (r: Result<ApiRequest, CliError>)
        ensures
            outcome(r) == for_id(
                database_id_or_url@,
                |id: Seq<char>| plain_request(Method::Get, "/v1/databases/"@ + id),
            ),
    {
        match id_path("/v1/databases/", database_id_or_url) {
            Ok(path) => Ok(ApiRequest::plain(Method::Get, path.as_str())),
            Err(e) => Err(e),
        }
    }

    /// Creates a database.
    pub fn create_database(&self, body: Json) -> (r: ApiRequest)
        ensures
            r@ == body_request(Method::Post, "/v1/databases"@, body@),
    {
        ApiRequest::with_body(Method::Post, "/v1/databases", body)
    }

    /// Changes a database.
    pub fn update_database(&self, database_id_or_url: &str, body: Json) -> (r: Result<
        ApiRequest,
        CliError,
    >)
        ensures
            outcome(r) == for_id(
                database_id_or_url@,
                |id: Seq<char>| body_request(Method::Patch, "/v1/databases/"@ + id, body@),
            ),
    {
        match id_path("/v1/databases/", database_id_or_url) {
            Ok(path) => Ok(ApiRequest::with_body(Method::Patch, path.as_str(), body)),
            Err(e) => Err(e),
        }
    }

    /// Adds markdown to the end of a page.
    pub fn append_page_markdown(&self, page_id_or_url: &str, markdown: &str) -> (r: Result<
        ApiRequest,
        CliError,
    >)
        ensures
            outcome(r) == for_id(
                page_id_or_url@,
                |id: Seq<char>|
                    body_request(
                        Method::Patch,
                        "/v1/pages/"@ + id + "/markdown"@,
                        appended_markdown(markdown@),
                    ),
            ),
    {
        let mut path = match id_path("/v1/pages/", page_id_or_url) {
            Ok(path) => path,
            Err(e) => {
                return Err(e);
            },
        };
        path.append("/markdown");
        let body = object_of_two(
            "type",
            Json::string("insert_content"),
            "insert_content",
            object_of("content", Json::string(markdown)),
        );
        Ok(ApiRequest::with_body(Method::Patch, path.as_str(), body))
    }

    /// Puts markdown in place of the contents of a page.
    pub fn replace_page_markdown(
        &self,
        page_id_or_url: &str,
        markdown: &str,
        allow_deleting_content: bool,
    ) -> (r: Result<ApiRequest, CliError>)
        ensures
            outcome(r) == for_id(
                page_id_or_url@,
                |id: Seq<char>|
                    body_request(
                        Method::Patch,
                        "/v1/pages/"@ + id + "/markdown"@,
                        replaced_markdown(markdown@, allow_deleting_content),
                    ),
            ),
    {
        let mut path = match id_path("/v1/pages/", page_id_or_url) {
            Ok(path) => path,
            Err(e) => {
                return Err(e);
            },
        };
        path.append("/markdown");
        let body = object_of_two(
            "type",
            Json::string("replace_content"),
            "replace_content",
            object_of_two(
                "new_str",
                Json::string(markdown),
                "allow_deleting_content",
                Json::boolean(allow_deleting_content),
            ),
        );
        Ok(ApiRequest::with_body(Method::Patch, path.as_str(), body))
    }

    /// Asks for a block.
    pub fn get_block(&self, block_id_or_url: &str) -> (r: Result<ApiRequest, CliError>)
        ensures
            outcome(r) == for_id(
                block_id_or_url@,
                |id: Seq<char>| plain_request(Method::Get, "/v1/blocks/"@ + id),
            ),
    {
        match id_path("/v1/blocks/", block_id_or_url) {
            Ok(path) => Ok(ApiRequest::plain(Method::Get, path.as_str())),
            Err(e) => Err(e),
        }
    }

    /// Asks for the blocks in a block.
    pub fn get_block_children(
        &self,
        block_id_or_url: &str,
        page_size: Option<usize>,
        cursor: Option<String>,
    ) -> (r: Result<ApiRequest, CliError>)
        ensures
            outcome(r) == for_id(
                block_id_or_url@,
                |id: Seq<char>|
                    query_request(
                        "/v1/blocks/"@ + id + "/children"@,
                        paging(page_size, view_of(cursor)),
                    ),
            ),
    {
        let mut path = match id_path("/v1/blocks/", block_id_or_url) {
            Ok(path) => path,
            Err(e) => {
                return Err(e);
            },
        };
        path.append("/children");
        let mut query: Vec<(String, String)> = Vec::new();
        push_paging(&mut query, page_size, cursor);
        assert(pairs_view(query@) =~= paging(page_size, view_of(cursor)));
        Ok(ApiRequest::with_query(path.as_str(), query))
    }

    /// Adds blocks to a block.
    pub fn append_block_children(
        &self,
        block_id_or_url: &str,
        children: Json,
        position: Option<Json>,
    ) -> (r: Result<ApiRequest, CliError>)
        ensures
            outcome(r) == for_id(
                block_id_or_url@,
                |id: Seq<char>|
                    body_request(
                        Method::Patch,
                        "/v1/blocks/"@ + id + "/children"@,
                        appended_children(children@, document_view(position)),
                    ),
            ),
    {
        let mut path = match id_path("/v1/blocks/", block_id_or_url) {
            Ok(path) => path,
            Err(e) => {
                return Err(e);
            },
        };
        path.append("/children");
        let mut body = JsonObject::new();
        body.insert("children", children);
        add_field(&mut body, "position", position);
        Ok(ApiRequest::with_body(Method::Patch, path.as_str(), body.document()))
    }

    /// Changes a block.
    pub fn update_block(&self, block_id_or_url: &str, body: Json) -> (r: Result<
        ApiRequest,
        CliError,
    >)
        ensures
            outcome(r) == for_id(
                block_id_or_url@,
                |id: Seq<char>| body_request(Method::Patch, "/v1/blocks/"@ + id, body@),
            ),
    {
        match id_path("/v1/blocks/", block_id_or_url) {
            Ok(path) => Ok(ApiRequest::with_body(Method::Patch, path.as_str(), body)),
            Err(e) => Err(e),
        }
    }

    /// Deletes a block.
    pub fn delete_block(&self, block_id_or_url: &str) -> (r: Result<ApiRequest, CliError>)
        ensures
            outcome(r) == for_id(
                block_id_or_url@,
                |id: Seq<char>| plain_request(Method::Delete, "/v1/blocks/"@ + id),
            ),
    {
        match id_path("/v1/blocks/", block_id_or_url) {
            Ok(path) => Ok(ApiRequest::plain(Method::Delete, path.as_str())),
            Err(e) => Err(e),
        }
    }

    /// Asks for the users of the workspace.
    pub fn list_users(&self, page_size: Option<usize>, cursor: Option<String>) -> (r: ApiRequest)
        ensures
            r@ == query_request("/v1/users"@, paging(page_size, view_of(cursor))),
    {
        let mut query: Vec<(String, String)> = Vec::new();
        push_paging(&mut query, page_size, cursor);
        assert(pairs_view(query@) =~= paging(page_size, view_of(cursor)));
        ApiRequest::with_query("/v1/users", query)
    }

    /// Asks for a user.
    pub fn get_user(&self, user_id: &str) -> (r: Result<ApiRequest, CliError>)
        ensures
            outcome(r) == for_id(
                user_id@,
                |id: Seq<char>| plain_request(Method::Get, "/v1/users/"@ + id),
            ),
    {
        match id_path("/v1/users/", user_id) {
            Ok(path) => Ok(ApiRequest::plain(Method::Get, path.as_str())),
            Err(e) => Err(e),
        }
    }

    /// Asks for the comments on a block or a page.
    pub fn list_comments(
        &self,
        block_id_or_page_id: &str,
        page_size: Option<usize>,
        cursor: Option<String>,
    ) -> (r: Result<ApiRequest, CliError>)
        ensures
            outcome(r) == for_id(
                block_id_or_page_id@,
                |id: Seq<char>|
                    query_request(
                        "/v1/comments"@,
                        seq![("block_id"@, id)] + paging(page_size, view_of(cursor)),
                    ),
            ),
    {
        let id = match normalize_notion_id(block_id_or_page_id) {
            Ok(id) => id,
            Err(e) => {
                return Err(e);
            },
        };
        let mut query: Vec<(String, String)> = Vec::new();
        push_pair(&mut query, "block_id", id.as_str());
        push_paging(&mut query, page_size, cursor);
        assert(pairs_view(query@) =~= seq![("block_id"@, id@)] + paging(
            page_size,
            view_of(cursor),
        ));
        Ok(ApiRequest::with_query("/v1/comments", query))
    }

    /// Asks for a comment.
    pub fn get_comment(&self, comment_id: &str) -> (r: Result<ApiRequest, CliError>)
        ensures
            outcome(r) == for_id(
                comment_id@,
                |id: Seq<char>| plain_request(Method::Get, "/v1/comments/"@ + id),
            ),
    {
        match id_path("/v1/comments/", comment_id) {
            Ok(path) => Ok(ApiRequest::plain(Method::Get, path.as_str())),
            Err(e) => Err(e),
        }
    }

    /// Creates a comment.
    pub fn create_comment(&self, body: Json) -> (r: ApiRequest)
        ensures
            r@ == body_request(Method::Post, "/v1/comments"@, body@),
    {
        ApiRequest::with_body(Method::Post, "/v1/comments", body)
    }

    /// Asks for the file uploads.
    pub fn list_file_uploads(
        &self,
        status: Option<&str>,
        page_size: Option<usize>,
        cursor: Option<String>,
    ) -> (r: ApiRequest)
        ensures
            r@ == query_request(
                "/v1/file_uploads"@,
                (match status {
                    Some(s) => seq![("status"@, s@)],
                    None => Seq::empty(),
                }) + paging(page_size, view_of(cursor)),
            ),
    {
        let mut query: Vec<(String, String)> = Vec::new();
        if let Some(value) = status {
            push_pair(&mut query, "status", value);
        }
        push_paging(&mut query, page_size, cursor);
        assert(pairs_view(query@) =~= (match status {
            Some(s) => seq![("status"@, s@)],
            None => Seq::empty(),
        }) + paging(page_size, view_of(cursor)));
        ApiRequest::with_query("/v1/file_uploads", query)
    }

    /// Asks for a file upload.
    pub fn get_file_upload(&self, file_upload_id: &str) -> (r: Result<ApiRequest, CliError>)
        ensures
            outcome(r) == for_id(
                file_upload_id@,
                |id: Seq<char>| plain_request(Method::Get, "/v1/file_uploads/"@ + id),
            ),
    {
        match id_path("/v1/file_uploads/", file_upload_id) {
            Ok(path) => Ok(ApiRequest::plain(Method::Get, path.as_str())),
            Err(e) => Err(e),
        }
    }
}

/// What is sent to add markdown to the end of a page.
pub open spec fn appended_markdown(markdown: Seq<char>) -> JsonView {
    JsonView::Object(
        map![
            "type"@ => JsonView::Text("insert_content"@),
            "insert_content"@ => JsonView::Object(map!["content"@ => JsonView::Text(markdown)]),
        ],
    )
}

/// What is sent to put markdown in place of the contents of a page.
pub open spec fn replaced_markdown(markdown: Seq<char>, allow_deleting_content: bool) -> JsonView {
    JsonView::Object(
        map![
            "type"@ => JsonView::Text("replace_content"@),
            "replace_content"@ => JsonView::Object(
                map![
                    "new_str"@ => JsonView::Text(markdown),
                    "allow_deleting_content"@ => JsonView::Bool(allow_deleting_content),
                ],
            ),
        ],
    )
}

/// What is sent to add blocks to a block.
pub open spec fn appended_children(children: JsonView, position: Option<JsonView>) -> JsonView {
    JsonView::Object(with_field(map!["children"@ => children], "position"@, position))
}

/// The address of the API does not end in a slash, so that a path can follow it.
pub proof fn addresses_end_without_a_slash(base_url: Seq<char>)
    ensures
        base_url_of(base_url).len() > 0 ==> base_url_of(base_url).last() != '/',
{
    nothing_trails(DEFAULT_API_BASE_URL@, '/');
    nothing_trails(base_url, '/');
}

/// A new page stands under its parent, with its title in the title property and with the content
/// that was given, if any.
pub proof fn new_pages_are_complete(
    parent: ParentView,
    title: Seq<char>,
    markdown: Option<Seq<char>>,
)
    ensures
        new_page(parent, title, markdown).field("parent"@) == Some(parent_value(parent)),
        new_page(parent, title, markdown).inside("properties"@).field(title_property_of(parent))
            == Some(title_value(title)),
        new_page(parent, title, markdown).text_field("markdown"@) == markdown,
{
    reveal_strlit("parent");
    reveal_strlit("properties");
    reveal_strlit("markdown");
    assert("parent"@.len() == 6);
    assert("properties"@.len() == 10);
    assert("markdown"@.len() == 8);
}

} // verus!
