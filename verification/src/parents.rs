//! Finding out where a new page goes.
use vstd::prelude::*;
use vstd::string::StringExecFns;

use crate::client::{CreateParent, NotionClient, ParentView};
use crate::errors::CliError;
use crate::ids::{
    is_canonical, no_id_message, normalize_notion_id, normalized_id, normalized_ids_are_canonical,
};
use crate::json::{Json, JsonView};
use crate::objects::{data_source_title_property_name, title_property};
use crate::request::{plain_request, ApiRequest, Method, RequestView};
use crate::text::{same, view_of};
use crate::transport::{
    decoded, document_outcome, is_passing, is_uninformative, refusals_say_something, says_nothing,
};

verus! {

/// What the answer to a lookup decides.
#[derive(Debug)]
pub enum ParentLookup {
    /// A data source was asked for, but the id may be that of a page.
    Detect { id: String },
    /// A data source was asked for.
    DataSource { id: String },
}

/// What the answer to a lookup decides.
pub enum ParentLookupView {
    Detect { id: Seq<char> },
    DataSource { id: Seq<char> },
}

impl View for ParentLookup {
    type V = ParentLookupView;

    open spec fn view(&self) -> ParentLookupView {
        match self {
            ParentLookup::Detect { id } => ParentLookupView::Detect { id: id@ },
            ParentLookup::DataSource { id } => ParentLookupView::DataSource { id: id@ },
        }
    }
}

/// What is known of where a new page goes.
#[derive(Debug)]
pub enum ParentStep {
    /// The request goes out; the document that comes back is handed to the lookup.
    Ask { request: ApiRequest, lookup: ParentLookup },
    Known(Result<CreateParent, CliError>),
}

/// What is known of where a new page goes.
pub enum ParentStepView {
    Ask { request: RequestView, lookup: ParentLookupView },
    Known(Result<ParentView, Seq<char>>),
}

impl View for ParentStep {
    type V = ParentStepView;

    open spec fn view(&self) -> ParentStepView {
        match self {
            ParentStep::Ask { request, lookup } => ParentStepView::Ask {
                request: request@,
                lookup: lookup@,
            },
            ParentStep::Known(Ok(parent)) => ParentStepView::Known(Ok(parent@)),
            ParentStep::Known(Err(e)) => ParentStepView::Known(Err(e@)),
        }
    }
}

/// What the user is told of a data source without a title property.
pub open spec fn no_title_property_message(id: Seq<char>) -> Seq<char> {
    "could not determine the title property for data source `"@ + id + "`"@
}

/// Asks for the data source with this id.
pub open spec fn data_source_request(id: Seq<char>) -> RequestView {
    plain_request(Method::Get, "/v1/data_sources/"@ + id)
}

/// Where a new page goes that is to stand under whatever the id in `raw` belongs to.
pub open spec fn detected_parent(raw: Seq<char>) -> ParentStepView {
    match normalized_id(raw) {
        Some(id) => ParentStepView::Ask {
            request: data_source_request(id),
            lookup: ParentLookupView::Detect { id },
        },
        None => ParentStepView::Known(Err(no_id_message(raw))),
    }
}

/// Where a new page goes that is to stand in the data source whose id is in `raw`.
pub open spec fn data_source_parent(raw: Seq<char>, named: Option<Seq<char>>) -> ParentStepView {
    match (normalized_id(raw), named) {
        (Some(id), Some(name)) => ParentStepView::Known(
            Ok(ParentView::DataSource { data_source_id: id, title_property: name }),
        ),
        (Some(id), None) => ParentStepView::Ask {
            request: data_source_request(id),
            lookup: ParentLookupView::DataSource { id },
        },
        (None, _) => ParentStepView::Known(Err(no_id_message(raw))),
    }
}

/// Where a new page goes that is to stand under the page whose id is in `raw`.
pub open spec fn page_parent(raw: Seq<char>) -> ParentStepView {
    match normalized_id(raw) {
        Some(id) => ParentStepView::Known(Ok(ParentView::Page { page_id: id })),
        None => ParentStepView::Known(Err(no_id_message(raw))),
    }
}

/// The document says that it is a data source.
pub open spec fn is_data_source(document: JsonView) -> bool {
    document.text_field("object"@) == Some("data_source"@)
}

impl ParentLookupView {
    /// What is known once the lookup is answered.
    pub open spec fn answered(self, reply: Result<JsonView, Seq<char>>) -> ParentStepView {
        match self {
            ParentLookupView::Detect { id } => match reply {
                Ok(document) => match title_property(document) {
                    Some(name) => ParentStepView::Known(
                        Ok(ParentView::DataSource { data_source_id: id, title_property: name }),
                    ),
                    None => if is_data_source(document) {
                        ParentStepView::Known(Err(no_title_property_message(id)))
                    } else {
                        ParentStepView::Known(Ok(ParentView::Page { page_id: id }))
                    },
                },
                Err(message) => if says_nothing(message) {
                    ParentStepView::Known(Err(message))
                } else {
                    ParentStepView::Known(Ok(ParentView::Page { page_id: id }))
                },
            },
            ParentLookupView::DataSource { id } => match reply {
                Ok(document) => match title_property(document) {
                    Some(name) => ParentStepView::Known(
                        Ok(ParentView::DataSource { data_source_id: id, title_property: name }),
                    ),
                    None => ParentStepView::Known(Err(no_title_property_message(id))),
                },
                Err(message) => ParentStepView::Known(Err(message)),
            },
        }
    }
}

/// Asks for the data source with this id.
fn ask_for_data_source(id: &str) -> (r: ApiRequest)
    ensures
        r@ == data_source_request(id@),
{
    let mut path = "/v1/data_sources/".to_owned();
    path.append(id);
    ApiRequest::plain(Method::Get, path.as_str())
}

/// Whether the document says that it is a data source.
fn describes_data_source(document: &Json) -> (r: bool)
    ensures
        r == is_data_source(document@),
{
    match document.get_str("object") {
        Some(kind) => same(kind, "data_source"),
        None => false,
    }
}

/// The failure of a data source that has no title property.
fn no_title_property(id: &str) -> (r: CliError)
    ensures
        r@ == no_title_property_message(id@),
{
    let mut message = "could not determine the title property for data source `".to_owned();
    message.append(id);
    message.append("`");
    CliError { message }
}

impl ParentLookup {
    /// Takes in the answer to the lookup.
    pub fn resume(self, reply: Result<Json, CliError>) -> (r: ParentStep)
        ensures
            r@ == self@.answered(document_outcome(reply)),
    {
        match self {
            ParentLookup::Detect { id } => match reply {
                Ok(document) => match data_source_title_property_name(&document) {
                    Some(title_property) => ParentStep::Known(
                        Ok(CreateParent::DataSource { data_source_id: id, title_property }),
                    ),
                    None => if describes_data_source(&document) {
                        ParentStep::Known(Err(no_title_property(id.as_str())))
                    } else {
                        ParentStep::Known(Ok(CreateParent::Page { page_id: id }))
                    },
                },
                Err(e) => if is_uninformative(&e) {
                    ParentStep::Known(Err(e))
                } else {
                    ParentStep::Known(Ok(CreateParent::Page { page_id: id }))
                },
            },
            ParentLookup::DataSource { id } => match reply {
                Ok(document) => match data_source_title_property_name(&document) {
                    Some(title_property) => ParentStep::Known(
                        Ok(CreateParent::DataSource { data_source_id: id, title_property }),
                    ),
                    None => ParentStep::Known(Err(no_title_property(id.as_str()))),
                },
                Err(e) => ParentStep::Known(Err(e)),
            },
        }
    }
}

impl NotionClient {
    /// Finds out whether a new page goes under a page or into a data source, by one request: where
    /// the API answers that there is no such data source, the id is taken for that of a page. Where
    /// the answer does not tell, the failure is handed on.
    pub fn resolve_create_parent(&self, parent_id_or_url: &str) -> (r: ParentStep)
        ensures
            r@ == detected_parent(parent_id_or_url@),
    {
        match normalize_notion_id(parent_id_or_url) {
            Ok(id) => ParentStep::Ask {
                request: ask_for_data_source(id.as_str()),
                lookup: ParentLookup::Detect { id },
            },
            Err(e) => ParentStep::Known(Err(e)),
        }
    }

    /// Finds out the title property of the data source that a new page goes into, unless it is
    /// named.
    pub fn resolve_data_source_parent(
        &self,
        data_source_id_or_url: &str,
        title_property_override: Option<String>,
    ) -> (r: ParentStep)
        ensures
            r@ == data_source_parent(data_source_id_or_url@, view_of(title_property_override)),
    {
        let id = match normalize_notion_id(data_source_id_or_url) {
            Ok(id) => id,
            Err(e) => {
                return ParentStep::Known(Err(e));
            },
        };
        match title_property_override {
            Some(title_property) => ParentStep::Known(
                Ok(CreateParent::DataSource { data_source_id: id, title_property }),
            ),
            None => ParentStep::Ask {
                request: ask_for_data_source(id.as_str()),
                lookup: ParentLookup::DataSource { id },
            },
        }
    }

    /// The page that a new page goes under.
    pub fn page_parent(&self, page_id_or_url: &str) -> (r: ParentStep)
        ensures
            r@ == page_parent(page_id_or_url@),
    {
        match normalize_notion_id(page_id_or_url) {
            Ok(page_id) => ParentStep::Known(Ok(CreateParent::Page { page_id })),
            Err(e) => ParentStep::Known(Err(e)),
        }
    }
}

/// A data source that is detected is used as one that is named, with the title property that it
/// has.
pub proof fn detected_data_sources_are_like_named_ones(raw: Seq<char>, document: JsonView)
    requires
        normalized_id(raw) is Some,
        title_property(document) is Some,
    ensures
        detected_parent(raw) matches ParentStepView::Ask { lookup, .. } && lookup.answered(
            Ok(document),
        ) == data_source_parent(raw, title_property(document)),
{
}

/// Where the API answers that there is no such data source, the id is used as that of a page which
/// is named.
pub proof fn detected_pages_are_like_named_ones(
    raw: Seq<char>,
    refused: Result<JsonView, Seq<char>>,
)
    requires
        normalized_id(raw) is Some,
        refused matches Ok(document) ==> title_property(document) is None && !is_data_source(
            document,
        ),
        refused matches Err(message) ==> !says_nothing(message),
    ensures
        detected_parent(raw) matches ParentStepView::Ask { lookup, .. } && lookup.answered(refused)
            == page_parent(raw),
{
}

/// A response that there is no such object makes the id that of a page, whatever comes with it.
pub proof fn missing_data_sources_are_pages(
    raw: Seq<char>,
    body: Seq<char>,
    parsed: Option<JsonView>,
)
    requires
        normalized_id(raw) is Some,
    ensures
        detected_parent(raw) matches ParentStepView::Ask { lookup, .. } && lookup.answered(
            decoded(404, body, parsed),
        ) == page_parent(raw),
{
    refusals_say_something(404, body, parsed);
}

/// Where the lookup does not tell what the id belongs to, because the token is refused or the API
/// has too much to do or has failed, nothing is made of it: the failure is handed on.
pub proof fn lookups_that_do_not_tell_fail(
    raw: Seq<char>,
    status: u16,
    body: Seq<char>,
    parsed: Option<JsonView>,
)
    requires
        normalized_id(raw) is Some,
        status == 401 || is_passing(status),
    ensures
        detected_parent(raw) matches ParentStepView::Ask { lookup, .. } && decoded(
            status,
            body,
            parsed,
        ) matches Err(message) && lookup.answered(Err(message)) == ParentStepView::Known(
            Err(message),
        ),
{
    refusals_say_something(status, body, parsed);
}

/// Naming the kind of parent, and its title property, saves every lookup.
pub proof fn named_parents_need_no_lookup(raw: Seq<char>, name: Seq<char>)
    ensures
        page_parent(raw) is Known,
        data_source_parent(raw, Some(name)) is Known,
{
}

/// Whatever the answer is, a parent is known after one lookup, whether it is detected or a data
/// source whose title property has to be found out.
pub proof fn one_lookup_is_enough(
    raw: Seq<char>,
    named: Option<Seq<char>>,
    reply: Result<JsonView, Seq<char>>,
)
    ensures
        detected_parent(raw) matches ParentStepView::Ask { lookup, .. } ==> lookup.answered(reply)
            is Known,
        data_source_parent(raw, named) matches ParentStepView::Ask { lookup, .. }
            ==> lookup.answered(reply) is Known,
{
}

/// Once the text holds an id, detecting a parent fails only where the lookup does not tell what the
/// id belongs to, or tells that it is a data source without a title property.
pub proof fn detection_ends_at_a_parent(raw: Seq<char>, reply: Result<JsonView, Seq<char>>)
    requires
        normalized_id(raw) is Some,
        reply matches Ok(document) ==> title_property(document) is Some || !is_data_source(document),
        reply matches Err(message) ==> !says_nothing(message),
    ensures
        detected_parent(raw) matches ParentStepView::Ask { lookup, .. } && lookup.answered(
            reply,
        ) matches ParentStepView::Known(Ok(_)),
{
}

/// The ids of parents are canonical, whatever the form in which they were given.
pub proof fn parent_ids_are_canonical(raw: Seq<char>, named: Option<Seq<char>>)
    ensures
        page_parent(raw) matches ParentStepView::Known(Ok(ParentView::Page { page_id }))
            ==> is_canonical(page_id),
        data_source_parent(raw, named) matches ParentStepView::Known(
            Ok(ParentView::DataSource { data_source_id, .. }),
        ) ==> is_canonical(data_source_id),
        detected_parent(raw) matches ParentStepView::Ask {
            lookup: ParentLookupView::Detect { id },
            ..
        } ==> is_canonical(id),
{
    normalized_ids_are_canonical(raw);
}

} // verus!
