//! What is done with a response: ask again, give the document back, or say what went wrong.
use vstd::prelude::*;
use vstd::string::StringExecFns;

use crate::errors::{friendly, friendly_error, CliError};
use crate::json::{Json, JsonView};
use crate::parse::{document_of, parse_json};
use crate::text::{
    begins_with, decimal, decimal_string, number, numerals_are_read_back, parse_number, same, trim,
    trimmed, view_of_str,
};

verus! {

/// What the user is told where a request gets no response.
pub const REQUEST_FAILED: &'static str = "request to Notion failed";

/// What the user is told where sending a file gets no response.
pub const UPLOAD_FAILED: &'static str = "sending file upload to Notion failed";

/// What the user is told where a response makes no sense.
pub const BAD_RESPONSE: &'static str = "failed to decode JSON response";

/// The most requests that are sent for one operation.
pub const MOST_REQUESTS: usize = 4;

/// The longest pause before a request is sent again, in seconds, where the response names none.
pub const LONGEST_PAUSE: u64 = 4;

/// The status says that the same request may succeed later.
pub open spec fn is_passing(status: u16) -> bool {
    status == 429 || 500 <= status < 600
}

/// The status says that the request succeeded.
pub open spec fn is_success(status: u16) -> bool {
    200 <= status < 300
}

/// Whether the status says that the same request may succeed later.
pub fn should_retry(status: u16) -> (r: bool)
    ensures
        r == is_passing(status),
{
    status == 429 || (500 <= status && status < 600)
}

/// The seconds to wait after the given number of requests, where the response asks for
/// `retry_after`.
pub open spec fn pause(retry_after: Option<Seq<char>>, attempt: nat) -> nat {
    let named = match retry_after {
        Some(text) => number(text),
        None => None,
    };
    match named {
        Some(seconds) => if seconds < 1 {
            1
        } else {
            seconds as nat
        },
        None => if attempt < LONGEST_PAUSE {
            attempt
        } else {
            LONGEST_PAUSE as nat
        },
    }
}

/// The seconds to wait after the request number `attempt`, where the response has the header
/// `retry-after`.
pub fn retry_delay(retry_after: Option<&str>, attempt: usize) -> (r: u64)
    ensures
        r == pause(view_of_str(retry_after), attempt as nat),
{
    let named = match retry_after {
        Some(text) => parse_number(text),
        None => None,
    };
    match named {
        Some(seconds) => if seconds < 1 {
            1
        } else {
            seconds
        },
        None => if (attempt as u64) < LONGEST_PAUSE {
            attempt as u64
        } else {
            LONGEST_PAUSE
        },
    }
}

/// The requests that were sent for one operation and answered, all but the latest.
#[derive(Debug)]
pub struct Attempts {
    made: usize,
}

impl View for Attempts {
    type V = nat;

    closed spec fn view(&self) -> nat {
        self.made as nat
    }
}

/// What follows a response.
#[derive(Debug)]
pub enum Next {
    /// The same request goes out again, after a pause of so many seconds.
    Retry { seconds: u64, attempts: Attempts },
    /// The response is taken as it is.
    Decode,
}

/// A request is sent again after this response, where `made` requests went before it.
pub open spec fn goes_again(made: nat, status: u16) -> bool {
    is_passing(status) && made + 1 < MOST_REQUESTS
}

impl Attempts {
    #[verifier::type_invariant]
    spec fn few(self) -> bool {
        self.made < MOST_REQUESTS
    }

    /// Nothing was sent yet.
    pub fn new() -> (r: Self)
        ensures
            r@ == 0,
    {
        Attempts { made: 0 }
    }

    /// Decides what follows the response to the request that went out last.
    pub fn request_json(self, status: u16, retry_after: Option<&str>) -> (r: Next)
        ensures
            match r {
                Next::Retry { seconds, attempts } => {
                    &&& goes_again(self@, status)
                    &&& seconds == pause(view_of_str(retry_after), self@ + 1)
                    &&& attempts@ == self@ + 1
                },
                Next::Decode => !goes_again(self@, status),
            },
    {
        proof {
            use_type_invariant(&self);
        }
        let attempt: usize = self.made + 1;
        if should_retry(status) && attempt < MOST_REQUESTS {
            Next::Retry {
                seconds: retry_delay(retry_after, attempt),
                attempts: Attempts { made: attempt },
            }
        } else {
            Next::Decode
        }
    }
}

/// However the API answers, the requests for one operation come to an end: where each of these
/// responses is followed by another request, there are fewer of them than requests may be sent.
pub proof fn requests_come_to_an_end(statuses: Seq<u16>)
    requires
        forall|i: int|
            0 <= i < statuses.len() ==> goes_again(i as nat, #[trigger] statuses[i]),
    ensures
        statuses.len() < MOST_REQUESTS,
{
    if statuses.len() > 0 {
        assert(goes_again((statuses.len() - 1) as nat, statuses[statuses.len() - 1]));
    }
}

/// Unless the API has too much to do or has failed, a response is not followed by another request.
pub proof fn settled_requests_are_not_repeated(made: nat, status: u16)
    requires
        status < 500 || status >= 600,
        status != 429,
    ensures
        !goes_again(made, status),
{
}

/// There is a pause before a request is sent again, and where the response names one it is kept.
pub proof fn pauses_are_kept(retry_after: Option<Seq<char>>, attempt: nat)
    requires
        attempt >= 1,
    ensures
        pause(retry_after, attempt) >= 1,
        retry_after matches Some(text) ==> (number(text) matches Some(seconds) ==> pause(
            retry_after,
            attempt,
        ) >= seconds),
        retry_after is None ==> pause(retry_after, attempt) <= LONGEST_PAUSE,
{
}

/// What a response means: the document in it, or what the user is told. `parsed` is the document
/// that the body spells, if it spells one.
pub open spec fn decoded(status: u16, body: Seq<char>, parsed: Option<JsonView>) -> Result<
    JsonView,
    Seq<char>,
> {
    if is_success(status) {
        if trimmed(body).len() == 0 {
            Ok(JsonView::Null)
        } else {
            match parsed {
                Some(document) => Ok(document),
                None => Err(BAD_RESPONSE@),
            }
        }
    } else {
        let code = match parsed {
            Some(document) => document.text_field("code"@),
            None => None,
        };
        let named = match parsed {
            Some(document) => document.text_field("message"@),
            None => None,
        };
        let message = match named {
            Some(text) => text,
            None => body,
        };
        Err(friendly(status, code, message))
    }
}

/// A document or the message of the failure, as text.
pub open spec fn document_outcome(r: Result<Json, CliError>) -> Result<JsonView, Seq<char>> {
    match r {
        Ok(document) => Ok(document@),
        Err(e) => Err(e@),
    }
}

/// The document in a response, where `parsed` is what its body spells.
pub fn decode_parsed(status: u16, body: &str, parsed: Option<Json>) -> (r: Result<Json, CliError>)
    ensures
        document_outcome(r) == decoded(
            status,
            body@,
            match parsed {
                Some(document) => Some(document@),
                None => None,
            },
        ),
{
    if 200 <= status && status < 300 {
        if trim(body).as_str().is_empty() {
            return Ok(Json::null());
        }
        return match parsed {
            Some(document) => Ok(document),
            None => Err(CliError::new(BAD_RESPONSE)),
        };
    }
    let friendly_text = match &parsed {
        Some(document) => {
            let message = match document.get_str("message") {
                Some(text) => text,
                None => body,
            };
            friendly_error(status, document.get_str("code"), message)
        },
        None => friendly_error(status, None, body),
    };
    Err(CliError { message: friendly_text })
}

/// The document in a response.
pub fn decode_response(status: u16, body: &str) -> (r: Result<Json, CliError>)
    ensures
        document_outcome(r) == decoded(status, body@, document_of(body@)),
{
    decode_parsed(status, body, parse_json(body))
}

/// A response gives a document only if it says that the request succeeded.
pub proof fn only_success_gives_documents(status: u16, body: Seq<char>, parsed: Option<JsonView>)
    ensures
        decoded(status, body, parsed) is Ok ==> is_success(status),
{
}

/// How the message of a response with this status starts, where there are no words for it.
pub open spec fn api_error_text(status: u16) -> Seq<char> {
    "Notion API error "@ + decimal(status as nat) + ": "@
}

/// How the message of a response starts that refuses the token.
pub open spec fn refused_token_text() -> Seq<char> {
    "Notion authentication failed. Re-run `notioncli auth login ...`. "@
}

/// The failure says nothing of what was asked for: there was no response, or one that makes no
/// sense, or one that refuses the token or says that the same request may succeed later.
pub open spec fn says_nothing(message: Seq<char>) -> bool {
    ||| message == REQUEST_FAILED@
    ||| message == BAD_RESPONSE@
    ||| refused_token_text().is_prefix_of(message)
    ||| exists|status: u16|
        is_passing(status) && (#[trigger] api_error_text(status)).is_prefix_of(message)
}

/// Whether the message starts as that of a response with this status.
fn has_status(message: &str, status: u16) -> (r: bool)
    ensures
        r == api_error_text(status).is_prefix_of(message@),
{
    let mut start = "Notion API error ".to_owned();
    start.append(decimal_string(status as u64).as_str());
    start.append(": ");
    begins_with(message, start.as_str())
}

/// Whether the failure says nothing of what was asked for.
pub fn is_uninformative(error: &CliError) -> (r: bool)
    ensures
        r == says_nothing(error@),
{
    let message = error.message.as_str();
    if same(message, REQUEST_FAILED) || same(message, BAD_RESPONSE) || begins_with(
        message,
        "Notion authentication failed. Re-run `notioncli auth login ...`. ",
    ) || has_status(message, 429) {
        return true;
    }
    let mut status: u16 = 500;
    while status < 600
        invariant
            message@ == error@,
            500 <= status <= 600,
            forall|earlier: u16|
                500 <= earlier < status ==> !(#[trigger] api_error_text(earlier)).is_prefix_of(
                    message@,
                ),
        decreases 600 - status,
    {
        if has_status(message, status) {
            return true;
        }
        status = status + 1;
    }
    false
}

/// A status of three digits is told by the start of its message.
proof fn statuses_are_told_apart(one: u16, other: u16, message: Seq<char>)
    requires
        100 <= one < 1000,
        100 <= other < 1000,
        api_error_text(one).is_prefix_of(message),
        api_error_text(other).is_prefix_of(message),
    ensures
        one == other,
{
    reveal_strlit("Notion API error ");
    reveal_strlit(": ");
    reveal_with_fuel(decimal, 4);
    let a = decimal(one as nat);
    let b = decimal(other as nat);
    assert(a.len() == 3 && b.len() == 3);
    assert forall|k: int| 0 <= k < 3 implies a[k] == b[k] by {
        assert(api_error_text(one)[17 + k] == a[k]);
        assert(api_error_text(other)[17 + k] == b[k]);
        assert(api_error_text(one)[17 + k] == message[17 + k]);
        assert(api_error_text(other)[17 + k] == message[17 + k]);
    }
    assert(a =~= b);
    numerals_are_read_back(one as u64);
    numerals_are_read_back(other as u64);
}

/// A response with an error status says nothing of what was asked for just where it refuses the
/// token or may be followed by another request; so does a response that makes no sense.
pub proof fn refusals_say_something(status: u16, body: Seq<char>, parsed: Option<JsonView>)
    requires
        100 <= status < 1000,
    ensures
        decoded(status, body, parsed) matches Err(message) ==> says_nothing(message) == (is_success(
            status,
        ) || status == 401 || is_passing(status)),
{
    if let Err(message) = decoded(status, body, parsed) {
        reveal_strlit("request to Notion failed");
        reveal_strlit("failed to decode JSON response");
        reveal_strlit("Notion API error ");
        reveal_strlit("Notion authentication failed. Re-run `notioncli auth login ...`. ");
        reveal_strlit("Notion rejected the request as invalid. ");
        reveal_strlit(
            "Notion rejected the request with 403. Check your integration capabilities and page/data source sharing. ",
        );
        reveal_strlit(
            "Notion could not find that object. The page or data source may not be shared with the integration. ",
        );
        if !is_success(status) {
            assert(message[0] == 'N');
            assert(status == 401 ==> refused_token_text().is_prefix_of(message)) by {
                if status == 401 {
                    assert(refused_token_text() =~= message.subrange(
                        0,
                        refused_token_text().len() as int,
                    ));
                }
            }
            assert(status != 401 ==> message[7] != 'a');
            if refused_token_text().is_prefix_of(message) {
                assert(refused_token_text()[7] == message[7]);
            }
            if is_passing(status) {
                assert(api_error_text(status) =~= message.subrange(
                    0,
                    api_error_text(status).len() as int,
                ));
            }
            assert forall|other: u16|
                is_passing(other) && (#[trigger] api_error_text(other)).is_prefix_of(
                    message,
                ) implies is_passing(status) by {
                assert(api_error_text(other)[7] == message[7]);
                assert(message[7] == 'A');
                assert(api_error_text(status) =~= message.subrange(
                    0,
                    api_error_text(status).len() as int,
                ));
                statuses_are_told_apart(status, other, message);
            }
        }
    }
}

} // verus!
