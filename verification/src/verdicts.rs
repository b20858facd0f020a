//! How failures are told apart and put into words, and how responses are judged.
use vstd::prelude::*;

use crate::errors::{class_code, class_exit_code, class_status, error_class, friendly};
use crate::json::JsonView;
use crate::reading::{at, string_in};
use crate::text::{contains, decimal, lower, number, occurs_at, trimmed};
use crate::transport::{decoded, goes_again, is_passing, is_success, pause, says_nothing};

verus! {

/// The message holds the phrase, whatever the case of its letters.
pub open spec fn says(message: Seq<char>, phrase: Seq<char>) -> bool {
    contains(lower(message), phrase)
}

/// The failure with this message is reported with this status, code and exit code.
pub open spec fn reported(
    message: Seq<char>,
    status: int,
    code: Seq<char>,
    exit_code: int,
) -> bool {
    &&& class_status(error_class(message)) == status
    &&& class_code(error_class(message)) == code
    &&& class_exit_code(error_class(message)) == exit_code
}

/// A phrase stands in a text just where the text is something, the phrase and something else.
pub proof fn phrases_are_found_anywhere(hay: Seq<char>, phrase: Seq<char>)
    ensures
        contains(hay, phrase) <==> exists|front: Seq<char>, back: Seq<char>|
            hay == #[trigger] (front + phrase + back),
{
    if contains(hay, phrase) {
        let i = choose|i: int| occurs_at(hay, phrase, i);
        let front = hay.take(i);
        let back = hay.skip(i + phrase.len());
        assert(hay.subrange(i, i + phrase.len()) == phrase);
        assert(hay =~= front + phrase + back) by {
            assert forall|k: int| 0 <= k < hay.len() implies hay[k] == (front + phrase + back)[k] by {
                if i <= k < i + phrase.len() {
                    assert(hay.subrange(i, i + phrase.len())[k - i] == phrase[k - i]);
                }
            }
        }
    }
    if exists|front: Seq<char>, back: Seq<char>| hay == #[trigger] (front + phrase + back) {
        let (front, back): (Seq<char>, Seq<char>) = choose|front: Seq<char>, back: Seq<char>|
            hay == #[trigger] (front + phrase + back);
        let i = front.len() as int;
        assert(hay.subrange(i, i + phrase.len()) =~= phrase);
        assert(occurs_at(hay, phrase, i));
    }
}

/// A message that speaks of a rate limit is reported as one, whatever else it says.
pub proof fn rate_limits_go_first(message: Seq<char>)
    ensures
        (says(message, "rate limit"@) || says(message, "429"@) || says(message, "retry-after"@))
            ==> reported(message, 429, "rate_limited"@, 7),
        reported(message, 429, "rate_limited"@, 7) ==> (says(message, "rate limit"@) || says(
            message,
            "429"@,
        ) || says(message, "retry-after"@)),
{
}

/// A message that speaks of the token, and not of a rate limit, is reported as a refused token.
pub proof fn tokens_go_second(message: Seq<char>)
    requires
        !reported(message, 429, "rate_limited"@, 7),
    ensures
        reported(message, 401, "unauthorized"@, 3) <==> {
            ||| says(message, "authentication failed"@)
            ||| says(message, "no active profile"@)
            ||| says(message, "provide a notion integration token"@)
            ||| says(message, "failed to read token input"@)
        },
{
}

/// A message that speaks of an object which is not there, and of nothing that goes before, is
/// reported as a missing object.
pub proof fn missing_objects_go_third(message: Seq<char>)
    requires
        !reported(message, 429, "rate_limited"@, 7),
        !reported(message, 401, "unauthorized"@, 3),
    ensures
        reported(message, 404, "object_not_found"@, 5) <==> {
            ||| says(message, "could not find that object"@)
            ||| says(message, "does not look like a notion page or data source"@)
        },
{
}

/// A message that speaks of a request which makes no sense, and of nothing that goes before, is
/// reported as an invalid request.
pub proof fn invalid_requests_go_fourth(message: Seq<char>)
    requires
        !reported(message, 429, "rate_limited"@, 7),
        !reported(message, 401, "unauthorized"@, 3),
        !reported(message, 404, "object_not_found"@, 5),
    ensures
        reported(message, 400, "validation_error"@, 6) <==> {
            ||| says(message, "validation error"@)
            ||| says(message, "rejected the request as invalid"@)
            ||| says(message, "failed to parse --filter-json"@)
            ||| says(message, "failed to parse --sort-json"@)
            ||| says(message, "failed to parse json request body"@)
            ||| says(message, "provide json body with --body-json, --from-file, or --stdin"@)
            ||| says(message, "use only one of --body-json, --from-file, or --stdin"@)
            ||| says(message, "json request body must include `children`"@)
            ||| says(message, "use either --from-file or --stdin"@)
            ||| says(message, "provide markdown with --from-file or --stdin"@)
        },
{
}

/// A message that speaks of local files, and of nothing that goes before, is reported as a problem
/// with them.
pub proof fn local_files_go_fifth(message: Seq<char>)
    requires
        !reported(message, 429, "rate_limited"@, 7),
        !reported(message, 401, "unauthorized"@, 3),
        !reported(message, 404, "object_not_found"@, 5),
        !reported(message, 400, "validation_error"@, 6),
    ensures
        reported(message, 400, "invalid_request"@, 4) <==> {
            ||| says(message, "config"@)
            ||| says(message, "credentials file"@)
            ||| says(message, "failed to write temporary credentials file"@)
            ||| says(message, "failed to replace credentials file"@)
            ||| says(message, "failed to read file"@)
            ||| says(message, "failed to read stdin"@)
        },
{
}

/// What is left is a request that is not allowed, another answer from Notion, or something else, by
/// what the message says.
pub proof fn other_failures_go_last(message: Seq<char>)
    requires
        !reported(message, 429, "rate_limited"@, 7),
        !reported(message, 401, "unauthorized"@, 3),
        !reported(message, 404, "object_not_found"@, 5),
        !reported(message, 400, "validation_error"@, 6),
        !reported(message, 400, "invalid_request"@, 4),
    ensures
        ({
            let forbidden = says(message, "rejected the request with 403"@);
            let answered = says(message, "notion api error"@) || says(
                message,
                "request to notion failed"@,
            );
            &&& forbidden ==> reported(message, 403, "forbidden"@, 9)
            &&& !forbidden && answered ==> reported(message, 500, "internal_server_error"@, 8)
            &&& !forbidden && !answered ==> reported(message, 500, "internal_server_error"@, 10)
        }),
{
}

/// Each error status has its words, and what Notion says comes behind them. Two of them belong to
/// one code each.
pub proof fn each_status_has_its_words(status: u16, code: Option<Seq<char>>, message: Seq<char>)
    ensures
        friendly(403, code, message)
            == "Notion rejected the request with 403. Check your integration capabilities and page/data source sharing. "@
            + message,
        friendly(404, Some("object_not_found"@), message)
            == "Notion could not find that object. The page or data source may not be shared with the integration. "@
            + message,
        friendly(401, code, message)
            == "Notion authentication failed. Re-run `notioncli auth login ...`. "@ + message,
        friendly(400, Some("validation_error"@), message)
            == "Notion rejected the request as invalid. "@ + message,
        status != 401 && status != 403 && !(status == 404 && code == Some("object_not_found"@)) && !(
        status == 400 && code == Some("validation_error"@)) ==> friendly(status, code, message)
            == "Notion API error "@ + decimal(status as nat) + ": "@ + message,
{
}

/// A request is sent again after the status for too many requests or a status of five hundred and
/// something, up to three times.
pub proof fn requests_are_repeated_three_times(made: nat, status: u16)
    ensures
        is_passing(status) <==> (status == 429 || status / 100 == 5),
        is_success(status) <==> status / 100 == 2,
        goes_again(made, status) <==> made < 3 && (status == 429 || status / 100 == 5),
{
}

/// The pause is as long as the response asks, but a second at least. Where it does not ask, it is as
/// many seconds as requests went out, but four at most.
pub proof fn pauses_are_as_long_as_asked(text: Seq<char>, attempt: nat)
    ensures
        number(text) matches Some(seconds) ==> pause(Some(text), attempt) == if seconds == 0 {
            1
        } else {
            seconds as nat
        },
        number(text) is None ==> pause(Some(text), attempt) == pause(None, attempt),
        attempt <= 4 ==> pause(None, attempt) == attempt,
        attempt > 4 ==> pause(None, attempt) == 4,
{
}

/// A response that reports success gives the document that it spells, or null where it is blank; if
/// it spells none, there is a failure. Any other response is a failure, in the words for its status,
/// its code and its message; its whole text stands in for a message that it does not have.
pub proof fn responses_are_taken_at_their_word(
    status: u16,
    body: Seq<char>,
    parsed: Option<JsonView>,
)
    ensures
        decoded(status, body, parsed) == match (status / 100 == 2, trimmed(body).len() == 0, parsed) {
            (true, true, _) => Ok(JsonView::Null),
            (true, false, Some(document)) => Ok(document),
            (true, false, None) => Err("failed to decode JSON response"@),
            (false, _, None) => Err(friendly(status, None, body)),
            (false, _, Some(document)) => Err(
                friendly(
                    status,
                    string_in(at(document, "code"@)),
                    match string_in(at(document, "message"@)) {
                        Some(message) => message,
                        None => body,
                    },
                ),
            ),
        },
{
}

/// A failure says nothing of what was asked for just where there was no response, or one that makes
/// no sense, or one that refuses the token or says that Notion has too much to do or has failed.
pub proof fn some_failures_say_nothing(message: Seq<char>)
    ensures
        says_nothing(message) <==> {
            ||| message == "request to Notion failed"@
            ||| message == "failed to decode JSON response"@
            ||| "Notion authentication failed. Re-run `notioncli auth login ...`. "@.is_prefix_of(
                message,
            )
            ||| exists|status: u16|
                (status == 429 || 500 <= status <= 599) && ("Notion API error "@ + #[trigger] decimal(
                    status as nat,
                ) + ": "@).is_prefix_of(message)
        },
{
    if says_nothing(message) && message != "request to Notion failed"@ && message
        != "failed to decode JSON response"@
        && !"Notion authentication failed. Re-run `notioncli auth login ...`. "@.is_prefix_of(message) {
        let status = choose|status: u16|
            is_passing(status) && (#[trigger] crate::transport::api_error_text(
                status,
            )).is_prefix_of(message);
        assert(("Notion API error "@ + decimal(status as nat) + ": "@).is_prefix_of(message));
    }
    if exists|status: u16|
        (status == 429 || 500 <= status <= 599) && ("Notion API error "@ + #[trigger] decimal(
            status as nat,
        ) + ": "@).is_prefix_of(message) {
        let status = choose|status: u16|
            (status == 429 || 500 <= status <= 599) && ("Notion API error "@ + #[trigger] decimal(
                status as nat,
            ) + ": "@).is_prefix_of(message);
        assert(crate::transport::api_error_text(status).is_prefix_of(message));
    }
}

} // verus!
