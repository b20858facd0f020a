//! How the failures of the program are reported: which kind of failure each message stands for.
use vstd::prelude::*;

use crate::errors::{
    class_exit_code, error_class, friendly, speaks_of_authentication, speaks_of_forbidden_request,
    speaks_of_invalid_request, speaks_of_local_files, speaks_of_missing_object,
    speaks_of_rate_limit, ErrorClass,
};
use crate::ids::no_id_message;
use crate::inputs::{bad_body_message, unreadable_file_message};
use crate::text::{contains, decimal, lower, occurs_at, trimmed};

verus! {

/// A phrase in a part of a text is in the text.
proof fn phrase_in_a_part(
    front: Seq<char>,
    part: Seq<char>,
    back: Seq<char>,
    phrase: Seq<char>,
    at: int,
)
    requires
        occurs_at(lower(part), phrase, at),
    ensures
        contains(lower(front + part + back), phrase),
{
    let whole = front + part + back;
    let start = front.len() + at;
    assert forall|k: int| 0 <= k < phrase.len() implies lower(whole)[start + k] == phrase[k] by {
        assert(lower(part).subrange(at, at + phrase.len())[k] == phrase[k]);
        assert(whole[start + k] == part[at + k]);
    }
    assert(lower(whole).subrange(start, start + phrase.len()) =~= phrase);
    assert(occurs_at(lower(whole), phrase, start));
}

/// A phrase at the start of a text is in the text.
proof fn phrase_at_the_start(part: Seq<char>, back: Seq<char>, phrase: Seq<char>, at: int)
    requires
        occurs_at(lower(part), phrase, at),
    ensures
        contains(lower(part + back), phrase),
{
    phrase_in_a_part(Seq::empty(), part, back, phrase, at);
    assert(Seq::empty() + part + back =~= part + back);
}

/// A response that asks for fewer requests is always reported as a rate limit.
pub proof fn rate_limits_are_reported(code: Option<Seq<char>>, message: Seq<char>)
    ensures
        error_class(friendly(429, code, message)) == ErrorClass::RateLimited,
{
    reveal_strlit("Notion API error ");
    reveal_strlit(": ");
    reveal_strlit("429");
    reveal_with_fuel(decimal, 4);
    let number = decimal(429);
    assert(number =~= "429"@);
    assert(lower(number) =~= "429"@);
    assert(lower(number).subrange(0, 3) =~= "429"@);
    assert(occurs_at(lower(number), "429"@, 0));
    phrase_in_a_part("Notion API error "@, number, ": "@ + message, "429"@, 0);
    assert("Notion API error "@ + number + (": "@ + message) =~= friendly(429, code, message));
}

/// A refused token is reported as such, unless the text that comes with it speaks of a rate limit.
pub proof fn refused_tokens_are_reported(code: Option<Seq<char>>, message: Seq<char>)
    requires
        !speaks_of_rate_limit(lower(friendly(401, code, message))),
    ensures
        error_class(friendly(401, code, message)) == ErrorClass::Unauthorized,
{
    reveal_strlit("Notion authentication failed. Re-run `notioncli auth login ...`. ");
    reveal_strlit("authentication failed");
    let part = "Notion authentication failed. Re-run `notioncli auth login ...`. "@;
    let phrase = "authentication failed"@;
    assert(lower(part).subrange(7, 7 + phrase.len() as int) =~= phrase);
    assert(occurs_at(lower(part), phrase, 7));
    phrase_at_the_start(part, message, phrase, 7);
}

/// An object that Notion cannot find is reported as such, unless the text that comes with it speaks
/// of a rate limit or of a token.
pub proof fn missing_objects_are_reported(message: Seq<char>)
    requires
        ({
            let text = lower(friendly(404, Some("object_not_found"@), message));
            !speaks_of_rate_limit(text) && !speaks_of_authentication(text)
        }),
    ensures
        error_class(friendly(404, Some("object_not_found"@), message)) == ErrorClass::NotFound,
{
    reveal_strlit(
        "Notion could not find that object. The page or data source may not be shared with the integration. ",
    );
    reveal_strlit("could not find that object");
    let part =
        "Notion could not find that object. The page or data source may not be shared with the integration. "@;
    let phrase = "could not find that object"@;
    assert(lower(part).subrange(7, 7 + phrase.len() as int) =~= phrase);
    assert(occurs_at(lower(part), phrase, 7));
    phrase_at_the_start(part, message, phrase, 7);
}

/// A request that Notion finds invalid is reported as such, unless the text that comes with it
/// speaks of something that goes before.
pub proof fn invalid_requests_are_reported(message: Seq<char>)
    requires
        ({
            let text = lower(friendly(400, Some("validation_error"@), message));
            &&& !speaks_of_rate_limit(text)
            &&& !speaks_of_authentication(text)
            &&& !speaks_of_missing_object(text)
        }),
    ensures
        error_class(friendly(400, Some("validation_error"@), message)) == ErrorClass::Validation,
{
    reveal_strlit("Notion rejected the request as invalid. ");
    reveal_strlit("rejected the request as invalid");
    let part = "Notion rejected the request as invalid. "@;
    let phrase = "rejected the request as invalid"@;
    assert(lower(part).subrange(7, 7 + phrase.len() as int) =~= phrase);
    assert(occurs_at(lower(part), phrase, 7));
    phrase_at_the_start(part, message, phrase, 7);
}

/// A request that is not allowed is reported as such, unless the text that comes with it speaks of
/// something that goes before.
pub proof fn forbidden_requests_are_reported(code: Option<Seq<char>>, message: Seq<char>)
    requires
        ({
            let text = lower(friendly(403, code, message));
            &&& !speaks_of_rate_limit(text)
            &&& !speaks_of_authentication(text)
            &&& !speaks_of_missing_object(text)
            &&& !speaks_of_invalid_request(text)
            &&& !speaks_of_local_files(text)
        }),
    ensures
        error_class(friendly(403, code, message)) == ErrorClass::Forbidden,
{
    reveal_strlit(
        "Notion rejected the request with 403. Check your integration capabilities and page/data source sharing. ",
    );
    reveal_strlit("rejected the request with 403");
    let part =
        "Notion rejected the request with 403. Check your integration capabilities and page/data source sharing. "@;
    let phrase = "rejected the request with 403"@;
    assert(lower(part).subrange(7, 7 + phrase.len() as int) =~= phrase);
    assert(occurs_at(lower(part), phrase, 7));
    phrase_at_the_start(part, message, phrase, 7);
}

/// Every response with an error status is reported as a failure of the API, unless the message for
/// it speaks of something else.
pub proof fn other_responses_are_reported(status: u16, code: Option<Seq<char>>, message: Seq<char>)
    requires
        status != 401,
        status != 403,
        status == 404 ==> code != Some("object_not_found"@),
        status == 400 ==> code != Some("validation_error"@),
        ({
            let text = lower(friendly(status, code, message));
            &&& !speaks_of_rate_limit(text)
            &&& !speaks_of_authentication(text)
            &&& !speaks_of_missing_object(text)
            &&& !speaks_of_invalid_request(text)
            &&& !speaks_of_local_files(text)
            &&& !speaks_of_forbidden_request(text)
        }),
    ensures
        error_class(friendly(status, code, message)) == ErrorClass::Api,
{
    reveal_strlit("Notion API error ");
    reveal_strlit("notion api error");
    let part = "Notion API error "@;
    let phrase = "notion api error"@;
    assert(lower(part).subrange(0, phrase.len() as int) =~= phrase);
    assert(occurs_at(lower(part), phrase, 0));
    let rest = decimal(status as nat) + ": "@ + message;
    phrase_at_the_start(part, rest, phrase, 0);
    assert(part + rest =~= friendly(status, code, message));
}

/// A text that holds no id is reported as an object that is not there, unless it speaks of a rate
/// limit or of a token itself.
pub proof fn texts_without_ids_are_reported(raw: Seq<char>)
    requires
        trimmed(raw).len() > 0,
        !speaks_of_rate_limit(lower(no_id_message(raw))),
        !speaks_of_authentication(lower(no_id_message(raw))),
    ensures
        error_class(no_id_message(raw)) == ErrorClass::NotFound,
{
    reveal_strlit("` does not look like a Notion page or data source id/url");
    reveal_strlit("does not look like a notion page or data source");
    let part = "` does not look like a Notion page or data source id/url"@;
    let phrase = "does not look like a notion page or data source"@;
    assert(lower(part).subrange(2, 2 + phrase.len() as int) =~= phrase);
    assert(occurs_at(lower(part), phrase, 2));
    let front = "`"@ + trimmed(raw);
    phrase_in_a_part(front, part, Seq::empty(), phrase, 2);
    assert(front + part + Seq::empty() =~= no_id_message(raw));
}

/// A request body that is not JSON is reported as an invalid request, unless the name of the place
/// that it comes from speaks of something that goes before.
pub proof fn bad_bodies_are_reported(source: Seq<char>)
    requires
        !speaks_of_rate_limit(lower(bad_body_message(source))),
        !speaks_of_authentication(lower(bad_body_message(source))),
        !speaks_of_missing_object(lower(bad_body_message(source))),
    ensures
        error_class(bad_body_message(source)) == ErrorClass::Validation,
{
    reveal_strlit("failed to parse JSON request body from ");
    reveal_strlit("failed to parse json request body");
    let part = "failed to parse JSON request body from "@;
    let phrase = "failed to parse json request body"@;
    assert(lower(part).subrange(0, phrase.len() as int) =~= phrase);
    assert(occurs_at(lower(part), phrase, 0));
    phrase_at_the_start(part, source, phrase, 0);
}

/// A file that cannot be read is reported as a problem with local files, unless its name speaks of
/// something that goes before.
pub proof fn unreadable_files_are_reported(path: Seq<char>)
    requires
        ({
            let text = lower(unreadable_file_message(path));
            &&& !speaks_of_rate_limit(text)
            &&& !speaks_of_authentication(text)
            &&& !speaks_of_missing_object(text)
            &&& !speaks_of_invalid_request(text)
        }),
    ensures
        error_class(unreadable_file_message(path)) == ErrorClass::LocalFiles,
{
    reveal_strlit("failed to read file ");
    reveal_strlit("failed to read file");
    let part = "failed to read file "@;
    let phrase = "failed to read file"@;
    assert(lower(part).subrange(0, phrase.len() as int) =~= phrase);
    assert(occurs_at(lower(part), phrase, 0));
    phrase_at_the_start(part, path, phrase, 0);
}

/// The case of a message does not matter.
pub proof fn case_does_not_matter(message: Seq<char>)
    ensures
        error_class(lower(message)) == error_class(message),
{
    assert(lower(lower(message)) =~= lower(message));
}

/// The exit code tells the kinds of failure apart. It is never that of success, and never that of
/// arguments that make no sense.
pub proof fn exit_codes_tell_failures_apart(one: ErrorClass, other: ErrorClass)
    ensures
        class_exit_code(one) == class_exit_code(other) ==> one == other,
        class_exit_code(one) > 2,
{
}

} // verus!
