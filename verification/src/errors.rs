//! What went wrong, in words, and how the program reports it.
use vstd::prelude::*;
use vstd::string::StringExecFns;

use crate::text::{contains, decimal, decimal_string, has, lower, lower_string, same};

verus! {

/// A failure, described by the message that the user sees.
#[derive(Debug)]
pub struct CliError {
    pub message: String,
}

impl View for CliError {
    type V = Seq<char>;

    open spec fn view(&self) -> Seq<char> {
        self.message@
    }
}

impl CliError {
    /// The failure with this message.
    pub fn new(message: &str) -> (r: CliError)
        ensures
            r@ == message@,
    {
        CliError { message: message.to_owned() }
    }
}

impl Clone for CliError {
    fn clone(&self) -> (r: Self)
        ensures
            r == *self,
    {
        CliError { message: self.message.clone() }
    }
}

/// How a failure is reported: the HTTP status and the code in the error object, and the exit code
/// of the process.
#[derive(Debug, Clone, Copy)]
pub struct ClassifiedError {
    pub status: u16,
    pub code: &'static str,
    pub exit_code: i32,
}

/// The kinds of failure that are told apart.
pub enum ErrorClass {
    RateLimited,
    Unauthorized,
    NotFound,
    Validation,
    LocalFiles,
    Forbidden,
    Api,
    Other,
}

/// The text speaks of a rate limit.
pub open spec fn speaks_of_rate_limit(text: Seq<char>) -> bool {
    contains(text, "rate limit"@) || contains(text, "429"@) || contains(text, "retry-after"@)
}

/// The text speaks of a missing or refused token.
pub open spec fn speaks_of_authentication(text: Seq<char>) -> bool {
    ||| contains(text, "authentication failed"@)
    ||| contains(text, "no active profile"@)
    ||| contains(text, "provide a notion integration token"@)
    ||| contains(text, "failed to read token input"@)
}

/// The text speaks of an object that is not there.
pub open spec fn speaks_of_missing_object(text: Seq<char>) -> bool {
    ||| contains(text, "could not find that object"@)
    ||| contains(text, "does not look like a notion page or data source"@)
}

/// The text speaks of an invalid request.
pub open spec fn speaks_of_invalid_request(text: Seq<char>) -> bool {
    ||| contains(text, "validation error"@)
    ||| contains(text, "rejected the request as invalid"@)
    ||| contains(text, "failed to parse --filter-json"@)
    ||| contains(text, "failed to parse --sort-json"@)
    ||| contains(text, "failed to parse json request body"@)
    ||| contains(text, "provide json body with --body-json, --from-file, or --stdin"@)
    ||| contains(text, "use only one of --body-json, --from-file, or --stdin"@)
    ||| contains(text, "json request body must include `children`"@)
    ||| contains(text, "use either --from-file or --stdin"@)
    ||| contains(text, "provide markdown with --from-file or --stdin"@)
}

/// The text speaks of the configuration, the credentials or an input file.
pub open spec fn speaks_of_local_files(text: Seq<char>) -> bool {
    ||| contains(text, "config"@)
    ||| contains(text, "credentials file"@)
    ||| contains(text, "failed to write temporary credentials file"@)
    ||| contains(text, "failed to replace credentials file"@)
    ||| contains(text, "failed to read file"@)
    ||| contains(text, "failed to read stdin"@)
}

/// The text speaks of a request that Notion does not allow.
pub open spec fn speaks_of_forbidden_request(text: Seq<char>) -> bool {
    contains(text, "rejected the request with 403"@)
}

/// The text speaks of another answer from Notion, or of none.
pub open spec fn speaks_of_api(text: Seq<char>) -> bool {
    contains(text, "notion api error"@) || contains(text, "request to notion failed"@)
}

/// The kind of failure that a message describes. Case does not matter, and the kinds are tried in
/// this order.
pub open spec fn error_class(message: Seq<char>) -> ErrorClass {
    let text = lower(message);
    if speaks_of_rate_limit(text) {
        ErrorClass::RateLimited
    } else if speaks_of_authentication(text) {
        ErrorClass::Unauthorized
    } else if speaks_of_missing_object(text) {
        ErrorClass::NotFound
    } else if speaks_of_invalid_request(text) {
        ErrorClass::Validation
    } else if speaks_of_local_files(text) {
        ErrorClass::LocalFiles
    } else if speaks_of_forbidden_request(text) {
        ErrorClass::Forbidden
    } else if speaks_of_api(text) {
        ErrorClass::Api
    } else {
        ErrorClass::Other
    }
}

/// The status in the error object.
pub open spec fn class_status(class: ErrorClass) -> u16 {
    match class {
        ErrorClass::RateLimited => 429,
        ErrorClass::Unauthorized => 401,
        ErrorClass::NotFound => 404,
        ErrorClass::Validation => 400,
        ErrorClass::LocalFiles => 400,
        ErrorClass::Forbidden => 403,
        ErrorClass::Api => 500,
        ErrorClass::Other => 500,
    }
}

/// The code in the error object.
pub open spec fn class_code(class: ErrorClass) -> Seq<char> {
    match class {
        ErrorClass::RateLimited => "rate_limited"@,
        ErrorClass::Unauthorized => "unauthorized"@,
        ErrorClass::NotFound => "object_not_found"@,
        ErrorClass::Validation => "validation_error"@,
        ErrorClass::LocalFiles => "invalid_request"@,
        ErrorClass::Forbidden => "forbidden"@,
        ErrorClass::Api => "internal_server_error"@,
        ErrorClass::Other => "internal_server_error"@,
    }
}

/// The exit code of the process.
pub open spec fn class_exit_code(class: ErrorClass) -> i32 {
    match class {
        ErrorClass::RateLimited => 7,
        ErrorClass::Unauthorized => 3,
        ErrorClass::NotFound => 5,
        ErrorClass::Validation => 6,
        ErrorClass::LocalFiles => 4,
        ErrorClass::Forbidden => 9,
        ErrorClass::Api => 8,
        ErrorClass::Other => 10,
    }
}

/// How the failure is reported.
pub fn classify_error(error: &CliError) -> (r: ClassifiedError)
    ensures
        r.status == class_status(error_class(error@)),
        r.code@ == class_code(error_class(error@)),
        r.exit_code == class_exit_code(error_class(error@)),
{
    let lowered = lower_string(error.message.as_str());
    let message = lowered.as_str();

    if has(message, "rate limit") || has(message, "429") || has(message, "retry-after") {
        return ClassifiedError { status: 429, code: "rate_limited", exit_code: 7 };
    }
    if has(message, "authentication failed") || has(message, "no active profile") || has(
        message,
        "provide a notion integration token",
    ) || has(message, "failed to read token input") {
        return ClassifiedError { status: 401, code: "unauthorized", exit_code: 3 };
    }
    if has(message, "could not find that object") || has(
        message,
        "does not look like a notion page or data source",
    ) {
        return ClassifiedError { status: 404, code: "object_not_found", exit_code: 5 };
    }
    if has(message, "validation error") || has(message, "rejected the request as invalid") || has(
        message,
        "failed to parse --filter-json",
    ) || has(message, "failed to parse --sort-json") || has(
        message,
        "failed to parse json request body",
    ) || has(message, "provide json body with --body-json, --from-file, or --stdin") || has(
        message,
        "use only one of --body-json, --from-file, or --stdin",
    ) || has(message, "json request body must include `children`") || has(
        message,
        "use either --from-file or --stdin",
    ) || has(message, "provide markdown with --from-file or --stdin") {
        return ClassifiedError { status: 400, code: "validation_error", exit_code: 6 };
    }
    if has(message, "config") || has(message, "credentials file") || has(
        message,
        "failed to write temporary credentials file",
    ) || has(message, "failed to replace credentials file") || has(message, "failed to read file")
        || has(message, "failed to read stdin") {
        return ClassifiedError { status: 400, code: "invalid_request", exit_code: 4 };
    }
    if has(message, "rejected the request with 403") {
        return ClassifiedError { status: 403, code: "forbidden", exit_code: 9 };
    }
    if has(message, "notion api error") || has(message, "request to notion failed") {
        return ClassifiedError { status: 500, code: "internal_server_error", exit_code: 8 };
    }
    ClassifiedError { status: 500, code: "internal_server_error", exit_code: 10 }
}

/// What the user is told of a response with an error status.
pub open spec fn friendly(status: u16, code: Option<Seq<char>>, message: Seq<char>) -> Seq<char> {
    if status == 403 {
        "Notion rejected the request with 403. Check your integration capabilities and page/data source sharing. "@
            + message
    } else if status == 404 && code == Some("object_not_found"@) {
        "Notion could not find that object. The page or data source may not be shared with the integration. "@
            + message
    } else if status == 401 {
        "Notion authentication failed. Re-run `notioncli auth login ...`. "@ + message
    } else if status == 400 && code == Some("validation_error"@) {
        "Notion rejected the request as invalid. "@ + message
    } else {
        "Notion API error "@ + decimal(status as nat) + ": "@ + message
    }
}

/// Whether `code` is there and is `expected`.
fn code_is(code: Option<&str>, expected: &str) -> (r: bool)
    ensures
        r == (code matches Some(c) && c@ == expected@),
{
    match code {
        Some(c) => same(c, expected),
        None => false,
    }
}

/// What the user is told of a response with the status `status`, the error code `code` and the
/// error message `message`.
pub fn friendly_error(status: u16, code: Option<&str>, message: &str) -> (r: String)
    ensures
        r@ == friendly(
            status,
            match code {
                Some(c) => Some(c@),
                None => None,
            },
            message@,
        ),
{
    let mut out = if status == 403 {
        "Notion rejected the request with 403. Check your integration capabilities and page/data source sharing. ".to_owned()
    } else if status == 404 && code_is(code, "object_not_found") {
        "Notion could not find that object. The page or data source may not be shared with the integration. ".to_owned()
    } else if status == 401 {
        "Notion authentication failed. Re-run `notioncli auth login ...`. ".to_owned()
    } else if status == 400 && code_is(code, "validation_error") {
        "Notion rejected the request as invalid. ".to_owned()
    } else {
        let mut general = "Notion API error ".to_owned();
        general.append(decimal_string(status as u64).as_str());
        general.append(": ");
        general
    };
    out.append(message);
    out
}

} // verus!
