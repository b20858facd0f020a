//! What commands take in: JSON and markdown from the command line, from a file or from standard
//! input, and tokens.
use vstd::prelude::*;
use vstd::string::StringExecFns;

use crate::client::document_view;
use crate::errors::CliError;
use crate::json::{Json, JsonView};
use crate::parse::{document_of, parse_json};
use crate::text::{trim, trimmed, trimming_twice_changes_nothing, view_of, view_of_str};
use crate::transport::document_outcome;

verus! {

/// The flags that say where a JSON request body comes from.
#[derive(Debug)]
pub struct JsonInputArgs {
    pub body_json: Option<String>,
    pub from_file: Option<String>,
    pub stdin: bool,
}

/// What has to be read before a command can go on.
#[derive(Debug, Clone, Copy, PartialEq, Eq, Structural)]
pub enum Input {
    Nothing,
    File,
    Stdin,
}

/// What the user is told where a JSON body comes from more than one place.
pub const ONE_JSON_SOURCE: &'static str = "use only one of --body-json, --from-file, or --stdin";

/// What the user is told where a JSON body is missing.
pub const JSON_BODY_NEEDED: &'static str =
    "provide JSON body with --body-json, --from-file, or --stdin";

/// What the user is told where markdown comes from more than one place.
pub const ONE_MARKDOWN_SOURCE: &'static str = "use either --from-file or --stdin, not both";

/// What the user is told where markdown is missing.
pub const MARKDOWN_NEEDED: &'static str = "provide markdown with --from-file or --stdin";

/// What the user is told where a token is missing.
pub const TOKEN_NEEDED: &'static str = "provide a Notion integration token";

/// What the user is told where a token cannot be read.
pub const TOKEN_UNREADABLE: &'static str = "failed to read token input";

/// What the user is told where standard input cannot be read.
pub const STDIN_UNREADABLE: &'static str = "failed to read stdin";

/// A text or the message of the failure, as text.
pub open spec fn text_outcome(r: Result<String, CliError>) -> Result<Seq<char>, Seq<char>> {
    match r {
        Ok(text) => Ok(text@),
        Err(e) => Err(e@),
    }
}

/// A text that may be missing, or the message of the failure, as text.
pub open spec fn optional_text_outcome(r: Result<Option<String>, CliError>) -> Result<
    Option<Seq<char>>,
    Seq<char>,
> {
    match r {
        Ok(text) => Ok(view_of(text)),
        Err(e) => Err(e@),
    }
}

/// A document that may be missing, or the message of the failure, as text.
pub open spec fn optional_document_outcome(r: Result<Option<Json>, CliError>) -> Result<
    Option<JsonView>,
    Seq<char>,
> {
    match r {
        Ok(document) => Ok(document_view(document)),
        Err(e) => Err(e@),
    }
}

/// What the user is told where a flag does not hold JSON.
pub open spec fn bad_flag_message(flag_name: Seq<char>) -> Seq<char> {
    "failed to parse "@ + flag_name + " as JSON"@
}

/// The value of a flag that may be missing, where `parsed` is the document that it spells.
pub open spec fn flag_value(
    raw: Option<Seq<char>>,
    parsed: Option<JsonView>,
    flag_name: Seq<char>,
) -> Result<Option<JsonView>, Seq<char>> {
    if raw is None {
        Ok(None)
    } else {
        match parsed {
            Some(document) => Ok(Some(document)),
            None => Err(bad_flag_message(flag_name)),
        }
    }
}

/// The document that a text spells, where there is a text and it spells one.
pub open spec fn spelled(raw: Option<Seq<char>>) -> Option<JsonView> {
    match raw {
        Some(text) => document_of(text),
        None => None,
    }
}

/// The value of a flag that may be missing, where `parsed` is the document that it spells.
pub fn parsed_json_arg(raw: Option<&str>, parsed: Option<Json>, flag_name: &str) -> (r: Result<
    Option<Json>,
    CliError,
>)
    ensures
        optional_document_outcome(r) == flag_value(
            view_of_str(raw),
            document_view(parsed),
            flag_name@,
        ),
{
    if raw.is_none() {
        return Ok(None);
    }
    match parsed {
        Some(document) => Ok(Some(document)),
        None => {
            let mut message = "failed to parse ".to_owned();
            message.append(flag_name);
            message.append(" as JSON");
            Err(CliError { message })
        },
    }
}

/// The JSON value of a flag that may be missing.
pub fn parse_json_arg(raw: Option<&str>, flag_name: &str) -> (r: Result<Option<Json>, CliError>)
    ensures
        optional_document_outcome(r) == flag_value(
            view_of_str(raw),
            spelled(view_of_str(raw)),
            flag_name@,
        ),
{
    let parsed = match raw {
        Some(text) => parse_json(text),
        None => None,
    };
    parsed_json_arg(raw, parsed, flag_name)
}

/// What the user is told where a request body is not JSON.
pub open spec fn bad_body_message(source: Seq<char>) -> Seq<char> {
    "failed to parse JSON request body from "@ + source
}

/// The request body, where `parsed` is the document that its text spells.
pub open spec fn body_value(parsed: Option<JsonView>, source: Seq<char>) -> Result<
    JsonView,
    Seq<char>,
> {
    match parsed {
        Some(document) => Ok(document),
        None => Err(bad_body_message(source)),
    }
}

/// The request body from the place `source`, where `parsed` is the document that its text spells.
pub fn parsed_json_text(parsed: Option<Json>, source: &str) -> (r: Result<Json, CliError>)
    ensures
        document_outcome(r) == body_value(document_view(parsed), source@),
{
    match parsed {
        Some(document) => Ok(document),
        None => {
            let mut message = "failed to parse JSON request body from ".to_owned();
            message.append(source);
            Err(CliError { message })
        },
    }
}

/// The request body in the text from the place `source`.
pub fn parse_json_text(raw: &str, source: &str) -> (r: Result<Json, CliError>)
    ensures
        document_outcome(r) == body_value(document_of(raw@), source@),
{
    parsed_json_text(parse_json(raw), source)
}

impl JsonInputArgs {
    /// More than one place is named.
    pub open spec fn conflict(self) -> bool {
        ||| self.body_json is Some && self.from_file is Some
        ||| self.body_json is Some && self.stdin
        ||| self.from_file is Some && self.stdin
    }

    /// The text of the request body and the place that it comes from, where `read` is what the file
    /// or standard input gave.
    pub open spec fn chosen(self, read: Result<Seq<char>, Seq<char>>) -> Result<
        Option<(Seq<char>, Seq<char>)>,
        Seq<char>,
    > {
        if self.conflict() {
            Err(ONE_JSON_SOURCE@)
        } else if let Some(body) = self.body_json {
            Ok(Some((body@, "--body-json"@)))
        } else if let Some(path) = self.from_file {
            match read {
                Ok(text) => Ok(Some((text, path@))),
                Err(message) => Err(message),
            }
        } else if self.stdin {
            match read {
                Ok(text) => Ok(Some((text, "stdin"@))),
                Err(message) => Err(message),
            }
        } else {
            Ok(None)
        }
    }

    /// The request body, where `read` is what the file or standard input gave.
    pub open spec fn document(self, read: Result<Seq<char>, Seq<char>>) -> Result<
        Option<JsonView>,
        Seq<char>,
    > {
        match self.chosen(read) {
            Ok(Some((text, source))) => match body_value(document_of(text), source) {
                Ok(document) => Ok(Some(document)),
                Err(message) => Err(message),
            },
            Ok(None) => Ok(None),
            Err(message) => Err(message),
        }
    }

    /// What has to be read before the request body is known.
    pub open spec fn wanted(self) -> Input {
        if self.conflict() {
            Input::Nothing
        } else if self.from_file is Some {
            Input::File
        } else if self.stdin {
            Input::Stdin
        } else {
            Input::Nothing
        }
    }

    /// What has to be read before the request body is known.
    pub fn input(&self) -> (r: Input)
        ensures
            r == self.wanted(),
    {
        match (&self.body_json, &self.from_file, self.stdin) {
            (None, Some(_), false) => Input::File,
            (None, None, true) => Input::Stdin,
            _ => Input::Nothing,
        }
    }
}

/// The text of the request body that the flags ask for, if they ask for one, and the place that it
/// comes from. `read` is what the file or standard input gave, where one of them had to be read.
pub fn choose_json_text(args: &JsonInputArgs, read: Result<String, CliError>) -> (r: Result<
    Option<(String, String)>,
    CliError,
>)
    ensures
        match r {
            Ok(Some((text, source))) => args.chosen(text_outcome(read)) == Ok::<
                Option<(Seq<char>, Seq<char>)>,
                Seq<char>,
            >(Some((text@, source@))),
            Ok(None) => args.chosen(text_outcome(read)) == Ok::<
                Option<(Seq<char>, Seq<char>)>,
                Seq<char>,
            >(None),
            Err(e) => args.chosen(text_outcome(read)) == Err::<
                Option<(Seq<char>, Seq<char>)>,
                Seq<char>,
            >(e@),
        },
{
    match (&args.body_json, &args.from_file, args.stdin) {
        (Some(_), Some(_), _) | (Some(_), _, true) | (None, Some(_), true) => Err(
            CliError::new(ONE_JSON_SOURCE),
        ),
        (None, None, false) => Ok(None),
        (Some(body), None, false) => Ok(Some((body.clone(), "--body-json".to_owned()))),
        (None, Some(path), false) => match read {
            Ok(text) => Ok(Some((text, path.clone()))),
            Err(e) => Err(e),
        },
        (None, None, true) => match read {
            Ok(text) => Ok(Some((text, "stdin".to_owned()))),
            Err(e) => Err(e),
        },
    }
}

/// The request body that the flags ask for, if they ask for one. `read` is what the file or
/// standard input gave, where one of them had to be read.
pub fn read_optional_json_input(args: &JsonInputArgs, read: Result<String, CliError>) -> (r: Result<
    Option<Json>,
    CliError,
>)
    ensures
        optional_document_outcome(r) == args.document(text_outcome(read)),
{
    match choose_json_text(args, read) {
        Ok(Some((text, source))) => match parse_json_text(text.as_str(), source.as_str()) {
            Ok(document) => Ok(Some(document)),
            Err(e) => Err(e),
        },
        Ok(None) => Ok(None),
        Err(e) => Err(e),
    }
}

/// What is there, or the failure that says that it is needed.
pub open spec fn needed<T>(found: Result<Option<T>, Seq<char>>, message: Seq<char>) -> Result<
    T,
    Seq<char>,
> {
    match found {
        Ok(Some(value)) => Ok(value),
        Ok(None) => Err(message),
        Err(e) => Err(e),
    }
}

/// The request body that the flags ask for. `read` is what the file or standard input gave, where
/// one of them had to be read.
pub fn read_required_json_input(args: &JsonInputArgs, read: Result<String, CliError>) -> (r: Result<
    Json,
    CliError,
>)
    ensures
        document_outcome(r) == needed(
            args.document(text_outcome(read)),
            JSON_BODY_NEEDED@,
        ),
{
    match read_optional_json_input(args, read) {
        Ok(Some(document)) => Ok(document),
        Ok(None) => Err(CliError::new(JSON_BODY_NEEDED)),
        Err(e) => Err(e),
    }
}

/// The markdown that the flags ask for, where `read` is what the file or standard input gave.
pub open spec fn markdown_value(
    from_file: bool,
    stdin: bool,
    read: Result<Seq<char>, Seq<char>>,
) -> Result<Option<Seq<char>>, Seq<char>> {
    if from_file && stdin {
        Err(ONE_MARKDOWN_SOURCE@)
    } else if !from_file && !stdin {
        Ok(None)
    } else {
        match read {
            Ok(text) => Ok(Some(text)),
            Err(message) => Err(message),
        }
    }
}

/// What has to be read before the markdown is known.
pub fn markdown_input(from_file: bool, stdin: bool) -> (r: Input)
    ensures
        r == (if from_file == stdin {
            Input::Nothing
        } else if from_file {
            Input::File
        } else {
            Input::Stdin
        }),
{
    match (from_file, stdin) {
        (true, false) => Input::File,
        (false, true) => Input::Stdin,
        _ => Input::Nothing,
    }
}

/// The markdown that the flags ask for, if they ask for any. `read` is what the file or standard
/// input gave, where one of them had to be read.
pub fn read_optional_markdown(from_file: bool, stdin: bool, read: Result<String, CliError>) -> (r:
    Result<Option<String>, CliError>)
    ensures
        optional_text_outcome(r) == markdown_value(from_file, stdin, text_outcome(read)),
{
    match (from_file, stdin) {
        (true, true) => Err(CliError::new(ONE_MARKDOWN_SOURCE)),
        (false, false) => Ok(None),
        _ => match read {
            Ok(text) => Ok(Some(text)),
            Err(e) => Err(e),
        },
    }
}

/// The markdown that the flags ask for. `read` is what the file or standard input gave, where one
/// of them had to be read.
pub fn read_required_markdown(from_file: bool, stdin: bool, read: Result<String, CliError>) -> (r:
    Result<String, CliError>)
    ensures
        text_outcome(r) == needed(
            markdown_value(from_file, stdin, text_outcome(read)),
            MARKDOWN_NEEDED@,
        ),
{
    match read_optional_markdown(from_file, stdin, read) {
        Ok(Some(text)) => Ok(text),
        Ok(None) => Err(CliError::new(MARKDOWN_NEEDED)),
        Err(e) => Err(e),
    }
}

/// The token in what the user typed.
pub open spec fn typed_token(typed: Option<Seq<char>>) -> Result<Seq<char>, Seq<char>> {
    match typed {
        Some(text) => if trimmed(text).len() == 0 {
            Err(TOKEN_NEEDED@)
        } else {
            Ok(trimmed(text))
        },
        None => Err(TOKEN_UNREADABLE@),
    }
}

/// The token in what the user typed, where it could be read.
pub fn prompt_for_internal_token(typed: Option<String>) -> (r: Result<String, CliError>)
    ensures
        text_outcome(r) == typed_token(view_of(typed)),
{
    match typed {
        Some(text) => {
            let token = trim(text.as_str());
            if token.as_str().is_empty() {
                Err(CliError::new(TOKEN_NEEDED))
            } else {
                Ok(token)
            }
        },
        None => Err(CliError::new(TOKEN_UNREADABLE)),
    }
}

/// What the user is told where a file cannot be read.
pub open spec fn unreadable_file_message(path: Seq<char>) -> Seq<char> {
    "failed to read file "@ + path
}

/// The failure to read a file.
pub fn unreadable_file(path: &str) -> (r: CliError)
    ensures
        r@ == unreadable_file_message(path@),
{
    let mut message = "failed to read file ".to_owned();
    message.append(path);
    CliError { message }
}

/// A request body comes from one place: where two are named, there is a failure, whatever they
/// hold.
pub proof fn two_sources_are_refused(args: JsonInputArgs, read: Result<Seq<char>, Seq<char>>)
    requires
        args.conflict(),
    ensures
        args.document(read) == Err::<Option<JsonView>, Seq<char>>(ONE_JSON_SOURCE@),
        args.wanted() == Input::Nothing,
{
}

/// What was read does not matter where nothing had to be read.
pub proof fn unwanted_input_is_ignored(
    args: JsonInputArgs,
    one: Result<Seq<char>, Seq<char>>,
    other: Result<Seq<char>, Seq<char>>,
)
    requires
        args.wanted() == Input::Nothing,
    ensures
        args.document(one) == args.document(other),
{
}

/// A token that was typed has no white space around it and is not empty.
pub proof fn typed_tokens_are_trimmed(typed: Option<Seq<char>>)
    ensures
        typed_token(typed) matches Ok(token) ==> token.len() > 0 && trimmed(token) == token,
{
    if let Some(text) = typed {
        trimming_twice_changes_nothing(text);
    }
}

/// Markdown comes from one place: where two are named, there is a failure, whatever they hold.
pub proof fn two_markdown_sources_are_refused(read: Result<Seq<char>, Seq<char>>)
    ensures
        markdown_value(true, true, read) == Err::<Option<Seq<char>>, Seq<char>>(
            ONE_MARKDOWN_SOURCE@,
        ),
        needed(markdown_value(false, false, read), MARKDOWN_NEEDED@) == Err::<Seq<char>, Seq<char>>(
            MARKDOWN_NEEDED@,
        ),
{
}

} // verus!
