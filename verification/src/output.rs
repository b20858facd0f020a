//! How results and failures are shown.
use vstd::prelude::*;

use crate::client::{number, number_view};
use crate::json::{Json, JsonObject, JsonView};
use crate::text::{after_prefix, same, strip_prefix};

verus! {

/// The forms in which results are printed.
#[derive(Debug, Clone, Copy, PartialEq, Eq, Structural)]
pub enum OutputFormat {
    Human,
    Json,
    Yaml,
}

/// The form that goes by this name.
pub open spec fn format_named(name: Seq<char>) -> Option<OutputFormat> {
    if name == "human"@ {
        Some(OutputFormat::Human)
    } else if name == "json"@ {
        Some(OutputFormat::Json)
    } else if name == "yaml"@ {
        Some(OutputFormat::Yaml)
    } else {
        None
    }
}

/// The form that goes by this name, if any does.
pub fn parse_output_format(value: &str) -> (r: Option<OutputFormat>)
    ensures
        r == format_named(value@),
{
    if same(value, "human") {
        Some(OutputFormat::Human)
    } else if same(value, "json") {
        Some(OutputFormat::Json)
    } else if same(value, "yaml") {
        Some(OutputFormat::Yaml)
    } else {
        None
    }
}

/// The form that the argument `--output=...` asks for, if it is one.
pub open spec fn joined_format(arg: Seq<char>) -> Option<OutputFormat> {
    match after_prefix(arg, "--output="@) {
        Some(name) => format_named(name),
        None => None,
    }
}

/// The form that the arguments from number `i` on ask for: the first that is known. A value behind
/// `--output` is never taken for an argument of its own.
pub open spec fn requested_format(args: Seq<Seq<char>>, i: int) -> OutputFormat
    decreases args.len() + 1 - i,
{
    if i < 0 || i >= args.len() {
        OutputFormat::Human
    } else if args[i] == "--output"@ {
        if i + 1 < args.len() && format_named(args[i + 1]) is Some {
            format_named(args[i + 1])->0
        } else {
            requested_format(args, i + 2)
        }
    } else if joined_format(args[i]) is Some {
        joined_format(args[i])->0
    } else {
        requested_format(args, i + 1)
    }
}

/// What each of the arguments says.
pub open spec fn texts(args: Seq<String>) -> Seq<Seq<char>> {
    args.map_values(|arg: String| arg@)
}

/// The form in which a failure is reported where the arguments as a whole make no sense. The first
/// argument is the name of the program.
pub fn requested_output_format_from_argv(args: &Vec<String>) -> (r: OutputFormat)
    ensures
        r == requested_format(texts(args@), 1),
{
    let ghost all = texts(args@);
    let mut i: usize = 1;
    while i < args.len()
        invariant
            all == texts(args@),
            1 <= i,
            requested_format(all, 1) == requested_format(all, i as int),
        decreases args.len() - i,
    {
        assert(all[i as int] == args[i as int]@);
        if same(args[i].as_str(), "--output") {
            if i + 1 >= args.len() {
                assert(requested_format(all, i + 2) == OutputFormat::Human);
                return OutputFormat::Human;
            }
            assert(all[i + 1] == args[i + 1]@);
            if let Some(format) = parse_output_format(args[i + 1].as_str()) {
                return format;
            }
            if i + 2 >= args.len() {
                assert(requested_format(all, i + 2) == OutputFormat::Human);
                return OutputFormat::Human;
            }
            i = i + 2;
        } else {
            if let Some(value) = strip_prefix(args[i].as_str(), "--output=") {
                if let Some(format) = parse_output_format(value.as_str()) {
                    return format;
                }
            }
            i = i + 1;
        }
    }
    OutputFormat::Human
}

/// Arguments that do not speak of the output get the form for people.
pub proof fn output_is_for_people_unless_asked(args: Seq<Seq<char>>, i: int)
    requires
        forall|k: int|
            i <= k < args.len() ==> #[trigger] args[k] != "--output"@ && after_prefix(
                args[k],
                "--output="@,
            ) is None,
    ensures
        requested_format(args, i) == OutputFormat::Human,
    decreases args.len() - i,
{
    if 0 <= i < args.len() {
        output_is_for_people_unless_asked(args, i + 1);
    }
}

/// What is logged where `--verbose` is given so many times.
pub open spec fn log_level(verbose: u8) -> Seq<char> {
    if verbose == 0 {
        "warn"@
    } else if verbose == 1 {
        "info"@
    } else {
        "debug"@
    }
}

/// What is logged where `--verbose` is given so many times.
pub fn log_filter(verbose: u8) -> (r: &'static str)
    ensures
        r@ == log_level(verbose),
{
    match verbose {
        0 => "warn",
        1 => "info",
        _ => "debug",
    }
}

/// The object that reports a failure.
pub open spec fn error_value(status: u16, code: Seq<char>, message: Seq<char>) -> JsonView {
    JsonView::Object(
        map![
            "object"@ => JsonView::Text("error"@),
            "status"@ => number_view(status as nat),
            "code"@ => JsonView::Text(code),
            "message"@ => JsonView::Text(message),
        ],
    )
}

/// The object that reports a failure.
pub fn error_object(status: u16, code: &str, message: &str) -> (r: Json)
    ensures
        r@ == error_value(status, code@, message@),
{
    let mut object = JsonObject::new();
    object.insert("object", Json::string("error"));
    object.insert("status", number(status as usize));
    object.insert("code", Json::string(code));
    object.insert("message", Json::string(message));
    object.document()
}

} // verus!
