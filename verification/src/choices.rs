//! What is chosen where there is a choice: the form of the output, the directory, and the values of
//! flags.
use std::path::PathBuf;

use vstd::prelude::*;

use crate::inputs::{
    bad_body_message, body_value, flag_value, markdown_value, needed, typed_token,
    unreadable_file_message, JsonInputArgs,
};
use crate::json::JsonView;
use crate::output::{format_named, log_level, requested_format, OutputFormat};
use crate::paths::{discovered, parts, AppPaths, LocalDir};
use crate::steps::{body_from, markdown_from};
use crate::text::{prefixes_are_taken_off, trimmed};

verus! {

/// The name of a form.
pub open spec fn format_name(format: OutputFormat) -> Seq<char> {
    match format {
        OutputFormat::Human => "human"@,
        OutputFormat::Json => "json"@,
        OutputFormat::Yaml => "yaml"@,
    }
}

/// Each form goes by its own name, and nothing else names one.
pub proof fn forms_go_by_their_names(name: Seq<char>, format: OutputFormat)
    ensures
        format_named(name) == Some(format) <==> name == format_name(format),
        format_named(name) is None <==> name != "human"@ && name != "json"@ && name != "yaml"@,
{
    reveal_strlit("human");
    reveal_strlit("json");
    reveal_strlit("yaml");
    assert("human"@.len() != "json"@.len());
    assert("human"@.len() != "yaml"@.len());
    assert("json"@[0] != "yaml"@[0]);
}

/// The arguments are read in order: `--output` with a known form behind it, or in one with it,
/// decides. One with an unknown form behind it is passed over together with that, and so is
/// everything else. Where nothing decides, the output is for people.
pub proof fn arguments_are_read_in_order(args: Seq<Seq<char>>, i: int, format: OutputFormat)
    requires
        0 <= i,
    ensures
        i >= args.len() ==> requested_format(args, i) == OutputFormat::Human,
        i + 1 < args.len() && args[i] == "--output"@ && args[i + 1] == format_name(format)
            ==> requested_format(args, i) == format,
        i + 1 < args.len() && args[i] == "--output"@ && args[i + 1] != "human"@ && args[i + 1]
            != "json"@ && args[i + 1] != "yaml"@ ==> requested_format(args, i) == requested_format(
            args,
            i + 2,
        ),
        i + 1 == args.len() && args[i] == "--output"@ ==> requested_format(args, i)
            == OutputFormat::Human,
        i < args.len() && args[i] == "--output="@ + format_name(format) ==> requested_format(args, i)
            == format,
        i < args.len() && args[i] != "--output"@ && args[i] != "--output="@ + "human"@ && args[i]
            != "--output="@ + "json"@ && args[i] != "--output="@ + "yaml"@ ==> requested_format(
            args,
            i,
        ) == requested_format(args, i + 1),
{
    reveal_strlit("--output");
    reveal_strlit("--output=");
    reveal_strlit("human");
    reveal_strlit("json");
    reveal_strlit("yaml");
    assert("human"@.len() != "json"@.len());
    assert("human"@.len() != "yaml"@.len());
    assert("json"@[0] != "yaml"@[0]);
    if i + 1 == args.len() && args[i] == "--output"@ {
        assert(requested_format(args, i + 2) == OutputFormat::Human);
    }
    if i < args.len() {
        prefixes_are_taken_off("--output="@, format_name(format), args[i]);
        assert(("--output="@ + format_name(format)).len() > "--output"@.len());
    }
}

/// More is logged the more often it is asked for.
pub proof fn logging_grows(verbose: u8)
    ensures
        log_level(0) == "warn"@,
        log_level(1) == "info"@,
        verbose > 1 ==> log_level(verbose) == "debug"@,
{
}

/// A directory that is named goes first, then one that is named in the old way. Without either, the
/// platform's own directory is used, or the one under the old name where only that is in use; it has
/// to offer both.
pub proof fn directories_are_chosen_in_order(
    base: PathBuf,
    other: Option<PathBuf>,
    current: LocalDir,
    legacy: LocalDir,
    one: Option<LocalDir>,
    two: Option<LocalDir>,
)
    ensures
        discovered(Some(base), other, one, two) == Some(base),
        discovered(None, Some(base), one, two) == Some(base),
        discovered(None, None, None, two) is None,
        discovered(None, None, one, None) is None,
        ({
            let fresh = !current.config_file_exists && !current.credentials_file_exists;
            let old = legacy.config_file_exists || legacy.credentials_file_exists;
            discovered(None, None, Some(current), Some(legacy)) == Some(
                if fresh && old {
                    legacy.dir
                } else {
                    current.dir
                },
            )
        }),
{
}

/// The two files stand in the directory under their own names.
pub proof fn files_have_their_names(paths: AppPaths, base: PathBuf)
    requires
        paths.are_in(base),
    ensures
        paths.config_dir == base,
        parts(paths.config_file) == parts(base).push("config.toml"@),
        parts(paths.credentials_file) == parts(base).push("credentials.toml"@),
{
}

/// A flag that is not given has no value; one that is given has the document that it spells, or the
/// user is told that it spells none.
pub proof fn flags_have_the_values_they_spell(
    text: Seq<char>,
    parsed: Option<JsonView>,
    flag: Seq<char>,
)
    ensures
        flag_value(None, parsed, flag) == Ok::<Option<JsonView>, Seq<char>>(None),
        parsed is Some ==> flag_value(Some(text), parsed, flag) == Ok::<Option<JsonView>, Seq<char>>(
            parsed,
        ),
        parsed is None ==> flag_value(Some(text), parsed, flag) == Err::<
            Option<JsonView>,
            Seq<char>,
        >("failed to parse "@ + flag + " as JSON"@),
{
}

/// A request body that is asked for comes from the one place that is named, and markdown does too.
/// Where no place is named there is none, and the user is told so if it is needed.
pub proof fn inputs_come_from_one_place(
    args: JsonInputArgs,
    from_file: bool,
    stdin: bool,
    read: Result<Seq<char>, Seq<char>>,
    value: Seq<char>,
    message: Seq<char>,
)
    ensures
        args.body_json is None && args.from_file is None && !args.stdin ==> args.document(read)
            == Ok::<Option<JsonView>, Seq<char>>(None),
        args.body_json is Some || args.from_file is Some || args.stdin ==> args.document(read)
            == match body_from(args, read) {
            Ok(document) => Ok::<Option<JsonView>, Seq<char>>(Some(document)),
            Err(failure) => Err(failure),
        },
        markdown_value(from_file, stdin, read) == markdown_from(from_file, stdin, read),
        needed(Ok::<Option<Seq<char>>, Seq<char>>(None), message) == Err::<Seq<char>, Seq<char>>(
            message,
        ),
        needed(Ok::<Option<Seq<char>>, Seq<char>>(Some(value)), message) == Ok::<
            Seq<char>,
            Seq<char>,
        >(value),
        needed(Err::<Option<Seq<char>>, Seq<char>>(value), message) == Err::<Seq<char>, Seq<char>>(
            value,
        ),
{
}

/// A document is sent as it is spelled. What cannot be read, or spells none, is named.
pub proof fn bad_inputs_are_named(document: JsonView, place: Seq<char>)
    ensures
        body_value(Some(document), place) == Ok::<JsonView, Seq<char>>(document),
        body_value(None, place) == Err::<JsonView, Seq<char>>(
            "failed to parse JSON request body from "@ + place,
        ),
        bad_body_message(place) == "failed to parse JSON request body from "@ + place,
        unreadable_file_message(place) == "failed to read file "@ + place,
{
}

/// A token that is typed is used without the white space around it.
pub proof fn typed_tokens_are_used(typed: Seq<char>)
    ensures
        trimmed(typed).len() > 0 ==> typed_token(Some(typed)) == Ok::<Seq<char>, Seq<char>>(
            trimmed(typed),
        ),
        trimmed(typed).len() == 0 ==> typed_token(Some(typed)) == Err::<Seq<char>, Seq<char>>(
            "provide a Notion integration token"@,
        ),
        typed_token(None) == Err::<Seq<char>, Seq<char>>("failed to read token input"@),
{
}

} // verus!
