//! Notion ids, as users paste them and as the API takes them.
use vstd::prelude::*;
use vstd::string::StringExecFns;

use crate::errors::CliError;
use crate::text::{
    ascii_lower, chars_of, is_white_space, lower, lower_string, string_of, trim, trim_end,
    trim_start, trimmed, trimming_takes_white_space_off, trimming_twice_changes_nothing, view_of,
};

verus! {

/// A pattern for an id with its hyphens.
pub const DASHED_UUID: &'static str =
    "(?i)[0-9a-f]{8}-[0-9a-f]{4}-[0-9a-f]{4}-[0-9a-f]{4}-[0-9a-f]{12}";

/// A pattern for an id without hyphens.
pub const COMPACT_UUID: &'static str = "(?i)[0-9a-f]{32}";

/// The two ways to write an id.
pub enum IdForm {
    Dashed,
    Compact,
}

pub open spec fn is_hex(c: char) -> bool {
    ('0' <= c <= '9') || ('a' <= c <= 'f') || ('A' <= c <= 'F')
}

/// The places of the hyphens in an id of 36 characters.
pub open spec fn is_hyphen_place(k: int) -> bool {
    k == 8 || k == 13 || k == 18 || k == 23
}

/// How long an id of this form is.
pub open spec fn width(form: IdForm) -> int {
    match form {
        IdForm::Dashed => 36,
        IdForm::Compact => 32,
    }
}

/// An id of this form stands in `s` from position `i` on.
pub open spec fn id_at(s: Seq<char>, form: IdForm, i: int) -> bool {
    &&& 0 <= i
    &&& i + width(form) <= s.len()
    &&& forall|k: int|
        i <= k < i + width(form) ==> if form is Dashed && is_hyphen_place(k - i) {
            #[trigger] s[k] == '-'
        } else {
            is_hex(s[k])
        }
}

/// Going through `s` from position `from`, and past each id as it is met: where the last id of
/// this form starts.
pub open spec fn last_id(s: Seq<char>, form: IdForm, from: int) -> Option<int>
    decreases s.len() - from,
{
    if from + width(form) > s.len() {
        None
    } else if id_at(s, form, from) {
        match last_id(s, form, from + width(form)) {
            Some(i) => Some(i),
            None => Some(from),
        }
    } else {
        last_id(s, form, from + 1)
    }
}

/// What the last id of this form in `s` reads.
pub open spec fn last_id_text(s: Seq<char>, form: IdForm) -> Option<Seq<char>> {
    match last_id(s, form, 0) {
        Some(i) => Some(s.subrange(i, i + width(form))),
        None => None,
    }
}

/// What each id of this form in `s` reads, from position `from` on. The text is walked from there,
/// and past each id as it is met.
pub open spec fn ids_from(s: Seq<char>, form: IdForm, from: int) -> Seq<Seq<char>>
    decreases s.len() - from,
{
    if from + width(form) > s.len() {
        Seq::empty()
    } else if id_at(s, form, from) {
        seq![s.subrange(from, from + width(form))] + ids_from(s, form, from + width(form))
    } else {
        ids_from(s, form, from + 1)
    }
}

/// The last of the ids is the one that starts last.
proof fn last_of_the_ids(s: Seq<char>, form: IdForm, from: int)
    ensures
        match last_id(s, form, from) {
            Some(i) => ids_from(s, form, from).len() > 0 && ids_from(s, form, from).last()
                == s.subrange(i, i + width(form)),
            None => ids_from(s, form, from).len() == 0,
        },
    decreases s.len() - from,
{
    if from + width(form) <= s.len() {
        if id_at(s, form, from) {
            last_of_the_ids(s, form, from + width(form));
        } else {
            last_of_the_ids(s, form, from + 1);
        }
    }
}

/// What each of the texts says.
spec fn texts(found: Seq<String>) -> Seq<Seq<char>> {
    found.map_values(|text: String| text@)
}

/// The matches that `regex::Regex::find_iter` yields for one of the two patterns above, both of which
/// `regex::Regex::new` accepts: successive matches do not overlap, each is the leftmost one after the
/// match before it, and what matches is hexadecimal digits of either case, with hyphens in the places
/// that the first pattern gives them.
#[verifier::external_body]
fn all_matches(pattern: &str, text: &str) -> (r: Vec<String>)
    requires
        pattern@ == DASHED_UUID@ || pattern@ == COMPACT_UUID@,
    ensures
        pattern@ == DASHED_UUID@ ==> texts(r@) == ids_from(text@, IdForm::Dashed, 0),
        pattern@ == COMPACT_UUID@ ==> texts(r@) == ids_from(text@, IdForm::Compact, 0),
{
    regex::Regex::new(pattern).unwrap().find_iter(text).map(|m| m.as_str().to_string()).collect()
}

/// The last id in `text` that has its hyphens.
fn last_dashed(text: &str) -> (r: Option<String>)
    ensures
        view_of(r) == last_id_text(text@, IdForm::Dashed),
{
    let mut found = all_matches(DASHED_UUID, text);
    proof {
        last_of_the_ids(text@, IdForm::Dashed, 0);
        assert(texts(found@).len() == found@.len());
    }
    found.pop()
}

/// The last id in `text` that has no hyphens.
fn last_compact(text: &str) -> (r: Option<String>)
    ensures
        view_of(r) == last_id_text(text@, IdForm::Compact),
{
    let mut found = all_matches(COMPACT_UUID, text);
    proof {
        last_of_the_ids(text@, IdForm::Compact, 0);
        assert(texts(found@).len() == found@.len());
    }
    found.pop()
}

/// An id of 32 digits with the hyphens put in.
pub open spec fn hyphenated(compact: Seq<char>) -> Seq<char> {
    compact.subrange(0, 8) + "-"@ + compact.subrange(8, 12) + "-"@ + compact.subrange(12, 16) + "-"@
        + compact.subrange(16, 20) + "-"@ + compact.subrange(20, 32)
}

/// The id that the API takes for what a user gave: the last one with hyphens, or else the last
/// one without; `None` where there is neither.
pub open spec fn normalized_id(raw: Seq<char>) -> Option<Seq<char>> {
    match last_id_text(trimmed(raw), IdForm::Dashed) {
        Some(id) => Some(lower(id)),
        None => match last_id_text(trimmed(raw), IdForm::Compact) {
            Some(id) => Some(hyphenated(lower(id))),
            None => None,
        },
    }
}

/// What the user is told where there is no id in what they gave.
pub open spec fn no_id_message(raw: Seq<char>) -> Seq<char> {
    if trimmed(raw).len() == 0 {
        "expected a Notion page or data source id/url"@
    } else {
        "`"@ + trimmed(raw) + "` does not look like a Notion page or data source id/url"@
    }
}

/// An id that is found lies within the text.
proof fn last_id_in_range(s: Seq<char>, form: IdForm, from: int)
    requires
        0 <= from,
    ensures
        last_id(s, form, from) matches Some(i) ==> from <= i && id_at(s, form, i),
    decreases s.len() - from,
{
    if from + width(form) <= s.len() {
        if id_at(s, form, from) {
            last_id_in_range(s, form, from + width(form));
        } else {
            last_id_in_range(s, form, from + 1);
        }
    }
}

/// Puts the hyphens into an id of 32 digits.
fn hyphenate(compact: &str) -> (r: String)
    requires
        compact@.len() == 32,
    ensures
        r@ == hyphenated(compact@),
{
    let chars = chars_of(compact);
    let mut out = string_of(&chars, 0, 8);
    out.append("-");
    out.append(string_of(&chars, 8, 12).as_str());
    out.append("-");
    out.append(string_of(&chars, 12, 16).as_str());
    out.append("-");
    out.append(string_of(&chars, 16, 20).as_str());
    out.append("-");
    out.append(string_of(&chars, 20, 32).as_str());
    out
}

/// Finds the Notion id in what a user gave, an id or the address of a page.
pub fn normalize_notion_id(raw: &str) -> (r: Result<String, CliError>)
    ensures
        match r {
            Ok(id) => normalized_id(raw@) == Some(id@),
            Err(e) => normalized_id(raw@) is None && e@ == no_id_message(raw@),
        },
{
    let text = trim(raw);
    if text.as_str().is_empty() {
        return Err(CliError::new("expected a Notion page or data source id/url"));
    }
    if let Some(found) = last_dashed(text.as_str()) {
        return Ok(lower_string(found.as_str()));
    }
    if let Some(found) = last_compact(text.as_str()) {
        proof {
            last_id_in_range(text@, IdForm::Compact, 0);
        }
        return Ok(hyphenate(lower_string(found.as_str()).as_str()));
    }
    let mut message = "`".to_owned();
    message.append(text.as_str());
    message.append("` does not look like a Notion page or data source id/url");
    Err(CliError { message })
}

/// The one way in which the API writes ids: small hexadecimal digits in five groups.
pub open spec fn is_canonical(id: Seq<char>) -> bool {
    &&& id.len() == 36
    &&& forall|k: int|
        0 <= k < 36 ==> if is_hyphen_place(k) {
            #[trigger] id[k] == '-'
        } else {
            is_hex(id[k]) && !('A' <= id[k] <= 'F')
        }
}

/// What a text of 32 digits reads at each place once the hyphens are in.
proof fn hyphenated_places(compact: Seq<char>)
    requires
        compact.len() == 32,
    ensures
        hyphenated(compact).len() == 36,
        forall|k: int|
            0 <= k < 36 ==> #[trigger] hyphenated(compact)[k] == if is_hyphen_place(k) {
                '-'
            } else if k < 8 {
                compact[k]
            } else if k < 13 {
                compact[k - 1]
            } else if k < 18 {
                compact[k - 2]
            } else if k < 23 {
                compact[k - 3]
            } else {
                compact[k - 4]
            },
{
    reveal_strlit("-");
}

/// Every id that is found comes out in the one way in which the API writes ids.
pub proof fn normalized_ids_are_canonical(raw: Seq<char>)
    ensures
        normalized_id(raw) matches Some(id) ==> is_canonical(id),
{
    let s = trimmed(raw);
    last_id_in_range(s, IdForm::Dashed, 0);
    last_id_in_range(s, IdForm::Compact, 0);
    match last_id(s, IdForm::Dashed, 0) {
        Some(i) => {
            let id = lower(s.subrange(i, i + 36));
            assert forall|k: int| 0 <= k < 36 implies if is_hyphen_place(k) {
                #[trigger] id[k] == '-'
            } else {
                is_hex(id[k]) && !('A' <= id[k] <= 'F')
            } by {
                assert(id[k] == ascii_lower(s[i + k]));
            }
        },
        None => {
            if let Some(i) = last_id(s, IdForm::Compact, 0) {
                let compact = lower(s.subrange(i, i + 32));
                assert forall|k: int| 0 <= k < 32 implies is_hex(#[trigger] compact[k]) && !('A' <= compact[k] <= 'F') by {
                    assert(compact[k] == ascii_lower(s[i + k]));
                }
                hyphenated_places(compact);
            }
        },
    }
}

/// A text without white space at its ends is left as it is.
proof fn nothing_to_trim(s: Seq<char>)
    requires
        s.len() > 0,
        !is_white_space(s[0]),
        !is_white_space(s.last()),
    ensures
        trimmed(s) == s,
{
}

/// An id that the API wrote is taken as it is.
pub proof fn canonical_ids_are_kept(id: Seq<char>)
    requires
        is_canonical(id),
    ensures
        normalized_id(id) == Some(id),
{
    assert(is_hex(id[0]) && is_hex(id[35]));
    nothing_to_trim(id);
    assert(id_at(id, IdForm::Dashed, 0));
    assert(last_id(id, IdForm::Dashed, 36) is None);
    assert(last_id(id, IdForm::Dashed, 0) == Some(0int));
    assert(id.subrange(0, 36) =~= id);
    assert(lower(id) =~= id);
}

/// An id that was found once is found again, unchanged.
pub proof fn normalizing_twice_changes_nothing(raw: Seq<char>)
    ensures
        normalized_id(raw) matches Some(id) ==> normalized_id(id) == Some(id),
{
    normalized_ids_are_canonical(raw);
    if let Some(id) = normalized_id(raw) {
        canonical_ids_are_kept(id);
    }
}

/// 32 digits name the same id with and without hyphens, in capitals or not.
pub proof fn hyphens_and_case_do_not_matter(compact: Seq<char>)
    requires
        compact.len() == 32,
        forall|k: int| 0 <= k < 32 ==> is_hex(#[trigger] compact[k]),
    ensures
        normalized_id(compact) == Some(hyphenated(lower(compact))),
        normalized_id(hyphenated(compact)) == Some(hyphenated(lower(compact))),
        normalized_id(lower(compact)) == Some(hyphenated(lower(compact))),
{
    let small = lower(compact);
    assert forall|k: int| 0 <= k < 32 implies is_hex(#[trigger] small[k]) by {
        assert(small[k] == ascii_lower(compact[k]));
    }
    digits_alone_are_found(compact);
    digits_alone_are_found(small);
    assert(lower(small) =~= small);

    let dashed = hyphenated(compact);
    hyphenated_places(compact);
    hyphenated_places(small);
    assert(is_hex(dashed[0]) && is_hex(dashed[35]));
    nothing_to_trim(dashed);
    assert(id_at(dashed, IdForm::Dashed, 0));
    assert(last_id(dashed, IdForm::Dashed, 36) is None);
    assert(last_id(dashed, IdForm::Dashed, 0) == Some(0int));
    assert(dashed.subrange(0, 36) =~= dashed);
    assert(lower(dashed) =~= hyphenated(small));
}

/// 32 digits by themselves are an id.
proof fn digits_alone_are_found(compact: Seq<char>)
    requires
        compact.len() == 32,
        forall|k: int| 0 <= k < 32 ==> is_hex(#[trigger] compact[k]),
    ensures
        normalized_id(compact) == Some(hyphenated(lower(compact))),
{
    assert(is_hex(compact[0]) && is_hex(compact[31]));
    nothing_to_trim(compact);
    assert(last_id(compact, IdForm::Dashed, 0) is None);
    assert(id_at(compact, IdForm::Compact, 0));
    assert(last_id(compact, IdForm::Compact, 32) is None);
    assert(last_id(compact, IdForm::Compact, 0) == Some(0int));
    assert(compact.subrange(0, 32) =~= compact);
}

/// White space around what a user gave does not matter.
pub proof fn surrounding_space_does_not_matter(raw: Seq<char>)
    ensures
        normalized_id(trimmed(raw)) == normalized_id(raw),
        no_id_message(trimmed(raw)) == no_id_message(raw),
{
    trimming_twice_changes_nothing(raw);
}

/// Where no id is found from a place on, none stands there or later.
proof fn no_id_is_passed_over(s: Seq<char>, form: IdForm, from: int)
    ensures
        last_id(s, form, from) is None ==> forall|i: int| from <= i ==> !id_at(s, form, i),
    decreases s.len() - from,
{
    if from + width(form) <= s.len() && !id_at(s, form, from) {
        no_id_is_passed_over(s, form, from + 1);
        assert forall|i: int| from <= i && last_id(s, form, from) is None implies !id_at(
            s,
            form,
            i,
        ) by {
            assert(i == from || from + 1 <= i);
        }
    }
}

/// An id starts and ends with a digit.
proof fn ids_end_in_digits(s: Seq<char>, form: IdForm, i: int)
    requires
        id_at(s, form, i),
    ensures
        is_hex(s[i]),
        is_hex(s[i + width(form) - 1]),
{
    let last = i + width(form) - 1;
    assert(!is_hyphen_place(i - i));
    assert(!is_hyphen_place(last - i));
    assert(s[i] == s[i] && s[last] == s[last]);
}

/// An id in a part of a text is in the text.
proof fn ids_in_a_part(s: Seq<char>, form: IdForm, start: int, end: int, i: int)
    requires
        0 <= start <= end <= s.len(),
        id_at(s.subrange(start, end), form, i),
    ensures
        id_at(s, form, start + i),
{
    let part = s.subrange(start, end);
    assert forall|k: int| start + i <= k < start + i + width(form) implies if form is Dashed
        && is_hyphen_place(k - (start + i)) {
        #[trigger] s[k] == '-'
    } else {
        is_hex(s[k])
    } by {
        assert(part[k - start] == s[k]);
    }
}

/// An id that lies within a part of a text is in the part.
proof fn ids_within_a_part(s: Seq<char>, form: IdForm, start: int, end: int, i: int)
    requires
        0 <= start <= end <= s.len(),
        id_at(s, form, i),
        start <= i,
        i + width(form) <= end,
    ensures
        id_at(s.subrange(start, end), form, i - start),
{
    let part = s.subrange(start, end);
    assert forall|k: int| i - start <= k < i - start + width(form) implies if form is Dashed
        && is_hyphen_place(k - (i - start)) {
        #[trigger] part[k] == '-'
    } else {
        is_hex(part[k])
    } by {
        assert(part[k] == s[k + start]);
    }
}

/// An id stands somewhere in `s`.
spec fn holds_id(s: Seq<char>, form: IdForm) -> bool {
    exists|i: int| id_at(s, form, i)
}

/// White space at the front holds nothing of an id.
proof fn ids_after_trim_start(s: Seq<char>, form: IdForm)
    ensures
        holds_id(trim_start(s), form) == holds_id(s, form),
    decreases s.len(),
{
    if s.len() > 0 && is_white_space(s[0]) {
        let rest = s.drop_first();
        assert(rest =~= s.subrange(1, s.len() as int));
        ids_after_trim_start(rest, form);
        if holds_id(s, form) {
            let i = choose|i: int| id_at(s, form, i);
            ids_end_in_digits(s, form, i);
            assert(i != 0);
            ids_within_a_part(s, form, 1, s.len() as int, i);
        }
        if holds_id(rest, form) {
            let i = choose|i: int| id_at(rest, form, i);
            ids_in_a_part(s, form, 1, s.len() as int, i);
        }
    }
}

/// White space at the back holds nothing of an id.
proof fn ids_after_trim_end(s: Seq<char>, form: IdForm)
    ensures
        holds_id(trim_end(s), form) == holds_id(s, form),
    decreases s.len(),
{
    if s.len() > 0 && is_white_space(s.last()) {
        let rest = s.drop_last();
        assert(rest =~= s.subrange(0, s.len() - 1));
        ids_after_trim_end(rest, form);
        if holds_id(s, form) {
            let i = choose|i: int| id_at(s, form, i);
            ids_end_in_digits(s, form, i);
            assert(i + width(form) != s.len());
            ids_within_a_part(s, form, 0, s.len() - 1, i);
        }
        if holds_id(rest, form) {
            let i = choose|i: int| id_at(rest, form, i);
            ids_in_a_part(s, form, 0, s.len() - 1, i);
        }
    }
}

/// No id is found just where none of either form stands anywhere in what the user gave.
pub proof fn no_id_is_missed(raw: Seq<char>)
    ensures
        normalized_id(raw) is None <==> forall|i: int, form: IdForm| !id_at(raw, form, i),
{
    let text = trimmed(raw);
    assert forall|form: IdForm| (last_id(text, form, 0) is Some) == #[trigger] holds_id(
        raw,
        form,
    ) by {
        ids_after_trim_start(raw, form);
        ids_after_trim_end(trim_start(raw), form);
        no_id_is_passed_over(text, form, 0);
        last_id_in_range(text, form, 0);
        if holds_id(text, form) {
            let i = choose|i: int| id_at(text, form, i);
            assert(0 <= i);
        }
    }
    assert(holds_id(raw, IdForm::Dashed) || holds_id(raw, IdForm::Compact) <==> !(forall|
        i: int,
        form: IdForm,
    | !id_at(raw, form, i))) by {
        if !(forall|i: int, form: IdForm| !id_at(raw, form, i)) {
            let (i, form) = choose|i: int, form: IdForm| id_at(raw, form, i);
            assert(holds_id(raw, form));
            assert(form == IdForm::Dashed || form == IdForm::Compact);
        }
    }
}

/// Where the digit at place `k` of a written id stands in an id of this form.
pub open spec fn place_in(form: IdForm, k: int) -> int {
    if form is Dashed || k < 8 {
        k
    } else if k < 13 {
        k - 1
    } else if k < 18 {
        k - 2
    } else if k < 23 {
        k - 3
    } else {
        k - 4
    }
}

/// `id` is the id of this form that stands in `s` from `start` on: its digits in small letters, in
/// groups of eight, four, four, four and twelve.
pub open spec fn is_written_id(id: Seq<char>, s: Seq<char>, form: IdForm, start: int) -> bool {
    &&& id.len() == 36
    &&& forall|k: int|
        0 <= k < 36 ==> #[trigger] id[k] == if k == 8 || k == 13 || k == 18 || k == 23 {
            '-'
        } else {
            ascii_lower(s[start + place_in(form, k)])
        }
}

/// An id that nothing runs into is met when the text is walked.
proof fn ids_are_met(s: Seq<char>, form: IdForm, from: int, start: int)
    requires
        0 <= from <= start,
        id_at(s, form, start),
        forall|i: int| i < start < i + width(form) ==> !id_at(s, form, i),
    ensures
        last_id(s, form, from) == last_id(s, form, start),
        last_id(s, form, start) is Some,
    decreases start - from,
{
    if from < start {
        if id_at(s, form, from) {
            ids_are_met(s, form, from + width(form), start);
        } else {
            ids_are_met(s, form, from + 1, start);
        }
    }
}

/// Where no id stands from a place on, none is found from there on.
proof fn nothing_is_found_where_nothing_is(s: Seq<char>, form: IdForm, from: int)
    requires
        forall|i: int| from <= i ==> !id_at(s, form, i),
    ensures
        last_id(s, form, from) is None,
    decreases s.len() - from,
{
    if from + width(form) <= s.len() {
        nothing_is_found_where_nothing_is(s, form, from + 1);
    }
}

/// No id runs into one that no digit goes before.
proof fn ids_do_not_run_together(s: Seq<char>, form: IdForm, i: int, start: int)
    requires
        i < start < i + width(form),
        id_at(s, form, start),
        !is_hex(s[start - 1]),
    ensures
        !id_at(s, form, i),
{
    if id_at(s, form, i) {
        let place = start - 1 - i;
        assert(s[start - 1] == s[i + place]);
        if form is Dashed {
            assert(is_hyphen_place(place));
            assert(!is_hyphen_place(4));
            assert(is_hyphen_place(8));
            assert(is_hex(s[start + 4]));
            assert(s[start + 8] == '-');
            if place != 23 {
                assert(is_hyphen_place(start + 4 - i));
                assert(s[start + 4] == '-');
            } else {
                assert(!is_hyphen_place(start + 8 - i));
                assert(is_hex(s[start + 8]));
            }
        }
    }
}

/// The id that comes out is the last one in what the user gave: whatever goes before it, if that
/// does not end in a digit that would belong to it, and whatever follows, if that holds no other. An
/// id without hyphens is taken where there is none with them.
pub proof fn the_last_id_comes_out(raw: Seq<char>, form: IdForm, start: int)
    requires
        id_at(raw, form, start),
        start > 0 ==> !is_hex(raw[start - 1]),
        forall|i: int| start + width(form) <= i ==> !id_at(raw, form, i),
        form is Compact ==> forall|i: int| !id_at(raw, IdForm::Dashed, i),
    ensures
        normalized_id(raw) matches Some(id) && is_written_id(id, raw, form, start),
{
    let (front, back) = trimming_takes_white_space_off(raw);
    let text = trimmed(raw);
    ids_end_in_digits(raw, form, start);
    assert(front <= start);
    assert(start + width(form) <= back);
    ids_within_a_part(raw, form, front, back, start);
    let at = start - front;
    assert(id_at(text, form, at));
    assert forall|i: int| i < at < i + width(form) implies !id_at(text, form, i) by {
        if at > 0 {
            assert(text[at - 1] == raw[start - 1]);
            ids_do_not_run_together(text, form, i, at);
        }
    }
    assert forall|i: int| at + width(form) <= i implies !id_at(text, form, i) by {
        if id_at(text, form, i) {
            ids_in_a_part(raw, form, front, back, i);
        }
    }
    ids_are_met(text, form, 0, at);
    nothing_is_found_where_nothing_is(text, form, at + width(form));
    assert(last_id(text, form, 0) == Some(at));
    let found = text.subrange(at, at + width(form));
    assert(last_id_text(text, form) == Some(found));
    assert forall|k: int| 0 <= k < width(form) implies #[trigger] lower(found)[k] == ascii_lower(
        raw[start + k],
    ) by {
        assert(found[k] == raw[start + k]);
    }
    if form is Compact {
        assert forall|i: int| 0 <= i implies !id_at(text, IdForm::Dashed, i) by {
            if id_at(text, IdForm::Dashed, i) {
                ids_in_a_part(raw, IdForm::Dashed, front, back, i);
            }
        }
        nothing_is_found_where_nothing_is(text, IdForm::Dashed, 0);
        hyphenated_places(lower(found));
    } else {
        assert forall|k: int| 0 <= k < 36 implies #[trigger] lower(found)[k] == if k == 8 || k == 13
            || k == 18 || k == 23 {
            '-'
        } else {
            ascii_lower(raw[start + place_in(form, k)])
        } by {
            if is_hyphen_place(k) {
                assert(raw[start + k] == '-');
            }
        }
    }
}

/// The id that comes out is the last of those with hyphens that are met from left to right; where
/// there are none, it is the last of those without, with the hyphens put in. Capitals become small.
pub proof fn the_last_of_all_ids_comes_out(raw: Seq<char>)
    ensures
        ({
            let dashed = ids_from(trimmed(raw), IdForm::Dashed, 0);
            let compact = ids_from(trimmed(raw), IdForm::Compact, 0);
            if dashed.len() > 0 {
                normalized_id(raw) matches Some(id) && is_written_id(
                    id,
                    dashed.last(),
                    IdForm::Dashed,
                    0,
                )
            } else if compact.len() > 0 {
                normalized_id(raw) matches Some(id) && is_written_id(
                    id,
                    compact.last(),
                    IdForm::Compact,
                    0,
                )
            } else {
                normalized_id(raw) is None
            }
        }),
{
    let text = trimmed(raw);
    last_of_the_ids(text, IdForm::Dashed, 0);
    last_of_the_ids(text, IdForm::Compact, 0);
    last_id_in_range(text, IdForm::Dashed, 0);
    last_id_in_range(text, IdForm::Compact, 0);
    let dashed = ids_from(text, IdForm::Dashed, 0);
    let compact = ids_from(text, IdForm::Compact, 0);
    if dashed.len() > 0 {
        let start = last_id(text, IdForm::Dashed, 0)->0;
        let found = dashed.last();
        assert forall|k: int| 0 <= k < 36 implies #[trigger] lower(found)[k] == if k == 8 || k == 13
            || k == 18 || k == 23 {
            '-'
        } else {
            ascii_lower(found[0 + place_in(IdForm::Dashed, k)])
        } by {
            assert(found[k] == text[start + k]);
            if is_hyphen_place(k) {
                assert(is_hyphen_place(start + k - start));
                assert(text[start + k] == '-');
            }
        }
    } else if compact.len() > 0 {
        hyphenated_places(lower(compact.last()));
    }
}

/// Where 32 digits end a text that holds no id with hyphens, they are the id, whatever goes before
/// them.
pub proof fn digits_at_the_end_come_out(front: Seq<char>, digits: Seq<char>)
    requires
        digits.len() == 32,
        forall|k: int| 0 <= k < 32 ==> is_hex(#[trigger] digits[k]),
        front.len() > 0 ==> !is_hex(front.last()),
        forall|i: int| !id_at(front + digits, IdForm::Dashed, i),
    ensures
        normalized_id(front + digits) matches Some(id) && is_written_id(
            id,
            digits,
            IdForm::Compact,
            0,
        ),
{
    let raw = front + digits;
    let start = front.len() as int;
    assert forall|k: int| start <= k < start + 32 implies is_hex(#[trigger] raw[k]) by {
        assert(raw[k] == digits[k - start]);
    }
    assert(id_at(raw, IdForm::Compact, start));
    the_last_id_comes_out(raw, IdForm::Compact, start);
    let id = normalized_id(raw)->0;
    assert forall|k: int| 0 <= k < 36 implies #[trigger] id[k] == if k == 8 || k == 13 || k == 18 || k
        == 23 {
        '-'
    } else {
        ascii_lower(digits[0 + place_in(IdForm::Compact, k)])
    } by {
        let place = place_in(IdForm::Compact, k);
        if !(k == 8 || k == 13 || k == 18 || k == 23) {
            assert(raw[start + place] == digits[place]);
        }
    }
}

/// An id is 32 hexadecimal digits of either case, or the same in groups of eight, four, four, four and
/// twelve with hyphens between them.
pub proof fn ids_have_two_forms(s: Seq<char>, i: int)
    ensures
        id_at(s, IdForm::Compact, i) <==> 0 <= i && i + 32 <= s.len() && forall|k: int|
            0 <= k < 32 ==> {
                let c = #[trigger] s[i + k];
                ('0' <= c <= '9') || ('a' <= c <= 'f') || ('A' <= c <= 'F')
            },
        id_at(s, IdForm::Dashed, i) <==> 0 <= i && i + 36 <= s.len() && forall|k: int|
            0 <= k < 36 ==> {
                let c = #[trigger] s[i + k];
                if k == 8 || k == 13 || k == 18 || k == 23 {
                    c == '-'
                } else {
                    ('0' <= c <= '9') || ('a' <= c <= 'f') || ('A' <= c <= 'F')
                }
            },
{
    if id_at(s, IdForm::Compact, i) {
        assert forall|k: int| 0 <= k < 32 implies is_hex(#[trigger] s[i + k]) by {}
    }
    if 0 <= i && i + 32 <= s.len() && forall|k: int| 0 <= k < 32 ==> is_hex(#[trigger] s[i + k]) {
        assert forall|j: int| i <= j < i + 32 implies is_hex(#[trigger] s[j]) by {
            assert(is_hex(s[i + (j - i)]));
        }
    }
    if id_at(s, IdForm::Dashed, i) {
        assert forall|k: int| 0 <= k < 36 implies if is_hyphen_place(k) {
            #[trigger] s[i + k] == '-'
        } else {
            is_hex(s[i + k])
        } by {
            assert(is_hyphen_place(i + k - i) == is_hyphen_place(k));
        }
    }
    if 0 <= i && i + 36 <= s.len() && forall|k: int|
        0 <= k < 36 ==> if is_hyphen_place(k) {
            #[trigger] s[i + k] == '-'
        } else {
            is_hex(s[i + k])
        } {
        assert forall|j: int| i <= j < i + 36 implies if is_hyphen_place(j - i) {
            #[trigger] s[j] == '-'
        } else {
            is_hex(s[j])
        } by {
            let k = j - i;
            assert(s[i + k] == s[j]);
        }
    }
}

/// Where there is no id, the user is told what was given, or that something is expected where nothing
/// was.
pub proof fn texts_without_ids_are_quoted(raw: Seq<char>)
    ensures
        trimmed(raw).len() == 0 ==> no_id_message(raw)
            == "expected a Notion page or data source id/url"@,
        trimmed(raw).len() > 0 ==> no_id_message(raw) == "`"@ + trimmed(raw)
            + "` does not look like a Notion page or data source id/url"@,
{
}

} // verus!
