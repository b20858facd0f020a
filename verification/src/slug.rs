//! Names that are made up out of other text.
use vstd::prelude::*;

use crate::text::{
    ascii_lower, ascii_lower_char, chars_of, is_ascii_alphanumeric, is_white_space, lower, trim,
    trim_end, trim_end_char, trim_start, trimmed, without_trailing,
};

verus! {

/// How many letters and digits `s` ends in.
pub open spec fn last_run(s: Seq<char>) -> nat
    decreases s.len(),
{
    if s.len() > 0 && is_ascii_alphanumeric(s.last()) {
        last_run(s.drop_last()) + 1
    } else {
        0
    }
}

/// The words of `s`: its longest runs of ASCII letters and digits, in order.
pub open spec fn words(s: Seq<char>) -> Seq<Seq<char>>
    decreases s.len(),
{
    proof {
        last_run_is_longest(s);
    }
    if s.len() == 0 {
        Seq::empty()
    } else if last_run(s) == 0 {
        words(s.drop_last())
    } else {
        let start = s.len() - last_run(s);
        words(s.take(start)).push(s.skip(start))
    }
}

/// The words one after another, with a hyphen between each two.
pub open spec fn joined(words: Seq<Seq<char>>) -> Seq<char>
    decreases words.len(),
{
    if words.len() == 0 {
        Seq::empty()
    } else if words.len() == 1 {
        words[0]
    } else {
        joined(words.drop_last()) + seq!['-'] + words.last()
    }
}

/// The words of `s` in small letters, joined by single hyphens.
pub open spec fn slug(s: Seq<char>) -> Seq<char> {
    lower(joined(words(s)))
}

/// The run at the end holds letters and digits alone, and nothing that goes before it belongs to
/// it.
pub proof fn last_run_is_longest(s: Seq<char>)
    ensures
        last_run(s) <= s.len(),
        forall|i: int| s.len() - last_run(s) <= i < s.len() ==> is_ascii_alphanumeric(#[trigger] s[i]),
        last_run(s) < s.len() ==> !is_ascii_alphanumeric(s[s.len() - last_run(s) - 1]),
        last_run(s.take(s.len() - last_run(s))) == 0,
    decreases s.len(),
{
    if s.len() > 0 && is_ascii_alphanumeric(s.last()) {
        let front = s.drop_last();
        last_run_is_longest(front);
        assert(s.take(s.len() - last_run(s)) =~= front.take(front.len() - last_run(front)));
        assert forall|i: int| s.len() - last_run(s) <= i < s.len() implies is_ascii_alphanumeric(
            #[trigger] s[i],
        ) by {
            if i < s.len() - 1 {
                assert(front[i] == s[i]);
            }
        }
    } else {
        assert(s.take(s.len() as int) =~= s);
    }
}

/// The letters and digits of `s` in small letters, with one hyphen for each run of other
/// characters that follows one.
spec fn hyphenate_words(s: Seq<char>) -> Seq<char>
    decreases s.len(),
{
    if s.len() == 0 {
        Seq::empty()
    } else {
        let front = hyphenate_words(s.drop_last());
        if is_ascii_alphanumeric(s.last()) {
            front.push(ascii_lower(s.last()))
        } else if front.len() > 0 && front.last() != '-' {
            front.push('-')
        } else {
            front
        }
    }
}

/// Letters and digits at the end are taken over.
proof fn run_is_taken_over(front: Seq<char>, run: Seq<char>)
    requires
        forall|i: int| 0 <= i < run.len() ==> is_ascii_alphanumeric(#[trigger] run[i]),
    ensures
        hyphenate_words(front + run) == hyphenate_words(front) + lower(run),
    decreases run.len(),
{
    if run.len() == 0 {
        assert(front + run =~= front);
        assert(hyphenate_words(front) + lower(run) =~= hyphenate_words(front));
    } else {
        run_is_taken_over(front, run.drop_last());
        assert((front + run).drop_last() =~= front + run.drop_last());
        assert(is_ascii_alphanumeric(run[run.len() - 1]));
        assert(lower(run) =~= lower(run.drop_last()).push(ascii_lower(run.last())));
        assert(hyphenate_words(front + run) =~= hyphenate_words(front) + lower(run));
    }
}

/// Words hold letters and digits, at least one.
pub proof fn words_are_runs(s: Seq<char>)
    ensures
        forall|i: int| 0 <= i < words(s).len() ==> (#[trigger] words(s)[i]).len() > 0,
        forall|i: int, k: int|
            0 <= i < words(s).len() && 0 <= k < words(s)[i].len() ==> is_ascii_alphanumeric(
                #[trigger] words(s)[i][k],
            ),
    decreases s.len(),
{
    if s.len() > 0 {
        last_run_is_longest(s);
        if last_run(s) == 0 {
            words_are_runs(s.drop_last());
            assert(words(s) == words(s.drop_last()));
        } else {
            let start = s.len() - last_run(s);
            let front = words(s.take(start));
            let run = s.skip(start);
            words_are_runs(s.take(start));
            assert(words(s) == front.push(run));
            assert forall|i: int| 0 <= i < words(s).len() implies (#[trigger] words(s)[i]).len()
                > 0 by {
                if i < front.len() {
                    assert(words(s)[i] == front[i]);
                }
            }
            assert forall|i: int, k: int|
                0 <= i < words(s).len() && 0 <= k < words(s)[i].len() implies is_ascii_alphanumeric(
                #[trigger] words(s)[i][k],
            ) by {
                if i < front.len() {
                    assert(words(s)[i] == front[i]);
                    assert(is_ascii_alphanumeric(front[i][k]));
                } else {
                    assert(run[k] == s[start + k]);
                }
            }
        }
    }
}

/// Where there are words, a letter or a digit ends them.
proof fn words_end_in_a_run(s: Seq<char>)
    requires
        words(s).len() > 0,
    ensures
        slug(s).len() > 0,
        slug(s).last() != '-',
{
    words_are_runs(s);
    let all = words(s);
    let last = all[all.len() - 1];
    assert(last.len() > 0);
    assert(is_ascii_alphanumeric(all[all.len() - 1][last.len() - 1]));
    assert(joined(all).last() == last.last());
}

/// What follows the words while the text is walked: a hyphen, once something else came after them.
spec fn loose_end(s: Seq<char>) -> Seq<char> {
    if words(s).len() > 0 && last_run(s) == 0 {
        seq!['-']
    } else {
        Seq::empty()
    }
}

/// Walking a text gives its words, and what follows them.
proof fn walking_gives_the_words(s: Seq<char>)
    ensures
        hyphenate_words(s) == slug(s) + loose_end(s),
    decreases s.len(),
{
    last_run_is_longest(s);
    if s.len() == 0 {
        assert(hyphenate_words(s) =~= slug(s) + loose_end(s));
    } else if last_run(s) == 0 {
        let front = s.drop_last();
        walking_gives_the_words(front);
        assert(words(s) == words(front));
        if words(front).len() > 0 {
            words_end_in_a_run(front);
        }
        assert(hyphenate_words(s) =~= slug(s) + loose_end(s));
    } else {
        let start = s.len() - last_run(s);
        let front = s.take(start);
        let run = s.skip(start);
        assert(front + run =~= s);
        walking_gives_the_words(front);
        assert forall|i: int| 0 <= i < run.len() implies is_ascii_alphanumeric(
            #[trigger] run[i],
        ) by {
            assert(run[i] == s[start + i]);
        }
        run_is_taken_over(front, run);
        assert(words(s) == words(front).push(run));
        assert(words(s).drop_last() =~= words(front));
        assert(slug(s) =~= slug(front) + loose_end(front) + lower(run));
        assert(loose_end(s) =~= Seq::empty());
        assert(hyphenate_words(s) =~= slug(s) + loose_end(s));
    }
}

/// What is no letter or digit at the front does not change the run at the end.
proof fn last_run_after_first(s: Seq<char>)
    requires
        s.len() > 0,
        !is_ascii_alphanumeric(s[0]),
    ensures
        last_run(s) == last_run(s.drop_first()),
    decreases s.len(),
{
    if s.len() > 1 && is_ascii_alphanumeric(s.last()) {
        last_run_after_first(s.drop_last());
        assert(s.drop_last().drop_first() =~= s.drop_first().drop_last());
    }
}

/// What is no letter or digit at the front does not change the words.
proof fn words_after_first(s: Seq<char>)
    requires
        s.len() > 0,
        !is_ascii_alphanumeric(s[0]),
    ensures
        words(s) == words(s.drop_first()),
    decreases s.len(),
{
    let rest = s.drop_first();
    last_run_after_first(s);
    last_run_is_longest(s);
    last_run_is_longest(rest);
    if last_run(s) == 0 {
        if s.len() > 1 {
            words_after_first(s.drop_last());
            assert(s.drop_last().drop_first() =~= rest.drop_last());
        } else {
            assert(s.drop_last() =~= rest);
        }
    } else {
        let start = s.len() - last_run(s);
        assert(start > 0);
        words_after_first(s.take(start));
        assert(s.take(start).drop_first() =~= rest.take(start - 1));
        assert(s.skip(start) =~= rest.skip(start - 1));
    }
}

/// White space at the front does not change the words.
proof fn words_after_trim_start(s: Seq<char>)
    ensures
        words(trim_start(s)) == words(s),
    decreases s.len(),
{
    if s.len() > 0 && is_white_space(s[0]) {
        words_after_first(s);
        words_after_trim_start(s.drop_first());
    }
}

/// White space at the back does not change the words.
proof fn words_after_trim_end(s: Seq<char>)
    ensures
        words(trim_end(s)) == words(s),
    decreases s.len(),
{
    if s.len() > 0 && is_white_space(s.last()) {
        words_after_trim_end(s.drop_last());
    }
}

/// The slug is what walking the trimmed text gives, without a hyphen at its end.
proof fn slug_by_walking(s: Seq<char>)
    ensures
        slug(s) == without_trailing(hyphenate_words(trimmed(s)), '-'),
{
    let text = trimmed(s);
    words_after_trim_start(s);
    words_after_trim_end(trim_start(s));
    walking_gives_the_words(text);
    hyphenated_words_form(text);
    let walked = hyphenate_words(text);
    open_slug_end(walked);
    if words(text).len() > 0 {
        words_end_in_a_run(text);
        assert(loose_end(text).len() == 1 ==> walked.drop_last() =~= slug(text));
        assert(loose_end(text).len() == 0 ==> walked =~= slug(text));
    } else {
        assert(walked =~= Seq::empty());
        assert(slug(text) =~= Seq::empty());
    }
}

/// What a word may hold once it is in small letters.
pub open spec fn is_slug_char(c: char) -> bool {
    ('a' <= c <= 'z') || ('0' <= c <= '9')
}

/// Words of small letters and digits, joined by single hyphens; or nothing.
pub open spec fn is_slug(s: Seq<char>) -> bool {
    &&& forall|i: int| 0 <= i < s.len() ==> is_slug_char(#[trigger] s[i]) || s[i] == '-'
    &&& s.len() > 0 ==> s[0] != '-' && s.last() != '-'
    &&& forall|i: int, j: int| 0 <= i && j == i + 1 && j < s.len() ==> !(#[trigger] s[i] == '-' && #[trigger] s[j] == '-')
}

/// What [`hyphenate_words`] gives: a slug, but for a hyphen that may end it.
spec fn is_open_slug(s: Seq<char>) -> bool {
    &&& forall|i: int| 0 <= i < s.len() ==> is_slug_char(#[trigger] s[i]) || s[i] == '-'
    &&& s.len() > 0 ==> s[0] != '-'
    &&& forall|i: int, j: int| 0 <= i && j == i + 1 && j < s.len() ==> !(#[trigger] s[i] == '-' && #[trigger] s[j] == '-')
}

proof fn hyphenated_words_form(s: Seq<char>)
    ensures
        is_open_slug(hyphenate_words(s)),
    decreases s.len(),
{
    if s.len() > 0 {
        hyphenated_words_form(s.drop_last());
    }
}

/// At most one hyphen has to go from the end.
proof fn open_slug_end(s: Seq<char>)
    requires
        is_open_slug(s),
    ensures
        is_slug(without_trailing(s, '-')),
        without_trailing(s, '-') == (if s.len() > 0 && s.last() == '-' {
            s.drop_last()
        } else {
            s
        }),
{
    if s.len() > 0 && s.last() == '-' {
        let front = s.drop_last();
        assert(front.len() > 0 ==> front.last() != '-') by {
            if front.len() > 0 {
                let i = s.len() - 2;
                let j = s.len() - 1;
                assert(!(s[i] == '-' && s[j] == '-'));
            }
        }
        assert(without_trailing(front, '-') == front);
    }
}

/// A slug holds small letters, digits and single hyphens between them, and nothing else.
pub proof fn slugs_are_well_formed(s: Seq<char>)
    ensures
        is_slug(slug(s)),
{
    slug_by_walking(s);
    hyphenated_words_form(trimmed(s));
    open_slug_end(hyphenate_words(trimmed(s)));
}

/// A text that is a slug already is left as it is.
pub proof fn slugs_are_kept(s: Seq<char>)
    requires
        is_slug(s),
    ensures
        slug(s) == s,
{
    if s.len() > 0 {
        assert(is_slug_char(s[0]) && is_slug_char(s.last()));
    }
    slug_by_walking(s);
    assert(trimmed(s) == s);
    slug_prefixes_are_kept(s, s.len() as int);
    assert(s.take(s.len() as int) =~= s);
    open_slug_end(s);
}

proof fn slug_prefixes_are_kept(s: Seq<char>, n: int)
    requires
        is_slug(s),
        0 <= n <= s.len(),
    ensures
        hyphenate_words(s.take(n)) == s.take(n),
    decreases n,
{
    if n > 0 {
        slug_prefixes_are_kept(s, n - 1);
        assert(s.take(n).drop_last() =~= s.take(n - 1));
        let i = n - 2;
        let j = n - 1;
        if n > 1 {
            assert(!(s[i] == '-' && s[j] == '-'));
        }
        assert(is_slug_char(s[j]) || s[j] == '-');
        assert(hyphenate_words(s.take(n)) =~= s.take(n));
    } else {
        assert(s.take(0) =~= Seq::empty());
    }
}

/// Making a slug of a slug changes nothing.
pub proof fn slugifying_twice_changes_nothing(s: Seq<char>)
    ensures
        slug(slug(s)) == slug(s),
{
    slugs_are_well_formed(s);
    slugs_are_kept(slug(s));
}

/// The letters and digits of `s`, in small letters.
pub open spec fn letters_and_digits(s: Seq<char>) -> Seq<char>
    decreases s.len(),
{
    if s.len() == 0 {
        Seq::empty()
    } else if is_ascii_alphanumeric(s.last()) {
        letters_and_digits(s.drop_last()).push(ascii_lower(s.last()))
    } else {
        letters_and_digits(s.drop_last())
    }
}

proof fn letters_after_first(s: Seq<char>)
    requires
        s.len() > 0,
        !is_ascii_alphanumeric(s[0]),
    ensures
        letters_and_digits(s) == letters_and_digits(s.drop_first()),
    decreases s.len(),
{
    if s.len() > 1 {
        letters_after_first(s.drop_last());
        assert(s.drop_last().drop_first() =~= s.drop_first().drop_last());
    } else {
        assert(s.drop_first() =~= Seq::empty());
        assert(s.drop_last() =~= Seq::empty());
    }
}

proof fn letters_after_trim_start(s: Seq<char>)
    ensures
        letters_and_digits(trim_start(s)) == letters_and_digits(s),
    decreases s.len(),
{
    if s.len() > 0 && is_white_space(s[0]) {
        letters_after_first(s);
        letters_after_trim_start(s.drop_first());
    }
}

proof fn letters_after_trim_end(s: Seq<char>)
    ensures
        letters_and_digits(trim_end(s)) == letters_and_digits(s),
    decreases s.len(),
{
    if s.len() > 0 && is_white_space(s.last()) {
        letters_after_trim_end(s.drop_last());
    }
}

proof fn letters_of_words(s: Seq<char>)
    ensures
        letters_and_digits(hyphenate_words(s)) == letters_and_digits(s),
    decreases s.len(),
{
    if s.len() > 0 {
        letters_of_words(s.drop_last());
        let front = hyphenate_words(s.drop_last());
        assert(front.push('-').drop_last() =~= front);
        assert(front.push(ascii_lower(s.last())).drop_last() =~= front);
    }
}

/// A slug keeps every letter and digit, in order and in small letters.
pub proof fn slugs_keep_letters_and_digits(s: Seq<char>)
    ensures
        letters_and_digits(slug(s)) == letters_and_digits(s),
{
    let walked = hyphenate_words(trimmed(s));
    slug_by_walking(s);
    letters_after_trim_start(s);
    letters_after_trim_end(trim_start(s));
    letters_of_words(trimmed(s));
    hyphenated_words_form(trimmed(s));
    open_slug_end(walked);
}

/// Makes a profile name out of `raw`.
pub fn slugify_profile_name(raw: &str) -> (r: String)
    ensures
        r@ == slug(raw@),
{
    let text = trim(raw);
    let chars = chars_of(text.as_str());
    let mut output = String::new();
    let mut last_dash = false;
    let mut empty = true;
    let mut i: usize = 0;
    assert(text@.take(0) =~= Seq::empty());
    while i < chars.len()
        invariant
            chars@ == text@,
            i <= chars.len(),
            output@ == hyphenate_words(text@.take(i as int)),
            empty == (output@.len() == 0),
            last_dash == (output@.len() > 0 && output@.last() == '-'),
        decreases chars.len() - i,
    {
        let c = chars[i];
        assert(text@.take(i + 1).drop_last() =~= text@.take(i as int));
        if ('a' <= c && c <= 'z') || ('A' <= c && c <= 'Z') || ('0' <= c && c <= '9') {
            output.push(ascii_lower_char(c));
            last_dash = false;
            empty = false;
        } else if !last_dash && !empty {
            output.push('-');
            last_dash = true;
        }
        i = i + 1;
    }
    proof {
        assert(text@.take(i as int) =~= text@);
        slug_by_walking(raw@);
    }
    trim_end_char(output.as_str(), '-')
}

/// An ASCII letter or a digit.
pub open spec fn letter_or_digit(c: char) -> bool {
    ('a' <= c <= 'z') || ('A' <= c <= 'Z') || ('0' <= c <= '9')
}

/// Two texts with a hyphen between them, or just the one that is not empty.
pub open spec fn with_hyphen(a: Seq<char>, b: Seq<char>) -> Seq<char> {
    if a.len() == 0 {
        b
    } else if b.len() == 0 {
        a
    } else {
        a + seq!['-'] + b
    }
}

/// The run at the end does not reach past what is no letter or digit.
proof fn last_run_behind(a: Seq<char>, c: char, b: Seq<char>)
    requires
        !is_ascii_alphanumeric(c),
    ensures
        last_run(a + seq![c] + b) == last_run(b),
    decreases b.len(),
{
    let s = a + seq![c] + b;
    if b.len() == 0 {
        assert(s.last() == c);
    } else {
        assert(s.last() == b.last());
        assert(s.drop_last() =~= a + seq![c] + b.drop_last());
        last_run_behind(a, c, b.drop_last());
    }
}

/// What is no letter or digit parts the words before it from those behind it.
proof fn words_on_both_sides(a: Seq<char>, c: char, b: Seq<char>)
    requires
        !is_ascii_alphanumeric(c),
    ensures
        words(a + seq![c] + b) == words(a) + words(b),
    decreases b.len(),
{
    let s = a + seq![c] + b;
    last_run_behind(a, c, b);
    last_run_is_longest(b);
    if b.len() == 0 {
        assert(s.drop_last() =~= a);
        assert(words(b) =~= Seq::empty());
        assert(words(s) == words(a));
        assert(words(a) + words(b) =~= words(a));
    } else if last_run(b) == 0 {
        assert(s.drop_last() =~= a + seq![c] + b.drop_last());
        words_on_both_sides(a, c, b.drop_last());
        assert(words(b) == words(b.drop_last()));
        assert(words(s) == words(s.drop_last()));
    } else {
        let start = b.len() - last_run(b);
        let front = b.take(start);
        let offset = a.len() + 1 + start;
        assert(offset == s.len() - last_run(s));
        assert(s.take(offset) =~= a + seq![c] + front);
        assert(s.skip(offset) =~= b.skip(start));
        words_on_both_sides(a, c, front);
        assert(words(b) == words(front).push(b.skip(start)));
        assert(words(s) == words(s.take(offset)).push(s.skip(offset)));
        assert(words(a) + words(b) =~= (words(a) + words(front)).push(b.skip(start)));
    }
}

/// Words that are not empty join to something that is not empty.
proof fn joined_is_empty_without_words(list: Seq<Seq<char>>)
    requires
        forall|i: int| 0 <= i < list.len() ==> (#[trigger] list[i]).len() > 0,
    ensures
        joined(list).len() == 0 <==> list.len() == 0,
{
    if list.len() > 0 {
        assert(list[list.len() - 1].len() > 0);
    }
}

/// Two lists of words join by joining each, with a hyphen between them.
proof fn joined_one_after_another(a: Seq<Seq<char>>, b: Seq<Seq<char>>)
    requires
        forall|i: int| 0 <= i < a.len() ==> (#[trigger] a[i]).len() > 0,
        forall|i: int| 0 <= i < b.len() ==> (#[trigger] b[i]).len() > 0,
    ensures
        joined(a + b) == with_hyphen(joined(a), joined(b)),
    decreases b.len(),
{
    joined_is_empty_without_words(a);
    joined_is_empty_without_words(b);
    if b.len() == 0 {
        assert(a + b =~= a);
    } else if a.len() == 0 {
        assert(a + b =~= b);
    } else {
        let front = b.drop_last();
        assert((a + b).drop_last() =~= a + front);
        assert((a + b).last() == b.last());
        joined_one_after_another(a, front);
        joined_is_empty_without_words(front);
        if b.len() == 1 {
            assert(front =~= Seq::empty());
            assert(a + front =~= a);
            assert(joined(b) == b[0]);
        }
        assert(joined(a + b) =~= with_hyphen(joined(a), joined(b)));
    }
}

/// The slug of letters and digits is those in small letters.
pub proof fn words_become_small(s: Seq<char>)
    requires
        forall|i: int| 0 <= i < s.len() ==> letter_or_digit(#[trigger] s[i]),
    ensures
        slug(s) == lower(s),
{
    last_run_is_longest(s);
    if s.len() > 0 {
        if last_run(s) < s.len() {
            assert(letter_or_digit(s[s.len() - last_run(s) - 1]));
        }
        assert(s.take(0) =~= Seq::empty());
        assert(s.skip(0) =~= s);
        assert(words(Seq::<char>::empty()) =~= Seq::empty());
        assert(words(s) =~= seq![s]);
        assert(joined(words(s)) == s);
    } else {
        assert(slug(s) =~= lower(s));
    }
}

/// Anything else parts a slug: what goes before it and what follows are made into slugs, with one
/// hyphen between them where neither is empty.
pub proof fn anything_else_becomes_one_hyphen(a: Seq<char>, c: char, b: Seq<char>)
    requires
        !letter_or_digit(c),
    ensures
        slug(a + seq![c] + b) == with_hyphen(slug(a), slug(b)),
{
    words_on_both_sides(a, c, b);
    words_are_runs(a);
    words_are_runs(b);
    joined_one_after_another(words(a), words(b));
    assert(slug(a + seq![c] + b) =~= with_hyphen(slug(a), slug(b)));
}

} // verus!
