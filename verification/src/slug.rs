//! Folder names of stories: a slug of the title and the head of the id.

use vstd::prelude::*;
use crate::text::{
    ascii_alphanumeric, ascii_lower, is_ascii_alphanumeric, is_white_space, prefix,
    string_of_range, strip_bounds, strip_leading, strip_trailing, stripped, take_prefix,
    to_ascii_lower, trimmed, CharClass,
};

verus! {

/// How many characters of a story's id its folder name carries.
pub const SHORT_ID_LEN: usize = 8;

/// The slug after one more character of the title: a letter or digit is
/// appended in lower case, anything else becomes a dash unless the slug
/// already ends in one.
pub open spec fn slug_step(acc: Seq<char>, ch: char) -> Seq<char> {
    if is_ascii_alphanumeric(ch) {
        acc.push(ascii_lower(ch))
    } else if acc.len() > 0 && acc.last() == '-' {
        acc
    } else {
        acc.push('-')
    }
}

/// The title with letters and digits in lower case and every run of other
/// characters collapsed into one dash.
pub open spec fn collapsed(title: Seq<char>) -> Seq<char>
    decreases title.len(),
{
    if title.len() == 0 {
        Seq::empty()
    } else {
        slug_step(collapsed(title.drop_last()), title.last())
    }
}

/// The slug of a title: its collapsed form without dashes at either end, or
/// `story` where nothing is left.
pub open spec fn slug_of(title: Seq<char>) -> Seq<char> {
    let core = stripped(collapsed(title), CharClass::Dash);
    if core.len() == 0 {
        "story"@
    } else {
        core
    }
}

/// The folder name of a story: the slug of its title, a dash, and the first
/// eight characters of its id.
pub open spec fn folder_name_of(title: Seq<char>, story_id: Seq<char>) -> Seq<char> {
    slug_of(title).push('-') + prefix(story_id, SHORT_ID_LEN as nat)
}

pub fn slugify_story_title(title: &str) -> (r: String)
    ensures
        r@ == slug_of(title@),
{
    let mut slug: Vec<char> = Vec::new();
    let mut last_dash = false;
    assert(title@.take(0) == Seq::<char>::empty());
    for ch in it: title.chars()
        invariant
            it.seq() == title@,
            slug@ == collapsed(title@.take(it.index() as int)),
            last_dash == (slug@.len() > 0 && slug@.last() == '-'),
    {
        assert(title@.take(it.index() + 1).drop_last() == title@.take(it.index() as int));
        if ascii_alphanumeric(ch) {
            slug.push(to_ascii_lower(ch));
            last_dash = false;
        } else if !last_dash {
            slug.push('-');
            last_dash = true;
        }
    }
    assert(title@.take(title@.len() as int) == title@);
    let (start, end) = strip_bounds(&slug, CharClass::Dash);
    if start == end {
        "story".to_owned()
    } else {
        string_of_range(&slug, start, end)
    }
}

pub fn make_story_folder_name(title: &str, story_id: &str) -> (r: String)
    ensures
        r@ == folder_name_of(title@, story_id@),
{
    let short_id = take_prefix(story_id, SHORT_ID_LEN);
    let mut name = slugify_story_title(title);
    name.push('-');
    name.append(short_id.as_str());
    name
}

/// A character that a slug can hold: a lower-case letter, a digit or a dash.
pub open spec fn is_slug_char(c: char) -> bool {
    ('0' <= c && c <= '9') || ('a' <= c && c <= 'z') || c == '-'
}

/// How many characters of `class` stand at the start of `s`.
pub open spec fn leading_count(s: Seq<char>, class: CharClass) -> nat
    decreases s.len(),
{
    if s.len() > 0 && class.holds(s[0]) {
        1 + leading_count(s.drop_first(), class)
    } else {
        0
    }
}

/// How many characters of `class` stand at the end of `s`.
pub open spec fn trailing_count(s: Seq<char>, class: CharClass) -> nat
    decreases s.len(),
{
    if s.len() > 0 && class.holds(s.last()) {
        1 + trailing_count(s.drop_last(), class)
    } else {
        0
    }
}

/// Stripping at the start leaves the rest of the sequence, which does not
/// start with a character of the class.
pub proof fn lemma_strip_leading(s: Seq<char>, class: CharClass)
    ensures
        leading_count(s, class) <= s.len(),
        strip_leading(s, class) == s.subrange(leading_count(s, class) as int, s.len() as int),
        strip_leading(s, class).len() > 0 ==> !class.holds(strip_leading(s, class)[0]),
    decreases s.len(),
{
    if s.len() > 0 && class.holds(s[0]) {
        let rest = s.drop_first();
        lemma_strip_leading(rest, class);
        assert(rest.subrange(leading_count(rest, class) as int, rest.len() as int) =~= s.subrange(
            leading_count(s, class) as int,
            s.len() as int,
        ));
    } else {
        assert(s.subrange(0, s.len() as int) =~= s);
    }
}

/// Stripping at the end leaves the front of the sequence, which does not end
/// with a character of the class.
pub proof fn lemma_strip_trailing(s: Seq<char>, class: CharClass)
    ensures
        trailing_count(s, class) <= s.len(),
        strip_trailing(s, class) == s.take(s.len() - trailing_count(s, class)),
        strip_trailing(s, class).len() > 0 ==> !class.holds(strip_trailing(s, class).last()),
    decreases s.len(),
{
    if s.len() > 0 && class.holds(s.last()) {
        let front = s.drop_last();
        lemma_strip_trailing(front, class);
        assert(front.take(front.len() - trailing_count(front, class)) =~= s.take(
            s.len() - trailing_count(s, class),
        ));
    } else {
        assert(s.take(s.len() as int) =~= s);
    }
}

/// The collapsed title holds slug characters only.
pub proof fn lemma_collapsed_chars(title: Seq<char>)
    ensures
        forall|i: int| 0 <= i < collapsed(title).len() ==> is_slug_char(#[trigger] collapsed(title)[i]),
    decreases title.len(),
{
    if title.len() > 0 {
        let front = collapsed(title.drop_last());
        let ch = title.last();
        lemma_collapsed_chars(title.drop_last());
        assert forall|i: int| 0 <= i < collapsed(title).len() implies is_slug_char(
            #[trigger] collapsed(title)[i],
        ) by {
            if i < front.len() {
                assert(collapsed(title)[i] == front[i]);
            } else if is_ascii_alphanumeric(ch) {
                assert(collapsed(title)[i] == ascii_lower(ch));
                assert(is_slug_char(ascii_lower(ch)));
            } else {
                assert(collapsed(title)[i] == '-');
            }
        }
    }
}

/// No dash of `s` is followed by another dash.
pub open spec fn no_dash_twice(s: Seq<char>) -> bool {
    forall|i: int| 0 <= i < s.len() - 1 ==> !(#[trigger] s[i] == '-' && s[i + 1] == '-')
}

/// The collapsed title holds no two dashes in a row.
pub proof fn lemma_collapsed_dashes(title: Seq<char>)
    ensures
        no_dash_twice(collapsed(title)),
    decreases title.len(),
{
    if title.len() > 0 {
        let front = collapsed(title.drop_last());
        let whole = collapsed(title);
        lemma_collapsed_dashes(title.drop_last());
        assert forall|i: int| 0 <= i < whole.len() - 1 implies !(#[trigger] whole[i] == '-'
            && whole[i + 1] == '-') by {
            if i + 1 < front.len() {
                assert(whole[i] == front[i] && whole[i + 1] == front[i + 1]);
            } else {
                assert(whole[i] == front[i]);
                assert(front[i] == front.last());
            }
        }
    }
}

/// A slug is never empty, holds only lower-case letters, digits and dashes,
/// neither starts nor ends with a dash, and holds no two dashes in a row.
pub proof fn law_slug_shape(title: Seq<char>)
    ensures
        slug_of(title).len() > 0,
        forall|i: int| 0 <= i < slug_of(title).len() ==> is_slug_char(#[trigger] slug_of(title)[i]),
        slug_of(title).first() != '-',
        slug_of(title).last() != '-',
        no_dash_twice(slug_of(title)),
{
    lemma_collapsed_dashes(title);
    let whole = collapsed(title);
    let tail = strip_leading(whole, CharClass::Dash);
    let core = strip_trailing(tail, CharClass::Dash);
    lemma_collapsed_chars(title);
    lemma_strip_leading(whole, CharClass::Dash);
    lemma_strip_trailing(tail, CharClass::Dash);
    if core.len() == 0 {
        reveal_strlit("story");
        assert("story"@.len() == 5);
        assert("story"@[0] == 's' && "story"@[1] == 't' && "story"@[2] == 'o' && "story"@[3] == 'r'
            && "story"@[4] == 'y');
    } else {
        assert(core[0] == tail[0]);
        assert forall|i: int| 0 <= i < core.len() implies is_slug_char(#[trigger] core[i]) by {
            assert(core[i] == tail[i]);
            assert(tail[i] == whole[leading_count(whole, CharClass::Dash) + i]);
        }
        assert forall|i: int| 0 <= i < core.len() - 1 implies !(#[trigger] core[i] == '-'
            && core[i + 1] == '-') by {
            let k = leading_count(whole, CharClass::Dash) as int;
            assert(core[i] == whole[k + i]);
            assert(core[i + 1] == whole[k + i + 1]);
        }
    }
}

/// A folder name starts with the slug of the title, then a dash; what
/// follows is the head of the id.
pub proof fn law_folder_name_shape(title: Seq<char>, story_id: Seq<char>)
    ensures
        folder_name_of(title, story_id).len() == slug_of(title).len() + 1 + prefix(
            story_id,
            SHORT_ID_LEN as nat,
        ).len(),
        folder_name_of(title, story_id).take(slug_of(title).len() as int) == slug_of(title),
        folder_name_of(title, story_id)[slug_of(title).len() as int] == '-',
        folder_name_of(title, story_id).skip(slug_of(title).len() as int + 1) == prefix(
            story_id,
            SHORT_ID_LEN as nat,
        ),
        prefix(story_id, SHORT_ID_LEN as nat).len() <= SHORT_ID_LEN,
{
    let name = folder_name_of(title, story_id);
    let slug = slug_of(title);
    assert(name.take(slug.len() as int) =~= slug);
    assert(name.skip(slug.len() as int + 1) =~= prefix(story_id, SHORT_ID_LEN as nat));
}

/// The slug before `story` stands in for an empty one: the collapsed title
/// without dashes at either end.
pub open spec fn slug_core(title: Seq<char>) -> Seq<char> {
    stripped(collapsed(title), CharClass::Dash)
}

/// A title that is not empty collapses to something.
proof fn lemma_collapsed_nonempty(title: Seq<char>)
    requires
        title.len() > 0,
    ensures
        collapsed(title).len() > 0,
{
}

/// A dash at the end makes no difference once dashes are stripped.
proof fn lemma_stripped_ignores_dash_at_end(s: Seq<char>)
    ensures
        strip_leading(s.push('-'), CharClass::Dash) == if strip_leading(s, CharClass::Dash).len()
            == 0 {
            Seq::<char>::empty()
        } else {
            strip_leading(s, CharClass::Dash).push('-')
        },
        stripped(s.push('-'), CharClass::Dash) == stripped(s, CharClass::Dash),
    decreases s.len(),
{
    if s.len() > 0 && s[0] == '-' {
        assert(s.push('-').drop_first() =~= s.drop_first().push('-'));
        lemma_stripped_ignores_dash_at_end(s.drop_first());
    } else if s.len() == 0 {
        assert(s.push('-').drop_first() =~= Seq::<char>::empty());
        assert(strip_leading(Seq::<char>::empty(), CharClass::Dash) =~= Seq::<char>::empty());
    }
    let tail = strip_leading(s, CharClass::Dash);
    if tail.len() > 0 {
        assert(tail.push('-').drop_last() =~= tail);
    }
}

/// One more character at the end that is no letter or digit leaves the
/// slug's core as it is.
proof fn lemma_core_ignores_separator_at_end(title: Seq<char>, ch: char)
    requires
        !is_ascii_alphanumeric(ch),
    ensures
        slug_core(title.push(ch)) == slug_core(title),
{
    assert(title.push(ch).drop_last() =~= title);
    lemma_stripped_ignores_dash_at_end(collapsed(title));
}

/// What a title collapses to behind one more character at its start that
/// is no letter or digit.
proof fn lemma_collapsed_behind_separator(ch: char, title: Seq<char>)
    requires
        !is_ascii_alphanumeric(ch),
    ensures
        collapsed(seq![ch] + title) == if title.len() > 0 && !is_ascii_alphanumeric(title[0]) {
            collapsed(title)
        } else {
            seq!['-'] + collapsed(title)
        },
    decreases title.len(),
{
    let whole = seq![ch] + title;
    if title.len() == 0 {
        assert(whole.len() == 1 && whole.last() == ch);
        assert(whole.drop_last() =~= Seq::<char>::empty());
        assert(collapsed(whole.drop_last()) =~= Seq::<char>::empty());
        assert(collapsed(whole) =~= seq!['-']);
        assert(collapsed(title) =~= Seq::<char>::empty());
        assert(collapsed(whole) =~= seq!['-'] + collapsed(title));
    } else {
        let front = title.drop_last();
        let last = title.last();
        assert(whole.drop_last() =~= seq![ch] + front);
        assert(whole.last() == last);
        lemma_collapsed_behind_separator(ch, front);
        if front.len() > 0 {
            assert(front[0] == title[0]);
            lemma_collapsed_nonempty(front);
        }
        if front.len() > 0 && !is_ascii_alphanumeric(front[0]) {
        } else {
            let acc = seq!['-'] + collapsed(front);
            if is_ascii_alphanumeric(last) {
                assert(acc.push(ascii_lower(last)) =~= seq!['-'] + collapsed(front).push(
                    ascii_lower(last),
                ));
            } else if front.len() == 0 {
                assert(acc =~= seq!['-']);
                assert(collapsed(title) =~= seq!['-']);
            } else {
                assert(acc.last() == collapsed(front).last());
                assert(acc.push('-') =~= seq!['-'] + collapsed(front).push('-'));
            }
        }
    }
}

/// One more character at the start that is no letter or digit leaves the
/// slug's core as it is.
proof fn lemma_core_ignores_separator_at_start(ch: char, title: Seq<char>)
    requires
        !is_ascii_alphanumeric(ch),
    ensures
        slug_core(seq![ch] + title) == slug_core(title),
{
    lemma_collapsed_behind_separator(ch, title);
    if title.len() > 0 && !is_ascii_alphanumeric(title[0]) {
    } else {
        assert((seq!['-'] + collapsed(title)).drop_first() =~= collapsed(title));
    }
}

/// White space is no letter and no digit.
pub proof fn lemma_white_space_separates(c: char)
    requires
        is_white_space(c),
    ensures
        !is_ascii_alphanumeric(c),
{
}

/// White space at the end of a title leaves the slug's core as it is.
proof fn lemma_core_ignores_white_space_at_end(title: Seq<char>)
    ensures
        slug_core(strip_trailing(title, CharClass::Whitespace)) == slug_core(title),
    decreases title.len(),
{
    if title.len() > 0 && is_white_space(title.last()) {
        lemma_white_space_separates(title.last());
        assert(title.drop_last().push(title.last()) =~= title);
        lemma_core_ignores_separator_at_end(title.drop_last(), title.last());
        lemma_core_ignores_white_space_at_end(title.drop_last());
    }
}

/// White space at the start of a title leaves the slug's core as it is.
proof fn lemma_core_ignores_white_space_at_start(title: Seq<char>)
    ensures
        slug_core(strip_leading(title, CharClass::Whitespace)) == slug_core(title),
    decreases title.len(),
{
    if title.len() > 0 && is_white_space(title[0]) {
        lemma_white_space_separates(title[0]);
        assert(seq![title[0]] + title.drop_first() =~= title);
        lemma_core_ignores_separator_at_start(title[0], title.drop_first());
        lemma_core_ignores_white_space_at_start(title.drop_first());
    }
}

/// White space around a title makes no difference to its slug, nor to the
/// folder name derived from it.
pub proof fn law_slug_ignores_surrounding_white_space(title: Seq<char>, story_id: Seq<char>)
    ensures
        slug_of(trimmed(title)) == slug_of(title),
        folder_name_of(trimmed(title), story_id) == folder_name_of(title, story_id),
{
    lemma_core_ignores_white_space_at_start(title);
    lemma_core_ignores_white_space_at_end(strip_leading(title, CharClass::Whitespace));
}

/// Two titles read alike for a slug: they are equally long, hold letters
/// and digits at the same places, and these agree up to the case of
/// letters. What stands between them may differ.
pub open spec fn alike_for_slug(a: Seq<char>, b: Seq<char>) -> bool {
    &&& a.len() == b.len()
    &&& forall|i: int|
        0 <= i < a.len() ==> is_ascii_alphanumeric(#[trigger] a[i]) == is_ascii_alphanumeric(b[i])
            && (is_ascii_alphanumeric(a[i]) ==> ascii_lower(a[i]) == ascii_lower(b[i]))
}

/// Titles that read alike collapse to the same.
proof fn lemma_alike_titles_collapse_alike(a: Seq<char>, b: Seq<char>)
    requires
        alike_for_slug(a, b),
    ensures
        collapsed(a) == collapsed(b),
    decreases a.len(),
{
    if a.len() > 0 {
        let x = a.drop_last();
        let y = b.drop_last();
        assert forall|i: int| 0 <= i < x.len() implies is_ascii_alphanumeric(#[trigger] x[i])
            == is_ascii_alphanumeric(y[i]) && (is_ascii_alphanumeric(x[i]) ==> ascii_lower(x[i])
            == ascii_lower(y[i])) by {
            assert(x[i] == a[i] && y[i] == b[i]);
        }
        lemma_alike_titles_collapse_alike(x, y);
        assert(a.last() == a[a.len() - 1] && b.last() == b[b.len() - 1]);
    }
}

/// The slug of a title does not change with the case of its letters, nor
/// with which characters stand between its letters and digits.
pub proof fn law_slug_ignores_case_and_separators(a: Seq<char>, b: Seq<char>)
    requires
        alike_for_slug(a, b),
    ensures
        slug_of(a) == slug_of(b),
{
    lemma_alike_titles_collapse_alike(a, b);
}

} // verus!
