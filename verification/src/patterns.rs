//! Which changed files go into the commit: the file patterns of the
//! `files` input, read in order, with `#` comments and `!` negations.

use vstd::prelude::*;
use crate::text::{chars_of, string_views};

verus! {

/// A blank pattern or a `#` comment, which selects and excludes nothing.
pub open spec fn is_ignored_pattern(p: Seq<char>) -> bool {
    p.len() == 0 || p[0] == '#'
}

/// A pattern that starts with `!` excludes the files its remainder matches.
pub open spec fn is_negated_pattern(p: Seq<char>) -> bool {
    p.len() > 0 && p[0] == '!'
}

/// The glob of a pattern: without its leading `!` where it is negated.
pub open spec fn pattern_glob(p: Seq<char>) -> Seq<char> {
    if is_negated_pattern(p) {
        p.skip(1)
    } else {
        p
    }
}

/// Whether a file is selected, given the patterns in order and, for each,
/// whether its glob matches the file: the first pattern that is not
/// ignored and whose glob matches decides; a negated one excludes the file,
/// any other includes it. A file that no pattern matches is not selected.
pub open spec fn spec_selected(patterns: Seq<Seq<char>>, matches: Seq<bool>) -> bool
    decreases patterns.len(),
{
    if patterns.len() == 0 {
        false
    } else if is_ignored_pattern(patterns[0]) || !matches[0] {
        spec_selected(patterns.skip(1), matches.skip(1))
    } else {
        !is_negated_pattern(patterns[0])
    }
}

/// A character with a meaning in a glob, or the path separator `/`.
pub open spec fn is_glob_special(c: char) -> bool {
    c == '*' || c == '?' || c == '[' || c == ']' || c == '{' || c == '}' || c == ','
        || c == '!' || c == '\\' || c == '/'
}

/// A glob made of plain characters only, which stand for themselves.
pub open spec fn is_literal_glob(g: Seq<char>) -> bool {
    forall|i: int| 0 <= i < g.len() ==> !is_glob_special(#[trigger] g[i])
}

/// Whether, for each pattern that is not ignored and whose glob is made of
/// plain characters, the recorded match is whether that glob equals `file`.
pub open spec fn literal_matches_exact(
    file: Seq<char>,
    patterns: Seq<Seq<char>>,
    matches: Seq<bool>,
) -> bool {
    forall|i: int|
        0 <= i < patterns.len() && !is_ignored_pattern(#[trigger] patterns[i]) && is_literal_glob(
            pattern_glob(patterns[i]),
        ) ==> matches[i] == (pattern_glob(patterns[i]) == file)
}

/// Whether a glob matches a path, as `glob_match::glob_match` decides for a
/// path without `\`.
pub uninterp spec fn glob_matches(glob: Seq<char>, path: Seq<char>) -> bool;

/// Calls `glob_match::glob_match`. Claimed: for a path without `\`, the
/// result is the named function of glob and path. The crate's one step that
/// depends on the platform, `std::path::is_separator`, is applied to path
/// characters only, and platforms differ on it only for `\`. Claimed too: a
/// glob of plain characters (no wildcard, class, brace, negation, escape or
/// separator) matches exactly the path equal to it, as the source compares
/// such characters byte for byte.
#[verifier::external_body]
fn glob_match(glob: &str, path: &str) -> (b: bool)
    ensures
        !path@.contains('\\') ==> b == glob_matches(glob@, path@),
        is_literal_glob(glob@) ==> b == (glob@ == path@),
{
    glob_match::glob_match(glob, path)
}

/// For each pattern, whether it matches `file`: an ignored pattern does
/// not, any other does where its glob matches the file.
pub open spec fn spec_pattern_matches(file: Seq<char>, patterns: Seq<Seq<char>>) -> Seq<bool> {
    Seq::new(
        patterns.len(),
        |i: int| !is_ignored_pattern(patterns[i]) && glob_matches(pattern_glob(patterns[i]), file),
    )
}

/// For each pattern, whether its glob matches `file`; ignored patterns are
/// not tried and count as no match.
pub fn pattern_matches(file: &str, patterns: &Vec<String>) -> (m: Vec<bool>)
    ensures
        m@.len() == patterns@.len(),
        forall|i: int|
            0 <= i < m@.len() && is_ignored_pattern(#[trigger] string_views(patterns@)[i])
                ==> !m@[i],
        literal_matches_exact(file@, string_views(patterns@), m@),
        !file@.contains('\\') ==> m@ == spec_pattern_matches(file@, string_views(patterns@)),
        !file@.contains('\\') ==> forall|i: int|
            0 <= i < patterns@.len() && !is_ignored_pattern(#[trigger] string_views(patterns@)[i])
                ==> m@[i] == glob_matches(pattern_glob(string_views(patterns@)[i]), file@),
{
    let mut m: Vec<bool> = Vec::new();
    let mut i: usize = 0;
    while i < patterns.len()
        invariant
            i <= patterns@.len(),
            m@.len() == i,
            forall|j: int|
                0 <= j < i && is_ignored_pattern(#[trigger] string_views(patterns@)[j]) ==> !m@[j],
            literal_matches_exact(file@, string_views(patterns@).take(i as int), m@),
            !file@.contains('\\') ==> forall|j: int|
                0 <= j < i ==> m@[j] == (!is_ignored_pattern(string_views(patterns@)[j])
                    && glob_matches(pattern_glob(string_views(patterns@)[j]), file@)),
        decreases patterns.len() - i,
    {
        let p = patterns[i].as_str();
        let cv = chars_of(p);
        let hit = if cv.len() == 0 || cv[0] == '#' {
            false
        } else if cv[0] == '!' {
            let n = cv.len();
            let g = p.substring_char(1, n);
            proof {
                assert(g@ =~= pattern_glob(p@));
            }
            glob_match(g, file)
        } else {
            glob_match(p, file)
        };
        let ghost before = m@;
        m.push(hit);
        proof {
            let ps = string_views(patterns@);
            assert(ps[i as int] == p@);
            assert forall|j: int|
                0 <= j < i + 1 && !is_ignored_pattern(#[trigger] ps.take(i + 1)[j])
                    && is_literal_glob(pattern_glob(ps.take(i + 1)[j])) implies m@[j] == (
            pattern_glob(ps.take(i + 1)[j]) == file@) by {
                if j < i {
                    assert(ps.take(i + 1)[j] == ps.take(i as int)[j]);
                    assert(m@[j] == before[j]);
                }
            }
        }
        i = i + 1;
    }
    proof {
        assert(string_views(patterns@).take(patterns@.len() as int) =~= string_views(patterns@));
        if !file@.contains('\\') {
            assert(m@ =~= spec_pattern_matches(file@, string_views(patterns@)));
        }
    }
    m
}

/// Decide whether a file is selected from the patterns and which of them
/// match it.
pub fn decide_selection(patterns: &Vec<String>, matches: &Vec<bool>) -> (selected: bool)
    requires
        matches@.len() == patterns@.len(),
    ensures
        selected == spec_selected(string_views(patterns@), matches@),
{
    let ghost ps = string_views(patterns@);
    let mut i: usize = 0;
    proof {
        assert(ps.skip(0) =~= ps);
        assert(matches@.skip(0) =~= matches@);
    }
    while i < patterns.len()
        invariant
            i <= patterns@.len(),
            matches@.len() == patterns@.len(),
            ps == string_views(patterns@),
            spec_selected(ps, matches@) == spec_selected(ps.skip(i as int), matches@.skip(
                i as int,
            )),
        decreases patterns.len() - i,
    {
        let cv = chars_of(patterns[i].as_str());
        proof {
            assert(ps.skip(i as int)[0] == cv@);
            assert(ps.skip(i as int).skip(1) =~= ps.skip(i + 1));
            assert(matches@.skip(i as int).skip(1) =~= matches@.skip(i + 1));
        }
        if !(cv.len() == 0 || cv[0] == '#') && matches[i] {
            return !(cv[0] == '!');
        }
        i = i + 1;
    }
    false
}

/// Whether `file` is selected by `patterns`: the selection rule applied to
/// which patterns match the file. For a file without `\` those are the
/// glob matches named by `glob_matches`; for any file, some outcome of
/// matching in which globs of plain characters match exactly the equal path.
pub fn is_file_selected(file: &str, patterns: &Vec<String>) -> (selected: bool)
    ensures
        !file@.contains('\\') ==> selected == spec_selected(
            string_views(patterns@),
            spec_pattern_matches(file@, string_views(patterns@)),
        ),
        exists|m: Seq<bool>|
            m.len() == patterns@.len() && literal_matches_exact(file@, string_views(patterns@), m)
                && selected == spec_selected(string_views(patterns@), m),
{
    let m = pattern_matches(file, patterns);
    decide_selection(patterns, &m)
}

} // verus!

verus! {

/// Some pattern decides the selection: it is not ignored and it matches.
pub open spec fn some_pattern_decides(patterns: Seq<Seq<char>>, matches: Seq<bool>) -> bool {
    exists|i: int|
        0 <= i < patterns.len() && !is_ignored_pattern(#[trigger] patterns[i]) && matches[i]
}

/// A file is selected only through a pattern that includes it: a pattern
/// that is neither ignored nor negated and that matches the file.
pub proof fn lemma_selected_only_by_include(patterns: Seq<Seq<char>>, matches: Seq<bool>)
    requires
        matches.len() == patterns.len(),
        spec_selected(patterns, matches),
    ensures
        exists|i: int|
            0 <= i < patterns.len() && !is_ignored_pattern(#[trigger] patterns[i])
                && !is_negated_pattern(patterns[i]) && matches[i],
    decreases patterns.len(),
{
    if is_ignored_pattern(patterns[0]) || !matches[0] {
        lemma_selected_only_by_include(patterns.skip(1), matches.skip(1));
        let i = choose|i: int|
            0 <= i < patterns.skip(1).len() && !is_ignored_pattern(
                #[trigger] patterns.skip(1)[i],
            ) && !is_negated_pattern(patterns.skip(1)[i]) && matches.skip(1)[i];
        assert(patterns[i + 1] == patterns.skip(1)[i]);
    } else {
        assert(patterns[0] == patterns[0]);
    }
}

/// Blank and `#` comment patterns have no effect: removing one leaves the
/// selection unchanged, whatever the other patterns and matches are.
pub proof fn lemma_ignored_pattern_has_no_effect(
    patterns: Seq<Seq<char>>,
    matches: Seq<bool>,
    i: int,
)
    requires
        matches.len() == patterns.len(),
        0 <= i < patterns.len(),
        is_ignored_pattern(patterns[i]),
    ensures
        spec_selected(patterns.remove(i), matches.remove(i)) == spec_selected(patterns, matches),
    decreases patterns.len(),
{
    if i == 0 {
        assert(patterns.remove(0) =~= patterns.skip(1));
        assert(matches.remove(0) =~= matches.skip(1));
    } else {
        lemma_ignored_pattern_has_no_effect(patterns.skip(1), matches.skip(1), i - 1);
        assert(patterns.remove(i).skip(1) =~= patterns.skip(1).remove(i - 1));
        assert(matches.remove(i).skip(1) =~= matches.skip(1).remove(i - 1));
        assert(patterns.remove(i)[0] == patterns[0]);
        assert(matches.remove(i)[0] == matches[0]);
    }
}

/// The first deciding pattern wins: once some pattern of a list matches the
/// file, patterns added after the list do not change whether it is selected.
pub proof fn lemma_first_match_wins(
    patterns: Seq<Seq<char>>,
    matches: Seq<bool>,
    more: Seq<Seq<char>>,
    more_matches: Seq<bool>,
)
    requires
        matches.len() == patterns.len(),
        more_matches.len() == more.len(),
        some_pattern_decides(patterns, matches),
    ensures
        spec_selected(patterns + more, matches + more_matches) == spec_selected(patterns, matches),
    decreases patterns.len(),
{
    let i = choose|i: int|
        0 <= i < patterns.len() && !is_ignored_pattern(#[trigger] patterns[i]) && matches[i];
    assert((patterns + more)[0] == patterns[0]);
    assert((matches + more_matches)[0] == matches[0]);
    if is_ignored_pattern(patterns[0]) || !matches[0] {
        assert(patterns.skip(1)[i - 1] == patterns[i]);
        assert(some_pattern_decides(patterns.skip(1), matches.skip(1)));
        lemma_first_match_wins(patterns.skip(1), matches.skip(1), more, more_matches);
        assert((patterns + more).skip(1) =~= patterns.skip(1) + more);
        assert((matches + more_matches).skip(1) =~= matches.skip(1) + more_matches);
    }
}

} // verus!

verus! {

/// A pattern matches a file exactly when the pattern as written, with only
/// a leading `!` removed, matches the whole path; a blank or `#` pattern
/// matches nothing.
pub proof fn lemma_pattern_matches_as_written(file: Seq<char>, patterns: Seq<Seq<char>>, i: int)
    requires
        0 <= i < patterns.len(),
    ensures
        patterns[i].len() == 0 || patterns[i][0] == '#' ==> !spec_pattern_matches(file, patterns)[i],
        patterns[i].len() > 0 && patterns[i][0] != '#' && patterns[i][0] != '!'
            ==> spec_pattern_matches(file, patterns)[i] == glob_matches(patterns[i], file),
        patterns[i].len() > 0 && patterns[i][0] == '!' ==> spec_pattern_matches(file, patterns)[i]
            == glob_matches(patterns[i].skip(1), file),
{
}

/// A single pattern that is neither blank, a comment nor negated selects
/// exactly the files whose whole path its glob matches; a single negated
/// pattern selects nothing.
pub proof fn lemma_single_pattern_selects_its_matches(file: Seq<char>, p: Seq<char>)
    requires
        p.len() > 0,
        p[0] != '#',
    ensures
        p[0] != '!' ==> spec_selected(seq![p], spec_pattern_matches(file, seq![p])) == glob_matches(
            p,
            file,
        ),
        p[0] == '!' ==> !spec_selected(seq![p], spec_pattern_matches(file, seq![p])),
{
    let ps = seq![p];
    let m = spec_pattern_matches(file, ps);
    assert(ps[0] == p);
    assert(m[0] == (!is_ignored_pattern(p) && glob_matches(pattern_glob(p), file)));
    assert(ps.skip(1) =~= Seq::<Seq<char>>::empty());
    assert(m.skip(1) =~= Seq::<bool>::empty());
    reveal_with_fuel(spec_selected, 2);
}

} // verus!
