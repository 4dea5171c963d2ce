//! Action inputs: the names under which the runner passes them, and how
//! boolean, numeric and list inputs are read from their raw text.

use vstd::prelude::*;
use crate::text::{chars_of, keep_nonempty, nonempty_lines, str_lines, string_views, split_newlines, strip_each, lemma_split_newlines_nonempty, lemma_split_newlines_push};

verus! {

/// What `str::to_uppercase` returns for a text: its Unicode uppercase
/// mapping, which may change the number of characters.
pub uninterp spec fn unicode_uppercase(s: Seq<char>) -> Seq<char>;

/// Calls `str::to_uppercase`. Claimed: the result is a function of the
/// text alone, named `unicode_uppercase`.
#[verifier::external_body]
fn to_uppercase(s: &str) -> (u: String)
    ensures
        u@ == unicode_uppercase(s@),
{
    s.to_uppercase()
}

/// `s` with every `'-'` replaced by `'_'`.
pub open spec fn dashes_to_underscores(s: Seq<char>) -> Seq<char> {
    s.map_values(|c: char| if c == '-' { '_' } else { c })
}

/// The environment variable that holds the input `name`:
/// `INPUT_` followed by the uppercased name with `-` replaced by `_`.
pub open spec fn spec_input_env_name(name: Seq<char>) -> Seq<char> {
    "INPUT_"@ + dashes_to_underscores(unicode_uppercase(name))
}

/// The environment variable under which the runner passes input `name`.
pub fn input_env_name(name: &str) -> (v: String)
    ensures
        v@ == spec_input_env_name(name@),
{
    let upper = to_uppercase(name);
    let u = upper.as_str();
    let cv = chars_of(u);
    let n = cv.len();
    let mut out = String::from_str("INPUT_");
    proof {
        reveal_strlit("INPUT_");
        reveal_strlit("_");
    }
    let mut start: usize = 0;
    let mut i: usize = 0;
    while i < n
        invariant
            cv@ == u@,
            u@ == unicode_uppercase(name@),
            n == cv.len(),
            start <= i <= n,
            out@ == "INPUT_"@ + dashes_to_underscores(u@.subrange(0, start as int)),
            forall|j: int| start <= j < i ==> u@[j] != '-',
        decreases n - i,
    {
        if cv[i] == '-' {
            let piece = u.substring_char(start, i);
            out.append(piece);
            out.append("_");
            proof {
                reveal_strlit("_");
                let lhs = dashes_to_underscores(u@.subrange(0, i + 1));
                let rhs = dashes_to_underscores(u@.subrange(0, start as int)) + piece@ + "_"@;
                assert(lhs.len() == rhs.len());
                assert forall|j: int| 0 <= j < lhs.len() implies lhs[j] == rhs[j] by {
                    if j < start {
                    } else if j < i {
                        assert(piece@[j - start] == u@[j]);
                    } else {
                        assert(u@[j] == '-');
                    }
                }
                assert(lhs =~= rhs);
            }
            start = i + 1;
        }
        i = i + 1;
    }
    let piece = u.substring_char(start, n);
    out.append(piece);
    proof {
        let lhs = dashes_to_underscores(u@);
        let rhs = dashes_to_underscores(u@.subrange(0, start as int)) + piece@;
        assert(lhs.len() == rhs.len());
        assert forall|j: int| 0 <= j < lhs.len() implies lhs[j] == rhs[j] by {
            if j >= start {
                assert(piece@[j - start] == u@[j]);
            }
        }
        assert(lhs =~= rhs);
    }
    out
}

/// The ASCII lowercase form of a character; other characters stay.
pub open spec fn ascii_lower(c: char) -> char {
    if 'A' <= c && c <= 'Z' {
        ((c as u32) + 32) as char
    } else {
        c
    }
}

proof fn lemma_ascii_lower_letter(c: char, lower: char, upper: char)
    requires
        'a' <= lower <= 'z',
        upper as u32 + 32 == lower as u32,
    ensures
        ascii_lower(c) == lower <==> (c == lower || c == upper),
{
}

/// A boolean input is true when its text is `true` in any ASCII case.
pub open spec fn spec_bool_input(value: Seq<char>) -> bool {
    value.map_values(|c: char| ascii_lower(c)) == "true"@
}

/// Read a boolean input from its raw text: `true` in any ASCII case is
/// true, anything else false.
pub fn get_bool_input(value: &str) -> (b: bool)
    ensures
        b == spec_bool_input(value@),
{
    proof {
        reveal_strlit("true");
    }
    let cv = chars_of(value);
    let lowered = Ghost(value@.map_values(|c: char| ascii_lower(c)));
    if cv.len() != 4 {
        assert(lowered@.len() != "true"@.len());
        return false;
    }
    let b = (cv[0] == 't' || cv[0] == 'T') && (cv[1] == 'r' || cv[1] == 'R') && (cv[2] == 'u'
        || cv[2] == 'U') && (cv[3] == 'e' || cv[3] == 'E');
    proof {
        if b {
            assert(lowered@ =~= "true"@);
        } else {
            lemma_ascii_lower_letter(cv[0], 't', 'T');
            lemma_ascii_lower_letter(cv[1], 'r', 'R');
            lemma_ascii_lower_letter(cv[2], 'u', 'U');
            lemma_ascii_lower_letter(cv[3], 'e', 'E');
            assert(lowered@[0] != "true"@[0] || lowered@[1] != "true"@[1] || lowered@[2]
                != "true"@[2] || lowered@[3] != "true"@[3]);
        }
    }
    b
}

/// The entries of a list input: its non-empty lines, in order.
pub open spec fn spec_multiline_input(value: Seq<char>) -> Seq<Seq<char>> {
    keep_nonempty(str_lines(value))
}

/// Read a list input (newline-delimited) from its raw text: each non-empty
/// line is one entry.
pub fn get_multiline_input(value: &str) -> (entries: Vec<String>)
    ensures
        string_views(entries@) == spec_multiline_input(value@),
{
    nonempty_lines(value)
}

/// An ASCII decimal digit.
pub open spec fn is_digit(c: char) -> bool {
    '0' <= c && c <= '9'
}

/// The decimal value of a sequence of digits.
pub open spec fn digits_value(d: Seq<char>) -> nat
    decreases d.len(),
{
    if d.len() == 0 {
        0
    } else {
        digits_value(d.drop_last()) * 10 + ((d.last() as int) - ('0' as int)) as nat
    }
}

/// The digits of an unsigned number: the text without one leading `'+'`.
pub open spec fn unsigned_digits(s: Seq<char>) -> Seq<char> {
    if s.len() > 0 && s[0] == '+' {
        s.skip(1)
    } else {
        s
    }
}

/// What `str::parse::<u32>` accepts: an optional `'+'` and at least one
/// decimal digit, of value at most `u32::MAX`.
pub open spec fn spec_parse_u32(s: Seq<char>) -> Option<u32> {
    let d = unsigned_digits(s);
    if d.len() > 0 && (forall|i: int| 0 <= i < d.len() ==> is_digit(#[trigger] d[i]))
        && digits_value(d) <= u32::MAX {
        Some(digits_value(d) as u32)
    } else {
        None
    }
}

/// The number of retries a raw `max-retries` input asks for: its value
/// where it parses as a `u32`, else one.
pub open spec fn spec_max_retries(raw: Seq<char>) -> u32 {
    match spec_parse_u32(raw) {
        Some(v) => v,
        None => 1,
    }
}

/// Appending digits never lowers the value.
proof fn lemma_digits_value_prefix(d: Seq<char>, m: int)
    requires
        0 <= m <= d.len(),
        forall|i: int| 0 <= i < d.len() ==> is_digit(#[trigger] d[i]),
    ensures
        digits_value(d.take(m)) <= digits_value(d),
    decreases d.len(),
{
    if m < d.len() {
        assert(d.drop_last().take(m) =~= d.take(m));
        assert(is_digit(d[d.len() - 1]));
        lemma_digits_value_prefix(d.drop_last(), m);
    } else {
        assert(d.take(m) =~= d);
    }
}

/// Parse an unsigned 32-bit decimal number, as `str::parse::<u32>` does.
pub fn parse_u32(s: &str) -> (r: Option<u32>)
    ensures
        r == spec_parse_u32(s@),
{
    let cv = chars_of(s);
    let n = cv.len();
    let mut k: usize = 0;
    if n > 0 && cv[0] == '+' {
        k = 1;
    }
    let ghost d = unsigned_digits(s@);
    proof {
        assert(d =~= s@.skip(k as int));
    }
    if k == n {
        return None;
    }
    let mut acc: u64 = 0;
    let mut i: usize = k;
    proof {
        assert(d.take(0) =~= Seq::<char>::empty());
    }
    while i < n
        invariant
            cv@ == s@,
            n == cv.len(),
            k <= i <= n,
            d == s@.skip(k as int),
            d == unsigned_digits(s@),
            d.len() > 0,
            acc == digits_value(d.take(i - k)),
            acc <= u32::MAX,
            forall|j: int| 0 <= j < i - k ==> is_digit(#[trigger] d[j]),
        decreases n - i,
    {
        let c = cv[i];
        if !('0' <= c && c <= '9') {
            assert(!is_digit(d[i - k]));
            return None;
        }
        proof {
            assert(d.take(i - k + 1).drop_last() =~= d.take(i - k));
            assert(d.take(i - k + 1).last() == c);
        }
        acc = acc * 10 + ((c as u32) - ('0' as u32)) as u64;
        if acc > 4294967295u64 {
            proof {
                if forall|j: int| 0 <= j < d.len() ==> is_digit(#[trigger] d[j]) {
                    lemma_digits_value_prefix(d, i - k + 1);
                }
            }
            return None;
        }
        i = i + 1;
    }
    proof {
        assert(d.take(n - k) =~= d);
    }
    Some(acc as u32)
}

/// The number of retries asked for by the raw `max-retries` input.
pub fn parse_max_retries(raw: &str) -> (n: u32)
    ensures
        n == spec_max_retries(raw@),
{
    match parse_u32(raw) {
        Some(v) => v,
        None => 1,
    }
}

} // verus!

verus! {

/// Lines joined into one text with a `'\n'` between each two.
pub open spec fn join_lines(ls: Seq<Seq<char>>) -> Seq<char>
    decreases ls.len(),
{
    if ls.len() == 0 {
        Seq::empty()
    } else if ls.len() == 1 {
        ls[0]
    } else {
        join_lines(ls.drop_last()) + seq!['\n'] + ls.last()
    }
}

/// A line that a list input can carry as it is: non-empty, without a
/// newline and not ending in a carriage return.
pub open spec fn is_plain_line(l: Seq<char>) -> bool {
    &&& l.len() > 0
    &&& !l.contains('\n')
    &&& l.last() != '\r'
}

proof fn lemma_split_newlines_append_line(p: Seq<char>, t: Seq<char>)
    requires
        !t.contains('\n'),
    ensures
        split_newlines(p + t) == split_newlines(p).drop_last().push(split_newlines(p).last() + t),
    decreases t.len(),
{
    lemma_split_newlines_nonempty(p);
    if t.len() == 0 {
        assert(p + t =~= p);
        assert(split_newlines(p).last() + t =~= split_newlines(p).last());
        assert(split_newlines(p).drop_last().push(split_newlines(p).last()) =~= split_newlines(p));
    } else {
        let t0 = t.drop_last();
        let c = t.last();
        assert(!t0.contains('\n')) by {
            if t0.contains('\n') {
                let k = choose|k: int| 0 <= k < t0.len() && t0[k] == '\n';
                assert(t[k] == '\n');
            }
        }
        assert(c != '\n') by {
            assert(t[t.len() - 1] == c);
        }
        lemma_split_newlines_append_line(p, t0);
        assert(p + t =~= (p + t0).push(c));
        lemma_split_newlines_push(p + t0, c);
        let q = split_newlines(p);
        assert(q.drop_last().push(q.last() + t0).drop_last() =~= q.drop_last());
        assert(q.last() + t =~= (q.last() + t0).push(c));
    }
}

proof fn lemma_split_join(ls: Seq<Seq<char>>)
    requires
        ls.len() > 0,
        forall|i: int| 0 <= i < ls.len() ==> !(#[trigger] ls[i]).contains('\n'),
    ensures
        split_newlines(join_lines(ls)) == ls,
    decreases ls.len(),
{
    if ls.len() == 1 {
        lemma_split_newlines_append_line(Seq::empty(), ls[0]);
        assert(Seq::<char>::empty() + ls[0] =~= ls[0]);
        assert(split_newlines(Seq::<char>::empty()).drop_last().push(
            Seq::<char>::empty() + ls[0],
        ) =~= ls);
    } else {
        let init = ls.drop_last();
        assert forall|i: int| 0 <= i < init.len() implies !(#[trigger] init[i]).contains('\n') by {
            assert(init[i] == ls[i]);
        }
        lemma_split_join(init);
        let p = join_lines(init) + seq!['\n'];
        assert(p =~= join_lines(init).push('\n'));
        lemma_split_newlines_push(join_lines(init), '\n');
        assert(!ls.last().contains('\n')) by {
            assert(ls[ls.len() - 1] == ls.last());
        }
        lemma_split_newlines_append_line(p, ls.last());
        assert(init.push(Seq::<char>::empty()).drop_last() =~= init);
        assert(Seq::<char>::empty() + ls.last() =~= ls.last());
        assert(init.push(ls.last()) =~= ls);
    }
}

proof fn lemma_keep_nonempty_all(ls: Seq<Seq<char>>)
    requires
        forall|i: int| 0 <= i < ls.len() ==> (#[trigger] ls[i]).len() > 0,
    ensures
        keep_nonempty(ls) == ls,
    decreases ls.len(),
{
    if ls.len() > 0 {
        let init = ls.drop_last();
        assert forall|i: int| 0 <= i < init.len() implies (#[trigger] init[i]).len() > 0 by {
            assert(init[i] == ls[i]);
        }
        lemma_keep_nonempty_all(init);
        assert(ls[ls.len() - 1] == ls.last());
        assert(init.push(ls.last()) =~= ls);
    }
}

/// A list input written one entry per line reads back as the same list:
/// for entries that are plain lines, the entries of their newline-joined
/// text are the entries themselves.
pub proof fn lemma_multiline_input_round_trip(ls: Seq<Seq<char>>)
    requires
        forall|i: int| 0 <= i < ls.len() ==> is_plain_line(#[trigger] ls[i]),
    ensures
        spec_multiline_input(join_lines(ls)) == ls,
{
    if ls.len() == 0 {
        assert(split_newlines(Seq::<char>::empty()).drop_last() =~= Seq::<Seq<char>>::empty());
        assert(strip_each(Seq::<Seq<char>>::empty()) =~= Seq::<Seq<char>>::empty());
    } else {
        assert forall|i: int| 0 <= i < ls.len() implies !(#[trigger] ls[i]).contains('\n') by {
            assert(is_plain_line(ls[i]));
        }
        lemma_split_join(ls);
        let init = ls.drop_last();
        assert(strip_each(init) =~= init) by {
            assert forall|i: int| 0 <= i < init.len() implies strip_each(init)[i] == init[i] by {
                assert(init[i] == ls[i]);
                assert(is_plain_line(ls[i]));
            }
        }
        assert(ls[ls.len() - 1] == ls.last());
        assert(is_plain_line(ls.last()));
        assert(init.push(ls.last()) =~= ls);
        assert forall|i: int| 0 <= i < ls.len() implies (#[trigger] ls[i]).len() > 0 by {
            assert(is_plain_line(ls[i]));
        }
        lemma_keep_nonempty_all(ls);
    }
}

} // verus!
