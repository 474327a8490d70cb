//! The process filter: which players are followed.
use vstd::prelude::*;
#[allow(unused_imports)]
use vstd::utf8::is_ascii_chars;
use crate::text::{chars_of, contains, string_of, text_eq, trim_bounds};
#[allow(unused_imports)]
use crate::text::{
    ascii_lowercase, lowercase, occurs, occurs_at, trim, trim_end, trim_start,
    trimming_takes_white_space_only, white_space,
};

verus! {

/// The characters `i..j` of `s` are one of its lines: they hold no line feed and reach from a
/// line feed, or the beginning, to a line feed, or the end.
pub open spec fn is_line(s: Seq<char>, i: int, j: int) -> bool {
    &&& 0 <= i <= j <= s.len()
    &&& i == 0 || s[i - 1] == '\n'
    &&& j == s.len() || s[j] == '\n'
    &&& forall|k: int| i <= k < j ==> s[k] != '\n'
}

/// A pattern, taken with an identifier and a name as they stand, admits a player: it is not empty
/// and stands in one of them.
pub open spec fn pattern_admits(pattern: Seq<char>, id: Seq<char>, name: Seq<char>) -> bool {
    pattern.len() > 0 && (occurs(id, pattern) || occurs(name, pattern))
}

/// One line of a filter admits a player if the line is not blank and stands in the player's
/// identifier or in its name. Neither letter case nor white space around the line matters.
pub open spec fn line_admits(line: Seq<char>, id: Seq<char>, name: Seq<char>) -> bool {
    trim(line).len() > 0 && pattern_admits(lowercase(trim(line)), lowercase(id), lowercase(name))
}

/// Some line of a filter admits the player.
pub open spec fn some_line_admits(filter: Seq<char>, id: Seq<char>, name: Seq<char>) -> bool {
    exists|i: int, j: int|
        #![trigger is_line(filter, i, j)]
        is_line(filter, i, j) && line_admits(filter.subrange(i, j), id, name)
}

/// A blank filter and the filter `*` admit every player; any other filter admits the players
/// that one of its lines admits.
pub open spec fn admits(filter: Seq<char>, id: Seq<char>, name: Seq<char>) -> bool {
    let rules = trim(filter);
    rules == "*"@ || rules.len() == 0 || some_line_admits(rules, id, name)
}

/// One line admits a player, where all is in ASCII.
pub open spec fn ascii_line_admits(line: Seq<char>, id: Seq<char>, name: Seq<char>) -> bool {
    pattern_admits(ascii_lowercase(trim(line)), ascii_lowercase(id), ascii_lowercase(name))
}

/// A filter admits a player, where all is in ASCII.
pub open spec fn ascii_admits(filter: Seq<char>, id: Seq<char>, name: Seq<char>) -> bool {
    let rules = trim(filter);
    rules == "*"@ || rules.len() == 0 || exists|i: int, j: int|
        #![trigger is_line(rules, i, j)]
        is_line(rules, i, j) && ascii_line_admits(rules.subrange(i, j), id, name)
}

/// Whether a pattern admits the player. Letter case counts: pattern, identifier and name are
/// brought to lowercase before.
pub fn matches_pattern(pattern: &str, id: &str, name: &str) -> (admitted: bool)
    ensures
        admitted == pattern_admits(pattern@, id@, name@),
{
    let pattern_chars = chars_of(pattern);
    pattern_chars.len() > 0 && (contains(&chars_of(id), &pattern_chars) || contains(
        &chars_of(name),
        &pattern_chars,
    ))
}

/// Whether the filter admits the player with this identifier and this name.
pub fn matches_process_filter(filter: &str, id: &str, name: &str) -> (admitted: bool)
    ensures
        admitted == admits(filter@, id@, name@),
        is_ascii_chars(filter@) && is_ascii_chars(id@) && is_ascii_chars(name@) ==> admitted
            == ascii_admits(filter@, id@, name@),
{
    let all = chars_of(filter);
    let (from, to) = trim_bounds(&all, 0, all.len());
    assert(all@.subrange(0, all.len() as int) =~= all@);
    let rules_text = string_of(&all, from, to);
    if text_eq(rules_text.as_str(), "*") || from == to {
        return true;
    }
    let rules = chars_of(rules_text.as_str());
    let id_lower = id.to_lowercase();
    let name_lower = name.to_lowercase();
    let ghost ascii = is_ascii_chars(filter@) && is_ascii_chars(id@) && is_ascii_chars(name@);
    assert(ascii ==> is_ascii_chars(rules@));
    let mut start: usize = 0;
    loop
        invariant
            start <= rules.len(),
            start == 0 || rules@[start - 1] == '\n',
            id_lower@ == lowercase(id@),
            name_lower@ == lowercase(name@),
            rules@ == trim(filter@),
            rules@ != "*"@,
            rules.len() > 0,
            ascii == (is_ascii_chars(filter@) && is_ascii_chars(id@) && is_ascii_chars(name@)),
            ascii ==> is_ascii_chars(rules@) && id_lower@ == ascii_lowercase(id@) && name_lower@
                == ascii_lowercase(name@),
            forall|i: int, j: int|
                #![trigger is_line(rules@, i, j)]
                i < start && is_line(rules@, i, j) ==> !line_admits(
                    rules@.subrange(i, j),
                    id@,
                    name@,
                ) && (ascii ==> !ascii_line_admits(rules@.subrange(i, j), id@, name@)),
        decreases rules.len() - start,
    {
        let mut end: usize = start;
        while end < rules.len() && rules[end] != '\n'
            invariant
                start <= end <= rules.len(),
                forall|k: int| start <= k < end ==> rules@[k] != '\n',
            decreases rules.len() - end,
        {
            end += 1;
        }
        assert(is_line(rules@, start as int, end as int));
        let (a, b) = trim_bounds(&rules, start, end);
        let pattern = string_of(&rules, a, b).to_lowercase();
        let ghost line = rules@.subrange(start as int, end as int);
        assert(pattern@ == lowercase(trim(line)));
        assert(ascii ==> pattern@ == ascii_lowercase(trim(line)));
        if matches_pattern(pattern.as_str(), id_lower.as_str(), name_lower.as_str()) {
            assert(line_admits(line, id@, name@));
            return true;
        }
        assert forall|i: int, j: int|
            #![trigger is_line(rules@, i, j)]
            i <= end && is_line(rules@, i, j) implies !line_admits(
            rules@.subrange(i, j),
            id@,
            name@,
        ) && (ascii ==> !ascii_line_admits(rules@.subrange(i, j), id@, name@)) by {
            if i > start {
                assert(rules@[i - 1] == '\n');
            } else if i == start {
                if j < end {
                    assert(rules@[j] != '\n');
                } else if j > end {
                    assert(rules@[end as int] == '\n');
                }
            }
        }
        if end == rules.len() {
            return false;
        }
        start = end + 1;
    }
}

/// Letter case does not matter to a filter: what has the same lowercase form is admitted alike.
pub proof fn letter_case_does_not_matter(
    filter: Seq<char>,
    id: Seq<char>,
    other_id: Seq<char>,
    name: Seq<char>,
    other_name: Seq<char>,
)
    requires
        lowercase(id) == lowercase(other_id),
        lowercase(name) == lowercase(other_name),
    ensures
        admits(filter, id, name) == admits(filter, other_id, other_name),
{
}

/// A filter of two parts, one below the other, admits the players that either part admits. Blank
/// parts and the part `*` are left out: alone they admit every player, but beside other lines a
/// blank line admits none, and `*` is a pattern like any other.
pub proof fn filter_lines_are_alternatives(
    above: Seq<char>,
    below: Seq<char>,
    id: Seq<char>,
    name: Seq<char>,
)
    requires
        trim(above).len() > 0,
        trim(below).len() > 0,
        trim(above) != "*"@,
        trim(below) != "*"@,
    ensures
        admits(above.push('\n') + below, id, name) == (admits(above, id, name) || admits(
            below,
            id,
            name,
        )),
{
    let both = above.push('\n') + below;
    let (upper, lower) = (trim_start(above), trim_end(below));
    let rules = upper.push('\n') + lower;
    reveal_strlit("*");
    trim_joined(above, below);
    assert(rules.len() > 1);
    assert(rules != "*"@);
    two_parts_admit(upper, lower, id, name);
    trimmed_end_admits(upper, id, name);
    trim_commutes(below);
    trimmed_start_admits(lower, id, name);
}

/// The lines of two texts, one below the other, are the lines of the two.
proof fn two_parts_admit(above: Seq<char>, below: Seq<char>, id: Seq<char>, name: Seq<char>)
    ensures
        some_line_admits(above.push('\n') + below, id, name) == (some_line_admits(above, id, name)
            || some_line_admits(below, id, name)),
{
    let both = above.push('\n') + below;
    let n = above.len() as int;
    if some_line_admits(above, id, name) {
        let (i, j) = choose|i: int, j: int|
            #![trigger is_line(above, i, j)]
            is_line(above, i, j) && line_admits(above.subrange(i, j), id, name);
        lines_above(above, below, i, j);
        assert(is_line(both, i, j));
    }
    if some_line_admits(below, id, name) {
        let (i, j) = choose|i: int, j: int|
            #![trigger is_line(below, i, j)]
            is_line(below, i, j) && line_admits(below.subrange(i, j), id, name);
        lines_below(above, below, i, j);
        assert(is_line(both, i + n + 1, j + n + 1));
    }
    if some_line_admits(both, id, name) {
        let (i, j) = choose|i: int, j: int|
            #![trigger is_line(both, i, j)]
            is_line(both, i, j) && line_admits(both.subrange(i, j), id, name);
        if i <= n {
            lines_above(above, below, i, j);
            assert(is_line(above, i, j));
        } else {
            lines_below(above, below, i - n - 1, j - n - 1);
            assert(is_line(below, i - n - 1, j - n - 1));
        }
    }
}

/// No line of an empty text admits a player.
proof fn nothing_admits(id: Seq<char>, name: Seq<char>)
    ensures
        !some_line_admits(seq![], id, name),
{
    let empty = Seq::<char>::empty();
    assert forall|i: int, j: int| #[trigger] is_line(empty, i, j) implies !line_admits(
        empty.subrange(i, j),
        id,
        name,
    ) by {
        assert(empty.subrange(i, j) =~= empty);
        assert(trim(empty) =~= empty);
    }
}

/// White space at the end of a text makes no line admit more or fewer players.
proof fn trimmed_end_admits(s: Seq<char>, id: Seq<char>, name: Seq<char>)
    ensures
        some_line_admits(s, id, name) == some_line_admits(trim_end(s), id, name),
    decreases s.len(),
{
    if s.len() > 0 && white_space(s.last()) {
        let r = s.drop_last();
        trimmed_end_admits(r, id, name);
        if s.last() == '\n' {
            assert(s =~= r.push('\n') + Seq::<char>::empty());
            two_parts_admit(r, seq![], id, name);
            nothing_admits(id, name);
        } else {
            assert forall|i: int, j: int| #[trigger] is_line(s, i, j) implies {
                let k = if j == s.len() {
                    j - 1
                } else {
                    j
                };
                i <= k ==> is_line(r, i, k) && line_admits(s.subrange(i, j), id, name)
                    == line_admits(r.subrange(i, k), id, name)
            } by {
                if j == s.len() && i < j {
                    assert(s.subrange(i, j) =~= r.subrange(i, j - 1).push(s.last()));
                    trim_ignores_end(r.subrange(i, j - 1), s.last());
                } else if i <= j && j < s.len() {
                    assert(s.subrange(i, j) =~= r.subrange(i, j));
                }
            }
            assert forall|i: int, j: int| #[trigger] is_line(r, i, j) implies {
                let k = if j == r.len() {
                    j + 1
                } else {
                    j
                };
                is_line(s, i, k) && line_admits(s.subrange(i, k), id, name) == line_admits(
                    r.subrange(i, j),
                    id,
                    name,
                )
            } by {
                assert forall|m: int| i <= m < j implies s[m] != '\n' by {
                    assert(r[m] != '\n');
                }
                if i > 0 {
                    assert(r[i - 1] == s[i - 1]);
                }
                if j == r.len() {
                    assert(s.subrange(i, j + 1) =~= r.subrange(i, j).push(s.last()));
                    trim_ignores_end(r.subrange(i, j), s.last());
                } else {
                    assert(s.subrange(i, j) =~= r.subrange(i, j));
                }
            }
            if some_line_admits(s, id, name) {
                let (i, j) = choose|i: int, j: int|
                    #![trigger is_line(s, i, j)]
                    is_line(s, i, j) && line_admits(s.subrange(i, j), id, name);
                if i == s.len() {
                    assert(s[i - 1] != '\n');
                }
            }
            if some_line_admits(r, id, name) {
                let (i, j) = choose|i: int, j: int|
                    #![trigger is_line(r, i, j)]
                    is_line(r, i, j) && line_admits(r.subrange(i, j), id, name);
                assert(is_line(r, i, j));
            }
        }
    }
}

/// White space at the beginning of a text makes no line admit more or fewer players.
proof fn trimmed_start_admits(s: Seq<char>, id: Seq<char>, name: Seq<char>)
    ensures
        some_line_admits(s, id, name) == some_line_admits(trim_start(s), id, name),
    decreases s.len(),
{
    if s.len() > 0 && white_space(s[0]) {
        let r = s.drop_first();
        trimmed_start_admits(r, id, name);
        if s[0] == '\n' {
            assert(s =~= Seq::<char>::empty().push('\n') + r);
            two_parts_admit(seq![], r, id, name);
            nothing_admits(id, name);
        } else {
            assert forall|i: int, j: int| #[trigger] is_line(r, i, j) implies {
                let k = if i == 0 {
                    0
                } else {
                    i + 1
                };
                is_line(s, k, j + 1) && line_admits(s.subrange(k, j + 1), id, name)
                    == line_admits(r.subrange(i, j), id, name)
            } by {
                assert forall|m: int| i < m < j + 1 implies s[m] != '\n' by {
                    assert(r[m - 1] != '\n');
                }
                if j < r.len() {
                    assert(r[j] == s[j + 1]);
                }
                if i == 0 {
                    assert(s.subrange(0, j + 1).drop_first() =~= r.subrange(0, j));
                } else {
                    assert(r[i - 1] == s[i]);
                    assert(s.subrange(i + 1, j + 1) =~= r.subrange(i, j));
                }
            }
            assert forall|i: int, j: int| #[trigger] is_line(s, i, j) implies {
                let k = if i == 0 {
                    0
                } else {
                    i - 1
                };
                is_line(r, k, j - 1) && line_admits(s.subrange(i, j), id, name) == line_admits(
                    r.subrange(k, j - 1),
                    id,
                    name,
                )
            } by {
                if i == 0 {
                    assert(s[0] != '\n');
                    assert(j > 0);
                    assert forall|m: int| 0 <= m < j - 1 implies r[m] != '\n' by {
                        assert(s[m + 1] != '\n');
                    }
                    assert(s.subrange(0, j).drop_first() =~= r.subrange(0, j - 1));
                } else {
                    assert(i != 1);
                    assert(r[i - 2] == s[i - 1]);
                    assert forall|m: int| i - 1 <= m < j - 1 implies r[m] != '\n' by {
                        assert(s[m + 1] != '\n');
                    }
                    assert(s.subrange(i, j) =~= r.subrange(i - 1, j - 1));
                }
            }
            if some_line_admits(s, id, name) {
                let (i, j) = choose|i: int, j: int|
                    #![trigger is_line(s, i, j)]
                    is_line(s, i, j) && line_admits(s.subrange(i, j), id, name);
                assert(is_line(s, i, j));
            }
            if some_line_admits(r, id, name) {
                let (i, j) = choose|i: int, j: int|
                    #![trigger is_line(r, i, j)]
                    is_line(r, i, j) && line_admits(r.subrange(i, j), id, name);
                assert(is_line(r, i, j));
            }
        }
    }
}

/// The lines of a text are lines of every text that goes on below it.
proof fn lines_above(above: Seq<char>, below: Seq<char>, i: int, j: int)
    requires
        i <= above.len(),
    ensures
        is_line(above.push('\n') + below, i, j) == is_line(above, i, j),
        is_line(above, i, j) ==> (above.push('\n') + below).subrange(i, j) == above.subrange(i, j),
{
    let both = above.push('\n') + below;
    assert(forall|k: int| 0 <= k < above.len() ==> both[k] == above[k]);
    assert(both[above.len() as int] == '\n');
    if is_line(above, i, j) {
        assert(both.subrange(i, j) =~= above.subrange(i, j));
    }
    if is_line(both, i, j) {
        assert(j <= above.len());
    }
}

/// The lines of a text are lines of every text that it ends, from a line on.
proof fn lines_below(above: Seq<char>, below: Seq<char>, i: int, j: int)
    requires
        0 <= i,
    ensures
        is_line(above.push('\n') + below, i + above.len() + 1, j + above.len() + 1) == is_line(
            below,
            i,
            j,
        ),
        is_line(below, i, j) ==> (above.push('\n') + below).subrange(
            i + above.len() + 1,
            j + above.len() + 1,
        ) == below.subrange(i, j),
{
    let both = above.push('\n') + below;
    let n = above.len() as int;
    assert(forall|k: int| n < k < both.len() ==> both[k] == below[k - n - 1]);
    assert(both[n] == '\n');
    if is_line(below, i, j) {
        assert(both.subrange(i + n + 1, j + n + 1) =~= below.subrange(i, j));
    }
    if is_line(both, i + n + 1, j + n + 1) {
        assert forall|k: int| i <= k < j implies below[k] != '\n' by {
            assert(both[k + n + 1] != '\n');
        }
    }
}

/// White space behind a text does not count when it is trimmed.
proof fn trim_ignores_end(s: Seq<char>, w: char)
    requires
        white_space(w),
    ensures
        trim(s.push(w)) == trim(s),
    decreases s.len(),
{
    let longer = s.push(w);
    if s.len() == 0 {
        assert(longer.drop_first() =~= s);
        reveal_with_fuel(trim_start, 2);
        assert(trim_start(longer) =~= s);
        assert(trim_start(s) =~= s);
    } else if white_space(s[0]) {
        trim_ignores_end(s.drop_first(), w);
        assert(longer.drop_first() =~= s.drop_first().push(w));
    } else {
        assert(longer.drop_last() =~= s);
    }
}

/// It does not matter at which end a text is trimmed first.
proof fn trim_commutes(s: Seq<char>)
    ensures
        trim_start(trim_end(s)) == trim(s),
    decreases s.len(),
{
    if s.len() > 0 && white_space(s.last()) {
        let r = s.drop_last();
        trim_commutes(r);
        trim_ignores_end(r, s.last());
        assert(r.push(s.last()) =~= s);
    } else if s.len() > 0 {
        trim_start_keeps_end(s);
    }
}

/// A text that does not end in white space ends in the same character without the white space at
/// its beginning.
proof fn trim_start_keeps_end(s: Seq<char>)
    requires
        s.len() > 0,
        !white_space(s.last()),
    ensures
        trim_start(s).len() > 0,
        trim_start(s).last() == s.last(),
    decreases s.len(),
{
    if white_space(s[0]) {
        let r = s.drop_first();
        assert(r.last() == s.last());
        trim_start_keeps_end(r);
    }
}

/// Two texts that are not blank, one below the other, are trimmed at their far ends.
proof fn trim_joined(above: Seq<char>, below: Seq<char>)
    requires
        trim(above).len() > 0,
        trim(below).len() > 0,
    ensures
        trim(above.push('\n') + below) == trim_start(above).push('\n') + trim_end(below),
        trim_start(above).len() > 0,
        trim_end(below).len() > 0,
{
    trim_start_of_joined(above, below);
    trim_commutes(below);
    assert(trim_start(Seq::<char>::empty()) =~= seq![]);
    assert(trim_end(Seq::<char>::empty()) =~= seq![]);
    if trim_start(above).len() == 0 {
        assert(trim_start(above) =~= seq![]);
    }
    if trim_end(below).len() == 0 {
        assert(trim_end(below) =~= seq![]);
    }
    trim_end_of_joined(trim_start(above).push('\n'), below);
}

proof fn trim_start_of_joined(above: Seq<char>, below: Seq<char>)
    requires
        trim_start(above).len() > 0,
    ensures
        trim_start(above.push('\n') + below) == trim_start(above).push('\n') + below,
    decreases above.len(),
{
    let both = above.push('\n') + below;
    assert(both[0] == above[0]);
    if white_space(above[0]) {
        assert(both.drop_first() =~= above.drop_first().push('\n') + below);
        trim_start_of_joined(above.drop_first(), below);
    }
}

proof fn trim_end_of_joined(head: Seq<char>, below: Seq<char>)
    requires
        trim_end(below).len() > 0,
    ensures
        trim_end(head + below) == head + trim_end(below),
    decreases below.len(),
{
    let both = head + below;
    assert(both.last() == below.last());
    if white_space(below.last()) {
        assert(both.drop_last() =~= head + below.drop_last());
        trim_end_of_joined(head, below.drop_last());
    }
}

/// The characters `i..j` of a filter are one of its lines, and hold more than white space.
pub open spec fn is_rule(filter: Seq<char>, i: int, j: int) -> bool {
    &&& 0 <= i < j <= filter.len()
    &&& i == 0 || filter[i - 1] == '\n'
    &&& j == filter.len() || filter[j] == '\n'
    &&& forall|k: int| i <= k < j ==> filter[k] != '\n'
    &&& exists|k: int| i <= k < j && !white_space(#[trigger] filter[k])
}

/// A line of a filter, without the white space around it and in lowercase, that stands anywhere in
/// the lowercase identifier of a player admits the player, whatever its name and the other lines;
/// and so does one that stands in the lowercase name, whatever the identifier.
pub proof fn rules_admit_by_id_or_name(
    filter: &str,
    id: &str,
    name: &str,
    admitted: bool,
    i: int,
    j: int,
    at: int,
)
    requires
        call_ensures(matches_process_filter, (filter, id, name), admitted),
        is_rule(filter@, i, j),
        lowercase(trim(filter@.subrange(i, j))).len() > 0,
        0 <= at,
        ({
            let pattern = lowercase(trim(filter@.subrange(i, j)));
            let end = at + pattern.len();
            ||| end <= lowercase(id@).len() && lowercase(id@).subrange(at, end) == pattern
            ||| end <= lowercase(name@).len() && lowercase(name@).subrange(at, end) == pattern
        }),
    ensures
        admitted,
{
    rule_admits(filter@, id@, name@, i, j, at);
}

/// A rule admits the players in whose lowercase identifier or name its lowercase form stands.
pub proof fn rule_admits(
    filter: Seq<char>,
    id: Seq<char>,
    name: Seq<char>,
    i: int,
    j: int,
    at: int,
)
    requires
        is_rule(filter, i, j),
        lowercase(trim(filter.subrange(i, j))).len() > 0,
        0 <= at,
        ({
            let pattern = lowercase(trim(filter.subrange(i, j)));
            let end = at + pattern.len();
            ||| end <= lowercase(id).len() && lowercase(id).subrange(at, end) == pattern
            ||| end <= lowercase(name).len() && lowercase(name).subrange(at, end) == pattern
        }),
    ensures
        admits(filter, id, name),
{
    let line = filter.subrange(i, j);
    let pattern = lowercase(trim(line));
    rule_is_not_blank(filter, i, j);
    assert(occurs_at(lowercase(id), pattern, at) || occurs_at(lowercase(name), pattern, at));
    assert(line_admits(line, id, name));
    assert(is_line(filter, i, j));
    assert(some_line_admits(filter, id, name));
    trimmed_start_admits(filter, id, name);
    trimmed_end_admits(trim_start(filter), id, name);
}

proof fn rule_is_not_blank(filter: Seq<char>, i: int, j: int)
    requires
        is_rule(filter, i, j),
    ensures
        trim(filter.subrange(i, j)).len() > 0,
{
    let line = filter.subrange(i, j);
    let k = choose|k: int| i <= k < j && !white_space(#[trigger] filter[k]);
    trimming_takes_white_space_only(line);
    assert(line[k - i] == filter[k]);
}

/// A player that a filter admits was named by one of its lines, unless the filter admits all: it is
/// blank, or a star and white space.
pub proof fn admitted_players_are_named(
    filter: &str,
    id: &str,
    name: &str,
    admitted: bool,
)
    requires
        call_ensures(matches_process_filter, (filter, id, name), admitted),
    ensures
        trim(filter@).len() == 0 || trim(filter@) == "*"@ ==> admitted,
        admitted && trim(filter@).len() > 0 && trim(filter@) != "*"@ ==> exists|
            i: int,
            j: int,
            at: int,
        |
            0 <= i <= j <= trim(filter@).len() && (forall|k: int|
                i <= k < j ==> trim(filter@)[k] != '\n') && #[trigger] stands_in_either(
                lowercase(trim(trim(filter@).subrange(i, j))),
                lowercase(id@),
                lowercase(name@),
                at,
            ),
{
    let rules = trim(filter@);
    if admitted && rules.len() > 0 && rules != "*"@ {
        let (i, j) = choose|i: int, j: int|
            #![trigger is_line(rules, i, j)]
            is_line(rules, i, j) && line_admits(rules.subrange(i, j), id@, name@);
        let pattern = lowercase(trim(rules.subrange(i, j)));
        let at = if occurs(lowercase(id@), pattern) {
            choose|at: int| occurs_at(lowercase(id@), pattern, at)
        } else {
            choose|at: int| occurs_at(lowercase(name@), pattern, at)
        };
        assert(stands_in_either(pattern, lowercase(id@), lowercase(name@), at));
    }
}

/// A pattern that is not empty stands, from the position `at` on, in one of two texts.
pub open spec fn stands_in_either(
    pattern: Seq<char>,
    id: Seq<char>,
    name: Seq<char>,
    at: int,
) -> bool {
    let end = at + pattern.len();
    &&& pattern.len() > 0
    &&& 0 <= at
    &&& (end <= id.len() && id.subrange(at, end) == pattern) || (end <= name.len()
        && name.subrange(at, end) == pattern)
}

/// A pattern admits a player if and only if it is not empty and stands in the identifier or in the
/// name.
pub proof fn patterns_are_looked_for_in_both(pattern: &str, id: &str, name: &str, admitted: bool)
    requires
        call_ensures(matches_pattern, (pattern, id, name), admitted),
    ensures
        admitted <==> exists|at: int| #[trigger] stands_in_either(pattern@, id@, name@, at),
{
    if occurs(id@, pattern@) && pattern@.len() > 0 {
        let at = choose|at: int| occurs_at(id@, pattern@, at);
        assert(stands_in_either(pattern@, id@, name@, at));
    }
    if occurs(name@, pattern@) && pattern@.len() > 0 {
        let at = choose|at: int| occurs_at(name@, pattern@, at);
        assert(stands_in_either(pattern@, id@, name@, at));
    }
    assert forall|at: int| #[trigger] stands_in_either(pattern@, id@, name@, at) implies admitted by {
        assert(occurs_at(id@, pattern@, at) || occurs_at(name@, pattern@, at));
    }
}

} // verus!
