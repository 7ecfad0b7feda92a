//! Reading commit lines and other text: white space, words and lines.

use vstd::prelude::*;

verus! {

/// Whether a character is white space: the code points that carry the
/// Unicode property `White_Space`.
pub open spec fn is_space(c: char) -> bool {
    let n = c as u32;
    ||| 0x09 <= n <= 0x0D
    ||| n == 0x20
    ||| n == 0x85
    ||| n == 0xA0
    ||| n == 0x1680
    ||| 0x2000 <= n <= 0x200A
    ||| n == 0x2028
    ||| n == 0x2029
    ||| n == 0x202F
    ||| n == 0x205F
    ||| n == 0x3000
}

/// The first position at or after `i` that holds no white space, or the
/// length of `s` where only white space follows.
pub open spec fn word_start(s: Seq<char>, i: int) -> int
    decreases s.len() - i,
{
    if 0 <= i < s.len() && is_space(s[i]) {
        word_start(s, i + 1)
    } else {
        i
    }
}

/// The first position at or after `i` that holds white space, or the length
/// of `s` where none follows.
pub open spec fn word_end(s: Seq<char>, i: int) -> int
    decreases s.len() - i,
{
    if 0 <= i < s.len() && !is_space(s[i]) {
        word_end(s, i + 1)
    } else {
        i
    }
}

/// Whether a character is white space.
pub fn is_whitespace(c: char) -> (b: bool)
    ensures
        b == is_space(c),
{
    let n: u32 = c as u32;
    (0x09 <= n && n <= 0x0D) || n == 0x20 || n == 0x85 || n == 0xA0 || n == 0x1680 || (0x2000 <= n
        && n <= 0x200A) || n == 0x2028 || n == 0x2029 || n == 0x202F || n == 0x205F || n == 0x3000
}

/// The first word of `s`: what stands between the leading white space and
/// the white space that follows it. Empty where `s` holds no word.
pub open spec fn first_token(s: Seq<char>) -> Seq<char> {
    s.subrange(word_start(s, 0), word_end(s, word_start(s, 0)))
}

/// The hash of a commit line: its first word.
pub fn commit_hash(line: &str) -> (hash: String)
    ensures
        hash@ == first_token(line@),
{
    let len = line.unicode_len();
    let mut start: usize = 0;
    let mut end: usize = 0;
    // 0: before the word, 1: inside it, 2: past it
    let mut phase: u8 = 0;
    for c in it: line.chars()
        invariant
            it.seq() == line@,
            len == line@.len(),
            phase <= 2,
            phase == 0 ==> end == it.index() && word_start(line@, 0) == word_start(
                line@,
                end as int,
            ),
            phase >= 1 ==> start == word_start(line@, 0) && start <= end <= it.index(),
            phase == 1 ==> end == it.index() && word_end(line@, start as int) == word_end(
                line@,
                end as int,
            ),
            phase == 2 ==> end == word_end(line@, start as int),
    {
        let ghost i = it.index() as int;
        if phase == 0 {
            if !is_whitespace(c) {
                assert(word_start(line@, i) == i);
                start = end;
                phase = 1;
                proof {
                    assert(word_end(line@, i) == word_end(line@, i + 1));
                }
            }
            end = end + 1;
        } else if phase == 1 {
            if is_whitespace(c) {
                assert(word_end(line@, i) == i);
                phase = 2;
            } else {
                end = end + 1;
            }
        }
    }
    if phase == 0 {
        start = len;
        end = len;
    }
    line.substring_char(start, end).to_owned()
}

/// The newline characters in `s`.
pub open spec fn newline_count(s: Seq<char>) -> nat
    decreases s.len(),
{
    if s.len() == 0 {
        0
    } else {
        newline_count(s.drop_last()) + if s.last() == '\n' {
            1nat
        } else {
            0nat
        }
    }
}

/// The number of lines of a text. Each newline ends a line, and what follows
/// the last newline is a line of its own unless it is empty.
pub open spec fn line_count(s: Seq<char>) -> nat {
    newline_count(s) + if s.len() > 0 && s.last() != '\n' {
        1nat
    } else {
        0nat
    }
}

/// A text has no more newlines than characters.
pub proof fn lemma_newline_count_bound(s: Seq<char>)
    ensures
        newline_count(s) <= s.len(),
        line_count(s) <= s.len(),
    decreases s.len(),
{
    if s.len() > 0 {
        lemma_newline_count_bound(s.drop_last());
    }
}

/// Counts the lines of a text.
pub fn count_lines(text: &str) -> (n: usize)
    ensures
        n == line_count(text@),
{
    let len = text.unicode_len();
    let mut newlines: usize = 0;
    let mut open_line: bool = false;
    for c in it: text.chars()
        invariant
            it.seq() == text@,
            len == text@.len(),
            newlines == newline_count(text@.take(it.index() as int)),
            newlines <= it.index(),
            open_line == (it.index() > 0 && text@[it.index() - 1] != '\n'),
    {
        let ghost i = it.index() as int;
        proof {
            assert(text@.take(i + 1).drop_last() == text@.take(i));
            assert(text@.take(i + 1).last() == c);
        }
        if c == '\n' {
            newlines = newlines + 1;
            open_line = false;
        } else {
            open_line = true;
        }
    }
    proof {
        assert(text@.take(len as int) == text@);
        lemma_newline_count_bound(text@);
    }
    if open_line {
        newlines + 1
    } else {
        newlines
    }
}

/// Texts put one after another with `sep` between each two of them.
pub open spec fn joined(parts: Seq<Seq<char>>, sep: Seq<char>) -> Seq<char>
    decreases parts.len(),
{
    if parts.len() == 0 {
        Seq::empty()
    } else if parts.len() == 1 {
        parts[0]
    } else {
        joined(parts.drop_last(), sep) + sep + parts.last()
    }
}

/// The texts of a sequence of strings.
pub open spec fn views(parts: Seq<String>) -> Seq<Seq<char>> {
    parts.map_values(|part: String| part@)
}

/// Puts strings one after another with `sep` between each two of them.
pub fn join(parts: &Vec<String>, sep: &str) -> (text: String)
    ensures
        text@ == joined(views(parts@), sep@),
{
    let mut text = String::new();
    let mut i: usize = 0;
    while i < parts.len()
        invariant
            i <= parts.len(),
            text@ == joined(views(parts@).take(i as int), sep@),
        decreases parts.len() - i,
    {
        proof {
            assert(views(parts@).take(i as int + 1).drop_last() == views(parts@).take(i as int));
            assert(views(parts@).take(i as int + 1).last() == parts@[i as int]@);
        }
        if i > 0 {
            text.append(sep);
        }
        text.append(parts[i].as_str());
        proof {
            if i == 0 {
                assert(text@ == parts@[0]@);
            }
        }
        i = i + 1;
    }
    assert(views(parts@).take(parts.len() as int) == views(parts@));
    text
}

/// The character for a decimal digit.
pub open spec fn digit(d: nat) -> char {
    if d == 0 {
        '0'
    } else if d == 1 {
        '1'
    } else if d == 2 {
        '2'
    } else if d == 3 {
        '3'
    } else if d == 4 {
        '4'
    } else if d == 5 {
        '5'
    } else if d == 6 {
        '6'
    } else if d == 7 {
        '7'
    } else if d == 8 {
        '8'
    } else {
        '9'
    }
}

/// A number written in decimal digits, without leading zeros.
pub open spec fn decimal(n: nat) -> Seq<char>
    decreases n,
{
    if n < 10 {
        seq![digit(n)]
    } else {
        decimal(n / 10).push(digit(n % 10))
    }
}

fn digit_text(d: usize) -> (text: &'static str)
    requires
        d < 10,
    ensures
        text@ == seq![digit(d as nat)],
{
    proof {
        reveal_strlit("0");
        reveal_strlit("1");
        reveal_strlit("2");
        reveal_strlit("3");
        reveal_strlit("4");
        reveal_strlit("5");
        reveal_strlit("6");
        reveal_strlit("7");
        reveal_strlit("8");
        reveal_strlit("9");
    }
    let text = if d == 0 {
        "0"
    } else if d == 1 {
        "1"
    } else if d == 2 {
        "2"
    } else if d == 3 {
        "3"
    } else if d == 4 {
        "4"
    } else if d == 5 {
        "5"
    } else if d == 6 {
        "6"
    } else if d == 7 {
        "7"
    } else if d == 8 {
        "8"
    } else {
        "9"
    };
    assert(text@ =~= seq![digit(d as nat)]);
    text
}

/// Writes a number in decimal digits.
pub fn decimal_string(n: usize) -> (text: String)
    ensures
        text@ == decimal(n as nat),
    decreases n,
{
    if n < 10 {
        digit_text(n).to_owned()
    } else {
        let mut text = decimal_string(n / 10);
        text.append(digit_text(n % 10));
        text
    }
}

/// Whether `pat` stands in `s` at position `i`.
pub open spec fn matches_at(s: Seq<char>, pat: Seq<char>, i: int) -> bool {
    0 <= i && i + pat.len() <= s.len() && s.subrange(i, i + pat.len()) == pat
}

/// The first position at or after `i` at which `pat` stands in `s`, or -1
/// where it stands nowhere from there on.
pub open spec fn find_from(s: Seq<char>, pat: Seq<char>, i: int) -> int
    decreases s.len() - i,
{
    if i < 0 || i + pat.len() > s.len() {
        -1
    } else if matches_at(s, pat, i) {
        i
    } else if i >= s.len() {
        -1
    } else {
        find_from(s, pat, i + 1)
    }
}

/// Whether `pat` stands somewhere in `s`.
pub open spec fn has_part(s: Seq<char>, pat: Seq<char>) -> bool {
    find_from(s, pat, 0) >= 0
}

/// What is left of `s` from position `i` on, with every occurrence of `pat`
/// replaced by `with`: the occurrences are taken from the left and do not
/// overlap.
pub open spec fn replaced_from(s: Seq<char>, pat: Seq<char>, with: Seq<char>, i: int) -> Seq<char>
    decreases s.len() - i,
{
    let at = find_from(s, pat, i);
    if at < i || pat.len() == 0 || at + pat.len() > s.len() {
        s.subrange(i, s.len() as int)
    } else {
        s.subrange(i, at) + with + replaced_from(s, pat, with, at + pat.len())
    }
}

/// `s` with every occurrence of `pat` replaced by `with`.
pub open spec fn replaced(s: Seq<char>, pat: Seq<char>, with: Seq<char>) -> Seq<char> {
    replaced_from(s, pat, with, 0)
}

/// What lies between the occurrences of `pat` in `s` from position `i` on:
/// one piece more than there are occurrences.
pub open spec fn pieces_from(s: Seq<char>, pat: Seq<char>, i: int) -> Seq<Seq<char>>
    decreases s.len() - i,
{
    let at = find_from(s, pat, i);
    if at < i || pat.len() == 0 || at + pat.len() > s.len() {
        seq![s.subrange(i, s.len() as int)]
    } else {
        seq![s.subrange(i, at)] + pieces_from(s, pat, at + pat.len())
    }
}

/// `s` without the characters at its start that pass the test.
pub open spec fn trim_start_by(s: Seq<char>, strip: spec_fn(char) -> bool) -> Seq<char>
    decreases s.len(),
{
    if s.len() > 0 && strip(s[0]) {
        trim_start_by(s.drop_first(), strip)
    } else {
        s
    }
}

/// `s` without the characters at its end that pass the test.
pub open spec fn trim_end_by(s: Seq<char>, strip: spec_fn(char) -> bool) -> Seq<char>
    decreases s.len(),
{
    if s.len() > 0 && strip(s.last()) {
        trim_end_by(s.drop_last(), strip)
    } else {
        s
    }
}

/// `s` without the white space at its start and at its end.
pub open spec fn trimmed(s: Seq<char>) -> Seq<char> {
    trim_end_by(trim_start_by(s, |c: char| is_space(c)), |c: char| is_space(c))
}

/// `s` without the characters of `set` at its start and at its end.
pub open spec fn trimmed_of(s: Seq<char>, set: Seq<char>) -> Seq<char> {
    trim_end_by(trim_start_by(s, |c: char| set.contains(c)), |c: char| set.contains(c))
}

/// The first position at or after `i` that holds a newline, or the length
/// of `s` where none follows.
pub open spec fn line_end(s: Seq<char>, i: int) -> int
    decreases s.len() - i,
{
    if 0 <= i < s.len() && s[i] != '\n' {
        line_end(s, i + 1)
    } else {
        i
    }
}

/// The lines of `s` from position `i` on. A newline ends a line, and a
/// carriage return just before it belongs to the line ending. What follows
/// the last newline is a line as it stands, unless it is empty.
pub open spec fn lines_from(s: Seq<char>, i: int) -> Seq<Seq<char>>
    decreases s.len() - i,
{
    if i < 0 || i >= s.len() {
        Seq::empty()
    } else {
        let end = line_end(s, i);
        let line = s.subrange(i, end);
        if end < i || end >= s.len() {
            seq![s.subrange(i, s.len() as int)]
        } else if line.len() > 0 && line.last() == '\r' {
            seq![line.drop_last()] + lines_from(s, end + 1)
        } else {
            seq![line] + lines_from(s, end + 1)
        }
    }
}

/// The lines of a text.
pub open spec fn lines_of(s: Seq<char>) -> Seq<Seq<char>> {
    lines_from(s, 0)
}

/// The words of `s` from position `i` on: what stands between white space.
pub open spec fn words_from(s: Seq<char>, i: int) -> Seq<Seq<char>>
    decreases s.len() - i,
{
    let start = word_start(s, i);
    let end = word_end(s, start);
    if i < 0 || start < i || start >= s.len() || end <= start || end > s.len() {
        Seq::empty()
    } else {
        seq![s.subrange(start, end)] + words_from(s, end)
    }
}

/// `str::split_whitespace` of the standard library. The result holds the
/// words of `s`: what stands between white space, without empty words.
#[verifier::external_body]
pub(crate) fn split_words(s: &str) -> (words: Vec<String>)
    ensures
        views(words@) == words_from(s@, 0),
{
    s.split_whitespace().map(|word| word.to_string()).collect()
}

/// Whether a text holds another: `str::contains` of the standard library,
/// called with a string as the pattern. The result says whether `pat`
/// stands somewhere in `s`.
#[verifier::external_body]
pub(crate) fn contains_text(s: &str, pat: &str) -> (found: bool)
    ensures
        found == has_part(s@, pat@),
{
    s.contains(pat)
}

/// `str::replace` of the standard library, called with a string as the
/// pattern, which must not be empty. The result is `s` with every
/// occurrence of `pat`, taken from the left and without overlap, replaced
/// by `with`.
#[verifier::external_body]
pub(crate) fn replace_text(s: &str, pat: &str, with: &str) -> (text: String)
    requires
        pat@.len() > 0,
    ensures
        text@ == replaced(s@, pat@, with@),
{
    s.replace(pat, with)
}

/// `str::split` of the standard library, called with a string as the
/// pattern, which must not be empty. The result holds what lies between
/// the occurrences of `pat`, taken from the left and without overlap.
#[verifier::external_body]
pub(crate) fn split_text(s: &str, pat: &str) -> (parts: Vec<String>)
    requires
        pat@.len() > 0,
    ensures
        views(parts@) == pieces_from(s@, pat@, 0),
{
    s.split(pat).map(|part| part.to_string()).collect()
}

/// `str::lines` of the standard library. The result holds the lines of
/// `s` without their line endings.
#[verifier::external_body]
pub(crate) fn split_lines(s: &str) -> (lines: Vec<String>)
    ensures
        views(lines@) == lines_of(s@),
{
    s.lines().map(|line| line.to_string()).collect()
}

/// The first position at or after `i` whose character does not pass the
/// test, or the length of `s` where every character from `i` on passes.
pub open spec fn kept_from(s: Seq<char>, strip: spec_fn(char) -> bool, i: int) -> int
    decreases s.len() - i,
{
    if 0 <= i < s.len() && strip(s[i]) {
        kept_from(s, strip, i + 1)
    } else {
        i
    }
}

/// The position after the last character between `from` and `to` that does
/// not pass the test, or `from` where every character between them passes.
pub open spec fn kept_until(s: Seq<char>, strip: spec_fn(char) -> bool, from: int, to: int) -> int
    decreases to - from,
{
    if from < to <= s.len() && strip(s[to - 1]) {
        kept_until(s, strip, from, to - 1)
    } else {
        to
    }
}

/// Leaving off the characters that pass the test at the start of what
/// stands from `i` on leaves what stands from `kept_from` on.
pub proof fn lemma_trim_start(s: Seq<char>, strip: spec_fn(char) -> bool, i: int)
    requires
        0 <= i <= s.len(),
    ensures
        i <= kept_from(s, strip, i) <= s.len(),
        trim_start_by(s.subrange(i, s.len() as int), strip) == s.subrange(
            kept_from(s, strip, i),
            s.len() as int,
        ),
    decreases s.len() - i,
{
    let rest = s.subrange(i, s.len() as int);
    if i < s.len() && strip(s[i]) {
        lemma_trim_start(s, strip, i + 1);
        assert(rest[0] == s[i]);
        assert(rest.drop_first() == s.subrange(i + 1, s.len() as int));
    }
}

/// Leaving off the characters that pass the test at the end of what stands
/// between `from` and `to` leaves what stands between `from` and
/// `kept_until`.
pub proof fn lemma_trim_end(s: Seq<char>, strip: spec_fn(char) -> bool, from: int, to: int)
    requires
        0 <= from <= to <= s.len(),
    ensures
        from <= kept_until(s, strip, from, to) <= to,
        trim_end_by(s.subrange(from, to), strip) == s.subrange(
            from,
            kept_until(s, strip, from, to),
        ),
    decreases to - from,
{
    let part = s.subrange(from, to);
    if from < to && strip(s[to - 1]) {
        lemma_trim_end(s, strip, from, to - 1);
        assert(part.last() == s[to - 1]);
        assert(part.drop_last() == s.subrange(from, to - 1));
    }
}

/// What is left of a text once the characters that pass the test are left
/// off at its start and at its end stands between `kept_from` and
/// `kept_until`.
pub proof fn lemma_trim_both(s: Seq<char>, strip: spec_fn(char) -> bool)
    ensures
        ({
            let start = kept_from(s, strip, 0);
            let end = kept_until(s, strip, start, s.len() as int);
            &&& 0 <= start <= end <= s.len()
            &&& trim_end_by(trim_start_by(s, strip), strip) == s.subrange(start, end)
        }),
{
    lemma_trim_start(s, strip, 0);
    assert(s.subrange(0, s.len() as int) == s);
    lemma_trim_end(s, strip, kept_from(s, strip, 0), s.len() as int);
}

/// Whether a character is one of a set.
fn is_one_of(c: char, set: &Vec<char>) -> (found: bool)
    ensures
        found == set@.contains(c),
{
    let mut i: usize = 0;
    while i < set.len()
        invariant
            i <= set.len(),
            forall|j: int| 0 <= j < i ==> set@[j] != c,
        decreases set.len() - i,
    {
        if set[i] == c {
            return true;
        }
        i = i + 1;
    }
    false
}

/// A text without the characters at its start and at its end that are white
/// space, or that are of `set` where one is given.
fn trim_by(s: &str, set: Option<&Vec<char>>) -> (text: String)
    ensures
        text@ == match set {
            Some(chars) => trimmed_of(s@, chars@),
            None => trimmed(s@),
        },
{
    let ghost strip: spec_fn(char) -> bool = match set {
        Some(chars) => |c: char| chars@.contains(c),
        None => |c: char| is_space(c),
    };
    let len = s.unicode_len();
    let mut start: usize = 0;
    let mut end: usize = 0;
    let mut seen: usize = 0;
    let mut found = false;
    for c in it: s.chars()
        invariant
            it.seq() == s@,
            len == s@.len(),
            seen == it.index(),
            strip == match set {
                Some(chars) => |c: char| chars@.contains(c),
                None => |c: char| is_space(c),
            },
            !found ==> kept_from(s@, strip, 0) == kept_from(s@, strip, seen as int),
            found ==> start == kept_from(s@, strip, 0) && start < end <= seen && end
                == kept_until(s@, strip, start as int, seen as int),
    {
        let stripped = match set {
            Some(chars) => is_one_of(c, chars),
            None => is_whitespace(c),
        };
        assert(stripped == strip(c));
        if !stripped {
            if !found {
                assert(kept_from(s@, strip, seen as int) == seen);
                start = seen;
                found = true;
            }
            end = seen + 1;
        }
        seen = seen + 1;
    }
    proof {
        lemma_trim_both(s@, strip);
    }
    if !found {
        start = len;
        end = len;
    }
    s.substring_char(start, end).to_owned()
}

/// A text without the white space at its start and at its end.
pub fn trim_text(s: &str) -> (text: String)
    ensures
        text@ == trimmed(s@),
{
    trim_by(s, None)
}

/// A text without the characters of `set` at its start and at its end.
pub fn trim_chars(s: &str, set: &Vec<char>) -> (text: String)
    ensures
        text@ == trimmed_of(s@, set@),
{
    trim_by(s, Some(set))
}

} // verus!
