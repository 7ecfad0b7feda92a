//! Ticket numbers in commit subjects. They are found by a regular
//! expression of the `regex` crate; this module cuts a text at the places
//! that were found.

use vstd::prelude::*;
use vstd::utf8::{
    decode_utf8, encode_utf8, is_char_boundary, is_char_boundary_iff_not_is_continuation_byte,
    is_char_boundary_start_end_of_seq, valid_utf8, valid_utf8_split,
};

verus! {

broadcast use {vstd::utf8::encode_utf8_valid_utf8, vstd::utf8::encode_utf8_decode_utf8};

/// The pattern of a ticket number: capital letters, a hyphen, digits.
pub const TICKET_PATTERN: &'static str = "[A-Z]+-\\d+";

/// Makes the type `regex::Regex` known. Nothing is stated of its values.
#[verifier::external_type_specification]
#[verifier::external_body]
pub struct ExRegex(regex::Regex);

/// A compiled pattern together with its text. A finder is only ever made by
/// compiling a text, so the expression it holds is the one that its text
/// compiles to.
pub struct TicketFinder {
    pattern: String,
    regex: regex::Regex,
}

impl View for TicketFinder {
    type V = Seq<char>;

    closed spec fn view(&self) -> Seq<char> {
        self.pattern@
    }
}

/// What `regex::Regex::find_iter` yields for a pattern and a text: the
/// places at which the pattern matches, from left to right, for each match
/// the byte offsets of its start and of its end.
pub uninterp spec fn pattern_matches(pattern: Seq<char>, text: Seq<char>) -> Seq<(usize, usize)>;

/// Whether ranges of byte offsets lie in a text one after another without
/// overlap, each from a character boundary to a character boundary.
pub open spec fn ordered_ranges(ranges: Seq<(usize, usize)>, text: Seq<char>) -> bool {
    let bytes = encode_utf8(text);
    &&& forall|i: int|
        0 <= i < ranges.len() ==> {
            &&& (#[trigger] ranges[i]).0 <= ranges[i].1 <= bytes.len()
            &&& is_char_boundary(bytes, ranges[i].0 as int)
            &&& is_char_boundary(bytes, ranges[i].1 as int)
        }
    &&& forall|i: int, j: int|
        0 <= i < j < ranges.len() ==> (#[trigger] ranges[i]).1 <= (#[trigger] ranges[j]).0
}

/// Whether `regex::Regex::new` accepts a text as a pattern: whether the
/// text is an expression of the crate's syntax that compiles within the
/// crate's size limit.
pub uninterp spec fn pattern_accepted(pattern: Seq<char>) -> bool;

/// Compiles a pattern with `regex::Regex::new`. There is a result exactly
/// where the crate accepts the pattern, and the result then holds the
/// compiled pattern together with the text it was compiled from. Whether a
/// given text is accepted is not stated here.
#[verifier::external_body]
fn compile(pattern: &str) -> (finder: Option<TicketFinder>)
    ensures
        finder is Some <==> pattern_accepted(pattern@),
        finder matches Some(f) ==> f@ == pattern@,
{
    regex::Regex::new(pattern).ok().map(|regex| TicketFinder { pattern: pattern.to_string(), regex })
}

/// Finds all matches with `regex::Regex::find_iter` and hands out the start
/// and the end of each. The matches are those of the pattern in the text.
/// As the crate documents, they follow one another without overlap, no
/// match ends before it starts or after the text, and every offset falls
/// on a character boundary.
#[verifier::external_body]
fn find_all(finder: &TicketFinder, text: &str) -> (found: Vec<(usize, usize)>)
    ensures
        found@ == pattern_matches(finder@, text@),
        ordered_ranges(found@, text@),
{
    finder.regex.find_iter(text).map(|m| (m.start(), m.end())).collect()
}

impl TicketFinder {
    /// The finder of ticket numbers: the pattern of a ticket number,
    /// compiled. There is a finder exactly where the pattern is accepted.
    pub fn new() -> (finder: Option<TicketFinder>)
        ensures
            finder is Some <==> pattern_accepted(TICKET_PATTERN@),
            finder matches Some(f) ==> f@ == TICKET_PATTERN@,
    {
        compile(TICKET_PATTERN)
    }

    /// The places of the ticket numbers in a text.
    pub fn find(&self, text: &str) -> (found: Vec<(usize, usize)>)
        ensures
            found@ == pattern_matches(self@, text@),
            ordered_ranges(found@, text@),
    {
        find_all(self, text)
    }
}

/// What a piece of a commit line is.
#[derive(Clone, Copy, PartialEq, Eq, Debug)]
pub enum SpanKind {
    Plain,
    Hash,
    Ticket,
}

/// A piece of a commit line with what it is.
#[derive(Debug)]
pub struct Span {
    pub text: String,
    pub kind: SpanKind,
}

/// `Span` as mathematical values.
pub struct SpanModel {
    pub text: Seq<char>,
    pub kind: SpanKind,
}

impl View for Span {
    type V = SpanModel;

    open spec fn view(&self) -> SpanModel {
        SpanModel { text: self.text@, kind: self.kind }
    }
}

/// The models of a sequence of spans.
pub open spec fn span_models(spans: Seq<Span>) -> Seq<SpanModel> {
    spans.map_values(|span: Span| span@)
}

/// The part of a text between two byte offsets.
pub open spec fn slice(text: Seq<char>, from: int, to: int) -> Seq<char> {
    decode_utf8(encode_utf8(text).subrange(from, to))
}

/// Where the last of the ranges ends, or 0 where there is none.
pub open spec fn end_of(ranges: Seq<(usize, usize)>) -> int {
    if ranges.len() == 0 {
        0
    } else {
        ranges.last().1 as int
    }
}

/// The pieces of a text up to the end of the last range: each range is a
/// ticket, and what stands before a range and after the one before it is
/// plain text.
pub open spec fn marked_up(text: Seq<char>, ranges: Seq<(usize, usize)>) -> Seq<SpanModel>
    decreases ranges.len(),
{
    if ranges.len() == 0 {
        Seq::empty()
    } else {
        let before = marked_up(text, ranges.drop_last());
        let from = end_of(ranges.drop_last());
        let range = ranges.last();
        let ticket = SpanModel {
            text: slice(text, range.0 as int, range.1 as int),
            kind: SpanKind::Ticket,
        };
        if range.0 > from {
            before.push(SpanModel { text: slice(text, from, range.0 as int), kind: SpanKind::Plain })
                .push(ticket)
        } else {
            before.push(ticket)
        }
    }
}

/// The pieces of a whole text: those up to the end of the last range, and
/// what is left after it as plain text.
pub open spec fn ticket_spans(text: Seq<char>, ranges: Seq<(usize, usize)>) -> Seq<SpanModel> {
    let len = encode_utf8(text).len() as int;
    if end_of(ranges) < len {
        marked_up(text, ranges).push(
            SpanModel { text: slice(text, end_of(ranges), len), kind: SpanKind::Plain },
        )
    } else {
        marked_up(text, ranges)
    }
}

/// A character boundary of a text is one of what is left of the text from
/// an earlier boundary on.
proof fn lemma_boundary_in_rest(bytes: Seq<u8>, from: int, at: int)
    requires
        valid_utf8(bytes),
        0 <= from <= at <= bytes.len(),
        is_char_boundary(bytes, from),
        is_char_boundary(bytes, at),
    ensures
        valid_utf8(bytes.subrange(from, bytes.len() as int)),
        is_char_boundary(bytes.subrange(from, bytes.len() as int), at - from),
{
    let rest = bytes.subrange(from, bytes.len() as int);
    valid_utf8_split(bytes, from);
    if at == bytes.len() {
        is_char_boundary_start_end_of_seq(rest);
    } else {
        is_char_boundary_iff_not_is_continuation_byte(bytes, at);
        assert(rest[at - from] == bytes[at]);
        is_char_boundary_iff_not_is_continuation_byte(rest, at - from);
    }
}

/// Cuts a text at the given ranges: each range becomes a ticket, and what
/// lies between them, before the first and after the last becomes plain
/// text, as far as it is not empty.
pub fn split_tickets(text: &str, ranges: &Vec<(usize, usize)>) -> (spans: Vec<Span>)
    requires
        ordered_ranges(ranges@, text@),
    ensures
        span_models(spans@) == ticket_spans(text@, ranges@),
{
    let ghost bytes = encode_utf8(text@);
    let mut spans: Vec<Span> = Vec::new();
    let mut rest: &str = text;
    let mut done: usize = 0;
    let mut i: usize = 0;
    proof {
        is_char_boundary_start_end_of_seq(bytes);
        assert(bytes.subrange(0, bytes.len() as int) == bytes);
        assert(span_models(spans@) =~= marked_up(text@, ranges@.take(0)));
    }
    while i < ranges.len()
        invariant
            i <= ranges.len(),
            bytes == encode_utf8(text@),
            ordered_ranges(ranges@, text@),
            done == end_of(ranges@.take(i as int)),
            done <= bytes.len(),
            is_char_boundary(bytes, done as int),
            encode_utf8(rest@) == bytes.subrange(done as int, bytes.len() as int),
            span_models(spans@) == marked_up(text@, ranges@.take(i as int)),
        decreases ranges.len() - i,
    {
        let (start, end) = ranges[i];
        let ghost so_far = ranges@.take(i as int);
        proof {
            assert(ranges@.take(i as int + 1).drop_last() == so_far);
            assert(ranges@.take(i as int + 1).last() == ranges@[i as int]);
            if i > 0 {
                assert(so_far.last() == ranges@[i as int - 1]);
            }
            lemma_boundary_in_rest(bytes, done as int, start as int);
        }
        let (gap, from_start) = rest.split_at(start - done);
        proof {
            assert(encode_utf8(gap@) == bytes.subrange(done as int, start as int));
            assert(encode_utf8(from_start@) == bytes.subrange(start as int, bytes.len() as int));
            lemma_boundary_in_rest(bytes, start as int, end as int);
        }
        let (ticket, after) = from_start.split_at(end - start);
        proof {
            assert(encode_utf8(ticket@) == bytes.subrange(start as int, end as int));
            assert(encode_utf8(after@) == bytes.subrange(end as int, bytes.len() as int));
            assert(gap@ == slice(text@, done as int, start as int));
            assert(ticket@ == slice(text@, start as int, end as int));
        }
        let ghost before = spans@;
        if start > done {
            spans.push(Span { text: gap.to_owned(), kind: SpanKind::Plain });
        }
        spans.push(Span { text: ticket.to_owned(), kind: SpanKind::Ticket });
        proof {
            assert(span_models(spans@) =~= marked_up(text@, ranges@.take(i as int + 1)));
        }
        rest = after;
        done = end;
        i = i + 1;
    }
    proof {
        assert(ranges@.take(ranges.len() as int) == ranges@);
        assert(rest@ == slice(text@, done as int, bytes.len() as int));
    }
    proof {
        if rest@.len() > 0 {
            assert(encode_utf8(rest@).len() > 0);
        } else {
            assert(encode_utf8(rest@).len() == 0);
        }
    }
    if !rest.is_empty() {
        let ghost before = spans@;
        spans.push(Span { text: rest.to_owned(), kind: SpanKind::Plain });
        assert(span_models(spans@) =~= span_models(before).push(
            SpanModel { text: rest@, kind: SpanKind::Plain },
        ));
    }
    spans
}

} // verus!
