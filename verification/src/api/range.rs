//! A request for a file may carry `Range: bytes=<start>-<end>`, which asks
//! for the bytes from position `start` up to and including position `end`, or
//! `Range: bytes=<start>-`, which asks for all bytes from `start` on. A
//! response that serves a part of a file says which with
//! `Content-Range: bytes <first>-<last>/<size>`.
//!
//! One range is all that a request can ask for. A header of any other form,
//! one that lists several ranges included, is unsupported, and a request that
//! carries it is answered as one whose range cannot be satisfied.

use crate::text::{
    chars_of, decimal_text, decimal_u64, format_decimal, lemma_decimal_round_trip,
    parse_decimal_in,
};
use vstd::prelude::*;
use vstd::set_lib::{lemma_int_range, set_int_range};

verus! {

/// A range of byte positions: from `start` up to and including `end`, or from
/// `start` on where there is no `end`.
#[derive(Debug, Copy, Clone, PartialEq, Eq, Hash)]
pub struct ByteRange {
    pub start: u64,
    pub end: Option<u64>,
}

/// What a request says about the part of the file that it wants.
#[derive(Debug, Copy, Clone, PartialEq, Eq, Hash)]
pub enum RangeRequest {
    /// No `Range` header: the whole file.
    Whole,
    /// The bytes of one range.
    Span(ByteRange),
    /// A `Range` header of a form that is not supported.
    Unsupported,
}

/// The part of a file that a response serves: the bytes from position `first`
/// up to and including position `last`, of a file of `size` bytes.
///
/// `first` is no greater than `last`, and `last` is a position of the file.
#[derive(Debug, Copy, Clone, PartialEq, Eq, Hash)]
pub struct ServedRange {
    first: u64,
    last: u64,
    size: u64,
}

/// What a [`ServedRange`] is, as a mathematical value.
pub struct ServedRangeView {
    pub first: u64,
    pub last: u64,
    pub size: u64,
}

impl View for ServedRange {
    type V = ServedRangeView;

    closed spec fn view(&self) -> ServedRangeView {
        ServedRangeView { first: self.first, last: self.last, size: self.size }
    }
}

impl ServedRangeView {
    /// The first position is no greater than the last, which is a position of
    /// the file.
    pub open spec fn valid(self) -> bool {
        self.first <= self.last < self.size
    }

    /// The number of bytes served.
    pub open spec fn length(self) -> int {
        self.last - self.first + 1
    }
}

impl ByteRange {
    /// Whether the range asks for the byte at `position`.
    pub open spec fn covers(self, position: int) -> bool {
        &&& self.start <= position
        &&& self.end matches Some(end) ==> position <= end
    }

    /// The positions of a file of `size` bytes that the range asks for.
    pub open spec fn positions(self, size: u64) -> Set<int> {
        Set::new(|position: int| 0 <= position < size && self.covers(position))
    }

    /// Whether the range can be served from a file of `size` bytes: it starts
    /// at a position of the file and does not end before it starts. No range
    /// can be served from an empty file.
    pub open spec fn satisfiable(self, size: u64) -> bool {
        &&& self.start < size
        &&& self.end matches Some(end) ==> self.start <= end
    }

    /// The last position that is served from a file of `size` bytes: the end
    /// of the range, or the last byte of the file where the range has no end
    /// or ends past it.
    pub open spec fn last_served(self, size: u64) -> int {
        match self.end {
            Some(end) => if end < size {
                end as int
            } else {
                size - 1
            },
            None => size - 1,
        }
    }

    /// The number of bytes of a file of `size` bytes that the range asks for.
    pub open spec fn span(self, size: u64) -> nat {
        if self.satisfiable(size) {
            (self.last_served(size) - self.start + 1) as nat
        } else {
            0
        }
    }

    /// What is served of a file of `size` bytes, where the range can be
    /// served.
    pub open spec fn served(self, size: u64) -> Option<ServedRangeView> {
        if self.satisfiable(size) {
            Some(
                ServedRangeView {
                    first: self.start,
                    last: self.last_served(size) as u64,
                    size,
                },
            )
        } else {
            None
        }
    }

    /// The range from `start` up to and including `end`.
    pub fn closed(start: u64, end: u64) -> (range: ByteRange)
        ensures
            range == (ByteRange { start, end: Some(end) }),
    {
        ByteRange { start, end: Some(end) }
    }

    /// The range from `start` on.
    pub fn from(start: u64) -> (range: ByteRange)
        ensures
            range == (ByteRange { start, end: None }),
    {
        ByteRange { start, end: None }
    }

    /// Whether the range can be served from a file of `size` bytes.
    pub fn is_satisfiable(&self, size: u64) -> (satisfiable: bool)
        ensures
            satisfiable == self.satisfiable(size),
    {
        self.start < size && match self.end {
            Some(end) => self.start <= end,
            None => true,
        }
    }

    /// What is served of a file of `size` bytes: the bytes that the range
    /// asks for, or `None` where it asks for none of them.
    pub fn serve(&self, size: u64) -> (served: Option<ServedRange>)
        ensures
            match served {
                Some(served) => self.served(size) == Some(served@) && served@.valid(),
                None => self.served(size) is None,
            },
    {
        if !self.is_satisfiable(size) {
            return None;
        }
        let last = match self.end {
            Some(end) => if end < size {
                end
            } else {
                size - 1
            },
            None => size - 1,
        };
        Some(ServedRange { first: self.start, last, size })
    }

    /// The number of bytes of a file of `size` bytes that the range asks for.
    pub fn length_in(&self, size: u64) -> (length: u64)
        ensures
            length == self.span(size),
    {
        match self.serve(size) {
            Some(served) => served.length(),
            None => 0,
        }
    }
}

/// A range can be served exactly when it asks for some byte of the file.
pub proof fn lemma_satisfiable_asks_for_a_byte(range: ByteRange, size: u64)
    ensures
        range.satisfiable(size) <==> exists|position: int| range.positions(size).contains(position),
{
    if range.satisfiable(size) {
        assert(range.positions(size).contains(range.start as int));
    }
}

/// The bytes that are served are those that the range asks for: the
/// positions from the start of the range to the last position served, and as
/// many as the span of the range says.
pub proof fn lemma_span_counts_positions(range: ByteRange, size: u64)
    ensures
        range.positions(size).finite(),
        range.positions(size).len() == range.span(size),
        range.satisfiable(size) ==> range.positions(size) == set_int_range(
            range.start as int,
            range.last_served(size) + 1,
        ),
{
    if range.satisfiable(size) {
        let last = range.last_served(size);
        assert(range.positions(size) =~= set_int_range(range.start as int, last + 1));
        lemma_int_range(range.start as int, last + 1);
    } else {
        assert(range.positions(size) =~= Set::<int>::empty());
    }
}

impl ServedRange {
    #[verifier::type_invariant]
    spec fn within_file(self) -> bool {
        self.first <= self.last < self.size
    }

    /// The position of the first byte served.
    pub fn first(&self) -> (first: u64)
        ensures
            first == self@.first,
            self@.valid(),
    {
        proof {
            use_type_invariant(self);
        }
        self.first
    }

    /// The position of the last byte served.
    pub fn last(&self) -> (last: u64)
        ensures
            last == self@.last,
            self@.valid(),
    {
        proof {
            use_type_invariant(self);
        }
        self.last
    }

    /// The size of the whole file.
    pub fn size(&self) -> (size: u64)
        ensures
            size == self@.size,
            self@.valid(),
    {
        proof {
            use_type_invariant(self);
        }
        self.size
    }

    /// The number of bytes served, which is at least one.
    pub fn length(&self) -> (length: u64)
        ensures
            length == self@.length(),
            length >= 1,
    {
        proof {
            use_type_invariant(self);
        }
        self.last - self.first + 1
    }

    /// The value of the `Content-Range` header of the response:
    /// `bytes <first>-<last>/<size>`.
    pub fn content_range(&self) -> (header: String)
        ensures
            header@ == content_range_text(self@),
    {
        let mut header = String::from_str("bytes ");
        header.append(format_decimal(self.first).as_str());
        header.append("-");
        header.append(format_decimal(self.last).as_str());
        header.append("/");
        header.append(format_decimal(self.size).as_str());
        header
    }
}

/// The value of the `Content-Range` header for what is served.
pub open spec fn content_range_text(served: ServedRangeView) -> Seq<char> {
    "bytes "@ + decimal_text(served.first as nat) + "-"@ + decimal_text(served.last as nat) + "/"@
        + decimal_text(served.size as nat)
}

/// Whether the first `-` of `text` stands at `at`.
pub open spec fn is_first_dash(text: Seq<char>, at: int) -> bool {
    &&& 0 <= at < text.len()
    &&& text[at] == '-'
    &&& forall|i: int| 0 <= i < at ==> text[i] != '-'
}

/// The range that the two numbers of a header denote: `start` is what stands
/// before the `-` and must be a decimal number, `end` is what stands after it
/// and must be a decimal number or empty.
pub open spec fn range_of_parts(start: Seq<char>, end: Seq<char>) -> Option<ByteRange> {
    match decimal_u64(start) {
        Some(start) => if end.len() == 0 {
            Some(ByteRange { start, end: None })
        } else {
            match decimal_u64(end) {
                Some(end) => Some(ByteRange { start, end: Some(end) }),
                None => None,
            }
        },
        None => None,
    }
}

/// The range that the value of a `Range` header denotes, if it has the form
/// `bytes=<start>-<end>` or `bytes=<start>-`, where `<start>` and `<end>` are
/// decimal numbers that fit 64 bits.
pub open spec fn range_of_header(header: Seq<char>) -> Option<ByteRange> {
    let unit = "bytes="@;
    if header.len() >= unit.len() && header.subrange(0, unit.len() as int) == unit {
        let rest = header.subrange(unit.len() as int, header.len() as int);
        if exists|at: int| is_first_dash(rest, at) {
            let at = choose|at: int| is_first_dash(rest, at);
            range_of_parts(rest.subrange(0, at), rest.subrange(at + 1, rest.len() as int))
        } else {
            None
        }
    } else {
        None
    }
}

/// The value of the `Range` header that asks for `range`.
pub open spec fn range_header_text(range: ByteRange) -> Seq<char> {
    "bytes="@ + decimal_text(range.start as nat) + "-"@ + match range.end {
        Some(end) => decimal_text(end as nat),
        None => Seq::empty(),
    }
}

/// The first `-` of a text has one position only.
proof fn lemma_first_dash_unique(text: Seq<char>, a: int, b: int)
    requires
        is_first_dash(text, a),
        is_first_dash(text, b),
    ensures
        a == b,
{
}

/// The header that asks for a range is read as that range.
pub proof fn lemma_range_header_round_trip(range: ByteRange)
    ensures
        range_of_header(range_header_text(range)) == Some(range),
{
    reveal_strlit("bytes=");
    reveal_strlit("-");
    let unit = "bytes="@;
    let start = decimal_text(range.start as nat);
    let end = match range.end {
        Some(end) => decimal_text(end as nat),
        None => Seq::empty(),
    };
    let header = range_header_text(range);
    lemma_decimal_round_trip(range.start as nat);
    if let Some(end) = range.end {
        lemma_decimal_round_trip(end as nat);
    }
    assert(header.subrange(0, unit.len() as int) =~= unit);
    let rest = header.subrange(unit.len() as int, header.len() as int);
    assert(rest =~= start + "-"@ + end);
    let at = start.len() as int;
    assert(is_first_dash(rest, at)) by {
        assert forall|i: int| 0 <= i < at implies rest[i] != '-' by {
            assert(rest[i] == start[i]);
        }
    }
    let chosen = choose|at: int| is_first_dash(rest, at);
    lemma_first_dash_unique(rest, at, chosen);
    assert(rest.subrange(0, at) =~= start);
    assert(rest.subrange(at + 1, rest.len() as int) =~= end);
}

/// Whether `chars` begins with `prefix`.
fn begins_with(chars: &Vec<char>, prefix: &Vec<char>) -> (begins: bool)
    ensures
        begins == (chars@.len() >= prefix@.len() && chars@.subrange(0, prefix@.len() as int)
            == prefix@),
{
    if chars.len() < prefix.len() {
        return false;
    }
    let mut at: usize = 0;
    while at < prefix.len()
        invariant
            at <= prefix.len() <= chars.len(),
            forall|i: int| 0 <= i < at ==> chars@[i] == prefix@[i],
        decreases prefix.len() - at,
    {
        if chars[at] != prefix[at] {
            assert(chars@.subrange(0, prefix@.len() as int)[at as int] != prefix@[at as int]);
            return false;
        }
        at += 1;
    }
    assert(chars@.subrange(0, prefix@.len() as int) =~= prefix@);
    true
}

/// Reads the value of a `Range` header.
///
/// The result is `None` where the value has not the form
/// `bytes=<start>-<end>` or `bytes=<start>-`: where the unit is not `bytes`,
/// where a number is missing, has a sign or a blank, or does not fit 64 bits,
/// and where more than one range is listed.
pub fn parse_range(header: &str) -> (range: Option<ByteRange>)
    ensures
        range == range_of_header(header@),
{
    let chars = chars_of(header);
    let unit = chars_of("bytes=");
    proof {
        reveal_strlit("bytes=");
    }
    if !begins_with(&chars, &unit) {
        return None;
    }
    let ghost rest = header@.subrange(unit@.len() as int, header@.len() as int);
    let from: usize = unit.len();
    let mut dash: usize = from;
    while dash < chars.len() && chars[dash] != '-'
        invariant
            from <= dash <= chars.len(),
            chars@ == header@,
            from == unit@.len(),
            rest == header@.subrange(from as int, header@.len() as int),
            forall|i: int| 0 <= i < dash - from ==> rest[i] != '-',
        decreases chars.len() - dash,
    {
        dash += 1;
    }
    if dash == chars.len() {
        assert forall|at: int| !is_first_dash(rest, at) by {}
        return None;
    }
    proof {
        let at = dash - from;
        assert(is_first_dash(rest, at));
        let chosen = choose|at: int| is_first_dash(rest, at);
        lemma_first_dash_unique(rest, at, chosen);
        assert(rest.subrange(0, at) =~= chars@.subrange(from as int, dash as int));
        assert(rest.subrange(at + 1, rest.len() as int) =~= chars@.subrange(
            dash + 1,
            chars.len() as int,
        ));
    }
    let start = match parse_decimal_in(&chars, from, dash) {
        Some(start) => start,
        None => {
            return None;
        },
    };
    if dash + 1 == chars.len() {
        return Some(ByteRange { start, end: None });
    }
    match parse_decimal_in(&chars, dash + 1, chars.len()) {
        Some(end) => Some(ByteRange { start, end: Some(end) }),
        None => None,
    }
}

impl RangeRequest {
    /// What the `Range` header of a request asks for, `header` being the
    /// value of the header, or `None` where the request has none.
    pub open spec fn of_header(header: Option<&str>) -> RangeRequest {
        match header {
            None => RangeRequest::Whole,
            Some(value) => match range_of_header(value@) {
                Some(range) => RangeRequest::Span(range),
                None => RangeRequest::Unsupported,
            },
        }
    }

    /// The number of bytes of a file of `size` bytes that the request asks
    /// for: all of them, those of its range, or none where the header is
    /// unsupported.
    pub open spec fn span(self, size: u64) -> nat {
        match self {
            RangeRequest::Whole => size as nat,
            RangeRequest::Span(range) => range.span(size),
            RangeRequest::Unsupported => 0,
        }
    }

    /// What the `Range` header of a request asks for, `header` being the
    /// value of the header, or `None` where the request has none.
    pub fn from_header(header: Option<&str>) -> (request: RangeRequest)
        ensures
            request == RangeRequest::of_header(header),
    {
        match header {
            None => RangeRequest::Whole,
            Some(value) => match parse_range(value) {
                Some(range) => RangeRequest::Span(range),
                None => RangeRequest::Unsupported,
            },
        }
    }

    /// The number of bytes of a file of `size` bytes that the request asks
    /// for.
    pub fn length_in(&self, size: u64) -> (length: u64)
        ensures
            length == self.span(size),
    {
        match self {
            RangeRequest::Whole => size,
            RangeRequest::Span(range) => range.length_in(size),
            RangeRequest::Unsupported => 0,
        }
    }
}

} // verus!
