//! Locations taken from the parser generator's spans and error positions,
//! and the errors of failed parses.
use super::{Location, ParserError, SourceBuffer};
use vstd::prelude::*;
use vstd::std_specs::convert::FromSpecImpl;

verus! {

/// A span of input text, from `pest`.
#[verifier::external_type_specification]
#[verifier::external_body]
pub struct ExSpan<'i>(pest::Span<'i>);

/// Where a parse error was found, from `pest`.
#[verifier::external_type_specification]
#[verifier::external_body]
pub struct ExInputLocation(pest::error::InputLocation);

/// Where a parse error was found, as plain offsets: one position, or a span
/// from a start to an end.
#[derive(Debug, Clone, Copy, PartialEq, Eq)]
pub enum InputPosition {
    Pos(usize),
    Span(usize, usize),
}

/// The byte offset at which a span starts: `pest::Span::start`, which reads
/// the span's start field. Which offset a given span holds is not stated.
#[verifier::external_body]
fn span_start(span: &pest::Span) -> (res: usize) {
    span.start()
}

/// The byte offset at which a span ends: `pest::Span::end`, which reads the
/// span's end field. Which offset a given span holds is not stated, nor that
/// it is at least the start: spans made from two positions are not checked
/// for their order when debug assertions are off.
#[verifier::external_body]
fn span_end(span: &pest::Span) -> (res: usize) {
    span.end()
}

/// The offsets of an error location, moved out of `pest::error::InputLocation`
/// variant by variant; which offsets a given location holds is not stated.
#[verifier::external_body]
fn input_position(loc: &pest::error::InputLocation) -> (res: InputPosition) {
    match loc {
        pest::error::InputLocation::Pos(pos) => InputPosition::Pos(*pos),
        pest::error::InputLocation::Span(span) => InputPosition::Span(span.0, span.1),
    }
}

impl<'i> From<&pest::Span<'i>> for Location {
    /// The location of a span, from its start to its end.
    fn from(value: &pest::Span<'i>) -> (res: Location) {
        Location { start: span_start(value), stop: span_end(value) }
    }
}

impl<'i> FromSpecImpl<&pest::Span<'i>> for Location {
    /// Nothing is stated of the offsets that `from` reads out of a span.
    open spec fn obeys_from_spec() -> bool {
        false
    }

    open spec fn from_spec(v: &pest::Span<'i>) -> Self {
        arbitrary()
    }
}

impl InputPosition {
    /// The location of an error position: an empty location at a single
    /// position, or the span itself.
    pub open spec fn location(self) -> Location {
        match self {
            InputPosition::Pos(pos) => Location { start: pos, stop: pos },
            InputPosition::Span(start, stop) => Location { start, stop },
        }
    }
}

impl Location {
    /// The location of an error position: an empty location at a single
    /// position, or the span itself.
    pub fn from_input_position(value: &InputPosition) -> (res: Location)
        ensures
            res == value.location(),
    {
        match value {
            InputPosition::Pos(pos) => Location { start: *pos, stop: *pos },
            InputPosition::Span(start, stop) => Location { start: *start, stop: *stop },
        }
    }
}

impl From<&pest::error::InputLocation> for Location {
    /// The location of a parse error.
    fn from(value: &pest::error::InputLocation) -> (res: Location) {
        let position = input_position(value);
        Location::from_input_position(&position)
    }
}

impl FromSpecImpl<&pest::error::InputLocation> for Location {
    /// Nothing is stated of the offsets that `from` reads out of an error
    /// location.
    open spec fn obeys_from_spec() -> bool {
        false
    }

    open spec fn from_spec(v: &pest::error::InputLocation) -> Self {
        arbitrary()
    }
}

impl ParserError {
    /// The error of a parse of `source` that failed at `position` with
    /// `message`: a pointer into `source` at the location of the position,
    /// and the message.
    pub fn from_failure(source: &SourceBuffer, position: &InputPosition, message: String) -> (res: ParserError)
        ensures
            res.loc.buffer == *source,
            res.loc.location == position.location(),
            res.msg == message,
    {
        let loc = Location::from_input_position(position);
        ParserError { loc: source.pointer(loc), msg: message }
    }
}

} // verus!
