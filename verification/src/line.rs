//! Classification of one line by a scan from its start.

use crate::error::{Error, ErrorView, ParseFailure};
use crate::event::{event_result, Event, EventView, Section};
use crate::hex::{hex_limit, id_of_token, lemma_hex_value_bound, parse_id};
use vstd::prelude::*;
use vstd::utf8::{decode_utf8, valid_utf8};

verus! {

pub const TAB: u8 = 0x09;

pub const SPACE: u8 = 0x20;

pub const UPPER_C: u8 = 0x43;

pub const LOWER_C: u8 = 0x63;

/// The kinds of line.
#[derive(Clone, Copy, Debug, PartialEq, Eq, Structural)]
pub enum Shape {
    Vendor,
    Device,
    Subdevice,
    Class,
    SubClass,
    ProgIf,
}

/// Whether `line` starts with the class marker: the letter C, of either case, and a space.
pub open spec fn is_class_marker(line: Seq<u8>) -> bool {
    &&& line.len() >= 2
    &&& (line[0] == UPPER_C || line[0] == LOWER_C)
    &&& line[1] == SPACE
}

/// The number of tabs that `line` starts with, counted up to two.
pub open spec fn leading_tabs(line: Seq<u8>) -> int {
    if line.len() >= 1 && line[0] == TAB {
        if line.len() >= 2 && line[1] == TAB {
            2
        } else {
            1
        }
    } else {
        0
    }
}

/// The kind of a line, by its start and the section it stands in. A line that starts with the
/// class marker is a class line in either section; apart from that the depth decides. The one
/// line without a kind is an unindented line in the class section.
pub open spec fn line_shape(line: Seq<u8>, section: Section) -> Option<Shape> {
    if is_class_marker(line) {
        Some(Shape::Class)
    } else {
        let depth = leading_tabs(line);
        match section {
            Section::Devices => Some(
                if depth == 0 {
                    Shape::Vendor
                } else if depth == 1 {
                    Shape::Device
                } else {
                    Shape::Subdevice
                },
            ),
            Section::Classes => if depth == 0 {
                None
            } else if depth == 1 {
                Some(Shape::SubClass)
            } else {
                Some(Shape::ProgIf)
            },
        }
    }
}

/// The section in force after `line`: a line with the class marker opens the class section.
pub open spec fn section_after(line: Seq<u8>, section: Section) -> Section {
    if is_class_marker(line) {
        Section::Classes
    } else {
        section
    }
}

impl Shape {
    /// The number of bytes that stand before the id field: the tabs, or the class marker.
    pub open spec fn spec_payload_start(self) -> int {
        match self {
            Shape::Vendor => 0,
            Shape::Device | Shape::SubClass => 1,
            Shape::Subdevice | Shape::Class | Shape::ProgIf => 2,
        }
    }

    /// The width of the id field.
    pub open spec fn spec_token_width(self) -> int {
        match self {
            Shape::Vendor | Shape::Device => 4,
            Shape::Subdevice => 9,
            Shape::Class | Shape::SubClass | Shape::ProgIf => 2,
        }
    }

    /// The number of bytes before the id field.
    pub fn payload_start(self) -> (start: usize)
        ensures
            start == self.spec_payload_start(),
    {
        match self {
            Shape::Vendor => 0,
            Shape::Device | Shape::SubClass => 1,
            Shape::Subdevice | Shape::Class | Shape::ProgIf => 2,
        }
    }

    /// The width of the id field.
    pub fn token_width(self) -> (width: usize)
        ensures
            width == self.spec_token_width(),
    {
        match self {
            Shape::Vendor | Shape::Device => 4,
            Shape::Subdevice => 9,
            Shape::Class | Shape::SubClass | Shape::ProgIf => 2,
        }
    }
}

/// Whether two spaces stand at `at` and `at + 1`.
pub open spec fn is_delimiter_at(text: Seq<u8>, at: int) -> bool {
    &&& 0 <= at
    &&& at + 1 < text.len()
    &&& text[at] == SPACE
    &&& text[at + 1] == SPACE
}

/// Where the first pair of spaces at or after `from` starts.
pub open spec fn delimiter_from(text: Seq<u8>, from: int) -> Option<int>
    decreases text.len() - from,
{
    if from < 0 || from + 1 >= text.len() {
        None
    } else if is_delimiter_at(text, from) {
        Some(from)
    } else {
        delimiter_from(text, from + 1)
    }
}

/// Where the two-space delimiter of `text` starts: its first pair of spaces.
pub open spec fn first_delimiter(text: Seq<u8>) -> Option<int> {
    delimiter_from(text, 0)
}

/// The ids that an id field holds, for a line of kind `shape`: one id of four digits for a
/// vendor or a device, one of two digits in the class section, and for a subdevice two ids of
/// four digits with one space between them. A kind with one id has 0 for the second.
pub open spec fn field_ids(shape: Shape, token: Seq<u8>) -> Option<(u16, u16)> {
    match shape {
        Shape::Vendor | Shape::Device => match id_of_token(token, 4) {
            Some(id) => Some((id, 0u16)),
            None => None,
        },
        Shape::Class | Shape::SubClass | Shape::ProgIf => match id_of_token(token, 2) {
            Some(id) => Some((id, 0u16)),
            None => None,
        },
        Shape::Subdevice => if token.len() == 9 && token[4] == SPACE {
            match (id_of_token(token.subrange(0, 4), 4), id_of_token(token.subrange(5, 9), 4)) {
                (Some(subvendor), Some(subdevice)) => Some((subvendor, subdevice)),
                _ => None,
            }
        } else {
            None
        },
    }
}

/// The token that an error names for an id field that cannot be read: of the two ids of a
/// subdevice the first that is malformed, and else the whole field.
pub open spec fn offending_token(shape: Shape, token: Seq<u8>) -> Seq<u8> {
    if shape == Shape::Subdevice && token.len() == 9 && token[4] == SPACE {
        if id_of_token(token.subrange(0, 4), 4) is None {
            token.subrange(0, 4)
        } else {
            token.subrange(5, 9)
        }
    } else {
        token
    }
}

/// The record of kind `shape` with the given ids and name.
pub open spec fn record(shape: Shape, ids: (u16, u16), name: Seq<char>) -> EventView {
    match shape {
        Shape::Vendor => EventView::Vendor { id: ids.0, name },
        Shape::Device => EventView::Device { id: ids.0, name },
        Shape::Subdevice => EventView::Subdevice {
            subvendor: ids.0,
            subdevice: ids.1,
            subsystem_name: name,
        },
        Shape::Class => EventView::Class { id: ids.0 as u8, name },
        Shape::SubClass => EventView::SubClass { id: ids.0 as u8, name },
        Shape::ProgIf => EventView::ProgIf { id: ids.0 as u8, name },
    }
}

/// What one line stands for. The id field runs from the end of the tabs, or of the class
/// marker, to the first pair of spaces; the name is all that follows that pair. A line is
/// rejected for the first of these that holds: it has no kind, it has no delimiter, its id
/// field cannot be read, its name is not valid UTF-8.
pub open spec fn classify(line: Seq<u8>, section: Section) -> Result<EventView, ErrorView> {
    match line_shape(line, section) {
        None => Err(
            ErrorView::Parse {
                reason: ParseFailure::UnexpectedLine,
                line,
                token: Seq::empty(),
            },
        ),
        Some(shape) => {
            let payload = line.skip(shape.spec_payload_start());
            match first_delimiter(payload) {
                None => Err(
                    ErrorView::Parse {
                        reason: ParseFailure::MissingDelimiter,
                        line,
                        token: Seq::empty(),
                    },
                ),
                Some(delimiter) => {
                    let token = payload.take(delimiter);
                    let text = payload.skip(delimiter + 2);
                    match field_ids(shape, token) {
                        None => Err(
                            ErrorView::Parse {
                                reason: ParseFailure::InvalidInt,
                                line,
                                token: offending_token(shape, token),
                            },
                        ),
                        Some(ids) => if valid_utf8(text) {
                            Ok(record(shape, ids, decode_utf8(text)))
                        } else {
                            Err(ErrorView::Utf8Decode { line })
                        },
                    }
                },
            }
        },
    }
}

/// A pair of spaces found by [`delimiter_from`] is the first one at or after `from`, and
/// where it finds none there is none.
pub proof fn lemma_delimiter_from(text: Seq<u8>, from: int)
    requires
        0 <= from,
    ensures
        match delimiter_from(text, from) {
            Some(at) => {
                &&& from <= at
                &&& is_delimiter_at(text, at)
                &&& forall|i: int| from <= i < at ==> !is_delimiter_at(text, i)
            },
            None => forall|i: int| from <= i ==> !is_delimiter_at(text, i),
        },
    decreases text.len() - from,
{
    if from + 1 < text.len() && !is_delimiter_at(text, from) {
        lemma_delimiter_from(text, from + 1);
    }
}

/// Calls `std::str::from_utf8`, which gives the text that `bytes` encode, and fails exactly
/// when they are not valid UTF-8. What valid UTF-8 is, and which characters it encodes, is
/// taken from `vstd::utf8`.
#[verifier::external_body]
pub(crate) fn decode_name<'a>(bytes: &'a [u8]) -> (name: Option<&'a str>)
    ensures
        name is Some <==> valid_utf8(bytes@),
        name is Some ==> name.unwrap()@ == decode_utf8(bytes@),
{
    match std::str::from_utf8(bytes) {
        Ok(text) => Some(text),
        Err(_) => None,
    }
}

/// The kind of `line` in `section`.
pub fn shape_of(line: &[u8], section: Section) -> (shape: Option<Shape>)
    ensures
        shape == line_shape(line@, section),
{
    let len = line.len();
    if len >= 2 && (line[0] == UPPER_C || line[0] == LOWER_C) && line[1] == SPACE {
        return Some(Shape::Class);
    }
    let depth: u8 = if len >= 1 && line[0] == TAB {
        if len >= 2 && line[1] == TAB {
            2
        } else {
            1
        }
    } else {
        0
    };
    match section {
        Section::Devices => Some(
            if depth == 0 {
                Shape::Vendor
            } else if depth == 1 {
                Shape::Device
            } else {
                Shape::Subdevice
            },
        ),
        Section::Classes => if depth == 0 {
            None
        } else if depth == 1 {
            Some(Shape::SubClass)
        } else {
            Some(Shape::ProgIf)
        },
    }
}

/// Finds the two-space delimiter of `text`.
pub fn find_delimiter(text: &[u8]) -> (found: Option<usize>)
    ensures
        match found {
            Some(at) => first_delimiter(text@) == Some(at as int),
            None => first_delimiter(text@) is None,
        },
{
    let len = text.len();
    if len < 2 {
        return None;
    }
    let mut at: usize = 0;
    while at < len - 1
        invariant
            len == text@.len(),
            at <= len - 1,
            delimiter_from(text@, at as int) == first_delimiter(text@),
        decreases len - at,
    {
        if text[at] == SPACE && text[at + 1] == SPACE {
            return Some(at);
        }
        at += 1;
    }
    None
}

/// Reads the ids of an id field. An id of two digits fits in a byte.
pub(crate) fn parse_ids(shape: Shape, token: &[u8]) -> (ids: Option<(u16, u16)>)
    ensures
        ids == field_ids(shape, token@),
        ids is Some && shape.spec_token_width() == 2 ==> ids.unwrap().0 < 0x100,
{
    match shape {
        Shape::Vendor | Shape::Device => match parse_id(token, 4) {
            Some(id) => Some((id, 0)),
            None => None,
        },
        Shape::Class | Shape::SubClass | Shape::ProgIf => match parse_id(token, 2) {
            Some(id) => {
                proof {
                    lemma_hex_value_bound(token@);
                    reveal_with_fuel(hex_limit, 3);
                }
                Some((id, 0))
            },
            None => None,
        },
        Shape::Subdevice => {
            if token.len() != 9 || token[4] != SPACE {
                return None;
            }
            match (parse_id(&token[0..4], 4), parse_id(&token[5..9], 4)) {
                (Some(subvendor), Some(subdevice)) => Some((subvendor, subdevice)),
                _ => None,
            }
        },
    }
}

/// The token to name for an id field that cannot be read.
fn offending<'a>(shape: Shape, token: &'a [u8]) -> (named: &'a [u8])
    ensures
        named@ == offending_token(shape, token@),
{
    match shape {
        Shape::Subdevice => {
            if token.len() == 9 && token[4] == SPACE {
                if parse_id(&token[0..4], 4).is_none() {
                    &token[0..4]
                } else {
                    &token[5..9]
                }
            } else {
                token
            }
        },
        _ => token,
    }
}

/// Builds the record of kind `shape`.
pub(crate) fn make_event<'a>(shape: Shape, ids: (u16, u16), name: &'a str) -> (event: Event<'a>)
    requires
        shape.spec_token_width() == 2 ==> ids.0 < 0x100,
    ensures
        event@ == record(shape, ids, name@),
{
    match shape {
        Shape::Vendor => Event::Vendor { id: ids.0, name },
        Shape::Device => Event::Device { id: ids.0, name },
        Shape::Subdevice => Event::Subdevice {
            subvendor: ids.0,
            subdevice: ids.1,
            subsystem_name: name,
        },
        Shape::Class => Event::Class { id: ids.0 as u8, name },
        Shape::SubClass => Event::SubClass { id: ids.0 as u8, name },
        Shape::ProgIf => Event::ProgIf { id: ids.0 as u8, name },
    }
}

/// Classifies one line, without its newline, by scanning it from the start.
pub fn classify_line<'a>(line: &'a [u8], section: Section) -> (result: Result<Event<'a>, Error>)
    ensures
        event_result(result) == classify(line@, section),
{
    let shape = match shape_of(line, section) {
        Some(shape) => shape,
        None => {
            return Err(Error::malformed(ParseFailure::UnexpectedLine, line));
        },
    };
    let payload = &line[shape.payload_start()..line.len()];
    assert(payload@ == line@.skip(shape.spec_payload_start()));
    let delimiter = match find_delimiter(payload) {
        Some(at) => at,
        None => {
            return Err(Error::malformed(ParseFailure::MissingDelimiter, line));
        },
    };
    proof {
        lemma_delimiter_from(payload@, 0);
    }
    let token = &payload[0..delimiter];
    let text = &payload[delimiter + 2..payload.len()];
    assert(token@ == payload@.take(delimiter as int));
    assert(text@ == payload@.skip(delimiter + 2));
    let ids = match parse_ids(shape, token) {
        Some(ids) => ids,
        None => {
            return Err(Error::invalid_int(line, offending(shape, token)));
        },
    };
    match decode_name(text) {
        Some(name) => Ok(make_event(shape, ids, name)),
        None => Err(Error::undecodable(line)),
    }
}

} // verus!
