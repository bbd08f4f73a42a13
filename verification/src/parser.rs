//! The stream of records that a byte stream stands for, and the parser that walks it.

use crate::error::{Error, ErrorView};
use crate::event::{next_result, Event, EventView, Section};
use crate::line::{classify, section_after, LOWER_C, SPACE, UPPER_C};
use crate::window::Classifier;
use vstd::prelude::*;

verus! {

pub const NEWLINE: u8 = 0x0a;

pub const HASH: u8 = 0x23;

/// Where the first newline at or after `from` stands, or the length of `text` if there is
/// none.
pub open spec fn newline_from(text: Seq<u8>, from: int) -> int
    decreases text.len() - from,
{
    if from < 0 || from >= text.len() {
        text.len() as int
    } else if text[from] == NEWLINE {
        from
    } else {
        newline_from(text, from + 1)
    }
}

/// The first line of `text`, without its newline. The last line need not end in one.
pub open spec fn first_line(text: Seq<u8>) -> Seq<u8> {
    text.take(newline_from(text, 0))
}

/// What follows the first line of `text` and its newline.
pub open spec fn after_first_line(text: Seq<u8>) -> Seq<u8> {
    let end = newline_from(text, 0);
    if end < text.len() {
        text.skip(end + 1)
    } else {
        Seq::empty()
    }
}

/// Whether `line` gives no record: it is blank, or a comment.
pub open spec fn is_skipped(line: Seq<u8>) -> bool {
    line.len() == 0 || line[0] == HASH
}

/// What one line gives: nothing if it is blank or a comment, and else its record or the
/// error that rejects it.
pub open spec fn line_result(line: Seq<u8>, section: Section) -> Result<
    Option<EventView>,
    ErrorView,
> {
    if is_skipped(line) {
        Ok(None)
    } else {
        match classify(line, section) {
            Ok(event) => Ok(Some(event)),
            Err(error) => Err(error),
        }
    }
}

/// One step along a byte stream: what the step gives, and the bytes and the section that it
/// leaves.
pub ghost struct Step {
    pub result: Result<Option<EventView>, ErrorView>,
    pub rest: Seq<u8>,
    pub section: Section,
}

/// The first newline is within the text.
pub proof fn lemma_newline_from(text: Seq<u8>, from: int)
    requires
        0 <= from <= text.len(),
    ensures
        from <= newline_from(text, from) <= text.len(),
        newline_from(text, from) < text.len() ==> text[newline_from(text, from)] == NEWLINE,
        forall|i: int| from <= i < newline_from(text, from) ==> text[i] != NEWLINE,
    decreases text.len() - from,
{
    if from < text.len() && text[from] != NEWLINE {
        lemma_newline_from(text, from + 1);
    }
}

/// The step from the start of `text`: the lines that give nothing are passed over, and the
/// first other line gives its record or its error. At the end of the bytes the step gives
/// `Ok(None)`.
pub open spec fn next_step(text: Seq<u8>, section: Section) -> Step
    decreases text.len(),
{
    if text.len() == 0 {
        Step { result: Ok(None), rest: text, section }
    } else {
        let line = first_line(text);
        let rest = after_first_line(text);
        if is_skipped(line) {
            proof {
                lemma_newline_from(text, 0);
            }
            next_step(rest, section)
        } else {
            Step {
                result: line_result(line, section),
                rest,
                section: section_after(line, section),
            }
        }
    }
}

/// A step that gives a record or an error leaves fewer bytes than it found.
pub proof fn lemma_next_step_consumes(text: Seq<u8>, section: Section)
    ensures
        next_step(text, section).rest.len() <= text.len(),
        !(next_step(text, section).result matches Ok(None)) ==> next_step(text, section).rest.len()
            < text.len(),
    decreases text.len(),
{
    if text.len() > 0 {
        lemma_newline_from(text, 0);
        if is_skipped(first_line(text)) {
            lemma_next_step_consumes(after_first_line(text), section);
        }
    }
}

/// What one read of a stream gives: a record, or the error of a malformed line.
pub type Item = Result<EventView, ErrorView>;

/// The stream that `text` stands for, read from `section` on: what the reads give one after
/// the other, up to the end of the bytes. Blank lines and comments give nothing.
pub open spec fn event_stream(text: Seq<u8>, section: Section) -> Seq<Item>
    decreases text.len(),
{
    let step = next_step(text, section);
    match step.result {
        Ok(None) => Seq::empty(),
        Ok(Some(event)) => {
            proof {
                lemma_next_step_consumes(text, section);
            }
            seq![Ok(event)] + event_stream(step.rest, step.section)
        },
        Err(error) => {
            proof {
                lemma_next_step_consumes(text, section);
            }
            seq![Err(error)] + event_stream(step.rest, step.section)
        },
    }
}

/// What a read says of the stream: `item` is read next and `rest` is left, or, with no
/// item, the stream is at its end and stays there.
pub open spec fn reads(before: Seq<Item>, item: Option<Item>, rest: Seq<Item>) -> bool {
    match item {
        Some(item) => before.len() > 0 && before[0] == item && rest == before.drop_first(),
        None => before.len() == 0 && rest.len() == 0,
    }
}

/// The item that the result of a read stands for.
pub open spec fn item_of(result: Result<Option<EventView>, ErrorView>) -> Option<Item> {
    match result {
        Ok(Some(event)) => Some(Ok(event)),
        Ok(None) => None,
        Err(error) => Some(Err(error)),
    }
}

/// A step that finds the end of the bytes leaves no bytes.
pub proof fn lemma_next_step_end(text: Seq<u8>, section: Section)
    requires
        next_step(text, section).result matches Ok(None),
    ensures
        next_step(text, section).rest.len() == 0,
        next_step(text, section).section == section,
    decreases text.len(),
{
    if text.len() > 0 {
        lemma_newline_from(text, 0);
        lemma_next_step_end(after_first_line(text), section);
    }
}

/// One step reads the first item of the stream and leaves the rest of it.
pub proof fn lemma_step_of_stream(text: Seq<u8>, section: Section)
    ensures
        reads(
            event_stream(text, section),
            item_of(next_step(text, section).result),
            event_stream(next_step(text, section).rest, next_step(text, section).section),
        ),
{
    let step = next_step(text, section);
    let rest = event_stream(step.rest, step.section);
    match step.result {
        Ok(None) => {
            lemma_next_step_end(text, section);
        },
        Ok(Some(event)) => {
            assert((seq![Ok::<EventView, ErrorView>(event)] + rest).drop_first() =~= rest);
        },
        Err(error) => {
            assert((seq![Err::<EventView, ErrorView>(error)] + rest).drop_first() =~= rest);
        },
    }
}

/// The items that one line adds to the stream: none, or one.
pub open spec fn items_of_line(line: Seq<u8>, section: Section) -> Seq<Item> {
    match line_result(line, section) {
        Ok(None) => Seq::empty(),
        Ok(Some(event)) => seq![Ok(event)],
        Err(error) => seq![Err(error)],
    }
}

/// A stream is read line by line: a line that is followed by a newline adds its items in
/// front of the stream that the bytes behind the newline stand for, read in the section
/// that the line leaves.
pub proof fn lemma_stream_by_lines(line: Seq<u8>, rest: Seq<u8>, section: Section)
    requires
        forall|i: int| 0 <= i < line.len() ==> line[i] != NEWLINE,
    ensures
        event_stream(line + seq![NEWLINE] + rest, section) == items_of_line(line, section)
            + event_stream(rest, section_after(line, section)),
{
    let text = line + seq![NEWLINE] + rest;
    lemma_newline_from(text, 0);
    assert(newline_from(text, 0) == line.len()) by {
        assert(text[line.len() as int] == NEWLINE);
        assert forall|i: int| 0 <= i < line.len() implies text[i] != NEWLINE by {
            assert(text[i] == line[i]);
        }
    }
    assert(first_line(text) =~= line);
    assert(after_first_line(text) =~= rest);
    let behind = event_stream(rest, section_after(line, section));
    assert(Seq::<Item>::empty() + behind =~= behind);
}

/// The last line of a stream need not end in a newline: alone it stands for its items.
pub proof fn lemma_stream_of_last_line(line: Seq<u8>, section: Section)
    requires
        forall|i: int| 0 <= i < line.len() ==> line[i] != NEWLINE,
    ensures
        event_stream(line, section) == items_of_line(line, section),
{
    if line.len() > 0 {
        lemma_newline_from(line, 0);
        assert(first_line(line) =~= line);
        assert(after_first_line(line) =~= Seq::<u8>::empty());
        let none = Seq::<Item>::empty();
        assert(event_stream(Seq::<u8>::empty(), section) == none);
        assert(event_stream(Seq::<u8>::empty(), section_after(line, section)) == none);
        match line_result(line, section) {
            Ok(None) => {},
            Ok(Some(event)) => {
                assert(seq![Ok::<EventView, ErrorView>(event)] + none =~= seq![
                    Ok::<EventView, ErrorView>(event),
                ]);
            },
            Err(error) => {
                assert(seq![Err::<EventView, ErrorView>(error)] + none =~= seq![
                    Err::<EventView, ErrorView>(error),
                ]);
            },
        }
    }
}

/// Reads one line, without its newline, in `section`, and says which section it leaves.
fn read<'a>(classifier: Classifier, section: Section, line: &'a [u8]) -> (read: (
    Result<Option<Event<'a>>, Error>,
    Section,
))
    ensures
        next_result(read.0) == line_result(line@, section),
        read.1 == section_after(line@, section),
{
    let len = line.len();
    if len == 0 || line[0] == HASH {
        return (Ok(None), section);
    }
    let result = match classifier.classify(line, section) {
        Ok(event) => Ok(Some(event)),
        Err(error) => Err(error),
    };
    if len >= 2 && (line[0] == UPPER_C || line[0] == LOWER_C) && line[1] == SPACE {
        (result, Section::Classes)
    } else {
        (result, section)
    }
}

/// Takes the lines of a stream one at a time, for a caller that reads them itself. It keeps
/// the section from line to line.
pub struct LineReader {
    /// The section that the next line is read in.
    pub section: Section,
    /// The way in which lines are classified.
    pub classifier: Classifier,
}

impl LineReader {
    /// A reader at the start of a stream, in the device section. It classifies lines by
    /// their window.
    pub fn new() -> (lines: LineReader)
        ensures
            lines.section == Section::Devices,
            lines.classifier == Classifier::Window,
    {
        LineReader { section: Section::Devices, classifier: Classifier::Window }
    }

    /// Reads one line, without its newline. A blank line or a comment gives `Ok(None)`; any
    /// other line gives its record, or the error that rejects it. A line with the class
    /// marker moves the reader to the class section.
    pub fn read_line<'a>(&mut self, line: &'a [u8]) -> (result: Result<Option<Event<'a>>, Error>)
        ensures
            next_result(result) == line_result(line@, old(self).section),
            final(self).section == section_after(line@, old(self).section),
            final(self).classifier == old(self).classifier,
    {
        let (result, section) = read(self.classifier, self.section, line);
        self.section = section;
        result
    }
}

/// Walks a byte stream line by line and gives its records in turn.
pub struct Parser<'a> {
    /// The bytes that have not been read yet.
    pub reader: &'a [u8],
    /// The section that the next line is read in.
    pub section: Section,
    /// The way in which lines are classified.
    pub classifier: Classifier,
}

impl<'a> View for Parser<'a> {
    type V = Seq<Item>;

    /// What the reads that are still to come will give.
    open spec fn view(&self) -> Seq<Item> {
        event_stream(self.remaining(), self.section)
    }
}

/// Finds the end of the first line of `text`.
fn line_end(text: &[u8]) -> (end: usize)
    ensures
        end == newline_from(text@, 0),
        end <= text@.len(),
{
    let mut at: usize = 0;
    while at < text.len() && text[at] != NEWLINE
        invariant
            at <= text@.len(),
            newline_from(text@, at as int) == newline_from(text@, 0),
        decreases text.len() - at,
    {
        at += 1;
    }
    at
}

impl<'a> Parser<'a> {
    /// The bytes that have not been read yet.
    pub open spec fn remaining(&self) -> Seq<u8> {
        self.reader@
    }

    /// A parser at the start of `reader`, in the device section. It classifies lines by
    /// their window.
    pub fn new(reader: &'a [u8]) -> (parser: Self)
        ensures
            parser.reader == reader,
            parser.section == Section::Devices,
            parser.classifier == Classifier::Window,
    {
        Parser { reader, section: Section::Devices, classifier: Classifier::Window }
    }

    /// A parser at the start of `reader`, in the device section, that classifies lines in
    /// the given way.
    pub fn with_classifier(reader: &'a [u8], classifier: Classifier) -> (parser: Self)
        ensures
            parser.reader == reader,
            parser.section == Section::Devices,
            parser.classifier == classifier,
    {
        Parser { reader, section: Section::Devices, classifier }
    }

    /// Reads on to the next record. Blank lines and comments are passed over. `Ok(None)`
    /// means that the bytes have come to their end; an error means that the first line that
    /// should give a record is malformed. Either way the lines that were looked at are
    /// consumed, and a line with the class marker has moved the parser to the class section.
    pub fn next_event(&mut self) -> (result: Result<Option<Event<'a>>, Error>)
        ensures
            next_result(result) == next_step(old(self).remaining(), old(self).section).result,
            final(self).remaining() == next_step(old(self).remaining(), old(self).section).rest,
            final(self).section == next_step(old(self).remaining(), old(self).section).section,
            final(self).classifier == old(self).classifier,
            reads(old(self)@, item_of(next_result(result)), final(self)@),
    {
        proof {
            lemma_step_of_stream(self.remaining(), self.section);
        }
        loop
            invariant
                next_step(self.remaining(), self.section) == next_step(
                    old(self).remaining(),
                    old(self).section,
                ),
                self.classifier == old(self).classifier,
                reads(
                    old(self)@,
                    item_of(next_step(old(self).remaining(), old(self).section).result),
                    event_stream(
                        next_step(old(self).remaining(), old(self).section).rest,
                        next_step(old(self).remaining(), old(self).section).section,
                    ),
                ),
            decreases self.reader@.len(),
        {
            let text: &'a [u8] = self.reader;
            let len = text.len();
            if len == 0 {
                return Ok(None);
            }
            let end = line_end(text);
            let line = &text[0..end];
            if end < len {
                self.reader = &text[end + 1..len];
            } else {
                self.reader = &text[len..len];
            }
            assert(line@ == first_line(text@));
            assert(self.reader@ =~= after_first_line(text@));
            let (result, section) = read(self.classifier, self.section, line);
            match result {
                Ok(None) => {},
                _ => {
                    self.section = section;
                    return result;
                },
            }
        }
    }
}

} // verus!
