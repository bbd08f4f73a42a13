//! Classification of one line by its first sixteen bytes, compared lane by lane with fixed
//! patterns.

use crate::error::{Error, ErrorView};
use crate::event::{event_result, Event, EventView, Section};
use crate::hex::is_hex_digit;
use crate::line::{
    classify, classify_line, decode_name, field_ids, first_delimiter, is_delimiter_at,
    lemma_delimiter_from, line_shape, make_event, parse_ids, record, Shape, LOWER_C, SPACE, TAB,
    UPPER_C,
};
use vstd::prelude::*;
use vstd::utf8::{decode_utf8, valid_utf8};
use wide::u8x16;

verus! {

/// What a vendor line looks like: two spaces after four bytes.
pub const VENDOR_NEEDLE: [u8; 16] = [0, 0, 0, 0, SPACE, SPACE, 0, 0, 0, 0, 0, 0, 0, 0, 0, 0];

pub const VENDOR_MASK: u32 = 0x0030;

/// A device line: a tab, four bytes, two spaces.
pub const DEVICE_NEEDLE: [u8; 16] = [TAB, 0, 0, 0, 0, SPACE, SPACE, 0, 0, 0, 0, 0, 0, 0, 0, 0];

pub const DEVICE_MASK: u32 = 0x0061;

/// A subdevice line: two tabs, four bytes, a space, four bytes, two spaces.
pub const SUBDEVICE_NEEDLE: [u8; 16] = [
    TAB,
    TAB,
    0,
    0,
    0,
    0,
    SPACE,
    0,
    0,
    0,
    0,
    SPACE,
    SPACE,
    0,
    0,
    0,
];

pub const SUBDEVICE_MASK: u32 = 0x1843;

/// A class line: the class marker, two bytes, two spaces.
pub const CLASS_NEEDLE: [u8; 16] = [
    UPPER_C,
    SPACE,
    0,
    0,
    SPACE,
    SPACE,
    0,
    0,
    0,
    0,
    0,
    0,
    0,
    0,
    0,
    0,
];

/// A class line whose marker is in lower case.
pub const CLASS_LOWER_NEEDLE: [u8; 16] = [
    LOWER_C,
    SPACE,
    0,
    0,
    SPACE,
    SPACE,
    0,
    0,
    0,
    0,
    0,
    0,
    0,
    0,
    0,
    0,
];

pub const CLASS_MASK: u32 = 0x0033;

/// A subclass line: a tab, two bytes, two spaces.
pub const SUBCLASS_NEEDLE: [u8; 16] = [TAB, 0, 0, SPACE, SPACE, 0, 0, 0, 0, 0, 0, 0, 0, 0, 0, 0];

pub const SUBCLASS_MASK: u32 = 0x0019;

/// A programming interface line: two tabs, two bytes, two spaces.
pub const PROG_IF_NEEDLE: [u8; 16] = [TAB, TAB, 0, 0, SPACE, SPACE, 0, 0, 0, 0, 0, 0, 0, 0, 0, 0];

pub const PROG_IF_MASK: u32 = 0x0033;

/// Whether `mask` has the bit of lane `lane` set. Lane 0 is the lowest bit.
pub open spec fn lane_bit(mask: u32, lane: int) -> bool {
    (mask >> (lane as u32)) & 1 == 1
}

/// The first sixteen bytes of `line`, with zeros after the end of a shorter line.
pub open spec fn window(line: Seq<u8>) -> Seq<u8> {
    Seq::new(
        16,
        |i: int|
            if i < line.len() {
                line[i]
            } else {
                0u8
            },
    )
}

/// Whether `window` agrees with `needle` in every lane that `care` selects.
pub open spec fn lanes_match(window: Seq<u8>, needle: Seq<u8>, care: u32) -> bool {
    forall|lane: int|
        0 <= lane < 16 && #[trigger] lane_bit(care, lane) ==> window[lane] == needle[lane]
}

/// The kind of a line as its window shows it. The patterns are tried in a fixed order and
/// the first that matches decides.
pub open spec fn window_shape(line: Seq<u8>, section: Section) -> Option<Shape> {
    let w = window(line);
    if lanes_match(w, CLASS_NEEDLE@, CLASS_MASK) || lanes_match(
        w,
        CLASS_LOWER_NEEDLE@,
        CLASS_MASK,
    ) {
        Some(Shape::Class)
    } else {
        match section {
            Section::Devices => if lanes_match(w, DEVICE_NEEDLE@, DEVICE_MASK) {
                Some(Shape::Device)
            } else if lanes_match(w, VENDOR_NEEDLE@, VENDOR_MASK) {
                Some(Shape::Vendor)
            } else if lanes_match(w, SUBDEVICE_NEEDLE@, SUBDEVICE_MASK) {
                Some(Shape::Subdevice)
            } else {
                None
            },
            Section::Classes => if lanes_match(w, SUBCLASS_NEEDLE@, SUBCLASS_MASK) {
                Some(Shape::SubClass)
            } else if lanes_match(w, PROG_IF_NEEDLE@, PROG_IF_MASK) {
                Some(Shape::ProgIf)
            } else {
                None
            },
        }
    }
}

/// The record that the window path reads from a line: the kind by [`window_shape`], the id
/// field and the name at the places that the kind fixes. `None` where no pattern matches,
/// the id field is malformed or the name is not valid UTF-8.
pub open spec fn window_classify(line: Seq<u8>, section: Section) -> Option<EventView> {
    match window_shape(line, section) {
        None => None,
        Some(shape) => {
            let start = shape.spec_payload_start();
            let end = start + shape.spec_token_width();
            let token = line.subrange(start, end);
            let text = line.skip(end + 2);
            match field_ids(shape, token) {
                None => None,
                Some(ids) => if valid_utf8(text) {
                    Some(record(shape, ids, decode_utf8(text)))
                } else {
                    None
                },
            }
        },
    }
}

/// The value of an optional record.
pub open spec fn optional_event(event: Option<Event<'_>>) -> Option<EventView> {
    match event {
        Some(event) => Some(event@),
        None => None,
    }
}

/// The bits of a mask, each by division.
proof fn lemma_lane_bits(mask: u32)
    ensures
        lane_bit(mask, 0) == (mask % 2 == 1),
        lane_bit(mask, 1) == ((mask / 0x2) % 2 == 1),
        lane_bit(mask, 2) == ((mask / 0x4) % 2 == 1),
        lane_bit(mask, 3) == ((mask / 0x8) % 2 == 1),
        lane_bit(mask, 4) == ((mask / 0x10) % 2 == 1),
        lane_bit(mask, 5) == ((mask / 0x20) % 2 == 1),
        lane_bit(mask, 6) == ((mask / 0x40) % 2 == 1),
        lane_bit(mask, 7) == ((mask / 0x80) % 2 == 1),
        lane_bit(mask, 8) == ((mask / 0x100) % 2 == 1),
        lane_bit(mask, 9) == ((mask / 0x200) % 2 == 1),
        lane_bit(mask, 10) == ((mask / 0x400) % 2 == 1),
        lane_bit(mask, 11) == ((mask / 0x800) % 2 == 1),
        lane_bit(mask, 12) == ((mask / 0x1000) % 2 == 1),
        lane_bit(mask, 13) == ((mask / 0x2000) % 2 == 1),
        lane_bit(mask, 14) == ((mask / 0x4000) % 2 == 1),
        lane_bit(mask, 15) == ((mask / 0x8000) % 2 == 1),
{
    assert({
        &&& ((mask >> 0u32) & 1 == 1) == (mask % 2 == 1)
        &&& ((mask >> 1u32) & 1 == 1) == ((mask / 0x2) % 2 == 1)
        &&& ((mask >> 2u32) & 1 == 1) == ((mask / 0x4) % 2 == 1)
        &&& ((mask >> 3u32) & 1 == 1) == ((mask / 0x8) % 2 == 1)
        &&& ((mask >> 4u32) & 1 == 1) == ((mask / 0x10) % 2 == 1)
        &&& ((mask >> 5u32) & 1 == 1) == ((mask / 0x20) % 2 == 1)
        &&& ((mask >> 6u32) & 1 == 1) == ((mask / 0x40) % 2 == 1)
        &&& ((mask >> 7u32) & 1 == 1) == ((mask / 0x80) % 2 == 1)
        &&& ((mask >> 8u32) & 1 == 1) == ((mask / 0x100) % 2 == 1)
        &&& ((mask >> 9u32) & 1 == 1) == ((mask / 0x200) % 2 == 1)
        &&& ((mask >> 10u32) & 1 == 1) == ((mask / 0x400) % 2 == 1)
        &&& ((mask >> 11u32) & 1 == 1) == ((mask / 0x800) % 2 == 1)
        &&& ((mask >> 12u32) & 1 == 1) == ((mask / 0x1000) % 2 == 1)
        &&& ((mask >> 13u32) & 1 == 1) == ((mask / 0x2000) % 2 == 1)
        &&& ((mask >> 14u32) & 1 == 1) == ((mask / 0x4000) % 2 == 1)
        &&& ((mask >> 15u32) & 1 == 1) == ((mask / 0x8000) % 2 == 1)
    }) by (bit_vector);
}

/// A mask covers another exactly when it has every bit of the other.
proof fn lemma_covers(mask: u32, care: u32)
    requires
        mask < 0x10000,
        care < 0x10000,
    ensures
        (mask & care == care) <==> (forall|lane: int|
            0 <= lane < 16 && lane_bit(care, lane) ==> lane_bit(mask, lane)),
{
    assert(mask < 0x10000 && care < 0x10000 ==> ((mask & care == care) <==> {
        &&& ((care >> 0u32) & 1 == 1 ==> (mask >> 0u32) & 1 == 1)
        &&& ((care >> 1u32) & 1 == 1 ==> (mask >> 1u32) & 1 == 1)
        &&& ((care >> 2u32) & 1 == 1 ==> (mask >> 2u32) & 1 == 1)
        &&& ((care >> 3u32) & 1 == 1 ==> (mask >> 3u32) & 1 == 1)
        &&& ((care >> 4u32) & 1 == 1 ==> (mask >> 4u32) & 1 == 1)
        &&& ((care >> 5u32) & 1 == 1 ==> (mask >> 5u32) & 1 == 1)
        &&& ((care >> 6u32) & 1 == 1 ==> (mask >> 6u32) & 1 == 1)
        &&& ((care >> 7u32) & 1 == 1 ==> (mask >> 7u32) & 1 == 1)
        &&& ((care >> 8u32) & 1 == 1 ==> (mask >> 8u32) & 1 == 1)
        &&& ((care >> 9u32) & 1 == 1 ==> (mask >> 9u32) & 1 == 1)
        &&& ((care >> 10u32) & 1 == 1 ==> (mask >> 10u32) & 1 == 1)
        &&& ((care >> 11u32) & 1 == 1 ==> (mask >> 11u32) & 1 == 1)
        &&& ((care >> 12u32) & 1 == 1 ==> (mask >> 12u32) & 1 == 1)
        &&& ((care >> 13u32) & 1 == 1 ==> (mask >> 13u32) & 1 == 1)
        &&& ((care >> 14u32) & 1 == 1 ==> (mask >> 14u32) & 1 == 1)
        &&& ((care >> 15u32) & 1 == 1 ==> (mask >> 15u32) & 1 == 1)
    })) by (bit_vector);
    if mask & care == care {
        assert forall|lane: int| 0 <= lane < 16 && lane_bit(care, lane) implies lane_bit(
            mask,
            lane,
        ) by {
            lemma_lane_cases(lane);
        }
    }
    if forall|lane: int| 0 <= lane < 16 && lane_bit(care, lane) ==> lane_bit(mask, lane) {
        assert(lane_bit(care, 0) ==> lane_bit(mask, 0));
        assert(lane_bit(care, 1) ==> lane_bit(mask, 1));
        assert(lane_bit(care, 2) ==> lane_bit(mask, 2));
        assert(lane_bit(care, 3) ==> lane_bit(mask, 3));
        assert(lane_bit(care, 4) ==> lane_bit(mask, 4));
        assert(lane_bit(care, 5) ==> lane_bit(mask, 5));
        assert(lane_bit(care, 6) ==> lane_bit(mask, 6));
        assert(lane_bit(care, 7) ==> lane_bit(mask, 7));
        assert(lane_bit(care, 8) ==> lane_bit(mask, 8));
        assert(lane_bit(care, 9) ==> lane_bit(mask, 9));
        assert(lane_bit(care, 10) ==> lane_bit(mask, 10));
        assert(lane_bit(care, 11) ==> lane_bit(mask, 11));
        assert(lane_bit(care, 12) ==> lane_bit(mask, 12));
        assert(lane_bit(care, 13) ==> lane_bit(mask, 13));
        assert(lane_bit(care, 14) ==> lane_bit(mask, 14));
        assert(lane_bit(care, 15) ==> lane_bit(mask, 15));
    }
}

/// A lane is one of sixteen.
proof fn lemma_lane_cases(lane: int)
    requires
        0 <= lane < 16,
    ensures
        lane == 0 || lane == 1 || lane == 2 || lane == 3 || lane == 4 || lane == 5 || lane == 6
            || lane == 7 || lane == 8 || lane == 9 || lane == 10 || lane == 11 || lane == 12
            || lane == 13 || lane == 14 || lane == 15,
{
}

/// Calls `wide::u8x16::cmp_eq` on the two arrays, each taken as a vector of sixteen lanes.
/// It gives a vector with every bit set in the lanes where the two hold the same byte, and
/// with zero in the other lanes.
#[verifier::external_body]
fn equal_lanes(left: &[u8; 16], right: &[u8; 16]) -> (lanes: [u8; 16])
    ensures
        forall|lane: int|
            0 <= lane < 16 ==> #[trigger] lanes@[lane] == (if left@[lane] == right@[lane] {
                0xffu8
            } else {
                0u8
            }),
{
    u8x16::new(*left).cmp_eq(u8x16::new(*right)).to_array()
}

/// Calls `wide::u8x16::move_mask` on the array, taken as a vector of sixteen lanes. It
/// collects the highest bit of each lane, that of lane 0 in the lowest bit of the mask, and
/// sets nothing above bit 15.
#[verifier::external_body]
fn high_bits(lanes: &[u8; 16]) -> (mask: u32)
    ensures
        mask < 0x10000,
        forall|lane: int| 0 <= lane < 16 ==> (#[trigger] lane_bit(mask, lane) <==> lanes@[lane] >= 0x80),
{
    u8x16::new(*lanes).move_mask() as u32
}

/// The mask of the lanes in which `window` and `needle` hold the same byte.
fn equality_mask(window: &[u8; 16], needle: &[u8; 16]) -> (mask: u32)
    ensures
        mask < 0x10000,
        forall|lane: int|
            0 <= lane < 16 ==> (#[trigger] lane_bit(mask, lane) <==> window@[lane]
                == needle@[lane]),
{
    let lanes = equal_lanes(window, needle);
    let mask = high_bits(&lanes);
    assert forall|lane: int| 0 <= lane < 16 implies (#[trigger] lane_bit(mask, lane) <==> window@[lane]
        == needle@[lane]) by {
        assert(lanes@[lane] == (if window@[lane] == needle@[lane] {
            0xffu8
        } else {
            0u8
        }));
    }
    mask
}

/// Copies the start of `line` into a window of sixteen bytes. A shorter line is followed by
/// zeros; nothing past its end is read.
pub fn window_of(line: &[u8]) -> (w: [u8; 16])
    ensures
        w@ == window(line@),
{
    let mut w: [u8; 16] = [0u8; 16];
    let mut i: usize = 0;
    while i < 16 && i < line.len()
        invariant
            i <= 16,
            forall|j: int|
                0 <= j < 16 ==> w@[j] == (if j < i && j < line@.len() {
                    line@[j]
                } else {
                    0u8
                }),
        decreases 16 - i,
    {
        w[i] = line[i];
        i += 1;
    }
    assert(w@ =~= window(line@));
    w
}

/// Whether `window` agrees with `needle` in the lanes that `care` selects. A mask that
/// selects a lane beyond the sixteenth matches nothing.
pub fn matches_pattern(window: &[u8; 16], needle: &[u8; 16], care: u32) -> (matched: bool)
    ensures
        matched == (care < 0x10000 && lanes_match(window@, needle@, care)),
{
    if care >= 0x10000 {
        return false;
    }
    let mask = equality_mask(window, needle);
    proof {
        lemma_covers(mask, care);
    }
    mask & care == care
}

/// Whether `line` has, at their fixed places, the bytes that every line of kind `shape`
/// has: the tabs or the class marker before the id field, the space between the two ids of
/// a subdevice, and the two spaces after the id field.
pub open spec fn has_layout(line: Seq<u8>, shape: Shape) -> bool {
    match shape {
        Shape::Vendor => line.len() >= 6 && line[4] == SPACE && line[5] == SPACE,
        Shape::Device => {
            &&& line.len() >= 7
            &&& line[0] == TAB
            &&& line[5] == SPACE
            &&& line[6] == SPACE
        },
        Shape::Subdevice => {
            &&& line.len() >= 13
            &&& line[0] == TAB
            &&& line[1] == TAB
            &&& line[6] == SPACE
            &&& line[11] == SPACE
            &&& line[12] == SPACE
        },
        Shape::Class => {
            &&& line.len() >= 6
            &&& (line[0] == UPPER_C || line[0] == LOWER_C)
            &&& line[1] == SPACE
            &&& line[4] == SPACE
            &&& line[5] == SPACE
        },
        Shape::SubClass => {
            &&& line.len() >= 5
            &&& line[0] == TAB
            &&& line[3] == SPACE
            &&& line[4] == SPACE
        },
        Shape::ProgIf => {
            &&& line.len() >= 6
            &&& line[0] == TAB
            &&& line[1] == TAB
            &&& line[4] == SPACE
            &&& line[5] == SPACE
        },
    }
}

/// A pattern matches the window of a line exactly when the line has the bytes of the needle
/// in the lanes that the mask selects, provided that none of those bytes is zero.
proof fn lemma_pattern(line: Seq<u8>, needle: Seq<u8>, care: u32)
    requires
        needle.len() == 16,
        forall|lane: int| 0 <= lane < 16 && #[trigger] lane_bit(care, lane) ==> needle[lane] != 0,
    ensures
        lanes_match(window(line), needle, care) <==> (forall|lane: int|
            0 <= lane < 16 && #[trigger] lane_bit(care, lane) ==> lane < line.len() && line[lane]
                == needle[lane]),
{
}

/// Each pattern matches exactly the lines with the layout of its kind.
pub proof fn lemma_patterns(line: Seq<u8>)
    ensures
        lanes_match(window(line), VENDOR_NEEDLE@, VENDOR_MASK) <==> has_layout(
            line,
            Shape::Vendor,
        ),
        lanes_match(window(line), DEVICE_NEEDLE@, DEVICE_MASK) <==> has_layout(
            line,
            Shape::Device,
        ),
        lanes_match(window(line), SUBDEVICE_NEEDLE@, SUBDEVICE_MASK) <==> has_layout(
            line,
            Shape::Subdevice,
        ),
        (lanes_match(window(line), CLASS_NEEDLE@, CLASS_MASK) || lanes_match(
            window(line),
            CLASS_LOWER_NEEDLE@,
            CLASS_MASK,
        )) <==> has_layout(line, Shape::Class),
        lanes_match(window(line), SUBCLASS_NEEDLE@, SUBCLASS_MASK) <==> has_layout(
            line,
            Shape::SubClass,
        ),
        lanes_match(window(line), PROG_IF_NEEDLE@, PROG_IF_MASK) <==> has_layout(
            line,
            Shape::ProgIf,
        ),
{
    lemma_vendor_pattern(line);
    lemma_device_pattern(line);
    lemma_subdevice_pattern(line);
    lemma_class_pattern(line);
    lemma_subclass_pattern(line);
    lemma_prog_if_pattern(line);
}

proof fn lemma_vendor_pattern(line: Seq<u8>)
    ensures
        lanes_match(window(line), VENDOR_NEEDLE@, VENDOR_MASK) <==> has_layout(
            line,
            Shape::Vendor,
        ),
{
    lemma_lane_bits(VENDOR_MASK);
    assert forall|lane: int| 0 <= lane < 16 implies (#[trigger] lane_bit(VENDOR_MASK, lane) <==> lane
        == 4 || lane == 5) by {
        lemma_lane_cases(lane);
    }
    lemma_pattern(line, VENDOR_NEEDLE@, VENDOR_MASK);
    if has_layout(line, Shape::Vendor) {
        assert(lanes_match(window(line), VENDOR_NEEDLE@, VENDOR_MASK));
    }
    if lanes_match(window(line), VENDOR_NEEDLE@, VENDOR_MASK) {
        assert(lane_bit(VENDOR_MASK, 4) && lane_bit(VENDOR_MASK, 5));
    }
}

proof fn lemma_device_pattern(line: Seq<u8>)
    ensures
        lanes_match(window(line), DEVICE_NEEDLE@, DEVICE_MASK) <==> has_layout(
            line,
            Shape::Device,
        ),
{
    lemma_lane_bits(DEVICE_MASK);
    assert forall|lane: int| 0 <= lane < 16 implies (#[trigger] lane_bit(DEVICE_MASK, lane) <==> lane
        == 0 || lane == 5 || lane == 6) by {
        lemma_lane_cases(lane);
    }
    lemma_pattern(line, DEVICE_NEEDLE@, DEVICE_MASK);
    if has_layout(line, Shape::Device) {
        assert(lanes_match(window(line), DEVICE_NEEDLE@, DEVICE_MASK));
    }
    if lanes_match(window(line), DEVICE_NEEDLE@, DEVICE_MASK) {
        assert(lane_bit(DEVICE_MASK, 0) && lane_bit(DEVICE_MASK, 5) && lane_bit(DEVICE_MASK, 6));
    }
}

proof fn lemma_subdevice_pattern(line: Seq<u8>)
    ensures
        lanes_match(window(line), SUBDEVICE_NEEDLE@, SUBDEVICE_MASK) <==> has_layout(
            line,
            Shape::Subdevice,
        ),
{
    lemma_lane_bits(SUBDEVICE_MASK);
    assert forall|lane: int| 0 <= lane < 16 implies (#[trigger] lane_bit(SUBDEVICE_MASK, lane)
        <==> lane == 0 || lane == 1 || lane == 6 || lane == 11 || lane == 12) by {
        lemma_lane_cases(lane);
    }
    lemma_pattern(line, SUBDEVICE_NEEDLE@, SUBDEVICE_MASK);
    if has_layout(line, Shape::Subdevice) {
        assert(lanes_match(window(line), SUBDEVICE_NEEDLE@, SUBDEVICE_MASK));
    }
    if lanes_match(window(line), SUBDEVICE_NEEDLE@, SUBDEVICE_MASK) {
        assert(lane_bit(SUBDEVICE_MASK, 0) && lane_bit(SUBDEVICE_MASK, 1));
        assert(lane_bit(SUBDEVICE_MASK, 6));
        assert(lane_bit(SUBDEVICE_MASK, 11) && lane_bit(SUBDEVICE_MASK, 12));
    }
}

proof fn lemma_class_pattern(line: Seq<u8>)
    ensures
        (lanes_match(window(line), CLASS_NEEDLE@, CLASS_MASK) || lanes_match(
            window(line),
            CLASS_LOWER_NEEDLE@,
            CLASS_MASK,
        )) <==> has_layout(line, Shape::Class),
{
    lemma_lane_bits(CLASS_MASK);
    assert forall|lane: int| 0 <= lane < 16 implies (#[trigger] lane_bit(CLASS_MASK, lane) <==> lane
        == 0 || lane == 1 || lane == 4 || lane == 5) by {
        lemma_lane_cases(lane);
    }
    lemma_pattern(line, CLASS_NEEDLE@, CLASS_MASK);
    lemma_pattern(line, CLASS_LOWER_NEEDLE@, CLASS_MASK);
    if has_layout(line, Shape::Class) {
        if line[0] == UPPER_C {
            assert(lanes_match(window(line), CLASS_NEEDLE@, CLASS_MASK));
        } else {
            assert(lanes_match(window(line), CLASS_LOWER_NEEDLE@, CLASS_MASK));
        }
    }
    if lanes_match(window(line), CLASS_NEEDLE@, CLASS_MASK) || lanes_match(
        window(line),
        CLASS_LOWER_NEEDLE@,
        CLASS_MASK,
    ) {
        assert(lane_bit(CLASS_MASK, 0) && lane_bit(CLASS_MASK, 1));
        assert(lane_bit(CLASS_MASK, 4) && lane_bit(CLASS_MASK, 5));
    }
}

proof fn lemma_subclass_pattern(line: Seq<u8>)
    ensures
        lanes_match(window(line), SUBCLASS_NEEDLE@, SUBCLASS_MASK) <==> has_layout(
            line,
            Shape::SubClass,
        ),
{
    lemma_lane_bits(SUBCLASS_MASK);
    assert forall|lane: int| 0 <= lane < 16 implies (#[trigger] lane_bit(SUBCLASS_MASK, lane)
        <==> lane == 0 || lane == 3 || lane == 4) by {
        lemma_lane_cases(lane);
    }
    lemma_pattern(line, SUBCLASS_NEEDLE@, SUBCLASS_MASK);
    if has_layout(line, Shape::SubClass) {
        assert(lanes_match(window(line), SUBCLASS_NEEDLE@, SUBCLASS_MASK));
    }
    if lanes_match(window(line), SUBCLASS_NEEDLE@, SUBCLASS_MASK) {
        assert(lane_bit(SUBCLASS_MASK, 0) && lane_bit(SUBCLASS_MASK, 3) && lane_bit(
            SUBCLASS_MASK,
            4,
        ));
    }
}

proof fn lemma_prog_if_pattern(line: Seq<u8>)
    ensures
        lanes_match(window(line), PROG_IF_NEEDLE@, PROG_IF_MASK) <==> has_layout(
            line,
            Shape::ProgIf,
        ),
{
    lemma_lane_bits(PROG_IF_MASK);
    assert forall|lane: int| 0 <= lane < 16 implies (#[trigger] lane_bit(PROG_IF_MASK, lane) <==> lane
        == 0 || lane == 1 || lane == 4 || lane == 5) by {
        lemma_lane_cases(lane);
    }
    lemma_pattern(line, PROG_IF_NEEDLE@, PROG_IF_MASK);
    if has_layout(line, Shape::ProgIf) {
        assert(lanes_match(window(line), PROG_IF_NEEDLE@, PROG_IF_MASK));
    }
    if lanes_match(window(line), PROG_IF_NEEDLE@, PROG_IF_MASK) {
        assert(lane_bit(PROG_IF_MASK, 0) && lane_bit(PROG_IF_MASK, 1));
        assert(lane_bit(PROG_IF_MASK, 4) && lane_bit(PROG_IF_MASK, 5));
    }
}

/// An id field that can be read has the width of its kind and holds no tab, and no space
/// but the one between the two ids of a subdevice.
proof fn lemma_id_field_bytes(shape: Shape, token: Seq<u8>)
    requires
        field_ids(shape, token) is Some,
    ensures
        token.len() == shape.spec_token_width(),
        forall|i: int|
            0 <= i < token.len() ==> #[trigger] token[i] != TAB && (token[i] == SPACE ==> shape
                == Shape::Subdevice && i == 4),
        shape == Shape::Subdevice ==> token[4] == SPACE,
{
    if shape == Shape::Subdevice {
        let front = token.subrange(0, 4);
        let back = token.subrange(5, 9);
        assert forall|i: int| 0 <= i < token.len() implies #[trigger] token[i] != TAB && (token[i]
            == SPACE ==> i == 4) by {
            if i < 4 {
                assert(is_hex_digit(front[i]));
            } else if i > 4 {
                assert(is_hex_digit(back[i - 5]));
            }
        }
    }
}

/// The window path and the scan read the same record from every line that either of them
/// can read: where one gives a record the other gives that record too. On such a line they
/// see the same kind and the same fields: the delimiter that the scan finds stands where
/// the pattern of the kind has it.
pub proof fn lemma_window_agrees_with_scan(line: Seq<u8>, section: Section)
    ensures
        window_classify(line, section) matches Some(event) ==> classify(line, section) == Ok::<
            EventView,
            ErrorView,
        >(event),
        classify(line, section) matches Ok(event) ==> window_classify(line, section) == Some(
            event,
        ),
        classify(line, section) is Ok ==> {
            &&& window_shape(line, section) == line_shape(line, section)
            &&& line_shape(line, section) matches Some(shape) && first_delimiter(
                line.skip(shape.spec_payload_start()),
            ) == Some(shape.spec_token_width())
        },
{
    lemma_patterns(line);
    if window_classify(line, section) is Some {
        let shape = window_shape(line, section).unwrap();
        let start = shape.spec_payload_start();
        let width = shape.spec_token_width();
        let token = line.subrange(start, start + width);
        lemma_id_field_bytes(shape, token);
        assert(has_layout(line, shape));
        assert forall|k: int| start <= k < start + width implies #[trigger] line[k] != TAB && (
        line[k] == SPACE ==> shape == Shape::Subdevice && k == start + 4) by {
            assert(token[k - start] == line[k]);
        }
        assert(line[start] != TAB && line[start] != SPACE);
        assert(line[start + 1] != SPACE);
        assert(line_shape(line, section) == Some(shape));
        let payload = line.skip(start);
        lemma_delimiter_from(payload, 0);
        assert(is_delimiter_at(payload, width));
        assert forall|i: int| 0 <= i < width implies !is_delimiter_at(payload, i) by {
            let k = start + i;
            assert(payload[i] == line[k]);
            assert(payload[i + 1] == line[k + 1]);
            if i + 1 < width {
                assert(line[k + 1] != TAB);
            }
        }
        assert(first_delimiter(payload) == Some(width));
        assert(payload.take(width) =~= token);
        assert(payload.skip(width + 2) =~= line.skip(start + width + 2));
    }
    if classify(line, section) is Ok {
        let shape = line_shape(line, section).unwrap();
        let start = shape.spec_payload_start();
        let width = shape.spec_token_width();
        let payload = line.skip(start);
        lemma_delimiter_from(payload, 0);
        let delimiter = first_delimiter(payload).unwrap();
        let token = payload.take(delimiter);
        lemma_id_field_bytes(shape, token);
        assert(delimiter == width);
        assert(payload[width] == line[start + width]);
        assert(payload[width + 1] == line[start + width + 1]);
        assert forall|k: int| start <= k < start + width implies #[trigger] line[k] != TAB && (
        line[k] == SPACE ==> shape == Shape::Subdevice && k == start + 4) by {
            assert(token[k - start] == line[k]);
        }
        if shape == Shape::Subdevice {
            assert(line[start + 4] == SPACE) by {
                assert(token[4] == line[start + 4]);
            }
            assert(line[start + 2] != SPACE && line[start + 3] != SPACE);
        }
        if shape == Shape::ProgIf {
            assert(line[start + 1] != SPACE);
        }
        assert(has_layout(line, shape));
        assert(window_shape(line, section) == Some(shape));
        assert(line.subrange(start, start + width) =~= token);
        assert(payload.skip(width + 2) =~= line.skip(start + width + 2));
    }
}

/// The kind of `line` as its window shows it.
pub fn window_shape_of(line: &[u8], section: Section) -> (shape: Option<Shape>)
    ensures
        shape == window_shape(line@, section),
        shape matches Some(found) ==> has_layout(line@, found),
{
    let w = window_of(line);
    proof {
        lemma_patterns(line@);
    }
    if matches_pattern(&w, &CLASS_NEEDLE, CLASS_MASK) || matches_pattern(
        &w,
        &CLASS_LOWER_NEEDLE,
        CLASS_MASK,
    ) {
        return Some(Shape::Class);
    }
    match section {
        Section::Devices => if matches_pattern(&w, &DEVICE_NEEDLE, DEVICE_MASK) {
            Some(Shape::Device)
        } else if matches_pattern(&w, &VENDOR_NEEDLE, VENDOR_MASK) {
            Some(Shape::Vendor)
        } else if matches_pattern(&w, &SUBDEVICE_NEEDLE, SUBDEVICE_MASK) {
            Some(Shape::Subdevice)
        } else {
            None
        },
        Section::Classes => if matches_pattern(&w, &SUBCLASS_NEEDLE, SUBCLASS_MASK) {
            Some(Shape::SubClass)
        } else if matches_pattern(&w, &PROG_IF_NEEDLE, PROG_IF_MASK) {
            Some(Shape::ProgIf)
        } else {
            None
        },
    }
}

/// Reads a record from `line` by its window alone: the patterns give the kind, and the kind
/// gives the places of the id field and of the name.
pub fn match_window<'a>(line: &'a [u8], section: Section) -> (event: Option<Event<'a>>)
    ensures
        optional_event(event) == window_classify(line@, section),
{
    let shape = match window_shape_of(line, section) {
        Some(shape) => shape,
        None => {
            return None;
        },
    };
    let start = shape.payload_start();
    let end = start + shape.token_width();
    let token = &line[start..end];
    let text = &line[end + 2..line.len()];
    assert(text@ == line@.skip(end + 2));
    let ids = match parse_ids(shape, token) {
        Some(ids) => ids,
        None => {
            return None;
        },
    };
    match decode_name(text) {
        Some(name) => Some(make_event(shape, ids, name)),
        None => None,
    }
}

/// Classifies one line, without its newline, by its window. A line that the window path
/// cannot read goes to the scan, which names what is wrong with it.
pub fn classify_line_fast<'a>(line: &'a [u8], section: Section) -> (result: Result<
    Event<'a>,
    Error,
>)
    ensures
        event_result(result) == classify(line@, section),
{
    proof {
        lemma_window_agrees_with_scan(line@, section);
    }
    match match_window(line, section) {
        Some(event) => Ok(event),
        None => classify_line(line, section),
    }
}

/// The two ways to classify a line. They give the same result on every line.
#[derive(Clone, Copy, Debug, PartialEq, Eq, Structural)]
pub enum Classifier {
    /// Compare the first sixteen bytes with fixed patterns.
    Window,
    /// Scan the line from its start.
    Scan,
}

impl Classifier {
    /// Classifies one line, without its newline, in the way that `self` names.
    pub fn classify<'a>(self, line: &'a [u8], section: Section) -> (result: Result<
        Event<'a>,
        Error,
    >)
        ensures
            event_result(result) == crate::line::classify(line@, section),
    {
        match self {
            Classifier::Window => classify_line_fast(line, section),
            Classifier::Scan => classify_line(line, section),
        }
    }
}

} // verus!
