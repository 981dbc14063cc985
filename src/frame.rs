//! Frames: the stored text form and the decoded pixel form.

use vstd::prelude::*;
use crate::text::{decimal, push_decimal};

verus! {

/// The pixels that `serde_json` decodes from a JSON text, if it is an array
/// of `u32`.
pub uninterp spec fn pixels_from_json(s: Seq<char>) -> Option<Seq<u32>>;

/// The compact JSON text that `serde_json` writes for a pixel array.
pub uninterp spec fn pixels_json(p: Seq<u32>) -> Seq<char>;

/// Relies on `serde_json::from_str::<Vec<u32>>`: decodes a JSON array of
/// `u32`, or fails.
#[verifier::external_body]
fn decode_pixels(s: &str) -> (r: Option<Vec<u32>>)
    ensures
        match r {
            Some(v) => pixels_from_json(s@) == Some(v@),
            None => pixels_from_json(s@) is None,
        },
{
    serde_json::from_str::<Vec<u32>>(s).ok()
}

/// Relies on `serde_json::to_string` on a `Vec<u32>`, which cannot fail on
/// such a value: writes the compact JSON array.
#[verifier::external_body]
fn encode_pixels(p: &Vec<u32>) -> (r: String)
    ensures
        r@ == pixels_json(p@),
{
    serde_json::to_string(p).unwrap_or_default()
}

/// `n` copies of `t`, separated by commas.
pub open spec fn repeated_text(t: Seq<char>, n: nat) -> Seq<char>
    decreases n,
{
    if n == 0 {
        Seq::empty()
    } else if n == 1 {
        t
    } else {
        repeated_text(t, (n - 1) as nat) + seq![','] + t
    }
}

/// The JSON array text of `n` copies of `color`.
pub open spec fn uniform_frame_text(color: u32, n: nat) -> Seq<char> {
    seq!['['] + repeated_text(decimal(color as nat), n) + seq![']']
}

/// The pixels that a stored frame text decodes to; an undecodable text gives
/// no pixels.
pub open spec fn decoded_pixels(s: Seq<char>) -> Seq<u32> {
    match pixels_from_json(s) {
        Some(p) => p,
        None => Seq::empty(),
    }
}

/// A frame as stored: its pixels are kept as JSON text.
#[derive(Debug, Clone)]
pub struct Frame {
    pub id: i32,
    pub parent_id: i64,
    pub frame_id: i64,
    pub data: String,
}

/// A frame with its pixels decoded: one packed `0x00RRGGBB` value per LED,
/// in strip order.
#[derive(Debug, Clone)]
pub struct DataFrame {
    pub id: i32,
    pub parent_id: i64,
    pub frame_id: i64,
    pub data: Vec<u32>,
}

impl Frame {
    /// An unsaved frame with no pixels.
    pub fn new() -> (r: Frame)
        ensures
            r.id == -1 && r.parent_id == -1 && r.frame_id == -1,
            r.data@ == seq!['[', ']'],
    {
        proof {
            reveal_strlit("[]");
        }
        Frame { id: -1, parent_id: -1, frame_id: -1, data: String::from_str("[]") }
    }

    /// An unsaved frame of `size` pixels, all of colour `color`.
    pub fn new_with_color(color: u32, size: usize) -> (r: Frame)
        ensures
            r.id == -1 && r.parent_id == -1 && r.frame_id == -1,
            r.data@ == uniform_frame_text(color, size as nat),
    {
        proof {
            reveal_strlit("[");
        }
        let ghost d = decimal(color as nat);
        let mut data = String::from_str("[");
        let mut i: usize = 0;
        while i < size
            invariant
                i <= size,
                d == decimal(color as nat),
                data@ == seq!['['] + repeated_text(d, i as nat),
            decreases size - i,
        {
            let ghost before = data@;
            if i > 0 {
                proof {
                    reveal_strlit(",");
                }
                data.append(",");
                assert(data@ == before + seq![',']);
            }
            push_decimal(&mut data, color);
            if i == 0 {
                assert(repeated_text(d, 1) == d);
                assert(data@ =~= seq!['['] + repeated_text(d, (i + 1) as nat));
            } else {
                assert(repeated_text(d, (i + 1) as nat) == repeated_text(d, i as nat) + seq![',']
                    + d);
                assert(data@ =~= seq!['['] + repeated_text(d, (i + 1) as nat));
            }
            i = i + 1;
        }
        proof {
            reveal_strlit("]");
        }
        data.append("]");
        Frame { id: -1, parent_id: -1, frame_id: -1, data }
    }

    /// The pixels held in the frame's text; a text that is not a JSON array
    /// of `u32` gives no pixels.
    pub fn data_out(&self) -> (r: Vec<u32>)
        ensures
            r@ == decoded_pixels(self.data@),
    {
        match decode_pixels(self.data.as_str()) {
            Some(v) => v,
            None => Vec::new(),
        }
    }

    /// The stored form of a decoded frame.
    pub fn from_data_frame(a: &DataFrame) -> (r: Frame)
        ensures
            r.id == a.id && r.parent_id == a.parent_id && r.frame_id == a.frame_id,
            r.data@ == pixels_json(a.data@),
    {
        Frame { id: a.id, parent_id: a.parent_id, frame_id: a.frame_id, data: encode_pixels(&a.data) }
    }
}

impl DataFrame {
    /// The decoded form of a stored frame.
    pub fn from_frame(a: &Frame) -> (r: DataFrame)
        ensures
            r.id == a.id && r.parent_id == a.parent_id && r.frame_id == a.frame_id,
            r.data@ == decoded_pixels(a.data@),
    {
        DataFrame { id: a.id, parent_id: a.parent_id, frame_id: a.frame_id, data: a.data_out() }
    }
}

/// A member of a JSON object, as far as a payload reader needs it.
#[derive(Debug, Clone)]
pub enum JsonField {
    /// The object has no such member.
    Missing,
    /// A number that fits in an `i64`.
    Integer(i64),
    /// A string.
    Text(String),
    /// Any other value.
    Other,
}

/// A member of a frame payload.
#[derive(Debug, Clone, Copy, PartialEq, Eq, Structural)]
pub enum FrameField {
    ParentId,
    FrameId,
    Data,
}

/// Why a frame payload was refused.
#[derive(Debug, Clone, Copy, PartialEq, Eq, Structural)]
pub enum FieldError {
    /// The member is absent.
    NotFound(FrameField),
    /// The member has the wrong type.
    WrongType(FrameField),
}

/// The integer held by a member, or why there is none.
pub open spec fn integer_member(f: JsonField, which: FrameField) -> Result<i64, FieldError> {
    match f {
        JsonField::Missing => Err(FieldError::NotFound(which)),
        JsonField::Integer(n) => Ok(n),
        _ => Err(FieldError::WrongType(which)),
    }
}

/// The string held by a member, or why there is none.
pub open spec fn text_member(f: JsonField, which: FrameField) -> Result<String, FieldError> {
    match f {
        JsonField::Missing => Err(FieldError::NotFound(which)),
        JsonField::Text(s) => Ok(s),
        _ => Err(FieldError::WrongType(which)),
    }
}

impl FrameField {
    /// The member's key in a payload.
    pub fn name(&self) -> (r: &'static str)
        ensures
            r@ == match *self {
                FrameField::ParentId => seq!['p', 'a', 'r', 'e', 'n', 't', '_', 'i', 'd'],
                FrameField::FrameId => seq!['f', 'r', 'a', 'm', 'e', '_', 'i', 'd'],
                FrameField::Data => seq!['d', 'a', 't', 'a'],
            },
    {
        proof {
            reveal_strlit("parent_id");
            reveal_strlit("frame_id");
            reveal_strlit("data");
        }
        match self {
            FrameField::ParentId => "parent_id",
            FrameField::FrameId => "frame_id",
            FrameField::Data => "data",
        }
    }
}

fn integer_of(f: JsonField, which: FrameField) -> (r: Result<i64, FieldError>)
    ensures
        r == integer_member(f, which),
{
    match f {
        JsonField::Missing => Err(FieldError::NotFound(which)),
        JsonField::Integer(n) => Ok(n),
        _ => Err(FieldError::WrongType(which)),
    }
}

fn text_of(f: JsonField, which: FrameField) -> (r: Result<String, FieldError>)
    ensures
        r == text_member(f, which),
{
    match f {
        JsonField::Missing => Err(FieldError::NotFound(which)),
        JsonField::Text(s) => Ok(s),
        _ => Err(FieldError::WrongType(which)),
    }
}

impl Frame {
    /// The unsaved frame that a payload's `parent_id`, `frame_id` and `data`
    /// members describe. The members are checked in that order, and the
    /// first that is absent or of the wrong type is reported.
    pub fn extract_from_dict(parent_id: JsonField, frame_id: JsonField, data: JsonField) -> (r: Result<Frame, FieldError>)
        ensures
            match (
                integer_member(parent_id, FrameField::ParentId),
                integer_member(frame_id, FrameField::FrameId),
                text_member(data, FrameField::Data),
            ) {
                (Err(e), _, _) => r == Err::<Frame, FieldError>(e),
                (Ok(_), Err(e), _) => r == Err::<Frame, FieldError>(e),
                (Ok(_), Ok(_), Err(e)) => r == Err::<Frame, FieldError>(e),
                (Ok(p), Ok(f), Ok(s)) => r == Ok::<Frame, FieldError>(
                    Frame { id: -1i32, parent_id: p, frame_id: f, data: s },
                ),
            },
    {
        let parent_id = match integer_of(parent_id, FrameField::ParentId) {
            Ok(v) => v,
            Err(e) => return Err(e),
        };
        let frame_id = match integer_of(frame_id, FrameField::FrameId) {
            Ok(v) => v,
            Err(e) => return Err(e),
        };
        let data = match text_of(data, FrameField::Data) {
            Ok(v) => v,
            Err(e) => return Err(e),
        };
        Ok(Frame { id: -1, parent_id, frame_id, data })
    }
}

} // verus!
