//! The nine relative anchor positions inside a matched region's bounding
//! box, and the fractional offsets each one stands for.

use vstd::prelude::*;

verus! {

/// One of nine positions on a 3x3 grid over a matched region: the point a
/// click or a cursor move is aimed at, relative to the region's bounding box.
#[derive(Clone, Copy, Debug, PartialEq, Eq, Structural)]
pub enum ClickPoint {
    TopLeft,
    TopMiddle,
    TopRight,
    CenterLeft,
    CenterMiddle,
    CenterRight,
    BottomLeft,
    BottomMiddle,
    BottomRight,
}

impl ClickPoint {
    /// The fractional offsets of this anchor into the matched region,
    /// counted in halves: 0, 1 and 2 stand for 0, 1/2 and 1 of the region's
    /// width (first component) and height (second component).
    pub open spec fn mults_spec(self) -> (u8, u8) {
        match self {
            ClickPoint::TopLeft => (0, 0),
            ClickPoint::TopMiddle => (1, 0),
            ClickPoint::TopRight => (2, 0),
            ClickPoint::CenterLeft => (0, 1),
            ClickPoint::CenterMiddle => (1, 1),
            ClickPoint::CenterRight => (2, 1),
            ClickPoint::BottomLeft => (0, 2),
            ClickPoint::BottomMiddle => (1, 2),
            ClickPoint::BottomRight => (2, 2),
        }
    }

    /// Offset multipliers of this anchor, in halves of the matched template's
    /// width and height; each component is 0, 1 or 2.
    pub fn to_mults(&self) -> (r: (u8, u8))
        ensures
            r == self.mults_spec(),
            r.0 <= 2 && r.1 <= 2,
    {
        match self {
            ClickPoint::TopLeft => (0, 0),
            ClickPoint::TopMiddle => (1, 0),
            ClickPoint::TopRight => (2, 0),
            ClickPoint::CenterLeft => (0, 1),
            ClickPoint::CenterMiddle => (1, 1),
            ClickPoint::CenterRight => (2, 1),
            ClickPoint::BottomLeft => (0, 2),
            ClickPoint::BottomMiddle => (1, 2),
            ClickPoint::BottomRight => (2, 2),
        }
    }

    /// The fixed order in which repeated clicks in the editor cycle through
    /// the nine anchors. The order is an irregular permutation that callers
    /// observe and depend on; it is kept exactly as it is.
    pub open spec fn next_spec(self) -> ClickPoint {
        match self {
            ClickPoint::TopLeft => ClickPoint::TopMiddle,
            ClickPoint::TopMiddle => ClickPoint::TopRight,
            ClickPoint::TopRight => ClickPoint::CenterRight,
            ClickPoint::CenterLeft => ClickPoint::CenterMiddle,
            ClickPoint::CenterMiddle => ClickPoint::TopLeft,
            ClickPoint::CenterRight => ClickPoint::BottomRight,
            ClickPoint::BottomLeft => ClickPoint::CenterLeft,
            ClickPoint::BottomMiddle => ClickPoint::BottomLeft,
            ClickPoint::BottomRight => ClickPoint::BottomMiddle,
        }
    }

    /// The anchor that follows this one in the editor's cycling order.
    pub fn next(&self) -> (r: ClickPoint)
        ensures
            r == self.next_spec(),
    {
        match self {
            ClickPoint::TopLeft => ClickPoint::TopMiddle,
            ClickPoint::TopMiddle => ClickPoint::TopRight,
            ClickPoint::TopRight => ClickPoint::CenterRight,
            ClickPoint::CenterLeft => ClickPoint::CenterMiddle,
            ClickPoint::CenterMiddle => ClickPoint::TopLeft,
            ClickPoint::CenterRight => ClickPoint::BottomRight,
            ClickPoint::BottomLeft => ClickPoint::CenterLeft,
            ClickPoint::BottomMiddle => ClickPoint::BottomLeft,
            ClickPoint::BottomRight => ClickPoint::BottomMiddle,
        }
    }
}

impl ClickPoint {
    /// The stable wire tag of this anchor.
    pub open spec fn tag_spec(self) -> u64 {
        match self {
            ClickPoint::TopLeft => 0,
            ClickPoint::TopMiddle => 1,
            ClickPoint::TopRight => 2,
            ClickPoint::CenterLeft => 3,
            ClickPoint::CenterMiddle => 4,
            ClickPoint::CenterRight => 5,
            ClickPoint::BottomLeft => 6,
            ClickPoint::BottomMiddle => 7,
            ClickPoint::BottomRight => 8,
        }
    }

    /// The anchor a wire tag names, if any.
    pub open spec fn from_tag_spec(t: u64) -> Option<ClickPoint> {
        if t == 0 {
            Some(ClickPoint::TopLeft)
        } else if t == 1 {
            Some(ClickPoint::TopMiddle)
        } else if t == 2 {
            Some(ClickPoint::TopRight)
        } else if t == 3 {
            Some(ClickPoint::CenterLeft)
        } else if t == 4 {
            Some(ClickPoint::CenterMiddle)
        } else if t == 5 {
            Some(ClickPoint::CenterRight)
        } else if t == 6 {
            Some(ClickPoint::BottomLeft)
        } else if t == 7 {
            Some(ClickPoint::BottomMiddle)
        } else if t == 8 {
            Some(ClickPoint::BottomRight)
        } else {
            None
        }
    }

    pub fn tag(&self) -> (r: u64)
        ensures
            r == self.tag_spec(),
            r <= 8,
    {
        match self {
            ClickPoint::TopLeft => 0,
            ClickPoint::TopMiddle => 1,
            ClickPoint::TopRight => 2,
            ClickPoint::CenterLeft => 3,
            ClickPoint::CenterMiddle => 4,
            ClickPoint::CenterRight => 5,
            ClickPoint::BottomLeft => 6,
            ClickPoint::BottomMiddle => 7,
            ClickPoint::BottomRight => 8,
        }
    }

    pub fn from_tag(t: u64) -> (r: Option<ClickPoint>)
        ensures
            r == Self::from_tag_spec(t),
    {
        match t {
            0 => Some(ClickPoint::TopLeft),
            1 => Some(ClickPoint::TopMiddle),
            2 => Some(ClickPoint::TopRight),
            3 => Some(ClickPoint::CenterLeft),
            4 => Some(ClickPoint::CenterMiddle),
            5 => Some(ClickPoint::CenterRight),
            6 => Some(ClickPoint::BottomLeft),
            7 => Some(ClickPoint::BottomMiddle),
            8 => Some(ClickPoint::BottomRight),
            _ => None,
        }
    }
}

/// Every anchor tag reads back as the anchor it was written for.
pub broadcast proof fn lemma_anchor_tag_round_trip(p: ClickPoint)
    ensures
        ClickPoint::from_tag_spec(#[trigger] p.tag_spec()) == Some(p),
{
}

impl Default for ClickPoint {
    /// The editor starts a new image step anchored at the region's center.
    fn default() -> (r: Self)
        ensures
            r == ClickPoint::CenterMiddle,
    {
        ClickPoint::CenterMiddle
    }
}

} // verus!
