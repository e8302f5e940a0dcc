use vstd::prelude::*;

use crate::text::{int_text, push_int, push_zeros, zeros};

verus! {

/// A point with whole-number coordinates.
#[derive(Debug, Clone, Copy, PartialEq, Eq, Structural)]
pub struct Point {
    pub x: i64,
    pub y: i64,
}

impl Point {
    pub fn new(x: i64, y: i64) -> (r: Point)
        ensures
            r.x == x,
            r.y == y,
    {
        Point { x, y }
    }
}

impl Default for Point {
    fn default() -> (r: Point)
        ensures
            r.x == 0,
            r.y == 0,
    {
        Point { x: 0, y: 0 }
    }
}

/// An axis-aligned rectangle given by two corners. Nothing forces
/// `bottom_right` to lie below and right of `top_left`: a negative width or
/// height can be represented.
#[derive(Debug, Clone, Copy, PartialEq, Eq, Structural)]
pub struct Rect {
    pub top_left: Point,
    pub bottom_right: Point,
}

/// A value fits in an `i64`.
pub open spec fn fits_i64(v: int) -> bool {
    i64::MIN <= v <= i64::MAX
}

impl Rect {
    pub open spec fn spec_width(&self) -> int {
        self.bottom_right.x - self.top_left.x
    }

    pub open spec fn spec_height(&self) -> int {
        self.bottom_right.y - self.top_left.y
    }

    /// Width and height can be computed without overflow.
    pub open spec fn dims_fit(&self) -> bool {
        fits_i64(self.spec_width()) && fits_i64(self.spec_height())
    }

    pub fn new(top_left: Point, bottom_right: Point) -> (r: Rect)
        ensures
            r.top_left == top_left,
            r.bottom_right == bottom_right,
    {
        Rect { top_left, bottom_right }
    }

    /// The rectangle with top-left corner `(x, y)` whose extent is
    /// `width` by `height`.
    pub fn from_size(x: i64, y: i64, width: i64, height: i64) -> (r: Rect)
        requires
            fits_i64(x + width),
            fits_i64(y + height),
        ensures
            r == spec_from_size(x, y, width, height),
    {
        let top_left = Point::new(x, y);
        let bottom_right = Point::new(x + width, y + height);
        Rect { top_left, bottom_right }
    }

    pub fn top(&self) -> (r: i64)
        ensures
            r == self.top_left.y,
    {
        self.top_left.y
    }

    pub fn left(&self) -> (r: i64)
        ensures
            r == self.top_left.x,
    {
        self.top_left.x
    }

    pub fn bottom(&self) -> (r: i64)
        ensures
            r == self.bottom_right.y,
    {
        self.bottom_right.y
    }

    pub fn right(&self) -> (r: i64)
        ensures
            r == self.bottom_right.x,
    {
        self.bottom_right.x
    }

    pub fn width(&self) -> (r: i64)
        requires
            fits_i64(self.spec_width()),
        ensures
            r == self.spec_width(),
    {
        self.right() - self.left()
    }

    pub fn height(&self) -> (r: i64)
        requires
            fits_i64(self.spec_height()),
        ensures
            r == self.spec_height(),
    {
        self.bottom() - self.top()
    }
}

impl Default for Rect {
    fn default() -> (r: Rect)
        ensures
            r.top_left == (Point { x: 0, y: 0 }),
            r.bottom_right == (Point { x: 0, y: 0 }),
    {
        Rect { top_left: Point::default(), bottom_right: Point::default() }
    }
}

/// The rectangle with top-left corner `(x, y)` and extent `width` by
/// `height`: the bottom-right corner is offset from the top-left by the
/// extent.
pub open spec fn spec_from_size(x: i64, y: i64, width: i64, height: i64) -> Rect {
    Rect {
        top_left: Point { x, y },
        bottom_right: Point { x: (x + width) as i64, y: (y + height) as i64 },
    }
}

/// A rectangle built by `from_size` reports back the same left, top, width
/// and height that it was built from.
pub proof fn lemma_from_size_dimensions(x: i64, y: i64, width: i64, height: i64)
    requires
        fits_i64(x + width),
        fits_i64(y + height),
    ensures
        ({
            let r = spec_from_size(x, y, width, height);
            &&& r.dims_fit()
            &&& r.top_left.x == x
            &&& r.top_left.y == y
            &&& r.spec_width() == width
            &&& r.spec_height() == height
        }),
{
}

/// A length unit; it only chooses the suffix printed after a magnitude.
#[derive(Debug, Clone, Copy, PartialEq, Eq, Structural)]
pub enum Unit {
    Em,
    Ex,
    Px,
    In,
    Cm,
    Mm,
    Pt,
    /// Percent.
    Pc,
    /// No unit.
    Raw,
}

pub open spec fn unit_suffix(u: Unit) -> Seq<char> {
    match u {
        Unit::Em => seq!['e', 'm'],
        Unit::Ex => seq!['e', 'x'],
        Unit::Px => seq!['p', 'x'],
        Unit::In => seq!['i', 'n'],
        Unit::Cm => seq!['c', 'm'],
        Unit::Mm => seq!['m', 'm'],
        Unit::Pt => seq!['p', 't'],
        Unit::Pc => seq!['%'],
        Unit::Raw => Seq::empty(),
    }
}

impl Unit {
    /// The suffix printed after a magnitude in this unit.
    pub fn suffix(&self) -> (r: &'static str)
        ensures
            r@ == unit_suffix(*self),
    {
        let r = match self {
            Unit::Em => "em",
            Unit::Ex => "ex",
            Unit::Px => "px",
            Unit::In => "in",
            Unit::Cm => "cm",
            Unit::Mm => "mm",
            Unit::Pt => "pt",
            Unit::Pc => "%",
            Unit::Raw => "",
        };
        proof {
            reveal_strlit("em");
            reveal_strlit("ex");
            reveal_strlit("px");
            reveal_strlit("in");
            reveal_strlit("cm");
            reveal_strlit("mm");
            reveal_strlit("pt");
            reveal_strlit("%");
            reveal_strlit("");
        }
        assert(r@ =~= unit_suffix(*self));
        r
    }
}

/// A magnitude with a unit.
#[derive(Debug, Clone, Copy, PartialEq, Eq, Structural)]
pub struct Length(pub i64, pub Unit);

/// Text of a length: the magnitude, then, where a precision `p > 0` is
/// asked for, a point and `p` zeros, then the unit's suffix.
pub open spec fn length_text(l: Length, precision: Option<nat>) -> Seq<char> {
    let fraction = match precision {
        Some(p) => if p > 0 {
            seq!['.'] + zeros(p)
        } else {
            Seq::empty()
        },
        None => Seq::empty(),
    };
    int_text(l.0 as int) + fraction + unit_suffix(l.1)
}

impl Default for Length {
    fn default() -> (r: Length)
        ensures
            r == Length(0, Unit::Raw),
    {
        Length(0, Unit::Raw)
    }
}

impl From<i64> for Length {
    fn from(value: i64) -> (r: Length) {
        Length(value, Unit::Raw)
    }
}

impl vstd::std_specs::convert::FromSpecImpl<i64> for Length {
    open spec fn obeys_from_spec() -> bool {
        true
    }

    open spec fn from_spec(v: i64) -> Length {
        Length(v, Unit::Raw)
    }
}

impl Length {
    /// Formats the length, with the magnitude fixed to `precision` decimal
    /// places where one is given.
    pub fn fmt(&self, precision: Option<usize>) -> (r: String)
        ensures
            r@ == length_text(*self, match precision {
                Some(p) => Some(p as nat),
                None => None,
            }),
    {
        let mut s = String::new();
        push_int(&mut s, self.0);
        match precision {
            Some(p) => {
                if p > 0 {
                    s.append(".");
                    proof {
                        reveal_strlit(".");
                    }
                    push_zeros(&mut s, p);
                }
            },
            None => {},
        }
        s.append(self.1.suffix());
        let ghost g = match precision {
            Some(p) => Some(p as nat),
            None => None,
        };
        assert(s@ =~= length_text(*self, g));
        s
    }

    /// The length with default formatting.
    pub fn to_string(&self) -> (r: String)
        ensures
            r@ == length_text(*self, None),
    {
        self.fmt(None)
    }

    /// The length with its magnitude fixed to `precision` decimal places.
    pub fn to_string_with_precision(&self, precision: usize) -> (r: String)
        ensures
            r@ == length_text(*self, Some(precision as nat)),
    {
        self.fmt(Some(precision))
    }
}

} // verus!
