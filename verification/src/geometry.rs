//! Rectangles of character cells on the terminal.

use vstd::prelude::*;

verus! {

/// A rectangle of character cells: its top left corner, and its size.
#[derive(Clone, Copy, Debug, PartialEq, Eq, Structural)]
pub struct Rect {
    pub x: u16,
    pub y: u16,
    pub width: u16,
    pub height: u16,
}

impl Rect {
    /// The column just right of the rectangle.
    pub open spec fn right(self) -> int {
        self.x + self.width
    }

    /// The row just below the rectangle.
    pub open spec fn bottom(self) -> int {
        self.y + self.height
    }

    /// The rectangle ends within the coordinates that a `u16` can hold.
    pub open spec fn valid(self) -> bool {
        self.right() <= u16::MAX && self.bottom() <= u16::MAX
    }

    /// Whether the character cell in column `px` of row `py` lies in the
    /// rectangle.
    pub open spec fn covers(self, px: int, py: int) -> bool {
        self.x <= px < self.right() && self.y <= py < self.bottom()
    }

    /// Whether the rectangle covers no character cell.
    pub open spec fn is_empty(self) -> bool {
        self.width == 0 || self.height == 0
    }

    /// Whether every character cell of the rectangle lies in `outer`.
    pub open spec fn within(self, outer: Rect) -> bool {
        forall|px: int, py: int| self.covers(px, py) ==> outer.covers(px, py)
    }

    /// Whether the two rectangles share no character cell.
    pub open spec fn disjoint(self, other: Rect) -> bool {
        forall|px: int, py: int| !(self.covers(px, py) && other.covers(px, py))
    }

    /// The rectangle at (`x`, `y`) of the given size, cut short where it
    /// would reach beyond the last coordinate.
    pub open spec fn clamped(x: u16, y: u16, width: u16, height: u16) -> Rect {
        Rect {
            x,
            y,
            width: if x + width > u16::MAX {
                (u16::MAX - x) as u16
            } else {
                width
            },
            height: if y + height > u16::MAX {
                (u16::MAX - y) as u16
            } else {
                height
            },
        }
    }

    /// The character cells that lie in both rectangles. Where they share
    /// none, the result is empty.
    pub open spec fn common(self, other: Rect) -> Rect {
        let left = if self.x >= other.x {
            self.x
        } else {
            other.x
        };
        let top = if self.y >= other.y {
            self.y
        } else {
            other.y
        };
        let right = if self.right() <= other.right() {
            self.right()
        } else {
            other.right()
        };
        let bottom = if self.bottom() <= other.bottom() {
            self.bottom()
        } else {
            other.bottom()
        };
        Rect {
            x: left,
            y: top,
            width: if right >= left {
                (right - left) as u16
            } else {
                0
            },
            height: if bottom >= top {
                (bottom - top) as u16
            } else {
                0
            },
        }
    }

    /// A rectangle at (`x`, `y`). Its size is the given one, made smaller
    /// where the rectangle would otherwise reach beyond the last coordinate.
    pub fn new(x: u16, y: u16, width: u16, height: u16) -> (r: Rect)
        ensures
            r == Rect::clamped(x, y, width, height),
            r.valid(),
            r.x == x,
            r.y == y,
            x + width <= u16::MAX ==> r.width == width,
            y + height <= u16::MAX ==> r.height == height,
    {
        let width = if width > u16::MAX - x {
            u16::MAX - x
        } else {
            width
        };
        let height = if height > u16::MAX - y {
            u16::MAX - y
        } else {
            height
        };
        Rect { x, y, width, height }
    }

    /// The part of the rectangle that lies in `other`.
    pub fn intersection(self, other: Rect) -> (r: Rect)
        requires
            self.valid(),
            other.valid(),
        ensures
            r == self.common(other),
            r.valid(),
            forall|px: int, py: int|
                r.covers(px, py) <==> self.covers(px, py) && other.covers(px, py),
            r.within(self),
            r.within(other),
    {
        let left = if self.x >= other.x {
            self.x
        } else {
            other.x
        };
        let top = if self.y >= other.y {
            self.y
        } else {
            other.y
        };
        let self_right = self.x + self.width;
        let other_right = other.x + other.width;
        let right = if self_right <= other_right {
            self_right
        } else {
            other_right
        };
        let self_bottom = self.y + self.height;
        let other_bottom = other.y + other.height;
        let bottom = if self_bottom <= other_bottom {
            self_bottom
        } else {
            other_bottom
        };
        Rect {
            x: left,
            y: top,
            width: if right >= left {
                right - left
            } else {
                0
            },
            height: if bottom >= top {
                bottom - top
            } else {
                0
            },
        }
    }
}

/// The rectangle of the given size in the middle of `parent`, as far as the
/// size fits: a side longer than the parent's is cut to it, and an odd rest
/// leaves the smaller margin on the left or at the top.
pub open spec fn centred(width: u16, height: u16, parent: Rect) -> Rect {
    Rect {
        x: if parent.width > width {
            (parent.x + (parent.width - width) / 2) as u16
        } else {
            parent.x
        },
        y: if parent.height > height {
            (parent.y + (parent.height - height) / 2) as u16
        } else {
            parent.y
        },
        width: if width <= parent.width {
            width
        } else {
            parent.width
        },
        height: if height <= parent.height {
            height
        } else {
            parent.height
        },
    }
}

/// Centres a rectangle of the given size in `parent`.
pub fn centred_rect(width: u16, height: u16, parent: Rect) -> (r: Rect)
    requires
        parent.valid(),
    ensures
        r == centred(width, height, parent),
        r.valid(),
        r.within(parent),
{
    let spare_width = if parent.width > width {
        parent.width - width
    } else {
        0
    };
    let spare_height = if parent.height > height {
        parent.height - height
    } else {
        0
    };
    let x = parent.x + spare_width / 2;
    let y = parent.y + spare_height / 2;
    Rect::new(
        x,
        y,
        if width <= parent.width {
            width
        } else {
            parent.width
        },
        if height <= parent.height {
            height
        } else {
            parent.height
        },
    )
}

} // verus!
