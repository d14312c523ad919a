//! A text label with a placement on the playfield. The library computes
//! where the bordered box around the label is anchored; drawing the box
//! itself is the display's business.

use super::GameDimension;
use vstd::prelude::*;

verus! {

/// Where a label sits horizontally and vertically on the playfield.
#[derive(Clone, Copy, Debug, PartialEq, Eq, Structural)]
pub enum HorizontalAlign {
    Left,
    Centre,
    Right,
}

#[derive(Clone, Copy, Debug, PartialEq, Eq, Structural)]
pub enum VerticalAlign {
    Top,
    Centre,
    Bottom,
}

#[derive(Clone, Copy, Debug, PartialEq, Eq, Structural)]
pub struct Position(pub HorizontalAlign, pub VerticalAlign);

#[derive(Debug)]
pub struct Text {
    pub content: String,
    pub outlined: bool,
    pub pos: Position,
    pub dim: GameDimension,
}

impl Text {
    pub fn new(content: &str, pos: Position, dim: GameDimension) -> (r: Text)
        ensures
            r.content@ == content@,
            r.pos == pos,
            r.dim == dim,
            r.outlined == false,
    {
        Text { content: content.to_owned(), pos, dim, outlined: false }
    }

    /// The column of the top-left corner of the bordered box around a
    /// label of `length` cells (the box adds one border cell per side).
    pub open spec fn spec_x_anchor(&self, length: u16) -> int {
        match self.pos.0 {
            HorizontalAlign::Left => 0,
            HorizontalAlign::Centre => self.dim.1 / 2 - (length + 2) / 2,
            HorizontalAlign::Right => self.dim.1 - length - 2,
        }
    }

    /// The row of the top-left corner of the bordered box (the box is
    /// three rows tall).
    pub open spec fn spec_y_anchor(&self) -> int {
        match self.pos.1 {
            VerticalAlign::Top => 0,
            VerticalAlign::Centre => self.dim.0 / 2 - 1,
            VerticalAlign::Bottom => self.dim.0 - 3,
        }
    }

    /// The cell at which the bordered box around a label of `length`
    /// cells is anchored, per the label's alignment.
    pub fn box_origin(&self, length: u16) -> (r: (u16, u16))
        requires
            length + 2 <= self.dim.1,
            self.dim.0 >= 3,
        ensures
            r.0 == self.spec_x_anchor(length),
            r.1 == self.spec_y_anchor(),
    {
        let x = match self.pos.0 {
            HorizontalAlign::Left => 0,
            HorizontalAlign::Centre => self.dim.1 / 2 - (length + 2) / 2,
            HorizontalAlign::Right => self.dim.1 - length - 2,
        };
        let y = match self.pos.1 {
            VerticalAlign::Top => 0,
            VerticalAlign::Centre => self.dim.0 / 2 - 1,
            VerticalAlign::Bottom => self.dim.0 - 3,
        };
        (x, y)
    }
}

} // verus!
