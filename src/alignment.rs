use crate::size::sat_sub;
use vstd::prelude::*;

verus! {

/// Where a narrower child sits across a wider container.
#[derive(Clone, Copy, Debug, PartialEq, Eq, Structural)]
pub enum HorizontalAlignment {
    Left,
    Center,
    Right,
}

/// Where a shorter child sits within a taller container.
#[derive(Clone, Copy, Debug, PartialEq, Eq, Structural)]
pub enum VerticalAlignment {
    Top,
    Center,
    Bottom,
}

/// The offset of a child of extent `child` inside a container of extent
/// `container`: none at the start, half the slack rounded down in the
/// middle, all of it at the end.
pub open spec fn align_offset(start: bool, end: bool, container: int, child: int) -> int {
    if start {
        0
    } else if end {
        sat_sub(container, child)
    } else {
        sat_sub(container, child) / 2
    }
}

impl HorizontalAlignment {
    pub open spec fn spec_offset(self, container: int, child: int) -> int {
        align_offset(self == HorizontalAlignment::Left, self == HorizontalAlignment::Right, container, child)
    }

    /// The column offset of a child `child` wide in a container `container`
    /// wide.
    pub fn offset(self, container: u16, child: u16) -> (r: u16)
        ensures
            r == self.spec_offset(container as int, child as int),
    {
        match self {
            HorizontalAlignment::Left => 0,
            HorizontalAlignment::Center => container.saturating_sub(child) / 2,
            HorizontalAlignment::Right => container.saturating_sub(child),
        }
    }
}

impl VerticalAlignment {
    pub open spec fn spec_offset(self, container: int, child: int) -> int {
        align_offset(self == VerticalAlignment::Top, self == VerticalAlignment::Bottom, container, child)
    }

    /// The row offset of a child `child` tall in a container `container`
    /// tall.
    pub fn offset(self, container: u16, child: u16) -> (r: u16)
        ensures
            r == self.spec_offset(container as int, child as int),
    {
        match self {
            VerticalAlignment::Top => 0,
            VerticalAlignment::Center => container.saturating_sub(child) / 2,
            VerticalAlignment::Bottom => container.saturating_sub(child),
        }
    }
}

/// A position in a 3 by 3 grid: left, center or right, by top, center or
/// bottom.
#[allow(non_camel_case_types)]
#[derive(Clone, Copy, Debug, PartialEq, Eq, Structural)]
pub enum Alignment {
    TOP_LEFT,
    TOP,
    TOP_RIGHT,
    LEFT,
    CENTER,
    RIGHT,
    BOTTOM_LEFT,
    BOTTOM,
    BOTTOM_RIGHT,
}

impl Alignment {
    pub open spec fn spec_horizontal(self) -> HorizontalAlignment {
        match self {
            Alignment::TOP_LEFT | Alignment::LEFT | Alignment::BOTTOM_LEFT => HorizontalAlignment::Left,
            Alignment::TOP | Alignment::CENTER | Alignment::BOTTOM => HorizontalAlignment::Center,
            _ => HorizontalAlignment::Right,
        }
    }

    pub open spec fn spec_vertical(self) -> VerticalAlignment {
        match self {
            Alignment::TOP_LEFT | Alignment::TOP | Alignment::TOP_RIGHT => VerticalAlignment::Top,
            Alignment::LEFT | Alignment::CENTER | Alignment::RIGHT => VerticalAlignment::Center,
            _ => VerticalAlignment::Bottom,
        }
    }

    pub fn horizontal(self) -> (r: HorizontalAlignment)
        ensures
            r == self.spec_horizontal(),
    {
        match self {
            Alignment::TOP_LEFT | Alignment::LEFT | Alignment::BOTTOM_LEFT => HorizontalAlignment::Left,
            Alignment::TOP | Alignment::CENTER | Alignment::BOTTOM => HorizontalAlignment::Center,
            _ => HorizontalAlignment::Right,
        }
    }

    pub fn vertical(self) -> (r: VerticalAlignment)
        ensures
            r == self.spec_vertical(),
    {
        match self {
            Alignment::TOP_LEFT | Alignment::TOP | Alignment::TOP_RIGHT => VerticalAlignment::Top,
            Alignment::LEFT | Alignment::CENTER | Alignment::RIGHT => VerticalAlignment::Center,
            _ => VerticalAlignment::Bottom,
        }
    }

    /// The alignment with the given horizontal and vertical parts.
    pub fn from_parts(horizontal: HorizontalAlignment, vertical: VerticalAlignment) -> (r: Alignment)
        ensures
            r.spec_horizontal() == horizontal,
            r.spec_vertical() == vertical,
    {
        match (vertical, horizontal) {
            (VerticalAlignment::Top, HorizontalAlignment::Left) => Alignment::TOP_LEFT,
            (VerticalAlignment::Top, HorizontalAlignment::Center) => Alignment::TOP,
            (VerticalAlignment::Top, HorizontalAlignment::Right) => Alignment::TOP_RIGHT,
            (VerticalAlignment::Center, HorizontalAlignment::Left) => Alignment::LEFT,
            (VerticalAlignment::Center, HorizontalAlignment::Center) => Alignment::CENTER,
            (VerticalAlignment::Center, HorizontalAlignment::Right) => Alignment::RIGHT,
            (VerticalAlignment::Bottom, HorizontalAlignment::Left) => Alignment::BOTTOM_LEFT,
            (VerticalAlignment::Bottom, HorizontalAlignment::Center) => Alignment::BOTTOM,
            (VerticalAlignment::Bottom, HorizontalAlignment::Right) => Alignment::BOTTOM_RIGHT,
        }
    }

    /// The name of the position, as a person would say it.
    pub fn name(&self) -> &'static str {
        match self {
            Alignment::TOP_LEFT => "Top Left",
            Alignment::TOP => "Top",
            Alignment::TOP_RIGHT => "Top Right",
            Alignment::LEFT => "Left",
            Alignment::CENTER => "Center",
            Alignment::RIGHT => "Right",
            Alignment::BOTTOM_LEFT => "Bottom Left",
            Alignment::BOTTOM => "Bottom",
            Alignment::BOTTOM_RIGHT => "Bottom Right",
        }
    }
}

} // verus!
