use crate::alignment::Alignment;
use crate::buffer::Buffer;
use crate::private::Sealed;
use crate::size::{max_int, min_int, sat_add, Point, Rect, Size, DIM_MAX};
use crate::view::{AppState, Context, View, ViewId};
use vstd::prelude::*;
use vstd::view::View as _;

verus! {

/// A child held to optional minimum and maximum widths and heights.
#[derive(Clone, Debug)]
pub struct Frame<V> {
    pub child: V,
    pub min_width: Option<u16>,
    pub min_height: Option<u16>,
    pub max_width: Option<u16>,
    pub max_height: Option<u16>,
    pub alignment: Alignment,
}

/// One dimension of a frame. A maximum of `DIM_MAX` means "fill": the frame
/// takes the whole proposal. Otherwise the child's extent is clamped to the
/// maximum (the proposal when none is set) and then raised to the minimum
/// (zero when none is set), so a minimum wins over a smaller maximum.
pub open spec fn frame_dimension(proposed: int, child: int, min: Option<u16>, max: Option<u16>) -> int {
    let hi = match max {
        Some(m) => m as int,
        None => proposed,
    };
    let lo = match min {
        Some(m) => m as int,
        None => 0,
    };
    if hi == DIM_MAX {
        proposed
    } else {
        max_int(min_int(child, hi), lo)
    }
}

/// One dimension of a frame, as `frame_dimension` states it.
pub fn calculate_dimension(proposed: u16, child: u16, min: Option<u16>, max: Option<u16>) -> (r: u16)
    ensures
        r == frame_dimension(proposed as int, child as int, min, max),
{
    let hi = match max {
        Some(m) => m,
        None => proposed,
    };
    let lo = match min {
        Some(m) => m,
        None => 0,
    };
    if hi == DIM_MAX {
        proposed
    } else {
        let clamped = if child < hi { child } else { hi };
        if clamped > lo { clamped } else { lo }
    }
}

impl<V: View> Sealed for Frame<V> {
}

impl<V: View> Frame<V> {
    /// The rectangle the child is rendered into: the frame's own size at the
    /// rectangle's origin, moved by the alignment along each axis the frame
    /// fills.
    pub open spec fn spec_child_rect(&self, rect: Rect) -> Rect {
        let size = self.spec_size(rect.size);
        let c = self.child.spec_size(rect.size);
        let ox = if self.max_width == Some(DIM_MAX) {
            self.alignment.spec_horizontal().spec_offset(size.width as int, c.width as int)
        } else {
            0
        };
        let oy = if self.max_height == Some(DIM_MAX) {
            self.alignment.spec_vertical().spec_offset(size.height as int, c.height as int)
        } else {
            0
        };
        Rect {
            point: Point {
                x: sat_add(rect.point.x as int, ox) as u16,
                y: sat_add(rect.point.y as int, oy) as u16,
            },
            size,
        }
    }

    pub fn child_rect(&self, rect: Rect) -> (r: Rect)
        ensures
            r == self.spec_child_rect(rect),
    {
        let child_size = self.child.size(rect.size);
        let size = self.size(rect.size);
        let offset_x = match self.max_width {
            Some(m) if m == DIM_MAX => self.alignment.horizontal().offset(size.width, child_size.width),
            _ => 0,
        };
        let offset_y = match self.max_height {
            Some(m) if m == DIM_MAX => self.alignment.vertical().offset(size.height, child_size.height),
            _ => 0,
        };
        Rect {
            point: Point {
                x: rect.point.x.saturating_add(offset_x),
                y: rect.point.y.saturating_add(offset_y),
            },
            size,
        }
    }
}

impl<V: View> View for Frame<V> {
    open spec fn spec_size(&self, proposed: Size) -> Size {
        let c = self.child.spec_size(proposed);
        Size {
            width: frame_dimension(
                proposed.width as int,
                c.width as int,
                self.min_width,
                self.max_width,
            ) as u16,
            height: frame_dimension(
                proposed.height as int,
                c.height as int,
                self.min_height,
                self.max_height,
            ) as u16,
        }
    }

    /// The child is rendered into `spec_child_rect`.
    open spec fn spec_render(
        &self,
        id: Seq<u64>,
        ctx: Context,
        st: Map<Seq<u64>, u64>,
        b: Buffer,
        st2: Map<Seq<u64>, u64>,
        b2: Buffer,
    ) -> bool {
        self.child.spec_render(id, Context { rect: self.spec_child_rect(ctx.rect), ..ctx }, st, b, st2, b2)
    }

    fn size(&self, proposed: Size) -> (r: Size) {
        let c = self.child.size(proposed);
        Size {
            width: calculate_dimension(proposed.width, c.width, self.min_width, self.max_width),
            height: calculate_dimension(proposed.height, c.height, self.min_height, self.max_height),
        }
    }

    /// The child gets the frame's whole rectangle; along an axis the frame
    /// fills, it is placed within it by the alignment, else at the origin.
    fn render(&self, id: &mut ViewId, context: Context, state: &mut AppState, buffer: &mut Buffer) {
        let rect = self.child_rect(context.rect);
        self.child.render(id, Context { rect, ..context }, state, buffer);
    }
}

} // verus!
