//! A declarative terminal user-interface toolkit: views that negotiate
//! their size with their parent and paint into a cell buffer, a flex layout
//! for stacks, and renderers that diff frames and emit only what changed.

use vstd::prelude::*;

pub mod alignment;
pub mod background;
pub mod border;
pub mod buffer;
pub mod cell;
pub mod color;
pub mod context_modifier;
pub mod direction;
pub mod event;
pub mod extensions;
pub mod frame;
pub mod geometry_reader;
pub mod padding;
pub(crate) mod private;
pub mod renderer;
pub mod size;
pub mod stack;
pub mod text;
pub mod unicode;
pub mod view;
pub mod view_tuple;

pub use alignment::{Alignment, HorizontalAlignment, VerticalAlignment};
pub use background::{Background, FillColor};
pub use border::{Border, BorderStyle};
pub use buffer::Buffer;
pub use cell::Cell;
pub use color::{Attribute, Color, Modifier, TermCommand};
pub use context_modifier::ContextModifier;
pub use direction::Direction;
pub use event::{decide_event, EventAction, TerminalEvent};
pub use extensions::ViewExtensions;
pub use frame::Frame;
pub use geometry_reader::GeometryReader;
pub use padding::Padding;
pub use renderer::{FullScreenRenderer, InlineRenderer, Renderer, SomeRenderer};
pub use size::{Point, Rect, Size};
pub use stack::{HStack, VStack, ZStack};
pub use text::{text, Text};
pub use view::{empty, if_then_view, AppState, Context, EmptyView, IfThenView, RenderCounter, View, ViewId};
pub use view_tuple::{for_each_view, ForEachView, IdentifiedView, ViewTuple};

verus! {

/// A vertical stack: children top to bottom, no spacing, left-aligned.
pub fn vstack<VT: ViewTuple>(children: VT) -> (r: VStack<VT>)
    ensures
        r.children == children,
        r.spacing == 0,
        r.alignment == HorizontalAlignment::Left,
{
    VStack { children, spacing: 0, alignment: HorizontalAlignment::Left }
}

/// A horizontal stack: children left to right, one column apart,
/// top-aligned.
pub fn hstack<VT: ViewTuple>(children: VT) -> (r: HStack<VT>)
    ensures
        r.children == children,
        r.spacing == 1,
        r.alignment == VerticalAlignment::Top,
{
    HStack { children, spacing: 1, alignment: VerticalAlignment::Top }
}

/// Overlapping views, aligned at the top left.
pub fn zstack<VT: ViewTuple>(children: VT) -> (r: ZStack<VT>)
    ensures
        r.children == children,
        r.alignment == Alignment::TOP_LEFT,
{
    ZStack { children, alignment: Alignment::TOP_LEFT }
}

/// A view made, at render time, from the size it is given.
pub fn with_size<V: View, F: Fn(Size) -> V>(f: F) -> (r: GeometryReader<V, F>)
    requires
        geometry_reader::sizes_consistently(f),
{
    GeometryReader::new(f)
}

} // verus!
