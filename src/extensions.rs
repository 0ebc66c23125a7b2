use crate::alignment::Alignment;
use crate::background::{Background, FillColor};
use crate::border::{Border, BorderStyle};
use crate::buffer::Buffer;
use crate::color::{Color, Modifier, MOD_BOLD, MOD_DIM, MOD_ITALIC, MOD_STRIKETHROUGH, MOD_UNDERLINE};
use crate::context_modifier::ContextModifier;
use crate::frame::Frame;
use crate::padding::Padding;
use crate::size::{Rect, Size, DIM_MAX};
use crate::view::{empty, AppState, Context, EmptyView, IfThenView, View, ViewId};
use crate::view_tuple::IdentifiedView;
use std::hash::Hash;
use vstd::prelude::*;
use vstd::view::View as _;

verus! {

/// Modifiers that wrap a view in another one.
pub trait ViewExtensions: View + Sized {
    /// Holds the view to optional minimum and maximum sizes; a maximum of
    /// `DIM_MAX` fills the proposal, with the view placed by `alignment`.
    fn frame(
        self,
        min_width: Option<u16>,
        min_height: Option<u16>,
        max_width: Option<u16>,
        max_height: Option<u16>,
        alignment: Alignment,
    ) -> (r: Frame<Self>)
        ensures
            r == (Frame { child: self, min_width, min_height, max_width, max_height, alignment }),
    {
        Frame { child: self, min_width, min_height, max_width, max_height, alignment }
    }

    /// Fills the width offered and centers the view across it.
    fn center_horizontally(self) -> (r: Frame<Self>)
        ensures
            r == (Frame {
                child: self,
                min_width: None,
                min_height: None,
                max_width: Some(DIM_MAX),
                max_height: None,
                alignment: Alignment::CENTER,
            }),
    {
        self.frame(None, None, Some(DIM_MAX), None, Alignment::CENTER)
    }

    /// Fills the width offered, the view at its left.
    fn fill_horizontally(self) -> (r: Frame<Self>)
        ensures
            r == (Frame {
                child: self,
                min_width: None,
                min_height: None,
                max_width: Some(DIM_MAX),
                max_height: None,
                alignment: Alignment::LEFT,
            }),
    {
        self.frame(None, None, Some(DIM_MAX), None, Alignment::LEFT)
    }

    /// Fills the height offered, the view at its top.
    fn fill_vertically(self) -> (r: Frame<Self>)
        ensures
            r == (Frame {
                child: self,
                min_width: None,
                min_height: None,
                max_width: None,
                max_height: Some(DIM_MAX),
                alignment: Alignment::TOP,
            }),
    {
        self.frame(None, None, None, Some(DIM_MAX), Alignment::TOP)
    }

    /// Fills all the room offered, the view at its top left.
    fn fill(self) -> (r: Frame<Self>)
        ensures
            r == (Frame {
                child: self,
                min_width: None,
                min_height: None,
                max_width: Some(DIM_MAX),
                max_height: Some(DIM_MAX),
                alignment: Alignment::TOP_LEFT,
            }),
    {
        self.frame(None, None, Some(DIM_MAX), Some(DIM_MAX), Alignment::TOP_LEFT)
    }

    /// Fills the height offered and centers the view within it.
    fn center_vertically(self) -> (r: Frame<Self>)
        ensures
            r == (Frame {
                child: self,
                min_width: None,
                min_height: None,
                max_width: None,
                max_height: Some(DIM_MAX),
                alignment: Alignment::CENTER,
            }),
    {
        self.frame(None, None, None, Some(DIM_MAX), Alignment::CENTER)
    }

    fn min_height(self, min_height: u16) -> (r: Frame<Self>)
        ensures
            r == (Frame {
                child: self,
                min_width: None,
                min_height: Some(min_height),
                max_width: None,
                max_height: None,
                alignment: Alignment::TOP,
            }),
    {
        self.frame(None, Some(min_height), None, None, Alignment::TOP)
    }

    fn min_width(self, min_width: u16) -> (r: Frame<Self>)
        ensures
            r == (Frame {
                child: self,
                min_width: Some(min_width),
                min_height: None,
                max_width: None,
                max_height: None,
                alignment: Alignment::LEFT,
            }),
    {
        self.frame(Some(min_width), None, None, None, Alignment::LEFT)
    }

    /// Fills all the room offered and centers the view in it.
    fn center(self) -> (r: Frame<Self>)
        ensures
            r == (Frame {
                child: self,
                min_width: None,
                min_height: None,
                max_width: Some(DIM_MAX),
                max_height: Some(DIM_MAX),
                alignment: Alignment::CENTER,
            }),
    {
        self.frame(None, None, Some(DIM_MAX), Some(DIM_MAX), Alignment::CENTER)
    }

    /// Draws a single-line outline around the view.
    fn border(self) -> (r: Border<Self>)
        ensures
            r.child == self,
            r.border_color == Color::Reset,
            r.border_style == BorderStyle::Single,
            r.title is None,
    {
        Border::new(self, Color::Reset)
    }

    /// The same padding on all four edges.
    fn padding(self, padding: u16) -> (r: Padding<Self>)
        ensures
            r == (Padding {
                child: self,
                padding_top: padding,
                padding_bottom: padding,
                padding_left: padding,
                padding_right: padding,
            }),
    {
        Padding {
            child: self,
            padding_top: padding,
            padding_bottom: padding,
            padding_left: padding,
            padding_right: padding,
        }
    }

    /// Padding on the left and right edges.
    fn padding_h(self, padding: u16) -> (r: Padding<Self>)
        ensures
            r == (Padding {
                child: self,
                padding_top: 0,
                padding_bottom: 0,
                padding_left: padding,
                padding_right: padding,
            }),
    {
        Padding {
            child: self,
            padding_top: 0,
            padding_bottom: 0,
            padding_left: padding,
            padding_right: padding,
        }
    }

    /// Padding on the top and bottom edges.
    fn padding_v(self, padding: u16) -> (r: Padding<Self>)
        ensures
            r == (Padding {
                child: self,
                padding_top: padding,
                padding_bottom: padding,
                padding_left: 0,
                padding_right: 0,
            }),
    {
        Padding {
            child: self,
            padding_top: padding,
            padding_bottom: padding,
            padding_left: 0,
            padding_right: 0,
        }
    }

    /// Renders the view's subtree in the foreground color `color`.
    fn color(self, color: Color) -> (r: ContextModifier<Self>)
        ensures
            r == (ContextModifier { child: self, fg: Some(color), modifier: None }),
    {
        ContextModifier { child: self, fg: Some(color), modifier: None }
    }

    fn green(self) -> (r: ContextModifier<Self>)
        ensures
            r == (ContextModifier { child: self, fg: Some(Color::Green), modifier: None }),
    {
        self.color(Color::Green)
    }

    fn red(self) -> (r: ContextModifier<Self>)
        ensures
            r == (ContextModifier { child: self, fg: Some(Color::Red), modifier: None }),
    {
        self.color(Color::Red)
    }

    fn blue(self) -> (r: ContextModifier<Self>)
        ensures
            r == (ContextModifier { child: self, fg: Some(Color::Blue), modifier: None }),
    {
        self.color(Color::Blue)
    }

    fn yellow(self) -> (r: ContextModifier<Self>)
        ensures
            r == (ContextModifier { child: self, fg: Some(Color::Yellow), modifier: None }),
    {
        self.color(Color::Yellow)
    }

    fn white(self) -> (r: ContextModifier<Self>)
        ensures
            r == (ContextModifier { child: self, fg: Some(Color::White), modifier: None }),
    {
        self.color(Color::White)
    }

    fn black(self) -> (r: ContextModifier<Self>)
        ensures
            r == (ContextModifier { child: self, fg: Some(Color::Black), modifier: None }),
    {
        self.color(Color::Black)
    }

    fn cyan(self) -> (r: ContextModifier<Self>)
        ensures
            r == (ContextModifier { child: self, fg: Some(Color::Cyan), modifier: None }),
    {
        self.color(Color::Cyan)
    }

    fn magenta(self) -> (r: ContextModifier<Self>)
        ensures
            r == (ContextModifier { child: self, fg: Some(Color::Magenta), modifier: None }),
    {
        self.color(Color::Magenta)
    }

    /// Paints the view over a solid fill of `color`.
    fn background(self, color: Color) -> (r: Background<Self, FillColor>)
        ensures
            r == (Background { view: self, background: FillColor { color } }),
    {
        Background { view: self, background: FillColor { color } }
    }

    fn bold(self) -> (r: ContextModifier<Self>)
        ensures
            r == (ContextModifier { child: self, fg: None, modifier: Some(Modifier { bits: MOD_BOLD }) }),
    {
        ContextModifier::modifier(self, Modifier::bold())
    }

    /// Bold when `condition` holds; otherwise no attribute is added.
    fn bold_when(self, condition: bool) -> (r: ContextModifier<Self>)
        ensures
            r == (ContextModifier {
                child: self,
                fg: None,
                modifier: Some(
                    Modifier {
                        bits: if condition {
                            MOD_BOLD
                        } else {
                            0
                        },
                    },
                ),
            }),
    {
        ContextModifier::modifier(self, if condition { Modifier::bold() } else { Modifier::empty() })
    }

    fn italic(self) -> (r: ContextModifier<Self>)
        ensures
            r == (ContextModifier {
                child: self,
                fg: None,
                modifier: Some(Modifier { bits: MOD_ITALIC }),
            }),
    {
        ContextModifier::modifier(self, Modifier::italic())
    }

    fn italic_when(self, condition: bool) -> (r: ContextModifier<Self>)
        ensures
            r.child == self,
            r.fg is None,
            r.modifier == if condition {
                Some(Modifier { bits: MOD_ITALIC })
            } else {
                None
            },
    {
        ContextModifier::modifier_when(self, condition, Modifier::italic())
    }

    fn underline(self) -> (r: ContextModifier<Self>)
        ensures
            r == (ContextModifier {
                child: self,
                fg: None,
                modifier: Some(Modifier { bits: MOD_UNDERLINE }),
            }),
    {
        ContextModifier::modifier(self, Modifier::underline())
    }

    fn underline_when(self, condition: bool) -> (r: ContextModifier<Self>)
        ensures
            r.child == self,
            r.fg is None,
            r.modifier == if condition {
                Some(Modifier { bits: MOD_UNDERLINE })
            } else {
                None
            },
    {
        ContextModifier::modifier_when(self, condition, Modifier::underline())
    }

    fn dim(self) -> (r: ContextModifier<Self>)
        ensures
            r == (ContextModifier { child: self, fg: None, modifier: Some(Modifier { bits: MOD_DIM }) }),
    {
        ContextModifier::modifier(self, Modifier::dim())
    }

    fn dim_when(self, condition: bool) -> (r: ContextModifier<Self>)
        ensures
            r.child == self,
            r.fg is None,
            r.modifier == if condition {
                Some(Modifier { bits: MOD_DIM })
            } else {
                None
            },
    {
        ContextModifier::modifier_when(self, condition, Modifier::dim())
    }

    /// Identifies the view by a hash of `id`.
    fn id<ID: Hash>(self, id: ID) -> (r: IdentifiedView<Self>)
        ensures
            r.value == self,
    {
        IdentifiedView::new(id, self)
    }

    fn strikethrough(self) -> (r: ContextModifier<Self>)
        ensures
            r == (ContextModifier {
                child: self,
                fg: None,
                modifier: Some(Modifier { bits: MOD_STRIKETHROUGH }),
            }),
    {
        ContextModifier::modifier(self, Modifier::strikethrough())
    }

    fn strikethrough_when(self, condition: bool) -> (r: ContextModifier<Self>)
        ensures
            r.child == self,
            r.fg is None,
            r.modifier == if condition {
                Some(Modifier { bits: MOD_STRIKETHROUGH })
            } else {
                None
            },
    {
        ContextModifier::modifier_when(self, condition, Modifier::strikethrough())
    }

    /// The view when `condition` holds, nothing otherwise.
    fn visible(self, condition: bool) -> (r: IfThenView<Self, EmptyView>)
        ensures
            r.condition == condition,
            r.true_view == self,
    {
        IfThenView { condition, true_view: self, false_view: empty() }
    }

    /// The view rendered on its own into a buffer of the size it wants when
    /// offered all the room there is, as plain text rows.
    fn as_str(self) -> (r: String)
        ensures
            exists|b: Buffer|
                b.wf() && b.size == self.spec_size(Size { width: DIM_MAX, height: DIM_MAX })
                    && r@ == b.plain_text(),
    {
        let size = self.size(Size::max());
        let mut buffer = Buffer::new(size.width, size.height);
        let mut id = ViewId::empty();
        let mut state = AppState::new();
        self.render(
            &mut id,
            Context::new(Rect::new(0, 0, size.width, size.height)),
            &mut state,
            &mut buffer,
        );
        buffer.as_plain_str()
    }
}

impl<T: View> ViewExtensions for T {
}

} // verus!
