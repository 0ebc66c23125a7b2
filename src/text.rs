use crate::buffer::{wrote_string, Buffer};
use crate::private::Sealed;
use crate::size::{min_int, Size};
use crate::unicode::{display_width, display_width_of};
use crate::view::{AppState, Context, View, ViewId};
use vstd::prelude::*;
use vstd::view::View as _;

verus! {

/// A single line of text.
#[derive(Clone, Debug)]
pub struct Text {
    pub text: String,
    /// The number of columns the text occupies.
    pub width: usize,
}

/// A text view showing `s`.
pub fn text(s: &str) -> (r: Text)
    ensures
        r.text@ == s@,
        r.width == display_width_of(s@),
{
    Text { text: s.to_owned(), width: display_width(s) }
}

/// One line, as wide as the text's display width, no wider than proposed.
pub open spec fn text_size(width: int, proposed: Size) -> Size {
    Size { width: min_int(width, proposed.width as int) as u16, height: 1 }
}

/// The size of a line showing `text`.
pub fn size_for_text(text: &str, proposed: Size) -> (r: Size)
    ensures
        r == text_size(display_width_of(text@) as int, proposed),
{
    let w = display_width(text);
    Size { width: if w < proposed.width as usize { w as u16 } else { proposed.width }, height: 1 }
}

/// Writes `text` at the origin of `context.rect`, cut at the rectangle's
/// right edge.
pub fn render_text(text: &str, width: usize, context: Context, buffer: &mut Buffer)
    requires
        old(buffer).wf(),
    ensures
        final(buffer).wf(),
        final(buffer).size == old(buffer).size,
        wrote_string(
            *old(buffer),
            *final(buffer),
            context.rect.point.x,
            context.rect.point.y,
            min_int(width as int, context.rect.size.width as int) as u16,
            text@,
            context.fg,
            None,
            context.modifier,
        ),
{
    let rect = context.rect;
    let max_width = if width < rect.size.width as usize { width as u16 } else { rect.size.width };
    buffer.set_string_at(rect.left(), rect.top(), max_width, text, context.fg, None, context.modifier);
}

impl Sealed for Text {
}

impl View for Text {
    /// The text is written from the rectangle's origin, cut at its width;
    /// the state is untouched.
    open spec fn spec_render(
        &self,
        id: Seq<u64>,
        ctx: Context,
        st: Map<Seq<u64>, u64>,
        b: Buffer,
        st2: Map<Seq<u64>, u64>,
        b2: Buffer,
    ) -> bool {
        &&& st2 == st
        &&& wrote_string(
            b,
            b2,
            ctx.rect.point.x,
            ctx.rect.point.y,
            min_int(self.width as int, ctx.rect.size.width as int) as u16,
            self.text@,
            ctx.fg,
            None,
            ctx.modifier,
        )
    }

    open spec fn spec_size(&self, proposed: Size) -> Size {
        text_size(self.width as int, proposed)
    }

    fn size(&self, proposed: Size) -> (r: Size) {
        Size {
            width: if self.width < proposed.width as usize { self.width as u16 } else { proposed.width },
            height: 1,
        }
    }

    fn render(&self, id: &mut ViewId, context: Context, state: &mut AppState, buffer: &mut Buffer) {
        render_text(self.text.as_str(), self.width, context, buffer);
    }
}

impl Sealed for &'static str {
}

impl View for &'static str {
    /// The text is written from the rectangle's origin, cut at its width;
    /// the state is untouched.
    open spec fn spec_render(
        &self,
        id: Seq<u64>,
        ctx: Context,
        st: Map<Seq<u64>, u64>,
        b: Buffer,
        st2: Map<Seq<u64>, u64>,
        b2: Buffer,
    ) -> bool {
        &&& st2 == st
        &&& wrote_string(
            b,
            b2,
            ctx.rect.point.x,
            ctx.rect.point.y,
            min_int(display_width_of((*self)@) as int, ctx.rect.size.width as int) as u16,
            (*self)@,
            ctx.fg,
            None,
            ctx.modifier,
        )
    }

    open spec fn spec_size(&self, proposed: Size) -> Size {
        text_size(display_width_of((*self)@) as int, proposed)
    }

    fn size(&self, proposed: Size) -> (r: Size) {
        size_for_text(self, proposed)
    }

    fn render(&self, id: &mut ViewId, context: Context, state: &mut AppState, buffer: &mut Buffer) {
        let width = display_width(self);
        render_text(self, width, context, buffer);
    }
}

impl Sealed for String {
}

impl View for String {
    /// The text is written from the rectangle's origin, cut at its width;
    /// the state is untouched.
    open spec fn spec_render(
        &self,
        id: Seq<u64>,
        ctx: Context,
        st: Map<Seq<u64>, u64>,
        b: Buffer,
        st2: Map<Seq<u64>, u64>,
        b2: Buffer,
    ) -> bool {
        &&& st2 == st
        &&& wrote_string(
            b,
            b2,
            ctx.rect.point.x,
            ctx.rect.point.y,
            min_int(display_width_of(self@) as int, ctx.rect.size.width as int) as u16,
            self@,
            ctx.fg,
            None,
            ctx.modifier,
        )
    }

    open spec fn spec_size(&self, proposed: Size) -> Size {
        text_size(display_width_of(self@) as int, proposed)
    }

    fn size(&self, proposed: Size) -> (r: Size) {
        size_for_text(self.as_str(), proposed)
    }

    fn render(&self, id: &mut ViewId, context: Context, state: &mut AppState, buffer: &mut Buffer) {
        let width = display_width(self.as_str());
        render_text(self.as_str(), width, context, buffer);
    }
}

} // verus!
