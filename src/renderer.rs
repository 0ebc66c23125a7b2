use crate::buffer::Buffer;
use crate::cell::{blank_cell, Cell};
use crate::color::{modifier_diff_commands, push_when, Attribute, Color, Modifier, TermCommand};
use crate::size::{max_int, sat_sub, Point, Rect, Size};
use crate::view::{AppState, Context, View, ViewId};
use vstd::prelude::*;
use vstd::view::View as _;

verus! {

/// What the terminal was last told: foreground, background, attributes, and
/// the position of the last cell painted, if any.
pub struct EmitState {
    pub fg: Color,
    pub bg: Color,
    pub modifier: Modifier,
    pub last: Option<(u16, u16)>,
}

/// Nothing emitted yet: default colors, no attribute, no cell painted.
pub open spec fn initial_emit_state() -> EmitState {
    EmitState { fg: Color::Reset, bg: Color::Reset, modifier: Modifier { bits: 0 }, last: None }
}

/// The cursor already stands at (`x`, `y`) when the last cell painted was
/// its left neighbour on the same row.
pub open spec fn adjacent(last: Option<(u16, u16)>, x: u16, y: u16) -> bool {
    match last {
        Some(p) => p.0 + 1 == x && p.1 == y,
        None => false,
    }
}

/// `out` followed by the commands that paint one changed cell: a color or
/// attribute change only where the cell differs from what was last emitted,
/// a cursor move only where the cell does not follow the last one painted,
/// then the symbol.
pub open spec fn cell_emission(out: Seq<TermCommand>, st: EmitState, e: (u16, u16, Cell)) -> Seq<
    TermCommand,
> {
    let c = e.2;
    let o1 = push_when(out, c.fg != st.fg, TermCommand::SetForeground(c.fg));
    let o2 = push_when(o1, c.bg != st.bg, TermCommand::SetBackground(c.bg));
    let o3 = if c.modifier != st.modifier {
        modifier_diff_commands(o2, c.modifier, st.modifier)
    } else {
        o2
    };
    let o4 = push_when(o3, !adjacent(st.last, e.0, e.1), TermCommand::MoveTo(e.0, e.1));
    o4.push(TermCommand::Print(c.symbol))
}

/// What was last emitted once the cell `e` is painted.
pub open spec fn next_emit_state(e: (u16, u16, Cell)) -> EmitState {
    EmitState { fg: e.2.fg, bg: e.2.bg, modifier: e.2.modifier, last: Some((e.0, e.1)) }
}

/// `out` followed by the commands that paint the first `k` entries of a
/// diff.
pub open spec fn diff_emission(out: Seq<TermCommand>, diff: Seq<(u16, u16, Cell)>, k: nat) -> Seq<
    TermCommand,
>
    decreases k,
{
    if k == 0 {
        out
    } else {
        let st = if k == 1 {
            initial_emit_state()
        } else {
            next_emit_state(diff[k - 2])
        };
        cell_emission(diff_emission(out, diff, (k - 1) as nat), st, diff[k - 1])
    }
}

/// `out` followed by a whole frame: every changed cell, then a reset of
/// colors and attributes.
pub open spec fn frame_emission(out: Seq<TermCommand>, diff: Seq<(u16, u16, Cell)>) -> Seq<TermCommand> {
    diff_emission(out, diff, diff.len()).push(TermCommand::SetForeground(Color::Reset)).push(
        TermCommand::SetBackground(Color::Reset),
    ).push(TermCommand::SetAttribute(Attribute::Reset))
}

/// Appends the commands that paint the cells of `diff`, in order, and then
/// reset colors and attributes.
pub fn emit_diff(diff: &Vec<(u16, u16, Cell)>, out: &mut Vec<TermCommand>)
    ensures
        final(out)@ == frame_emission(old(out)@, diff@),
{
    let mut fg = Color::Reset;
    let mut bg = Color::Reset;
    let mut modifier = Modifier::empty();
    let mut last: Option<(u16, u16)> = None;
    let mut k: usize = 0;
    while k < diff.len()
        invariant
            k <= diff@.len(),
            out@ == diff_emission(old(out)@, diff@, k as nat),
            (EmitState { fg, bg, modifier, last }) == if k == 0 {
                initial_emit_state()
            } else {
                next_emit_state(diff@[k - 1])
            },
        decreases diff@.len() - k,
    {
        let (x, y, ref cell) = diff[k];
        if cell.fg != fg {
            out.push(TermCommand::SetForeground(cell.fg));
            fg = cell.fg;
        }
        if cell.bg != bg {
            out.push(TermCommand::SetBackground(cell.bg));
            bg = cell.bg;
        }
        if cell.modifier != modifier {
            Modifier::write_diff(cell.modifier, modifier, out);
            modifier = cell.modifier;
        }
        let follows = match last {
            Some((lx, ly)) => lx < u16::MAX && lx + 1 == x && ly == y,
            None => false,
        };
        if !follows {
            out.push(TermCommand::MoveTo(x, y));
        }
        out.push(TermCommand::Print(cell.symbol.clone()));
        last = Some((x, y));
        k += 1;
    }
    out.push(TermCommand::SetForeground(Color::Reset));
    out.push(TermCommand::SetBackground(Color::Reset));
    out.push(TermCommand::SetAttribute(Attribute::Reset));
}

/// Appends the commands that bring the screen from `prev` to `current`,
/// then blanks `prev` for reuse.
pub fn print_buffer(current: &Buffer, prev: &mut Buffer, out: &mut Vec<TermCommand>)
    requires
        current.wf(),
        old(prev).wf(),
        current.size == old(prev).size,
    ensures
        exists|d: Seq<(u16, u16, Cell)>|
            current.is_diff(&*old(prev), d) && final(out)@ == frame_emission(old(out)@, d),
        final(prev).wf(),
        final(prev).size == old(prev).size,
        forall|i: int| 0 <= i < final(prev).cells@.len() ==> blank_cell(#[trigger] final(prev).cells@[i]),
{
    let diff = current.diff(prev);
    emit_diff(&diff, out);
    prev.clear();
}

/// Renders below the cursor without taking over the screen, scrolling the
/// terminal up as views grow taller.
pub struct InlineRenderer {
    pub current_buffer: Buffer,
    pub prev_buffer: Buffer,
    /// The height of the last view rendered.
    pub view_height: u16,
    /// The rows at the bottom of the terminal that are scrolled into view
    /// and free to draw on.
    pub claimed_height: u16,
    pub terminal_size: Size,
}

impl InlineRenderer {
    /// Both buffers hold one cell per terminal position.
    pub open spec fn wf(&self) -> bool {
        &&& self.current_buffer.wf()
        &&& self.prev_buffer.wf()
        &&& self.current_buffer.size == self.terminal_size
        &&& self.prev_buffer.size == self.terminal_size
    }

    /// A renderer for a terminal of the given size whose cursor stands on
    /// row `cursor_y`: the rows from the cursor down are already free.
    pub fn new(terminal_width: u16, terminal_height: u16, cursor_y: u16) -> (r: InlineRenderer)
        ensures
            r.wf(),
            r.terminal_size == Size::new_spec(terminal_width, terminal_height),
            r.view_height == 0,
            r.claimed_height == sat_sub(terminal_height as int, cursor_y as int),
    {
        InlineRenderer {
            current_buffer: Buffer::new(terminal_width, terminal_height),
            prev_buffer: Buffer::new(terminal_width, terminal_height),
            view_height: 0,
            claimed_height: terminal_height.saturating_sub(cursor_y),
            terminal_size: Size::new(terminal_width, terminal_height),
        }
    }

    fn swap_buffers(&mut self)
        ensures
            final(self).current_buffer == old(self).prev_buffer,
            final(self).prev_buffer == old(self).current_buffer,
            final(self).view_height == old(self).view_height,
            final(self).claimed_height == old(self).claimed_height,
            final(self).terminal_size == old(self).terminal_size,
    {
        std::mem::swap(&mut self.current_buffer, &mut self.prev_buffer);
    }

    /// Scrolls the terminal up until `view_height` rows are claimed, and
    /// marks the rows newly scrolled into view as stale in the previous
    /// frame so that they are repainted in full.
    fn claim_space(&mut self, view_height: u16, terminal_height: u16, out: &mut Vec<TermCommand>)
        requires
            old(self).wf(),
        ensures
            final(self).wf(),
            final(self).terminal_size == old(self).terminal_size,
            final(self).view_height == old(self).view_height,
            final(self).current_buffer == old(self).current_buffer,
            view_height <= old(self).claimed_height ==> final(self).prev_buffer == old(
                self,
            ).prev_buffer,
            final(self).claimed_height == max_int(
                old(self).claimed_height as int,
                view_height as int,
            ),
            final(out)@ == push_when(
                old(out)@,
                view_height > old(self).claimed_height,
                TermCommand::ScrollUp((view_height - old(self).claimed_height) as u16),
            ),
    {
        let diff = view_height.saturating_sub(self.claimed_height);
        if diff > 0 {
            out.push(TermCommand::ScrollUp(diff));
            self.claimed_height = self.claimed_height + diff;
            let mut y = terminal_height.saturating_sub(view_height);
            while y < terminal_height
                invariant
                    self.wf(),
                    self.terminal_size == old(self).terminal_size,
                    self.view_height == old(self).view_height,
                    self.current_buffer == old(self).current_buffer,
                    self.claimed_height == view_height,
                decreases terminal_height - y,
            {
                self.prev_buffer.clear_line(y);
                y += 1;
            }
        }
    }

    /// The row the view starts on: the first claimed row.
    pub open spec fn start_row(&self) -> int {
        sat_sub(self.terminal_size.height as int, self.claimed_height as int)
    }

    /// Renders `view` below the cursor and appends the commands that bring
    /// the screen up to date.
    pub fn render<V: View>(&mut self, view: &V, state: &mut AppState, out: &mut Vec<TermCommand>)
        requires
            old(self).wf(),
            old(state).wf(),
            view.spec_size(old(self).terminal_size).height <= old(self).terminal_size.height,
            view.spec_size(old(self).terminal_size).width <= old(self).terminal_size.width,
        ensures
            final(self).wf(),
            final(state).wf(),
            final(self).terminal_size == old(self).terminal_size,
            final(self).view_height == view.spec_size(old(self).terminal_size).height,
            final(self).claimed_height == max_int(
                old(self).claimed_height as int,
                final(self).view_height as int,
            ),
            view.spec_render(
                Seq::empty(),
                Context {
                    rect: Rect {
                        point: Point { x: 0, y: final(self).start_row() as u16 },
                        size: view.spec_size(old(self).terminal_size),
                    },
                    fg: Color::Reset,
                    modifier: Modifier { bits: 0 },
                },
                old(state).view(),
                old(self).prev_buffer,
                final(state).view(),
                final(self).current_buffer,
            ),
            forall|i: int|
                0 <= i < final(self).prev_buffer.cells@.len() ==> blank_cell(
                    #[trigger] final(self).prev_buffer.cells@[i],
                ),
            exists|prev: Buffer, d: Seq<(u16, u16, Cell)>|
                {
                    &&& final(self).view_height <= old(self).claimed_height ==> prev == old(
                        self,
                    ).current_buffer
                    &&& final(self).current_buffer.is_diff(&prev, d)
                    &&& final(out)@ == frame_emission(
                        push_when(
                            old(out)@,
                            final(self).view_height > old(self).claimed_height,
                            TermCommand::ScrollUp(
                                (final(self).view_height - old(self).claimed_height) as u16,
                            ),
                        ),
                        d,
                    )
                },
    {
        self.swap_buffers();
        let size = view.size(self.terminal_size);
        let needed = if size.height > self.claimed_height { size.height } else { self.claimed_height };
        let terminal_height = self.terminal_size.height;
        self.claim_space(needed, terminal_height, out);
        let start_y = self.terminal_size.height.saturating_sub(self.claimed_height);
        let rect = Rect::new(0, start_y, size.width, size.height);
        let mut id = ViewId::empty();
        view.render(&mut id, Context::new(rect), state, &mut self.current_buffer);
        self.view_height = size.height;
        print_buffer(&self.current_buffer, &mut self.prev_buffer, out);
    }

    /// Appends the commands that put the cursor on the row below the last
    /// view and start a new line there; called before the program exits.
    pub fn move_cursor_to_bottom_of_current_view(&self, out: &mut Vec<TermCommand>)
        ensures
            final(out)@.len() == old(out)@.len() + 2,
            final(out)@.take(old(out)@.len() as int) == old(out)@,
            final(out)@[old(out)@.len() as int] == TermCommand::MoveTo(
                0,
                (if self.start_row() + self.view_height > u16::MAX {
                    u16::MAX as int
                } else {
                    self.start_row() + self.view_height
                }) as u16,
            ),
    {
        let target = self.terminal_size.height.saturating_sub(self.claimed_height).saturating_add(
            self.view_height,
        );
        out.push(TermCommand::MoveTo(0, target));
        out.push(TermCommand::Print(newline()));
        proof {
            assert(out@.take(old(out)@.len() as int) =~= old(out)@);
        }
    }

    /// Appends the commands that clear the claimed rows, and starts over with
    /// blank buffers of the new size.
    pub fn resize(&mut self, terminal_width: u16, terminal_height: u16, out: &mut Vec<TermCommand>)
        ensures
            final(self).wf(),
            final(self).terminal_size == Size::new_spec(terminal_width, terminal_height),
            final(self).view_height == old(self).view_height,
            final(self).claimed_height == old(self).claimed_height,
            final(out)@ == old(out)@.push(TermCommand::MoveUp(old(self).claimed_height)).push(
                TermCommand::ClearFromCursorDown,
            ),
    {
        out.push(TermCommand::MoveUp(self.claimed_height));
        out.push(TermCommand::ClearFromCursorDown);
        self.current_buffer = Buffer::new(terminal_width, terminal_height);
        self.prev_buffer = Buffer::new(terminal_width, terminal_height);
        self.terminal_size = Size::new(terminal_width, terminal_height);
    }
}

/// A one-character string holding a line break.
fn newline() -> (r: String)
    ensures
        r@ == seq!['\n'],
{
    let s = "\n";
    proof {
        reveal_strlit("\n");
        assert(s@ =~= seq!['\n']);
    }
    s.to_owned()
}

/// Renders on the whole screen, in the terminal's alternate screen.
pub struct FullScreenRenderer {
    pub current_buffer: Buffer,
    pub prev_buffer: Buffer,
    pub terminal_size: Size,
}

impl FullScreenRenderer {
    pub open spec fn wf(&self) -> bool {
        &&& self.current_buffer.wf()
        &&& self.prev_buffer.wf()
        &&& self.current_buffer.size == self.terminal_size
        &&& self.prev_buffer.size == self.terminal_size
    }

    pub fn new(terminal_width: u16, terminal_height: u16) -> (r: FullScreenRenderer)
        ensures
            r.wf(),
            r.terminal_size == Size::new_spec(terminal_width, terminal_height),
    {
        FullScreenRenderer {
            current_buffer: Buffer::new(terminal_width, terminal_height),
            prev_buffer: Buffer::new(terminal_width, terminal_height),
            terminal_size: Size::new(terminal_width, terminal_height),
        }
    }

    fn swap_buffers(&mut self)
        ensures
            final(self).current_buffer == old(self).prev_buffer,
            final(self).prev_buffer == old(self).current_buffer,
            final(self).terminal_size == old(self).terminal_size,
    {
        std::mem::swap(&mut self.current_buffer, &mut self.prev_buffer);
    }

    /// Renders `view` at the top left of the screen and appends the commands
    /// that bring the screen up to date.
    pub fn render<V: View>(&mut self, view: &V, state: &mut AppState, out: &mut Vec<TermCommand>)
        requires
            old(self).wf(),
            old(state).wf(),
            view.spec_size(old(self).terminal_size).height <= old(self).terminal_size.height,
            view.spec_size(old(self).terminal_size).width <= old(self).terminal_size.width,
        ensures
            final(self).wf(),
            final(state).wf(),
            final(self).terminal_size == old(self).terminal_size,
            view.spec_render(
                Seq::empty(),
                Context {
                    rect: Rect {
                        point: Point { x: 0, y: 0 },
                        size: view.spec_size(old(self).terminal_size),
                    },
                    fg: Color::Reset,
                    modifier: Modifier { bits: 0 },
                },
                old(state).view(),
                old(self).prev_buffer,
                final(state).view(),
                final(self).current_buffer,
            ),
            forall|i: int|
                0 <= i < final(self).prev_buffer.cells@.len() ==> blank_cell(
                    #[trigger] final(self).prev_buffer.cells@[i],
                ),
            exists|d: Seq<(u16, u16, Cell)>|
                final(self).current_buffer.is_diff(&old(self).current_buffer, d) && final(out)@
                    == frame_emission(old(out)@, d),
    {
        self.swap_buffers();
        let size = view.size(self.terminal_size);
        let rect = Rect::new(0, 0, size.width, size.height);
        let mut id = ViewId::empty();
        view.render(&mut id, Context::new(rect), state, &mut self.current_buffer);
        print_buffer(&self.current_buffer, &mut self.prev_buffer, out);
    }

    /// Appends the command that clears the screen, and starts over with
    /// blank buffers of the new size.
    pub fn resize(&mut self, terminal_width: u16, terminal_height: u16, out: &mut Vec<TermCommand>)
        ensures
            final(self).wf(),
            final(self).terminal_size == Size::new_spec(terminal_width, terminal_height),
            final(out)@ == old(out)@.push(TermCommand::ClearAll),
    {
        out.push(TermCommand::ClearAll);
        self.current_buffer = Buffer::new(terminal_width, terminal_height);
        self.prev_buffer = Buffer::new(terminal_width, terminal_height);
        self.terminal_size = Size::new(terminal_width, terminal_height);
    }

    /// The whole screen is the view's: nothing to move.
    pub fn move_cursor_to_bottom_of_current_view(&self, out: &mut Vec<TermCommand>)
        ensures
            final(out)@ == old(out)@,
    {
    }
}

/// What an application driver needs of a renderer: render a frame, follow
/// a resize, and leave the cursor below the view at exit.
pub trait Renderer: Sized {
    spec fn spec_wf(&self) -> bool;

    spec fn spec_terminal_size(&self) -> Size;

    fn render<V: View>(&mut self, view: &V, state: &mut AppState, out: &mut Vec<TermCommand>)
        requires
            old(self).spec_wf(),
            old(state).wf(),
            view.spec_size(old(self).spec_terminal_size()).height <= old(self).spec_terminal_size().height,
            view.spec_size(old(self).spec_terminal_size()).width <= old(self).spec_terminal_size().width,
        ensures
            final(self).spec_wf(),
            final(state).wf(),
            final(self).spec_terminal_size() == old(self).spec_terminal_size(),
    ;

    fn resize(&mut self, terminal_width: u16, terminal_height: u16, out: &mut Vec<TermCommand>)
        ensures
            final(self).spec_wf(),
            final(self).spec_terminal_size() == Size::new_spec(terminal_width, terminal_height),
    ;

    fn move_cursor_to_bottom_of_current_view(&self, out: &mut Vec<TermCommand>);
}

impl Renderer for InlineRenderer {
    open spec fn spec_wf(&self) -> bool {
        self.wf()
    }

    open spec fn spec_terminal_size(&self) -> Size {
        self.terminal_size
    }

    fn render<V: View>(&mut self, view: &V, state: &mut AppState, out: &mut Vec<TermCommand>) {
        InlineRenderer::render(self, view, state, out)
    }

    fn resize(&mut self, terminal_width: u16, terminal_height: u16, out: &mut Vec<TermCommand>) {
        InlineRenderer::resize(self, terminal_width, terminal_height, out)
    }

    fn move_cursor_to_bottom_of_current_view(&self, out: &mut Vec<TermCommand>) {
        InlineRenderer::move_cursor_to_bottom_of_current_view(self, out)
    }
}

impl Renderer for FullScreenRenderer {
    open spec fn spec_wf(&self) -> bool {
        self.wf()
    }

    open spec fn spec_terminal_size(&self) -> Size {
        self.terminal_size
    }

    fn render<V: View>(&mut self, view: &V, state: &mut AppState, out: &mut Vec<TermCommand>) {
        FullScreenRenderer::render(self, view, state, out)
    }

    fn resize(&mut self, terminal_width: u16, terminal_height: u16, out: &mut Vec<TermCommand>) {
        FullScreenRenderer::resize(self, terminal_width, terminal_height, out)
    }

    fn move_cursor_to_bottom_of_current_view(&self, out: &mut Vec<TermCommand>) {
        FullScreenRenderer::move_cursor_to_bottom_of_current_view(self, out)
    }
}

impl Renderer for SomeRenderer {
    open spec fn spec_wf(&self) -> bool {
        self.wf()
    }

    open spec fn spec_terminal_size(&self) -> Size {
        self.terminal_size()
    }

    fn render<V: View>(&mut self, view: &V, state: &mut AppState, out: &mut Vec<TermCommand>) {
        SomeRenderer::render(self, view, state, out)
    }

    fn resize(&mut self, terminal_width: u16, terminal_height: u16, out: &mut Vec<TermCommand>) {
        SomeRenderer::resize(self, terminal_width, terminal_height, out)
    }

    fn move_cursor_to_bottom_of_current_view(&self, out: &mut Vec<TermCommand>) {
        SomeRenderer::move_cursor_to_bottom_of_current_view(self, out)
    }
}

/// Either renderer, chosen when the application starts.
pub enum SomeRenderer {
    FullScreen(FullScreenRenderer),
    Inline(InlineRenderer),
}

impl SomeRenderer {
    pub open spec fn wf(&self) -> bool {
        match self {
            SomeRenderer::FullScreen(r) => r.wf(),
            SomeRenderer::Inline(r) => r.wf(),
        }
    }

    pub open spec fn terminal_size(&self) -> Size {
        match self {
            SomeRenderer::FullScreen(r) => r.terminal_size,
            SomeRenderer::Inline(r) => r.terminal_size,
        }
    }

    pub fn render<V: View>(&mut self, view: &V, state: &mut AppState, out: &mut Vec<TermCommand>)
        requires
            old(self).wf(),
            old(state).wf(),
            view.spec_size(old(self).terminal_size()).height <= old(self).terminal_size().height,
            view.spec_size(old(self).terminal_size()).width <= old(self).terminal_size().width,
        ensures
            final(self).wf(),
            final(state).wf(),
            final(self).terminal_size() == old(self).terminal_size(),
    {
        match self {
            SomeRenderer::FullScreen(r) => r.render(view, state, out),
            SomeRenderer::Inline(r) => r.render(view, state, out),
        }
    }

    pub fn resize(&mut self, terminal_width: u16, terminal_height: u16, out: &mut Vec<TermCommand>)
        ensures
            final(self).wf(),
            final(self).terminal_size() == Size::new_spec(terminal_width, terminal_height),
    {
        match self {
            SomeRenderer::FullScreen(r) => r.resize(terminal_width, terminal_height, out),
            SomeRenderer::Inline(r) => r.resize(terminal_width, terminal_height, out),
        }
    }

    pub fn move_cursor_to_bottom_of_current_view(&self, out: &mut Vec<TermCommand>) {
        match self {
            SomeRenderer::FullScreen(r) => r.move_cursor_to_bottom_of_current_view(out),
            SomeRenderer::Inline(r) => r.move_cursor_to_bottom_of_current_view(out),
        }
    }
}

} // verus!
