use crate::color::{Color, Modifier, TermCommand, Attribute, MOD_BOLD, MOD_ITALIC, MOD_UNDERLINE, MOD_DIM, MOD_INVERSE, MOD_STRIKETHROUGH, push_when};
use vstd::prelude::*;

verus! {

/// One terminal character position: a grapheme cluster with its colors and
/// attributes.
#[derive(Clone, Debug)]
pub struct Cell {
    pub symbol: String,
    pub fg: Color,
    pub bg: Color,
    pub modifier: Modifier,
}

/// The content of a blank cell: a plain space with no color or attribute.
pub open spec fn blank_cell(c: Cell) -> bool {
    &&& c.symbol@ == seq![' ']
    &&& c.fg == Color::Reset
    &&& c.bg == Color::Reset
    &&& c.modifier.bits == 0
}

/// Two cells show the same thing.
pub open spec fn same_cell(a: Cell, b: Cell) -> bool {
    &&& a.symbol@ == b.symbol@
    &&& a.fg == b.fg
    &&& a.bg == b.bg
    &&& a.modifier == b.modifier
}

/// `out` followed by the commands that draw one cell on its own: colors,
/// attributes, the symbol, then a reset of everything.
pub open spec fn cell_commands(out: Seq<TermCommand>, c: Cell) -> Seq<TermCommand> {
    let colors = out.push(TermCommand::SetForeground(c.fg)).push(TermCommand::SetBackground(c.bg));
    let a1 = push_when(colors, c.modifier.has(MOD_BOLD), TermCommand::SetAttribute(Attribute::Bold));
    let a2 = push_when(a1, c.modifier.has(MOD_ITALIC), TermCommand::SetAttribute(Attribute::Italic));
    let a3 = push_when(
        a2,
        c.modifier.has(MOD_UNDERLINE),
        TermCommand::SetAttribute(Attribute::Underlined),
    );
    let a4 = push_when(a3, c.modifier.has(MOD_DIM), TermCommand::SetAttribute(Attribute::Dim));
    let a5 = push_when(a4, c.modifier.has(MOD_INVERSE), TermCommand::SetAttribute(Attribute::Reverse));
    let a6 = push_when(
        a5,
        c.modifier.has(MOD_STRIKETHROUGH),
        TermCommand::SetAttribute(Attribute::CrossedOut),
    );
    a6.push(TermCommand::Print(c.symbol)).push(TermCommand::SetForeground(Color::Reset)).push(
        TermCommand::SetBackground(Color::Reset),
    ).push(TermCommand::SetAttribute(Attribute::Reset))
}

fn push_attribute_if(out: &mut Vec<TermCommand>, cond: bool, attribute: Attribute)
    ensures
        final(out)@ == push_when(old(out)@, cond, TermCommand::SetAttribute(attribute)),
{
    if cond {
        out.push(TermCommand::SetAttribute(attribute));
    }
}

impl Cell {
    pub fn set_symbol(&mut self, symbol: &str)
        ensures
            final(self).symbol@ == symbol@,
            final(self).fg == old(self).fg,
            final(self).bg == old(self).bg,
            final(self).modifier == old(self).modifier,
    {
        self.symbol = symbol.to_owned();
    }

    pub fn set_fg(&mut self, fg: Color)
        ensures
            final(self).symbol == old(self).symbol,
            final(self).fg == fg,
            final(self).bg == old(self).bg,
            final(self).modifier == old(self).modifier,
    {
        self.fg = fg;
    }

    pub fn set_bg(&mut self, bg: Color)
        ensures
            final(self).symbol == old(self).symbol,
            final(self).fg == old(self).fg,
            final(self).bg == bg,
            final(self).modifier == old(self).modifier,
    {
        self.bg = bg;
    }

    pub fn set_modifier(&mut self, modifier: Modifier)
        ensures
            final(self).symbol == old(self).symbol,
            final(self).fg == old(self).fg,
            final(self).bg == old(self).bg,
            final(self).modifier == modifier,
    {
        self.modifier = modifier;
    }

    /// A cell showing `symbol` with no color or attribute.
    pub fn new(symbol: &str) -> (r: Cell)
        ensures
            r.symbol@ == symbol@,
            r.fg == Color::Reset,
            r.bg == Color::Reset,
            r.modifier.bits == 0,
    {
        Cell { symbol: symbol.to_owned(), fg: Color::Reset, bg: Color::Reset, modifier: Modifier::empty() }
    }

    /// A blank cell.
    pub fn blank() -> (r: Cell)
        ensures
            blank_cell(r),
    {
        let space = " ";
        proof {
            reveal_strlit(" ");
            assert(space@ =~= seq![' ']);
        }
        Cell::new(space)
    }

    /// Makes the cell blank again.
    pub fn reset(&mut self)
        ensures
            blank_cell(*final(self)),
    {
        *self = Cell::blank();
    }

    /// A copy of the cell that shows the same thing.
    pub fn copied(&self) -> (r: Cell)
        ensures
            r == *self,
    {
        Cell { symbol: self.symbol.clone(), fg: self.fg, bg: self.bg, modifier: self.modifier }
    }

    /// Whether two cells show the same thing.
    pub fn same_as(&self, other: &Cell) -> (r: bool)
        ensures
            r == same_cell(*self, *other),
    {
        self.symbol == other.symbol && self.fg == other.fg && self.bg == other.bg
            && self.modifier == other.modifier
    }

    /// Appends the commands that draw this cell on its own, with its colors
    /// and attributes set before the symbol and reset after it.
    pub fn write_commands(&self, out: &mut Vec<TermCommand>)
        ensures
            final(out)@ == cell_commands(old(out)@, *self),
    {
        out.push(TermCommand::SetForeground(self.fg));
        out.push(TermCommand::SetBackground(self.bg));
        push_attribute_if(out, self.modifier.contains_flag(MOD_BOLD), Attribute::Bold);
        push_attribute_if(out, self.modifier.contains_flag(MOD_ITALIC), Attribute::Italic);
        push_attribute_if(out, self.modifier.contains_flag(MOD_UNDERLINE), Attribute::Underlined);
        push_attribute_if(out, self.modifier.contains_flag(MOD_DIM), Attribute::Dim);
        push_attribute_if(out, self.modifier.contains_flag(MOD_INVERSE), Attribute::Reverse);
        push_attribute_if(
            out,
            self.modifier.contains_flag(MOD_STRIKETHROUGH),
            Attribute::CrossedOut,
        );
        out.push(TermCommand::Print(self.symbol.clone()));
        out.push(TermCommand::SetForeground(Color::Reset));
        out.push(TermCommand::SetBackground(Color::Reset));
        out.push(TermCommand::SetAttribute(Attribute::Reset));
    }
}

impl Default for Cell {
    fn default() -> (r: Cell)
        ensures
            blank_cell(r),
    {
        Cell::blank()
    }
}

impl PartialEq for Cell {
    fn eq(&self, other: &Cell) -> (r: bool) {
        self.same_as(other)
    }
}

impl vstd::std_specs::cmp::PartialEqSpecImpl for Cell {
    open spec fn obeys_eq_spec() -> bool {
        true
    }

    open spec fn eq_spec(&self, other: &Cell) -> bool {
        same_cell(*self, *other)
    }
}

impl Eq for Cell {
}

} // verus!
