use vstd::prelude::*;

verus! {

/// A terminal color: the sixteen named colors, the terminal's default
/// (`Reset`), a 256-color palette index, or a 24-bit value.
#[derive(Clone, Copy, Debug, PartialEq, Eq, Structural)]
pub enum Color {
    Reset,
    Black,
    DarkGrey,
    Red,
    DarkRed,
    Green,
    DarkGreen,
    Yellow,
    DarkYellow,
    Blue,
    DarkBlue,
    Magenta,
    DarkMagenta,
    Cyan,
    DarkCyan,
    White,
    Grey,
    Rgb { r: u8, g: u8, b: u8 },
    AnsiValue(u8),
}

pub const MOD_RESET: u16 = 0x1;
pub const MOD_BOLD: u16 = 0x2;
pub const MOD_DIM: u16 = 0x4;
pub const MOD_ITALIC: u16 = 0x8;
pub const MOD_UNDERLINE: u16 = 0x10;
pub const MOD_BLINK: u16 = 0x20;
pub const MOD_INVERSE: u16 = 0x40;
pub const MOD_HIDDEN: u16 = 0x80;
pub const MOD_STRIKETHROUGH: u16 = 0x100;

/// A set of text attributes, one bit per attribute.
#[derive(Clone, Copy, Debug, PartialEq, Eq, Structural)]
pub struct Modifier {
    pub bits: u16,
}

impl Modifier {
    #[verifier::opaque]
    pub open spec fn has(self, flag: u16) -> bool {
        self.bits & flag == flag
    }

    pub fn empty() -> (r: Modifier)
        ensures
            r.bits == 0,
    {
        Modifier { bits: 0 }
    }

    pub fn from_bits(bits: u16) -> (r: Modifier)
        ensures
            r.bits == bits,
    {
        Modifier { bits }
    }

    pub fn bold() -> (r: Modifier)
        ensures
            r.bits == MOD_BOLD,
    {
        Modifier { bits: MOD_BOLD }
    }

    pub fn dim() -> (r: Modifier)
        ensures
            r.bits == MOD_DIM,
    {
        Modifier { bits: MOD_DIM }
    }

    pub fn italic() -> (r: Modifier)
        ensures
            r.bits == MOD_ITALIC,
    {
        Modifier { bits: MOD_ITALIC }
    }

    pub fn underline() -> (r: Modifier)
        ensures
            r.bits == MOD_UNDERLINE,
    {
        Modifier { bits: MOD_UNDERLINE }
    }

    pub fn strikethrough() -> (r: Modifier)
        ensures
            r.bits == MOD_STRIKETHROUGH,
    {
        Modifier { bits: MOD_STRIKETHROUGH }
    }

    /// Whether every attribute of `other` is set in `self`.
    pub fn contains(&self, other: Modifier) -> (r: bool)
        ensures
            r == self.has(other.bits),
    {
        reveal(Modifier::has);
        self.bits & other.bits == other.bits
    }

    /// Whether the single attribute `flag` is set.
    pub fn contains_flag(&self, flag: u16) -> (r: bool)
        ensures
            r == self.has(flag),
    {
        reveal(Modifier::has);
        self.bits & flag == flag
    }

    /// The attributes set in either modifier.
    pub fn union(self, other: Modifier) -> (r: Modifier)
        ensures
            r.bits == self.bits | other.bits,
    {
        Modifier { bits: self.bits | other.bits }
    }

    /// The attributes set in `self` but not in `other`.
    pub fn difference(self, other: Modifier) -> (r: Modifier)
        ensures
            r.bits == self.bits & !other.bits,
    {
        Modifier { bits: self.bits & !other.bits }
    }
}

/// A single SGR attribute change.
#[derive(Clone, Copy, Debug, PartialEq, Eq, Structural)]
pub enum Attribute {
    Reset,
    Bold,
    Dim,
    Italic,
    Underlined,
    SlowBlink,
    Reverse,
    Hidden,
    CrossedOut,
    NormalIntensity,
    NoItalic,
    NoUnderline,
    NoBlink,
    NoReverse,
    NoHidden,
    NotCrossedOut,
}

/// One instruction of the escape-sequence stream sent to the terminal.
#[derive(Clone, Debug)]
pub enum TermCommand {
    SetForeground(Color),
    SetBackground(Color),
    SetAttribute(Attribute),
    MoveTo(u16, u16),
    MoveUp(u16),
    ScrollUp(u16),
    Print(String),
    /// Starts a new line of text.
    LineBreak,
    ClearAll,
    ClearFromCursorDown,
}

/// `out` with `c` appended when `cond` holds.
pub open spec fn push_when(out: Seq<TermCommand>, cond: bool, c: TermCommand) -> Seq<TermCommand> {
    if cond {
        out.push(c)
    } else {
        out
    }
}

/// `out` followed by the intensity commands: switching bold or dim off resets
/// the intensity slot that the two share, after which whichever of the two
/// remains in `next` is asserted again.
pub open spec fn intensity_commands(out: Seq<TermCommand>, next: Modifier, removed: Modifier) -> Seq<
    TermCommand,
> {
    if removed.has(MOD_BOLD) || removed.has(MOD_DIM) {
        let reset = out.push(TermCommand::SetAttribute(Attribute::NormalIntensity));
        if next.has(MOD_DIM) {
            reset.push(TermCommand::SetAttribute(Attribute::Dim))
        } else if next.has(MOD_BOLD) {
            reset.push(TermCommand::SetAttribute(Attribute::Bold))
        } else {
            reset
        }
    } else {
        out
    }
}

/// `out` followed by a command that switches off each removed attribute other than intensity.
pub open spec fn removed_commands(out: Seq<TermCommand>, removed: Modifier) -> Seq<TermCommand> {
    push_when(
        push_when(
        push_when(
        push_when(
        push_when(
        push_when(
        out,
        removed.has(MOD_ITALIC),
        TermCommand::SetAttribute(Attribute::NoItalic),
    ),
        removed.has(MOD_UNDERLINE),
        TermCommand::SetAttribute(Attribute::NoUnderline),
    ),
        removed.has(MOD_BLINK),
        TermCommand::SetAttribute(Attribute::NoBlink),
    ),
        removed.has(MOD_INVERSE),
        TermCommand::SetAttribute(Attribute::NoReverse),
    ),
        removed.has(MOD_HIDDEN),
        TermCommand::SetAttribute(Attribute::NoHidden),
    ),
        removed.has(MOD_STRIKETHROUGH),
        TermCommand::SetAttribute(Attribute::NotCrossedOut),
    )
}

/// `out` followed by a command that switches on each added attribute.
pub open spec fn added_commands(out: Seq<TermCommand>, added: Modifier) -> Seq<TermCommand> {
    push_when(
        push_when(
        push_when(
        push_when(
        push_when(
        push_when(
        push_when(
        push_when(
        out,
        added.has(MOD_BOLD),
        TermCommand::SetAttribute(Attribute::Bold),
    ),
        added.has(MOD_DIM),
        TermCommand::SetAttribute(Attribute::Dim),
    ),
        added.has(MOD_ITALIC),
        TermCommand::SetAttribute(Attribute::Italic),
    ),
        added.has(MOD_UNDERLINE),
        TermCommand::SetAttribute(Attribute::Underlined),
    ),
        added.has(MOD_BLINK),
        TermCommand::SetAttribute(Attribute::SlowBlink),
    ),
        added.has(MOD_INVERSE),
        TermCommand::SetAttribute(Attribute::Reverse),
    ),
        added.has(MOD_HIDDEN),
        TermCommand::SetAttribute(Attribute::Hidden),
    ),
        added.has(MOD_STRIKETHROUGH),
        TermCommand::SetAttribute(Attribute::CrossedOut),
    )
}

/// `out` followed by the commands that switch the terminal from the
/// attributes `previous` to the attributes `next`: removed attributes are
/// switched off first, then added ones are switched on.
pub open spec fn modifier_diff_commands(out: Seq<TermCommand>, next: Modifier, previous: Modifier) -> Seq<
    TermCommand,
> {
    let removed = Modifier { bits: previous.bits & !next.bits };
    let added = Modifier { bits: next.bits & !previous.bits };
    added_commands(removed_commands(intensity_commands(out, next, removed), removed), added)
}

fn push_if(out: &mut Vec<TermCommand>, cond: bool, attribute: Attribute)
    ensures
        final(out)@ == push_when(old(out)@, cond, TermCommand::SetAttribute(attribute)),
{
    if cond {
        out.push(TermCommand::SetAttribute(attribute));
    }
}

fn write_intensity(next: Modifier, removed: Modifier, out: &mut Vec<TermCommand>)
    ensures
        final(out)@ == intensity_commands(old(out)@, next, removed),
{
    if removed.contains_flag(MOD_BOLD) || removed.contains_flag(MOD_DIM) {
        out.push(TermCommand::SetAttribute(Attribute::NormalIntensity));
        if next.contains_flag(MOD_DIM) {
            out.push(TermCommand::SetAttribute(Attribute::Dim));
        } else if next.contains_flag(MOD_BOLD) {
            out.push(TermCommand::SetAttribute(Attribute::Bold));
        }
    }
}

/// Appends the commands that switch off the removed attributes.
fn write_removed(removed: Modifier, out: &mut Vec<TermCommand>)
    ensures
        final(out)@ == removed_commands(old(out)@, removed),
{
    push_if(out, removed.contains_flag(MOD_ITALIC), Attribute::NoItalic);
    push_if(out, removed.contains_flag(MOD_UNDERLINE), Attribute::NoUnderline);
    push_if(out, removed.contains_flag(MOD_BLINK), Attribute::NoBlink);
    push_if(out, removed.contains_flag(MOD_INVERSE), Attribute::NoReverse);
    push_if(out, removed.contains_flag(MOD_HIDDEN), Attribute::NoHidden);
    push_if(out, removed.contains_flag(MOD_STRIKETHROUGH), Attribute::NotCrossedOut);
}

/// Appends the commands that switch on the added attributes.
fn write_added(added: Modifier, out: &mut Vec<TermCommand>)
    ensures
        final(out)@ == added_commands(old(out)@, added),
{
    push_if(out, added.contains_flag(MOD_BOLD), Attribute::Bold);
    push_if(out, added.contains_flag(MOD_DIM), Attribute::Dim);
    push_if(out, added.contains_flag(MOD_ITALIC), Attribute::Italic);
    push_if(out, added.contains_flag(MOD_UNDERLINE), Attribute::Underlined);
    push_if(out, added.contains_flag(MOD_BLINK), Attribute::SlowBlink);
    push_if(out, added.contains_flag(MOD_INVERSE), Attribute::Reverse);
    push_if(out, added.contains_flag(MOD_HIDDEN), Attribute::Hidden);
    push_if(out, added.contains_flag(MOD_STRIKETHROUGH), Attribute::CrossedOut);
}

impl Modifier {
    /// Appends to `out` the commands that switch the terminal from the
    /// attributes `previous` to the attributes `next`.
    pub fn write_diff(next: Modifier, previous: Modifier, out: &mut Vec<TermCommand>)
        ensures
            final(out)@ == modifier_diff_commands(old(out)@, next, previous),
    {
        let removed = previous.difference(next);
        let added = next.difference(previous);
        write_intensity(next, removed, out);
        write_removed(removed, out);
        write_added(added, out);
    }
}

} // verus!
