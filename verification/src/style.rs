//! The style value type: a plain record of foreground colour, background
//! colour and a set of text attributes, plus a styled run of text and the
//! default style table used by the core's diagnostics.

use vstd::prelude::*;
use crate::symbols::{BarSet, BlockSet, LineSet, PointerSet};
use crate::symbols::{bar_nine_levels, bar_three_levels, block_nine_levels, block_three_levels};
use crate::symbols::{line_ascii, line_normal, pointer_ascii, pointer_triangle};

verus! {

/// A terminal colour.
#[derive(Clone, Copy, PartialEq, Eq, Structural, Debug, Hash)]
pub enum Color {
    Reset,
    Black,
    DarkGrey,
    Red,
    DarkRed,
    Green,
    DarkGreen,
    Yellow,
    DarkYellow,
    Blue,
    DarkBlue,
    Magenta,
    DarkMagenta,
    Cyan,
    DarkCyan,
    White,
    Grey,
    Rgb { r: u8, g: u8, b: u8 },
    AnsiValue(u8),
}

/// One text attribute; each maps to one bit of an [`Attributes`] set.
#[derive(Clone, Copy, PartialEq, Eq, Structural, Debug, Hash)]
pub enum Attribute {
    Reset,
    Bold,
    Dim,
    Italic,
    Underlined,
    SlowBlink,
    RapidBlink,
    Reverse,
    Hidden,
    CrossedOut,
    NoReverse,
}

impl Attribute {
    /// The bit this attribute occupies in an attribute set.
    pub open spec fn spec_bit(self) -> u32 {
        match self {
            Attribute::Reset => 0x1,
            Attribute::Bold => 0x2,
            Attribute::Dim => 0x4,
            Attribute::Italic => 0x8,
            Attribute::Underlined => 0x10,
            Attribute::SlowBlink => 0x20,
            Attribute::RapidBlink => 0x40,
            Attribute::Reverse => 0x80,
            Attribute::Hidden => 0x100,
            Attribute::CrossedOut => 0x200,
            Attribute::NoReverse => 0x400,
        }
    }

    pub fn bit(self) -> (r: u32)
        ensures
            r == self.spec_bit(),
    {
        match self {
            Attribute::Reset => 0x1,
            Attribute::Bold => 0x2,
            Attribute::Dim => 0x4,
            Attribute::Italic => 0x8,
            Attribute::Underlined => 0x10,
            Attribute::SlowBlink => 0x20,
            Attribute::RapidBlink => 0x40,
            Attribute::Reverse => 0x80,
            Attribute::Hidden => 0x100,
            Attribute::CrossedOut => 0x200,
            Attribute::NoReverse => 0x400,
        }
    }
}

/// A set of text attributes, one bit per [`Attribute`].
#[derive(Clone, Copy, PartialEq, Eq, Structural, Debug, Hash)]
pub struct Attributes {
    pub bits: u32,
}

impl Attributes {
    pub fn empty() -> (r: Self)
        ensures
            r.bits == 0u32,
    {
        Attributes { bits: 0 }
    }

    /// Whether the set holds `attribute`.
    pub open spec fn spec_has(self, attribute: Attribute) -> bool {
        self.bits & attribute.spec_bit() != 0
    }

    pub fn has(&self, attribute: Attribute) -> (r: bool)
        ensures
            r == self.spec_has(attribute),
    {
        self.bits & attribute.bit() != 0
    }

    /// Add `attribute` to the set.
    pub fn set(&mut self, attribute: Attribute)
        ensures
            final(self).bits == old(self).bits | attribute.spec_bit(),
    {
        self.bits = self.bits | attribute.bit();
    }

    /// Remove `attribute` from the set.
    pub fn unset(&mut self, attribute: Attribute)
        ensures
            final(self).bits == old(self).bits & !attribute.spec_bit(),
    {
        self.bits = self.bits & !attribute.bit();
    }
}

impl Default for Attributes {
    fn default() -> (r: Self)
        ensures
            r.bits == 0u32,
    {
        Attributes { bits: 0 }
    }
}

/// How a run of text is drawn: colours and attributes.
#[derive(Clone, Copy, PartialEq, Eq, Structural, Debug, Hash)]
pub struct Style {
    pub fg: Color,
    pub bg: Color,
    pub attributes: Attributes,
}

impl Style {
    /// The default style: white on the terminal's own background, no
    /// attributes.
    pub open spec fn spec_default() -> Style {
        Style { fg: Color::White, bg: Color::Reset, attributes: Attributes { bits: 0u32 } }
    }

    pub fn new() -> (r: Self)
        ensures
            r == Style::spec_default(),
    {
        Style { fg: Color::White, bg: Color::Reset, attributes: Attributes { bits: 0 } }
    }

    pub fn forground(self, forground: Color) -> (r: Self)
        ensures
            r == (Style { fg: forground, ..self }),
    {
        Style { fg: forground, ..self }
    }

    pub fn background(self, background: Color) -> (r: Self)
        ensures
            r == (Style { bg: background, ..self }),
    {
        Style { bg: background, ..self }
    }

    pub fn attributes(self, attributes: Attributes) -> (r: Self)
        ensures
            r == (Style { attributes, ..self }),
    {
        Style { attributes, ..self }
    }

    pub fn set_attribute(self, attribute: Attribute) -> (r: Self)
        ensures
            r.fg == self.fg,
            r.bg == self.bg,
            r.attributes.bits == self.attributes.bits | attribute.spec_bit(),
    {
        let mut attributes = self.attributes;
        attributes.set(attribute);
        Style { attributes, ..self }
    }

    pub fn unset_attribute(self, attribute: Attribute) -> (r: Self)
        ensures
            r.fg == self.fg,
            r.bg == self.bg,
            r.attributes.bits == self.attributes.bits & !attribute.spec_bit(),
    {
        let mut attributes = self.attributes;
        attributes.unset(attribute);
        Style { attributes, ..self }
    }

    pub fn set_underlined(self) -> (r: Self)
        ensures
            r.fg == self.fg,
            r.bg == self.bg,
            r.attributes.bits == self.attributes.bits | Attribute::Underlined.spec_bit(),
    {
        self.set_attribute(Attribute::Underlined)
    }

    pub fn set_rapid_blink(self) -> (r: Self)
        ensures
            r.fg == self.fg,
            r.bg == self.bg,
            r.attributes.bits == self.attributes.bits | Attribute::RapidBlink.spec_bit(),
    {
        self.set_attribute(Attribute::RapidBlink)
    }

    pub fn set_bold(self) -> (r: Self)
        ensures
            r.fg == self.fg,
            r.bg == self.bg,
            r.attributes.bits == self.attributes.bits | Attribute::Bold.spec_bit(),
    {
        self.set_attribute(Attribute::Bold)
    }

    pub fn set_reverse(self) -> (r: Self)
        ensures
            r.fg == self.fg,
            r.bg == self.bg,
            r.attributes.bits == self.attributes.bits | Attribute::Reverse.spec_bit(),
    {
        self.set_attribute(Attribute::Reverse)
    }
}

impl Default for Style {
    fn default() -> (r: Self)
        ensures
            r == Style::spec_default(),
    {
        Style::new()
    }
}

/// A run of text with the style it is drawn in.
#[derive(Debug, Clone, PartialEq)]
pub struct StyledText {
    pub text: Vec<char>,
    pub style: Style,
}

impl StyledText {
    pub fn new(text: Vec<char>) -> (r: Self)
        ensures
            r.text == text,
            r.style == Style::spec_default(),
    {
        StyledText { text, style: Style::new() }
    }

    pub fn styled(text: Vec<char>, style: Style) -> (r: Self)
        ensures
            r.text == text,
            r.style == style,
    {
        StyledText { text, style }
    }

    pub fn fg(&mut self, color: Color)
        ensures
            final(self).text == old(self).text,
            final(self).style == (Style { fg: color, ..old(self).style }),
    {
        self.style.fg = color;
    }

    pub fn bg(&mut self, color: Color)
        ensures
            final(self).text == old(self).text,
            final(self).style == (Style { bg: color, ..old(self).style }),
    {
        self.style.bg = color;
    }

    pub fn modifiers(&mut self, attributes: Attributes)
        ensures
            final(self).text == old(self).text,
            final(self).style == (Style { attributes, ..old(self).style }),
    {
        self.style.attributes = attributes;
    }

    /// Set or clear one attribute on the run's style.
    pub fn toggle_attribute(&mut self, attribute: Attribute, show: bool)
        ensures
            final(self).text == old(self).text,
            final(self).style.fg == old(self).style.fg,
            final(self).style.bg == old(self).style.bg,
            final(self).style.attributes.bits == if show {
                old(self).style.attributes.bits | attribute.spec_bit()
            } else {
                old(self).style.attributes.bits & !attribute.spec_bit()
            },
    {
        if show {
            self.style.attributes.set(attribute);
        } else {
            self.style.attributes.unset(attribute);
        }
    }

    pub fn underline(&mut self, show: bool)
        ensures
            final(self).text == old(self).text,
            final(self).style.fg == old(self).style.fg,
            final(self).style.bg == old(self).style.bg,
            final(self).style.attributes.bits == if show {
                old(self).style.attributes.bits | Attribute::Underlined.spec_bit()
            } else {
                old(self).style.attributes.bits & !Attribute::Underlined.spec_bit()
            },
    {
        self.toggle_attribute(Attribute::Underlined, show);
    }

    pub fn bold(&mut self, show: bool)
        ensures
            final(self).text == old(self).text,
            final(self).style.fg == old(self).style.fg,
            final(self).style.bg == old(self).style.bg,
            final(self).style.attributes.bits == if show {
                old(self).style.attributes.bits | Attribute::Bold.spec_bit()
            } else {
                old(self).style.attributes.bits & !Attribute::Bold.spec_bit()
            },
    {
        self.toggle_attribute(Attribute::Bold, show);
    }
}

/// The default style table: the looks of a button in each interaction state,
/// and which glyph tables to draw lines, blocks, bars and pointers from.
#[derive(Clone, Copy, Debug, PartialEq, Eq, Structural)]
pub struct DefaultStyle {
    pub button: Style,
    pub button_hovered: Style,
    pub button_clicked: Style,
    pub button_focused: Style,
    pub button_active: Style,
    pub button_active_hovered: Style,
    pub button_active_clicked: Style,
    pub button_active_focused: Style,
    pub lines: LineSet,
    pub blocks: BlockSet,
    pub bars: BarSet,
    pub pointers: PointerSet,
}

/// The button styles shared by both default tables.
fn default_button_styles() -> (r: (Style, Style, Style, Style, Style, Style, Style, Style))
    ensures
        r.0 == (Style {
            fg: Color::White,
            bg: Color::Black,
            attributes: Attributes { bits: 0u32 },
        }),
        r.1.bg == Color::Black && r.1.attributes.bits == Attribute::Underlined.spec_bit(),
        r.2.bg == Color::Blue && r.2.attributes.bits == Attribute::Underlined.spec_bit(),
        r.3 == r.0,
        r.4.bg == Color::Grey && r.4.attributes.bits == 0u32,
        r.5.bg == Color::Grey && r.5.attributes.bits == Attribute::Underlined.spec_bit(),
        r.6 == r.2,
        r.7 == r.4,
{
    let plain = Style { fg: Color::White, bg: Color::Black, attributes: Attributes { bits: 0 } };
    let hovered = Style {
        fg: Color::White,
        bg: Color::Black,
        attributes: Attributes { bits: Attribute::Underlined.bit() },
    };
    let clicked = Style {
        fg: Color::White,
        bg: Color::Blue,
        attributes: Attributes { bits: Attribute::Underlined.bit() },
    };
    let active = Style { fg: Color::White, bg: Color::Grey, attributes: Attributes { bits: 0 } };
    let active_hovered = Style {
        fg: Color::White,
        bg: Color::Grey,
        attributes: Attributes { bits: Attribute::Underlined.bit() },
    };
    (plain, hovered, clicked, plain, active, active_hovered, clicked, active)
}

impl DefaultStyle {
    /// The default table over the Unicode box-drawing and block glyphs.
    pub fn new_unicode() -> (r: Self)
        ensures
            r.lines == crate::symbols::spec_line_normal(),
            r.blocks.full == '█',
            r.bars.full == '█',
            r.pointers.right == '▶',
    {
        let b = default_button_styles();
        DefaultStyle {
            button: b.0,
            button_hovered: b.1,
            button_clicked: b.2,
            button_focused: b.3,
            button_active: b.4,
            button_active_hovered: b.5,
            button_active_clicked: b.6,
            button_active_focused: b.7,
            lines: line_normal(),
            blocks: block_nine_levels(),
            bars: bar_nine_levels(),
            pointers: pointer_triangle(),
        }
    }

    /// The same table over plain ASCII glyphs.
    pub fn new_ascii() -> (r: Self)
        ensures
            r.lines.vertical == '|',
            r.lines.horizontal == '-',
            r.blocks.full == '█',
            r.pointers.right == '>',
    {
        let b = default_button_styles();
        DefaultStyle {
            button: b.0,
            button_hovered: b.1,
            button_clicked: b.2,
            button_focused: b.3,
            button_active: b.4,
            button_active_hovered: b.5,
            button_active_clicked: b.6,
            button_active_focused: b.7,
            lines: line_ascii(),
            blocks: block_three_levels(),
            bars: bar_three_levels(),
            pointers: pointer_ascii(),
        }
    }
}

} // verus!
