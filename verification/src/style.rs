//! Terminal colours and text styles, as plain values.
//!
//! `Style` follows the terminal library's own style semantics: setting a
//! colour replaces it; adding a modifier also withdraws it from the removed
//! set, and removing one does the converse.

use vstd::prelude::*;

verus! {

/// A terminal colour: the sixteen named colours, the terminal's default,
/// 24-bit RGB and the 256-colour palette.
#[derive(Clone, Copy, Debug, PartialEq, Eq, Structural)]
pub enum Color {
    Reset,
    Black,
    Red,
    Green,
    Yellow,
    Blue,
    Magenta,
    Cyan,
    Gray,
    DarkGray,
    LightRed,
    LightGreen,
    LightYellow,
    LightBlue,
    LightMagenta,
    LightCyan,
    White,
    Rgb(u8, u8, u8),
    Indexed(u8),
}

/// A set of the text modifiers that chat styling uses.
#[derive(Clone, Copy, Debug, PartialEq, Eq, Structural)]
pub struct Modifiers {
    pub bold: bool,
    pub italic: bool,
    pub underlined: bool,
}

/// One text modifier.
#[derive(Clone, Copy, Debug, PartialEq, Eq, Structural)]
pub enum Modifier {
    Bold,
    Italic,
    Underlined,
}

impl Modifiers {
    /// The empty set.
    pub open spec fn spec_none() -> Modifiers {
        Modifiers { bold: false, italic: false, underlined: false }
    }

    /// The empty set.
    pub fn none() -> (r: Modifiers)
        ensures
            r == Modifiers::spec_none(),
    {
        Modifiers { bold: false, italic: false, underlined: false }
    }

    /// Membership of one modifier.
    pub open spec fn has(self, m: Modifier) -> bool {
        match m {
            Modifier::Bold => self.bold,
            Modifier::Italic => self.italic,
            Modifier::Underlined => self.underlined,
        }
    }

    /// This set with `m` added (`true`) or taken out (`false`).
    pub open spec fn spec_set(self, m: Modifier, on: bool) -> Modifiers {
        match m {
            Modifier::Bold => Modifiers { bold: on, ..self },
            Modifier::Italic => Modifiers { italic: on, ..self },
            Modifier::Underlined => Modifiers { underlined: on, ..self },
        }
    }

    /// This set with `m` added (`true`) or taken out (`false`).
    pub fn set(self, m: Modifier, on: bool) -> (r: Modifiers)
        ensures
            r == self.spec_set(m, on),
    {
        match m {
            Modifier::Bold => Modifiers { bold: on, ..self },
            Modifier::Italic => Modifiers { italic: on, ..self },
            Modifier::Underlined => Modifiers { underlined: on, ..self },
        }
    }
}

/// Foreground and background colours (unset when `None`) and the modifiers
/// to add and to remove.
#[derive(Clone, Copy, Debug, PartialEq, Eq, Structural)]
pub struct Style {
    pub fg: Option<Color>,
    pub bg: Option<Color>,
    pub add_modifier: Modifiers,
    pub sub_modifier: Modifiers,
}

impl Style {
    /// The style that changes nothing.
    pub open spec fn spec_default() -> Style {
        Style {
            fg: None,
            bg: None,
            add_modifier: Modifiers::spec_none(),
            sub_modifier: Modifiers::spec_none(),
        }
    }

    /// The style that changes nothing.
    pub fn new() -> (r: Style)
        ensures
            r == Style::spec_default(),
    {
        Style { fg: None, bg: None, add_modifier: Modifiers::none(), sub_modifier: Modifiers::none() }
    }

    pub open spec fn spec_fg(self, c: Color) -> Style {
        Style { fg: Some(c), ..self }
    }

    /// This style with foreground `c`.
    pub fn fg(self, c: Color) -> (r: Style)
        ensures
            r == self.spec_fg(c),
    {
        Style { fg: Some(c), ..self }
    }

    pub open spec fn spec_bg(self, c: Color) -> Style {
        Style { bg: Some(c), ..self }
    }

    /// This style with background `c`.
    pub fn bg(self, c: Color) -> (r: Style)
        ensures
            r == self.spec_bg(c),
    {
        Style { bg: Some(c), ..self }
    }

    pub open spec fn spec_add_modifier(self, m: Modifier) -> Style {
        Style {
            add_modifier: self.add_modifier.spec_set(m, true),
            sub_modifier: self.sub_modifier.spec_set(m, false),
            ..self
        }
    }

    /// This style with `m` switched on.
    pub fn add_modifier(self, m: Modifier) -> (r: Style)
        ensures
            r == self.spec_add_modifier(m),
    {
        Style { add_modifier: self.add_modifier.set(m, true), sub_modifier: self.sub_modifier.set(m, false), ..self }
    }

    pub open spec fn spec_remove_modifier(self, m: Modifier) -> Style {
        Style {
            add_modifier: self.add_modifier.spec_set(m, false),
            sub_modifier: self.sub_modifier.spec_set(m, true),
            ..self
        }
    }

    /// This style with `m` switched off.
    pub fn remove_modifier(self, m: Modifier) -> (r: Style)
        ensures
            r == self.spec_remove_modifier(m),
    {
        Style { add_modifier: self.add_modifier.set(m, false), sub_modifier: self.sub_modifier.set(m, true), ..self }
    }
}

} // verus!
