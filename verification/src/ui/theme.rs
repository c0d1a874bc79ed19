//! The colour themes and the accents that some of them offer, by name; the
//! colours themselves are the program's.

use vstd::prelude::*;

verus! {

/// A colour theme.
#[derive(Debug, Clone, Copy, PartialEq, Eq, Structural)]
pub enum Theme {
    Latte,
    SolarizedLight,
}

/// An accent colour.
#[derive(Debug, Clone, Copy, PartialEq, Eq, Structural)]
pub enum Accent {
    Rosewater,
    Flamingo,
    Pink,
    Mauve,
    Red,
    Maroon,
    Peach,
    Yellow,
    Green,
    Teal,
    Sky,
    Sapphire,
    Blue,
    Lavender,
}

/// Every theme, in the order of its menu.
pub const THEMES: [Theme; 2] = [Theme::Latte, Theme::SolarizedLight];

/// Every accent, in the order of its menu.
pub const ACCENTS: [Accent; 14] = [
    Accent::Rosewater,
    Accent::Flamingo,
    Accent::Pink,
    Accent::Mauve,
    Accent::Red,
    Accent::Maroon,
    Accent::Peach,
    Accent::Yellow,
    Accent::Green,
    Accent::Teal,
    Accent::Sky,
    Accent::Sapphire,
    Accent::Blue,
    Accent::Lavender,
];

impl Default for Theme {
    fn default() -> (theme: Theme)
        ensures
            theme == Theme::Latte,
    {
        Theme::Latte
    }
}

impl Default for Accent {
    fn default() -> (accent: Accent)
        ensures
            accent == Accent::Rosewater,
    {
        Accent::Rosewater
    }
}

impl Theme {
    /// The theme's name on screen.
    pub open spec fn name(self) -> &'static str {
        match self {
            Theme::Latte => "Catppuccin Latte",
            Theme::SolarizedLight => "Solarized Light",
        }
    }

    /// The theme's name on screen.
    pub fn title(self) -> (title: &'static str)
        ensures
            title == self.name(),
    {
        match self {
            Theme::Latte => "Catppuccin Latte",
            Theme::SolarizedLight => "Solarized Light",
        }
    }

    /// How many accents the theme offers: all of them, or none.
    pub open spec fn accents(self) -> int {
        match self {
            Theme::Latte => ACCENTS@.len() as int,
            Theme::SolarizedLight => 0,
        }
    }

    /// How many accents the theme offers: all of them, or none.
    pub fn accent_count(self) -> (count: usize)
        ensures
            count == self.accents(),
            count <= 14,
    {
        match self {
            Theme::Latte => ACCENTS.len(),
            Theme::SolarizedLight => 0,
        }
    }

    /// The theme's place in the menu.
    pub open spec fn place(self) -> int {
        match self {
            Theme::Latte => 0,
            Theme::SolarizedLight => 1,
        }
    }

    /// The theme's place in the menu.
    pub fn index(self) -> (index: usize)
        ensures
            index == self.place(),
            THEMES@[index as int] == self,
    {
        match self {
            Theme::Latte => 0,
            Theme::SolarizedLight => 1,
        }
    }
}

impl Accent {
    /// The accent's name on screen.
    pub open spec fn name(self) -> &'static str {
        match self {
            Accent::Rosewater => "Rosewater",
            Accent::Flamingo => "Flamingo",
            Accent::Pink => "Pink",
            Accent::Mauve => "Mauve",
            Accent::Red => "Red",
            Accent::Maroon => "Maroon",
            Accent::Peach => "Peach",
            Accent::Yellow => "Yellow",
            Accent::Green => "Green",
            Accent::Teal => "Teal",
            Accent::Sky => "Sky",
            Accent::Sapphire => "Sapphire",
            Accent::Blue => "Blue",
            Accent::Lavender => "Lavender",
        }
    }

    /// The accent's name on screen.
    pub fn title(self) -> (title: &'static str)
        ensures
            title == self.name(),
    {
        match self {
            Accent::Rosewater => "Rosewater",
            Accent::Flamingo => "Flamingo",
            Accent::Pink => "Pink",
            Accent::Mauve => "Mauve",
            Accent::Red => "Red",
            Accent::Maroon => "Maroon",
            Accent::Peach => "Peach",
            Accent::Yellow => "Yellow",
            Accent::Green => "Green",
            Accent::Teal => "Teal",
            Accent::Sky => "Sky",
            Accent::Sapphire => "Sapphire",
            Accent::Blue => "Blue",
            Accent::Lavender => "Lavender",
        }
    }

    /// The accent's place in the menu.
    pub open spec fn place(self) -> int {
        match self {
            Accent::Rosewater => 0,
            Accent::Flamingo => 1,
            Accent::Pink => 2,
            Accent::Mauve => 3,
            Accent::Red => 4,
            Accent::Maroon => 5,
            Accent::Peach => 6,
            Accent::Yellow => 7,
            Accent::Green => 8,
            Accent::Teal => 9,
            Accent::Sky => 10,
            Accent::Sapphire => 11,
            Accent::Blue => 12,
            Accent::Lavender => 13,
        }
    }

    /// The accent's place in the menu.
    pub fn index(self) -> (index: usize)
        ensures
            index == self.place(),
            index < 14,
            ACCENTS@[index as int] == self,
    {
        match self {
            Accent::Rosewater => 0,
            Accent::Flamingo => 1,
            Accent::Pink => 2,
            Accent::Mauve => 3,
            Accent::Red => 4,
            Accent::Maroon => 5,
            Accent::Peach => 6,
            Accent::Yellow => 7,
            Accent::Green => 8,
            Accent::Teal => 9,
            Accent::Sky => 10,
            Accent::Sapphire => 11,
            Accent::Blue => 12,
            Accent::Lavender => 13,
        }
    }
}

} // verus!
