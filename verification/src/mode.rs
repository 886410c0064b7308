//! How the window is summoned.

use vstd::prelude::*;

use crate::text::str_eq;

verus! {

/// `Center` shows a floating window, `Dropdown` a strip at the top edge.
#[derive(Debug, Clone, Copy, PartialEq, Eq, Structural)]
pub enum WindowMode {
    Center,
    Dropdown,
}

impl WindowMode {
    /// The key under which the mode is stored in the configuration.
    pub open spec fn key(self) -> Seq<char> {
        match self {
            WindowMode::Center => "center"@,
            WindowMode::Dropdown => "dropdown"@,
        }
    }

    /// The name that the settings panel shows.
    pub fn display_name(self) -> (r: &'static str)
        ensures
            r@ == (match self {
                WindowMode::Center => "Center"@,
                WindowMode::Dropdown => "Dropdown"@,
            }),
    {
        match self {
            WindowMode::Center => "Center",
            WindowMode::Dropdown => "Dropdown",
        }
    }

    /// The next or previous mode: with two of them, the other one.
    pub fn cycle(self, forward: bool) -> (r: WindowMode)
        ensures
            r != self,
    {
        match (self, forward) {
            (WindowMode::Center, _) => WindowMode::Dropdown,
            (WindowMode::Dropdown, _) => WindowMode::Center,
        }
    }

    /// The mode stored under `s`; an unknown key means `Center`.
    pub fn from_config(s: &str) -> (r: WindowMode)
        ensures
            r == mode_of_key(s@),
    {
        if str_eq(s, "dropdown") {
            WindowMode::Dropdown
        } else {
            WindowMode::Center
        }
    }

    /// The key under which the mode is stored.
    pub fn to_config(self) -> (r: &'static str)
        ensures
            r@ == self.key(),
    {
        match self {
            WindowMode::Center => "center",
            WindowMode::Dropdown => "dropdown",
        }
    }
}

/// The mode whose key is `s`, or `Center` where there is none.
pub open spec fn mode_of_key(s: Seq<char>) -> WindowMode {
    if s == "dropdown"@ {
        WindowMode::Dropdown
    } else {
        WindowMode::Center
    }
}

/// Storing a mode and loading it again gives the same mode.
pub proof fn law_mode_round_trip(m: WindowMode)
    ensures
        mode_of_key(m.key()) == m,
{
    reveal_strlit("center");
    reveal_strlit("dropdown");
    assert("center"@[0] == 'c' && "dropdown"@[0] == 'd');
}

/// A window that is not said to be a dropdown floats.
pub proof fn law_modes_by_name(s: Seq<char>)
    ensures
        WindowMode::Center.key() == "center"@,
        WindowMode::Dropdown.key() == "dropdown"@,
        mode_of_key("dropdown"@) == WindowMode::Dropdown,
        s != "dropdown"@ ==> mode_of_key(s) == WindowMode::Center,
{
}

} // verus!
