//! The presentation mode and the record that persists it.

use vstd::prelude::*;

verus! {

/// How the backend is shown to the user.
#[derive(Clone, Copy, Debug, PartialEq, Eq, Structural)]
pub enum Mode {
    /// In a native window.
    Desktop,
    /// In a tab of the default browser.
    Browser,
}

impl Mode {
    /// The other mode.
    pub open spec fn flipped(self) -> Mode {
        match self {
            Mode::Desktop => Mode::Browser,
            Mode::Browser => Mode::Desktop,
        }
    }

    /// The canonical lower-case name of the mode.
    pub open spec fn name_text(self) -> Seq<char> {
        match self {
            Mode::Desktop => "desktop"@,
            Mode::Browser => "browser"@,
        }
    }

    /// Returns the other mode.
    pub fn toggled(self) -> (other: Mode)
        ensures
            other == self.flipped(),
    {
        match self {
            Mode::Desktop => Mode::Browser,
            Mode::Browser => Mode::Desktop,
        }
    }

    /// Returns the canonical lower-case name: `"desktop"` or `"browser"`.
    pub fn name(self) -> (text: &'static str)
        ensures
            text@ == self.name_text(),
    {
        match self {
            Mode::Desktop => "desktop",
            Mode::Browser => "browser",
        }
    }
}

/// Flipping a mode twice gives the mode back.
pub proof fn flip_is_an_involution(m: Mode)
    ensures
        m.flipped().flipped() == m,
        m.flipped() != m,
{
}

/// The persisted record: the one setting that survives a restart.
#[derive(Clone, Copy, Debug, PartialEq, Eq, Structural)]
pub struct Config {
    pub mode: Mode,
}

impl Default for Config {
    /// The record used when nothing was stored yet: desktop mode.
    fn default() -> (cfg: Config)
        ensures
            cfg == (Config { mode: Mode::Desktop }),
    {
        Config { mode: Mode::Desktop }
    }
}

} // verus!
